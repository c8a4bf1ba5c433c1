//! Caller identities.
//!
//! An identity is an opaque principal of at most 29 bytes. The engine only
//! ever compares identities and tells the anonymous one apart.

use candid::Principal;
use vstd::prelude::*;
use vstd::slice::slice_subrange;
use vstd::std_specs::cmp::PartialEqSpecImpl;

verus! {

/// Largest number of bytes an identity can carry.
pub const MAX_IDENTITY_LEN: usize = 29;

/// An opaque principal: between 0 and 29 significant bytes, held in a
/// fixed buffer whose unused tail is zero. Two identities are equal exactly
/// when their significant bytes are.
#[derive(Clone, Copy, Debug)]
pub struct Identity {
    len: u8,
    bytes: [u8; 29],
}

impl View for Identity {
    type V = Seq<u8>;

    /// The significant bytes.
    closed spec fn view(&self) -> Seq<u8> {
        self.bytes@.subrange(0, self.len as int)
    }
}

/// The bytes of the anonymous identity.
pub open spec fn anonymous_bytes() -> Seq<u8> {
    seq![4u8]
}

/// What `candid::Principal::from_text` makes of a text: the bytes of the
/// principal it names, or `None` where it rejects the text.
pub uninterp spec fn principal_from_text(text: Seq<char>) -> Option<Seq<u8>>;

/// Calls `candid::Principal::anonymous` and hands out the bytes of its
/// result. The anonymous principal is the single byte `0x04`.
#[verifier::external_body]
fn anonymous_principal_bytes() -> (v: Vec<u8>)
    ensures
        v@ == anonymous_bytes(),
{
    Principal::anonymous().as_slice().to_vec()
}

/// Calls `candid::Principal::from_text`, which decodes the dashed base32
/// form and checks its CRC32 prefix, and hands out the bytes of the
/// principal. The decoder refuses anything longer than 29 bytes.
#[verifier::external_body]
fn principal_text_bytes(text: &str) -> (r: Option<Vec<u8>>)
    ensures
        r is Some <==> principal_from_text(text@) is Some,
        r matches Some(v) ==> principal_from_text(text@) == Some(v@) && v@.len() <= 29,
{
    match Principal::from_text(text) {
        Ok(p) => Some(p.as_slice().to_vec()),
        Err(_) => None,
    }
}

impl Identity {
    /// The buffer is in canonical form: the length is in range and every
    /// byte past it is zero.
    #[verifier::type_invariant]
    pub closed spec fn wf(&self) -> bool {
        &&& self.len <= 29
        &&& forall|i: int| self.len <= i < 29 ==> self.bytes[i] == 0
    }

    /// Whether this is the anonymous identity.
    pub open spec fn is_anonymous_spec(&self) -> bool {
        self@ == anonymous_bytes()
    }

    /// Well-formed identities with the same bytes are the same identity.
    pub proof fn lemma_view_injective(a: Identity, b: Identity)
        requires
            a.wf(),
            b.wf(),
            a@ == b@,
        ensures
            a == b,
    {
        assert(a.len == b.len) by {
            assert(a@.len() == a.len);
            assert(b@.len() == b.len);
        }
        assert forall|i: int| 0 <= i < 29 implies a.bytes[i] == b.bytes[i] by {
            if i < a.len {
                assert(a@[i] == a.bytes[i]);
                assert(b@[i] == b.bytes[i]);
            }
        }
        assert(a.bytes =~= b.bytes);
    }

    /// Builds an identity from its significant bytes; `None` when there are
    /// more than 29 of them.
    pub fn from_slice(bytes: &[u8]) -> (r: Option<Identity>)
        ensures
            r is Some <==> bytes@.len() <= MAX_IDENTITY_LEN,
            r matches Some(id) ==> id@ == bytes@ && id.wf(),
    {
        if bytes.len() > MAX_IDENTITY_LEN {
            return None;
        }
        let mut buf: [u8; 29] = [0u8; 29];
        let mut i: usize = 0;
        while i < bytes.len()
            invariant
                i <= bytes@.len() <= 29,
                forall|j: int| 0 <= j < i ==> buf[j] == bytes@[j],
                forall|j: int| i <= j < 29 ==> buf[j] == 0,
            decreases bytes@.len() - i,
        {
            buf[i] = bytes[i];
            i += 1;
        }
        let id = Identity { len: bytes.len() as u8, bytes: buf };
        assert(id@ =~= bytes@);
        Some(id)
    }

    /// Parses the textual form of a principal.
    pub fn from_text(text: &str) -> (r: Option<Identity>)
        ensures
            r is Some <==> principal_from_text(text@) is Some,
            r matches Some(id) ==> principal_from_text(text@) == Some(id@) && id.wf(),
    {
        match principal_text_bytes(text) {
            Some(v) => Identity::from_slice(v.as_slice()),
            None => None,
        }
    }

    /// The anonymous identity.
    pub fn anonymous() -> (r: Identity)
        ensures
            r.is_anonymous_spec(),
            r.wf(),
    {
        let v = anonymous_principal_bytes();
        Identity::from_slice(v.as_slice()).unwrap()
    }

    /// Whether this is the anonymous identity.
    pub fn is_anonymous(&self) -> (r: bool)
        ensures
            r == self.is_anonymous_spec(),
    {
        let anon = Identity::anonymous();
        proof {
            use_type_invariant(self);
            use_type_invariant(&anon);
            if self@ == anon@ {
                Identity::lemma_view_injective(*self, anon);
            }
        }
        *self == anon
    }

    /// The significant bytes.
    pub fn as_slice(&self) -> (r: &[u8])
        ensures
            r@ == self@,
            r@.len() <= MAX_IDENTITY_LEN,
    {
        proof {
            use_type_invariant(self);
        }
        slice_subrange(self.bytes.as_slice(), 0, self.len as usize)
    }
}

impl PartialEq for Identity {
    fn eq(&self, other: &Identity) -> (r: bool) {
        if self.len != other.len {
            return false;
        }
        let mut i: usize = 0;
        while i < 29
            invariant
                i <= 29,
                forall|j: int| 0 <= j < i ==> self.bytes[j] == other.bytes[j],
            decreases 29 - i,
        {
            if self.bytes[i] != other.bytes[i] {
                return false;
            }
            i += 1;
        }
        assert(self.bytes =~= other.bytes);
        true
    }
}

impl PartialEqSpecImpl for Identity {
    open spec fn obeys_eq_spec() -> bool {
        true
    }

    open spec fn eq_spec(&self, other: &Identity) -> bool {
        *self == *other
    }
}

impl Eq for Identity {}

} // verus!
