//! Role masks: 32 roles, one bit each.

use vstd::prelude::*;

verus! {

/// The mask with only the bit of `role` set; zero for a number that is no
/// role.
pub open spec fn role_bit(role: u8) -> u32 {
    if role < 32 {
        1u32 << role
    } else {
        0
    }
}

/// Whether `mask` holds `role`. No mask holds a number that is no role.
pub open spec fn holds_role(mask: u32, role: u8) -> bool {
    mask & role_bit(role) != 0
}

/// The mask of all roles listed in `roles`; numbers that are no role add
/// nothing.
pub open spec fn roles_mask(roles: Seq<u8>) -> u32
    decreases roles.len(),
{
    if roles.len() == 0 {
        0
    } else {
        roles_mask(roles.drop_last()) | role_bit(roles.last())
    }
}

/// Setting the bit of `a` adds `a` to the roles held, and nothing else.
pub(crate) proof fn lemma_bit_or(m: u32, a: u8, r: u8)
    by (bit_vector)
    requires
        a < 32,
        r < 32,
    ensures
        ((m | (1u32 << a)) & (1u32 << r) != 0) == ((m & (1u32 << r) != 0) || a == r),
{
}

/// The empty mask adds nothing and holds nothing.
pub(crate) proof fn lemma_zero_mask(m: u32)
    by (bit_vector)
    ensures
        m | 0 == m,
        m & 0 == 0,
        0u32 & m == 0,
{
}

/// A union of masks holds what one of them holds.
pub(crate) proof fn lemma_or_bit(m: u32, a: u32, b: u32)
    by (bit_vector)
    ensures
        ((m | a) & b != 0) == ((m & b != 0) || (a & b != 0)),
{
}

/// A mask less another holds what it held and the other does not.
pub(crate) proof fn lemma_and_not_bit(m: u32, a: u32, r: u8)
    by (bit_vector)
    requires
        r < 32,
    ensures
        ((m & !a) & (1u32 << r) != 0) == ((m & (1u32 << r) != 0) && !(a & (1u32 << r) != 0)),
{
}

/// A row that gained a role meets every mask that holds that role.
pub(crate) proof fn lemma_delegated_bit(row: u32, added: u32, held: u32, a: u8)
    by (bit_vector)
    requires
        a < 32,
        added & (1u32 << a) != 0,
        held & (1u32 << a) != 0,
    ensures
        (row | added) & held != 0,
{
}

/// The empty mask holds no role.
pub proof fn lemma_empty_mask(role: u8)
    ensures
        !holds_role(0, role),
{
    lemma_zero_mask(role_bit(role));
}

/// A mask of listed roles holds exactly the listed roles.
pub proof fn lemma_roles_mask_holds(roles: Seq<u8>, role: u8)
    ensures
        holds_role(roles_mask(roles), role) <==> role < 32 && roles.contains(role),
    decreases roles.len(),
{
    if roles.len() == 0 {
        lemma_empty_mask(role);
    } else {
        let head = roles.drop_last();
        let last = roles.last();
        lemma_roles_mask_holds(head, role);
        let m = roles_mask(head);
        if role < 32 {
            if last < 32 {
                lemma_bit_or(m, last, role);
            } else {
                lemma_zero_mask(m);
            }
            if roles.contains(role) {
                let i = choose|i: int| 0 <= i < roles.len() && roles[i] == role;
                if i < roles.len() - 1 {
                    assert(head[i] == role);
                }
            }
            if head.contains(role) {
                let i = choose|i: int| 0 <= i < head.len() && head[i] == role;
                assert(roles[i] == role);
            }
            if last == role {
                assert(roles[roles.len() - 1] == role);
            }
        } else {
            assert(roles_mask(roles) & 0u32 == 0) by {
                lemma_zero_mask(roles_mask(roles));
            }
        }
    }
}

/// Whether `mask` holds `role`.
pub(crate) fn mask_holds(mask: u32, role: u8) -> (r: bool)
    ensures
        r == holds_role(mask, role),
{
    if role < 32 {
        mask & (1u32 << role) != 0
    } else {
        proof {
            lemma_zero_mask(mask);
        }
        false
    }
}

/// The mask of the listed roles.
pub(crate) fn mask_of_roles(roles: &Vec<u8>) -> (mask: u32)
    ensures
        mask == roles_mask(roles@),
{
    let mut mask: u32 = 0;
    let mut i: usize = 0;
    proof {
        assert(roles@.subrange(0, 0) =~= Seq::<u8>::empty());
    }
    while i < roles.len()
        invariant
            i <= roles@.len(),
            mask == roles_mask(roles@.subrange(0, i as int)),
        decreases roles@.len() - i,
    {
        proof {
            assert(roles@.subrange(0, i + 1).drop_last() =~= roles@.subrange(0, i as int));
            lemma_zero_mask(mask);
        }
        let role = roles[i];
        if role < 32 {
            mask = mask | (1u32 << role);
        }
        i += 1;
    }
    proof {
        assert(roles@.subrange(0, i as int) =~= roles@);
    }
    mask
}

/// Whether `mask` holds every role of `roles`.
pub(crate) fn mask_holds_all(mask: u32, roles: &Vec<u8>) -> (r: bool)
    ensures
        r == forall|i: int| 0 <= i < roles@.len() ==> holds_role(mask, #[trigger] roles@[i]),
{
    let mut i: usize = 0;
    while i < roles.len()
        invariant
            i <= roles@.len(),
            forall|j: int| 0 <= j < i ==> holds_role(mask, #[trigger] roles@[j]),
        decreases roles@.len() - i,
    {
        if !mask_holds(mask, roles[i]) {
            return false;
        }
        i += 1;
    }
    true
}

/// Whether `mask` holds some role of `roles`.
pub(crate) fn mask_holds_any(mask: u32, roles: &Vec<u8>) -> (r: bool)
    ensures
        r == exists|i: int| 0 <= i < roles@.len() && holds_role(mask, #[trigger] roles@[i]),
{
    let mut i: usize = 0;
    while i < roles.len()
        invariant
            i <= roles@.len(),
            forall|j: int| 0 <= j < i ==> !holds_role(mask, #[trigger] roles@[j]),
        decreases roles@.len() - i,
    {
        if mask_holds(mask, roles[i]) {
            return true;
        }
        i += 1;
    }
    false
}

} // verus!
