//! Ownership, the admin set and role-based access control.
//!
//! The owner is the single top-tier authority and manages the admin set.
//! Admins manage the delegation matrix and may grant or revoke any role.
//! A fixed number of 32 roles exist, numbered 0 to 31; each identity holds a
//! 32-bit mask of them, and `admins_of_role[r]` is the mask of the roles
//! whose holders may grant or revoke role `r`.
//!
//! Every operation takes the record, or the role store, and the identity of
//! the caller. A refused operation changes nothing.

use crate::identity::Identity;
use crate::identity_list::distinct;
use crate::identity_list::lemma_distinct;
use crate::identity_list::lemma_without;
use crate::identity_list::list_without;
use crate::identity_list::listed;
use crate::identity_list::without;
use crate::memory_map::entry_at;
use crate::memory_map::role_map_get;
use crate::memory_map::role_map_insert;
use crate::memory_map::RoleStore;
use crate::role_mask::holds_role;
use crate::role_mask::mask_holds;
use crate::role_mask::mask_holds_all;
use crate::role_mask::mask_holds_any;
use crate::role_mask::mask_of_roles;
use crate::role_mask::roles_mask;
use vstd::prelude::*;

verus! {

/// Why an operation was refused.
#[derive(Clone, Copy, Debug, PartialEq, Eq, Structural)]
pub enum AccessError {
    /// The caller is not the owner.
    NotOwner,
    /// The caller is not an admin.
    NotAdmin,
    /// The caller is not the pending owner.
    NotPendingOwner,
    /// No ownership transfer is in flight.
    NoPendingOwner,
    /// Ownership cannot go to the anonymous identity.
    AnonymousOwner,
    /// The anonymous identity cannot become an admin.
    AnonymousAdmin,
}

impl AccessError {
    /// The message that goes with the error.
    pub open spec fn text(self) -> Seq<char> {
        match self {
            AccessError::NotOwner => "Caller is not the owner"@,
            AccessError::NotAdmin => "Caller is not an admin"@,
            AccessError::NotPendingOwner => "Only pending owner can accept ownership"@,
            AccessError::NoPendingOwner => "No pending owner"@,
            AccessError::AnonymousOwner => "Cannot transfer ownership to the anonymous principal"@,
            AccessError::AnonymousAdmin => "Cannot grant admin to the anonymous principal"@,
        }
    }

    /// Whether the error says that the caller lacks a status, as opposed to
    /// a call that no caller could have made in this state.
    pub open spec fn is_authorization_spec(self) -> bool {
        self is NotOwner || self is NotAdmin || self is NotPendingOwner
    }

    /// The message that goes with the error.
    pub fn message(&self) -> (r: String)
        ensures
            r@ == self.text(),
    {
        match self {
            AccessError::NotOwner => String::from_str("Caller is not the owner"),
            AccessError::NotAdmin => String::from_str("Caller is not an admin"),
            AccessError::NotPendingOwner => String::from_str(
                "Only pending owner can accept ownership",
            ),
            AccessError::NoPendingOwner => String::from_str("No pending owner"),
            AccessError::AnonymousOwner => String::from_str(
                "Cannot transfer ownership to the anonymous principal",
            ),
            AccessError::AnonymousAdmin => String::from_str(
                "Cannot grant admin to the anonymous principal",
            ),
        }
    }

    /// Whether the error is an authorization failure, which the service
    /// reports to the caller, rather than a violated precondition, on which
    /// it aborts the call.
    pub fn is_authorization(&self) -> (r: bool)
        ensures
            r == self.is_authorization_spec(),
    {
        match self {
            AccessError::NotOwner => true,
            AccessError::NotAdmin => true,
            AccessError::NotPendingOwner => true,
            _ => false,
        }
    }
}

/// The permission record as a mathematical value.
#[verifier::ext_equal]
pub struct AccessState {
    /// The owner, if ownership was not renounced.
    pub owner: Option<Identity>,
    /// The candidate of a transfer in flight.
    pub pending_owner: Option<Identity>,
    /// The admins, in the order in which they were granted.
    pub admins: Seq<Identity>,
    /// For each role, the mask of the roles that administer it.
    pub admins_of_role: Seq<u32>,
}

impl AccessState {
    /// No admin is listed twice, and the matrix has one row per role.
    pub open spec fn wf(self) -> bool {
        &&& self.admins.no_duplicates()
        &&& self.admins_of_role.len() == 32
    }

    /// The record of a service that `owner` has just initialized.
    pub open spec fn init(owner: Identity) -> AccessState {
        AccessState {
            owner: Some(owner),
            pending_owner: None,
            admins: seq![owner],
            admins_of_role: Seq::new(32, |i: int| 0u32),
        }
    }

    /// Whether `id` is the owner.
    pub open spec fn is_owner(self, id: Identity) -> bool {
        self.owner == Some(id)
    }

    /// Whether `id` is in the admin set.
    pub open spec fn is_admin(self, id: Identity) -> bool {
        self.admins.contains(id)
    }

    /// First step of a transfer: the owner names a candidate, or cancels
    /// with `None`.
    pub open spec fn transfer_ownership(
        self,
        caller: Identity,
        new_owner: Option<Identity>,
    ) -> Result<AccessState, AccessError> {
        if !self.is_owner(caller) {
            Err(AccessError::NotOwner)
        } else if new_owner is Some && new_owner->0.is_anonymous_spec() {
            Err(AccessError::AnonymousOwner)
        } else {
            Ok(AccessState { pending_owner: new_owner, ..self })
        }
    }

    /// Transfer in one step: the owner sets the owner.
    pub open spec fn transfer_ownership_immediate(
        self,
        caller: Identity,
        new_owner: Option<Identity>,
    ) -> Result<AccessState, AccessError> {
        if !self.is_owner(caller) {
            Err(AccessError::NotOwner)
        } else if new_owner is Some && new_owner->0.is_anonymous_spec() {
            Err(AccessError::AnonymousOwner)
        } else {
            Ok(AccessState { owner: new_owner, pending_owner: None, ..self })
        }
    }

    /// The owner gives ownership up for good.
    pub open spec fn renounce_ownership(self, caller: Identity) -> Result<
        AccessState,
        AccessError,
    > {
        if !self.is_owner(caller) {
            Err(AccessError::NotOwner)
        } else {
            Ok(AccessState { owner: None, pending_owner: None, ..self })
        }
    }

    /// Second step of a transfer: the candidate takes ownership.
    pub open spec fn accept_ownership(self, caller: Identity) -> Result<AccessState, AccessError> {
        if self.pending_owner is None {
            Err(AccessError::NoPendingOwner)
        } else if self.pending_owner != Some(caller) {
            Err(AccessError::NotPendingOwner)
        } else {
            Ok(AccessState { owner: Some(caller), pending_owner: None, ..self })
        }
    }

    /// The owner adds an admin; adding one who is an admin changes nothing.
    pub open spec fn grant_admin(self, caller: Identity, new_admin: Identity) -> Result<
        AccessState,
        AccessError,
    > {
        if !self.is_owner(caller) {
            Err(AccessError::NotOwner)
        } else if new_admin.is_anonymous_spec() {
            Err(AccessError::AnonymousAdmin)
        } else if self.is_admin(new_admin) {
            Ok(self)
        } else {
            Ok(AccessState { admins: self.admins.push(new_admin), ..self })
        }
    }

    /// The owner removes an admin; removing one who is none changes nothing.
    pub open spec fn revoke_admin(self, caller: Identity, admin: Identity) -> Result<
        AccessState,
        AccessError,
    > {
        if !self.is_owner(caller) {
            Err(AccessError::NotOwner)
        } else {
            Ok(AccessState { admins: without(self.admins, admin), ..self })
        }
    }

    /// An admin leaves the admin set.
    pub open spec fn renounce_admin(self, caller: Identity) -> Result<AccessState, AccessError> {
        if !self.is_admin(caller) {
            Err(AccessError::NotAdmin)
        } else {
            Ok(AccessState { admins: without(self.admins, caller), ..self })
        }
    }

    /// Whether a caller who holds `caller_mask` may grant or revoke `role`:
    /// an admin may manage every role, anyone else a role that one of
    /// their own roles administers.
    pub open spec fn may_manage(self, caller: Identity, caller_mask: u32, role: u8) -> bool {
        role < 32 && (self.is_admin(caller) || self.admins_of_role[role as int] & caller_mask != 0)
    }

    /// Those of `roles` that the caller may manage, in their order.
    pub open spec fn managed(self, caller: Identity, caller_mask: u32, roles: Seq<u8>) -> Seq<u8> {
        roles.filter(|role: u8| self.may_manage(caller, caller_mask, role))
    }

    /// Per requested role, whether the caller may manage it.
    pub open spec fn manage_flags(self, caller: Identity, caller_mask: u32, roles: Seq<u8>) -> Seq<
        bool,
    > {
        roles.map_values(|role: u8| self.may_manage(caller, caller_mask, role))
    }

    /// An admin adds `roles` to the roles that administer `role`. A `role`
    /// out of range changes nothing.
    pub open spec fn set_role_admins(self, caller: Identity, role: u8, roles: Seq<u8>) -> Result<
        AccessState,
        AccessError,
    > {
        if !self.is_admin(caller) {
            Err(AccessError::NotAdmin)
        } else if role >= 32 {
            Ok(self)
        } else {
            Ok(
                AccessState {
                    admins_of_role: self.admins_of_role.update(
                        role as int,
                        self.admins_of_role[role as int] | roles_mask(roles),
                    ),
                    ..self
                },
            )
        }
    }

    /// An admin takes `roles` from the roles that administer `role`. A
    /// `role` out of range changes nothing.
    pub open spec fn revoke_role_admins(
        self,
        caller: Identity,
        role: u8,
        roles: Seq<u8>,
    ) -> Result<AccessState, AccessError> {
        if !self.is_admin(caller) {
            Err(AccessError::NotAdmin)
        } else if role >= 32 {
            Ok(self)
        } else {
            Ok(
                AccessState {
                    admins_of_role: self.admins_of_role.update(
                        role as int,
                        self.admins_of_role[role as int] & !roles_mask(roles),
                    ),
                    ..self
                },
            )
        }
    }
}

/// What an operation owes: on `Ok` the record is the one that `expected`
/// names, on `Err` the error is the one it names and the record is as
/// before.
pub open spec fn outcome(
    pre: AccessState,
    expected: Result<AccessState, AccessError>,
    post: AccessState,
    result: Result<(), AccessError>,
) -> bool {
    match expected {
        Ok(s) => result is Ok && post == s,
        Err(e) => result == Err::<(), AccessError>(e) && post == pre,
    }
}

/// The mask that `entries` assigns to `id`; none assigned is the empty
/// mask.
pub open spec fn mask_of(entries: Map<Seq<u8>, u32>, id: Identity) -> u32 {
    match entry_at(entries, id@) {
        Some(mask) => mask,
        None => 0,
    }
}

/// The role assignments after the caller has granted `roles` to `target`:
/// the target's mask gains the bit of each role that the caller may manage.
/// The caller's own mask is read before anything is written.
pub open spec fn after_grant(
    s: AccessState,
    entries: Map<Seq<u8>, u32>,
    caller: Identity,
    roles: Seq<u8>,
    target: Identity,
) -> Map<Seq<u8>, u32> {
    let allowed = s.managed(caller, mask_of(entries, caller), roles);
    entries.insert(target@, mask_of(entries, target) | roles_mask(allowed))
}

/// The role assignments after the caller has revoked `roles` from
/// `target`: the target's mask loses the bit of each role that the caller
/// may manage.
pub open spec fn after_revoke(
    s: AccessState,
    entries: Map<Seq<u8>, u32>,
    caller: Identity,
    roles: Seq<u8>,
    target: Identity,
) -> Map<Seq<u8>, u32> {
    let allowed = s.managed(caller, mask_of(entries, caller), roles);
    entries.insert(target@, mask_of(entries, target) & !roles_mask(allowed))
}

/// The permission record: owner, pending owner, admins and delegation
/// matrix.
#[derive(Clone, Debug)]
pub struct AccessControl {
    owner: Option<Identity>,
    pending_owner: Option<Identity>,
    admins: Vec<Identity>,
    admins_of_role: [u32; 32],
}

impl View for AccessControl {
    type V = AccessState;

    closed spec fn view(&self) -> AccessState {
        AccessState {
            owner: self.owner,
            pending_owner: self.pending_owner,
            admins: self.admins@,
            admins_of_role: self.admins_of_role@,
        }
    }
}

impl AccessControl {
    /// Rebuilds a record from its stored fields. An admin that is listed
    /// more than once is kept at its first place only.
    pub fn from_parts(
        owner: Option<Identity>,
        pending_owner: Option<Identity>,
        admins: Vec<Identity>,
        admins_of_role: [u32; 32],
    ) -> (ac: AccessControl)
        ensures
            ac@ == (AccessState {
                owner,
                pending_owner,
                admins: distinct(admins@),
                admins_of_role: admins_of_role@,
            }),
            ac@.wf(),
    {
        let mut kept: Vec<Identity> = Vec::new();
        let mut i: usize = 0;
        proof {
            assert(admins@.subrange(0, 0) =~= Seq::<Identity>::empty());
        }
        while i < admins.len()
            invariant
                i <= admins@.len(),
                kept@ == distinct(admins@.subrange(0, i as int)),
            decreases admins@.len() - i,
        {
            proof {
                assert(admins@.subrange(0, i + 1).drop_last() =~= admins@.subrange(0, i as int));
            }
            let a = admins[i];
            if !listed(&kept, &a) {
                kept.push(a);
            }
            i += 1;
        }
        proof {
            assert(admins@.subrange(0, i as int) =~= admins@);
            lemma_distinct(admins@);
        }
        AccessControl { owner, pending_owner, admins: kept, admins_of_role }
    }

    /// The admins, in the order in which they were granted.
    pub fn admins(&self) -> (r: Vec<Identity>)
        ensures
            r@ == self@.admins,
    {
        let mut r: Vec<Identity> = Vec::with_capacity(self.admins.len());
        let mut i: usize = 0;
        while i < self.admins.len()
            invariant
                i <= self.admins@.len(),
                r@ == self.admins@.subrange(0, i as int),
            decreases self.admins@.len() - i,
        {
            r.push(self.admins[i]);
            i += 1;
            proof {
                assert(r@ =~= self.admins@.subrange(0, i as int));
            }
        }
        proof {
            assert(r@ =~= self.admins@);
        }
        r
    }

    /// For each role, the mask of the roles that administer it.
    pub fn admins_of_role(&self) -> (r: [u32; 32])
        ensures
            r@ == self@.admins_of_role,
    {
        self.admins_of_role
    }
}

/// The record of a freshly initialized service: `owner` is the owner and
/// the only admin, no transfer is pending and no role has an admin role.
pub fn access_init(owner: Identity) -> (ac: AccessControl)
    ensures
        ac@ == AccessState::init(owner),
        ac@.wf(),
{
    let mut admins: Vec<Identity> = Vec::new();
    admins.push(owner);
    let ac = AccessControl {
        owner: Some(owner),
        pending_owner: None,
        admins,
        admins_of_role: [0u32; 32],
    };
    assert(ac@.admins =~= seq![owner]);
    assert(ac@.admins_of_role =~= Seq::new(32, |i: int| 0u32));
    ac
}

/// Guard: succeeds when `caller` is the owner.
pub fn only_owner(ac: &AccessControl, caller: &Identity) -> (r: Result<(), String>)
    ensures
        r is Ok <==> ac@.is_owner(*caller),
        r matches Err(e) ==> e@ == AccessError::NotOwner.text(),
{
    if ac.owner == Some(*caller) {
        Ok(())
    } else {
        Err(AccessError::NotOwner.message())
    }
}

/// Whether `owner` is the owner.
pub fn is_owner(ac: &AccessControl, owner: &Identity) -> (r: bool)
    ensures
        r == ac@.is_owner(*owner),
{
    ac.owner == Some(*owner)
}

/// Starts a two-step transfer of ownership to `new_owner`, or cancels the
/// pending one when `new_owner` is `None`. Only the owner may do so, and
/// the candidate cannot be the anonymous identity. The owner stays the
/// owner until the candidate accepts.
pub fn transfer_ownership(
    ac: &mut AccessControl,
    caller: &Identity,
    new_owner: Option<Identity>,
) -> (r: Result<(), AccessError>)
    ensures
        outcome(old(ac)@, old(ac)@.transfer_ownership(*caller, new_owner), final(ac)@, r),
{
    if !(ac.owner == Some(*caller)) {
        return Err(AccessError::NotOwner);
    }
    if let Some(x) = new_owner {
        if x.is_anonymous() {
            return Err(AccessError::AnonymousOwner);
        }
    }
    ac.pending_owner = new_owner;
    Ok(())
}

/// Hands ownership to `new_owner` in one step and drops any pending
/// transfer. Only the owner may do so. There is no recourse if the wrong
/// identity is named.
pub fn transfer_ownership_immediate(
    ac: &mut AccessControl,
    caller: &Identity,
    new_owner: Option<Identity>,
) -> (r: Result<(), AccessError>)
    ensures
        outcome(
            old(ac)@,
            old(ac)@.transfer_ownership_immediate(*caller, new_owner),
            final(ac)@,
            r,
        ),
{
    if !(ac.owner == Some(*caller)) {
        return Err(AccessError::NotOwner);
    }
    if let Some(x) = new_owner {
        if x.is_anonymous() {
            return Err(AccessError::AnonymousOwner);
        }
    }
    ac.pending_owner = None;
    ac.owner = new_owner;
    Ok(())
}

/// Gives ownership up: afterwards there is no owner and no pending owner.
/// Only the owner may do so.
pub fn renounce_ownership(ac: &mut AccessControl, caller: &Identity) -> (r: Result<
    (),
    AccessError,
>)
    ensures
        outcome(old(ac)@, old(ac)@.renounce_ownership(*caller), final(ac)@, r),
{
    if !(ac.owner == Some(*caller)) {
        return Err(AccessError::NotOwner);
    }
    ac.owner = None;
    ac.pending_owner = None;
    Ok(())
}

/// Completes a two-step transfer: the pending owner becomes the owner.
pub fn accept_ownership(ac: &mut AccessControl, caller: &Identity) -> (r: Result<(), AccessError>)
    ensures
        outcome(old(ac)@, old(ac)@.accept_ownership(*caller), final(ac)@, r),
{
    match ac.pending_owner {
        None => Err(AccessError::NoPendingOwner),
        Some(new_owner) => {
            if !(new_owner == *caller) {
                return Err(AccessError::NotPendingOwner);
            }
            ac.owner = Some(new_owner);
            ac.pending_owner = None;
            Ok(())
        },
    }
}

/// The owner, if there is one.
pub fn owner(ac: &AccessControl) -> (r: Option<Identity>)
    ensures
        r == ac@.owner,
{
    ac.owner
}

/// The candidate of the transfer in flight, if there is one.
pub fn pending_owner(ac: &AccessControl) -> (r: Option<Identity>)
    ensures
        r == ac@.pending_owner,
{
    ac.pending_owner
}

/// The owner and the pending owner.
pub fn owner_and_pending_owner(ac: &AccessControl) -> (r: (Option<Identity>, Option<Identity>))
    ensures
        r.0 == ac@.owner,
        r.1 == ac@.pending_owner,
{
    (ac.owner, ac.pending_owner)
}

/// Guard: succeeds when `caller` is an admin.
pub fn only_admin(ac: &AccessControl, caller: &Identity) -> (r: Result<(), String>)
    ensures
        r is Ok <==> ac@.is_admin(*caller),
        r matches Err(e) ==> e@ == AccessError::NotAdmin.text(),
{
    if is_admin(ac, caller) {
        Ok(())
    } else {
        Err(AccessError::NotAdmin.message())
    }
}

/// Whether `admin` is in the admin set.
pub fn is_admin(ac: &AccessControl, admin: &Identity) -> (r: bool)
    ensures
        r == ac@.is_admin(*admin),
{
    listed(&ac.admins, admin)
}

/// Adds `new_admin` to the admin set. Only the owner may do so, and the
/// anonymous identity cannot become an admin. Granting to an admin changes
/// nothing.
pub fn grant_admin(ac: &mut AccessControl, caller: &Identity, new_admin: Identity) -> (r: Result<
    (),
    AccessError,
>)
    ensures
        outcome(old(ac)@, old(ac)@.grant_admin(*caller, new_admin), final(ac)@, r),
        old(ac)@.wf() ==> final(ac)@.wf(),
{
    if !(ac.owner == Some(*caller)) {
        return Err(AccessError::NotOwner);
    }
    if new_admin.is_anonymous() {
        return Err(AccessError::AnonymousAdmin);
    }
    if !is_admin(ac, &new_admin) {
        ac.admins.push(new_admin);
    }
    Ok(())
}

/// Removes `admin` from the admin set. Only the owner may do so. Revoking
/// from an identity that is no admin changes nothing.
pub fn revoke_admin(ac: &mut AccessControl, caller: &Identity, admin: Identity) -> (r: Result<
    (),
    AccessError,
>)
    ensures
        outcome(old(ac)@, old(ac)@.revoke_admin(*caller, admin), final(ac)@, r),
        old(ac)@.wf() ==> final(ac)@.wf(),
{
    if !(ac.owner == Some(*caller)) {
        return Err(AccessError::NotOwner);
    }
    proof {
        lemma_without(ac.admins@, admin);
    }
    ac.admins = list_without(&ac.admins, &admin);
    Ok(())
}

/// Removes the caller from the admin set. The caller must be an admin.
pub fn renounce_admin(ac: &mut AccessControl, caller: &Identity) -> (r: Result<(), AccessError>)
    ensures
        outcome(old(ac)@, old(ac)@.renounce_admin(*caller), final(ac)@, r),
        old(ac)@.wf() ==> final(ac)@.wf(),
{
    if !is_admin(ac, caller) {
        return Err(AccessError::NotAdmin);
    }
    proof {
        lemma_without(ac.admins@, *caller);
    }
    ac.admins = list_without(&ac.admins, caller);
    Ok(())
}

/// Whether one of the roles in `role_flag` administers `role`.
pub fn is_role_admin(ac: &AccessControl, role_flag: u32, role: u8) -> (r: bool)
    requires
        role <= 31,
    ensures
        r == (ac@.admins_of_role[role as int] & role_flag != 0),
{
    ac.admins_of_role[role as usize] & role_flag != 0
}

/// Walks the requested roles: which of them the caller may manage, and the
/// mask of those.
fn managed_roles(ac: &AccessControl, caller: &Identity, caller_mask: u32, roles: &Vec<u8>) -> (r: (
    Vec<bool>,
    u32,
))
    ensures
        r.0@ == ac@.manage_flags(*caller, caller_mask, roles@),
        r.1 == roles_mask(ac@.managed(*caller, caller_mask, roles@)),
{
    let caller_is_admin = is_admin(ac, caller);
    let mut success: Vec<bool> = Vec::with_capacity(roles.len());
    let mut mask: u32 = 0;
    let mut i: usize = 0;
    proof {
        reveal(Seq::filter);
        assert(roles@.subrange(0, 0) =~= Seq::<u8>::empty());
    }
    while i < roles.len()
        invariant
            i <= roles@.len(),
            caller_is_admin == ac@.is_admin(*caller),
            success@ == ac@.manage_flags(*caller, caller_mask, roles@.subrange(0, i as int)),
            mask == roles_mask(ac@.managed(*caller, caller_mask, roles@.subrange(0, i as int))),
        decreases roles@.len() - i,
    {
        let role = roles[i];
        proof {
            reveal(Seq::filter);
            let seen = roles@.subrange(0, i as int);
            let kept = ac@.managed(*caller, caller_mask, seen);
            assert(roles@.subrange(0, i + 1).drop_last() =~= seen);
            assert(roles@.subrange(0, i + 1).last() == role);
            assert(kept.push(role).drop_last() =~= kept);
        }
        if role <= 31 && (caller_is_admin || is_role_admin(ac, caller_mask, role)) {
            mask = mask | (1u32 << role);
            success.push(true);
        } else {
            success.push(false);
        }
        i += 1;
        proof {
            assert(success@ =~= ac@.manage_flags(
                *caller,
                caller_mask,
                roles@.subrange(0, i as int),
            ));
        }
    }
    proof {
        assert(roles@.subrange(0, i as int) =~= roles@);
    }
    (success, mask)
}

/// Grants `roles` to `principal`. Each role is granted if it is a role and
/// the caller is an admin or holds a role that administers it; the result
/// says so per requested role, in the order of the request. A role that
/// the target holds already counts as granted when the caller may grant
/// it, and as refused when not.
pub fn grant_roles(
    ac: &AccessControl,
    store: &mut RoleStore,
    caller: &Identity,
    roles: Vec<u8>,
    principal: &Identity,
) -> (success: Vec<bool>)
    ensures
        success@ == ac@.manage_flags(*caller, mask_of(old(store)@, *caller), roles@),
        final(store)@ == after_grant(ac@, old(store)@, *caller, roles@, *principal),
{
    let principal_roles = get_user_roles(store, principal);
    let caller_roles = get_user_roles(store, caller);
    let (success, granted) = managed_roles(ac, caller, caller_roles, &roles);
    role_map_insert(store, principal.as_slice(), principal_roles | granted);
    success
}

/// Revokes `roles` from `principal`, by the same rule as `grant_roles`. A
/// role that the target does not hold counts as revoked when the caller
/// may revoke it, and as refused when not.
pub fn revoke_roles(
    ac: &AccessControl,
    store: &mut RoleStore,
    caller: &Identity,
    roles: Vec<u8>,
    principal: &Identity,
) -> (success: Vec<bool>)
    ensures
        success@ == ac@.manage_flags(*caller, mask_of(old(store)@, *caller), roles@),
        final(store)@ == after_revoke(ac@, old(store)@, *caller, roles@, *principal),
{
    let principal_roles = get_user_roles(store, principal);
    let caller_roles = get_user_roles(store, caller);
    let (success, revoked) = managed_roles(ac, caller, caller_roles, &roles);
    role_map_insert(store, principal.as_slice(), principal_roles & !revoked);
    success
}

/// The mask assigned to `principal`, zero if none is.
pub fn get_user_roles(store: &RoleStore, principal: &Identity) -> (mask: u32)
    ensures
        mask == mask_of(store@, *principal),
{
    match role_map_get(store, principal.as_slice()) {
        Some(mask) => mask,
        None => 0,
    }
}

/// Whether `principal` holds `role`.
pub fn user_has_role(store: &RoleStore, role: u8, principal: &Identity) -> (r: bool)
    ensures
        r == holds_role(mask_of(store@, *principal), role),
{
    mask_holds(get_user_roles(store, principal), role)
}

/// Guard: succeeds when the caller holds `role`.
pub fn has_role(store: &RoleStore, caller: &Identity, role: u8) -> (r: Result<(), String>)
    ensures
        r is Ok <==> holds_role(mask_of(store@, *caller), role),
        r matches Err(e) ==> e@ == "Unauthorized"@,
{
    if user_has_role(store, role, caller) {
        Ok(())
    } else {
        Err(String::from_str("Unauthorized"))
    }
}

/// Whether `principal` holds every role of `roles`; true of an empty
/// list.
pub fn user_has_roles_all(store: &RoleStore, roles: Vec<u8>, principal: &Identity) -> (r: bool)
    ensures
        r == forall|i: int|
            0 <= i < roles@.len() ==> holds_role(
                mask_of(store@, *principal),
                #[trigger] roles@[i],
            ),
{
    mask_holds_all(get_user_roles(store, principal), &roles)
}

/// Guard: succeeds when the caller holds every role of `roles`.
pub fn has_roles_all(store: &RoleStore, caller: &Identity, roles: Vec<u8>) -> (r: Result<
    (),
    String,
>)
    ensures
        r is Ok <==> forall|i: int|
            0 <= i < roles@.len() ==> holds_role(mask_of(store@, *caller), #[trigger] roles@[i]),
        r matches Err(e) ==> e@ == "Unauthorized"@,
{
    if user_has_roles_all(store, roles, caller) {
        Ok(())
    } else {
        Err(String::from_str("Unauthorized"))
    }
}

/// Whether `principal` holds some role of `roles`; false of an empty
/// list.
pub fn user_has_roles_any(store: &RoleStore, roles: Vec<u8>, principal: &Identity) -> (r: bool)
    ensures
        r == exists|i: int|
            0 <= i < roles@.len() && holds_role(
                mask_of(store@, *principal),
                #[trigger] roles@[i],
            ),
{
    mask_holds_any(get_user_roles(store, principal), &roles)
}

/// Guard: succeeds when the caller holds some role of `roles`.
pub fn has_roles_any(store: &RoleStore, caller: &Identity, roles: Vec<u8>) -> (r: Result<
    (),
    String,
>)
    ensures
        r is Ok <==> exists|i: int|
            0 <= i < roles@.len() && holds_role(mask_of(store@, *caller), #[trigger] roles@[i]),
        r matches Err(e) ==> e@ == "Unauthorized"@,
{
    if user_has_roles_any(store, roles, caller) {
        Ok(())
    } else {
        Err(String::from_str("Unauthorized"))
    }
}

/// Adds the roles `admins` to those that administer `role`. Only an admin
/// may do so. A `role` that is no role changes nothing, and neither does a
/// listed number that is no role.
pub fn set_role_admins(ac: &mut AccessControl, caller: &Identity, role: u8, admins: Vec<u8>) -> (r:
    Result<(), AccessError>)
    ensures
        outcome(old(ac)@, old(ac)@.set_role_admins(*caller, role, admins@), final(ac)@, r),
{
    if !is_admin(ac, caller) {
        return Err(AccessError::NotAdmin);
    }
    let admin_bit_flags = mask_of_roles(&admins);
    if role < 32 {
        let row = ac.admins_of_role[role as usize];
        ac.admins_of_role[role as usize] = row | admin_bit_flags;
    }
    Ok(())
}

/// Takes the roles `admins` from those that administer `role`. Only an
/// admin may do so. A `role` that is no role changes nothing, and neither
/// does a listed number that is no role.
pub fn revoke_role_admins(
    ac: &mut AccessControl,
    caller: &Identity,
    role: u8,
    admins: Vec<u8>,
) -> (r: Result<(), AccessError>)
    ensures
        outcome(old(ac)@, old(ac)@.revoke_role_admins(*caller, role, admins@), final(ac)@, r),
{
    if !is_admin(ac, caller) {
        return Err(AccessError::NotAdmin);
    }
    let admin_bit_flags = mask_of_roles(&admins);
    if role < 32 {
        let row = ac.admins_of_role[role as usize];
        ac.admins_of_role[role as usize] = row & !admin_bit_flags;
    }
    Ok(())
}

} // verus!
