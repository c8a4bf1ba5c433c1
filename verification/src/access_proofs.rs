//! Theorems about the permission record: what holds after
//! initialization, across a transfer of ownership, after renouncement, and
//! of grants, revocations and delegation.

use crate::access_control::after_grant;
use crate::access_control::after_revoke;
use crate::access_control::mask_of;
use crate::access_control::AccessError;
use crate::access_control::AccessState;
use crate::identity::Identity;
use crate::identity_list::lemma_single_occurrence;
use crate::identity_list::lemma_without;
use crate::role_mask::holds_role;
use crate::role_mask::lemma_and_not_bit;
use crate::role_mask::lemma_delegated_bit;
use crate::role_mask::lemma_zero_mask;
use crate::role_mask::lemma_or_bit;
use crate::role_mask::lemma_roles_mask_holds;
use crate::role_mask::role_bit;
use crate::role_mask::roles_mask;
use vstd::prelude::*;

verus! {

/// A call that changes the permission record, with its arguments.
pub enum AccessCall {
    TransferOwnership(Option<Identity>),
    TransferOwnershipImmediate(Option<Identity>),
    RenounceOwnership,
    AcceptOwnership,
    GrantAdmin(Identity),
    RevokeAdmin(Identity),
    RenounceAdmin,
    SetRoleAdmins(u8, Seq<u8>),
    RevokeRoleAdmins(u8, Seq<u8>),
}

impl AccessCall {
    /// Whether only the owner may make the call.
    pub open spec fn needs_owner(self) -> bool {
        match self {
            AccessCall::TransferOwnership(_) => true,
            AccessCall::TransferOwnershipImmediate(_) => true,
            AccessCall::RenounceOwnership => true,
            AccessCall::GrantAdmin(_) => true,
            AccessCall::RevokeAdmin(_) => true,
            _ => false,
        }
    }
}

impl AccessState {
    /// What `call` by `caller` does to the record.
    pub open spec fn apply(self, caller: Identity, call: AccessCall) -> Result<
        AccessState,
        AccessError,
    > {
        match call {
            AccessCall::TransferOwnership(new_owner) => self.transfer_ownership(caller, new_owner),
            AccessCall::TransferOwnershipImmediate(new_owner) => self.transfer_ownership_immediate(
                caller,
                new_owner,
            ),
            AccessCall::RenounceOwnership => self.renounce_ownership(caller),
            AccessCall::AcceptOwnership => self.accept_ownership(caller),
            AccessCall::GrantAdmin(id) => self.grant_admin(caller, id),
            AccessCall::RevokeAdmin(id) => self.revoke_admin(caller, id),
            AccessCall::RenounceAdmin => self.renounce_admin(caller),
            AccessCall::SetRoleAdmins(role, roles) => self.set_role_admins(caller, role, roles),
            AccessCall::RevokeRoleAdmins(role, roles) => self.revoke_role_admins(
                caller,
                role,
                roles,
            ),
        }
    }

    /// The record after `call` by `caller`: a refused call leaves it as it
    /// was.
    pub open spec fn after(self, caller: Identity, call: AccessCall) -> AccessState {
        match self.apply(caller, call) {
            Ok(s) => s,
            Err(_) => self,
        }
    }

    /// The record after a history of calls, each with its caller.
    pub open spec fn after_all(self, calls: Seq<(Identity, AccessCall)>) -> AccessState
        decreases calls.len(),
    {
        if calls.len() == 0 {
            self
        } else {
            self.after_all(calls.drop_last()).after(calls.last().0, calls.last().1)
        }
    }
}

/// Initialization makes the given identity the owner, and nobody else.
pub proof fn lemma_init_owner(a: Identity, b: Identity)
    requires
        a != b,
    ensures
        AccessState::init(a).wf(),
        AccessState::init(a).is_owner(a),
        !AccessState::init(a).is_owner(b),
        AccessState::init(a).is_admin(a),
        !AccessState::init(a).is_admin(b),
{
    assert(seq![a][0] == a);
}

/// Two-step transfer. When owner `a` names candidate `b`, `a` is still the
/// owner. When `b` then accepts, `b` is the owner. Anyone else who tries to
/// accept is refused.
pub proof fn lemma_two_step_transfer(s: AccessState, a: Identity, b: Identity, c: Identity)
    requires
        s.is_owner(a),
        !b.is_anonymous_spec(),
        c != b,
    ensures
        s.transfer_ownership(a, Some(b)) is Ok,
        s.transfer_ownership(a, Some(b))->Ok_0.owner == Some(a),
        s.transfer_ownership(a, Some(b))->Ok_0.accept_ownership(b) is Ok,
        s.transfer_ownership(a, Some(b))->Ok_0.accept_ownership(b)->Ok_0.owner == Some(b),
        s.transfer_ownership(a, Some(b))->Ok_0.accept_ownership(c) == Err::<
            AccessState,
            AccessError,
        >(AccessError::NotPendingOwner),
        s.transfer_ownership(a, Some(b))->Ok_0.after(c, AccessCall::AcceptOwnership).owner == Some(
            a,
        ),
{
}

/// After the owner has cancelled the pending transfer, nobody can accept
/// ownership.
pub proof fn lemma_cancelled_transfer(s: AccessState, a: Identity, c: Identity)
    requires
        s.is_owner(a),
    ensures
        s.transfer_ownership(a, None) is Ok,
        s.transfer_ownership(a, None)->Ok_0.accept_ownership(c) == Err::<AccessState, AccessError>(
            AccessError::NoPendingOwner,
        ),
{
}

/// Granting admin twice is granting it once: after the first grant the
/// identity is listed exactly once, and the second grant changes nothing.
pub proof fn lemma_grant_admin_idempotent(s: AccessState, caller: Identity, x: Identity)
    requires
        s.wf(),
        s.grant_admin(caller, x) is Ok,
    ensures
        s.grant_admin(caller, x)->Ok_0.wf(),
        s.grant_admin(caller, x)->Ok_0.is_admin(x),
        s.grant_admin(caller, x)->Ok_0.admins.filter(|y: Identity| y == x).len() == 1,
        s.grant_admin(caller, x)->Ok_0.grant_admin(caller, x) == Ok::<AccessState, AccessError>(
            s.grant_admin(caller, x)->Ok_0,
        ),
        s.is_admin(x) ==> s.grant_admin(caller, x)->Ok_0.admins.len() == s.admins.len(),
{
    let s1 = s.grant_admin(caller, x)->Ok_0;
    if !s.is_admin(x) {
        assert(s1.admins[s.admins.len() as int] == x);
    }
    lemma_single_occurrence(s1.admins, x);
}

/// Every call keeps the record well formed.
pub proof fn lemma_after_wf(s: AccessState, caller: Identity, call: AccessCall)
    requires
        s.wf(),
    ensures
        s.after(caller, call).wf(),
{
    match call {
        AccessCall::RevokeAdmin(id) => lemma_without(s.admins, id),
        AccessCall::RenounceAdmin => lemma_without(s.admins, caller),
        _ => {},
    }
}

/// The admin set changes only at the owner's call, or by an admin leaving
/// it.
pub proof fn lemma_admins_change_by_owner(s: AccessState, caller: Identity, call: AccessCall)
    requires
        s.after(caller, call).admins != s.admins,
    ensures
        s.is_owner(caller) || (call is RenounceAdmin && s.is_admin(caller)),
{
}

/// The owner changes only at the owner's call, or by the pending owner
/// accepting.
pub proof fn lemma_owner_changes_by_owner(s: AccessState, caller: Identity, call: AccessCall)
    requires
        s.after(caller, call).owner != s.owner,
    ensures
        s.is_owner(caller) || (call is AcceptOwnership && s.pending_owner == Some(caller)),
{
}

/// The delegation matrix changes only at an admin's call.
pub proof fn lemma_matrix_changes_by_admin(s: AccessState, caller: Identity, call: AccessCall)
    requires
        s.after(caller, call).admins_of_role != s.admins_of_role,
    ensures
        s.is_admin(caller),
        call is SetRoleAdmins || call is RevokeRoleAdmins,
{
}

/// Revoking admin removes the identity from the admin set and nobody
/// else, and revoking it again changes nothing.
pub proof fn lemma_revoke_admin(s: AccessState, caller: Identity, x: Identity, y: Identity)
    requires
        s.revoke_admin(caller, x) is Ok,
        y != x,
    ensures
        !s.revoke_admin(caller, x)->Ok_0.is_admin(x),
        s.revoke_admin(caller, x)->Ok_0.is_admin(y) == s.is_admin(y),
        s.revoke_admin(caller, x)->Ok_0.revoke_admin(caller, x) == Ok::<AccessState, AccessError>(
            s.revoke_admin(caller, x)->Ok_0,
        ),
        !s.is_admin(x) ==> s.revoke_admin(caller, x)->Ok_0 == s,
{
    let s1 = s.revoke_admin(caller, x)->Ok_0;
    lemma_without(s.admins, x);
    lemma_without(s1.admins, x);
    assert(s1.admins.contains(y) == s.admins.contains(y));
}

/// Renouncement is final. Once the owner has renounced, whatever calls
/// follow, there is no owner, and a call that needs the owner is refused
/// to everyone.
pub proof fn lemma_renouncement_final(
    s: AccessState,
    owner: Identity,
    calls: Seq<(Identity, AccessCall)>,
    caller: Identity,
    call: AccessCall,
)
    requires
        s.renounce_ownership(owner) is Ok,
        call.needs_owner(),
    ensures
        s.renounce_ownership(owner)->Ok_0.after_all(calls).owner is None,
        s.renounce_ownership(owner)->Ok_0.after_all(calls).pending_owner is None,
        s.renounce_ownership(owner)->Ok_0.after_all(calls).apply(caller, call) == Err::<
            AccessState,
            AccessError,
        >(AccessError::NotOwner),
    decreases calls.len(),
{
    if calls.len() > 0 {
        lemma_renouncement_final(s, owner, calls.drop_last(), caller, call);
    }
}

/// The managed roles are the requested roles that the caller may manage.
pub proof fn lemma_managed(
    s: AccessState,
    caller: Identity,
    caller_mask: u32,
    roles: Seq<u8>,
    role: u8,
)
    ensures
        s.managed(caller, caller_mask, roles).contains(role) <==> roles.contains(role)
            && s.may_manage(caller, caller_mask, role),
    decreases roles.len(),
{
    reveal(Seq::filter);
    let kept = s.managed(caller, caller_mask, roles);
    if roles.len() > 0 {
        let head = roles.drop_last();
        let last = roles.last();
        let sub = s.managed(caller, caller_mask, head);
        lemma_managed(s, caller, caller_mask, head, role);
        if kept.contains(role) {
            let i = choose|i: int| 0 <= i < kept.len() && kept[i] == role;
            if s.may_manage(caller, caller_mask, last) && i == sub.len() {
                assert(roles[roles.len() - 1] == role);
            } else {
                assert(sub[i] == role);
                assert(sub.contains(role));
                let j = choose|j: int| 0 <= j < head.len() && head[j] == role;
                assert(roles[j] == role);
            }
        }
        if roles.contains(role) && s.may_manage(caller, caller_mask, role) {
            let j = choose|j: int| 0 <= j < roles.len() && roles[j] == role;
            if j == roles.len() - 1 {
                assert(kept[sub.len() as int] == role);
            } else {
                assert(head[j] == role);
                assert(head.contains(role));
                assert(sub.contains(role));
                let i = choose|i: int| 0 <= i < sub.len() && sub[i] == role;
                assert(kept[i] == role);
            }
        }
    }
}

/// What a grant does to the target, role by role: afterwards the target
/// holds a role if it held it before, or the role was requested and the
/// caller may manage it.
pub proof fn lemma_after_grant(
    s: AccessState,
    entries: Map<Seq<u8>, u32>,
    caller: Identity,
    roles: Seq<u8>,
    target: Identity,
    role: u8,
)
    ensures
        holds_role(mask_of(after_grant(s, entries, caller, roles, target), target), role) <==> (
        holds_role(mask_of(entries, target), role) || (roles.contains(role) && s.may_manage(
            caller,
            mask_of(entries, caller),
            role,
        ))),
{
    let caller_mask = mask_of(entries, caller);
    let allowed = s.managed(caller, caller_mask, roles);
    lemma_managed(s, caller, caller_mask, roles, role);
    lemma_roles_mask_holds(allowed, role);
    lemma_or_bit(mask_of(entries, target), roles_mask(allowed), role_bit(role));
}

/// What a revocation does to the target, role by role: afterwards the
/// target holds a role if it held it before and the role was not both
/// requested and the caller's to manage.
pub proof fn lemma_after_revoke(
    s: AccessState,
    entries: Map<Seq<u8>, u32>,
    caller: Identity,
    roles: Seq<u8>,
    target: Identity,
    role: u8,
)
    ensures
        holds_role(mask_of(after_revoke(s, entries, caller, roles, target), target), role) <==> (
        holds_role(mask_of(entries, target), role) && !(roles.contains(role) && s.may_manage(
            caller,
            mask_of(entries, caller),
            role,
        ))),
{
    let caller_mask = mask_of(entries, caller);
    let allowed = s.managed(caller, caller_mask, roles);
    lemma_managed(s, caller, caller_mask, roles, role);
    lemma_roles_mask_holds(allowed, role);
    if role < 32 {
        lemma_and_not_bit(mask_of(entries, target), roles_mask(allowed), role);
    } else {
        lemma_zero_mask(mask_of(entries, target));
        lemma_zero_mask(mask_of(entries, target) & !roles_mask(allowed));
    }
}

/// A grant or a revocation changes the roles of its target and of nobody
/// else.
pub proof fn lemma_others_keep_their_roles(
    s: AccessState,
    entries: Map<Seq<u8>, u32>,
    caller: Identity,
    roles: Seq<u8>,
    target: Identity,
    other: Identity,
)
    requires
        target.wf(),
        other.wf(),
        other != target,
    ensures
        mask_of(after_grant(s, entries, caller, roles, target), other) == mask_of(entries, other),
        mask_of(after_revoke(s, entries, caller, roles, target), other) == mask_of(entries, other),
{
    if other@ == target@ {
        Identity::lemma_view_injective(other, target);
    }
}

/// Delegation. Once an admin has listed role `a` among the admins of role
/// `r`, whoever holds `a` may manage `r`. Whoever is no admin and holds no
/// role may manage nothing.
pub proof fn lemma_delegation(
    s: AccessState,
    admin: Identity,
    r: u8,
    roles: Seq<u8>,
    a: u8,
    holder: Identity,
    holder_mask: u32,
    nobody: Identity,
    any_role: u8,
)
    requires
        s.wf(),
        s.is_admin(admin),
        r < 32,
        a < 32,
        roles.contains(a),
        holds_role(holder_mask, a),
        !s.is_admin(nobody),
    ensures
        s.set_role_admins(admin, r, roles) is Ok,
        s.set_role_admins(admin, r, roles)->Ok_0.may_manage(holder, holder_mask, r),
        !s.set_role_admins(admin, r, roles)->Ok_0.may_manage(nobody, 0, any_role),
{
    let s1 = s.set_role_admins(admin, r, roles)->Ok_0;
    lemma_roles_mask_holds(roles, a);
    lemma_delegated_bit(s.admins_of_role[r as int], roles_mask(roles), holder_mask, a);
    lemma_zero_mask(s1.admins_of_role[any_role as int]);
}

} // verus!
