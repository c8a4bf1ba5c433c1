//! A permission and execution-guard engine for a long-lived, message-driven
//! service: who may invoke which operation, whether the service accepts
//! calls at all, and whether a caller may re-enter an operation that is
//! still in progress for them.
//!
//! State lives in explicit context values that the embedding service loads,
//! hands to an operation together with the caller's identity, and commits.

pub mod access_control;
pub mod access_proofs;
pub mod global_flags;
pub mod identity;
pub mod identity_list;
pub mod inter_canister;
pub mod lifecycle;
pub mod logging;
pub mod memory_map;
pub mod pausable;
pub mod reentrancy_guard;
pub mod role_mask;
pub mod testing;
pub mod utils;

use crate::access_control::access_init;
use crate::access_control::AccessControl;
use crate::access_control::AccessState;
use crate::global_flags::global_flags_init;
use crate::global_flags::FlagsState;
use crate::global_flags::GlobalFlags;
use crate::identity::Identity;
use crate::lifecycle::canister_lifecycle_init;
use crate::lifecycle::lifecycle_on_upgrade;
use crate::lifecycle::CanisterLifecycle;
use crate::lifecycle::LifecycleState;
use vstd::prelude::*;

verus! {

/// The records of one service.
pub struct Rustic {
    pub flags: GlobalFlags,
    pub access: AccessControl,
    pub lifecycle: CanisterLifecycle,
}

/// Sets the service up, in this order: the global flags, then access
/// control with `caller` as owner and only admin, then the lifecycle
/// record.
pub fn rustic_init(caller: Identity, user_page_end: u64, now: u64, ic_version: u64) -> (r: Rustic)
    ensures
        r.flags@ == FlagsState::init(user_page_end),
        r.access@ == AccessState::init(caller),
        r.access@.wf(),
        r.lifecycle@ == LifecycleState::init(now, ic_version),
{
    let flags = global_flags_init(user_page_end);
    let access = access_init(caller);
    let lifecycle = canister_lifecycle_init(now, ic_version);
    Rustic { flags, access, lifecycle }
}

/// Records an upgrade of the service in its lifecycle record and leaves
/// the other records as they are.
pub fn rustic_post_upgrade(
    service: &mut Rustic,
    now: u64,
    ic_version: u64,
    stable_memory_bump: bool,
    major_bump: bool,
    minor_bump: bool,
)
    requires
        old(service).lifecycle@.upgrade_fits(stable_memory_bump, major_bump, minor_bump),
    ensures
        final(service).lifecycle@ == old(service).lifecycle@.upgraded(
            now,
            ic_version,
            stable_memory_bump,
            major_bump,
            minor_bump,
        ),
        final(service).flags@ == old(service).flags@,
        final(service).access@ == old(service).access@,
{
    lifecycle_on_upgrade(
        &mut service.lifecycle,
        now,
        ic_version,
        stable_memory_bump,
        major_bump,
        minor_bump,
    );
}

} // verus!
