//! The pause gate.
//!
//! A single flag that other operations may consult as a precondition. Only
//! admins can set or clear it, and it stays as it is until an admin acts.

use crate::access_control::AccessControl;
use crate::access_control::AccessError;
use crate::access_control::AccessState;
use crate::access_control::is_admin;
use crate::global_flags::FlagsState;
use crate::global_flags::GlobalFlags;
use crate::identity::Identity;
use vstd::prelude::*;

verus! {

impl FlagsState {
    /// What `pause` by `caller` does to the flags.
    pub open spec fn pause(self, access: AccessState, caller: Identity) -> Result<
        FlagsState,
        AccessError,
    > {
        if access.is_admin(caller) {
            Ok(FlagsState { paused: true, ..self })
        } else {
            Err(AccessError::NotAdmin)
        }
    }

    /// What `resume` by `caller` does to the flags.
    pub open spec fn resume(self, access: AccessState, caller: Identity) -> Result<
        FlagsState,
        AccessError,
    > {
        if access.is_admin(caller) {
            Ok(FlagsState { paused: false, ..self })
        } else {
            Err(AccessError::NotAdmin)
        }
    }
}

/// What a change of the flags owes: on `Ok` the flags are those that
/// `expected` names, on `Err` the error is the one it names and the flags
/// are as before.
pub open spec fn flags_outcome(
    pre: FlagsState,
    expected: Result<FlagsState, AccessError>,
    post: FlagsState,
    result: Result<(), AccessError>,
) -> bool {
    match expected {
        Ok(s) => result is Ok && post == s,
        Err(e) => result == Err::<(), AccessError>(e) && post == pre,
    }
}

/// Guard: succeeds while the service is not paused.
pub fn when_not_paused(flags: &GlobalFlags) -> (r: Result<(), String>)
    ensures
        r is Ok <==> !flags@.paused,
        r matches Err(e) ==> e@ == "Contract is paused"@,
{
    if flags.paused() {
        Err(String::from_str("Contract is paused"))
    } else {
        Ok(())
    }
}

/// Guard: succeeds while the service is paused.
pub fn when_paused(flags: &GlobalFlags) -> (r: Result<(), String>)
    ensures
        r is Ok <==> flags@.paused,
        r matches Err(e) ==> e@ == "Contract is not paused"@,
{
    if flags.paused() {
        Ok(())
    } else {
        Err(String::from_str("Contract is not paused"))
    }
}

/// Whether the service is paused.
pub fn is_paused(flags: &GlobalFlags) -> (r: bool)
    ensures
        r == flags@.paused,
{
    flags.paused()
}

/// Pauses the service. Only an admin may do so.
pub fn pause(flags: &mut GlobalFlags, access: &AccessControl, caller: &Identity) -> (r: Result<
    (),
    AccessError,
>)
    ensures
        flags_outcome(old(flags)@, old(flags)@.pause(access@, *caller), final(flags)@, r),
{
    if !is_admin(access, caller) {
        return Err(AccessError::NotAdmin);
    }
    flags.set_paused(true);
    Ok(())
}

/// Resumes the service. Only an admin may do so.
pub fn resume(flags: &mut GlobalFlags, access: &AccessControl, caller: &Identity) -> (r: Result<
    (),
    AccessError,
>)
    ensures
        flags_outcome(old(flags)@, old(flags)@.resume(access@, *caller), final(flags)@, r),
{
    if !is_admin(access, caller) {
        return Err(AccessError::NotAdmin);
    }
    flags.set_paused(false);
    Ok(())
}

/// The pause gate. A caller who is no admin cannot pause, and the flags
/// stay as they were. An admin's pause sets the flag, and an admin's resume
/// after it clears the flag again.
pub proof fn lemma_pause_gate(
    flags: FlagsState,
    access: AccessState,
    admin: Identity,
    other: Identity,
)
    requires
        access.is_admin(admin),
        !access.is_admin(other),
    ensures
        flags.pause(access, other) == Err::<FlagsState, AccessError>(AccessError::NotAdmin),
        flags.resume(access, other) == Err::<FlagsState, AccessError>(AccessError::NotAdmin),
        flags.pause(access, admin) is Ok,
        flags.pause(access, admin)->Ok_0.paused,
        flags.pause(access, admin)->Ok_0.resume(access, admin) is Ok,
        !flags.pause(access, admin)->Ok_0.resume(access, admin)->Ok_0.paused,
{
}

/// A freshly initialized service is not paused.
pub proof fn lemma_initially_running(user_page_end: u64)
    ensures
        !FlagsState::init(user_page_end).paused,
{
}

} // verus!
