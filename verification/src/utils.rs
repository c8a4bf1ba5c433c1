//! Small guards for use in front of an operation.

use crate::identity::Identity;
use vstd::prelude::*;

verus! {

/// Guard: succeeds unless `principal` is the anonymous identity. Anonymous
/// callers can be dangerous if they are let through unchecked.
pub fn not_anonymous(principal: &Identity) -> (r: Result<(), String>)
    ensures
        r is Ok <==> !principal.is_anonymous_spec(),
        r matches Err(e) ==> e@ == "Anonymous caller is not allowed"@,
{
    if principal.is_anonymous() {
        Err(String::from_str("Anonymous caller is not allowed"))
    } else {
        Ok(())
    }
}

} // verus!
