//! The reentrancy guard.
//!
//! A guard marks its caller as having a guarded operation in progress. A
//! second guard for the same caller cannot be had until the first is
//! released. The mark is per caller and shared by all guarded operations;
//! different callers do not exclude each other.
//!
//! The embedding service keeps the guard for the length of the guarded
//! scope and releases it on every way out of that scope.

use crate::identity::Identity;
use crate::memory_map::ticket_map_contains;
use crate::memory_map::ticket_map_insert;
use crate::memory_map::ticket_map_remove;
use crate::memory_map::TicketStore;
use vstd::prelude::*;

verus! {

/// The tickets after `caller` has acquired a guard, or `None` where the
/// caller holds one already.
pub open spec fn acquired(tickets: Set<Seq<u8>>, caller: Identity) -> Option<Set<Seq<u8>>> {
    if tickets.contains(caller@) {
        None
    } else {
        Some(tickets.insert(caller@))
    }
}

/// The tickets after the guard of `caller` has been released.
pub open spec fn released(tickets: Set<Seq<u8>>, caller: Identity) -> Set<Seq<u8>> {
    tickets.remove(caller@)
}

/// The token of a guarded operation in progress for one caller.
pub struct ReentrancyGuard {
    caller: Identity,
}

impl ReentrancyGuard {
    /// The caller that the guard was acquired for.
    pub closed spec fn holder(&self) -> Identity {
        self.caller
    }

    /// Acquires the guard for `caller`: records the caller as active,
    /// unless a guard for the same caller is outstanding, in which case
    /// nothing changes and the call is refused as reentrant.
    pub fn new(tickets: &mut TicketStore, caller: Identity) -> (r: Result<
        ReentrancyGuard,
        String,
    >)
        ensures
            r is Ok <==> acquired(old(tickets)@, caller) is Some,
            r matches Ok(guard) ==> guard.holder() == caller && Some(final(tickets)@) == acquired(
                old(tickets)@,
                caller,
            ),
            r matches Err(e) ==> e@ == "ReentrancyGuard: reentrant call"@,
            r is Err ==> final(tickets)@ == old(tickets)@,
    {
        if ticket_map_contains(tickets, caller.as_slice()) {
            return Err(String::from_str("ReentrancyGuard: reentrant call"));
        }
        ticket_map_insert(tickets, caller.as_slice());
        Ok(ReentrancyGuard { caller })
    }

    /// The caller that the guard was acquired for.
    pub fn caller(&self) -> (r: Identity)
        ensures
            r == self.holder(),
    {
        self.caller
    }

    /// Releases the guard: the caller is no longer recorded as active.
    pub fn release(self, tickets: &mut TicketStore)
        ensures
            final(tickets)@ == released(old(tickets)@, self.holder()),
    {
        ticket_map_remove(tickets, self.caller.as_slice());
    }
}

/// Whether a guard for `caller` is outstanding.
pub fn is_guarded(tickets: &TicketStore, caller: &Identity) -> (r: bool)
    ensures
        r == tickets@.contains(caller@),
{
    ticket_map_contains(tickets, caller.as_slice())
}

/// While a caller holds a guard, a second one for the same caller is
/// refused.
pub proof fn lemma_no_reentry(tickets: Set<Seq<u8>>, a: Identity)
    requires
        acquired(tickets, a) is Some,
    ensures
        acquired(acquired(tickets, a)->0, a) is None,
{
}

/// Once a guard is released, the same caller can acquire one again.
pub proof fn lemma_reacquire(tickets: Set<Seq<u8>>, a: Identity)
    requires
        acquired(tickets, a) is Some,
    ensures
        acquired(released(acquired(tickets, a)->0, a), a) is Some,
        released(acquired(tickets, a)->0, a) == tickets,
{
    assert(tickets.insert(a@).remove(a@) =~= tickets);
}

/// Guards of different callers do not exclude each other: whether `b` can
/// acquire one is the same before and after `a` has acquired one.
pub proof fn lemma_callers_independent(tickets: Set<Seq<u8>>, a: Identity, b: Identity)
    requires
        a.wf(),
        b.wf(),
        a != b,
        acquired(tickets, a) is Some,
    ensures
        acquired(acquired(tickets, a)->0, b) is Some <==> acquired(tickets, b) is Some,
        released(acquired(tickets, a)->0, a).contains(b@) <==> tickets.contains(b@),
{
    if a@ == b@ {
        Identity::lemma_view_injective(a, b);
    }
}

} // verus!
