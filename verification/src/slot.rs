//! The Pending Control Request slot: a single-slot holder for the one reply
//! channel of an outstanding control-plane request.
//!
//! The control plane correlates a request with its eventual reply through
//! this slot alone.  By design — a documented hazard, not a guarantee — only
//! one request can be awaiting a reply at a time: installing a channel for a
//! new request unconditionally overwrites the occupant, orphaning the earlier
//! caller, which will observe its timeout.  Consuming the slot takes the
//! occupant out, so at most one consumer succeeds.

use vstd::prelude::*;

verus! {

/// What the slot holds after a channel `t` is installed over `occupant`:
/// always `t`; whatever was there is gone.
pub open spec fn after_install<T>(occupant: Option<T>, t: T) -> Option<T> {
    Some(t)
}

/// The channel a fresh install orphans: the previous occupant, whose caller
/// will never be answered through the slot again.
pub open spec fn orphaned_by_install<T>(occupant: Option<T>, t: T) -> Option<T> {
    occupant
}

/// The single-slot holder of the pending reply channel.
pub struct PendingSlot<T> {
    occupant: Option<T>,
}

impl<T> PendingSlot<T> {
    /// The channel currently awaiting a reply, if any.
    pub closed spec fn view(&self) -> Option<T> {
        self.occupant
    }

    /// A fresh slot: no request is awaiting a reply.
    pub fn new() -> (r: PendingSlot<T>)
        ensures
            r@ == Option::<T>::None,
    {
        PendingSlot { occupant: None }
    }

    /// Installs the reply channel of a newly arrived request, unconditionally
    /// overwriting any occupant.  The orphaned channel is handed back so the
    /// caller can drop it; its owner will time out.
    pub fn install(&mut self, t: T) -> (orphan: Option<T>)
        ensures
            final(self)@ == after_install(old(self)@, t),
            orphan == orphaned_by_install(old(self)@, t),
    {
        let prev = self.occupant.take();
        self.occupant = Some(t);
        prev
    }

    /// Takes whatever is awaiting a reply, emptying the slot; at most one
    /// consumer gets the channel.  On an empty slot this yields nothing, and
    /// delivering a reply becomes a silent no-op.
    pub fn take(&mut self) -> (r: Option<T>)
        ensures
            final(self)@ == Option::<T>::None,
            r == old(self)@,
    {
        self.occupant.take()
    }
}

/// When two control-plane requests race for the slot, the second to arrive
/// wins: after its channel is installed, the slot holds the second channel,
/// the first is orphaned — its caller can only time out — and the one
/// consumer that succeeds delivers the reply to the second request.
pub proof fn lemma_second_request_overwrites<T>(start: Option<T>, first: T, second: T)
    ensures
        after_install(after_install(start, first), second) == Some(second),
        orphaned_by_install(after_install(start, first), second) == Some(first),
{
}

} // verus!
