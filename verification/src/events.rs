//! The per-tick collision event queue: the resolver produces zero or more
//! events each tick, the effects dispatcher consumes them exactly once per
//! tick and clears the queue, so events never carry over to the next tick.

use vstd::prelude::*;

verus! {

/// Collision events pending for the current tick. Events carry no payload, so
/// the queue is just a count of events emitted since the last drain.
#[derive(Clone, Copy, PartialEq, Eq, Structural, Debug)]
pub struct EventQueue {
    pub pending: u64,
}

impl EventQueue {
    /// A fresh queue holds no events.
    pub fn new() -> (q: EventQueue)
        ensures
            q.pending == 0,
    {
        EventQueue { pending: 0 }
    }

    /// Record one collision event for this tick.
    pub fn emit(&mut self)
        requires
            old(self).pending < u64::MAX,
        ensures
            final(self).pending == old(self).pending + 1,
    {
        self.pending = self.pending + 1;
    }

    /// Consume this tick's events: report whether any collision happened and
    /// clear the queue, so that however many events were emitted, at most one
    /// sound plays per tick and nothing carries over to the next tick.
    pub fn drain(&mut self) -> (any: bool)
        ensures
            any == (old(self).pending > 0),
            final(self).pending == 0,
    {
        let had = self.pending > 0;
        self.pending = 0;
        had
    }
}

} // verus!
