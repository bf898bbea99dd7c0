//! Single-assignment completion signals.
//!
//! An `OutcomeChannel` is a write-once slot for one [`Outcome`]. The action
//! that completes an agent's task fires the channel exactly once; consumers
//! poll it without blocking. Firing an already-written channel is a silent
//! no-op, so every poll after the first write sees the first write's value.

use crate::outcome::Outcome;
use vstd::prelude::*;

verus! {

/// A single-assignment slot for one outcome.
#[derive(Clone, Copy, PartialEq, Eq, Structural, Debug)]
pub struct OutcomeChannel {
    slot: Option<Outcome>,
}

/// The slot state after a write: the outcome lands only in an unwritten slot.
pub open spec fn fire_result(prev: Option<Outcome>, o: Outcome) -> Option<Outcome> {
    if prev is None {
        Some(o)
    } else {
        prev
    }
}

impl OutcomeChannel {
    /// The outcome written to this channel so far, if any. This is the whole
    /// observable state of a channel.
    pub closed spec fn written(self) -> Option<Outcome> {
        self.slot
    }

    /// A fresh, unwritten channel.
    pub fn new() -> (r: OutcomeChannel)
        ensures
            r.written() is None,
    {
        OutcomeChannel { slot: None }
    }

    /// A channel born already resolved with `o`.
    pub fn immediate(o: Outcome) -> (r: OutcomeChannel)
        ensures
            r.written() == Some(o),
    {
        OutcomeChannel { slot: Some(o) }
    }

    /// A channel born already resolved with the neutral outcome.
    pub fn immediate_noop() -> (r: OutcomeChannel)
        ensures
            r.written() == Some(Outcome::StatusQuo),
    {
        OutcomeChannel::immediate(Outcome::StatusQuo)
    }

    /// Resolve the channel with `o`. The first write sticks; any later write
    /// is a silent no-op.
    pub fn fire(&mut self, o: Outcome)
        ensures
            final(self).written() == fire_result(old(self).written(), o),
    {
        if self.slot.is_none() {
            self.slot = Some(o);
        }
    }

    /// Poll the channel without blocking: the written outcome, or `None`
    /// while the channel is still pending. Never mutates anything.
    pub fn check(&self) -> (r: Option<Outcome>)
        ensures
            r == self.written(),
    {
        self.slot
    }
}

/// Single assignment: an unwritten channel polls as pending; after one
/// `fire(x)` every poll yields `x`; a second `fire(y)` changes nothing, so
/// polls still yield `x`.
pub proof fn lemma_single_assignment(x: Outcome, y: Outcome)
    ensures
        fire_result(None, x) == Some(x),
        fire_result(fire_result(None, x), y) == Some(x),
        forall|w: Option<Outcome>| w is Some ==> fire_result(w, y) == w,
{
}

} // verus!
