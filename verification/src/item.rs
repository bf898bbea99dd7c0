//! Units of scheduled work.
//!
//! An [`Item`] is either a pure time delay or a bundle of completion-channel
//! handles (an [`OutcomeMux`]) awaited together. Channels live in an arena
//! owned by the dispatcher; items refer to them by index. One frame's `tick`
//! of an item yields the outcomes that resolved this frame and either a
//! continuation of the same item or nothing when the item has finished.

use crate::channel::OutcomeChannel;
use crate::outcome::Outcome;
use vstd::prelude::*;

verus! {

/// True when every handle in `ids` points into an arena of `n` channels.
pub open spec fn ids_in_range(ids: Seq<usize>, n: int) -> bool {
    forall|i: int| 0 <= i < ids.len() ==> ids[i] < n
}

/// The outcomes of the already-written channels among `ids`, in order.
pub open spec fn resolved_outcomes(ids: Seq<usize>, arena: Seq<OutcomeChannel>) -> Seq<Outcome>
    decreases ids.len(),
{
    if ids.len() == 0 {
        Seq::empty()
    } else {
        let rest = resolved_outcomes(ids.drop_last(), arena);
        match arena[ids.last() as int].written() {
            Some(o) => rest.push(o),
            None => rest,
        }
    }
}

/// The handles among `ids` whose channels are still unwritten, in order.
pub open spec fn pending_ids(ids: Seq<usize>, arena: Seq<OutcomeChannel>) -> Seq<usize>
    decreases ids.len(),
{
    if ids.len() == 0 {
        Seq::empty()
    } else {
        let rest = pending_ids(ids.drop_last(), arena);
        if arena[ids.last() as int].written() is None {
            rest.push(ids.last())
        } else {
            rest
        }
    }
}

/// Every pending handle comes from the original bundle, and a bundle without
/// repeats leaves no repeats among its pending handles.
pub proof fn lemma_pending_subset(ids: Seq<usize>, arena: Seq<OutcomeChannel>)
    ensures
        forall|j: int|
            0 <= j < pending_ids(ids, arena).len() ==> ids.contains(
                #[trigger] pending_ids(ids, arena)[j],
            ),
        ids.no_duplicates() ==> pending_ids(ids, arena).no_duplicates(),
    decreases ids.len(),
{
    if ids.len() > 0 {
        let rest = ids.drop_last();
        let p = pending_ids(ids, arena);
        let prest = pending_ids(rest, arena);
        lemma_pending_subset(rest, arena);
        assert forall|j: int| 0 <= j < prest.len() implies ids.contains(prest[j]) by {
            assert(rest.contains(prest[j]));
            let k = choose|k: int| 0 <= k < rest.len() && rest[k] == prest[j];
            assert(ids[k] == prest[j]);
        }
        assert(ids.contains(ids.last())) by {
            assert(ids[ids.len() - 1] == ids.last());
        }
        if ids.no_duplicates() {
            assert(rest.no_duplicates());
            if arena[ids.last() as int].written() is None {
                assert(!prest.contains(ids.last())) by {
                    if prest.contains(ids.last()) {
                        assert(rest.contains(ids.last()));
                        let k = choose|k: int| 0 <= k < rest.len() && rest[k] == ids.last();
                        assert(ids[k] == ids[ids.len() - 1]);
                        assert(false);
                    }
                }
                assert(p.no_duplicates());
            }
        }
    }
}

/// An ordered bundle of completion-channel handles awaited together.
#[derive(Clone, Debug)]
pub struct OutcomeMux {
    pub channels: Vec<usize>,
}

impl OutcomeMux {
    /// Bundle the given channel handles.
    pub fn from(channels: Vec<usize>) -> (r: OutcomeMux)
        ensures
            r.channels@ == channels@,
    {
        OutcomeMux { channels }
    }

    /// One frame's poll of the bundle: the outcomes of the channels that
    /// have been written (consumed from the bundle), and the bundle of the
    /// still-pending channels, or nothing when every channel has resolved.
    pub fn tick(self, arena: &Vec<OutcomeChannel>) -> (r: (Vec<Outcome>, Option<OutcomeMux>))
        requires
            ids_in_range(self.channels@, arena@.len() as int),
        ensures
            r.0@ == resolved_outcomes(self.channels@, arena@),
            pending_ids(self.channels@, arena@).len() == 0 ==> r.1 is None,
            pending_ids(self.channels@, arena@).len() > 0 ==> (r.1 matches Some(m)
                && m.channels@ == pending_ids(self.channels@, arena@)),
    {
        let ids = self.channels;
        let n = ids.len();
        let mut done: Vec<Outcome> = Vec::new();
        let mut remaining: Vec<usize> = Vec::new();
        let mut i: usize = 0;
        while i < n
            invariant
                i <= n,
                n == ids@.len(),
                ids_in_range(ids@, arena@.len() as int),
                done@ == resolved_outcomes(ids@.take(i as int), arena@),
                remaining@ == pending_ids(ids@.take(i as int), arena@),
            decreases n - i,
        {
            let id = ids[i];
            proof {
                assert(ids@.take(i + 1).drop_last() =~= ids@.take(i as int));
                assert(ids@.take(i + 1).last() == ids@[i as int]);
            }
            match arena[id].check() {
                Some(o) => done.push(o),
                None => remaining.push(id),
            }
            i = i + 1;
        }
        proof {
            assert(ids@.take(n as int) =~= ids@);
        }
        if remaining.len() == 0 {
            (done, None)
        } else {
            (done, Some(OutcomeMux { channels: remaining }))
        }
    }
}

/// A unit of scheduled work: a pure time delay, in milliseconds, or a bundle
/// of completion channels awaited together.
#[derive(Clone, Debug)]
pub enum Item {
    Wait { millis: u64 },
    Play(OutcomeMux),
}

/// Handles of a `Play` item point into the arena and never repeat.
pub open spec fn item_wf(item: Item, n: int) -> bool {
    item matches Item::Play(m) ==> ids_in_range(m.channels@, n) && m.channels@.no_duplicates()
}

/// The outcomes one frame's tick of an item resolves: a delay resolves none,
/// a bundle resolves its written channels.
pub open spec fn tick_outcomes(item: Item, arena: Seq<OutcomeChannel>) -> Seq<Outcome> {
    match item {
        Item::Wait { .. } => Seq::empty(),
        Item::Play(m) => resolved_outcomes(m.channels@, arena),
    }
}

/// How one frame's tick continues an item: a delay counts down and finishes
/// the frame the elapsed time crosses what remains; a bundle keeps exactly
/// its pending channels and finishes once none remain.
pub open spec fn tick_next_ok(
    item: Item,
    delta: u64,
    arena: Seq<OutcomeChannel>,
    next: Option<Item>,
) -> bool {
    match item {
        Item::Wait { millis } => if millis >= delta {
            next == Some(Item::Wait { millis: (millis - delta) as u64 })
        } else {
            next is None
        },
        Item::Play(m) => {
            let p = pending_ids(m.channels@, arena);
            if p.len() == 0 {
                next is None
            } else {
                next matches Some(it) && (it matches Item::Play(m2) && m2.channels@ == p)
            }
        },
    }
}

impl Item {
    /// Advance the item by one frame's elapsed time. A `Wait` consumes the
    /// time and resolves nothing; a `Play` ignores the time and consumes
    /// whatever outcomes have been written. The continuation is the same
    /// item with the consumed part removed, or nothing once it has finished.
    pub fn tick(self, delta: u64, arena: &Vec<OutcomeChannel>) -> (r: (
        Vec<Outcome>,
        Option<Item>,
    ))
        requires
            self matches Item::Play(m) ==> ids_in_range(m.channels@, arena@.len() as int),
        ensures
            r.0@ == tick_outcomes(self, arena@),
            tick_next_ok(self, delta, arena@, r.1),
    {
        match self {
            Item::Wait { millis } => {
                if millis >= delta {
                    (Vec::new(), Some(Item::Wait { millis: millis - delta }))
                } else {
                    (Vec::new(), None)
                }
            },
            Item::Play(mux) => {
                let (done, rest) = mux.tick(arena);
                match rest {
                    Some(m) => (done, Some(Item::Play(m))),
                    None => (done, None),
                }
            },
        }
    }
}

/// Ticking cannot damage an item: whatever continues a well-formed item is
/// well formed over the same arena.
pub proof fn lemma_tick_preserves_item_wf(
    item: Item,
    delta: u64,
    arena: Seq<OutcomeChannel>,
    next: Option<Item>,
)
    requires
        item_wf(item, arena.len() as int),
        tick_next_ok(item, delta, arena, next),
    ensures
        next matches Some(it) ==> item_wf(it, arena.len() as int),
{
    if let Some(it) = next {
        match item {
            Item::Wait { .. } => {},
            Item::Play(m) => {
                let p = pending_ids(m.channels@, arena);
                lemma_pending_subset(m.channels@, arena);
                assert forall|j: int| 0 <= j < p.len() implies p[j] < arena.len() by {
                    assert(m.channels@.contains(p[j]));
                    let k = choose|k: int|
                        0 <= k < m.channels@.len() && m.channels@[k] == p[j];
                    assert(m.channels@[k] < arena.len());
                }
            },
        }
    }
}

} // verus!
