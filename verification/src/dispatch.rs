//! The dispatcher: orchestration of clock, queue, roster, and stock.
//!
//! Each frame the dispatcher pulls the head of its one-deep queue, advances
//! it by the frame's elapsed time, applies whatever outcomes resolved, and —
//! only once the item has fully drained — advances the clock. With the queue
//! empty it synthesizes the next item from the current sub-phase: agent
//! actions at `Commence`, their deferred completions at `Complete`, and a
//! fixed pacing delay between. External work never happens here: the frame's
//! output lists the actions to launch and the display values to push, and
//! completed actions report back through [`Controller::fire`].

use crate::agent::{chosen_task, personality_of, Character, Task, WorldView};
use crate::channel::{fire_result, OutcomeChannel};
use crate::clock::{time_succ, GameTime, Phase, SubPhase};
use crate::item::{
    item_wf, lemma_tick_preserves_item_wf, tick_next_ok, tick_outcomes, Item, OutcomeMux,
};
use crate::outcome::{apply_all, apply_outcome, Outcome};
use vstd::prelude::*;

verus! {

/// The pacing delay, in milliseconds, scheduled between the active
/// sub-phases.
pub const PACE_MILLIS: u64 = 500;

/// What an external action actor is asked to do.
#[derive(Clone, Copy, PartialEq, Eq, Structural, Debug)]
pub enum ActionKind {
    /// Travel to the resource source and fetch an apple (work, at commence).
    Fetch,
    /// Carry an apple from the stockpile to the agent (eating, at commence).
    Deliver,
    /// Carry the fetched apple to the stockpile (work, at complete).
    Deposit,
}

/// A request the dispatcher hands out when an item is scheduled: the named
/// agent's actor performs the action and fires the channel with the payload
/// once it completes.
#[derive(Clone, Copy, PartialEq, Eq, Structural, Debug)]
pub struct ActionRequest {
    pub agent: u64,
    pub kind: ActionKind,
    pub channel: usize,
    pub payload: Outcome,
}

/// The time display pushed to the UI when an item finishes.
#[derive(Clone, Copy, PartialEq, Eq, Structural, Debug)]
pub struct TimeUpdate {
    pub phase: Phase,
    pub day: u64,
}

/// Everything one frame of the dispatcher asks of the outside world: the
/// actions to launch, the stock values to display (one per outcome applied),
/// and the time display when the current item finished.
#[derive(Clone, Debug)]
pub struct FrameOutput {
    pub requests: Vec<ActionRequest>,
    pub stock_updates: Vec<i64>,
    pub time_update: Option<TimeUpdate>,
}

/// The slot state of the channel `fulfill` allocates for a task: sleeping
/// resolves on the spot; eating and working wait for an action to arrive.
pub open spec fn commence_slot(t: Task) -> Option<Outcome> {
    match t {
        Task::Sleep => Some(Outcome::StatusQuo),
        Task::Eat => None,
        Task::Work => None,
    }
}

/// The action request `fulfill` emits for a task, if any: work fetches from
/// the tree, eating has an apple delivered, sleep needs nobody.
pub open spec fn commence_request(identity: u64, t: Task, ch: usize) -> Option<ActionRequest> {
    match t {
        Task::Eat => Some(
            ActionRequest {
                agent: identity,
                kind: ActionKind::Deliver,
                channel: ch,
                payload: Outcome::StatusQuo,
            },
        ),
        Task::Sleep => None,
        Task::Work => Some(
            ActionRequest {
                agent: identity,
                kind: ActionKind::Fetch,
                channel: ch,
                payload: Outcome::StatusQuo,
            },
        ),
    }
}

/// The slot state of the channel `finish` allocates: eating consumes one
/// apple on the spot, sleeping has no effect, and finished work waits for
/// its deposit to arrive.
pub open spec fn complete_slot(t: Task) -> Option<Outcome> {
    match t {
        Task::Eat => Some(Outcome::Apples { delta: -1i64 }),
        Task::Sleep => Some(Outcome::StatusQuo),
        Task::Work => None,
    }
}

/// The action request `finish` emits, if any: only finished work sends a
/// deposit on its way, carrying one apple into the stock.
pub open spec fn complete_request(identity: u64, t: Task, ch: usize) -> Option<ActionRequest> {
    if t == Task::Work {
        Some(
            ActionRequest {
                agent: identity,
                kind: ActionKind::Deposit,
                channel: ch,
                payload: Outcome::Apples { delta: 1i64 },
            },
        )
    } else {
        None
    }
}

/// The requests emitted while the first `n` agents are fulfilled at
/// `Commence`, in roster order; `base` is the arena size before the first of
/// their channels.
pub open spec fn commence_reqs(
    chars: Seq<Character>,
    phase: Phase,
    stock: i64,
    base: int,
    n: int,
) -> Seq<ActionRequest>
    decreases n,
{
    if n <= 0 {
        Seq::empty()
    } else {
        let prev = commence_reqs(chars, phase, stock, base, n - 1);
        match commence_request(
            chars[n - 1].identity,
            chosen_task(chars[n - 1].personality, phase, stock),
            ((base + n - 1) as usize),
        ) {
            Some(rq) => prev.push(rq),
            None => prev,
        }
    }
}

/// The requests emitted while the first `n` agents are settled at
/// `Complete`, in roster order; `base` is the arena size before the first of
/// their channels.
pub open spec fn complete_reqs(chars: Seq<Character>, base: int, n: int) -> Seq<ActionRequest>
    decreases n,
{
    if n <= 0 {
        Seq::empty()
    } else {
        let prev = complete_reqs(chars, base, n - 1);
        match complete_request(
            chars[n - 1].identity,
            chars[n - 1].task,
            ((base + n - 1) as usize),
        ) {
            Some(rq) => prev.push(rq),
            None => prev,
        }
    }
}

/// The `Commence` build step, relating the dispatcher before and after (its
/// queue aside): every agent decides for the current phase and the decision
/// is cached on it; one fresh channel per agent lands in the arena; the item
/// bundles exactly those channels in roster order; and the requests are
/// those of the agents whose tasks need an external action.
pub open spec fn commence_step(
    pre: Controller,
    post: Controller,
    item: Item,
    reqs: Seq<ActionRequest>,
) -> bool {
    let n = pre.characters@.len() as int;
    let base = pre.channels@.len() as int;
    let phase = pre.time.phase;
    let stock = pre.apples;
    &&& post.time == pre.time
    &&& post.apples == pre.apples
    &&& post.characters@.len() == n
    &&& forall|i: int|
        0 <= i < n ==> #[trigger] post.characters@[i] == (Character {
            identity: pre.characters@[i].identity,
            personality: pre.characters@[i].personality,
            task: chosen_task(pre.characters@[i].personality, phase, stock),
        })
    &&& post.channels@.len() == base + n
    &&& forall|k: int| 0 <= k < base ==> post.channels@[k] == pre.channels@[k]
    &&& forall|i: int|
        0 <= i < n ==> (#[trigger] post.channels@[base + i]).written() == commence_slot(
            chosen_task(pre.characters@[i].personality, phase, stock),
        )
    &&& item matches Item::Play(m) && m.channels@ == Seq::new(
        n as nat,
        |i: int| (base + i) as usize,
    )
    &&& reqs == commence_reqs(pre.characters@, phase, stock, base, n)
}

/// The `Complete` build step, relating the dispatcher before and after (its
/// queue aside): every agent is settled with the task decided at `Commence`
/// — nothing is redecided — one channel per agent lands in the arena, the
/// item bundles exactly those channels, and only work emits requests.
pub open spec fn complete_step(
    pre: Controller,
    post: Controller,
    item: Item,
    reqs: Seq<ActionRequest>,
) -> bool {
    let n = pre.characters@.len() as int;
    let base = pre.channels@.len() as int;
    &&& post.time == pre.time
    &&& post.apples == pre.apples
    &&& post.characters == pre.characters
    &&& post.channels@.len() == base + n
    &&& forall|k: int| 0 <= k < base ==> post.channels@[k] == pre.channels@[k]
    &&& forall|i: int|
        0 <= i < n ==> (#[trigger] post.channels@[base + i]).written() == complete_slot(
            pre.characters@[i].task,
        )
    &&& item matches Item::Play(m) && m.channels@ == Seq::new(
        n as nat,
        |i: int| (base + i) as usize,
    )
    &&& reqs == complete_reqs(pre.characters@, base, n)
}

/// What synthesizing the next item yields in each sub-phase: agent actions
/// at `Commence`, their completions at `Complete`, and otherwise a fixed
/// pacing delay that touches nothing.
pub open spec fn scheduled(
    pre: Controller,
    post: Controller,
    item: Item,
    reqs: Seq<ActionRequest>,
) -> bool {
    match pre.time.sub {
        SubPhase::Commence => commence_step(pre, post, item, reqs),
        SubPhase::Complete => complete_step(pre, post, item, reqs),
        _ => {
            &&& post.time == pre.time
            &&& post.apples == pre.apples
            &&& post.characters == pre.characters
            &&& post.channels == pre.channels
            &&& item == (Item::Wait { millis: PACE_MILLIS })
            &&& reqs.len() == 0
        },
    }
}

/// The dispatcher: sole owner of the clock, the one-deep item queue, the
/// agent roster, the channel arena, and the shared apple stock.
#[derive(Debug)]
pub struct Controller {
    pub time: GameTime,
    pub queue: Vec<Item>,
    pub characters: Vec<Character>,
    pub apples: i64,
    pub channels: Vec<OutcomeChannel>,
}

impl Controller {
    /// Well-formedness: at most one item is ever in flight, its channel
    /// handles point into the arena without repeats, the day count is at
    /// least one, and every agent's personality matches its identity.
    pub open spec fn wf(self) -> bool {
        &&& self.queue@.len() <= 1
        &&& forall|k: int|
            0 <= k < self.queue@.len() ==> item_wf(
                #[trigger] self.queue@[k],
                self.channels@.len() as int,
            )
        &&& self.time.day >= 1
        &&& forall|k: int| 0 <= k < self.characters@.len() ==> (#[trigger] self.characters@[k]).wf()
    }

    /// A dispatcher at the start of day one, with nothing scheduled, nobody
    /// discovered yet, and an empty stock.
    pub fn new() -> (r: Controller)
        ensures
            r.time == (GameTime { day: 1, phase: Phase::Predawn, sub: SubPhase::Tempo }),
            r.queue@.len() == 0,
            r.characters@.len() == 0,
            r.apples == 0,
            r.channels@.len() == 0,
            r.wf(),
    {
        Controller {
            time: GameTime::start(),
            queue: Vec::new(),
            characters: Vec::new(),
            apples: 0,
            channels: Vec::new(),
        }
    }

    /// Roster population: take the actor with this identity into the roster.
    /// Its personality is fixed here, and it starts out asleep.
    pub fn add_character(&mut self, identity: u64)
        ensures
            final(self).characters@ == old(self).characters@.push(
                Character { identity, personality: personality_of(identity), task: Task::Sleep },
            ),
            final(self).time == old(self).time,
            final(self).queue == old(self).queue,
            final(self).apples == old(self).apples,
            final(self).channels == old(self).channels,
            old(self).wf() ==> final(self).wf(),
    {
        let c = Character::new(identity);
        self.characters.push(c);
    }

    /// The world as a deciding agent observes it this frame.
    pub fn view(&self) -> (r: WorldView)
        ensures
            r == (WorldView { time: self.time, apple_stock: self.apples }),
    {
        WorldView { time: self.time, apple_stock: self.apples }
    }

    /// Resolve the channel behind `handle` with `outcome`: the entry point a
    /// completed external action reports through. The first write sticks;
    /// later writes, like unknown handles, change nothing. Returns whether
    /// the handle named a channel.
    pub fn fire(&mut self, handle: usize, outcome: Outcome) -> (hit: bool)
        ensures
            hit == (handle < old(self).channels@.len()),
            final(self).channels@.len() == old(self).channels@.len(),
            forall|k: int|
                0 <= k < old(self).channels@.len() && k != handle ==> final(self).channels@[k]
                    == old(self).channels@[k],
            hit ==> final(self).channels@[handle as int].written() == fire_result(
                old(self).channels@[handle as int].written(),
                outcome,
            ),
            final(self).time == old(self).time,
            final(self).queue == old(self).queue,
            final(self).characters == old(self).characters,
            final(self).apples == old(self).apples,
            old(self).wf() ==> final(self).wf(),
    {
        if handle < self.channels.len() {
            let mut c = self.channels[handle];
            c.fire(outcome);
            self.channels.set(handle, c);
            true
        } else {
            false
        }
    }

    /// Put a fresh, unwritten channel into the arena for an action yet to
    /// run, and shape the request its actor must eventually answer.
    fn send_apple(&mut self, identity: u64, kind: ActionKind, payload: Outcome) -> (r: (
        usize,
        ActionRequest,
    ))
        ensures
            final(self).channels@.len() == old(self).channels@.len() + 1,
            forall|k: int|
                0 <= k < old(self).channels@.len() ==> final(self).channels@[k] == old(
                    self,
                ).channels@[k],
            final(self).channels@.last().written() is None,
            r.0 == old(self).channels@.len(),
            r.1 == (ActionRequest { agent: identity, kind, channel: r.0, payload }),
            final(self).time == old(self).time,
            final(self).queue == old(self).queue,
            final(self).characters == old(self).characters,
            final(self).apples == old(self).apples,
    {
        let handle = self.channels.len();
        self.channels.push(OutcomeChannel::new());
        (handle, ActionRequest { agent: identity, kind, channel: handle, payload })
    }

    /// Put an already-resolved channel into the arena, for effects that need
    /// no external action.
    fn resolve_now(&mut self, outcome: Outcome) -> (r: usize)
        ensures
            final(self).channels@.len() == old(self).channels@.len() + 1,
            forall|k: int|
                0 <= k < old(self).channels@.len() ==> final(self).channels@[k] == old(
                    self,
                ).channels@[k],
            final(self).channels@.last().written() == Some(outcome),
            r == old(self).channels@.len(),
            final(self).time == old(self).time,
            final(self).queue == old(self).queue,
            final(self).characters == old(self).characters,
            final(self).apples == old(self).apples,
    {
        let handle = self.channels.len();
        self.channels.push(OutcomeChannel::immediate(outcome));
        handle
    }

    /// Work at commence: ask for a fetch from the apple tree; the channel
    /// resolves when the actor arrives there and back.
    fn pick_apple(&mut self, identity: u64) -> (r: (usize, ActionRequest))
        ensures
            final(self).channels@.len() == old(self).channels@.len() + 1,
            forall|k: int|
                0 <= k < old(self).channels@.len() ==> final(self).channels@[k] == old(
                    self,
                ).channels@[k],
            final(self).channels@.last().written() is None,
            r.0 == old(self).channels@.len(),
            r.1 == (ActionRequest {
                agent: identity,
                kind: ActionKind::Fetch,
                channel: r.0,
                payload: Outcome::StatusQuo,
            }),
            final(self).time == old(self).time,
            final(self).queue == old(self).queue,
            final(self).characters == old(self).characters,
            final(self).apples == old(self).apples,
    {
        self.send_apple(identity, ActionKind::Fetch, Outcome::StatusQuo)
    }

    /// Eating at commence: ask for an apple's delivery from the stockpile to
    /// the agent; the channel resolves when it lands.
    fn eat_apple(&mut self, identity: u64) -> (r: (usize, ActionRequest))
        ensures
            final(self).channels@.len() == old(self).channels@.len() + 1,
            forall|k: int|
                0 <= k < old(self).channels@.len() ==> final(self).channels@[k] == old(
                    self,
                ).channels@[k],
            final(self).channels@.last().written() is None,
            r.0 == old(self).channels@.len(),
            r.1 == (ActionRequest {
                agent: identity,
                kind: ActionKind::Deliver,
                channel: r.0,
                payload: Outcome::StatusQuo,
            }),
            final(self).time == old(self).time,
            final(self).queue == old(self).queue,
            final(self).characters == old(self).characters,
            final(self).apples == old(self).apples,
    {
        self.send_apple(identity, ActionKind::Deliver, Outcome::StatusQuo)
    }

    /// Finished work: ask for the deposit trip that carries one apple into
    /// the stock.
    fn store_apple(&mut self, identity: u64) -> (r: (usize, ActionRequest))
        ensures
            final(self).channels@.len() == old(self).channels@.len() + 1,
            forall|k: int|
                0 <= k < old(self).channels@.len() ==> final(self).channels@[k] == old(
                    self,
                ).channels@[k],
            final(self).channels@.last().written() is None,
            r.0 == old(self).channels@.len(),
            r.1 == (ActionRequest {
                agent: identity,
                kind: ActionKind::Deposit,
                channel: r.0,
                payload: Outcome::Apples { delta: 1i64 },
            }),
            final(self).time == old(self).time,
            final(self).queue == old(self).queue,
            final(self).characters == old(self).characters,
            final(self).apples == old(self).apples,
    {
        self.send_apple(identity, ActionKind::Deposit, Outcome::Apples { delta: 1 })
    }

    /// Launch the chosen task for one agent while the `Commence` item is
    /// built: allocate its completion channel and, for tasks that need an
    /// external action, the request to launch one.
    pub fn fulfill(&mut self, identity: u64, task: Task) -> (r: (usize, Option<ActionRequest>))
        ensures
            final(self).channels@.len() == old(self).channels@.len() + 1,
            forall|k: int|
                0 <= k < old(self).channels@.len() ==> final(self).channels@[k] == old(
                    self,
                ).channels@[k],
            final(self).channels@.last().written() == commence_slot(task),
            r.0 == old(self).channels@.len(),
            r.1 == commence_request(identity, task, r.0),
            final(self).time == old(self).time,
            final(self).queue == old(self).queue,
            final(self).characters == old(self).characters,
            final(self).apples == old(self).apples,
    {
        match task {
            Task::Eat => {
                let (h, rq) = self.eat_apple(identity);
                (h, Some(rq))
            },
            Task::Sleep => {
                let h = self.resolve_now(Outcome::StatusQuo);
                (h, None)
            },
            Task::Work => {
                let (h, rq) = self.pick_apple(identity);
                (h, Some(rq))
            },
        }
    }

    /// Settle one agent's task while the `Complete` item is built, reusing
    /// the task decided at `Commence`: allocate the channel that carries the
    /// task's stock effect and, for work, the deposit request.
    pub fn finish(&mut self, identity: u64, task: Task) -> (r: (usize, Option<ActionRequest>))
        ensures
            final(self).channels@.len() == old(self).channels@.len() + 1,
            forall|k: int|
                0 <= k < old(self).channels@.len() ==> final(self).channels@[k] == old(
                    self,
                ).channels@[k],
            final(self).channels@.last().written() == complete_slot(task),
            r.0 == old(self).channels@.len(),
            r.1 == complete_request(identity, task, r.0),
            final(self).time == old(self).time,
            final(self).queue == old(self).queue,
            final(self).characters == old(self).characters,
            final(self).apples == old(self).apples,
    {
        match task {
            Task::Eat => (self.resolve_now(Outcome::Apples { delta: -1 }), None),
            Task::Sleep => (self.resolve_now(Outcome::StatusQuo), None),
            Task::Work => {
                let (h, rq) = self.store_apple(identity);
                (h, Some(rq))
            },
        }
    }

    /// Build the `Commence` item: every agent decides for the current phase
    /// — the decision is cached on the agent for `Complete` — its action is
    /// launched, and the completion channels are bundled into one `Play`.
    pub fn character_actions(&mut self) -> (r: (Item, Vec<ActionRequest>))
        ensures
            commence_step(*old(self), *final(self), r.0, r.1@),
            final(self).queue == old(self).queue,
    {
        let ghost pre = *self;
        let n = self.characters.len();
        let mut handles: Vec<usize> = Vec::new();
        let mut reqs: Vec<ActionRequest> = Vec::new();
        let mut i: usize = 0;
        while i < n
            invariant
                i <= n,
                n == self.characters@.len(),
                n == pre.characters@.len(),
                self.time == pre.time,
                self.apples == pre.apples,
                self.queue == pre.queue,
                self.channels@.len() == pre.channels@.len() + i,
                forall|k: int| 0 <= k < pre.channels@.len() ==> self.channels@[k] == pre.channels@[k],
                forall|j: int|
                    0 <= j < i ==> (#[trigger] self.channels@[pre.channels@.len() + j]).written()
                        == commence_slot(
                        chosen_task(pre.characters@[j].personality, pre.time.phase, pre.apples),
                    ),
                forall|j: int|
                    0 <= j < i ==> #[trigger] self.characters@[j] == (Character {
                        identity: pre.characters@[j].identity,
                        personality: pre.characters@[j].personality,
                        task: chosen_task(
                            pre.characters@[j].personality,
                            pre.time.phase,
                            pre.apples,
                        ),
                    }),
                forall|j: int| i <= j < n ==> self.characters@[j] == pre.characters@[j],
                handles@.len() == i,
                forall|j: int| 0 <= j < i ==> #[trigger] handles@[j] == pre.channels@.len() + j,
                reqs@ == commence_reqs(
                    pre.characters@,
                    pre.time.phase,
                    pre.apples,
                    pre.channels@.len() as int,
                    i as int,
                ),
            decreases n - i,
        {
            let c = self.characters[i];
            let w = self.view();
            let t = c.decide(w);
            self.characters.set(
                i,
                Character { identity: c.identity, personality: c.personality, task: t },
            );
            let (h, rq) = self.fulfill(c.identity, t);
            handles.push(h);
            match rq {
                Some(rq) => reqs.push(rq),
                None => {},
            }
            i = i + 1;
        }
        let item = Item::Play(OutcomeMux::from(handles));
        proof {
            let base = pre.channels@.len() as int;
            assert(handles@ =~= Seq::new(n as nat, |j: int| (base + j) as usize));
        }
        (item, reqs)
    }

    /// Build the `Complete` item: every agent is settled with the task it
    /// decided at `Commence`, and the channels carrying the stock effects
    /// are bundled into one `Play`.
    pub fn character_cleanup(&mut self) -> (r: (Item, Vec<ActionRequest>))
        ensures
            complete_step(*old(self), *final(self), r.0, r.1@),
            final(self).queue == old(self).queue,
    {
        let ghost pre = *self;
        let n = self.characters.len();
        let mut handles: Vec<usize> = Vec::new();
        let mut reqs: Vec<ActionRequest> = Vec::new();
        let mut i: usize = 0;
        while i < n
            invariant
                i <= n,
                n == self.characters@.len(),
                n == pre.characters@.len(),
                self.time == pre.time,
                self.apples == pre.apples,
                self.queue == pre.queue,
                self.characters == pre.characters,
                self.channels@.len() == pre.channels@.len() + i,
                forall|k: int| 0 <= k < pre.channels@.len() ==> self.channels@[k] == pre.channels@[k],
                forall|j: int|
                    0 <= j < i ==> (#[trigger] self.channels@[pre.channels@.len() + j]).written()
                        == complete_slot(pre.characters@[j].task),
                handles@.len() == i,
                forall|j: int| 0 <= j < i ==> #[trigger] handles@[j] == pre.channels@.len() + j,
                reqs@ == complete_reqs(pre.characters@, pre.channels@.len() as int, i as int),
            decreases n - i,
        {
            let c = self.characters[i];
            let (h, rq) = self.finish(c.identity, c.task);
            handles.push(h);
            match rq {
                Some(rq) => reqs.push(rq),
                None => {},
            }
            i = i + 1;
        }
        let item = Item::Play(OutcomeMux::from(handles));
        proof {
            let base = pre.channels@.len() as int;
            assert(handles@ =~= Seq::new(n as nat, |j: int| (base + j) as usize));
        }
        (item, reqs)
    }

    /// Apply one resolved outcome to the world state: the only writer of the
    /// shared stock, called exactly once per distinct resolved outcome. The
    /// stock wraps on `i64` overflow.
    pub fn apply(&mut self, o: &Outcome)
        ensures
            final(self).apples == apply_outcome(old(self).apples, *o),
            final(self).time == old(self).time,
            final(self).queue == old(self).queue,
            final(self).characters == old(self).characters,
            final(self).channels == old(self).channels,
    {
        match o {
            Outcome::StatusQuo => {},
            Outcome::Apples { delta } => {
                self.apples = self.apples.wrapping_add(*delta);
            },
        }
    }

    /// Synthesize the next item once the queue has drained: agent actions at
    /// `Commence`, their completions at `Complete`, and a fixed breathing
    /// delay through `Progress` and `Tempo`.
    pub fn schedule_item(&mut self) -> (r: (Item, Vec<ActionRequest>))
        ensures
            scheduled(*old(self), *final(self), r.0, r.1@),
            final(self).queue == old(self).queue,
    {
        match self.time.sub {
            SubPhase::Commence => self.character_actions(),
            SubPhase::Complete => self.character_cleanup(),
            _ => (Item::Wait { millis: PACE_MILLIS }, Vec::new()),
        }
    }

    /// One frame of the dispatcher. With the queue empty, the next item is
    /// synthesized from the current sub-phase, queued, and its action
    /// requests handed out. Otherwise the head item is advanced by the
    /// frame's elapsed time: every outcome that resolved is applied to the
    /// stock, once, in order, with one display push each; an unfinished item
    /// is put back at the front of the queue; a finished one advances the
    /// clock exactly once and pushes the time display.
    pub fn process(&mut self, delta: u64) -> (out: FrameOutput)
        requires
            old(self).wf(),
            old(self).time.day < u64::MAX,
        ensures
            final(self).wf(),
            old(self).queue@.len() == 0 ==> {
                &&& final(self).queue@.len() == 1
                &&& scheduled(*old(self), *final(self), final(self).queue@[0], out.requests@)
                &&& out.stock_updates@.len() == 0
                &&& out.time_update is None
            },
            old(self).queue@.len() > 0 ==> ({
                let item = old(self).queue@[0];
                let outs = tick_outcomes(item, old(self).channels@);
                &&& out.requests@.len() == 0
                &&& final(self).channels == old(self).channels
                &&& final(self).characters == old(self).characters
                &&& final(self).apples == apply_all(old(self).apples, outs)
                &&& out.stock_updates@.len() == outs.len()
                &&& forall|i: int|
                    0 <= i < outs.len() ==> #[trigger] out.stock_updates@[i] == apply_all(
                        old(self).apples,
                        outs.take(i + 1),
                    )
                &&& final(self).queue@.len() <= 1
                &&& tick_next_ok(
                    item,
                    delta,
                    old(self).channels@,
                    if final(self).queue@.len() == 0 {
                        None
                    } else {
                        Some(final(self).queue@[0])
                    },
                )
                &&& final(self).queue@.len() == 0 ==> {
                    &&& final(self).time == time_succ(old(self).time)
                    &&& out.time_update == Some(
                        TimeUpdate { phase: final(self).time.phase, day: final(self).time.day },
                    )
                }
                &&& final(self).queue@.len() == 1 ==> {
                    &&& final(self).time == old(self).time
                    &&& out.time_update is None
                }
            }),
    {
        let ghost pre = *self;
        if self.queue.len() == 0 {
            let (item, reqs) = self.schedule_item();
            let ghost mid = *self;
            self.queue.push(item);
            proof {
                lemma_scheduled_wf(pre, mid, item, reqs@);
            }
            FrameOutput { requests: reqs, stock_updates: Vec::new(), time_update: None }
        } else {
            let current = self.queue.remove(0);
            proof {
                assert(item_wf(current, self.channels@.len() as int));
            }
            let (outcomes, next) = current.tick(delta, &self.channels);
            let ghost outs = tick_outcomes(current, pre.channels@);
            let mut pushes: Vec<i64> = Vec::new();
            let mut i: usize = 0;
            while i < outcomes.len()
                invariant
                    i <= outcomes@.len(),
                    outcomes@ == outs,
                    self.apples == apply_all(pre.apples, outs.take(i as int)),
                    self.channels == pre.channels,
                    self.characters == pre.characters,
                    self.time == pre.time,
                    self.queue@.len() == 0,
                    pushes@.len() == i,
                    forall|j: int|
                        0 <= j < i ==> #[trigger] pushes@[j] == apply_all(
                            pre.apples,
                            outs.take(j + 1),
                        ),
                decreases outcomes@.len() - i,
            {
                let o = outcomes[i];
                proof {
                    assert(outs.take(i + 1).drop_last() =~= outs.take(i as int));
                    assert(outs.take(i + 1).last() == outs[i as int]);
                }
                self.apply(&o);
                pushes.push(self.apples);
                i = i + 1;
            }
            proof {
                assert(outs.take(outs.len() as int) =~= outs);
            }
            let time_update = match next {
                Some(it) => {
                    self.queue.insert(0, it);
                    proof {
                        lemma_tick_preserves_item_wf(current, delta, pre.channels@, Some(it));
                    }
                    None
                },
                None => {
                    self.time.advance();
                    Some(TimeUpdate { phase: self.time.phase, day: self.time.day })
                },
            };
            FrameOutput { requests: Vec::new(), stock_updates: pushes, time_update }
        }
    }
}

/// A freshly scheduled item is well formed over the arena it was built
/// against, and the build itself keeps the dispatcher well formed.
pub proof fn lemma_scheduled_wf(
    pre: Controller,
    post: Controller,
    item: Item,
    reqs: Seq<ActionRequest>,
)
    requires
        pre.wf(),
        scheduled(pre, post, item, reqs),
        post.queue == pre.queue,
    ensures
        post.wf(),
        item_wf(item, post.channels@.len() as int),
{
    match pre.time.sub {
        SubPhase::Commence | SubPhase::Complete => {
            let n = pre.characters@.len() as int;
            let base = pre.channels@.len() as int;
            if let Item::Play(m) = item {
                vstd::std_specs::vec::axiom_spec_len(&post.channels);
                assert forall|i: int, j: int|
                    0 <= i < n && 0 <= j < n && i != j implies m.channels@[i]
                    != m.channels@[j] by {
                    assert(m.channels@[i] == (base + i) as usize);
                    assert(m.channels@[j] == (base + j) as usize);
                }
                assert(m.channels@.no_duplicates());
            }
        },
        _ => {},
    }
}

} // verus!
