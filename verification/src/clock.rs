//! The day/phase/sub-phase clock.
//!
//! A simulated day is five named phases; each phase is four sub-phases, and
//! the clock advances one sub-phase at a time. The day counter steps exactly
//! on the transition into `Phase::Predawn`.

use vstd::prelude::*;

verus! {

/// One of five named segments of a simulated day.
#[derive(Clone, Copy, PartialEq, Eq, Structural, Debug)]
pub enum Phase {
    Predawn,
    Morning,
    Midday,
    Evening,
    Night,
}

/// One of four sub-segments of a phase, driving when agent actions launch
/// (`Commence`) and when their deferred effects settle (`Complete`).
#[derive(Clone, Copy, PartialEq, Eq, Structural, Debug)]
pub enum SubPhase {
    Commence,
    Progress,
    Complete,
    Tempo,
}

/// The cyclic successor of a phase; `Night` wraps to `Predawn`.
pub open spec fn phase_succ(p: Phase) -> Phase {
    match p {
        Phase::Predawn => Phase::Morning,
        Phase::Morning => Phase::Midday,
        Phase::Midday => Phase::Evening,
        Phase::Evening => Phase::Night,
        Phase::Night => Phase::Predawn,
    }
}

/// The cyclic successor of a sub-phase; `Tempo` wraps to `Commence`.
pub open spec fn sub_succ(s: SubPhase) -> SubPhase {
    match s {
        SubPhase::Commence => SubPhase::Progress,
        SubPhase::Progress => SubPhase::Complete,
        SubPhase::Complete => SubPhase::Tempo,
        SubPhase::Tempo => SubPhase::Commence,
    }
}

/// The display name of a phase.
pub open spec fn phase_name(p: Phase) -> Seq<char> {
    match p {
        Phase::Predawn => "Predawn"@,
        Phase::Morning => "Morning"@,
        Phase::Midday => "Midday"@,
        Phase::Evening => "Evening"@,
        Phase::Night => "Night"@,
    }
}

impl Phase {
    /// The next phase of the day.
    pub fn next(&self) -> (r: Phase)
        ensures
            r == phase_succ(*self),
    {
        match self {
            Phase::Predawn => Phase::Morning,
            Phase::Morning => Phase::Midday,
            Phase::Midday => Phase::Evening,
            Phase::Evening => Phase::Night,
            Phase::Night => Phase::Predawn,
        }
    }

    /// The display name of the phase, as pushed to the time indicator.
    pub fn label(&self) -> (r: &'static str)
        ensures
            r@ == phase_name(*self),
    {
        match self {
            Phase::Predawn => "Predawn",
            Phase::Morning => "Morning",
            Phase::Midday => "Midday",
            Phase::Evening => "Evening",
            Phase::Night => "Night",
        }
    }
}

impl SubPhase {
    /// The next sub-phase of the current phase.
    pub fn next(&self) -> (r: SubPhase)
        ensures
            r == sub_succ(*self),
    {
        match self {
            SubPhase::Commence => SubPhase::Progress,
            SubPhase::Progress => SubPhase::Complete,
            SubPhase::Complete => SubPhase::Tempo,
            SubPhase::Tempo => SubPhase::Commence,
        }
    }
}

/// The clock state: day number, phase, and sub-phase.
#[derive(Clone, Copy, PartialEq, Eq, Structural, Debug)]
pub struct GameTime {
    pub day: u64,
    pub phase: Phase,
    pub sub: SubPhase,
}

/// One advance of the clock: the sub-phase steps to its successor; when the
/// new sub-phase is `Commence` the phase steps too, and when the new phase is
/// `Predawn` the day count steps as well.
pub open spec fn time_succ(t: GameTime) -> GameTime {
    let sub = sub_succ(t.sub);
    if sub == SubPhase::Commence {
        let phase = phase_succ(t.phase);
        if phase == Phase::Predawn {
            GameTime { day: (t.day + 1) as u64, phase, sub }
        } else {
            GameTime { day: t.day, phase, sub }
        }
    } else {
        GameTime { day: t.day, phase: t.phase, sub }
    }
}

/// The clock after `n` advances.
pub open spec fn advance_n(t: GameTime, n: nat) -> GameTime
    decreases n,
{
    if n == 0 {
        t
    } else {
        time_succ(advance_n(t, (n - 1) as nat))
    }
}

impl GameTime {
    /// The state the simulation starts in: one sub-step before the first
    /// `Commence` of day one.
    pub fn start() -> (r: GameTime)
        ensures
            r == (GameTime { day: 1, phase: Phase::Predawn, sub: SubPhase::Tempo }),
    {
        GameTime { day: 1, phase: Phase::Predawn, sub: SubPhase::Tempo }
    }

    /// Step the clock by one sub-phase; the only mutator of the clock.
    pub fn advance(&mut self)
        requires
            old(self).day < u64::MAX,
        ensures
            *final(self) == time_succ(*old(self)),
    {
        self.sub = self.sub.next();
        if self.sub == SubPhase::Commence {
            self.phase = self.phase.next();
            if self.phase == Phase::Predawn {
                self.day = self.day + 1;
            }
        }
    }
}

/// The day count changes exactly on an advance whose new sub-phase is
/// `Commence` and whose new phase is `Predawn` — that is, on the transition
/// into `Predawn` — and then by exactly one.
pub proof fn lemma_day_steps_into_predawn(t: GameTime)
    requires
        t.day < u64::MAX,
    ensures
        sub_succ(t.sub) == SubPhase::Commence && phase_succ(t.phase) == Phase::Predawn
            ==> time_succ(t).day == t.day + 1,
        !(sub_succ(t.sub) == SubPhase::Commence && phase_succ(t.phase) == Phase::Predawn)
            ==> time_succ(t).day == t.day,
{
}

/// Four advances walk the sub-phases once around: the sub-phase returns to
/// where it started, the phase steps exactly once, and the day steps exactly
/// if that phase step entered `Predawn`.
pub proof fn lemma_phase_cycle(t: GameTime)
    requires
        phase_succ(t.phase) == Phase::Predawn ==> t.day < u64::MAX,
    ensures
        advance_n(t, 4).sub == t.sub,
        advance_n(t, 4).phase == phase_succ(t.phase),
        advance_n(t, 4).day == t.day + (if phase_succ(t.phase) == Phase::Predawn {
            1int
        } else {
            0int
        }),
{
    reveal_with_fuel(advance_n, 5);
}

/// Splitting a run of advances: `m + n` advances are `m` advances followed by
/// `n` more.
pub proof fn lemma_advance_n_add(t: GameTime, m: nat, n: nat)
    ensures
        advance_n(t, m + n) == advance_n(advance_n(t, m), n),
    decreases n,
{
    if n > 0 {
        lemma_advance_n_add(t, m, (n - 1) as nat);
    }
}

/// Twenty advances walk the phases once around the day: the sub-phase and the
/// phase both return to where they started, and the day count steps by
/// exactly one.
pub proof fn lemma_day_cycle(t: GameTime)
    requires
        t.day < u64::MAX,
    ensures
        advance_n(t, 20).sub == t.sub,
        advance_n(t, 20).phase == t.phase,
        advance_n(t, 20).day == t.day + 1,
{
    let t4 = advance_n(t, 4);
    let t8 = advance_n(t, 8);
    let t12 = advance_n(t, 12);
    let t16 = advance_n(t, 16);
    lemma_phase_cycle(t);
    lemma_advance_n_add(t, 4, 4);
    lemma_phase_cycle(t4);
    lemma_advance_n_add(t, 8, 4);
    lemma_phase_cycle(t8);
    lemma_advance_n_add(t, 12, 4);
    lemma_phase_cycle(t12);
    lemma_advance_n_add(t, 16, 4);
    lemma_phase_cycle(t16);
}

/// Eighty advances — four full day cycles — return the sub-phase and the
/// phase to where they started and step the day count by exactly four.
pub proof fn lemma_four_day_cycles(t: GameTime)
    requires
        t.day + 4 <= u64::MAX,
    ensures
        advance_n(t, 80).sub == t.sub,
        advance_n(t, 80).phase == t.phase,
        advance_n(t, 80).day == t.day + 4,
{
    let t20 = advance_n(t, 20);
    let t40 = advance_n(t, 40);
    let t60 = advance_n(t, 60);
    lemma_day_cycle(t);
    lemma_advance_n_add(t, 20, 20);
    lemma_day_cycle(t20);
    lemma_advance_n_add(t, 40, 20);
    lemma_day_cycle(t40);
    lemma_advance_n_add(t, 60, 20);
    lemma_day_cycle(t60);
}

} // verus!
