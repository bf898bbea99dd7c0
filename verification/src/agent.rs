//! Agents and their decision policy.
//!
//! Each agent carries a fixed personality, derived deterministically from its
//! identity at discovery time, and the task it chose for the current phase.
//! `decide` is a total, pure function of the phase and the observed stock.

use crate::clock::{GameTime, Phase};
use vstd::prelude::*;

verus! {

/// An agent's fixed decision strategy.
#[derive(Clone, Copy, PartialEq, Eq, Structural, Debug)]
pub enum Personality {
    Cooperative,
    Greedy,
}

/// An agent's chosen activity for the current phase.
#[derive(Clone, Copy, PartialEq, Eq, Structural, Debug)]
pub enum Task {
    Eat,
    Sleep,
    Work,
}

/// What the world looks like to a deciding agent: the clock and the current
/// apple stock.
#[derive(Clone, Copy, PartialEq, Eq, Structural, Debug)]
pub struct WorldView {
    pub time: GameTime,
    pub apple_stock: i64,
}

/// The personality an identity maps to, fixed at discovery time.
pub open spec fn personality_of(identity: u64) -> Personality {
    if identity % 4 == 1 {
        Personality::Greedy
    } else {
        Personality::Cooperative
    }
}

/// The task a personality chooses in a phase, given the observed stock.
///
/// Cooperative agents keep a fixed timetable; greedy agents sleep through
/// `Predawn` and `Night` and otherwise eat whenever stock is on hand.
pub open spec fn chosen_task(p: Personality, phase: Phase, stock: i64) -> Task {
    match p {
        Personality::Greedy => match phase {
            Phase::Predawn | Phase::Night => Task::Sleep,
            _ => if stock > 0 {
                Task::Eat
            } else {
                Task::Work
            },
        },
        Personality::Cooperative => match phase {
            Phase::Predawn | Phase::Night => Task::Sleep,
            Phase::Morning | Phase::Evening => Task::Work,
            Phase::Midday => Task::Eat,
        },
    }
}

/// An agent: the identity of its external actor, its fixed personality, and
/// the task it last chose.
#[derive(Clone, Copy, PartialEq, Eq, Structural, Debug)]
pub struct Character {
    pub identity: u64,
    pub personality: Personality,
    pub task: Task,
}

impl Character {
    /// An agent's personality never drifts from its identity.
    pub open spec fn wf(self) -> bool {
        self.personality == personality_of(self.identity)
    }

    /// Take an agent into the roster: its personality is derived from its
    /// identity, and it starts out asleep.
    pub fn new(identity: u64) -> (r: Character)
        ensures
            r == (Character {
                identity,
                personality: personality_of(identity),
                task: Task::Sleep,
            }),
            r.wf(),
    {
        let personality = if identity % 4 == 1 {
            Personality::Greedy
        } else {
            Personality::Cooperative
        };
        Character { identity, personality, task: Task::Sleep }
    }

    /// Choose a task for the observed world. Pure: no state changes here.
    pub fn decide(&self, view: WorldView) -> (t: Task)
        ensures
            t == chosen_task(self.personality, view.time.phase, view.apple_stock),
    {
        match self.personality {
            Personality::Greedy => match view.time.phase {
                Phase::Predawn | Phase::Night => Task::Sleep,
                _ => {
                    if view.apple_stock > 0 {
                        Task::Eat
                    } else {
                        Task::Work
                    }
                },
            },
            Personality::Cooperative => match view.time.phase {
                Phase::Predawn | Phase::Night => Task::Sleep,
                Phase::Morning | Phase::Evening => Task::Work,
                Phase::Midday => Task::Eat,
            },
        }
    }
}

/// Decision totality, and the cooperative timetable: every personality maps
/// every phase to exactly one task, and a cooperative agent sleeps through
/// `Predawn` and `Night`, works through `Morning` and `Evening`, and eats at
/// `Midday`, whatever the stock.
pub proof fn lemma_decide_total(p: Personality, phase: Phase, stock: i64)
    ensures
        chosen_task(p, phase, stock) == Task::Eat || chosen_task(p, phase, stock) == Task::Sleep
            || chosen_task(p, phase, stock) == Task::Work,
        p == Personality::Cooperative ==> chosen_task(p, phase, stock) == (match phase {
            Phase::Predawn | Phase::Night => Task::Sleep,
            Phase::Morning | Phase::Evening => Task::Work,
            Phase::Midday => Task::Eat,
        }),
{
}

} // verus!
