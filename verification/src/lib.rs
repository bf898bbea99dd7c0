//! Simulation core of a small life/economy game: a day clock built from named
//! phases and sub-phases, single-assignment completion signals for timed agent
//! actions, a one-deep work queue that the clock advances behind, and the
//! bookkeeping of a shared apple stock that only resolved action outcomes may
//! change.

pub mod agent;
pub mod channel;
pub mod clock;
pub mod dispatch;
pub mod item;
pub mod outcome;
