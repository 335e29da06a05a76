//! Ticks, and the countdown that paces enemy arrivals.
//!
//! Countdowns are kept in thousandths of a tick. A host chooses whether one
//! call of the simulation counts as one whole tick, whatever the frame rate,
//! or as the share of a tick that the frame's duration comes to.

use vstd::prelude::*;

verus! {

/// One tick, in the thousandths that countdowns are kept in.
pub const TICK: u32 = 1000;

/// How many ticks make one second of elapsed time.
pub const TICKS_PER_SECOND: u32 = 60;

/// Ticks between two enemy arrivals.
pub const SPAWN_PERIOD_TICKS: u32 = 30;

/// The arrival countdown's starting value.
pub const SPAWN_PERIOD: u32 = SPAWN_PERIOD_TICKS * TICK;

/// How a call of the simulation is turned into ticks.
#[derive(Clone, Copy, Debug, PartialEq, Eq, Structural)]
pub enum TimeBase {
    /// Every call is one tick: countdowns follow the frame rate.
    PerTick,
    /// A call is worth the frame's duration: countdowns follow the clock.
    Elapsed,
}

/// The amount a countdown moves in one call.
pub open spec fn step_of(base: TimeBase, dt_ms: u32) -> int {
    match base {
        TimeBase::PerTick => TICK as int,
        TimeBase::Elapsed => dt_ms * TICKS_PER_SECOND,
    }
}

/// The amount a countdown moves in one call.
pub fn tick_step(base: TimeBase, dt_ms: u32) -> (step: u64)
    ensures
        step == step_of(base, dt_ms),
{
    match base {
        TimeBase::PerTick => TICK as u64,
        TimeBase::Elapsed => {
            let rate: u64 = TICKS_PER_SECOND as u64;
            (dt_ms as u64) * rate
        },
    }
}

/// The countdown to the next enemy arrival.
#[derive(Clone, Copy, Debug, PartialEq, Eq, Structural)]
pub struct SpawnTimer {
    /// What is left, in thousandths of a tick.
    pub remaining: u32,
}

impl SpawnTimer {
    /// A countdown with a full period ahead of it.
    pub open spec fn full() -> SpawnTimer {
        SpawnTimer { remaining: SPAWN_PERIOD }
    }

    /// Whether a call that moves the countdown by `step` uses up what is left.
    pub open spec fn due(self, step: int) -> bool {
        self.remaining <= step
    }

    /// The countdown after a call that moves it by `step`: started over when
    /// it ran out, shortened otherwise.
    pub open spec fn after(self, step: int) -> SpawnTimer {
        if self.due(step) {
            SpawnTimer::full()
        } else {
            SpawnTimer { remaining: (self.remaining - step) as u32 }
        }
    }

    /// The countdown after `calls` calls that each count as one tick.
    pub open spec fn after_ticks(self, calls: nat) -> SpawnTimer
        decreases calls,
    {
        if calls == 0 {
            self
        } else {
            self.after_ticks((calls - 1) as nat).after(TICK as int)
        }
    }

    /// A countdown with a full period ahead of it.
    pub fn new() -> (t: SpawnTimer)
        ensures
            t == SpawnTimer::full(),
    {
        SpawnTimer { remaining: SPAWN_PERIOD }
    }

    /// Moves the countdown by `step`. Returns whether it ran out, in which
    /// case an enemy is to arrive and the countdown has started over.
    pub fn advance(&mut self, step: u64) -> (fired: bool)
        ensures
            fired == old(self).due(step as int),
            *final(self) == old(self).after(step as int),
    {
        if self.remaining as u64 <= step {
            self.remaining = SPAWN_PERIOD;
            true
        } else {
            self.remaining = ((self.remaining as u64) - step) as u32;
            false
        }
    }
}

} // verus!
