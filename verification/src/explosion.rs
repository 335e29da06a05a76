//! Blasts: short-lived effects left where a ship was destroyed.

use vstd::prelude::*;
use crate::animation::Animation;
use crate::geometry::Point;
use crate::timing::TICK;

verus! {

/// Ticks a blast stays on screen.
pub const EXPLOSION_LIFETIME_TICKS: u32 = 30;

/// The age beyond which a blast is removed, in thousandths of a tick.
pub const EXPLOSION_LIFETIME: u32 = EXPLOSION_LIFETIME_TICKS * TICK;

/// One blast.
#[derive(Clone, Copy, Debug, PartialEq, Eq, Structural)]
pub struct Explosion {
    pub position: Point,
    /// Time since the blast appeared, in thousandths of a tick.
    pub age: u32,
    pub sprite: Animation,
}

impl Explosion {
    /// A blast that has just appeared at `position`.
    pub open spec fn at(position: Point) -> Explosion {
        Explosion { position, age: 0, sprite: Animation::fresh(0, 4, 10) }
    }

    /// Whether the blast is still within its lifetime after ageing by `step`.
    pub open spec fn outlives(self, step: int) -> bool {
        self.age + step <= EXPLOSION_LIFETIME
    }

    /// The blast, older by `step`.
    pub open spec fn aged(self, step: int) -> Explosion {
        Explosion { age: (self.age + step) as u32, ..self }
    }

    /// The blast with its sprite advanced by `dt_ms` milliseconds.
    pub open spec fn animated(self, dt_ms: u32) -> Explosion {
        Explosion { sprite: self.sprite.advanced(dt_ms), ..self }
    }

    /// Creates a blast at `position`.
    pub fn new(position: Point) -> (e: Explosion)
        ensures
            e == Explosion::at(position),
    {
        Explosion { position, age: 0, sprite: Animation::new(0, 4, 10) }
    }

    /// Ages the blast by `step`. Returns `false`, and leaves the blast as it
    /// was, when that takes it past its lifetime.
    pub fn grow_older(&mut self, step: u64) -> (kept: bool)
        ensures
            kept == old(self).outlives(step as int),
            kept ==> *final(self) == old(self).aged(step as int),
            !kept ==> *final(self) == *old(self),
    {
        if step > EXPLOSION_LIFETIME as u64 {
            return false;
        }
        let age: u64 = self.age as u64 + step;
        if age > EXPLOSION_LIFETIME as u64 {
            false
        } else {
            self.age = age as u32;
            true
        }
    }

    /// Advances the blast's sprite by `dt_ms` milliseconds.
    pub fn animate(&mut self, dt_ms: u32)
        ensures
            *final(self) == old(self).animated(dt_ms),
    {
        self.sprite.advance(dt_ms);
    }
}

/// The blasts that are left after ageing by `step`, each older by `step`.
pub open spec fn faded(blasts: Seq<Explosion>, step: int) -> Seq<Explosion> {
    blasts.filter(|e: Explosion| e.outlives(step)).map_values(|e: Explosion| e.aged(step))
}

/// The blasts that are left after `calls` calls that each count as one tick.
pub open spec fn faded_by_ticks(blasts: Seq<Explosion>, calls: nat) -> Seq<Explosion>
    decreases calls,
{
    if calls == 0 {
        blasts
    } else {
        faded(faded_by_ticks(blasts, (calls - 1) as nat), TICK as int)
    }
}

/// Every blast with its sprite advanced by `dt_ms` milliseconds.
pub open spec fn blasts_animated(blasts: Seq<Explosion>, dt_ms: u32) -> Seq<Explosion> {
    blasts.map_values(|e: Explosion| e.animated(dt_ms))
}

/// Ages every blast by `step` and removes those past their lifetime,
/// keeping the order of the rest.
pub fn age_explosions(blasts: &mut Vec<Explosion>, step: u64)
    ensures
        final(blasts)@ == faded(old(blasts)@, step as int),
{
    let mut kept: Vec<Explosion> = Vec::new();
    let mut i: usize = 0;
    while i < blasts.len()
        invariant
            i <= blasts.len(),
            blasts@ == old(blasts)@,
            kept@ == faded(blasts@.take(i as int), step as int),
        decreases blasts.len() - i,
    {
        proof {
            reveal(Seq::filter);
            assert(blasts@.take(i + 1).drop_last() =~= blasts@.take(i as int));
        }
        let mut blast = blasts[i];
        if blast.grow_older(step) {
            kept.push(blast);
        }
        i = i + 1;
    }
    assert(blasts@.take(i as int) =~= blasts@);
    *blasts = kept;
}

/// Advances the sprite of every blast by `dt_ms` milliseconds.
pub fn animate_explosions(blasts: &mut Vec<Explosion>, dt_ms: u32)
    ensures
        final(blasts)@ == blasts_animated(old(blasts)@, dt_ms),
{
    let mut i: usize = 0;
    while i < blasts.len()
        invariant
            i <= blasts.len(),
            blasts@.len() == old(blasts)@.len(),
            forall|k: int| 0 <= k < i ==> blasts@[k] == old(blasts)@[k].animated(dt_ms),
            forall|k: int| i <= k < blasts@.len() ==> blasts@[k] == old(blasts)@[k],
        decreases blasts.len() - i,
    {
        let mut blast = blasts[i];
        blast.animate(dt_ms);
        blasts.set(i, blast);
        i = i + 1;
    }
}

} // verus!
