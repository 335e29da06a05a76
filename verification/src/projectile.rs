//! Laser bolts: fired from the ship's nose, flying straight up.

use vstd::prelude::*;
use crate::animation::Animation;
use crate::geometry::{clamp, clamped, displace, displacement, saturate, saturated, Point,
    ARENA_HEIGHT, ARENA_WIDTH};

verus! {

/// Nominal speed of a bolt, in world units per second.
pub const PROJECTILE_SPEED: u32 = 500;

/// A bolt covers this many times its nominal speed.
pub const PROJECTILE_BOOST: i8 = 2;

/// How far above the ship's centre a bolt appears.
pub const MUZZLE_OFFSET: i64 = 6_000;

/// A bolt at or above this height, half the arena up, has left the field.
pub const ESCAPE_LINE: i64 = 320_000;

/// One laser bolt.
#[derive(Clone, Copy, Debug, PartialEq, Eq, Structural)]
pub struct Projectile {
    pub position: Point,
    pub speed: u32,
    pub sprite: Animation,
}

impl Projectile {
    /// The bolt that a ship centred at `origin` fires.
    pub open spec fn launched_from(origin: Point) -> Projectile {
        Projectile {
            position: Point { x: origin.x, y: saturated(origin.y + MUZZLE_OFFSET) as i64 },
            speed: PROJECTILE_SPEED,
            sprite: Animation::fresh(2, 3, 10),
        }
    }

    /// The bolt after flying for `dt_ms` milliseconds, kept inside the arena.
    pub open spec fn moved(self, dt_ms: u32) -> Projectile {
        Projectile {
            position: Point {
                x: clamped(self.position.x as int, -ARENA_WIDTH, ARENA_WIDTH as int) as i64,
                y: clamped(
                    self.position.y + displacement(
                        PROJECTILE_BOOST as int,
                        self.speed as int,
                        dt_ms as int,
                    ),
                    -ARENA_HEIGHT,
                    ARENA_HEIGHT as int,
                ) as i64,
            },
            ..self
        }
    }

    /// The bolt after flying through frames of the given lengths, one after
    /// the other.
    pub open spec fn moved_through(self, frames: Seq<u32>) -> Projectile
        decreases frames.len(),
    {
        if frames.len() == 0 {
            self
        } else {
            self.moved_through(frames.drop_last()).moved(frames.last())
        }
    }

    /// Whether the bolt has crossed the line beyond which it is dropped.
    pub open spec fn escaped(self) -> bool {
        self.position.y >= ESCAPE_LINE
    }

    /// The bolt with its sprite advanced by `dt_ms` milliseconds.
    pub open spec fn animated(self, dt_ms: u32) -> Projectile {
        Projectile { sprite: self.sprite.advanced(dt_ms), ..self }
    }

    /// Fires a bolt from a ship centred at `origin`.
    pub fn launch(origin: Point) -> (p: Projectile)
        ensures
            p == Projectile::launched_from(origin),
    {
        Projectile {
            position: Point { x: origin.x, y: saturate(origin.y as i128 + MUZZLE_OFFSET as i128) },
            speed: PROJECTILE_SPEED,
            sprite: Animation::new(2, 3, 10),
        }
    }

    /// Flies the bolt upward for `dt_ms` milliseconds and keeps it inside the arena.
    pub fn advance(&mut self, dt_ms: u32)
        ensures
            *final(self) == old(self).moved(dt_ms),
    {
        let rise: i128 = displace(PROJECTILE_BOOST, self.speed, dt_ms);
        let y: i64 = clamp(self.position.y as i128 + rise, -ARENA_HEIGHT, ARENA_HEIGHT);
        let x: i64 = clamp(self.position.x as i128, -ARENA_WIDTH, ARENA_WIDTH);
        self.position = Point { x, y };
    }

    /// Whether the bolt has left the field and is to be dropped.
    pub fn has_escaped(&self) -> (gone: bool)
        ensures
            gone == self.escaped(),
    {
        self.position.y >= ESCAPE_LINE
    }

    /// Advances the bolt's sprite by `dt_ms` milliseconds.
    pub fn animate(&mut self, dt_ms: u32)
        ensures
            *final(self) == old(self).animated(dt_ms),
    {
        self.sprite.advance(dt_ms);
    }
}

/// The time that the given frames take together, in milliseconds.
pub open spec fn total_ms(frames: Seq<u32>) -> int
    decreases frames.len(),
{
    if frames.len() == 0 {
        0
    } else {
        total_ms(frames.drop_last()) + frames.last()
    }
}

/// Every bolt after flying for `dt_ms` milliseconds.
pub open spec fn flown(shots: Seq<Projectile>, dt_ms: u32) -> Seq<Projectile> {
    shots.map_values(|s: Projectile| s.moved(dt_ms))
}

/// Every bolt with its sprite advanced by `dt_ms` milliseconds.
pub open spec fn shots_animated(shots: Seq<Projectile>, dt_ms: u32) -> Seq<Projectile> {
    shots.map_values(|s: Projectile| s.animated(dt_ms))
}

/// Flies every bolt upward for `dt_ms` milliseconds.
pub fn advance_projectiles(shots: &mut Vec<Projectile>, dt_ms: u32)
    ensures
        final(shots)@ == flown(old(shots)@, dt_ms),
{
    let mut i: usize = 0;
    while i < shots.len()
        invariant
            i <= shots.len(),
            shots@.len() == old(shots)@.len(),
            forall|k: int| 0 <= k < i ==> shots@[k] == old(shots)@[k].moved(dt_ms),
            forall|k: int| i <= k < shots@.len() ==> shots@[k] == old(shots)@[k],
        decreases shots.len() - i,
    {
        let mut shot = shots[i];
        shot.advance(dt_ms);
        shots.set(i, shot);
        i = i + 1;
    }
}

/// Advances the sprite of every bolt by `dt_ms` milliseconds.
pub fn animate_projectiles(shots: &mut Vec<Projectile>, dt_ms: u32)
    ensures
        final(shots)@ == shots_animated(old(shots)@, dt_ms),
{
    let mut i: usize = 0;
    while i < shots.len()
        invariant
            i <= shots.len(),
            shots@.len() == old(shots)@.len(),
            forall|k: int| 0 <= k < i ==> shots@[k] == old(shots)@[k].animated(dt_ms),
            forall|k: int| i <= k < shots@.len() ==> shots@[k] == old(shots)@[k],
        decreases shots.len() - i,
    {
        let mut shot = shots[i];
        shot.animate(dt_ms);
        shots.set(i, shot);
        i = i + 1;
    }
}

} // verus!
