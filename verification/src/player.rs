//! The player's ship: steering inside its zone, and the gun's cooldown.

use vstd::prelude::*;
use crate::animation::Animation;
use crate::geometry::{clamp, clamped, displace, displacement, Point};
use crate::input::Intent;
use crate::projectile::Projectile;

verus! {

/// Speed of the ship, in world units per second.
pub const PLAYER_SPEED: u32 = 500;

/// Least time between two shots, in milliseconds.
pub const COOLDOWN_MS: u64 = 250;

/// The ship stays within this distance of the centre, sideways: half the arena.
pub const PLAYER_REACH_X: i64 = 600_000;

/// The ship stays within this distance of the centre, up and down: half the arena.
pub const PLAYER_REACH_Y: i64 = 320_000;

/// The player's ship.
#[derive(Clone, Copy, Debug, PartialEq, Eq, Structural)]
pub struct Player {
    pub position: Point,
    pub speed: u32,
    /// Wall-clock time of the last shot, in milliseconds.
    pub last_shot: u64,
    pub sprite: Animation,
}

impl Player {
    /// The ship as it enters a new game at time `now`: at the centre, with
    /// the gun counted as just fired.
    pub open spec fn entering(now: u64) -> Player {
        Player {
            position: Point { x: 0, y: 0 },
            speed: PLAYER_SPEED,
            last_shot: now,
            sprite: Animation::fresh(0, 9, 10),
        }
    }

    /// Whether the ship lies inside the zone it is kept in.
    pub open spec fn in_zone(self) -> bool {
        &&& -PLAYER_REACH_X <= self.position.x <= PLAYER_REACH_X
        &&& -PLAYER_REACH_Y <= self.position.y <= PLAYER_REACH_Y
    }

    /// The ship after steering along `intent` for `dt_ms` milliseconds, kept
    /// inside its zone.
    pub open spec fn moved(self, intent: Intent, dt_ms: u32) -> Player {
        Player {
            position: Point {
                x: clamped(
                    self.position.x + displacement(intent.x as int, self.speed as int, dt_ms as int),
                    -PLAYER_REACH_X,
                    PLAYER_REACH_X as int,
                ) as i64,
                y: clamped(
                    self.position.y + displacement(intent.y as int, self.speed as int, dt_ms as int),
                    -PLAYER_REACH_Y,
                    PLAYER_REACH_Y as int,
                ) as i64,
            },
            ..self
        }
    }

    /// Whether the gun has cooled down at time `now`.
    pub open spec fn ready(self, now: u64) -> bool {
        now - self.last_shot >= COOLDOWN_MS
    }

    /// Whether a request to shoot at time `now` produces a bolt.
    pub open spec fn fires(self, shoot: bool, now: u64) -> bool {
        shoot && self.ready(now)
    }

    /// The ship after a request to shoot at time `now`.
    pub open spec fn after_trigger(self, shoot: bool, now: u64) -> Player {
        if self.fires(shoot, now) {
            Player { last_shot: now, ..self }
        } else {
            self
        }
    }

    /// How many bolts leave the ship when the trigger is pulled at each of
    /// the times in `pulses`, in that order.
    pub open spec fn volley(self, pulses: Seq<u64>) -> nat
        decreases pulses.len(),
    {
        if pulses.len() == 0 {
            0
        } else {
            self.after_trigger(true, pulses[0]).volley(pulses.skip(1)) + if self.fires(
                true,
                pulses[0],
            ) {
                1nat
            } else {
                0nat
            }
        }
    }

    /// The ship with its sprite advanced by `dt_ms` milliseconds.
    pub open spec fn animated(self, dt_ms: u32) -> Player {
        Player { sprite: self.sprite.advanced(dt_ms), ..self }
    }

    /// Creates the ship for a game that starts at time `now`.
    pub fn new(now: u64) -> (p: Player)
        ensures
            p == Player::entering(now),
            p.in_zone(),
    {
        Player {
            position: Point { x: 0, y: 0 },
            speed: PLAYER_SPEED,
            last_shot: now,
            sprite: Animation::new(0, 9, 10),
        }
    }

    /// Steers the ship along `intent` for `dt_ms` milliseconds. Wherever the
    /// ship was and however far it would travel, it ends inside its zone.
    pub fn advance(&mut self, intent: Intent, dt_ms: u32)
        ensures
            *final(self) == old(self).moved(intent, dt_ms),
            final(self).in_zone(),
    {
        let dx: i128 = displace(intent.x, self.speed, dt_ms);
        let dy: i128 = displace(intent.y, self.speed, dt_ms);
        let x: i64 = clamp(self.position.x as i128 + dx, -PLAYER_REACH_X, PLAYER_REACH_X);
        let y: i64 = clamp(self.position.y as i128 + dy, -PLAYER_REACH_Y, PLAYER_REACH_Y);
        self.position = Point { x, y };
    }

    /// Handles the shoot key at time `now`. A bolt leaves the ship's nose
    /// exactly when the key is held and the last shot is at least the
    /// cooldown in the past; the gun then counts as fired at `now`.
    pub fn try_fire(&mut self, shoot: bool, now: u64) -> (shot: Option<Projectile>)
        ensures
            shot.is_some() == old(self).fires(shoot, now),
            shot.is_some() ==> shot == Some(Projectile::launched_from(old(self).position)),
            *final(self) == old(self).after_trigger(shoot, now),
    {
        if shoot && now >= self.last_shot && now - self.last_shot >= COOLDOWN_MS {
            self.last_shot = now;
            Some(Projectile::launch(self.position))
        } else {
            None
        }
    }

    /// Advances the ship's sprite by `dt_ms` milliseconds.
    pub fn animate(&mut self, dt_ms: u32)
        ensures
            *final(self) == old(self).animated(dt_ms),
    {
        self.sprite.advance(dt_ms);
    }
}

} // verus!
