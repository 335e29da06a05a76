//! Enemy ships: where they appear and how they steer by the player.

use vstd::prelude::*;
use crate::geometry::{clamp, clamped, displace, displacement, saturate, saturated, Point,
    ARENA_HEIGHT, UNIT};
use crate::input::Intent;

verus! {

/// Speed of an enemy, in world units per second.
pub const ENEMY_SPEED: u32 = 200;

/// Leftmost column an enemy can appear in, in whole world units.
pub const SPAWN_X_MIN: i32 = -1200;

/// One past the rightmost column an enemy can appear in, in whole world units.
pub const SPAWN_X_MAX: i32 = 1200;

/// How an enemy answers the player's height.
///
/// Sideways an enemy always closes in on the player. Up and down it either
/// backs off, which keeps it hovering out of reach, or closes in as well.
#[derive(Clone, Copy, Debug, PartialEq, Eq, Structural)]
pub enum VerticalSeek {
    /// Move away from the player's height.
    Away,
    /// Move toward the player's height.
    Toward,
}

/// One enemy ship.
#[derive(Clone, Copy, Debug, PartialEq, Eq, Structural)]
pub struct Enemy {
    pub position: Point,
    pub speed: u32,
    /// Cleared when the ship is shot; a ship that is not alive is removed at
    /// the end of the tick.
    pub alive: bool,
}

/// The unit step that leads from `from` to `to` on one axis.
pub open spec fn toward(from: int, to: int) -> int {
    if to < from {
        -1
    } else if to > from {
        1
    } else {
        0
    }
}

impl Enemy {
    /// The enemy that appears at the top of the arena in column `x`.
    pub open spec fn arriving_at(x: i32) -> Enemy {
        Enemy {
            position: Point { x: (x * UNIT) as i64, y: ARENA_HEIGHT },
            speed: ENEMY_SPEED,
            alive: true,
        }
    }

    /// The direction the enemy takes when the player is at `target`.
    pub open spec fn heading(self, target: Point, vertical: VerticalSeek) -> Intent {
        Intent {
            x: toward(self.position.x as int, target.x as int) as i8,
            y: match vertical {
                VerticalSeek::Toward => toward(self.position.y as int, target.y as int) as i8,
                VerticalSeek::Away => (-toward(self.position.y as int, target.y as int)) as i8,
            },
        }
    }

    /// The enemy after steering by a player at `target` for `dt_ms`
    /// milliseconds. Only its height is kept inside the arena.
    pub open spec fn moved(self, target: Point, vertical: VerticalSeek, dt_ms: u32) -> Enemy {
        let heading = self.heading(target, vertical);
        Enemy {
            position: Point {
                x: saturated(
                    self.position.x + displacement(
                        heading.x as int,
                        self.speed as int,
                        dt_ms as int,
                    ),
                ) as i64,
                y: clamped(
                    self.position.y + displacement(
                        heading.y as int,
                        self.speed as int,
                        dt_ms as int,
                    ),
                    -ARENA_HEIGHT,
                    ARENA_HEIGHT as int,
                ) as i64,
            },
            ..self
        }
    }

    /// Creates the enemy that appears at the top of the arena in column `x`.
    pub fn arrive(x: i32) -> (e: Enemy)
        ensures
            e == Enemy::arriving_at(x),
    {
        Enemy {
            position: Point { x: (x as i64) * UNIT, y: ARENA_HEIGHT },
            speed: ENEMY_SPEED,
            alive: true,
        }
    }

    /// Picks the enemy's direction for a player at `target`.
    pub fn steer(&self, target: Point, vertical: VerticalSeek) -> (i: Intent)
        ensures
            i == self.heading(target, vertical),
    {
        let mut x: i8 = 0;
        let mut y: i8 = 0;
        if target.x < self.position.x {
            x = x - 1;
        }
        if target.x > self.position.x {
            x = x + 1;
        }
        if target.y > self.position.y {
            y = y + 1;
        }
        if target.y < self.position.y {
            y = y - 1;
        }
        match vertical {
            VerticalSeek::Toward => Intent { x, y },
            VerticalSeek::Away => Intent { x, y: -y },
        }
    }

    /// Moves the enemy for `dt_ms` milliseconds, steering by a player at `target`.
    pub fn advance(&mut self, target: Point, vertical: VerticalSeek, dt_ms: u32)
        ensures
            *final(self) == old(self).moved(target, vertical, dt_ms),
    {
        let heading = self.steer(target, vertical);
        let dx: i128 = displace(heading.x, self.speed, dt_ms);
        let dy: i128 = displace(heading.y, self.speed, dt_ms);
        let x: i64 = saturate(self.position.x as i128 + dx);
        let y: i64 = clamp(self.position.y as i128 + dy, -ARENA_HEIGHT, ARENA_HEIGHT);
        self.position = Point { x, y };
    }
}

/// Every enemy after steering by a player at `target` for `dt_ms` milliseconds.
pub open spec fn closing_in(
    enemies: Seq<Enemy>,
    target: Point,
    vertical: VerticalSeek,
    dt_ms: u32,
) -> Seq<Enemy> {
    enemies.map_values(|e: Enemy| e.moved(target, vertical, dt_ms))
}

/// Moves every enemy for `dt_ms` milliseconds, steering by a player at `target`.
pub fn advance_enemies(
    enemies: &mut Vec<Enemy>,
    target: Point,
    vertical: VerticalSeek,
    dt_ms: u32,
)
    ensures
        final(enemies)@ == closing_in(old(enemies)@, target, vertical, dt_ms),
{
    let mut i: usize = 0;
    while i < enemies.len()
        invariant
            i <= enemies.len(),
            enemies@.len() == old(enemies)@.len(),
            forall|k: int|
                0 <= k < i ==> enemies@[k] == old(enemies)@[k].moved(target, vertical, dt_ms),
            forall|k: int| i <= k < enemies@.len() ==> enemies@[k] == old(enemies)@[k],
        decreases enemies.len() - i,
    {
        let mut enemy = enemies[i];
        enemy.advance(target, vertical, dt_ms);
        enemies.set(i, enemy);
        i = i + 1;
    }
}

} // verus!
