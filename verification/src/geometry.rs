//! Points, clamping and the hit test, in fixed-point world coordinates.

use vstd::prelude::*;

verus! {

/// Number of coordinate steps in one world unit.
pub const UNIT: i64 = 1000;

/// Full width of the arena; bolts live in `[-ARENA_WIDTH, ARENA_WIDTH]`.
pub const ARENA_WIDTH: i64 = 1_200_000;

/// Full height of the arena; its top edge is where enemies appear.
pub const ARENA_HEIGHT: i64 = 640_000;

/// Two bodies touch when their centres are closer than this horizontally.
pub const HIT_HALF_WIDTH: i64 = 45_500;

/// Two bodies touch when their centres are closer than this vertically.
pub const HIT_HALF_HEIGHT: i64 = 15_500;

/// No frame moves a body farther than this on one axis.
pub const DISPLACEMENT_LIMIT: i128 = 0x80_0000_0000_0000_0000;

/// A position in the plane.
#[derive(Clone, Copy, Debug, PartialEq, Eq, Structural)]
pub struct Point {
    pub x: i64,
    pub y: i64,
}

/// `v` pulled into the closed interval `[lo, hi]`.
pub open spec fn clamped(v: int, lo: int, hi: int) -> int {
    if v < lo {
        lo
    } else if v > hi {
        hi
    } else {
        v
    }
}

/// `v` pulled into the range of a coordinate.
pub open spec fn saturated(v: int) -> int {
    clamped(v, i64::MIN as int, i64::MAX as int)
}

/// Distance between two coordinates on one axis.
pub open spec fn gap(a: int, b: int) -> int {
    if a >= b {
        a - b
    } else {
        b - a
    }
}

/// Distance covered in `dt_ms` milliseconds at `speed` units per second,
/// signed by `direction`.
pub open spec fn displacement(direction: int, speed: int, dt_ms: int) -> int {
    direction * (speed * dt_ms)
}

/// The hit test: the centres are within the hit box of each other on both axes.
pub open spec fn overlaps(a: Point, b: Point) -> bool {
    gap(a.y as int, b.y as int) < HIT_HALF_HEIGHT && gap(a.x as int, b.x as int) < HIT_HALF_WIDTH
}

impl Point {
    /// The point with the given coordinates.
    pub fn new(x: i64, y: i64) -> (p: Point)
        ensures
            p == (Point { x, y }),
    {
        Point { x, y }
    }

    /// The point that lies `x` and `y` whole world units from the centre.
    pub fn from_units(x: i32, y: i32) -> (p: Point)
        ensures
            p.x == x * UNIT,
            p.y == y * UNIT,
    {
        Point { x: (x as i64) * UNIT, y: (y as i64) * UNIT }
    }
}

/// Pulls `v` into `[lo, hi]`. Whatever `v` is, the result lies in the
/// interval, as long as the interval holds anything.
pub fn clamp(v: i128, lo: i64, hi: i64) -> (r: i64)
    ensures
        r == clamped(v as int, lo as int, hi as int),
        lo <= hi ==> lo <= r <= hi,
{
    if v < lo as i128 {
        lo
    } else if v > hi as i128 {
        hi
    } else {
        v as i64
    }
}

/// Pulls `v` into the range of a coordinate.
pub fn saturate(v: i128) -> (r: i64)
    ensures
        r == saturated(v as int),
{
    clamp(v, i64::MIN, i64::MAX)
}

/// Distance covered in one frame, signed by `direction`.
pub fn displace(direction: i8, speed: u32, dt_ms: u32) -> (d: i128)
    ensures
        d == displacement(direction as int, speed as int, dt_ms as int),
        -DISPLACEMENT_LIMIT <= d <= DISPLACEMENT_LIMIT,
{
    assert(0 <= speed * dt_ms <= 0xFFFF_FFFF * 0xFFFF_FFFF) by (nonlinear_arith)
        requires
            0 <= speed <= 0xFFFF_FFFF,
            0 <= dt_ms <= 0xFFFF_FFFF,
    ;
    let reach: u64 = (speed as u64) * (dt_ms as u64);
    assert(-128 * 0xFFFF_FFFF_FFFF_FFFF <= direction * reach <= 128 * 0xFFFF_FFFF_FFFF_FFFF)
        by (nonlinear_arith)
        requires
            -128 <= direction <= 127,
            0 <= reach <= 0xFFFF_FFFF_FFFF_FFFF,
    ;
    (direction as i128) * (reach as i128)
}

/// Whether two bodies centred at `a` and `b` touch.
pub fn collide(a: Point, b: Point) -> (hit: bool)
    ensures
        hit == overlaps(a, b),
{
    let dy: i128 = a.y as i128 - b.y as i128;
    let dx: i128 = a.x as i128 - b.x as i128;
    let gy: i128 = if dy >= 0 { dy } else { -dy };
    let gx: i128 = if dx >= 0 { dx } else { -dx };
    gy < HIT_HALF_HEIGHT as i128 && gx < HIT_HALF_WIDTH as i128
}

} // verus!
