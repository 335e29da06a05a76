//! The one source of chance: the column an enemy appears in.

use rand::Rng;
use vstd::prelude::*;
use crate::enemy::{SPAWN_X_MAX, SPAWN_X_MIN};

verus! {

/// Draws a whole number from `low..high`.
///
/// Trusted, not proved: the body calls `Rng::gen_range` of the `rand` crate
/// on the generator that `rand::thread_rng` hands out. All that is claimed of
/// the call is that the number lies in the half-open range it was given,
/// whatever the generator does; nothing is claimed about how the numbers are
/// spread. `gen_range` refuses an empty range, so the range must not be
/// empty. The first call on a thread seeds the generator from the operating
/// system and gives up if the system has no randomness to offer.
#[verifier::external_body]
fn uniform(low: i32, high: i32) -> (x: i32)
    requires
        low < high,
    ensures
        low <= x < high,
{
    rand::thread_rng().gen_range(low..high)
}

/// Picks the column, in whole world units, in which the next enemy appears.
pub fn draw_column() -> (x: i32)
    ensures
        SPAWN_X_MIN <= x < SPAWN_X_MAX,
{
    uniform(SPAWN_X_MIN, SPAWN_X_MAX)
}

} // verus!
