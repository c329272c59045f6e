//! The draw of the next piece.

use rand::Rng;
use vstd::prelude::*;
use crate::catalog::TetrominoType;

verus! {

/// The number of shapes to draw from.
pub const SHAPES: u32 = 7;

/// Draws a number from `low` up to, but not including, `high`.
///
/// Calls `rand::Rng::gen_range` on the generator that `rand::thread_rng`
/// hands out. That method panics unless `low` is less than `high`, which the
/// contract therefore demands. The contract claims only what holds of every
/// draw: the number lies in the range. That every number of the range is as
/// likely as the others is the generator's promise, and is not stated here.
#[verifier::external_body]
fn draw_between(low: u32, high: u32) -> (n: u32)
    requires
        low < high,
    ensures
        low <= n < high,
{
    rand::thread_rng().gen_range(low, high)
}

/// Draws the shape of the next piece: any of the seven.
pub fn random_shape() -> (shape: TetrominoType)
    ensures
        exists|n: int| 0 <= n < SHAPES && shape == TetrominoType::of_index(n),
{
    let n = draw_between(0, SHAPES);
    TetrominoType::from_index(n)
}

} // verus!
