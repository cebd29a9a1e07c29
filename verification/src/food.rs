//! Food placement: a uniformly random cell of the board.

use vstd::prelude::*;
use rand::Rng;
use crate::grid::{GridPoint, BOARD_WIDTH, BOARD_HEIGHT, in_bounds_spec};

verus! {

/// Relies on rand 0.8's `Rng::gen_range` over the half-open range
/// `0..bound` on a thread-local generator: it panics only when the range
/// is empty, and otherwise returns a value of the range, uniformly
/// distributed.
#[verifier::external_body]
fn random_below(bound: i32) -> (r: i32)
    requires
        bound > 0,
    ensures
        0 <= r < bound,
{
    rand::thread_rng().gen_range(0..bound)
}

/// Produces a food cell with both coordinates drawn independently and
/// uniformly over the whole board.
///
/// Cells the snake currently occupies are not excluded, so food may land
/// under the snake; it then becomes reachable once the snake vacates that
/// cell.
pub fn generate_food() -> (p: GridPoint)
    ensures
        in_bounds_spec(p),
{
    let x = random_below(BOARD_WIDTH);
    let y = random_below(BOARD_HEIGHT);
    GridPoint { x, y }
}

} // verus!
