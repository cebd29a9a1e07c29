//! The discrete board: coordinates, headings, bounds checking and the
//! unchecked single-cell step.

use vstd::prelude::*;

verus! {

/// Number of columns on the board.
pub const BOARD_WIDTH: i32 = 32;

/// Number of rows on the board.
pub const BOARD_HEIGHT: i32 = 32;

/// A cell of the board, compared by coordinate equality.
///
/// A value produced by [`step`] may lie outside the board; callers must
/// bounds-check before trusting it.
#[derive(Clone, Copy, PartialEq, Eq, Structural, Debug)]
pub struct GridPoint {
    pub x: i32,
    pub y: i32,
}

/// Axis-aligned direction of travel.
#[derive(Clone, Copy, PartialEq, Eq, Structural, Debug)]
pub enum Heading {
    Up,
    Down,
    Left,
    Right,
}

impl GridPoint {
    pub fn new(x: i32, y: i32) -> (p: GridPoint)
        ensures
            p.x == x && p.y == y,
    {
        GridPoint { x, y }
    }
}

/// Whether a cell lies on the board.
pub open spec fn in_bounds_spec(p: GridPoint) -> bool {
    0 <= p.x < BOARD_WIDTH && 0 <= p.y < BOARD_HEIGHT
}

/// True iff `p` lies on the board.
pub fn in_bounds(p: GridPoint) -> (r: bool)
    ensures
        r == in_bounds_spec(p),
{
    0 <= p.x && p.x < BOARD_WIDTH && 0 <= p.y && p.y < BOARD_HEIGHT
}

/// The unit delta of a heading: up decreases `y`, down increases it.
pub open spec fn delta(h: Heading) -> (int, int) {
    match h {
        Heading::Up => (0int, -1int),
        Heading::Down => (0int, 1int),
        Heading::Left => (-1int, 0int),
        Heading::Right => (1int, 0int),
    }
}

/// The cell one step from `p` in direction `h`, without bounds checking.
pub open spec fn step_spec(p: GridPoint, h: Heading) -> GridPoint {
    GridPoint { x: (p.x + delta(h).0) as i32, y: (p.y + delta(h).1) as i32 }
}

/// Steps one cell in direction `h`. The result may lie outside the board
/// (including negative coordinates); callers must bounds-check it.
pub fn step(p: GridPoint, h: Heading) -> (r: GridPoint)
    requires
        i32::MIN < p.x < i32::MAX,
        i32::MIN < p.y < i32::MAX,
    ensures
        r == step_spec(p, h),
{
    match h {
        Heading::Up => GridPoint { x: p.x, y: p.y - 1 },
        Heading::Down => GridPoint { x: p.x, y: p.y + 1 },
        Heading::Left => GridPoint { x: p.x - 1, y: p.y },
        Heading::Right => GridPoint { x: p.x + 1, y: p.y },
    }
}

/// The exact opposite of a heading.
pub open spec fn reverse_spec(h: Heading) -> Heading {
    match h {
        Heading::Up => Heading::Down,
        Heading::Down => Heading::Up,
        Heading::Left => Heading::Right,
        Heading::Right => Heading::Left,
    }
}

/// Returns the exact opposite of `h`.
pub fn reverse(h: Heading) -> (r: Heading)
    ensures
        r == reverse_spec(h),
{
    match h {
        Heading::Up => Heading::Down,
        Heading::Down => Heading::Up,
        Heading::Left => Heading::Right,
        Heading::Right => Heading::Left,
    }
}

} // verus!
