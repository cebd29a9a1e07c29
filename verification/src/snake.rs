//! The snake simulation: body, heading, movement timing, collision
//! detection and growth.
//!
//! Time is measured in whole microseconds of logical time. The simulation
//! accumulates elapsed time across frames and resolves at most one logical
//! move per [`Snake::advance`] call, once the accumulator reaches the move
//! interval; it never tries to catch up on several missed moves at once.

use vstd::prelude::*;
use std::collections::VecDeque;
use crate::grid::{
    GridPoint, Heading, BOARD_WIDTH, BOARD_HEIGHT, in_bounds_spec, in_bounds, step_spec, step,
    reverse_spec, reverse,
};

verus! {

/// Microseconds of logical time per move of the default snake: 0.075 s.
pub const MOVE_INTERVAL_MICROS: u64 = 75000;

/// Outcome of one [`Snake::advance`] call.
///
/// The two crash variants are terminal: the board state no longer changes
/// once one of them has been reported, and the caller is expected to end
/// the session.
#[derive(Clone, Copy, PartialEq, Eq, Structural, Debug)]
pub enum AdvanceResult {
    /// Not enough time had accumulated; nothing changed but the accumulator.
    NoMove,
    /// One logical move was resolved.
    Moved { food_eaten: bool },
    /// The head would have left the board.
    CrashedIntoWall,
    /// The head would have re-entered an occupied cell.
    CrashedIntoSelf,
}

/// Two cells are orthogonally adjacent: they differ by one in exactly one
/// coordinate.
pub open spec fn adjacent(a: GridPoint, b: GridPoint) -> bool {
    ||| (a.x == b.x && (a.y - b.y == 1 || b.y - a.y == 1))
    ||| (a.y == b.y && (a.x - b.x == 1 || b.x - a.x == 1))
}

/// No two cells of the sequence are equal.
pub open spec fn pairwise_distinct(s: Seq<GridPoint>) -> bool {
    forall|i: int, j: int| 0 <= i < j < s.len() ==> s[i] != s[j]
}

/// Every pair of consecutive cells is orthogonally adjacent.
pub open spec fn linked(s: Seq<GridPoint>) -> bool {
    forall|i: int| 0 <= i < s.len() - 1 ==> adjacent(#[trigger] s[i], s[i + 1])
}

/// Every cell of the sequence lies on the board.
pub open spec fn all_in_bounds(s: Seq<GridPoint>) -> bool {
    forall|i: int| 0 <= i < s.len() ==> in_bounds_spec(s[i])
}

/// A well-formed snake body: non-empty, on the board, self-collision free,
/// and connected head to tail.
pub open spec fn valid_body(s: Seq<GridPoint>) -> bool {
    &&& s.len() >= 1
    &&& all_in_bounds(s)
    &&& pairwise_distinct(s)
    &&& linked(s)
}

/// The head, at the boundary row or column in its direction of travel,
/// would leave the board on the next step.
pub open spec fn wall_exit(head: GridPoint, h: Heading) -> bool {
    ||| (h == Heading::Left && head.x == 0)
    ||| (h == Heading::Right && head.x == BOARD_WIDTH - 1)
    ||| (h == Heading::Up && head.y == 0)
    ||| (h == Heading::Down && head.y == BOARD_HEIGHT - 1)
}

/// The body and result produced by resolving one logical move on `body`
/// in direction `h` with the food at `food`: crash against the wall or an
/// occupied cell leaves the body unchanged; landing on the food grows the
/// body by one at the front; any other move shifts it forward.
pub open spec fn move_outcome(body: Seq<GridPoint>, h: Heading, food: GridPoint) -> (
    Seq<GridPoint>,
    AdvanceResult,
) {
    let head = body[0];
    let cand = step_spec(head, h);
    if wall_exit(head, h) {
        (body, AdvanceResult::CrashedIntoWall)
    } else if body.contains(cand) {
        (body, AdvanceResult::CrashedIntoSelf)
    } else if cand == food {
        (seq![cand] + body, AdvanceResult::Moved { food_eaten: true })
    } else {
        (seq![cand] + body.drop_last(), AdvanceResult::Moved { food_eaten: false })
    }
}

/// The heading that a request leaves in place: the exact reverse of the
/// current heading is rejected, any other request is applied.
pub open spec fn new_heading(current: Heading, requested: Heading) -> Heading {
    if requested == reverse_spec(current) {
        current
    } else {
        requested
    }
}

/// The heading after one frame of key input, given which direction keys
/// are held: the keys are tried in the fixed priority order up, down,
/// left, right, and the first held key whose direction is not the reverse
/// of the current heading wins; if none qualifies the heading stays.
pub open spec fn heading_after_keys(
    current: Heading,
    up: bool,
    down: bool,
    left: bool,
    right: bool,
) -> Heading {
    if up && current != Heading::Down {
        Heading::Up
    } else if down && current != Heading::Up {
        Heading::Down
    } else if left && current != Heading::Right {
        Heading::Left
    } else if right && current != Heading::Left {
        Heading::Right
    } else {
        current
    }
}

/// The snake's body, head first.
pub open spec fn initial_body() -> Seq<GridPoint> {
    seq![
        GridPoint { x: 0, y: 0 },
        GridPoint { x: 0, y: 1 },
        GridPoint { x: 0, y: 2 },
    ]
}

/// The snake simulation state.
pub struct Snake {
    body: VecDeque<GridPoint>,
    heading: Heading,
    acc_micros: u64,
    interval_micros: u64,
}

/// How one `advance` call changes the observable state: below the move
/// interval, only the accumulator grows; at or above it, the accumulator
/// resets and exactly one move is resolved as [`move_outcome`] says.
pub open spec fn advance_post(
    pre: Snake,
    post: Snake,
    food: GridPoint,
    elapsed: int,
    r: AdvanceResult,
) -> bool {
    &&& post.heading_spec() == pre.heading_spec()
    &&& post.interval_spec() == pre.interval_spec()
    &&& if pre.acc_spec() + elapsed < pre.interval_spec() {
        &&& r == AdvanceResult::NoMove
        &&& post.body_view() == pre.body_view()
        &&& post.acc_spec() == pre.acc_spec() + elapsed
    } else {
        &&& post.acc_spec() == 0
        &&& (post.body_view(), r) == move_outcome(pre.body_view(), pre.heading_spec(), food)
    }
}

impl Snake {
    /// The body cells, head first.
    pub closed spec fn body_view(&self) -> Seq<GridPoint> {
        self.body@
    }

    /// The current heading.
    pub closed spec fn heading_spec(&self) -> Heading {
        self.heading
    }

    /// Microseconds accumulated since the last resolved move.
    pub closed spec fn acc_spec(&self) -> int {
        self.acc_micros as int
    }

    /// Microseconds of logical time per move.
    pub closed spec fn interval_spec(&self) -> int {
        self.interval_micros as int
    }

    /// The simulation invariant: a well-formed body, a positive move
    /// interval, and an accumulator strictly below the interval.
    pub open spec fn wf(&self) -> bool {
        &&& valid_body(self.body_view())
        &&& 0 < self.interval_spec()
        &&& self.acc_spec() < self.interval_spec()
    }

    /// Creates the snake of a fresh game: three cells in a vertical line
    /// with the head at the origin, heading right, and the default move
    /// interval.
    pub fn new() -> (s: Snake)
        ensures
            s.wf(),
            s.body_view() == initial_body(),
            s.heading_spec() == Heading::Right,
            s.acc_spec() == 0,
            s.interval_spec() == MOVE_INTERVAL_MICROS as int,
    {
        let mut body: VecDeque<GridPoint> = VecDeque::new();
        body.push_back(GridPoint { x: 0, y: 0 });
        body.push_back(GridPoint { x: 0, y: 1 });
        body.push_back(GridPoint { x: 0, y: 2 });
        proof {
            assert(body@ =~= initial_body());
        }
        Snake { body, heading: Heading::Right, acc_micros: 0, interval_micros: MOVE_INTERVAL_MICROS }
    }

    /// Builds a snake from an explicit body (head first), a heading and a
    /// move interval, after checking that the body is well formed and the
    /// interval positive; returns `None` exactly when a check fails.
    pub fn try_new(cells: Vec<GridPoint>, heading: Heading, interval_micros: u64) -> (r: Option<
        Snake,
    >)
        ensures
            r.is_some() <==> (valid_body(cells@) && interval_micros > 0),
            r.is_some() ==> r.unwrap().wf(),
            r.is_some() ==> r.unwrap().body_view() == cells@,
            r.is_some() ==> r.unwrap().heading_spec() == heading,
            r.is_some() ==> r.unwrap().acc_spec() == 0,
            r.is_some() ==> r.unwrap().interval_spec() == interval_micros as int,
    {
        if interval_micros == 0 {
            return None;
        }
        if cells.len() == 0 {
            return None;
        }
        let mut i: usize = 0;
        while i < cells.len()
            invariant
                i <= cells@.len(),
                forall|j: int| 0 <= j < i ==> in_bounds_spec(cells@[j]),
            decreases cells@.len() - i,
        {
            if !in_bounds(cells[i]) {
                return None;
            }
            i += 1;
        }
        let mut i: usize = 0;
        while i < cells.len()
            invariant
                i <= cells@.len(),
                forall|p: int, q: int| 0 <= p < q < cells@.len() && p < i ==> cells@[p]
                    != cells@[q],
            decreases cells@.len() - i,
        {
            let mut j: usize = i + 1;
            while j < cells.len()
                invariant
                    i < j <= cells@.len(),
                    i < cells@.len(),
                    forall|q: int| i < q < j ==> cells@[i as int] != cells@[q],
                decreases cells@.len() - j,
            {
                if cells[i] == cells[j] {
                    return None;
                }
                j += 1;
            }
            i += 1;
        }
        let mut i: usize = 0;
        while i < cells.len() - 1
            invariant
                cells@.len() >= 1,
                i <= cells@.len(),
                forall|j: int| 0 <= j < i ==> adjacent(#[trigger] cells@[j], cells@[j + 1]),
            decreases cells@.len() - i,
        {
            if !is_adjacent(cells[i], cells[i + 1]) {
                return None;
            }
            i += 1;
        }
        let mut body: VecDeque<GridPoint> = VecDeque::new();
        let mut i: usize = 0;
        while i < cells.len()
            invariant
                i <= cells@.len(),
                body@ == cells@.take(i as int),
            decreases cells@.len() - i,
        {
            body.push_back(cells[i]);
            proof {
                assert(body@ =~= cells@.take(i as int + 1));
            }
            i += 1;
        }
        proof {
            assert(body@ =~= cells@);
        }
        Some(Snake { body, heading, acc_micros: 0, interval_micros })
    }

    /// Number of body cells.
    pub fn len(&self) -> (n: usize)
        ensures
            n == self.body_view().len(),
    {
        self.body.len()
    }

    /// The body cell at position `i`, counted from the head.
    pub fn cell_at(&self, i: usize) -> (p: GridPoint)
        requires
            i < self.body_view().len(),
        ensures
            p == self.body_view()[i as int],
    {
        self.body[i]
    }

    /// The head cell.
    pub fn head(&self) -> (p: GridPoint)
        requires
            self.body_view().len() >= 1,
        ensures
            p == self.body_view()[0],
    {
        self.body[0]
    }

    /// The current heading.
    pub fn heading(&self) -> (h: Heading)
        ensures
            h == self.heading_spec(),
    {
        self.heading
    }

    /// Microseconds accumulated since the last resolved move.
    pub fn accumulator_micros(&self) -> (a: u64)
        ensures
            a as int == self.acc_spec(),
    {
        self.acc_micros
    }

    /// Microseconds of logical time per move.
    pub fn interval_micros(&self) -> (m: u64)
        ensures
            m as int == self.interval_spec(),
    {
        self.interval_micros
    }

    /// The body cells as a vector, head first, for rendering.
    pub fn body_cells(&self) -> (v: Vec<GridPoint>)
        ensures
            v@ == self.body_view(),
    {
        let mut v: Vec<GridPoint> = Vec::new();
        let mut i: usize = 0;
        while i < self.body.len()
            invariant
                i <= self.body@.len(),
                v@ == self.body@.take(i as int),
            decreases self.body@.len() - i,
        {
            v.push(self.body[i]);
            proof {
                assert(v@ =~= self.body@.take(i as int + 1));
            }
            i += 1;
        }
        proof {
            assert(v@ =~= self.body@);
        }
        v
    }

    /// True iff the snake occupies cell `p`.
    pub fn occupies(&self, p: GridPoint) -> (r: bool)
        ensures
            r == self.body_view().contains(p),
    {
        let mut i: usize = 0;
        while i < self.body.len()
            invariant
                i <= self.body@.len(),
                forall|j: int| 0 <= j < i ==> self.body@[j] != p,
            decreases self.body@.len() - i,
        {
            if self.body[i] == p {
                return true;
            }
            i += 1;
        }
        proof {
            assert(!self.body@.contains(p));
        }
        false
    }

    /// Updates the heading, rejecting (as a no-op) a request for the exact
    /// reverse of the current heading, which would turn the snake into its
    /// own neck.
    pub fn set_heading(&mut self, requested: Heading)
        requires
            old(self).wf(),
        ensures
            final(self).wf(),
            final(self).body_view() == old(self).body_view(),
            final(self).acc_spec() == old(self).acc_spec(),
            final(self).interval_spec() == old(self).interval_spec(),
            final(self).heading_spec() == new_heading(old(self).heading_spec(), requested),
    {
        if !(requested == reverse(self.heading)) {
            self.heading = requested;
        }
    }

    /// Applies one frame of key input: of the held direction keys, the
    /// first in the priority order up, down, left, right that is not the
    /// reverse of the current heading becomes the heading.
    pub fn apply_key_input(&mut self, up: bool, down: bool, left: bool, right: bool)
        requires
            old(self).wf(),
        ensures
            final(self).wf(),
            final(self).body_view() == old(self).body_view(),
            final(self).acc_spec() == old(self).acc_spec(),
            final(self).interval_spec() == old(self).interval_spec(),
            final(self).heading_spec() == heading_after_keys(
                old(self).heading_spec(),
                up,
                down,
                left,
                right,
            ),
    {
        if up && !(self.heading == Heading::Down) {
            self.heading = Heading::Up;
        } else if down && !(self.heading == Heading::Up) {
            self.heading = Heading::Down;
        } else if left && !(self.heading == Heading::Right) {
            self.heading = Heading::Left;
        } else if right && !(self.heading == Heading::Left) {
            self.heading = Heading::Right;
        }
    }

    /// Accumulates `elapsed_micros` of logical time and resolves at most
    /// one move, as [`advance_post`] states exactly.
    ///
    /// After any call the body cells stay pairwise distinct and
    /// consecutive cells stay orthogonally adjacent. A crash result leaves
    /// the body unchanged, so calling again can only report the same crash.
    pub fn advance(&mut self, food: GridPoint, elapsed_micros: u64) -> (r: AdvanceResult)
        requires
            old(self).wf(),
        ensures
            final(self).wf(),
            advance_post(*old(self), *final(self), food, elapsed_micros as int, r),
            pairwise_distinct(final(self).body_view()),
            linked(final(self).body_view()),
    {
        let remaining = self.interval_micros - self.acc_micros;
        if elapsed_micros < remaining {
            self.acc_micros = self.acc_micros + elapsed_micros;
            return AdvanceResult::NoMove;
        }
        self.acc_micros = 0;

        let head = self.body[0];
        if (self.heading == Heading::Left && head.x == 0)
            || (self.heading == Heading::Right && head.x == BOARD_WIDTH - 1)
            || (self.heading == Heading::Up && head.y == 0)
            || (self.heading == Heading::Down && head.y == BOARD_HEIGHT - 1) {
            return AdvanceResult::CrashedIntoWall;
        }

        let cand = step(head, self.heading);
        if self.occupies(cand) {
            return AdvanceResult::CrashedIntoSelf;
        }

        let ghost pre_body = self.body@;
        self.body.push_front(cand);
        let food_eaten = cand == food;
        if !food_eaten {
            let _ = self.body.pop_back();
            proof {
                assert(self.body@ =~= seq![cand] + pre_body.drop_last());
            }
        }
        proof {
            lemma_moved_body_valid(pre_body, self.heading, cand);
        }
        AdvanceResult::Moved { food_eaten }
    }
}

/// True iff `a` and `b` are orthogonally adjacent cells.
pub fn is_adjacent(a: GridPoint, b: GridPoint) -> (r: bool)
    ensures
        r == adjacent(a, b),
{
    if a.x == b.x {
        (b.y < i32::MAX && a.y == b.y + 1) || (a.y < i32::MAX && b.y == a.y + 1)
    } else if a.y == b.y {
        (b.x < i32::MAX && a.x == b.x + 1) || (a.x < i32::MAX && b.x == a.x + 1)
    } else {
        false
    }
}

/// After a non-crash move the new body — the candidate head in front of
/// the old body, whole or with its tail dropped — is well formed again.
proof fn lemma_moved_body_valid(body: Seq<GridPoint>, h: Heading, cand: GridPoint)
    requires
        valid_body(body),
        !wall_exit(body[0], h),
        !body.contains(cand),
        cand == step_spec(body[0], h),
    ensures
        valid_body(seq![cand] + body),
        valid_body(seq![cand] + body.drop_last()),
{
    let grown = seq![cand] + body;
    let shifted = seq![cand] + body.drop_last();
    assert(in_bounds_spec(cand));
    assert(adjacent(cand, body[0]));
    assert(forall|k: int| 0 <= k < body.len() ==> body[k] != cand) by {
        assert(forall|k: int| 0 <= k < body.len() ==> body.contains(body[k]));
    }
    assert(forall|i: int| 0 <= i < grown.len() - 1 ==> adjacent(#[trigger] grown[i], grown[i + 1])) by {
        assert(forall|i: int| 1 <= i < grown.len() ==> grown[i] == body[i - 1]);
    }
    assert(forall|i: int| 0 <= i < shifted.len() - 1 ==> adjacent(#[trigger] shifted[i], shifted[i + 1]))
        by {
        assert(forall|i: int| 1 <= i < shifted.len() ==> shifted[i] == body[i - 1]);
    }
}

} // verus!
