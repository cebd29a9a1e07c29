//! Laws that relate several operations of the simulation, stated and
//! proved over the same spec functions that the operations' contracts use.

use vstd::prelude::*;
use crate::grid::{GridPoint, Heading, BOARD_WIDTH, BOARD_HEIGHT, step_spec, reverse_spec};
use crate::snake::{
    Snake, AdvanceResult, advance_post, move_outcome, wall_exit, valid_body, new_heading,
};

verus! {

/// Total of a sequence of elapsed times.
pub open spec fn total(elapsed: Seq<int>) -> int
    decreases elapsed.len(),
{
    if elapsed.len() == 0 {
        0
    } else {
        total(elapsed.drop_last()) + elapsed.last()
    }
}

/// Sub-threshold time is idempotent: over any chain of `advance` calls
/// whose elapsed times are non-negative and sum, together with the
/// starting accumulator, to less than one move interval, every call
/// reports `NoMove`, the body and the heading never change, and only the
/// accumulator grows, by exactly the time handed in.
///
/// `states[i]` and `states[i + 1]` are the snake before and after the
/// `i`-th call, which was handed `foods[i]` and `elapsed[i]` and returned
/// `results[i]`.
#[verifier::rlimit(100)]
pub proof fn lemma_sub_threshold_no_move(
    states: Seq<Snake>,
    foods: Seq<GridPoint>,
    elapsed: Seq<int>,
    results: Seq<AdvanceResult>,
)
    requires
        states.len() == elapsed.len() + 1,
        foods.len() == elapsed.len(),
        results.len() == elapsed.len(),
        forall|i: int| 0 <= i < elapsed.len() ==> elapsed[i] >= 0,
        forall|i: int|
            0 <= i < elapsed.len() ==> advance_post(
                states[i],
                states[i + 1],
                foods[i],
                elapsed[i],
                #[trigger] results[i],
            ),
        states[0].acc_spec() + total(elapsed) < states[0].interval_spec(),
    ensures
        forall|i: int| 0 <= i < states.len() ==> #[trigger] states[i].body_view()
            == states[0].body_view(),
        forall|i: int| 0 <= i < states.len() ==> #[trigger] states[i].heading_spec()
            == states[0].heading_spec(),
        forall|i: int| 0 <= i < states.len() ==> #[trigger] states[i].interval_spec()
            == states[0].interval_spec(),
        forall|i: int| 0 <= i < states.len() ==> #[trigger] states[i].acc_spec()
            == states[0].acc_spec() + total(elapsed.take(i)),
        forall|i: int| 0 <= i < results.len() ==> results[i] == AdvanceResult::NoMove,
    decreases elapsed.len(),
{
    if elapsed.len() == 0 {
        assert(elapsed.take(0) =~= Seq::<int>::empty());
    } else {
        let n = elapsed.len() as int;
        let sp = states.take(n);
        let fp = foods.take(n - 1);
        let ep = elapsed.take(n - 1);
        let rp = results.take(n - 1);
        assert(ep =~= elapsed.drop_last());
        assert(total(elapsed) == total(ep) + elapsed[n - 1]);
        assert(forall|i: int| 0 <= i < n ==> sp[i] == states[i]);
        assert(forall|i: int|
            0 <= i < ep.len() ==> advance_post(
                sp[i],
                sp[i + 1],
                fp[i],
                ep[i],
                #[trigger] rp[i],
            ));
        assert(sp[0].acc_spec() + total(ep) < sp[0].interval_spec()) by {
            assert(elapsed[n - 1] >= 0);
        }
        lemma_sub_threshold_no_move(sp, fp, ep, rp);
        assert(forall|i: int| 0 <= i < n ==> ep.take(i) =~= elapsed.take(i));
        let pre = states[n - 1];
        let post = states[n];
        assert(pre.acc_spec() == states[0].acc_spec() + total(ep)) by {
            assert(ep.take(n - 1) =~= ep);
        }
        assert(pre.acc_spec() + elapsed[n - 1] < pre.interval_spec());
        assert(advance_post(pre, post, foods[n - 1], elapsed[n - 1], results[n - 1]));
        assert(results[n - 1] == AdvanceResult::NoMove);
        assert(forall|i: int| 0 <= i < n - 1 ==> #[trigger] results[i] == rp[i]);
        assert(forall|i: int| 0 <= i < n ==> #[trigger] results[i] == AdvanceResult::NoMove);
        assert(post.body_view() == states[0].body_view());
        assert(elapsed.take(n) =~= elapsed);
        assert(post.acc_spec() == states[0].acc_spec() + total(elapsed));
        assert(forall|i: int| 0 <= i < states.len() ==> #[trigger] states[i].acc_spec()
            == states[0].acc_spec() + total(elapsed.take(i)));
    }
}

/// Growth law: a resolved move that lands exactly on the food cell grows
/// the body by exactly one and keeps the previous tail cell occupied; a
/// resolved move that lands elsewhere leaves the length unchanged.
pub proof fn lemma_growth(body: Seq<GridPoint>, h: Heading, food: GridPoint)
    requires
        valid_body(body),
        !wall_exit(body[0], h),
        !body.contains(step_spec(body[0], h)),
    ensures
        step_spec(body[0], h) == food ==> move_outcome(body, h, food).0.len() == body.len() + 1,
        step_spec(body[0], h) == food ==> move_outcome(body, h, food).0.contains(body.last()),
        step_spec(body[0], h) == food ==> move_outcome(body, h, food).1 == (
        AdvanceResult::Moved { food_eaten: true }),
        step_spec(body[0], h) != food ==> move_outcome(body, h, food).0.len() == body.len(),
        step_spec(body[0], h) != food ==> move_outcome(body, h, food).1 == (
        AdvanceResult::Moved { food_eaten: false }),
{
    let cand = step_spec(body[0], h);
    if cand == food {
        let grown = seq![cand] + body;
        assert(grown[body.len() as int] == body.last());
        assert(grown.contains(body.last()));
    }
}

/// Wall boundary law: whenever the head stands on the boundary row or
/// column in the direction of travel — heading left with the head in
/// column zero, and symmetrically for the other three edges, whatever the
/// other coordinate — the resolved move reports `CrashedIntoWall` and
/// leaves the body unchanged.
pub proof fn lemma_wall_crash(body: Seq<GridPoint>, h: Heading, food: GridPoint)
    requires
        valid_body(body),
        wall_exit(body[0], h),
    ensures
        move_outcome(body, h, food).1 == AdvanceResult::CrashedIntoWall,
        move_outcome(body, h, food).0 == body,
{
}

/// The four boundary cases spelled out: heading into an edge crashes
/// exactly when the head stands on that edge.
pub proof fn lemma_wall_exit_edges(p: GridPoint)
    ensures
        wall_exit(p, Heading::Left) <==> p.x == 0,
        wall_exit(p, Heading::Right) <==> p.x == BOARD_WIDTH - 1,
        wall_exit(p, Heading::Up) <==> p.y == 0,
        wall_exit(p, Heading::Down) <==> p.y == BOARD_HEIGHT - 1,
{
}

/// Reverse rejection: requesting the exact reverse of the current heading
/// leaves the heading unchanged, and a move resolved afterwards still
/// steps the head in the current direction of travel, not the requested
/// one.
pub proof fn lemma_reverse_rejected(current: Heading, body: Seq<GridPoint>, food: GridPoint)
    requires
        valid_body(body),
        !wall_exit(body[0], current),
        !body.contains(step_spec(body[0], current)),
    ensures
        new_heading(current, reverse_spec(current)) == current,
        move_outcome(body, current, food).0[0] == step_spec(body[0], current),
        step_spec(body[0], current) != step_spec(body[0], reverse_spec(current)),
{
}

} // verus!
