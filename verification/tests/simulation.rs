use snake_core::grid::{GridPoint, Heading, in_bounds, step, reverse, BOARD_WIDTH, BOARD_HEIGHT};
use snake_core::snake::{AdvanceResult, Snake, is_adjacent, MOVE_INTERVAL_MICROS};
use snake_core::food::generate_food;

fn gp(x: i32, y: i32) -> GridPoint {
    GridPoint::new(x, y)
}

fn assert_body(s: &Snake, expected: &[GridPoint]) {
    assert_eq!(s.len(), expected.len());
    for (i, &cell) in expected.iter().enumerate() {
        assert_eq!(s.cell_at(i), cell);
    }
}

fn assert_invariants(s: &Snake) {
    let cells = s.body_cells();
    for i in 0..cells.len() {
        for j in (i + 1)..cells.len() {
            assert_ne!(cells[i], cells[j], "body cells {} and {} coincide", i, j);
        }
    }
    for i in 0..cells.len().saturating_sub(1) {
        assert!(is_adjacent(cells[i], cells[i + 1]), "cells {} and {} not adjacent", i, i + 1);
        assert!(in_bounds(cells[i]));
    }
}

#[test]
fn grid_step_in_each_heading() {
    assert_eq!(step(gp(4, 7), Heading::Up), gp(4, 6));
    assert_eq!(step(gp(4, 7), Heading::Down), gp(4, 8));
    assert_eq!(step(gp(4, 7), Heading::Left), gp(3, 7));
    assert_eq!(step(gp(4, 7), Heading::Right), gp(5, 7));
    // the step is unchecked: it may leave the board
    assert_eq!(step(gp(0, 0), Heading::Left), gp(-1, 0));
    assert!(!in_bounds(gp(-1, 0)));
    assert!(!in_bounds(gp(BOARD_WIDTH, 0)));
    assert!(in_bounds(gp(BOARD_WIDTH - 1, BOARD_HEIGHT - 1)));
}

#[test]
fn reverse_headings() {
    assert_eq!(reverse(Heading::Up), Heading::Down);
    assert_eq!(reverse(Heading::Down), Heading::Up);
    assert_eq!(reverse(Heading::Left), Heading::Right);
    assert_eq!(reverse(Heading::Right), Heading::Left);
}

#[test]
fn new_snake_matches_initial_state() {
    let s = Snake::new();
    assert_body(&s, &[gp(0, 0), gp(0, 1), gp(0, 2)]);
    assert_eq!(s.heading(), Heading::Right);
    assert_eq!(s.accumulator_micros(), 0);
    assert_eq!(s.interval_micros(), MOVE_INTERVAL_MICROS);
    assert_invariants(&s);
}

#[test]
fn try_new_rejects_bad_bodies() {
    // empty body
    assert!(Snake::try_new(vec![], Heading::Right, 75_000).is_none());
    // zero interval
    assert!(Snake::try_new(vec![gp(1, 1)], Heading::Right, 0).is_none());
    // repeated cell
    assert!(Snake::try_new(vec![gp(1, 1), gp(1, 2), gp(1, 1)], Heading::Right, 75_000).is_none());
    // gap between consecutive cells
    assert!(Snake::try_new(vec![gp(1, 1), gp(1, 3)], Heading::Right, 75_000).is_none());
    // diagonal neighbours are not adjacent
    assert!(Snake::try_new(vec![gp(1, 1), gp(2, 2)], Heading::Right, 75_000).is_none());
    // off the board
    assert!(Snake::try_new(vec![gp(0, -1), gp(0, 0)], Heading::Right, 75_000).is_none());
    // a good body is accepted unchanged
    let s = Snake::try_new(vec![gp(3, 3), gp(3, 4), gp(4, 4)], Heading::Up, 50_000).unwrap();
    assert_body(&s, &[gp(3, 3), gp(3, 4), gp(4, 4)]);
    assert_eq!(s.heading(), Heading::Up);
    assert_eq!(s.interval_micros(), 50_000);
}

#[test]
fn sub_threshold_time_changes_only_the_accumulator() {
    let mut s = Snake::new();
    let food = gp(10, 10);
    // three calls summing to less than one interval: no observable change
    assert_eq!(s.advance(food, 30_000), AdvanceResult::NoMove);
    assert_eq!(s.advance(food, 30_000), AdvanceResult::NoMove);
    assert_eq!(s.advance(food, 14_999), AdvanceResult::NoMove);
    assert_body(&s, &[gp(0, 0), gp(0, 1), gp(0, 2)]);
    assert_eq!(s.heading(), Heading::Right);
    assert_eq!(s.accumulator_micros(), 74_999);
    // one more microsecond tips the balance and resolves a move
    assert_eq!(s.advance(food, 1), AdvanceResult::Moved { food_eaten: false });
    assert_body(&s, &[gp(1, 0), gp(0, 0), gp(0, 1)]);
    assert_eq!(s.accumulator_micros(), 0);
}

#[test]
fn growth_move_keeps_tail_and_plain_move_drops_it() {
    // food directly in the snake's path
    let mut s = Snake::try_new(vec![gp(5, 5), gp(4, 5), gp(3, 5)], Heading::Right, 75_000)
        .unwrap();
    let food = gp(6, 5);
    assert_eq!(s.advance(food, 75_000), AdvanceResult::Moved { food_eaten: true });
    // grown by one, previous tail cell still occupied
    assert_body(&s, &[gp(6, 5), gp(5, 5), gp(4, 5), gp(3, 5)]);
    assert!(s.occupies(gp(3, 5)));
    assert!(!s.occupies(gp(2, 5)));
    assert_invariants(&s);
    // a move that lands elsewhere keeps the length
    assert_eq!(s.advance(gp(20, 20), 75_000), AdvanceResult::Moved { food_eaten: false });
    assert_body(&s, &[gp(7, 5), gp(6, 5), gp(5, 5), gp(4, 5)]);
    assert_invariants(&s);
}

#[test]
fn wall_crash_on_each_edge() {
    let food = gp(20, 20);
    for y in 0..BOARD_HEIGHT {
        // heading left with the head in column zero, for every row
        let other = if y == 0 { gp(0, 1) } else { gp(0, y - 1) };
        let mut s = Snake::try_new(vec![gp(0, y), other], Heading::Left, 75_000).unwrap();
        assert_eq!(s.advance(food, 75_000), AdvanceResult::CrashedIntoWall);
        assert_body(&s, &[gp(0, y), other]);
    }
    let mut right = Snake::try_new(
        vec![gp(BOARD_WIDTH - 1, 3), gp(BOARD_WIDTH - 2, 3)],
        Heading::Right,
        75_000,
    )
    .unwrap();
    assert_eq!(right.advance(food, 75_000), AdvanceResult::CrashedIntoWall);
    let mut up = Snake::try_new(vec![gp(3, 0), gp(3, 1)], Heading::Up, 75_000).unwrap();
    assert_eq!(up.advance(food, 75_000), AdvanceResult::CrashedIntoWall);
    let mut down = Snake::try_new(
        vec![gp(3, BOARD_HEIGHT - 1), gp(3, BOARD_HEIGHT - 2)],
        Heading::Down,
        75_000,
    )
    .unwrap();
    assert_eq!(down.advance(food, 75_000), AdvanceResult::CrashedIntoWall);
    // the crash left the body unchanged, so advancing again reports it again
    assert_eq!(down.advance(food, 75_000), AdvanceResult::CrashedIntoWall);
}

#[test]
fn self_collision_on_loop_shaped_body() {
    // a loop: the head at (4,5) re-enters (5,5), the occupied tail cell
    let cells = vec![
        gp(4, 5),
        gp(4, 6),
        gp(4, 7),
        gp(4, 8),
        gp(5, 8),
        gp(5, 7),
        gp(5, 6),
        gp(5, 5),
    ];
    let mut s = Snake::try_new(cells.clone(), Heading::Right, 75_000).unwrap();
    assert_eq!(s.advance(gp(20, 20), 75_000), AdvanceResult::CrashedIntoSelf);
    assert_body(&s, &cells);
}

#[test]
fn reverse_request_is_rejected_and_move_keeps_direction() {
    let mut s = Snake::try_new(vec![gp(10, 10), gp(9, 10), gp(8, 10)], Heading::Right, 75_000)
        .unwrap();
    s.set_heading(Heading::Left);
    assert_eq!(s.heading(), Heading::Right);
    assert_eq!(s.advance(gp(20, 20), 75_000), AdvanceResult::Moved { food_eaten: false });
    // the snake moved right, not left
    assert_body(&s, &[gp(11, 10), gp(10, 10), gp(9, 10)]);
    // a non-reverse request is applied
    s.set_heading(Heading::Up);
    assert_eq!(s.heading(), Heading::Up);
}

#[test]
fn key_priority_order_up_down_left_right() {
    let mut s = Snake::try_new(vec![gp(10, 10), gp(9, 10)], Heading::Right, 75_000).unwrap();
    // up and down both held: up wins (and is not the reverse of right)
    s.apply_key_input(true, true, false, false);
    assert_eq!(s.heading(), Heading::Up);
    // down is now the reverse of up, so left wins over it
    s.apply_key_input(false, true, true, false);
    assert_eq!(s.heading(), Heading::Left);
    // only right held, but right is the reverse of left: no change
    s.apply_key_input(false, false, false, true);
    assert_eq!(s.heading(), Heading::Left);
    // no key held: no change
    s.apply_key_input(false, false, false, false);
    assert_eq!(s.heading(), Heading::Left);
}

#[test]
fn end_to_end_feeding_scenario() {
    let mut s = Snake::new();
    assert_body(&s, &[gp(0, 0), gp(0, 1), gp(0, 2)]);
    assert_eq!(s.heading(), Heading::Right);
    assert_eq!(s.interval_micros(), 75_000);
    let food = gp(1, 0);
    // 0.075 s of elapsed time resolves one move onto the food cell
    assert_eq!(s.advance(food, 75_000), AdvanceResult::Moved { food_eaten: true });
    assert_body(&s, &[gp(1, 0), gp(0, 0), gp(0, 1), gp(0, 2)]);
    assert_eq!(s.len(), 4);
    assert_eq!(s.head(), gp(1, 0));
    assert_invariants(&s);
}

#[test]
fn invariants_hold_over_a_long_walk() {
    let mut s = Snake::new();
    let food = gp(31, 31);
    // snake a path across the board: right along row 0, down, left along row 1...
    let headings = [Heading::Right, Heading::Down, Heading::Left, Heading::Down];
    let mut leg: usize = 0;
    for step_no in 0..90 {
        if step_no % 30 == 0 && step_no > 0 {
            leg += 1;
        }
        let want = headings[leg % headings.len()];
        s.set_heading(want);
        match s.advance(food, 75_000) {
            AdvanceResult::Moved { food_eaten } => assert!(!food_eaten),
            r => panic!("unexpected result {:?} at step {}", r, step_no),
        }
        assert_invariants(&s);
    }
}

#[test]
fn generated_food_is_always_on_the_board() {
    for _ in 0..200 {
        let p = generate_food();
        assert!(in_bounds(p));
        assert!(0 <= p.x && p.x < BOARD_WIDTH);
        assert!(0 <= p.y && p.y < BOARD_HEIGHT);
    }
}
