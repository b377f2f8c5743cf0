use snake_core::direction::Direction;
use snake_core::engine::{advance, GameOverReason};
use snake_core::errors::ArenaFullError;
use snake_core::food::sample_free_cell;
use snake_core::grid::{contains_cell, Grid, Position};
use snake_core::scheduler::TickScheduler;
use snake_core::session::{Session, SessionState};
use snake_core::snake::Snake;

fn pos(x: i32, y: i32) -> Position {
    Position { x, y }
}

fn snake_of(grid: &Grid, cells: &[(i32, i32)], dir: Direction) -> Snake {
    let segments: Vec<Position> = cells.iter().map(|&(x, y)| pos(x, y)).collect();
    Snake::new(grid, segments, dir).unwrap()
}

fn session_of(
    width: u32,
    height: u32,
    cells: &[(i32, i32)],
    dir: Direction,
    food: (i32, i32),
) -> Session {
    let grid = Grid::new(width, height).unwrap();
    let snake = snake_of(&grid, cells, dir);
    Session {
        grid,
        snake,
        food: Some(pos(food.0, food.1)),
        state: SessionState::Running,
        last_tail: None,
        reason: None,
        tick_period_ms: 300,
    }
}

#[test]
fn opposite_is_involutive() {
    let dirs = [Direction::Left, Direction::Up, Direction::Right, Direction::Down];
    for d in dirs {
        assert_eq!(d.opposite().opposite(), d);
    }
}

#[test]
fn opposite_swaps_axes() {
    assert_eq!(Direction::Left.opposite(), Direction::Right);
    assert_eq!(Direction::Right.opposite(), Direction::Left);
    assert_eq!(Direction::Up.opposite(), Direction::Down);
    assert_eq!(Direction::Down.opposite(), Direction::Up);
}

#[test]
fn grid_rejects_non_positive_dimensions() {
    assert!(Grid::new(0, 10).is_err());
    assert!(Grid::new(10, 0).is_err());
    assert!(Grid::new(0, 0).is_err());
    assert!(Grid::new(10, 10).is_ok());
}

#[test]
fn grid_contains_bounds() {
    let g = Grid::new(10, 10).unwrap();
    assert!(g.contains(pos(0, 0)));
    assert!(g.contains(pos(9, 9)));
    assert!(!g.contains(pos(-1, 3)));
    assert!(!g.contains(pos(3, -1)));
    assert!(!g.contains(pos(10, 3)));
    assert!(!g.contains(pos(3, 10)));
}

#[test]
fn all_cells_row_major() {
    let g = Grid::new(3, 2).unwrap();
    let cells = g.all_cells();
    let expected = vec![pos(0, 0), pos(1, 0), pos(2, 0), pos(0, 1), pos(1, 1), pos(2, 1)];
    assert_eq!(cells, expected);
}

#[test]
fn snake_rejects_short_chain() {
    let g = Grid::new(10, 10).unwrap();
    assert!(Snake::new(&g, vec![pos(3, 3)], Direction::Up).is_err());
    assert!(Snake::new(&g, vec![], Direction::Up).is_err());
}

#[test]
fn snake_rejects_overlapping_chain() {
    // A chain that visits the same cell twice is no lawful starting snake.
    let g = Grid::new(10, 10).unwrap();
    let r = Snake::new(&g, vec![pos(3, 3), pos(3, 2), pos(3, 3)], Direction::Up);
    assert!(r.is_err());
}

#[test]
fn snake_rejects_off_grid_chain() {
    let g = Grid::new(10, 10).unwrap();
    assert!(Snake::new(&g, vec![pos(3, 3), pos(3, -1)], Direction::Up).is_err());
    assert!(Snake::new(&g, vec![pos(10, 3), pos(9, 3)], Direction::Up).is_err());
}

#[test]
fn pending_direction_overwrites_and_rejects_reversal() {
    let g = Grid::new(10, 10).unwrap();
    let mut s = snake_of(&g, &[(3, 3), (3, 2)], Direction::Up);
    s.set_pending_direction(Direction::Left);
    assert_eq!(s.pending_direction, Direction::Left);
    // Later input overwrites the latch.
    s.set_pending_direction(Direction::Right);
    assert_eq!(s.pending_direction, Direction::Right);
    // A reversal of the direction last moved is rejected, latch unchanged.
    s.set_pending_direction(Direction::Down);
    assert_eq!(s.pending_direction, Direction::Right);
    assert_eq!(s.current_direction, Direction::Up);
}

#[test]
fn advance_straight_move() {
    // 10x10 grid, snake at (3,3)/(3,2) moving Up, no turn request:
    // one tick moves the chain to (3,4)/(3,3).
    let g = Grid::new(10, 10).unwrap();
    let mut s = snake_of(&g, &[(3, 3), (3, 2)], Direction::Up);
    let r = advance(&mut s, &g, None, None);
    assert!(!r.game_over);
    assert!(!r.growth);
    assert_eq!(r.reason, None);
    assert_eq!(r.last_tail, pos(3, 2));
    assert_eq!(s.segments, vec![pos(3, 4), pos(3, 3)]);
    assert_eq!(s.current_direction, Direction::Up);
}

#[test]
fn tick_straight_move_keeps_length() {
    let mut s = session_of(10, 10, &[(3, 3), (3, 2)], Direction::Up, (9, 9));
    let ev = s.tick();
    assert!(!ev.growth);
    assert!(!ev.game_over);
    assert_eq!(s.state, SessionState::Running);
    assert_eq!(s.snake.segments, vec![pos(3, 4), pos(3, 3)]);
    assert_eq!(s.food, Some(pos(9, 9)));
    assert_eq!(s.last_tail, Some(pos(3, 2)));
}

#[test]
fn turn_request_is_applied() {
    // A non-reversing request becomes the direction the tick moves in.
    let mut s = session_of(10, 10, &[(3, 3), (3, 2)], Direction::Up, (9, 9));
    s.set_pending_direction(Direction::Left);
    let ev = s.tick();
    assert!(!ev.game_over);
    assert_eq!(s.snake.current_direction, Direction::Left);
    assert_eq!(s.snake.segments, vec![pos(2, 3), pos(3, 3)]);
}

#[test]
fn opposite_turn_request_is_ignored() {
    // Requesting Down while moving Up leaves the direction Up.
    let mut s = session_of(10, 10, &[(3, 3), (3, 2)], Direction::Up, (9, 9));
    s.set_pending_direction(Direction::Down);
    let ev = s.tick();
    assert!(!ev.game_over);
    assert_eq!(s.snake.current_direction, Direction::Up);
    assert_eq!(s.snake.segments, vec![pos(3, 4), pos(3, 3)]);
}

#[test]
fn wall_hit_on_the_left_ends_the_session() {
    // Snake at (0,3)/(0,2) moving Left: the head would reach (-1,3).
    let mut s = session_of(10, 10, &[(0, 3), (0, 2)], Direction::Left, (9, 9));
    let ev = s.tick();
    assert!(ev.game_over);
    assert!(!ev.growth);
    assert_eq!(s.state, SessionState::GameOver);
    assert_eq!(s.reason, Some(GameOverReason::Wall));
    // The engine leaves the segments untouched on a wall hit.
    assert_eq!(s.snake.segments, vec![pos(0, 3), pos(0, 2)]);
}

#[test]
fn wall_hit_on_every_side_ends_the_session() {
    let g = Grid::new(10, 10).unwrap();
    let cases = [
        ((9, 3), (9, 2), Direction::Right),
        ((3, 9), (3, 8), Direction::Up),
        ((3, 0), (3, 1), Direction::Down),
        ((0, 3), (1, 3), Direction::Left),
    ];
    for (head, body, dir) in cases {
        let mut s = snake_of(&g, &[head, body], dir);
        let r = advance(&mut s, &g, None, None);
        assert!(r.game_over);
        assert_eq!(r.reason, Some(GameOverReason::Wall));
    }
}

#[test]
fn self_collision_ends_the_session() {
    // Length 3 at (3,4)/(3,3)/(3,2) moving Down: the new head (3,3) lands on
    // a pre-move body cell.
    let mut s = session_of(10, 10, &[(3, 4), (3, 3), (3, 2)], Direction::Down, (9, 9));
    let ev = s.tick();
    assert!(ev.game_over);
    assert!(!ev.growth);
    assert_eq!(s.state, SessionState::GameOver);
    assert_eq!(s.reason, Some(GameOverReason::SelfCollision));
}

#[test]
fn tail_cell_counts_as_body() {
    // The pre-move snapshot includes the tail cell: moving onto it ends the
    // session.
    let g = Grid::new(10, 10).unwrap();
    let mut s = snake_of(&g, &[(3, 3), (3, 4), (4, 4), (4, 3)], Direction::Right);
    let r = advance(&mut s, &g, None, None);
    assert!(r.game_over);
    assert_eq!(r.reason, Some(GameOverReason::SelfCollision));
}

#[test]
fn eating_grows_and_respawns_food() {
    // Food at (3,4), head moves onto it: one growth event, the chain gains a
    // segment at the prior tail cell, and fresh food appears off the body.
    let mut s = session_of(10, 10, &[(3, 3), (3, 2)], Direction::Up, (3, 4));
    let ev = s.tick();
    assert!(ev.growth);
    assert!(!ev.game_over);
    assert_eq!(s.state, SessionState::Running);
    assert_eq!(s.snake.segments, vec![pos(3, 4), pos(3, 3), pos(3, 2)]);
    let food = s.food.expect("fresh food after eating");
    assert!(!s.snake.segments.contains(&food));
    assert_ne!(food, pos(3, 4));
}

#[test]
fn growth_into_full_arena_ends_the_session() {
    // 1x3 arena, snake fills two cells, food on the last: eating fills the
    // arena, so the respawn finds no free cell and the session ends.
    let mut s = session_of(1, 3, &[(0, 1), (0, 0)], Direction::Up, (0, 2));
    let ev = s.tick();
    assert!(ev.growth);
    assert!(ev.game_over);
    assert_eq!(s.state, SessionState::GameOver);
    assert_eq!(s.reason, Some(GameOverReason::ArenaFull));
    assert_eq!(s.food, None);
    assert_eq!(s.snake.segments, vec![pos(0, 2), pos(0, 1), pos(0, 0)]);
}

#[test]
fn session_new_validates_configuration() {
    let segs = vec![pos(3, 3), pos(3, 2)];
    assert!(Session::new(0, 10, 300, segs.clone(), Direction::Up).is_err());
    assert!(Session::new(10, 0, 300, segs.clone(), Direction::Up).is_err());
    assert!(Session::new(10, 10, 0, segs.clone(), Direction::Up).is_err());
    let overlap = vec![pos(3, 3), pos(3, 2), pos(3, 3)];
    assert!(Session::new(10, 10, 300, overlap, Direction::Up).is_err());
    assert!(Session::new(10, 10, 300, segs, Direction::Up).is_ok());
}

#[test]
fn session_new_places_food_off_the_snake() {
    let s = Session::new(10, 10, 300, vec![pos(3, 3), pos(3, 2)], Direction::Up).unwrap();
    assert_eq!(s.state, SessionState::Running);
    assert_eq!(s.snake.segments, vec![pos(3, 3), pos(3, 2)]);
    let food = s.food.expect("initial food");
    assert!(s.grid.contains(food));
    assert!(!s.snake.segments.contains(&food));
}

#[test]
fn session_new_with_full_arena_starts_game_over() {
    // The snake covers the whole 1x2 arena: no food fits, the session starts
    // in the terminal state instead of crashing.
    let s = Session::new(1, 2, 300, vec![pos(0, 1), pos(0, 0)], Direction::Up).unwrap();
    assert_eq!(s.state, SessionState::GameOver);
    assert_eq!(s.reason, Some(GameOverReason::ArenaFull));
    assert_eq!(s.food, None);
}

#[test]
fn sampled_cell_is_never_occupied() {
    // Every cell but (2,2) is occupied: the sample must always be (2,2).
    let g = Grid::new(3, 3).unwrap();
    let mut occupied = Vec::new();
    for y in 0..3i32 {
        for x in 0..3i32 {
            if !(x == 2 && y == 2) {
                occupied.push(pos(x, y));
            }
        }
    }
    for _ in 0..50 {
        let c = sample_free_cell(&g, &occupied).unwrap();
        assert_eq!(c, pos(2, 2));
        assert!(!contains_cell(&occupied, c));
    }
}

#[test]
fn sampling_reaches_every_free_cell() {
    // Two free cells on a 2x2 arena: over many trials both come up and the
    // occupied cells never do (a statistical check, not an exact one).
    let g = Grid::new(2, 2).unwrap();
    let occupied = vec![pos(0, 0), pos(1, 0)];
    let mut hits_01: u32 = 0;
    let mut hits_11: u32 = 0;
    for _ in 0..300 {
        let c = sample_free_cell(&g, &occupied).unwrap();
        assert!(!contains_cell(&occupied, c));
        if c == pos(0, 1) {
            hits_01 += 1;
        } else if c == pos(1, 1) {
            hits_11 += 1;
        } else {
            panic!("sampled a cell outside the free set");
        }
    }
    assert!(hits_01 > 0);
    assert!(hits_11 > 0);
    assert_eq!(hits_01 + hits_11, 300);
}

#[test]
fn sampling_a_full_arena_fails() {
    let g = Grid::new(2, 2).unwrap();
    let occupied = vec![pos(0, 0), pos(1, 0), pos(0, 1), pos(1, 1)];
    assert_eq!(sample_free_cell(&g, &occupied), Err(ArenaFullError));
}

#[test]
fn scheduler_rejects_zero_period() {
    assert!(TickScheduler::new(0).is_err());
}

#[test]
fn scheduler_fires_once_per_period() {
    let mut sched = TickScheduler::new(300).unwrap();
    assert!(!sched.advance_time(100));
    assert!(!sched.advance_time(100));
    assert!(sched.advance_time(100));
    assert_eq!(sched.accumulated_ms, 0);
}

#[test]
fn scheduler_never_queues_a_second_tick() {
    // A long stall covers three periods, but only one tick fires and the
    // surplus is dropped.
    let mut sched = TickScheduler::new(300).unwrap();
    assert!(sched.advance_time(900));
    assert_eq!(sched.accumulated_ms, 0);
    assert!(!sched.advance_time(299));
    assert!(sched.advance_time(1));
}
