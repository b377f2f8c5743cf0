use vstd::prelude::*;
use vstd::assert_seqs_equal;

use crate::direction::{resolved_direction, Direction};
use crate::grid::{contains_cell, Grid, Position};
use crate::snake::Snake;

verus! {

/// The cell one step from `c` in direction `d`. Vertical sense: `Up`
/// increases `y`, `Down` decreases it.
pub open spec fn spec_step(c: Position, d: Direction) -> Position {
    match d {
        Direction::Left => Position { x: (c.x - 1) as i32, y: c.y },
        Direction::Right => Position { x: (c.x + 1) as i32, y: c.y },
        Direction::Up => Position { x: c.x, y: (c.y + 1) as i32 },
        Direction::Down => Position { x: c.x, y: (c.y - 1) as i32 },
    }
}

/// The cell one step from `c` in direction `d`.
pub fn step(c: Position, d: Direction) -> (r: Position)
    requires
        i32::MIN < c.x < i32::MAX,
        i32::MIN < c.y < i32::MAX,
    ensures
        r == spec_step(c, d),
{
    match d {
        Direction::Left => Position { x: c.x - 1, y: c.y },
        Direction::Right => Position { x: c.x + 1, y: c.y },
        Direction::Up => Position { x: c.x, y: c.y + 1 },
        Direction::Down => Position { x: c.x, y: c.y - 1 },
    }
}

/// Why a session ended.
#[derive(Clone, Copy, PartialEq, Eq, Structural, Debug)]
pub enum GameOverReason {
    /// The head left the arena.
    Wall,
    /// The head moved onto a pre-move body cell.
    SelfCollision,
    /// Food placement found no free cell: the snake covers the whole arena.
    ArenaFull,
}

/// The events one tick emitted. They stand for the growth and game-over
/// signals queued within a tick: the driver consumes them in the same tick,
/// so they live for at most one tick and no persistent queue is needed.
#[derive(Clone, Copy, PartialEq, Eq, Structural, Debug)]
pub struct TickEvents {
    pub growth: bool,
    pub game_over: bool,
}

/// Everything one engine step reports: the events of the tick, the reason if
/// the session is over, and the recorded pre-move tail cell (where a growth
/// segment is appended).
pub struct AdvanceResult {
    pub growth: bool,
    pub game_over: bool,
    pub reason: Option<GameOverReason>,
    pub last_tail: Position,
}

/// One engine step, invoked once per tick.
///
/// In order: the turn request is resolved against the direction of the last
/// completed move (a reversing request is ignored), the head advances one
/// cell that way, and collisions are checked against the pre-move body
/// snapshot. A head outside the arena ends the session and leaves the
/// segments untouched; otherwise every segment takes the position of the one
/// ahead of it, the old tail cell is dropped, and moving onto a pre-move
/// body cell ends the session. Growth is reported when the head lands on the
/// food cell; appending the segment and replacing the food are the caller's
/// work, on receipt of the events.
pub fn advance(
    snake: &mut Snake,
    grid: &Grid,
    food: Option<Position>,
    turn_request: Option<Direction>,
) -> (r: AdvanceResult)
    requires
        grid.well_formed(),
        old(snake).well_formed(*grid),
    ensures
        final(snake).well_formed(*grid),
        final(snake).segments@.len() == old(snake).segments@.len(),
        final(snake).current_direction == resolved_direction(
            old(snake).current_direction,
            turn_request,
        ),
        final(snake).pending_direction == final(snake).current_direction,
        r.last_tail == old(snake).segments@.last(),
        ({
            let h = spec_step(
                old(snake).spec_head(),
                resolved_direction(old(snake).current_direction, turn_request),
            );
            &&& r.game_over == (!grid.spec_contains(h) || old(snake).segments@.contains(h))
            &&& r.reason == (if !grid.spec_contains(h) {
                Some(GameOverReason::Wall)
            } else if old(snake).segments@.contains(h) {
                Some(GameOverReason::SelfCollision)
            } else {
                None::<GameOverReason>
            })
            &&& !grid.spec_contains(h) ==> final(snake).segments@ == old(snake).segments@
            &&& grid.spec_contains(h) ==> final(snake).segments@ == seq![h] + old(
                snake,
            ).segments@.drop_last()
            &&& r.growth == (grid.spec_contains(h) && food == Some(h))
        }),
{
    let dir = match turn_request {
        Some(d) => if d == snake.current_direction.opposite() {
            snake.current_direction
        } else {
            d
        },
        None => snake.current_direction,
    };
    snake.current_direction = dir;
    snake.pending_direction = dir;

    let head = snake.head();
    let new_head = step(head, dir);
    let last_tail = snake.segments[snake.segments.len() - 1];

    if !grid.contains(new_head) {
        return AdvanceResult {
            growth: false,
            game_over: true,
            reason: Some(GameOverReason::Wall),
            last_tail,
        };
    }

    let hit_self = contains_cell(&snake.segments, new_head);

    snake.segments.insert(0, new_head);
    snake.segments.pop();
    proof {
        assert_seqs_equal!(
            snake.segments@ == seq![spec_step(old(snake).spec_head(), dir)]
                + old(snake).segments@.drop_last()
        );
    }

    let growth = match food {
        Some(f) => f == new_head,
        None => false,
    };

    AdvanceResult {
        growth,
        game_over: hit_self,
        reason: if hit_self {
            Some(GameOverReason::SelfCollision)
        } else {
            None
        },
        last_tail,
    }
}

} // verus!
