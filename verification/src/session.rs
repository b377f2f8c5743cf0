use vstd::prelude::*;
use vstd::assert_seqs_equal;

use crate::direction::{resolved_direction, Direction};
use crate::engine::{advance, spec_step, GameOverReason, TickEvents};
use crate::errors::InvalidConfiguration;
use crate::food::sample_free_cell;
use crate::grid::{Grid, Position, MAX_ARENA_DIM};
use crate::snake::{distinct_cells, Snake};

verus! {

/// Whether a session lives: `GameOver` is terminal, reached exactly once.
#[derive(Clone, Copy, PartialEq, Eq, Structural, Debug)]
pub enum SessionState {
    Running,
    GameOver,
}

/// The configuration is acceptable: positive (bounded) arena dimensions and
/// a positive tick period.
pub open spec fn valid_config(width: u32, height: u32, tick_period_ms: u32) -> bool {
    &&& 0 < width <= MAX_ARENA_DIM
    &&& 0 < height <= MAX_ARENA_DIM
    &&& tick_period_ms > 0
}

/// The chain is a lawful initial snake for `grid`: at least two segments,
/// all on the grid, no two on the same cell.
pub open spec fn valid_initial_snake(grid: Grid, segments: Seq<Position>) -> bool {
    &&& segments.len() >= 2
    &&& forall|k: int| 0 <= k < segments.len() ==> grid.spec_contains(#[trigger] segments[k])
    &&& distinct_cells(segments)
}

/// The whole simulation state, owned by the driver and advanced one tick at
/// a time. Presentation reads `snake.segments`, `food` and `state` back out
/// after each tick.
pub struct Session {
    pub grid: Grid,
    pub snake: Snake,
    /// The single food cell; `None` only transiently, after the arena filled
    /// up, together with the terminal state.
    pub food: Option<Position>,
    pub state: SessionState,
    /// The pre-move tail cell recorded by the last tick.
    pub last_tail: Option<Position>,
    /// Why the session ended; `None` while it runs.
    pub reason: Option<GameOverReason>,
    pub tick_period_ms: u32,
}

impl Session {
    /// The session invariant: the snake is a well-formed chain on a
    /// well-formed grid; while the session runs the body never overlaps
    /// itself and exactly one food cell is active; food, when present, is on
    /// the grid and never on the snake.
    pub open spec fn inv(self) -> bool {
        &&& self.grid.well_formed()
        &&& self.snake.well_formed(self.grid)
        &&& self.tick_period_ms > 0
        &&& self.state == SessionState::Running ==> distinct_cells(self.snake.segments@)
        &&& match self.food {
            Some(c) => self.grid.spec_contains(c) && !self.snake.occupies(c),
            None => true,
        }
        &&& self.state == SessionState::Running ==> self.food is Some
        &&& self.state == SessionState::Running ==> self.reason is None
    }

    /// Starts a session: validates the configuration and the initial chain,
    /// then places the first food on a random free cell. A snake that
    /// already covers the whole arena cannot be fed: such a session starts
    /// in `GameOver` with the arena-full reason instead of crashing.
    pub fn new(
        width: u32,
        height: u32,
        tick_period_ms: u32,
        initial_segments: Vec<Position>,
        initial_direction: Direction,
    ) -> (r: Result<Session, InvalidConfiguration>)
        ensures
            match r {
                Ok(s) => {
                    &&& valid_config(width, height, tick_period_ms)
                    &&& valid_initial_snake((Grid { width, height }), initial_segments@)
                    &&& s.inv()
                    &&& s.grid == (Grid { width, height })
                    &&& s.tick_period_ms == tick_period_ms
                    &&& s.snake.segments@ == initial_segments@
                    &&& s.snake.current_direction == initial_direction
                    &&& s.snake.pending_direction == initial_direction
                    &&& s.last_tail is None
                    &&& (s.state == SessionState::Running <==> exists|c: Position|
                        s.grid.spec_contains(c) && !initial_segments@.contains(c))
                    &&& s.state == SessionState::GameOver ==> s.reason == Some(
                        GameOverReason::ArenaFull,
                    ) && s.food is None
                },
                Err(_) => !(valid_config(width, height, tick_period_ms) && valid_initial_snake(
                    (Grid { width, height }),
                    initial_segments@,
                )),
            },
    {
        if tick_period_ms == 0 {
            return Err(InvalidConfiguration);
        }
        let grid = match Grid::new(width, height) {
            Ok(g) => g,
            Err(e) => {
                return Err(e);
            },
        };
        let snake = match Snake::new(&grid, initial_segments, initial_direction) {
            Ok(s) => s,
            Err(e) => {
                return Err(e);
            },
        };
        match sample_free_cell(&grid, &snake.segments) {
            Ok(c) => Ok(
                Session {
                    grid,
                    snake,
                    food: Some(c),
                    state: SessionState::Running,
                    last_tail: None,
                    reason: None,
                    tick_period_ms,
                },
            ),
            Err(_) => Ok(
                Session {
                    grid,
                    snake,
                    food: None,
                    state: SessionState::GameOver,
                    last_tail: None,
                    reason: Some(GameOverReason::ArenaFull),
                    tick_period_ms,
                },
            ),
        }
    }

    /// Inbound interface for input polling, any frequency: overwrites the
    /// single pending-direction slot, unless the request would reverse the
    /// snake into itself.
    pub fn set_pending_direction(&mut self, d: Direction)
        ensures
            final(self).snake.segments == old(self).snake.segments,
            final(self).snake.current_direction == old(self).snake.current_direction,
            final(self).snake.pending_direction == (if d == old(self).snake.current_direction.spec_opposite() {
                old(self).snake.pending_direction
            } else {
                d
            }),
            final(self).grid == old(self).grid,
            final(self).food == old(self).food,
            final(self).state == old(self).state,
            final(self).last_tail == old(self).last_tail,
            final(self).reason == old(self).reason,
            final(self).tick_period_ms == old(self).tick_period_ms,
            old(self).inv() ==> final(self).inv(),
    {
        self.snake.set_pending_direction(d);
    }

    /// One full tick: consumes the pending direction, advances the snake,
    /// detects collisions against the pre-move body, appends a segment and
    /// respawns the food on growth, and halts the session on a collision or
    /// a full arena. The events the tick emitted come back to the driver;
    /// they are drained here and now, never queued beyond this tick.
    ///
    /// A tick on a terminated session is a precondition violation: the
    /// caller must stop ticking on the first game-over event.
    pub fn tick(&mut self) -> (ev: TickEvents)
        requires
            old(self).inv(),
            old(self).state == SessionState::Running,
        ensures
            final(self).inv(),
            final(self).grid == old(self).grid,
            final(self).tick_period_ms == old(self).tick_period_ms,
            final(self).snake.current_direction == resolved_direction(
                old(self).snake.current_direction,
                Some(old(self).snake.pending_direction),
            ),
            final(self).snake.pending_direction == final(self).snake.current_direction,
            final(self).last_tail == Some(old(self).snake.segments@.last()),
            final(self).snake.segments@.len() == old(self).snake.segments@.len() + (if ev.growth {
                1int
            } else {
                0int
            }),
            ev.game_over == (final(self).state == SessionState::GameOver),
            ({
                let d = resolved_direction(
                    old(self).snake.current_direction,
                    Some(old(self).snake.pending_direction),
                );
                let h = spec_step(old(self).snake.spec_head(), d);
                let pre = old(self).snake.segments@;
                let g = old(self).grid;
                &&& ev.growth == (old(self).food == Some(h))
                &&& !g.spec_contains(h) ==> ev.game_over && final(self).reason == Some(
                    GameOverReason::Wall,
                ) && final(self).snake.segments@ == pre && final(self).food == old(self).food
                &&& g.spec_contains(h) && pre.contains(h) ==> ev.game_over && final(self).reason
                    == Some(GameOverReason::SelfCollision) && final(self).snake.segments@ == seq![h]
                    + pre.drop_last()
                &&& g.spec_contains(h) && !pre.contains(h) && !ev.growth ==> !ev.game_over && final(self).reason is None && final(self).snake.segments@ == seq![h] + pre.drop_last()
                    && final(self).food == old(self).food
                &&& ev.growth ==> final(self).snake.segments@ == seq![h] + pre
                &&& ev.growth ==> (ev.game_over <==> (forall|c: Position|
                    g.spec_contains(c) ==> (seq![h] + pre).contains(c)))
                &&& ev.growth && ev.game_over ==> final(self).reason == Some(
                    GameOverReason::ArenaFull,
                ) && final(self).food is None
                &&& ev.growth && !ev.game_over ==> (match final(self).food {
                    Some(c) => g.spec_contains(c) && !final(self).snake.segments@.contains(c),
                    None => false,
                }) && final(self).food != old(self).food
            }),
    {
        let ghost d = resolved_direction(
            old(self).snake.current_direction,
            Some(old(self).snake.pending_direction),
        );
        let ghost h = spec_step(old(self).snake.spec_head(), d);
        let ghost pre = old(self).snake.segments@;

        let turn = self.snake.pending_direction;
        let r = advance(&mut self.snake, &self.grid, self.food, Some(turn));
        self.last_tail = Some(r.last_tail);

        if r.game_over {
            self.state = SessionState::GameOver;
            self.reason = r.reason;
            proof {
                // Food sits on the grid and off the body, so neither a wall
                // hit nor a self hit can be a food cell: no growth here.
                assert(old(self).food != Some(h));
                if old(self).grid.spec_contains(h) {
                    match old(self).food {
                        Some(c) => {
                            lemma_shift_keeps_free(pre, h, c);
                        },
                        None => {},
                    }
                }
            }
            return TickEvents { growth: false, game_over: true };
        }
        if r.growth {
            self.snake.grow(r.last_tail);
            proof {
                assert_seqs_equal!(self.snake.segments@ == seq![h] + pre);
                assert(old(self).grid.spec_contains(pre.last()));
                lemma_grow_distinct(pre, h);
            }
            match sample_free_cell(&self.grid, &self.snake.segments) {
                Ok(c) => {
                    self.food = Some(c);
                    proof {
                        // The eaten cell is now the head, so the fresh food
                        // cell differs from the eaten one.
                        assert(self.snake.segments@[0] == h);
                        assert(self.snake.segments@.contains(h));
                    }
                    TickEvents { growth: true, game_over: false }
                },
                Err(_) => {
                    self.food = None;
                    self.state = SessionState::GameOver;
                    self.reason = Some(GameOverReason::ArenaFull);
                    TickEvents { growth: true, game_over: true }
                },
            }
        } else {
            proof {
                lemma_shift_distinct(pre, h);
                match old(self).food {
                    Some(c) => {
                        lemma_shift_keeps_free(pre, h, c);
                    },
                    None => {},
                }
            }
            TickEvents { growth: false, game_over: false }
        }
    }
}

/// Shifting moves every segment to the cell of the one ahead of it: with a
/// head cell off the distinct pre-move body, the shifted body is distinct
/// again.
proof fn lemma_shift_distinct(pre: Seq<Position>, h: Position)
    requires
        pre.len() >= 1,
        distinct_cells(pre),
        !pre.contains(h),
    ensures
        distinct_cells(seq![h] + pre.drop_last()),
{
    let s = seq![h] + pre.drop_last();
    assert forall|i: int, j: int| 0 <= i < j < s.len() implies s[i] != s[j] by {
        assert(s[j] == pre[j - 1]);
        assert(pre.contains(pre[j - 1]));
        if i > 0 {
            assert(s[i] == pre[i - 1]);
        }
    }
}

/// Growing appends the old tail cell back: with a head cell off the
/// distinct pre-move body, the grown body is distinct again.
proof fn lemma_grow_distinct(pre: Seq<Position>, h: Position)
    requires
        distinct_cells(pre),
        !pre.contains(h),
    ensures
        distinct_cells(seq![h] + pre),
{
    let s = seq![h] + pre;
    assert forall|i: int, j: int| 0 <= i < j < s.len() implies s[i] != s[j] by {
        assert(s[j] == pre[j - 1]);
        assert(pre.contains(pre[j - 1]));
        if i > 0 {
            assert(s[i] == pre[i - 1]);
        }
    }
}

/// A cell off the pre-move body, other than the new head, stays off the
/// shifted body.
proof fn lemma_shift_keeps_free(pre: Seq<Position>, h: Position, c: Position)
    requires
        pre.len() >= 1,
        c != h,
        !pre.contains(c),
    ensures
        !(seq![h] + pre.drop_last()).contains(c),
{
    let s = seq![h] + pre.drop_last();
    assert forall|t: int| 0 <= t < s.len() implies s[t] != c by {
        if t >= 1 {
            assert(s[t] == pre[t - 1]);
            assert(pre.contains(pre[t - 1]));
        }
    }
}

} // verus!
