use vstd::prelude::*;

use crate::direction::Direction;
use crate::errors::InvalidConfiguration;
use crate::grid::{contains_cell, Grid, Position};

verus! {

/// No two cells of the sequence coincide.
pub open spec fn distinct_cells(s: Seq<Position>) -> bool {
    forall|i: int, j: int| 0 <= i < j < s.len() ==> s[i] != s[j]
}

/// The snake: its body as an ordered chain of cells (head first, tail last),
/// the direction of the last completed move, and the direction latched from
/// input for the next move.
pub struct Snake {
    pub segments: Vec<Position>,
    pub current_direction: Direction,
    pub pending_direction: Direction,
}

impl Snake {
    /// Basic shape: at least a head and one body segment, every segment on
    /// the grid. Distinctness of the segments is not part of this predicate:
    /// a self-collision makes the body overlap for the one step on which the
    /// session ends.
    pub open spec fn well_formed(self, grid: Grid) -> bool {
        &&& self.segments@.len() >= 2
        &&& forall|k: int|
            0 <= k < self.segments@.len() ==> grid.spec_contains(#[trigger] self.segments@[k])
    }

    /// The head cell: the front of the chain.
    pub open spec fn spec_head(self) -> Position {
        self.segments@[0]
    }

    /// The occupancy set: whether any segment covers `c`.
    pub open spec fn occupies(self, c: Position) -> bool {
        self.segments@.contains(c)
    }

    /// Builds a snake from its initial chain, rejecting a chain of fewer than
    /// two cells, a cell off the grid, or two segments on the same cell.
    /// Both direction fields start at `direction`.
    pub fn new(grid: &Grid, segments: Vec<Position>, direction: Direction) -> (r: Result<
        Snake,
        InvalidConfiguration,
    >)
        ensures
            match r {
                Ok(s) => {
                    &&& s.segments@ == segments@
                    &&& s.current_direction == direction
                    &&& s.pending_direction == direction
                    &&& s.well_formed(*grid)
                    &&& distinct_cells(s.segments@)
                },
                Err(_) => !(segments@.len() >= 2 && distinct_cells(segments@) && forall|k: int|
                    0 <= k < segments@.len() ==> grid.spec_contains(#[trigger] segments@[k])),
            },
    {
        if segments.len() < 2 {
            return Err(InvalidConfiguration);
        }
        if !all_cells_on_grid(grid, &segments) {
            return Err(InvalidConfiguration);
        }
        if !cells_distinct(&segments) {
            return Err(InvalidConfiguration);
        }
        Ok(Snake { segments, current_direction: direction, pending_direction: direction })
    }

    /// The head cell.
    pub fn head(&self) -> (h: Position)
        requires
            self.segments@.len() > 0,
        ensures
            h == self.spec_head(),
    {
        self.segments[0]
    }

    /// Latches a direction request for the next tick. Overwrite semantics:
    /// each call replaces the previous latch, so however often input is
    /// sampled, at most one change takes effect per tick. The one turn
    /// validity rule: a request that would reverse straight into the neck
    /// (the opposite of the direction last moved) is rejected and leaves the
    /// latch unchanged.
    pub fn set_pending_direction(&mut self, d: Direction)
        ensures
            final(self).segments == old(self).segments,
            final(self).current_direction == old(self).current_direction,
            final(self).pending_direction == (if d == old(self).current_direction.spec_opposite() {
                old(self).pending_direction
            } else {
                d
            }),
    {
        if !(d == self.current_direction.opposite()) {
            self.pending_direction = d;
        }
    }

    /// Growth handling: appends one segment at `tail_cell`, the recorded
    /// pre-move tail position, producing a seamless extension.
    pub fn grow(&mut self, tail_cell: Position)
        ensures
            final(self).segments@ == old(self).segments@.push(tail_cell),
            final(self).current_direction == old(self).current_direction,
            final(self).pending_direction == old(self).pending_direction,
    {
        self.segments.push(tail_cell);
    }
}

/// Whether every cell of `cells` lies on the grid.
fn all_cells_on_grid(grid: &Grid, cells: &Vec<Position>) -> (b: bool)
    ensures
        b == (forall|k: int| 0 <= k < cells@.len() ==> grid.spec_contains(#[trigger] cells@[k])),
{
    let mut k: usize = 0;
    while k < cells.len()
        invariant
            k <= cells@.len(),
            forall|t: int| 0 <= t < k ==> grid.spec_contains(#[trigger] cells@[t]),
        decreases cells@.len() - k,
    {
        if !grid.contains(cells[k]) {
            return false;
        }
        k = k + 1;
    }
    true
}

/// Whether no two cells of `cells` coincide: a quadratic scan.
fn cells_distinct(cells: &Vec<Position>) -> (b: bool)
    ensures
        b == distinct_cells(cells@),
{
    let mut i: usize = 0;
    while i < cells.len()
        invariant
            i <= cells@.len(),
            forall|s: int, t: int| 0 <= s < t < cells@.len() && s < i ==> cells@[s] != cells@[t],
        decreases cells@.len() - i,
    {
        let mut j: usize = i + 1;
        while j < cells.len()
            invariant
                i < j <= cells@.len(),
                i < cells@.len(),
                forall|s: int, t: int| 0 <= s < t < cells@.len() && s < i ==> cells@[s]
                    != cells@[t],
                forall|t: int| i < t < j ==> cells@[i as int] != #[trigger] cells@[t],
            decreases cells@.len() - j,
        {
            if cells[i] == cells[j] {
                return false;
            }
            j = j + 1;
        }
        i = i + 1;
    }
    true
}

} // verus!
