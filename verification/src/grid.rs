use vstd::prelude::*;

use crate::errors::InvalidConfiguration;

verus! {

/// One grid square, identified by an integer pair. A value type, compared by
/// equality of the coordinates.
#[derive(Clone, Copy, PartialEq, Eq, Structural, Debug)]
pub struct Position {
    pub x: i32,
    pub y: i32,
}

/// Largest accepted arena side length. It keeps every cell coordinate (and
/// the cells one step outside the arena) within `i32`, and the total cell
/// count within `usize` on every platform.
pub const MAX_ARENA_DIM: u32 = 0x7fff;

/// The arena bounds: a fixed positive width and height. A cell is valid when
/// `0 <= x < width` and `0 <= y < height`. No mutable state.
#[derive(Clone, Copy, PartialEq, Eq, Structural, Debug)]
pub struct Grid {
    pub width: u32,
    pub height: u32,
}

impl Grid {
    /// Both dimensions are positive and no larger than `MAX_ARENA_DIM`.
    pub open spec fn well_formed(self) -> bool {
        &&& 0 < self.width <= MAX_ARENA_DIM
        &&& 0 < self.height <= MAX_ARENA_DIM
    }

    /// The cell lies inside the arena.
    pub open spec fn spec_contains(self, c: Position) -> bool {
        &&& 0 <= c.x
        &&& (c.x as int) < self.width as int
        &&& 0 <= c.y
        &&& (c.y as int) < self.height as int
    }

    /// Builds a grid, rejecting non-positive and oversized dimensions.
    pub fn new(width: u32, height: u32) -> (r: Result<Grid, InvalidConfiguration>)
        ensures
            match r {
                Ok(g) => {
                    &&& g.width == width
                    &&& g.height == height
                    &&& g.well_formed()
                },
                Err(_) => !(0 < width <= MAX_ARENA_DIM && 0 < height <= MAX_ARENA_DIM),
            },
    {
        if width == 0 || height == 0 || width > MAX_ARENA_DIM || height > MAX_ARENA_DIM {
            Err(InvalidConfiguration)
        } else {
            Ok(Grid { width, height })
        }
    }

    /// Whether the cell lies inside the arena.
    pub fn contains(&self, c: Position) -> (b: bool)
        ensures
            b == self.spec_contains(c),
    {
        c.x >= 0 && c.y >= 0 && (c.x as u32) < self.width && (c.y as u32) < self.height
    }

    /// Every cell of the arena, in row-major order: the row `y == 0` first,
    /// `x` increasing within each row.
    pub fn all_cells(&self) -> (cells: Vec<Position>)
        requires
            self.well_formed(),
        ensures
            cells@.len() == self.height * self.width,
            forall|j: int, i: int|
                0 <= j < self.height && 0 <= i < self.width ==> #[trigger] cells@[j * self.width + i]
                    == (Position { x: i as i32, y: j as i32 }),
            forall|k: int| 0 <= k < cells@.len() ==> self.spec_contains(#[trigger] cells@[k]),
            forall|c: Position| self.spec_contains(c) ==> cells@.contains(c),
    {
        let mut cells: Vec<Position> = Vec::new();
        let mut y: u32 = 0;
        while y < self.height
            invariant
                self.well_formed(),
                y <= self.height,
                cells@.len() == y * self.width,
                forall|j: int, i: int|
                    0 <= j < y && 0 <= i < self.width ==> #[trigger] cells@[j * self.width + i]
                        == (Position { x: i as i32, y: j as i32 }),
                forall|k: int| 0 <= k < cells@.len() ==> self.spec_contains(#[trigger] cells@[k]),
            decreases self.height - y,
        {
            let mut x: u32 = 0;
            while x < self.width
                invariant
                    self.well_formed(),
                    y < self.height,
                    x <= self.width,
                    cells@.len() == y * self.width + x,
                    forall|j: int, i: int|
                        0 <= j < y && 0 <= i < self.width ==> #[trigger] cells@[j * self.width + i]
                            == (Position { x: i as i32, y: j as i32 }),
                    forall|i: int|
                        0 <= i < x ==> #[trigger] cells@[y * self.width + i]
                            == (Position { x: i as i32, y: y as i32 }),
                    forall|k: int| 0 <= k < cells@.len() ==> self.spec_contains(#[trigger] cells@[k]),
                decreases self.width - x,
            {
                cells.push(Position { x: x as i32, y: y as i32 });
                proof {
                    assert forall|j: int, i: int| 0 <= j < y && 0 <= i < self.width
                        implies #[trigger] cells@[j * self.width + i]
                            == (Position { x: i as i32, y: j as i32 }) by {
                        lemma_row_major_index_bound(j, i, y as int, self.width as int);
                    }
                }
                x = x + 1;
            }
            proof {
                assert((y + 1) * self.width == y * self.width + self.width) by (nonlinear_arith);
            }
            y = y + 1;
        }
        proof {
            assert forall|c: Position| self.spec_contains(c) implies cells@.contains(c) by {
                let j = c.y as int;
                let i = c.x as int;
                lemma_row_major_index_bound(j, i, self.height as int, self.width as int);
                assert(cells@[j * self.width + i] == c);
            }
        }
        cells
    }
}

/// In a row-major layout of `rows` rows of `w` cells each, the linear index
/// of the cell in row `j`, column `i` lies in front of row `rows`.
proof fn lemma_row_major_index_bound(j: int, i: int, rows: int, w: int)
    requires
        0 <= j < rows,
        0 <= i < w,
    ensures
        0 <= j * w + i < rows * w,
{
    assert(0 <= j * w + i < rows * w) by (nonlinear_arith)
        requires
            0 <= j < rows,
            0 <= i < w,
    ;
}

/// Whether `cells` holds `c`: a linear scan over the vector.
pub fn contains_cell(cells: &Vec<Position>, c: Position) -> (b: bool)
    ensures
        b == cells@.contains(c),
{
    let mut k: usize = 0;
    while k < cells.len()
        invariant
            k <= cells@.len(),
            forall|t: int| 0 <= t < k ==> cells@[t] != c,
        decreases cells@.len() - k,
    {
        if cells[k] == c {
            return true;
        }
        k = k + 1;
    }
    false
}

} // verus!
