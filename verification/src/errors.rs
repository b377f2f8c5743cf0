use vstd::prelude::*;

verus! {

/// Rejected session configuration: a non-positive or oversized arena
/// dimension, a zero tick period, or an initial snake that is not a valid
/// chain of at least two distinct on-grid cells.
#[derive(Clone, Copy, PartialEq, Eq, Structural, Debug)]
pub struct InvalidConfiguration;

/// Food placement found no free cell: the snake occupies the whole arena.
#[derive(Clone, Copy, PartialEq, Eq, Structural, Debug)]
pub struct ArenaFullError;

} // verus!
