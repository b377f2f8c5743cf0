use vstd::prelude::*;

use rand::seq::SliceRandom;

use crate::errors::ArenaFullError;
use crate::grid::{contains_cell, Grid, Position};

verus! {

/// Relies on rand's `SliceRandom::choose` (driven by `rand::thread_rng`): on
/// a non-empty slice it returns `Some` of one element of the slice, chosen
/// uniformly at random; it returns `None` only on an empty slice.
#[verifier::external_body]
fn choose_cell(cells: &Vec<Position>) -> (r: Position)
    requires
        cells@.len() > 0,
    ensures
        cells@.contains(r),
{
    *cells.choose(&mut rand::thread_rng()).unwrap()
}

/// Food placement: one cell of the arena that none of `occupied` covers,
/// chosen uniformly at random from all such cells, or `ArenaFullError` when
/// the occupied cells are the whole grid (a legitimate end state: the caller
/// treats it as a stalemate, not a crash).
pub fn sample_free_cell(grid: &Grid, occupied: &Vec<Position>) -> (r: Result<
    Position,
    ArenaFullError,
>)
    requires
        grid.well_formed(),
    ensures
        match r {
            Ok(c) => grid.spec_contains(c) && !occupied@.contains(c),
            Err(_) => forall|c: Position| grid.spec_contains(c) ==> occupied@.contains(c),
        },
{
    let all = grid.all_cells();
    let ghost all_snapshot = all@;
    let mut free: Vec<Position> = Vec::new();
    let mut k: usize = 0;
    while k < all.len()
        invariant
            grid.well_formed(),
            k <= all@.len(),
            all@ == all_snapshot,
            forall|t: int| 0 <= t < all@.len() ==> grid.spec_contains(#[trigger] all@[t]),
            forall|t: int|
                0 <= t < k ==> (occupied@.contains(#[trigger] all@[t]) || free@.contains(all@[t])),
            forall|t: int|
                0 <= t < free@.len() ==> grid.spec_contains(#[trigger] free@[t])
                    && !occupied@.contains(free@[t]),
        decreases all@.len() - k,
    {
        let c = all[k];
        if !contains_cell(occupied, c) {
            let ghost free_before = free@;
            free.push(c);
            proof {
                assert(free@[free_before.len() as int] == c);
                assert forall|t: int|
                    0 <= t < k && free_before.contains(#[trigger] all@[t]) implies free@.contains(
                    all@[t],
                ) by {
                    let u = choose|u: int| 0 <= u < free_before.len() && free_before[u] == all@[t];
                    assert(free@[u] == all@[t]);
                }
            }
        }
        k = k + 1;
    }
    if free.len() == 0 {
        proof {
            assert forall|c: Position| grid.spec_contains(c) implies occupied@.contains(c) by {
                assert(all@.contains(c));
                let t = choose|t: int| 0 <= t < all@.len() && all@[t] == c;
                assert(occupied@.contains(all@[t]) || free@.contains(all@[t]));
            }
        }
        Err(ArenaFullError)
    } else {
        let c = choose_cell(&free);
        proof {
            let t = choose|t: int| 0 <= t < free@.len() && free@[t] == c;
            assert(grid.spec_contains(free@[t]));
        }
        Ok(c)
    }
}

} // verus!
