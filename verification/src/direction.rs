use vstd::prelude::*;

verus! {

/// A travel direction on the grid.
///
/// The vertical convention is mathematical: `Up` increases `y`, `Down`
/// decreases it. Movement and food placement both follow this convention.
#[derive(Clone, Copy, PartialEq, Eq, Structural, Debug)]
pub enum Direction {
    Left,
    Up,
    Right,
    Down,
}

impl Direction {
    /// The opposite direction: Left <-> Right, Up <-> Down.
    pub open spec fn spec_opposite(self) -> Direction {
        match self {
            Direction::Left => Direction::Right,
            Direction::Right => Direction::Left,
            Direction::Up => Direction::Down,
            Direction::Down => Direction::Up,
        }
    }

    /// The opposite direction: Left <-> Right, Up <-> Down.
    #[verifier::when_used_as_spec(spec_opposite)]
    pub fn opposite(self) -> (r: Direction)
        ensures
            r == self.spec_opposite(),
    {
        match self {
            Direction::Left => Direction::Right,
            Direction::Right => Direction::Left,
            Direction::Up => Direction::Down,
            Direction::Down => Direction::Up,
        }
    }
}

/// The direction a tick actually travels in, given the direction of the last
/// completed move and an optional turn request: the request is applied unless
/// it would reverse straight into the neck, in which case it is ignored.
pub open spec fn resolved_direction(cur: Direction, req: Option<Direction>) -> Direction {
    match req {
        Some(d) => if d == cur.spec_opposite() {
            cur
        } else {
            d
        },
        None => cur,
    }
}

/// Law: `opposite` is a total involution on directions.
pub proof fn lemma_opposite_involutive(d: Direction)
    ensures
        d.spec_opposite().spec_opposite() == d,
{
}

/// Law: a turn request that is not the opposite of the current direction is
/// always applied.
pub proof fn lemma_turn_applied(cur: Direction, req: Direction)
    requires
        req != cur.spec_opposite(),
    ensures
        resolved_direction(cur, Some(req)) == req,
{
}

/// Law: a turn request equal to the opposite of the current direction never
/// changes the direction of travel.
pub proof fn lemma_opposite_turn_ignored(cur: Direction)
    ensures
        resolved_direction(cur, Some(cur.spec_opposite())) == cur,
{
}

/// Law: direction resolution never yields the reverse of the direction last
/// moved, whatever was requested: the snake cannot turn straight back into
/// its neck.
pub proof fn lemma_no_instant_reversal(cur: Direction, req: Option<Direction>)
    ensures
        resolved_direction(cur, req) != cur.spec_opposite(),
{
}

} // verus!
