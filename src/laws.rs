use vstd::prelude::*;

use crate::direction::Direction;
use crate::grid::{step, GridPosition};

verus! {

/// A step changes exactly one coordinate, by exactly one, and leaves the
/// other as it was: Up lowers the row, Down raises it, Left lowers the
/// column, Right raises it.
pub proof fn lemma_step_changes_one_coordinate(p: GridPosition, d: Direction)
    ensures
        ({
            let q = step(p@, d);
            ||| (q.0 == p@.0 && (q.1 == p@.1 + 1 || q.1 == p@.1 - 1))
            ||| (q.1 == p@.1 && (q.0 == p@.0 + 1 || q.0 == p@.0 - 1))
        }),
        d == Direction::Up ==> step(p@, d) == (p@.0, p@.1 - 1),
        d == Direction::Down ==> step(p@, d) == (p@.0, p@.1 + 1),
        d == Direction::Left ==> step(p@, d) == (p@.0 - 1, p@.1),
        d == Direction::Right ==> step(p@, d) == (p@.0 + 1, p@.1),
{
}

/// Moving is never a no-op: a step always lands on another cell, so two
/// consecutive moves in the same direction end on two different cells.
pub proof fn lemma_step_never_stays(c: (int, int), d: Direction)
    ensures
        step(c, d) != c,
        step(step(c, d), d) != step(c, d),
{
}

} // verus!
