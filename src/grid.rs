use vstd::prelude::*;

use crate::direction::Direction;

verus! {

/// A cell of the grid: column `x` and row `y`. There are no board bounds;
/// any pair of `i16` values is a position.
#[derive(Debug, Clone, Copy, PartialEq, Eq, Structural)]
pub struct GridPosition {
    pub x: i16,
    pub y: i16,
}

impl View for GridPosition {
    type V = (int, int);

    open spec fn view(&self) -> (int, int) {
        (self.x as int, self.y as int)
    }
}

/// The offset of one step in `d`: rows grow downwards, columns to the right.
pub open spec fn delta(d: Direction) -> (int, int) {
    match d {
        Direction::Up => (0, -1),
        Direction::Down => (0, 1),
        Direction::Left => (-1, 0),
        Direction::Right => (1, 0),
    }
}

/// The cell one step from `c` in direction `d`.
pub open spec fn step(c: (int, int), d: Direction) -> (int, int) {
    (c.0 + delta(d).0, c.1 + delta(d).1)
}

/// Whether both coordinates of `c` fit in an `i16`.
pub open spec fn in_i16_range(c: (int, int)) -> bool {
    &&& i16::MIN <= c.0 <= i16::MAX
    &&& i16::MIN <= c.1 <= i16::MAX
}

/// Whether one step from `p` in direction `d` stays representable.
pub open spec fn can_move(p: GridPosition, d: Direction) -> bool {
    in_i16_range(step(p@, d))
}

impl GridPosition {
    /// The position at column `x` and row `y`, stored as given.
    pub fn new(x: i16, y: i16) -> (r: GridPosition)
        ensures
            r.x == x,
            r.y == y,
    {
        GridPosition { x, y }
    }

    /// The position one cell away from `pos` in direction `dir`. The step
    /// must stay within the range of `i16`: there is no wrapping or clamping.
    pub fn new_from_move(pos: GridPosition, dir: Direction) -> (r: GridPosition)
        requires
            can_move(pos, dir),
        ensures
            r@ == step(pos@, dir),
    {
        match dir {
            Direction::Up => GridPosition::new(pos.x, pos.y - 1),
            Direction::Down => GridPosition::new(pos.x, pos.y + 1),
            Direction::Left => GridPosition::new(pos.x - 1, pos.y),
            Direction::Right => GridPosition::new(pos.x + 1, pos.y),
        }
    }
}

} // verus!
