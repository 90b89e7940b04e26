use vstd::prelude::*;

use crate::direction::Direction;
use crate::entity::{Bullet, Enemy, Spaceship};
use crate::grid::GridPosition;

verus! {

/// Column of the cell where every entity starts.
pub const START_X: i16 = 0;

/// Row of the cell where every entity starts.
pub const START_Y: i16 = 1;

/// The whole game: one ship, one enemy and one bullet.
#[derive(Debug)]
pub struct GameState {
    pub space_ship: Spaceship,
    pub enemy: Enemy,
    pub bullet: Bullet,
}

/// Whether a position and facing are those every entity starts with:
/// the cell (0, 1), facing right.
pub open spec fn at_start(pos: GridPosition, direction: Direction) -> bool {
    &&& pos.x == START_X
    &&& pos.y == START_Y
    &&& direction == Direction::Right
}

impl GameState {
    /// A fresh game with all three entities at (0, 1), facing right.
    pub fn new() -> (r: GameState)
        ensures
            at_start(r.space_ship.pos, r.space_ship.direction),
            at_start(r.enemy.pos, r.enemy.direction),
            at_start(r.bullet.pos, r.bullet.direction),
    {
        GameState {
            space_ship: Spaceship::new(GridPosition::new(START_X, START_Y)),
            enemy: Enemy::new(GridPosition::new(START_X, START_Y)),
            bullet: Bullet::new(GridPosition::new(START_X, START_Y)),
        }
    }
}

} // verus!
