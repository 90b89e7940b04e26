use vstd::prelude::*;

use crate::direction::Direction;
use crate::grid::{can_move, step, GridPosition};

verus! {

/// The player's ship: a position and the direction it travels in.
#[derive(Debug)]
pub struct Spaceship {
    pub pos: GridPosition,
    pub direction: Direction,
}

impl Spaceship {
    /// A ship at `pos`, facing right.
    pub fn new(pos: GridPosition) -> (r: Spaceship)
        ensures
            r.pos == pos,
            r.direction == Direction::Right,
    {
        Spaceship { pos, direction: Direction::Right }
    }

    /// Advances the ship one cell in its current direction, which is kept.
    pub fn update(&mut self)
        requires
            can_move(old(self).pos, old(self).direction),
        ensures
            final(self).pos@ == step(old(self).pos@, old(self).direction),
            final(self).direction == old(self).direction,
    {
        let new_pos = GridPosition::new_from_move(self.pos, self.direction);
        self.pos = new_pos;
    }
}

/// An enemy: a position and the direction it travels in.
#[derive(Debug)]
pub struct Enemy {
    pub pos: GridPosition,
    pub direction: Direction,
}

impl Enemy {
    /// An enemy at `pos`, facing right.
    pub fn new(pos: GridPosition) -> (r: Enemy)
        ensures
            r.pos == pos,
            r.direction == Direction::Right,
    {
        Enemy { pos, direction: Direction::Right }
    }

    /// Advances the enemy one cell in its current direction, which is kept.
    pub fn update(&mut self)
        requires
            can_move(old(self).pos, old(self).direction),
        ensures
            final(self).pos@ == step(old(self).pos@, old(self).direction),
            final(self).direction == old(self).direction,
    {
        let new_pos = GridPosition::new_from_move(self.pos, self.direction);
        self.pos = new_pos;
    }
}

/// A bullet: a position and the direction it travels in.
#[derive(Debug)]
pub struct Bullet {
    pub pos: GridPosition,
    pub direction: Direction,
}

impl Bullet {
    /// A bullet at `pos`, facing right.
    pub fn new(pos: GridPosition) -> (r: Bullet)
        ensures
            r.pos == pos,
            r.direction == Direction::Right,
    {
        Bullet { pos, direction: Direction::Right }
    }

    /// Advances the bullet one cell in its current direction, which is kept.
    pub fn update(&mut self)
        requires
            can_move(old(self).pos, old(self).direction),
        ensures
            final(self).pos@ == step(old(self).pos@, old(self).direction),
            final(self).direction == old(self).direction,
    {
        let new_pos = GridPosition::new_from_move(self.pos, self.direction);
        self.pos = new_pos;
    }
}

} // verus!
