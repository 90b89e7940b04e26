//! Positions, facings and one-cell movement for the ship, enemy and bullet
//! of a small grid arcade game.

pub mod direction;
pub mod entity;
pub mod game;
pub mod grid;
pub mod laws;
