//! Core of a falling-block puzzle: piece geometry, board and collision,
//! line clearing, horizontal auto-repeat, gravity and the game state machine.
//!
//! Time is measured in whole microseconds throughout.

pub mod shape;
pub mod board;
pub mod repeat;
pub mod game;
pub mod laws;
