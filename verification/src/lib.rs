//! A two-player game of Pong: ball and paddle physics, scoring, a reactive
//! opponent, and the vertex geometry handed to the renderer each frame.
//!
//! The simulation runs on fixed-point integers (see [`fixed`]), so every step
//! is exact and every rule is stated over mathematical integers.

pub mod fixed;
pub mod circle;
pub mod game_object;
pub mod game_manager;
pub mod startup;
