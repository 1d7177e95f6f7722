//! Simulation core of a side-scrolling runner: a character state machine with
//! jump physics, obstacles with collision resolution, procedurally generated
//! terrain segments and the top-level game state machine.

pub mod geometry;
pub mod sprite;
pub mod red_hat_boy;
pub mod character;
pub mod obstacle;
pub mod segments;
pub mod walk;
pub mod input;
pub mod ui;
pub mod sound;
pub mod game;
