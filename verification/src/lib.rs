//! Gameplay core of a grid-based snake game: a fixed-tick simulation that
//! turns queued directional input into snake movement, growth, food
//! consumption, and collision-triggered game over. Rendering, windowing and
//! asset concerns are left to the surrounding program.

pub mod config;
pub mod food;
pub mod game;
pub mod input;
pub mod player;
pub mod score;
pub mod timer;
