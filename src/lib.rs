//! Conway's Game of Life: a verified simulation engine.
//!
//! The grid model and the transition rule are stated as spec functions in
//! [`life`]; the executable state object lives in [`game`].
pub mod game;
pub mod laws;
pub mod life;
pub mod schedule;
pub mod seed_text;
pub mod seeding;
