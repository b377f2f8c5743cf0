//! The simulation core of a grid-based snake game.
//!
//! The snake's body is an ordered chain of occupied cells on a bounded grid.
//! Each tick the engine consumes the latched direction intent, advances the
//! head one cell, shifts the body, and checks the new head against the arena
//! bounds, the pre-move body, and the food cell; growth appends a segment at
//! the old tail and food respawns on a cell the snake does not cover. The
//! session halts, once and for all, on the first game-over event. Rendering,
//! audio and input devices are a presentation layer outside this crate: it
//! feeds directions in through the pending-direction latch and reads the
//! segment, food and state data back out after each tick.

pub mod direction;
pub mod engine;
pub mod errors;
pub mod food;
pub mod grid;
pub mod scheduler;
pub mod session;
pub mod snake;
