//! Simulation core of a grid-based snake game.
//!
//! The library owns the snake's body, its heading, its movement timing,
//! collision detection against the board edges and against itself, and
//! food placement. Rendering, window management and input polling are the
//! caller's concern: the caller reports which direction keys are held,
//! supplies the elapsed time and the current food cell each frame, and
//! reacts to the reported result.

pub mod food;
pub mod grid;
pub mod laws;
pub mod snake;
