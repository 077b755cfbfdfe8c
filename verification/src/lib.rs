//! Snake on a torus-shaped grid: the rules of the game as a verified library.
//!
//! The library holds everything that decides how a session evolves: where
//! food may appear, how the snake advances and wraps around the edges, when
//! it grows, how the pace quickens, and when the session is lost. Reading
//! the clock, sampling the keyboard and putting shapes on the screen are
//! left to the program built on top of it.

pub mod constants;
pub mod direction;
pub mod drawing;
pub mod grid;
pub mod input;
pub mod placement;
pub mod random;
pub mod state;
pub mod theorems;

pub use direction::Direction;
