//! Conway's Game of Life on a fixed rectangular grid with a dead border.
//!
//! * [`grid`] holds the mathematical model: a grid of dead and alive cells,
//!   its index arithmetic, the survival rule and one synchronous generation.
//! * [`board`] holds the executable, double-buffered board whose view is that model.
//! * [`simulation`] decides, frame by frame, what a bounded run does next.
//! * [`laws`] states properties that relate several operations.
//! * [`trusted`] holds the two calls into code that is not verified: the
//!   random number generator of the `rand` crate and `String::push`.
pub mod board;
pub mod error;
pub mod grid;
pub mod laws;
pub mod simulation;
pub mod trusted;
