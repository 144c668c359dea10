//! Movement and self-collision rules of a snake that travels on a
//! wrap-around grid, with machine-checked contracts.
//!
//! * [`direction`] holds the four headings.
//! * [`model`] is the mathematical description of a snake and of one tick.
//! * [`snake`] is the executable snake, specified against the model.
//! * [`laws`] states what follows for every snake and every field.

pub mod direction;
pub mod laws;
pub mod model;
pub mod snake;

pub use crate::direction::Direction;
pub use crate::snake::Snake;
