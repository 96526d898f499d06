//! Helpers shared by the backends and the protocol implementations.

pub mod double_buffer;
pub mod geometry;
pub mod laws;
pub mod text;

pub use double_buffer::{DoubleBufferable, DoubleBuffered};
pub use geometry::{Point, Rectangle, Size};
