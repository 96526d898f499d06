//! Backend helpers: rendering and windowing.

pub mod allocator;
pub mod renderer;
pub mod x11;
