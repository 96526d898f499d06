//! A compositor that outputs to a window of an X server.

pub mod laws;
pub mod x11;
