//! Running X11 applications through XWayland.

pub mod laws;
pub mod xserver;
