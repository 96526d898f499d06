//! Building blocks of a Wayland compositor: protocol state, the rules of the X11 and Vulkan
//! backends, and the bookkeeping around them.
//!
//! Nothing here talks to a socket, a device or a driver. Each function takes what the outside
//! world reported as plain values and returns what is to be done next.

pub mod anvil;
pub mod backend;
pub mod utils;
pub mod wayland;
pub mod xwayland;
