//! Protocol globals of a compositor.

pub mod data_device;
pub mod decoration;
pub mod foreign_toplevel;
pub mod laws;
pub mod protocol;
pub mod shm;
