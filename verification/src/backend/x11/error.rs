//! Errors of the X11 backend.

use vstd::prelude::*;


verus! {

/// An error that may occur when the window of the backend is created.
#[derive(Debug, Clone, Copy, PartialEq, Eq)]
pub enum CreateWindowError {
    /// No depth of 24 or 32 bits is available.
    NoDepth,
    /// No true color visual of the depth is available.
    NoVisual,
}

/// An error that may occur when the buffers of a surface are allocated.
#[derive(Debug, Clone, Copy, PartialEq, Eq)]
pub enum AllocateBuffersError {
    /// The device is not a DRM node that can be used.
    UnsupportedDrmNode,
    /// A system call failed with this error number.
    Io(i32),
}

/// An extension that the backend needs is missing.
#[derive(Debug, Clone, Copy, PartialEq, Eq)]
pub enum MissingExtensionError {
    /// The extension was not found.
    NotFound {
        /// The name of the extension.
        name: &'static str,
        /// The major version that is needed.
        major: u32,
        /// The minor version that is needed.
        minor: u32,
    },
    /// The version of the extension is too low.
    WrongVersion {
        /// The name of the extension.
        name: &'static str,
        /// The major version that is needed.
        required_major: u32,
        /// The minor version that is needed.
        required_minor: u32,
        /// The major version that is available.
        available_major: u32,
        /// The minor version that is available.
        available_minor: u32,
    },
}

/// An error of the X11 backend.
#[derive(Debug, Clone, Copy, PartialEq, Eq)]
pub enum X11Error {
    /// The connection to the X server failed.
    Connection,
    /// The X server answered with an error of this code.
    Protocol(u8),
    /// The window could not be created.
    CreateWindow(CreateWindowError),
    /// The buffers could not be allocated.
    Allocate(AllocateBuffersError),
    /// An extension is missing.
    MissingExtension(MissingExtensionError),
}

} // verus!
