//! Connecting to an X server through Xlib and XCB.

use vstd::prelude::*;

verus! {

/// An error that may occur when connecting to the X server.
#[derive(Debug, Clone, Copy, PartialEq, Eq)]
pub enum ConnectToXError {
    /// An error occurred while setting up XCB.
    Xcb,
    /// Some required libraries were not present.
    LibrariesNotLoaded,
    /// Xlib failed to initialize its connection.
    XlibNoConnection,
    /// The Xlib implementation is not XCB based.
    NoXlibXcb,
}

impl ConnectToXError {
    /// The text of the error.
    pub fn message(&self) -> (r: &'static str)
        ensures
            r@ == match self {
                ConnectToXError::Xcb => "XCB failed to connect to the X server"@,
                ConnectToXError::LibrariesNotLoaded =>
                    "Required libraries (xlib and xlib_libxcb) were not loaded"@,
                ConnectToXError::XlibNoConnection =>
                    "An xlib connection could not be established"@,
                ConnectToXError::NoXlibXcb =>
                    "Xlib implementation does not support getting the inner xcb connection"@,
            },
    {
        match self {
            ConnectToXError::Xcb => "XCB failed to connect to the X server",
            ConnectToXError::LibrariesNotLoaded =>
                "Required libraries (xlib and xlib_libxcb) were not loaded",
            ConnectToXError::XlibNoConnection => "An xlib connection could not be established",
            ConnectToXError::NoXlibXcb =>
                "Xlib implementation does not support getting the inner xcb connection",
        }
    }
}

/// How far connecting got.
#[derive(Debug, Clone, Copy, PartialEq, Eq)]
pub enum ConnectEvent {
    /// The display was asked for, and is open or not.
    DisplayOpened(bool),
    /// XCB was made the owner of the event queue, and has a connection for the display or not.
    XcbFound(bool),
    /// The connection of XCB was set up, successfully or not.
    XcbSetUp(bool),
}

/// What to do next.
#[derive(Debug, Clone, Copy, PartialEq, Eq)]
pub enum ConnectAction {
    /// Transfer ownership of the event queue to XCB, and get its connection for the display.
    GetXcb,
    /// Set up the connection of XCB. It must not be closed with it, since Xlib created it.
    SetUpXcb,
    /// The connection is usable.
    Done,
    /// Connecting has failed.
    Fail {
        /// Whether the display has to be closed.
        close_display: bool,
        /// The error.
        error: ConnectToXError,
    },
}

/// What to do after a step of connecting.
pub fn connect_step(event: ConnectEvent) -> (r: ConnectAction)
    ensures
        r == match event {
            ConnectEvent::DisplayOpened(true) => ConnectAction::GetXcb,
            ConnectEvent::DisplayOpened(false) => ConnectAction::Fail {
                close_display: false,
                error: ConnectToXError::XlibNoConnection,
            },
            ConnectEvent::XcbFound(true) => ConnectAction::SetUpXcb,
            ConnectEvent::XcbFound(false) => ConnectAction::Fail {
                close_display: true,
                error: ConnectToXError::NoXlibXcb,
            },
            ConnectEvent::XcbSetUp(true) => ConnectAction::Done,
            ConnectEvent::XcbSetUp(false) => ConnectAction::Fail {
                close_display: true,
                error: ConnectToXError::Xcb,
            },
        },
{
    match event {
        ConnectEvent::DisplayOpened(open) => {
            if open {
                ConnectAction::GetXcb
            } else {
                ConnectAction::Fail {
                    close_display: false,
                    error: ConnectToXError::XlibNoConnection,
                }
            }
        },
        ConnectEvent::XcbFound(found) => {
            if found {
                ConnectAction::SetUpXcb
            } else {
                ConnectAction::Fail { close_display: true, error: ConnectToXError::NoXlibXcb }
            }
        },
        ConnectEvent::XcbSetUp(usable) => {
            if usable {
                ConnectAction::Done
            } else {
                ConnectAction::Fail { close_display: true, error: ConnectToXError::Xcb }
            }
        },
    }
}

} // verus!
