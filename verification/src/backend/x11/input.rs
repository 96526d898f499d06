//! Input events of the X11 backend.

use vstd::prelude::*;

use crate::utils::Size;

verus! {

/// Whether a key is pressed.
#[derive(Debug, Clone, Copy, PartialEq, Eq)]
pub enum KeyState {
    /// The key is released.
    Released,
    /// The key is pressed.
    Pressed,
}

/// Whether a button is pressed.
#[derive(Debug, Clone, Copy, PartialEq, Eq)]
pub enum ButtonState {
    /// The button is released.
    Released,
    /// The button is pressed.
    Pressed,
}

/// A button of a mouse.
#[derive(Debug, Clone, Copy, PartialEq, Eq)]
pub enum MouseButton {
    /// The left button.
    Left,
    /// The middle button.
    Middle,
    /// The right button.
    Right,
    /// Another button, with its index.
    Other(u8),
}

/// The axis of a scroll wheel.
#[derive(Debug, Clone, Copy, PartialEq, Eq)]
pub enum Axis {
    /// The wheel scrolls up and down.
    Vertical,
    /// The wheel scrolls left and right.
    Horizontal,
}

/// A key was pressed or released.
#[derive(Debug, Clone, Copy, PartialEq, Eq)]
pub struct X11KeyboardInputEvent {
    /// The time of the event.
    pub time: u32,
    /// The key code.
    pub key: u32,
    /// How many keys are pressed.
    pub count: u32,
    /// Whether the key is pressed.
    pub state: KeyState,
}

/// A scroll wheel was turned.
#[derive(Debug, Clone, Copy, PartialEq, Eq)]
pub struct X11MouseWheelEvent {
    /// The time of the event.
    pub time: u32,
    /// The axis.
    pub axis: Axis,
    /// By how many ticks, up and right being positive.
    pub amount: i8,
}

/// A button was pressed or released.
#[derive(Debug, Clone, Copy, PartialEq, Eq)]
pub struct X11MouseInputEvent {
    /// The time of the event.
    pub time: u32,
    /// The button.
    pub button: MouseButton,
    /// Whether the button is pressed.
    pub state: ButtonState,
}

/// The pointer was moved.
#[derive(Debug, Clone, Copy, PartialEq, Eq)]
pub struct X11MouseMovedEvent {
    /// The time of the event.
    pub time: u32,
    /// The horizontal position in the window.
    pub x: i16,
    /// The vertical position in the window.
    pub y: i16,
    /// The size of the window.
    pub size: Size<u16>,
}

/// An input event.
#[derive(Debug, Clone, Copy, PartialEq, Eq)]
pub enum InputEvent {
    /// A keyboard event.
    Keyboard {
        /// The event.
        event: X11KeyboardInputEvent,
    },
    /// A button of a pointer.
    PointerButton {
        /// The event.
        event: X11MouseInputEvent,
    },
    /// A scroll wheel of a pointer.
    PointerAxis {
        /// The event.
        event: X11MouseWheelEvent,
    },
    /// The position of a pointer.
    PointerMotionAbsolute {
        /// The event.
        event: X11MouseMovedEvent,
    },
}

} // verus!
