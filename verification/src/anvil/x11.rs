//! What the compositor does with the events of its window, and what it does in each round of its
//! main loop.

use vstd::prelude::*;

use crate::backend::renderer::Transform;
use crate::backend::x11::input::InputEvent;
use crate::backend::x11::surface::X11Surface;
use crate::backend::x11::{WindowProperties, X11Event};
use crate::utils::Size;

verus! {

/// The name of the output.
pub const OUTPUT_NAME: &'static str = "x11";

/// The refresh rate of the output, in thousandths of a hertz.
pub const REFRESH: i32 = 60_000;

/// How long events are waited for in each round, in milliseconds.
pub const DISPATCH_TIMEOUT: u64 = 16;

/// The mode of an output.
#[derive(Debug, Clone, Copy, PartialEq, Eq)]
pub struct Mode {
    /// The size in pixels.
    pub size: Size<i32>,
    /// The refresh rate, in thousandths of a hertz.
    pub refresh: i32,
}

/// What an output is physically.
#[derive(Debug, Clone, Copy)]
pub struct PhysicalProperties {
    /// The size in millimeters.
    pub size: Size<i32>,
    /// The manufacturer.
    pub make: &'static str,
    /// The model.
    pub model: &'static str,
}

/// The window, and what the compositor needs to draw to it.
#[derive(Debug, Clone, Copy)]
pub struct X11Data {
    /// The mode of the output.
    pub mode: Mode,
    /// The surface that is drawn to.
    pub surface: X11Surface,
    /// Whether the main loop goes on.
    pub running: bool,
}

/// What to do about an event of the window.
#[derive(Debug, Clone, Copy, PartialEq, Eq)]
pub enum EventAction {
    /// The compositor is to end.
    Stop,
    /// The output has another mode. After it is updated, the layers are to be arranged anew.
    UpdateMode(Mode),
    /// The input is to be processed.
    ProcessInput(InputEvent),
    /// Nothing.
    Ignore,
}

/// What to draw in a round.
#[derive(Debug, Clone, Copy, PartialEq, Eq)]
pub struct FramePlan {
    /// The size of the frame.
    pub size: Size<i32>,
    /// The transformation of the frame.
    pub transform: Transform,
    /// The buffer that is drawn to.
    pub buffer: u64,
}

/// The mode of an output that covers a window of the given size.
pub open spec fn mode_of(size: Size<u16>) -> Mode {
    Mode { size: Size { w: size.w as i32, h: size.h as i32 }, refresh: REFRESH }
}

/// The mode of an output that covers a window of the given size.
fn window_mode(size: &Size<u16>) -> (r: Mode)
    ensures
        r == mode_of(*size),
{
    Mode { size: Size { w: size.w as i32, h: size.h as i32 }, refresh: REFRESH }
}

/// The window that the compositor asks for: as by default, under its own title.
pub fn window_properties() -> (r: WindowProperties<'static>)
    ensures
        r.size.w == 1280,
        r.size.h == 800,
        r.title@ == "Anvil"@,
{
    let default = WindowProperties::default();
    WindowProperties { size: default.size, title: "Anvil" }
}

/// What the output is physically.
pub fn physical_properties() -> (r: PhysicalProperties)
    ensures
        r.size == (Size { w: 0i32, h: 0i32 }),
        r.make@ == "Smithay"@,
        r.model@ == "X11"@,
{
    PhysicalProperties { size: Size { w: 0, h: 0 }, make: "Smithay", model: "X11" }
}

/// The time of a frame, in milliseconds since the start. It starts anew when it gets out of range.
pub fn frame_time(elapsed: u128) -> (r: u32)
    ensures
        r == elapsed % 0x1_0000_0000,
{
    (elapsed % 0x1_0000_0000) as u32
}

impl X11Data {
    /// The compositor at its start, with a surface for a window of the given size.
    pub fn new(window_size: &Size<u16>, surface: X11Surface) -> (r: X11Data)
        ensures
            r == (X11Data { mode: mode_of(*window_size), surface, running: true }),
    {
        X11Data { mode: window_mode(window_size), surface, running: true }
    }

    /// The name of the seat.
    pub fn seat_name(&self) -> (r: String)
        ensures
            r@ == "x11"@,
    {
        "x11".to_owned()
    }

    /// The compositor after an event of the window: a request to close the window ends it, and the
    /// output covers the window when that is resized.
    pub open spec fn after_event(self, event: X11Event) -> X11Data {
        match event {
            X11Event::CloseRequested => X11Data { running: false, ..self },
            X11Event::Resized(size) => X11Data { mode: mode_of(size), ..self },
            _ => self,
        }
    }

    /// The compositor after events were waited for: a failure ends it.
    pub open spec fn after_dispatch(self, success: bool) -> X11Data {
        X11Data { running: self.running && success, ..self }
    }

    /// Processes an event of the window.
    pub fn handle_event(&mut self, event: &X11Event) -> (r: EventAction)
        ensures
            *final(self) == old(self).after_event(*event),
            r == match event {
                X11Event::CloseRequested => EventAction::Stop,
                X11Event::Resized(size) => EventAction::UpdateMode(mode_of(*size)),
                X11Event::Input(input) => EventAction::ProcessInput(*input),
                X11Event::Refresh => EventAction::Ignore,
            },
    {
        match event {
            X11Event::CloseRequested => {
                self.running = false;
                EventAction::Stop
            },
            X11Event::Resized(size) => {
                let mode: Mode = window_mode(size);
                self.mode = mode;
                EventAction::UpdateMode(mode)
            },
            X11Event::Input(input) => EventAction::ProcessInput(*input),
            X11Event::Refresh => EventAction::Ignore,
        }
    }

    /// What to draw in the next round, if there is one.
    ///
    /// The buffers of the surface fit its size by then, see `X11Surface::prepare_present`. X11 is upside
    /// down, so the frame is flipped.
    pub fn next_frame(&self) -> (r: Option<FramePlan>)
        ensures
            r == if self.running {
                Some(
                    FramePlan {
                        size: self.mode.size,
                        transform: Transform::Flipped180,
                        buffer: self.surface.buffers.next,
                    },
                )
            } else {
                None::<FramePlan>
            },
    {
        if self.running {
            Some(
                FramePlan {
                    size: self.mode.size,
                    transform: Transform::Flipped180,
                    buffer: self.surface.buffers.next,
                },
            )
        } else {
            None
        }
    }

    /// Processes that events were waited for, successfully or not.
    ///
    /// Returns whether the clients are to be flushed and the windows and outputs refreshed. If it
    /// failed, the compositor is to end.
    pub fn dispatched(&mut self, success: bool) -> (r: bool)
        ensures
            r == success,
            *final(self) == old(self).after_dispatch(success),
    {
        if !success {
            self.running = false;
        }
        success
    }
}

/// Once the compositor is to end, it stays so whatever happens.
pub proof fn stop_is_final(data: X11Data, event: X11Event, success: bool)
    requires
        !data.running,
    ensures
        !data.after_event(event).running,
        !data.after_dispatch(success).running,
{
}

} // verus!
