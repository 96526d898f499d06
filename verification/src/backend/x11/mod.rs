//! The X11 backend: a window on an X server that a compositor outputs to and takes input from.
//!
//! Whoever drives the backend talks to the X server: it makes the requests that are returned and
//! reports the events and replies.

use vstd::prelude::*;

use self::error::{CreateWindowError, MissingExtensionError};
use self::input::{
    Axis, ButtonState, InputEvent, KeyState, MouseButton, X11KeyboardInputEvent, X11MouseInputEvent,
    X11MouseMovedEvent, X11MouseWheelEvent,
};
use self::window_inner::{Atoms, Request, WindowIds, WindowInner};
use crate::backend::allocator::{FOURCC_ARGB8888, FOURCC_XRGB8888};
use crate::utils::Size;

pub mod buffer;
pub mod connection;
pub mod drm;
pub mod error;
pub mod input;
pub mod laws;
pub mod surface;
pub mod window_inner;
pub mod window_laws;

verus! {

/// The major version of DRI3 that is asked for.
pub const DRI3_MAJOR_VERSION: u32 = 1;

/// The minor version of DRI3 that is needed.
pub const DRI3_MINOR_VERSION: u32 = 2;

/// The major version of XFIXES that is needed.
pub const XFIXES_MAJOR_VERSION: u32 = 4;

/// The minor version of XFIXES that is asked for.
pub const XFIXES_MINOR_VERSION: u32 = 0;

/// The name of the extension DRI3.
pub const DRI3_NAME: &'static str = "DRI3";

/// The name of the extension XFIXES.
pub const XFIXES_NAME: &'static str = "XFIXES";

/// The class of a visual whose pixels are split into fixed parts for red, green and blue.
pub const VISUAL_CLASS_TRUE_COLOR: u8 = 4;

/// By how much the key codes of X11 exceed those of libinput.
pub const KEYCODE_OFFSET: u8 = 8;

/// Properties defining initial information about the window created by the X11 backend.
#[derive(Debug, Clone, Copy)]
pub struct WindowProperties<'a> {
    /// The size of the window.
    pub size: Size<u16>,
    /// The title of the window.
    pub title: &'a str,
}

impl Default for WindowProperties<'_> {
    fn default() -> (r: Self)
        ensures
            r.size.w == 1280,
            r.size.h == 800,
            r.title@ == "Smithay"@,
    {
        WindowProperties { size: Size { w: 1280, h: 800 }, title: "Smithay" }
    }
}

/// An event emitted by the X11 backend.
#[derive(Debug, Clone, Copy, PartialEq, Eq)]
pub enum X11Event {
    /// The X server has required the compositor to redraw the contents of the window.
    Refresh,
    /// An input event occurred.
    Input(InputEvent),
    /// The window was resized.
    Resized(Size<u16>),
    /// The window has received a request to be closed.
    CloseRequested,
}

/// An event of the X server.
#[derive(Debug, Clone, Copy)]
pub enum Event {
    /// A button was pressed.
    ButtonPress {
        /// The window that the event is reported for.
        event: u32,
        /// The button.
        detail: u8,
        /// The time.
        time: u32,
    },
    /// A button was released.
    ButtonRelease {
        /// The window that the event is reported for.
        event: u32,
        /// The button.
        detail: u8,
        /// The time.
        time: u32,
    },
    /// A key was pressed.
    KeyPress {
        /// The window that the event is reported for.
        event: u32,
        /// The key code.
        detail: u8,
        /// The time.
        time: u32,
    },
    /// A key was released.
    KeyRelease {
        /// The window that the event is reported for.
        event: u32,
        /// The key code.
        detail: u8,
        /// The time.
        time: u32,
    },
    /// The pointer was moved.
    MotionNotify {
        /// The window that the event is reported for.
        event: u32,
        /// The time.
        time: u32,
        /// The horizontal position in the window.
        event_x: i16,
        /// The vertical position in the window.
        event_y: i16,
    },
    /// The window was moved or resized.
    ConfigureNotify {
        /// The window.
        window: u32,
        /// The width.
        width: u16,
        /// The height.
        height: u16,
    },
    /// A message of another client.
    ClientMessage {
        /// The window.
        window: u32,
        /// The first number of the message.
        data: u32,
    },
    /// A part of the window has to be drawn again.
    Expose {
        /// The window.
        window: u32,
        /// How many more parts follow.
        count: u16,
    },
    /// A request failed.
    Error,
    /// Any other event.
    Other,
}

/// A visual of a screen.
#[derive(Debug, Clone, Copy, PartialEq, Eq)]
pub struct Visual {
    /// The id.
    pub visual_id: u32,
    /// The class.
    pub class: u8,
}

/// A depth of a screen.
pub struct Depth {
    /// The number of bits.
    pub depth: u8,
    /// The visuals of the depth.
    pub visuals: Vec<Visual>,
}

/// A screen of the X server.
pub struct Screen {
    /// The number of the screen.
    pub number: usize,
    /// The root window.
    pub root: u32,
    /// The depths that windows can have.
    pub allowed_depths: Vec<Depth>,
}

/// The depth, visual and format of a window.
#[derive(Debug, Clone, Copy, PartialEq, Eq)]
pub struct WindowFormat {
    /// The depth.
    pub depth: u8,
    /// The visual.
    pub visual_id: u32,
    /// The fourcc of the format of buffers.
    pub format: u32,
}

/// An active connection to the X server, to manage events on the window provided by the backend.
pub struct X11Backend {
    /// The number of the screen.
    pub screen_number: usize,
    /// The window.
    pub window: WindowInner,
    /// The sizes that the window has had and that were not received by the surface yet, the latest
    /// last.
    pub resize: Vec<Size<u16>>,
    /// How many keys are pressed.
    pub key_counter: u32,
    /// The depth, visual and format of the window.
    pub format: WindowFormat,
}

/// Depth `i` is the best of a list: the first of 32 bits, or the first of 24 bits where there is
/// none of 32 bits.
pub open spec fn is_best_depth(depths: Seq<Depth>, i: int) -> bool {
    &&& 0 <= i < depths.len()
    &&& ({
        ||| depths[i].depth == 32 && forall|j: int|
            0 <= j < i ==> (#[trigger] depths[j]).depth != 32
        ||| depths[i].depth == 24 && (forall|j: int|
            0 <= j < depths.len() ==> (#[trigger] depths[j]).depth != 32) && (forall|j: int|
            0 <= j < i ==> (#[trigger] depths[j]).depth != 24)
    })
}

/// No depth of a list has 24 or 32 bits.
pub open spec fn no_usable_depth(depths: Seq<Depth>) -> bool {
    forall|j: int|
        0 <= j < depths.len() ==> (#[trigger] depths[j]).depth != 32 && depths[j].depth != 24
}

/// Visual `i` is the first true color visual of a list.
pub open spec fn is_first_true_color(visuals: Seq<Visual>, i: int) -> bool {
    &&& 0 <= i < visuals.len()
    &&& visuals[i].class == VISUAL_CLASS_TRUE_COLOR
    &&& forall|j: int| 0 <= j < i ==> (#[trigger] visuals[j]).class != VISUAL_CLASS_TRUE_COLOR
}

/// No visual of a list has true color.
pub open spec fn no_true_color(visuals: Seq<Visual>) -> bool {
    forall|j: int|
        0 <= j < visuals.len() ==> (#[trigger] visuals[j]).class != VISUAL_CLASS_TRUE_COLOR
}

/// The fourcc of a depth.
pub open spec fn format_of_depth(depth: u8) -> u32 {
    if depth == 32 {
        FOURCC_ARGB8888
    } else {
        FOURCC_XRGB8888
    }
}

/// A window looks as is best for a list of depths: it has the best depth and the first true color
/// visual of that depth.
pub open spec fn is_best_format(depths: Seq<Depth>, format: WindowFormat) -> bool {
    exists|i: int, k: int|
        {
            &&& #[trigger] is_best_depth(depths, i)
            &&& #[trigger] is_first_true_color(depths[i].visuals@, k)
            &&& format == (WindowFormat {
                depth: depths[i].depth,
                visual_id: depths[i].visuals@[k].visual_id,
                format: format_of_depth(depths[i].depth),
            })
        }
}

/// The best depth of a list has no true color visual.
pub open spec fn best_depth_lacks_visual(depths: Seq<Depth>) -> bool {
    exists|i: int| #[trigger] is_best_depth(depths, i) && no_true_color(depths[i].visuals@)
}

/// The best depth of a list: see `is_best_depth`.
fn best_depth(depths: &Vec<Depth>) -> (r: Option<usize>)
    ensures
        match r {
            Some(i) => is_best_depth(depths@, i as int),
            None => no_usable_depth(depths@),
        },
{
    let mut best: Option<usize> = None;
    let mut i: usize = 0;
    while i < depths.len()
        invariant
            i <= depths@.len(),
            match best {
                Some(k) => k < i && is_best_depth(depths@.take(i as int), k as int),
                None => no_usable_depth(depths@.take(i as int)),
            },
        decreases depths@.len() - i,
    {
        let ghost done = depths@.take(i as int);
        let ghost next = depths@.take(i + 1);
        assert(forall|j: int| 0 <= j < i ==> done[j] == #[trigger] next[j]);
        assert(next[i as int] == depths@[i as int]);
        let depth: u8 = depths[i].depth;
        if depth == 32 {
            match best {
                Some(k) => {
                    // If the depth value is higher, it is the new best depth
                    if depths[k].depth != 32 {
                        best = Some(i);
                    }
                },
                None => {
                    best = Some(i);
                },
            }
        } else if depth == 24 {
            // Keep the existing depth as it may be 32 bit or already 24 bit
            if best.is_none() {
                best = Some(i);
            }
        }
        i = i + 1;
    }
    assert(depths@.take(i as int) =~= depths@);
    best
}

/// The first true color visual of a list: see `is_first_true_color`.
fn first_true_color(visuals: &Vec<Visual>) -> (r: Option<usize>)
    ensures
        match r {
            Some(i) => is_first_true_color(visuals@, i as int),
            None => no_true_color(visuals@),
        },
{
    let mut i: usize = 0;
    while i < visuals.len()
        invariant
            i <= visuals@.len(),
            forall|j: int|
                0 <= j < i ==> (#[trigger] visuals@[j]).class != VISUAL_CLASS_TRUE_COLOR,
        decreases visuals@.len() - i,
    {
        if visuals[i].class == VISUAL_CLASS_TRUE_COLOR {
            return Some(i);
        }
        i = i + 1;
    }
    None
}

/// The depth, visual and format that the window is to have.
///
/// 32 bits are preferred to 24. Fails if there is neither, or if the depth has no true color
/// visual.
pub fn select_format(depths: &Vec<Depth>) -> (r: Result<WindowFormat, CreateWindowError>)
    ensures
        match r {
            Ok(format) => is_best_format(depths@, format),
            Err(CreateWindowError::NoDepth) => no_usable_depth(depths@),
            Err(CreateWindowError::NoVisual) => best_depth_lacks_visual(depths@),
        },
{
    match best_depth(depths) {
        None => Err(CreateWindowError::NoDepth),
        Some(i) => {
            let depth: u8 = depths[i].depth;
            assert(is_best_depth(depths@, i as int));
            match first_true_color(&depths[i].visuals) {
                None => Err(CreateWindowError::NoVisual),
                Some(k) => {
                    assert(is_first_true_color(depths@[i as int].visuals@, k as int));
                    let visual: Visual = depths[i].visuals[k];
                    Ok(
                        WindowFormat {
                            depth,
                            visual_id: visual.visual_id,
                            format: if depth == 32 {
                                FOURCC_ARGB8888
                            } else {
                                FOURCC_XRGB8888
                            },
                        },
                    )
                },
            }
        },
    }
}

/// A list of depths has at most one best depth, and a list of visuals at most one first true color
/// visual.
pub proof fn selection_is_unique(depths: Seq<Depth>, visuals: Seq<Visual>, i: int, j: int)
    ensures
        is_best_depth(depths, i) && is_best_depth(depths, j) ==> i == j,
        is_first_true_color(visuals, i) && is_first_true_color(visuals, j) ==> i == j,
{
    if is_best_depth(depths, i) && is_best_depth(depths, j) && i != j {
        assert(depths[i].depth == 32 || depths[i].depth == 24);
        assert(depths[j].depth == 32 || depths[j].depth == 24);
    }
    if is_first_true_color(visuals, i) && is_first_true_color(visuals, j) && i != j {
        assert(visuals[i].class == visuals[j].class);
    }
}

/// Checks for the extension XFIXES, by the version that the X server has of it, if it has it.
pub fn check_xfixes(version: Option<(u32, u32)>) -> (r: Result<(), MissingExtensionError>)
    ensures
        r == match version {
            None => Err::<(), MissingExtensionError>(
                MissingExtensionError::NotFound {
                    name: XFIXES_NAME,
                    major: XFIXES_MAJOR_VERSION,
                    minor: XFIXES_MINOR_VERSION,
                },
            ),
            Some((major, minor)) => if major < XFIXES_MAJOR_VERSION {
                Err::<(), MissingExtensionError>(
                    MissingExtensionError::WrongVersion {
                        name: XFIXES_NAME,
                        required_major: XFIXES_MAJOR_VERSION,
                        required_minor: XFIXES_MINOR_VERSION,
                        available_major: major,
                        available_minor: minor,
                    },
                )
            } else {
                Ok::<(), MissingExtensionError>(())
            },
        },
{
    match version {
        None => Err(
            MissingExtensionError::NotFound {
                name: XFIXES_NAME,
                major: XFIXES_MAJOR_VERSION,
                minor: XFIXES_MINOR_VERSION,
            },
        ),
        Some((major, minor)) => {
            if major < XFIXES_MAJOR_VERSION {
                Err(
                    MissingExtensionError::WrongVersion {
                        name: XFIXES_NAME,
                        required_major: XFIXES_MAJOR_VERSION,
                        required_minor: XFIXES_MINOR_VERSION,
                        available_major: major,
                        available_minor: minor,
                    },
                )
            } else {
                Ok(())
            }
        },
    }
}

/// Checks for the extension DRI3, by the version that the X server has of it, if it has it.
///
/// The server answers with at most the version that was asked for, so only the minor version
/// counts.
pub fn check_dri3(version: Option<(u32, u32)>) -> (r: Result<(), MissingExtensionError>)
    ensures
        r == match version {
            None => Err::<(), MissingExtensionError>(
                MissingExtensionError::NotFound {
                    name: DRI3_NAME,
                    major: DRI3_MAJOR_VERSION,
                    minor: DRI3_MINOR_VERSION,
                },
            ),
            Some((major, minor)) => if minor < DRI3_MINOR_VERSION {
                Err::<(), MissingExtensionError>(
                    MissingExtensionError::WrongVersion {
                        name: DRI3_NAME,
                        required_major: DRI3_MAJOR_VERSION,
                        required_minor: DRI3_MINOR_VERSION,
                        available_major: major,
                        available_minor: minor,
                    },
                )
            } else {
                Ok::<(), MissingExtensionError>(())
            },
        },
{
    match version {
        None => Err(
            MissingExtensionError::NotFound {
                name: DRI3_NAME,
                major: DRI3_MAJOR_VERSION,
                minor: DRI3_MINOR_VERSION,
            },
        ),
        Some((major, minor)) => {
            if minor < DRI3_MINOR_VERSION {
                Err(
                    MissingExtensionError::WrongVersion {
                        name: DRI3_NAME,
                        required_major: DRI3_MAJOR_VERSION,
                        required_minor: DRI3_MINOR_VERSION,
                        available_major: major,
                        available_minor: minor,
                    },
                )
            } else {
                Ok(())
            }
        },
    }
}

/// The X server has an extension in a usable version.
pub open spec fn extensions_usable(xfixes: Option<(u32, u32)>, dri3: Option<(u32, u32)>) -> bool {
    &&& xfixes matches Some((major, _)) && major >= XFIXES_MAJOR_VERSION
    &&& dri3 matches Some((_, minor)) && minor >= DRI3_MINOR_VERSION
}

/// Checks for the extensions that the backend needs, first XFIXES and then DRI3.
pub fn check_for_extensions(xfixes: Option<(u32, u32)>, dri3: Option<(u32, u32)>) -> (r: Result<
    (),
    MissingExtensionError,
>)
    ensures
        r is Ok <==> extensions_usable(xfixes, dri3),
        r matches Err(error) ==> error == match xfixes {
            None => MissingExtensionError::NotFound {
                name: XFIXES_NAME,
                major: XFIXES_MAJOR_VERSION,
                minor: XFIXES_MINOR_VERSION,
            },
            Some((major, minor)) => if major < XFIXES_MAJOR_VERSION {
                MissingExtensionError::WrongVersion {
                    name: XFIXES_NAME,
                    required_major: XFIXES_MAJOR_VERSION,
                    required_minor: XFIXES_MINOR_VERSION,
                    available_major: major,
                    available_minor: minor,
                }
            } else {
                match dri3 {
                    None => MissingExtensionError::NotFound {
                        name: DRI3_NAME,
                        major: DRI3_MAJOR_VERSION,
                        minor: DRI3_MINOR_VERSION,
                    },
                    Some((major, minor)) => MissingExtensionError::WrongVersion {
                        name: DRI3_NAME,
                        required_major: DRI3_MAJOR_VERSION,
                        required_minor: DRI3_MINOR_VERSION,
                        available_major: major,
                        available_minor: minor,
                    },
                }
            },
        },
{
    match check_xfixes(xfixes) {
        Ok(()) => check_dri3(dri3),
        Err(error) => Err(error),
    }
}

/// The button with the given index.
pub open spec fn button_of(detail: u8) -> MouseButton {
    if detail == 1 {
        MouseButton::Left
    } else if detail == 2 {
        MouseButton::Middle
    } else if detail == 3 {
        MouseButton::Right
    } else {
        MouseButton::Other(detail)
    }
}

/// The index is that of a scroll wheel, which X11 counts among the buttons: 4 and 5 scroll
/// vertically, 6 and 7 horizontally.
pub open spec fn is_scroll(detail: u8) -> bool {
    4 <= detail <= 7
}

/// A press of a button, or a tick of a scroll wheel.
pub open spec fn pressed_button(detail: u8, time: u32) -> InputEvent {
    if is_scroll(detail) {
        InputEvent::PointerAxis {
            event: X11MouseWheelEvent {
                time,
                axis: if detail <= 5 {
                    Axis::Vertical
                } else {
                    Axis::Horizontal
                },
                amount: if detail == 4 || detail == 7 {
                    1
                } else {
                    -1i8
                },
            },
        }
    } else {
        InputEvent::PointerButton {
            event: X11MouseInputEvent {
                time,
                button: button_of(detail),
                state: ButtonState::Pressed,
            },
        }
    }
}

/// A release of a button. That of a scroll wheel always follows its press and is of no interest.
pub open spec fn released_button(detail: u8, time: u32) -> Option<InputEvent> {
    if is_scroll(detail) {
        None
    } else {
        Some(
            InputEvent::PointerButton {
                event: X11MouseInputEvent {
                    time,
                    button: button_of(detail),
                    state: ButtonState::Released,
                },
            },
        )
    }
}

impl X11Backend {
    /// A backend with a window on a screen, and the requests that create it.
    ///
    /// See `select_format` for how the window looks and for the errors.
    pub fn new(
        properties: &WindowProperties,
        screen: &Screen,
        atoms: Atoms,
        ids: &WindowIds,
    ) -> (r: Result<(X11Backend, Vec<Request>), CreateWindowError>)
        ensures
            match r {
                Err(CreateWindowError::NoDepth) => no_usable_depth(screen.allowed_depths@),
                Err(CreateWindowError::NoVisual) => best_depth_lacks_visual(screen.allowed_depths@),
                Ok((backend, requests)) => {
                    &&& is_best_format(screen.allowed_depths@, backend.format)
                    &&& backend.screen_number == screen.number
                    &&& backend.resize@.len() == 0
                    &&& backend.key_counter == 0
                    &&& backend.window == (WindowInner {
                        id: ids.window,
                        root: screen.root,
                        atoms,
                        size: properties.size,
                        cursor_visible: true,
                        depth: backend.format.depth,
                        gc: ids.gc,
                    })
                    &&& requests@.len() == 8
                    &&& requests@[0] == (Request::CreateColormap {
                        colormap: ids.colormap,
                        window: screen.root,
                        visual: backend.format.visual_id,
                    })
                    &&& requests@[1] == Request::CreateWindow(
                        window_inner::WindowCreateInfo {
                            depth: backend.format.depth,
                            window: ids.window,
                            parent: screen.root,
                            x: 0,
                            y: 0,
                            width: properties.size.w,
                            height: properties.size.h,
                            border_width: 0,
                            class: window_inner::WINDOW_CLASS_INPUT_OUTPUT,
                            visual: backend.format.visual_id,
                            event_mask: window_inner::WINDOW_EVENT_MASK,
                            border_pixel: 0,
                            colormap: ids.colormap,
                        },
                    )
                    &&& requests@[2] == (Request::CreateGc { gc: ids.gc, drawable: ids.window })
                    &&& window_inner::sets_numbers(
                        requests@[3],
                        ids.window,
                        atoms.wm_protocols,
                        window_inner::ATOM_ATOM,
                        seq![atoms.wm_delete_window],
                    )
                    &&& window_inner::sets_bytes(
                        requests@[4],
                        ids.window,
                        atoms.wm_class,
                        window_inner::ATOM_STRING,
                        vstd::utf8::encode_utf8(window_inner::wm_class()),
                    )
                    &&& window_inner::sets_bytes(
                        requests@[5],
                        ids.window,
                        window_inner::ATOM_WM_NAME,
                        window_inner::ATOM_STRING,
                        vstd::utf8::encode_utf8(properties.title@),
                    )
                    &&& window_inner::sets_bytes(
                        requests@[6],
                        ids.window,
                        atoms.net_wm_name,
                        atoms.utf8_string,
                        vstd::utf8::encode_utf8(properties.title@),
                    )
                    &&& requests@[7] == Request::MapWindow(ids.window)
                },
            },
    {
        let format: WindowFormat = match select_format(&screen.allowed_depths) {
            Ok(format) => format,
            Err(error) => {
                return Err(error);
            },
        };
        let mut requests: Vec<Request> = Vec::new();
        requests.push(
            Request::CreateColormap {
                colormap: ids.colormap,
                window: screen.root,
                visual: format.visual_id,
            },
        );
        let (window, mut created): (WindowInner, Vec<Request>) = WindowInner::new(
            screen.root,
            properties,
            atoms,
            format.depth,
            format.visual_id,
            ids,
        );
        requests.append(&mut created);
        let backend = X11Backend {
            screen_number: screen.number,
            window,
            resize: Vec::new(),
            key_counter: 0,
            format,
        };
        Ok((backend, requests))
    }

    /// Returns the default screen number of the X server.
    pub fn screen(&self) -> (r: usize)
        ensures
            r == self.screen_number,
    {
        self.screen_number
    }

    /// Returns the window this backend handles inputs for.
    pub fn window(&mut self) -> (r: Window<'_>)
        ensures
            r.inner is Some,
            *r.inner->0 == old(self).window,
            *final(self) == (X11Backend { window: *final(r.inner->0), ..*old(self) }),
    {
        Window { inner: Some(&mut self.window) }
    }

    /// Receives the sizes that the window has had since the last time, the latest last.
    pub fn take_resizes(&mut self) -> (r: Vec<Size<u16>>)
        ensures
            r@ == old(self).resize@,
            final(self).resize@.len() == 0,
            *final(self) == (X11Backend { resize: final(self).resize, ..*old(self) }),
    {
        let mut taken: Vec<Size<u16>> = Vec::new();
        taken.append(&mut self.resize);
        assert(taken@ =~= old(self).resize@);
        taken
    }

    /// What an event of the X server means for the window, if anything.
    pub open spec fn reported(&self, event: Event) -> Option<X11Event> {
        let id = self.window.id;
        match event {
            Event::ButtonPress { event, detail, time } if event == id => Some(
                X11Event::Input(pressed_button(detail, time)),
            ),
            Event::ButtonRelease { event, detail, time } if event == id => match released_button(
                detail,
                time,
            ) {
                Some(input) => Some(X11Event::Input(input)),
                None => None,
            },
            Event::KeyPress { event, detail, time } if event == id => Some(
                X11Event::Input(
                    InputEvent::Keyboard {
                        event: X11KeyboardInputEvent {
                            time,
                            key: (detail - KEYCODE_OFFSET) as u32,
                            count: (self.key_counter + 1) as u32,
                            state: KeyState::Pressed,
                        },
                    },
                ),
            ),
            Event::KeyRelease { event, detail, time } if event == id => Some(
                X11Event::Input(
                    InputEvent::Keyboard {
                        event: X11KeyboardInputEvent {
                            time,
                            key: (detail - KEYCODE_OFFSET) as u32,
                            count: if self.key_counter == 0 {
                                0
                            } else {
                                (self.key_counter - 1) as u32
                            },
                            state: KeyState::Released,
                        },
                    },
                ),
            ),
            Event::MotionNotify { event, time, event_x, event_y } if event == id => Some(
                X11Event::Input(
                    InputEvent::PointerMotionAbsolute {
                        event: X11MouseMovedEvent {
                            time,
                            x: event_x,
                            y: event_y,
                            size: self.window.size,
                        },
                    },
                ),
            ),
            Event::ConfigureNotify { window, width, height } if window == id && (Size {
                w: width,
                h: height,
            }) != self.window.size => Some(X11Event::Resized(Size { w: width, h: height })),
            Event::ClientMessage { window, data } if window == id && data
                == self.window.atoms.wm_delete_window => Some(X11Event::CloseRequested),
            Event::Expose { window, count } if window == id && count == 0 => Some(
                X11Event::Refresh,
            ),
            _ => None,
        }
    }

    /// An event can be processed: a key code is one that X11 has, and the keys that are pressed can
    /// be counted.
    pub open spec fn accepts(&self, event: Event) -> bool {
        match event {
            Event::KeyPress { event, detail, .. } => event == self.window.id ==> detail
                >= KEYCODE_OFFSET && self.key_counter < u32::MAX,
            Event::KeyRelease { event, detail, .. } => event == self.window.id ==> detail
                >= KEYCODE_OFFSET,
            _ => true,
        }
    }

    /// Whether an event can be processed: see `accepts`.
    pub fn can_process(&self, event: &Event) -> (r: bool)
        ensures
            r == self.accepts(*event),
    {
        match event {
            Event::KeyPress { event, detail, .. } => *event != self.window.id || *detail
                >= KEYCODE_OFFSET && self.key_counter < u32::MAX,
            Event::KeyRelease { event, detail, .. } => *event != self.window.id || *detail
                >= KEYCODE_OFFSET,
            _ => true,
        }
    }

    /// Processes an event of the X server.
    ///
    /// Events for other windows are ignored. The number of pressed keys and the size of the window
    /// are kept up to date, and the surface is told of a resize.
    pub fn process_event(&mut self, event: &Event) -> (r: Option<X11Event>)
        requires
            old(self).accepts(*event),
        ensures
            r == old(self).reported(*event),
            final(self).key_counter == match r {
                Some(X11Event::Input(InputEvent::Keyboard { event })) => event.count,
                _ => old(self).key_counter,
            },
            final(self).window == match r {
                Some(X11Event::Resized(size)) => WindowInner { size, ..old(self).window },
                _ => old(self).window,
            },
            final(self).resize@ == match r {
                Some(X11Event::Resized(size)) => old(self).resize@.push(size),
                _ => old(self).resize@,
            },
            final(self).screen_number == old(self).screen_number,
            final(self).format == old(self).format,
    {
        match event {
            Event::ButtonPress { event, detail, time } => {
                if *event != self.window.id {
                    return None;
                }
                Some(X11Event::Input(button_pressed(*detail, *time)))
            },
            Event::ButtonRelease { event, detail, time } => {
                if *event != self.window.id {
                    return None;
                }
                match button_released(*detail, *time) {
                    Some(input) => Some(X11Event::Input(input)),
                    None => None,
                }
            },
            Event::KeyPress { event, detail, time } => {
                if *event != self.window.id {
                    return None;
                }
                self.key_counter = self.key_counter + 1;
                Some(
                    X11Event::Input(
                        InputEvent::Keyboard {
                            event: X11KeyboardInputEvent {
                                time: *time,
                                key: (*detail - KEYCODE_OFFSET) as u32,
                                count: self.key_counter,
                                state: KeyState::Pressed,
                            },
                        },
                    ),
                )
            },
            Event::KeyRelease { event, detail, time } => {
                if *event != self.window.id {
                    return None;
                }
                self.key_counter = self.key_counter.saturating_sub(1);
                Some(
                    X11Event::Input(
                        InputEvent::Keyboard {
                            event: X11KeyboardInputEvent {
                                time: *time,
                                key: (*detail - KEYCODE_OFFSET) as u32,
                                count: self.key_counter,
                                state: KeyState::Released,
                            },
                        },
                    ),
                )
            },
            Event::MotionNotify { event, time, event_x, event_y } => {
                if *event != self.window.id {
                    return None;
                }
                // The position is relative to the window that receives the event.
                Some(
                    X11Event::Input(
                        InputEvent::PointerMotionAbsolute {
                            event: X11MouseMovedEvent {
                                time: *time,
                                x: *event_x,
                                y: *event_y,
                                size: self.window.size,
                            },
                        },
                    ),
                )
            },
            Event::ConfigureNotify { window, width, height } => {
                if *window != self.window.id {
                    return None;
                }
                let size = Size { w: *width, h: *height };
                // Did the size of the window change?
                if size.w != self.window.size.w || size.h != self.window.size.h {
                    self.window.size = size;
                    self.resize.push(size);
                    Some(X11Event::Resized(size))
                } else {
                    None
                }
            },
            Event::ClientMessage { window, data } => {
                // Destroy the window?
                if *data == self.window.atoms.wm_delete_window && *window == self.window.id {
                    Some(X11Event::CloseRequested)
                } else {
                    None
                }
            },
            Event::Expose { window, count } => {
                if *window == self.window.id && *count == 0 {
                    Some(X11Event::Refresh)
                } else {
                    None
                }
            },
            Event::Error => None,
            Event::Other => None,
        }
    }
}

/// The button with the given index: see `button_of`.
fn mouse_button(detail: u8) -> (r: MouseButton)
    ensures
        r == button_of(detail),
{
    match detail {
        1 => MouseButton::Left,
        2 => MouseButton::Middle,
        3 => MouseButton::Right,
        _ => MouseButton::Other(detail),
    }
}

/// A press of a button, or a tick of a scroll wheel: see `pressed_button`.
fn button_pressed(detail: u8, time: u32) -> (r: InputEvent)
    ensures
        r == pressed_button(detail, time),
{
    match detail {
        4 | 5 | 6 | 7 => InputEvent::PointerAxis {
            event: X11MouseWheelEvent {
                time,
                axis: match detail {
                    // Up | Down
                    4 | 5 => Axis::Vertical,
                    // Left | Right
                    _ => Axis::Horizontal,
                },
                amount: match detail {
                    // Up | Right
                    4 | 7 => 1,
                    // Down | Left
                    _ => -1,
                },
            },
        },
        _ => InputEvent::PointerButton {
            event: X11MouseInputEvent {
                time,
                button: mouse_button(detail),
                state: ButtonState::Pressed,
            },
        },
    }
}

/// A release of a button: see `released_button`.
fn button_released(detail: u8, time: u32) -> (r: Option<InputEvent>)
    ensures
        r == released_button(detail, time),
{
    match detail {
        4 | 5 | 6 | 7 => None,
        _ => Some(
            InputEvent::PointerButton {
                event: X11MouseInputEvent {
                    time,
                    button: mouse_button(detail),
                    state: ButtonState::Released,
                },
            },
        ),
    }
}

/// Releasing a key after pressing it brings the number of pressed keys back.
pub proof fn release_undoes_press(
    before: X11Backend,
    between: X11Backend,
    press: Event,
    release: Event,
)
    requires
        before.accepts(press),
        between.accepts(release),
        press matches Event::KeyPress { event, .. } && event == before.window.id,
        release matches Event::KeyRelease { event, .. } && event == between.window.id,
        before.reported(press) matches Some(
            X11Event::Input(InputEvent::Keyboard { event }),
        ) && event.count == between.key_counter,
    ensures
        between.reported(release) matches Some(
            X11Event::Input(InputEvent::Keyboard { event }),
        ) && event.count == before.key_counter && event.state == KeyState::Released,
{
}

/// A change of the size is reported once: as long as the window has that size, the same event is
/// not reported again.
pub proof fn resize_is_reported_once(before: X11Backend, after: X11Backend, event: Event)
    requires
        event is ConfigureNotify,
        after.window == match before.reported(event) {
            Some(X11Event::Resized(size)) => WindowInner { size, ..before.window },
            _ => before.window,
        },
    ensures
        after.reported(event) is None,
{
}

/// Nothing is reported of an event for another window.
pub proof fn other_windows_are_ignored(backend: X11Backend, event: Event)
    requires
        match event {
            Event::ButtonPress { event, .. } => event != backend.window.id,
            Event::ButtonRelease { event, .. } => event != backend.window.id,
            Event::KeyPress { event, .. } => event != backend.window.id,
            Event::KeyRelease { event, .. } => event != backend.window.id,
            Event::MotionNotify { event, .. } => event != backend.window.id,
            Event::ConfigureNotify { window, .. } => window != backend.window.id,
            Event::ClientMessage { window, .. } => window != backend.window.id,
            Event::Expose { window, .. } => window != backend.window.id,
            _ => true,
        },
    ensures
        backend.reported(event) is None,
        backend.accepts(event),
{
}

/// A handle to the window, for as long as the window exists.
pub struct Window<'a> {
    /// The window, if it exists.
    pub inner: Option<&'a mut WindowInner>,
}

impl<'a> Window<'a> {
    /// Sets the title of the window.
    pub fn set_title(&self, title: &str, connected: bool) -> (r: Vec<Request>)
        ensures
            self.inner is None || !connected ==> r@.len() == 0,
            self.inner is Some && connected ==> {
                let inner = *old(self.inner->0);
                &&& r@.len() == 2
                &&& window_inner::sets_bytes(
                    r@[0],
                    inner.id,
                    window_inner::ATOM_WM_NAME,
                    window_inner::ATOM_STRING,
                    vstd::utf8::encode_utf8(title@),
                )
                &&& window_inner::sets_bytes(
                    r@[1],
                    inner.id,
                    inner.atoms.net_wm_name,
                    inner.atoms.utf8_string,
                    vstd::utf8::encode_utf8(title@),
                )
            },
    {
        match &self.inner {
            Some(inner) => inner.set_title(title, connected),
            None => Vec::new(),
        }
    }

    /// Maps the window, making it visible.
    pub fn map(&self, connected: bool) -> (r: Vec<Request>)
        ensures
            r@ == match self.inner {
                Some(inner) if connected => seq![Request::MapWindow(inner.id)],
                _ => Seq::empty(),
            },
    {
        match &self.inner {
            Some(inner) => inner.map(connected),
            None => Vec::new(),
        }
    }

    /// Unmaps the window, making it invisible.
    pub fn unmap(&self, connected: bool) -> (r: Vec<Request>)
        ensures
            r@ == match self.inner {
                Some(inner) if connected => seq![
                    Request::UnmapWindow(inner.id),
                    Request::SendUnmapNotify {
                        destination: inner.id,
                        event_mask: window_inner::STRUCTURE_EVENT_MASK,
                        event: inner.root,
                        window: inner.id,
                    },
                ],
                _ => Seq::empty(),
            },
    {
        match &self.inner {
            Some(inner) => inner.unmap(connected),
            None => Vec::new(),
        }
    }

    /// Returns the size of this window.
    ///
    /// If the window has been destroyed, the size is `0 x 0`.
    pub fn size(&self) -> (r: Size<u16>)
        ensures
            r == match self.inner {
                Some(inner) => inner.size,
                None => Size { w: 0, h: 0 },
            },
    {
        match &self.inner {
            Some(inner) => inner.size(),
            None => Size { w: 0, h: 0 },
        }
    }

    /// Changes the visibility of the cursor within the confines of the window.
    ///
    /// If `false`, this will hide the cursor. If `true`, this will show the cursor.
    pub fn set_cursor_visible(self, visible: bool, connected: bool) -> (r: Option<Request>)
        ensures
            self.inner is None ==> r is None,
            self.inner is Some ==> {
                let before = *old(self.inner->0);
                &&& *final(self.inner->0) == (WindowInner {
                    cursor_visible: if connected {
                        visible
                    } else {
                        before.cursor_visible
                    },
                    ..before
                })
                &&& r == if connected && before.cursor_visible != visible {
                    Some(
                        if visible {
                            Request::ShowCursor(before.id)
                        } else {
                            Request::HideCursor(before.id)
                        },
                    )
                } else {
                    None::<Request>
                }
            },
    {
        match self.inner {
            Some(inner) => inner.set_cursor_visible(visible, connected),
            None => None,
        }
    }

    /// Returns the XID of the window, or 0 if it has been destroyed.
    pub fn id(&self) -> (r: u32)
        ensures
            r == match self.inner {
                Some(inner) => inner.id,
                None => 0,
            },
    {
        match &self.inner {
            Some(inner) => inner.id,
            None => 0,
        }
    }

    /// Returns the depth of this window, or 0 if it has been destroyed.
    pub fn depth(&self) -> (r: u8)
        ensures
            r == match self.inner {
                Some(inner) => inner.depth,
                None => 0,
            },
    {
        match &self.inner {
            Some(inner) => inner.depth,
            None => 0,
        }
    }

    /// Returns the graphics context used to draw to this window, or 0 if it has been destroyed.
    pub fn gc(&self) -> (r: u32)
        ensures
            r == match self.inner {
                Some(inner) => inner.gc,
                None => 0,
            },
    {
        match &self.inner {
            Some(inner) => inner.gc,
            None => 0,
        }
    }

    /// Whether two handles are to the same window, which exists.
    pub fn is_same(&self, other: &Window) -> (r: bool)
        ensures
            r == match (self.inner, other.inner) {
                (Some(a), Some(b)) => a.id == b.id,
                _ => false,
            },
    {
        match &self.inner {
            Some(a) => match &other.inner {
                Some(b) => a.is_same(b),
                None => false,
            },
            None => false,
        }
    }
}

} // verus!
