//! The window of the backend, and the requests to the X server that are made for it.

use vstd::prelude::*;
use vstd::string::*;

use super::WindowProperties;
use crate::utils::Size;

verus! {

/// What the window is told about: exposure, changes of its structure, keys, buttons and motion of
/// the pointer.
///
/// A request to resize is never redirected to the window: the backend is not a window manager, and
/// the window could not be resized. Resizes are known from the changes of the structure.
pub const WINDOW_EVENT_MASK: u32 = 0x2_804f;

/// The bit of an event mask that redirects requests to resize a window.
pub const EVENT_MASK_RESIZE_REDIRECT: u32 = 0x4_0000;

/// The event mask for changes of a structure and of the structure of its parent.
pub const STRUCTURE_EVENT_MASK: u32 = 0xa_0000;

/// The class of a window that has input and output.
pub const WINDOW_CLASS_INPUT_OUTPUT: u16 = 1;

/// The predefined atom `ATOM`.
pub const ATOM_ATOM: u32 = 4;

/// The predefined atom `STRING`.
pub const ATOM_STRING: u32 = 31;

/// The predefined atom `WM_NAME`.
pub const ATOM_WM_NAME: u32 = 39;

/// The atoms that the backend uses.
#[derive(Debug, Clone, Copy)]
pub struct Atoms {
    /// `WM_PROTOCOLS`.
    pub wm_protocols: u32,
    /// `WM_DELETE_WINDOW`.
    pub wm_delete_window: u32,
    /// `WM_CLASS`.
    pub wm_class: u32,
    /// `_NET_WM_NAME`.
    pub net_wm_name: u32,
    /// `UTF8_STRING`.
    pub utf8_string: u32,
    /// `_SMITHAY_X11_BACKEND_CLOSE`.
    pub smithay_x11_backend_close: u32,
}

/// How a window is created.
#[derive(Debug, Clone, Copy, PartialEq, Eq)]
pub struct WindowCreateInfo {
    /// The depth.
    pub depth: u8,
    /// The id of the window.
    pub window: u32,
    /// The parent.
    pub parent: u32,
    /// The horizontal position.
    pub x: i16,
    /// The vertical position.
    pub y: i16,
    /// The width.
    pub width: u16,
    /// The height.
    pub height: u16,
    /// The width of the border.
    pub border_width: u16,
    /// The class.
    pub class: u16,
    /// The visual.
    pub visual: u32,
    /// What the window is told about.
    pub event_mask: u32,
    /// The color of the border.
    pub border_pixel: u32,
    /// The color map.
    pub colormap: u32,
}

/// A request to the X server.
pub enum Request {
    /// Create a color map for a visual, with no entries allocated.
    CreateColormap {
        /// The id of the color map.
        colormap: u32,
        /// A window of the screen.
        window: u32,
        /// The visual.
        visual: u32,
    },
    /// Create a window.
    CreateWindow(WindowCreateInfo),
    /// Create a graphics context.
    CreateGc {
        /// The id of the graphics context.
        gc: u32,
        /// The window that it is for.
        drawable: u32,
    },
    /// Replace a property that is a list of numbers.
    ChangeProperty32 {
        /// The window.
        window: u32,
        /// The property.
        property: u32,
        /// The type of the property.
        ty: u32,
        /// The numbers.
        data: Vec<u32>,
    },
    /// Replace a property that is a list of bytes.
    ChangeProperty8 {
        /// The window.
        window: u32,
        /// The property.
        property: u32,
        /// The type of the property.
        ty: u32,
        /// The bytes.
        data: Vec<u8>,
    },
    /// Map a window.
    MapWindow(u32),
    /// Unmap a window.
    UnmapWindow(u32),
    /// Send a synthetic event that a window was unmapped.
    SendUnmapNotify {
        /// The window that the event is sent to.
        destination: u32,
        /// Who is told.
        event_mask: u32,
        /// The window that the event is reported for.
        event: u32,
        /// The window that was unmapped.
        window: u32,
    },
    /// Show the cursor in a window.
    ShowCursor(u32),
    /// Hide the cursor in a window.
    HideCursor(u32),
    /// Destroy a window.
    DestroyWindow(u32),
}

/// The ids of the objects that are made for a window.
#[derive(Debug, Clone, Copy)]
pub struct WindowIds {
    /// The window.
    pub window: u32,
    /// The graphics context.
    pub gc: u32,
    /// The color map.
    pub colormap: u32,
}

/// The window of the backend.
pub struct WindowInner {
    /// The id of the window.
    pub id: u32,
    /// The root window of the screen.
    pub root: u32,
    /// The atoms.
    pub atoms: Atoms,
    /// The size of the window.
    pub size: Size<u16>,
    /// Maintains the current cursor visibility state.
    ///
    /// Required since an already enabled cursor cannot be enabled.
    pub cursor_visible: bool,
    /// The depth.
    pub depth: u8,
    /// The graphics context.
    pub gc: u32,
}

/// A request replaces a property by bytes.
pub open spec fn sets_bytes(
    request: Request,
    window: u32,
    property: u32,
    ty: u32,
    data: Seq<u8>,
) -> bool {
    match request {
        Request::ChangeProperty8 { window: w, property: p, ty: t, data: d } => {
            w == window && p == property && t == ty && d@ == data
        },
        _ => false,
    }
}

/// A request replaces a property by numbers.
pub open spec fn sets_numbers(
    request: Request,
    window: u32,
    property: u32,
    ty: u32,
    data: Seq<u32>,
) -> bool {
    match request {
        Request::ChangeProperty32 { window: w, property: p, ty: t, data: d } => {
            w == window && p == property && t == ty && d@ == data
        },
        _ => false,
    }
}

/// The name and the class of the window, each ended by a zero.
pub open spec fn wm_class() -> Seq<char> {
    "Smithay\0Wayland_Compositor\0"@
}

/// The event mask of the window never redirects requests to resize it.
pub proof fn resize_is_not_redirected()
    ensures
        WINDOW_EVENT_MASK & EVENT_MASK_RESIZE_REDIRECT == 0,
{
    assert(0x2_804fu32 & 0x4_0000u32 == 0) by (bit_vector);
}

impl WindowInner {
    /// A window, and the requests that create it.
    ///
    /// The border pixel and the color map are set since the depth may differ from that of the root.
    pub fn new(
        root: u32,
        properties: &WindowProperties,
        atoms: Atoms,
        depth: u8,
        visual_id: u32,
        ids: &WindowIds,
    ) -> (r: (WindowInner, Vec<Request>))
        ensures
            r.0 == (WindowInner {
                id: ids.window,
                root,
                atoms,
                size: properties.size,
                cursor_visible: true,
                depth,
                gc: ids.gc,
            }),
            r.1@.len() == 7,
            r.1@[0] == Request::CreateWindow(
                WindowCreateInfo {
                    depth,
                    window: ids.window,
                    parent: root,
                    x: 0,
                    y: 0,
                    width: properties.size.w,
                    height: properties.size.h,
                    border_width: 0,
                    class: WINDOW_CLASS_INPUT_OUTPUT,
                    visual: visual_id,
                    event_mask: WINDOW_EVENT_MASK,
                    border_pixel: 0,
                    colormap: ids.colormap,
                },
            ),
            r.1@[1] == (Request::CreateGc { gc: ids.gc, drawable: ids.window }),
            sets_numbers(
                r.1@[2],
                ids.window,
                atoms.wm_protocols,
                ATOM_ATOM,
                seq![atoms.wm_delete_window],
            ),
            sets_bytes(
                r.1@[3],
                ids.window,
                atoms.wm_class,
                ATOM_STRING,
                vstd::utf8::encode_utf8(wm_class()),
            ),
            sets_bytes(
                r.1@[4],
                ids.window,
                ATOM_WM_NAME,
                ATOM_STRING,
                vstd::utf8::encode_utf8(properties.title@),
            ),
            sets_bytes(
                r.1@[5],
                ids.window,
                atoms.net_wm_name,
                atoms.utf8_string,
                vstd::utf8::encode_utf8(properties.title@),
            ),
            r.1@[6] == Request::MapWindow(ids.window),
    {
        let window = WindowInner {
            id: ids.window,
            root,
            atoms,
            size: properties.size,
            cursor_visible: true,
            depth,
            gc: ids.gc,
        };
        let mut requests: Vec<Request> = Vec::new();
        requests.push(
            Request::CreateWindow(
                WindowCreateInfo {
                    depth,
                    window: ids.window,
                    parent: root,
                    x: 0,
                    y: 0,
                    width: properties.size.w,
                    height: properties.size.h,
                    border_width: 0,
                    class: WINDOW_CLASS_INPUT_OUTPUT,
                    visual: visual_id,
                    event_mask: WINDOW_EVENT_MASK,
                    border_pixel: 0,
                    colormap: ids.colormap,
                },
            ),
        );
        requests.push(Request::CreateGc { gc: ids.gc, drawable: ids.window });
        let protocols: Vec<u32> = vec![atoms.wm_delete_window];
        assert(protocols@ =~= seq![atoms.wm_delete_window]);
        // Enable WM_DELETE_WINDOW so that the client is not disconnected when the window is closed.
        requests.push(
            Request::ChangeProperty32 {
                window: ids.window,
                property: atoms.wm_protocols,
                ty: ATOM_ATOM,
                data: protocols,
            },
        );
        // WM class cannot be safely changed later.
        requests.push(
            Request::ChangeProperty8 {
                window: ids.window,
                property: atoms.wm_class,
                ty: ATOM_STRING,
                data: "Smithay\0Wayland_Compositor\0".as_bytes_vec(),
            },
        );
        let mut title: Vec<Request> = window.set_title(properties.title, true);
        requests.append(&mut title);
        let mut map: Vec<Request> = window.map(true);
        requests.append(&mut map);
        (window, requests)
    }

    /// Maps the window. Nothing is done once the connection is gone.
    pub fn map(&self, connected: bool) -> (r: Vec<Request>)
        ensures
            r@ == if connected {
                seq![Request::MapWindow(self.id)]
            } else {
                Seq::empty()
            },
    {
        let mut requests: Vec<Request> = Vec::new();
        if connected {
            requests.push(Request::MapWindow(self.id));
        }
        requests
    }

    /// Unmaps the window. Nothing is done once the connection is gone.
    ///
    /// A client that withdraws its window has to unmap it and to follow that with a synthetic event
    /// for the root window.
    pub fn unmap(&self, connected: bool) -> (r: Vec<Request>)
        ensures
            r@ == if connected {
                seq![
                    Request::UnmapWindow(self.id),
                    Request::SendUnmapNotify {
                        destination: self.id,
                        event_mask: STRUCTURE_EVENT_MASK,
                        event: self.root,
                        window: self.id,
                    },
                ]
            } else {
                Seq::empty()
            },
    {
        let mut requests: Vec<Request> = Vec::new();
        if connected {
            requests.push(Request::UnmapWindow(self.id));
            requests.push(
                Request::SendUnmapNotify {
                    destination: self.id,
                    event_mask: STRUCTURE_EVENT_MASK,
                    event: self.root,
                    window: self.id,
                },
            );
        }
        requests
    }

    /// The size of the window.
    pub fn size(&self) -> (r: Size<u16>)
        ensures
            r == self.size,
    {
        self.size
    }

    /// Sets the title of the window. Nothing is done once the connection is gone.
    ///
    /// Both of the properties are set that window managers look at.
    pub fn set_title(&self, title: &str, connected: bool) -> (r: Vec<Request>)
        ensures
            connected ==> {
                &&& r@.len() == 2
                &&& sets_bytes(
                    r@[0],
                    self.id,
                    ATOM_WM_NAME,
                    ATOM_STRING,
                    vstd::utf8::encode_utf8(title@),
                )
                &&& sets_bytes(
                    r@[1],
                    self.id,
                    self.atoms.net_wm_name,
                    self.atoms.utf8_string,
                    vstd::utf8::encode_utf8(title@),
                )
            },
            !connected ==> r@.len() == 0,
    {
        let mut requests: Vec<Request> = Vec::new();
        if connected {
            requests.push(
                Request::ChangeProperty8 {
                    window: self.id,
                    property: ATOM_WM_NAME,
                    ty: ATOM_STRING,
                    data: title.as_bytes_vec(),
                },
            );
            requests.push(
                Request::ChangeProperty8 {
                    window: self.id,
                    property: self.atoms.net_wm_name,
                    ty: self.atoms.utf8_string,
                    data: title.as_bytes_vec(),
                },
            );
        }
        requests
    }

    /// Changes the visibility of the cursor within the confines of the window. Nothing is done once
    /// the connection is gone, or if the visibility does not change.
    pub fn set_cursor_visible(&mut self, visible: bool, connected: bool) -> (r: Option<Request>)
        ensures
            *final(self) == (WindowInner {
                cursor_visible: if connected {
                    visible
                } else {
                    old(self).cursor_visible
                },
                ..*old(self)
            }),
            r == if connected && old(self).cursor_visible != visible {
                Some(
                    if visible {
                        Request::ShowCursor(old(self).id)
                    } else {
                        Request::HideCursor(old(self).id)
                    },
                )
            } else {
                None::<Request>
            },
    {
        if connected && self.cursor_visible != visible {
            self.cursor_visible = visible;
            if visible {
                Some(Request::ShowCursor(self.id))
            } else {
                Some(Request::HideCursor(self.id))
            }
        } else {
            None
        }
    }

    /// Whether two windows are the same window of the X server.
    pub fn is_same(&self, other: &WindowInner) -> (r: bool)
        ensures
            r == (self.id == other.id),
    {
        self.id == other.id
    }

    /// The request that destroys the window, which is made when the backend goes away. Nothing is
    /// done once the connection is gone.
    pub fn destroy(self, connected: bool) -> (r: Option<Request>)
        ensures
            r == if connected {
                Some(Request::DestroyWindow(self.id))
            } else {
                None::<Request>
            },
    {
        if connected {
            Some(Request::DestroyWindow(self.id))
        } else {
            None
        }
    }
}

} // verus!
