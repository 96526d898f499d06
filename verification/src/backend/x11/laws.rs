//! What holds of every call of the functions of the backend.
//!
//! Each law speaks of what a call was given and what came of it.

use vstd::prelude::*;

use super::error::{AllocateBuffersError, CreateWindowError, MissingExtensionError};
use super::input::{Axis, ButtonState, InputEvent, KeyState, MouseButton};
use super::window_inner::{Atoms, Request, WindowIds, WindowInner};
use super::{Depth, Event, Screen, WindowFormat, WindowProperties, X11Backend, X11Event};
use super::buffer::{
    CreatePixmapError, DmabufInfo, PixmapRequest, Plane, PresentRequest, PresentState,
};
use super::connection::{ConnectAction, ConnectEvent, ConnectToXError};
use super::drm::{DrmNodeType, FileStat, InvalidNodeType, System};
use super::surface::{BufferRequest, Present, Presented, X11Surface};
use crate::utils::Size;

verus! {

/// After the X server has reported the size of the window, the window has exactly that size. The
/// compositor and the surface are told of it whenever the width or the height is another one than
/// before, and only then.
pub proof fn the_window_follows_its_size(
    backend: &mut X11Backend,
    width: u16,
    height: u16,
    r: Option<X11Event>,
)
    requires
        call_ensures(
            X11Backend::process_event,
            (
                backend,
                &(Event::ConfigureNotify { window: old(backend).window.id, width, height }),
            ),
            r,
        ),
    ensures
        final(backend).window.size.w == width,
        final(backend).window.size.h == height,
        old(backend).window.size.w != width || old(backend).window.size.h != height ==> {
            &&& r matches Some(X11Event::Resized(size)) && size.w == width && size.h == height
            &&& final(backend).resize@.len() == old(backend).resize@.len() + 1
            &&& final(backend).resize@.last() == (Size { w: width, h: height })
            &&& final(backend).resize@.drop_last() == old(backend).resize@
        },
        old(backend).window.size.w == width && old(backend).window.size.h == height ==> {
            r is None && final(backend).resize@ == old(backend).resize@
        },
        final(backend).key_counter == old(backend).key_counter,
{
}

/// Whatever is reported, nothing of the window but its size ever changes, nor do the screen and the
/// format. The size changes only when it is reported, and the number of pressed keys only with a key.
pub proof fn events_change_little(backend: &mut X11Backend, event: Event, r: Option<X11Event>)
    requires
        call_ensures(X11Backend::process_event, (backend, &event), r),
    ensures
        final(backend).window.id == old(backend).window.id,
        final(backend).window.root == old(backend).window.root,
        final(backend).window.atoms == old(backend).window.atoms,
        final(backend).window.cursor_visible == old(backend).window.cursor_visible,
        final(backend).window.depth == old(backend).window.depth,
        final(backend).window.gc == old(backend).window.gc,
        final(backend).screen_number == old(backend).screen_number,
        final(backend).format == old(backend).format,
        event !is ConfigureNotify ==> final(backend).window.size == old(backend).window.size
            && final(backend).resize@ == old(backend).resize@,
        event !is KeyPress && event !is KeyRelease ==> final(backend).key_counter == old(
            backend,
        ).key_counter,
{
}

/// An event for another window, or of no interest, reports nothing and changes nothing.
pub proof fn foreign_events_do_nothing(backend: &mut X11Backend, event: Event, r: Option<X11Event>)
    requires
        call_ensures(X11Backend::process_event, (backend, &event), r),
        match event {
            Event::ButtonPress { event, .. } => event != old(backend).window.id,
            Event::ButtonRelease { event, .. } => event != old(backend).window.id,
            Event::KeyPress { event, .. } => event != old(backend).window.id,
            Event::KeyRelease { event, .. } => event != old(backend).window.id,
            Event::MotionNotify { event, .. } => event != old(backend).window.id,
            Event::ConfigureNotify { window, .. } => window != old(backend).window.id,
            Event::ClientMessage { window, .. } => window != old(backend).window.id,
            Event::Expose { window, .. } => window != old(backend).window.id,
            Event::Error => true,
            Event::Other => true,
        },
    ensures
        r is None,
        final(backend).window == old(backend).window,
        final(backend).resize@ == old(backend).resize@,
        final(backend).key_counter == old(backend).key_counter,
{
}

/// Every event can be processed but a key with a code that X11 does not have, and a press of a key
/// when no more can be counted.
pub proof fn almost_every_event_is_processed(backend: &mut X11Backend, event: Event)
    requires
        match event {
            Event::KeyPress { detail, .. } => detail >= 8 && old(backend).key_counter < u32::MAX,
            Event::KeyRelease { detail, .. } => detail >= 8,
            _ => true,
        },
    ensures
        call_requires(X11Backend::process_event, (backend, &event)),
{
}

/// A press of a button is reported with its time. The first three buttons have names, and those
/// from the eighth on, like one that has no number, are reported as they are.
pub proof fn presses_are_reported(
    backend: &mut X11Backend,
    detail: u8,
    time: u32,
    r: Option<X11Event>,
)
    requires
        call_ensures(
            X11Backend::process_event,
            (backend, &(Event::ButtonPress { event: old(backend).window.id, detail, time })),
            r,
        ),
        detail < 4 || detail > 7,
    ensures
        r matches Some(X11Event::Input(InputEvent::PointerButton { event })) && {
            &&& event.time == time
            &&& event.state == ButtonState::Pressed
            &&& detail == 1 <==> event.button == MouseButton::Left
            &&& detail == 2 <==> event.button == MouseButton::Middle
            &&& detail == 3 <==> event.button == MouseButton::Right
            &&& detail == 0 || detail > 7 ==> event.button == MouseButton::Other(detail)
        },
{
}

/// Releasing a button reports the same button as pressing it, with the time of the release.
pub proof fn releases_match_presses(
    backend: &mut X11Backend,
    later: &mut X11Backend,
    detail: u8,
    pressed: u32,
    released: u32,
    press: Option<X11Event>,
    release: Option<X11Event>,
)
    requires
        call_ensures(
            X11Backend::process_event,
            (
                backend,
                &(Event::ButtonPress { event: old(backend).window.id, detail, time: pressed }),
            ),
            press,
        ),
        call_ensures(
            X11Backend::process_event,
            (
                later,
                &(Event::ButtonRelease { event: old(later).window.id, detail, time: released }),
            ),
            release,
        ),
    ensures
        press matches Some(X11Event::Input(InputEvent::PointerButton { event: down })) ==> (
        release matches Some(X11Event::Input(InputEvent::PointerButton { event: up })) && {
            &&& up.button == down.button
            &&& up.state == ButtonState::Released
            &&& up.time == released
        }),
        press matches Some(X11Event::Input(InputEvent::PointerAxis { .. })) <==> release is None,
        press matches Some(X11Event::Input(InputEvent::PointerAxis { .. })) <==> 4 <= detail <= 7,
{
}

/// The buttons four to seven are ticks of a wheel: the first two of them vertical and the others
/// horizontal, by one up or to the right, or by one down or to the left.
pub proof fn wheels_tick(backend: &mut X11Backend, detail: u8, time: u32, r: Option<X11Event>)
    requires
        call_ensures(
            X11Backend::process_event,
            (backend, &(Event::ButtonPress { event: old(backend).window.id, detail, time })),
            r,
        ),
        4 <= detail <= 7,
    ensures
        r matches Some(X11Event::Input(InputEvent::PointerAxis { event })) && {
            &&& event.time == time
            &&& event.axis == Axis::Vertical <==> detail == 4 || detail == 5
            &&& event.axis == Axis::Horizontal <==> detail == 6 || detail == 7
            &&& event.amount == 1 <==> detail == 4 || detail == 7
            &&& event.amount == -1 <==> detail == 5 || detail == 6
        },
{
}

/// A key is reported by its code less eight and with its time. The number of keys that are pressed
/// goes up by one with a press, down by one with a release, and never below zero.
pub proof fn keys_are_counted(
    backend: &mut X11Backend,
    detail: u8,
    time: u32,
    press: bool,
    r: Option<X11Event>,
)
    requires
        detail >= 8,
        press ==> old(backend).key_counter < u32::MAX,
        call_ensures(
            X11Backend::process_event,
            (
                backend,
                &(if press {
                    Event::KeyPress { event: old(backend).window.id, detail, time }
                } else {
                    Event::KeyRelease { event: old(backend).window.id, detail, time }
                }),
            ),
            r,
        ),
    ensures
        r matches Some(X11Event::Input(InputEvent::Keyboard { event })) && {
            &&& event.time == time
            &&& event.key + 8 == detail
            &&& event.count == final(backend).key_counter
            &&& event.state == KeyState::Pressed <==> press
        },
        press ==> final(backend).key_counter == old(backend).key_counter + 1,
        !press && old(backend).key_counter > 0 ==> final(backend).key_counter == old(
            backend,
        ).key_counter - 1,
        !press && old(backend).key_counter == 0 ==> final(backend).key_counter == 0,
{
}

/// A motion of the pointer is reported where it was, with its time and the size of the window.
pub proof fn motions_are_reported(
    backend: &mut X11Backend,
    time: u32,
    x: i16,
    y: i16,
    r: Option<X11Event>,
)
    requires
        call_ensures(
            X11Backend::process_event,
            (
                backend,
                &(Event::MotionNotify {
                    event: old(backend).window.id,
                    time,
                    event_x: x,
                    event_y: y,
                }),
            ),
            r,
        ),
    ensures
        r matches Some(X11Event::Input(InputEvent::PointerMotionAbsolute { event })) && {
            &&& event.time == time
            &&& event.x == x
            &&& event.y == y
            &&& event.size == old(backend).window.size
        },
{
}

/// A message to the window asks for it to be closed exactly if it is the one that the window has
/// asked for, and a part of the window that was uncovered is drawn again once the last one is known.
pub proof fn closing_and_drawing_again(
    backend: &mut X11Backend,
    other: &mut X11Backend,
    data: u32,
    count: u16,
    closing: Option<X11Event>,
    exposed: Option<X11Event>,
)
    requires
        call_ensures(
            X11Backend::process_event,
            (backend, &(Event::ClientMessage { window: old(backend).window.id, data })),
            closing,
        ),
        call_ensures(
            X11Backend::process_event,
            (other, &(Event::Expose { window: old(other).window.id, count })),
            exposed,
        ),
    ensures
        data == old(backend).window.atoms.wm_delete_window ==> closing == Some(
            X11Event::CloseRequested,
        ),
        data != old(backend).window.atoms.wm_delete_window ==> closing is None,
        count == 0 ==> exposed == Some(X11Event::Refresh),
        count > 0 ==> exposed is None,
{
}

/// The sizes that are taken are all that were pushed, in order, and they are taken once.
pub proof fn resizes_are_taken_once(
    backend: &mut X11Backend,
    later: &mut X11Backend,
    first: Vec<Size<u16>>,
    second: Vec<Size<u16>>,
)
    requires
        call_ensures(X11Backend::take_resizes, (backend,), first),
        *old(later) == *final(backend),
        call_ensures(X11Backend::take_resizes, (later,), second),
    ensures
        first@ == old(backend).resize@,
        second@.len() == 0,
        final(backend).window == old(backend).window,
        final(backend).key_counter == old(backend).key_counter,
{
}

/// A window has a depth of 32 bits exactly if the screen has one, and of 24 bits otherwise. It is
/// of the fourcc that belongs to the depth, and of a true color visual of that depth.
pub proof fn the_deepest_format_is_selected(
    depths: Vec<Depth>,
    r: Result<WindowFormat, CreateWindowError>,
)
    requires
        call_ensures(super::select_format, (&depths,), r),
    ensures
        r matches Err(CreateWindowError::NoDepth) <==> forall|i: int|
            0 <= i < depths@.len() ==> (#[trigger] depths@[i]).depth != 24 && depths@[i].depth
                != 32,
        r matches Ok(format) ==> {
            &&& format.depth == 32 || format.depth == 24
            &&& format.depth == 32 <==> exists|i: int|
                0 <= i < depths@.len() && (#[trigger] depths@[i]).depth == 32
            &&& format.depth == 32 ==> format.format == 0x3432_5241
            &&& format.depth == 24 ==> format.format == 0x3432_5258
            &&& exists|i: int, k: int|
                {
                    &&& 0 <= i < depths@.len()
                    &&& 0 <= k < depths@[i].visuals@.len()
                    &&& depths@[i].depth == format.depth
                    &&& (#[trigger] depths@[i].visuals@[k]).class == 4
                    &&& depths@[i].visuals@[k].visual_id == format.visual_id
                }
        },
{
    if r is Ok {
        let format = r->Ok_0;
        let (i, k) = choose|i: int, k: int|
            {
                &&& #[trigger] super::is_best_depth(depths@, i)
                &&& #[trigger] super::is_first_true_color(depths@[i].visuals@, k)
                &&& format == (WindowFormat {
                    depth: depths@[i].depth,
                    visual_id: depths@[i].visuals@[k].visual_id,
                    format: super::format_of_depth(depths@[i].depth),
                })
            };
        assert(depths@[i].visuals@[k].class == 4);
    }
    if r matches Err(CreateWindowError::NoVisual) {
        let i = choose|i: int|
            #[trigger]
            super::is_best_depth(depths@, i) && super::no_true_color(depths@[i].visuals@);
        assert(depths@[i].depth == 32 || depths@[i].depth == 24);
    }
}

/// Of several depths and visuals that would do, the first are taken: what stands behind the first
/// depth of 32 bits changes nothing, and a visual is found if that depth has one of true color.
pub proof fn the_first_fitting_visual_is_selected(
    depths: Vec<Depth>,
    i: int,
    k: int,
    r: Result<WindowFormat, CreateWindowError>,
)
    requires
        call_ensures(super::select_format, (&depths,), r),
        0 <= i < depths@.len(),
        depths@[i].depth == 32 || (depths@[i].depth == 24 && forall|j: int|
            0 <= j < depths@.len() ==> (#[trigger] depths@[j]).depth != 32),
        forall|j: int| 0 <= j < i ==> (#[trigger] depths@[j]).depth != depths@[i].depth,
    ensures
        0 <= k < depths@[i].visuals@.len() && depths@[i].visuals@[k].class == 4 && (forall|j: int|
            0 <= j < k ==> (#[trigger] depths@[i].visuals@[j]).class != 4) ==> (r matches Ok(
            format,
        ) && format.visual_id == depths@[i].visuals@[k].visual_id),
        (forall|j: int|
            0 <= j < depths@[i].visuals@.len() ==> (#[trigger] depths@[i].visuals@[j]).class
                != 4) ==> r matches Err(CreateWindowError::NoVisual),
{
    assert(super::is_best_depth(depths@, i));
    let visuals = depths@[i].visuals@;
    if r is Ok {
        let format = r->Ok_0;
        let (a, b) = choose|a: int, b: int|
            {
                &&& #[trigger] super::is_best_depth(depths@, a)
                &&& #[trigger] super::is_first_true_color(depths@[a].visuals@, b)
                &&& format == (WindowFormat {
                    depth: depths@[a].depth,
                    visual_id: depths@[a].visuals@[b].visual_id,
                    format: super::format_of_depth(depths@[a].depth),
                })
            };
        super::selection_is_unique(depths@, visuals, a, i);
        super::selection_is_unique(depths@, visuals, b, k);
        assert(visuals[b].class == 4);
    }
    if r matches Err(CreateWindowError::NoVisual) {
        let a = choose|a: int|
            #[trigger]
            super::is_best_depth(depths@, a) && super::no_true_color(depths@[a].visuals@);
        super::selection_is_unique(depths@, visuals, a, i);
    }
}

/// The extensions are there exactly if XFIXES has the major version four or a later one and DRI3
/// the minor version two or a later one. XFIXES is looked at first.
pub proof fn extensions_have_versions(
    xfixes: Option<(u32, u32)>,
    dri3: Option<(u32, u32)>,
    first: Result<(), MissingExtensionError>,
    second: Result<(), MissingExtensionError>,
    both: Result<(), MissingExtensionError>,
)
    requires
        call_ensures(super::check_xfixes, (xfixes,), first),
        call_ensures(super::check_dri3, (dri3,), second),
        call_ensures(super::check_for_extensions, (xfixes, dri3), both),
    ensures
        first is Ok <==> (xfixes matches Some((major, _)) && major >= 4),
        second is Ok <==> (dri3 matches Some((_, minor)) && minor >= 2),
        first is Err ==> both == first,
        first is Ok ==> (both is Ok <==> second is Ok),
        first is Ok && second is Err ==> both == second,
        xfixes is None <==> (first matches Err(MissingExtensionError::NotFound { .. })),
        dri3 is None <==> (second matches Err(MissingExtensionError::NotFound { .. })),
        first matches Err(
            MissingExtensionError::NotFound { name, major, minor },
        ) ==> name@ == "XFIXES"@ && major == 4 && minor == 0,
        second matches Err(
            MissingExtensionError::NotFound { name, major, minor },
        ) ==> name@ == "DRI3"@ && major == 1 && minor == 2,
        first matches Err(
            MissingExtensionError::WrongVersion {
                name,
                required_major,
                required_minor,
                available_major,
                available_minor,
            },
        ) ==> {
            &&& name@ == "XFIXES"@
            &&& required_major == 4 && required_minor == 0
            &&& xfixes == Some((available_major, available_minor))
        },
        second matches Err(
            MissingExtensionError::WrongVersion {
                name,
                required_major,
                required_minor,
                available_major,
                available_minor,
            },
        ) ==> {
            &&& name@ == "DRI3"@
            &&& required_major == 1 && required_minor == 2
            &&& dri3 == Some((available_major, available_minor))
        },
{
}

/// A window is created on the root of the screen, with the title, the size, the depth and the visual
/// that it is to have. It hears of keys, buttons, motions, its size and what is uncovered, it can be
/// closed by a message, and it is mapped last.
pub proof fn windows_are_created_as_asked(
    properties: WindowProperties<'_>,
    screen: Screen,
    atoms: Atoms,
    ids: WindowIds,
    r: Result<(X11Backend, Vec<Request>), CreateWindowError>,
    selected: Result<WindowFormat, CreateWindowError>,
)
    requires
        call_ensures(X11Backend::new, (&properties, &screen, atoms, &ids), r),
        call_ensures(super::select_format, (&screen.allowed_depths,), selected),
    ensures
        selected is Ok <==> r is Ok,
        selected matches Err(error) ==> r == Err::<(X11Backend, Vec<Request>), CreateWindowError>(
            error,
        ),
        r matches Ok((backend, requests)) ==> {
            &&& selected == Ok::<WindowFormat, CreateWindowError>(backend.format)
            &&& backend.screen_number == screen.number
            &&& backend.key_counter == 0
            &&& backend.resize@.len() == 0
            &&& backend.window.id == ids.window
            &&& backend.window.gc == ids.gc
            &&& backend.window.root == screen.root
            &&& backend.window.atoms == atoms
            &&& backend.window.size == properties.size
            &&& backend.window.depth == backend.format.depth
            &&& backend.window.cursor_visible
            &&& requests@[0] matches Request::CreateColormap { colormap, window, visual } && {
                colormap == ids.colormap && window == screen.root && visual
                    == backend.format.visual_id
            }
            &&& requests@[1] matches Request::CreateWindow(info) && {
                &&& info.window == ids.window && info.parent == screen.root
                &&& info.x == 0 && info.y == 0 && info.border_width == 0
                &&& info.width == properties.size.w && info.height == properties.size.h
                &&& info.depth == backend.format.depth
                &&& info.visual == backend.format.visual_id
                &&& info.colormap == ids.colormap
                &&& info.class == 1
                &&& info.border_pixel == 0
                &&& info.event_mask == 0x1 + 0x2 + 0x4 + 0x8 + 0x40 + 0x8000 + 0x2_0000
            }
            &&& requests@[2] == (Request::CreateGc { gc: ids.gc, drawable: ids.window })
            &&& requests@[3] matches Request::ChangeProperty32 { window, property, ty, data } && {
                window == ids.window && property == atoms.wm_protocols && ty == 4 && data@ == seq![
                    atoms.wm_delete_window,
                ]
            }
            &&& requests@[4] matches Request::ChangeProperty8 { window, property, ty, data } && {
                window == ids.window && property == atoms.wm_class && ty == 31 && data@
                    == vstd::utf8::encode_utf8("Smithay\0Wayland_Compositor\0"@)
            }
            &&& requests@[5] matches Request::ChangeProperty8 { window, property, ty, data } && {
                window == ids.window && property == 39 && ty == 31 && data@
                    == vstd::utf8::encode_utf8(properties.title@)
            }
            &&& requests@[6] matches Request::ChangeProperty8 { window, property, ty, data } && {
                window == ids.window && property == atoms.net_wm_name && ty == atoms.utf8_string
                    && data@ == vstd::utf8::encode_utf8(properties.title@)
            }
            &&& requests@[7] == Request::MapWindow(ids.window)
            &&& requests@.len() == 8
        },
{
    let depths = screen.allowed_depths@;
    if selected is Ok {
        let format = selected->Ok_0;
        let (i, k) = choose|i: int, k: int|
            {
                &&& #[trigger] super::is_best_depth(depths, i)
                &&& #[trigger] super::is_first_true_color(depths[i].visuals@, k)
                &&& format == (WindowFormat {
                    depth: depths[i].depth,
                    visual_id: depths[i].visuals@[k].visual_id,
                    format: super::format_of_depth(depths[i].depth),
                })
            };
        lemma_one_format(depths, i, k);
        assert(depths[i].depth == 32 || depths[i].depth == 24);
    }
    if selected matches Err(CreateWindowError::NoVisual) {
        let i = choose|i: int|
            #[trigger]
            super::is_best_depth(depths, i) && super::no_true_color(depths[i].visuals@);
        lemma_one_depth(depths, i);
        assert(depths[i].depth == 32 || depths[i].depth == 24);
    }
}

proof fn lemma_one_depth(depths: Seq<Depth>, i: int)
    requires
        super::is_best_depth(depths, i),
    ensures
        forall|j: int| #[trigger] super::is_best_depth(depths, j) ==> j == i,
        !super::no_usable_depth(depths),
{
    assert forall|j: int| #[trigger] super::is_best_depth(depths, j) implies j == i by {
        super::selection_is_unique(depths, depths[i].visuals@, i, j);
    }
    assert(depths[i].depth == 32 || depths[i].depth == 24);
}

proof fn lemma_one_format(depths: Seq<Depth>, i: int, k: int)
    requires
        super::is_best_depth(depths, i),
        super::is_first_true_color(depths[i].visuals@, k),
    ensures
        forall|j: int| #[trigger] super::is_best_depth(depths, j) ==> j == i,
        forall|l: int| #[trigger]
            super::is_first_true_color(depths[i].visuals@, l) ==> l == k,
        !super::no_usable_depth(depths),
        !super::no_true_color(depths[i].visuals@),
{
    lemma_one_depth(depths, i);
    assert forall|l: int| #[trigger]
        super::is_first_true_color(depths[i].visuals@, l) implies l == k by {
        super::selection_is_unique(depths, depths[i].visuals@, k, l);
    }
    assert(depths[i].visuals@[k].class == super::VISUAL_CLASS_TRUE_COLOR);
}

/// Setting the visibility of the cursor is a request exactly if the visibility changes: setting it
/// again is none. Without a connection nothing happens.
pub proof fn the_cursor_is_shown_or_hidden_once(
    window: &mut WindowInner,
    later: &mut WindowInner,
    visible: bool,
    connected: bool,
    first: Option<Request>,
    second: Option<Request>,
)
    requires
        call_ensures(WindowInner::set_cursor_visible, (window, visible, connected), first),
        *old(later) == *final(window),
        call_ensures(WindowInner::set_cursor_visible, (later, visible, connected), second),
    ensures
        second is None,
        *final(later) == *final(window),
        connected ==> final(window).cursor_visible == visible,
        first is Some <==> connected && old(window).cursor_visible != visible,
        first is Some ==> first == Some(
            if visible {
                Request::ShowCursor(old(window).id)
            } else {
                Request::HideCursor(old(window).id)
            },
        ),
        !connected ==> *final(window) == *old(window),
        final(window).id == old(window).id,
        final(window).size == old(window).size,
        final(window).depth == old(window).depth,
        final(window).gc == old(window).gc,
        final(window).root == old(window).root,
        final(window).atoms == old(window).atoms,
{
}

/// All requests of a window are for that window, and none is made without a connection. A title is
/// set in both properties that window managers look at, and unmapping tells the root window.
pub proof fn requests_are_for_the_window(
    window: WindowInner,
    title: &str,
    connected: bool,
    mapped: Vec<Request>,
    unmapped: Vec<Request>,
    titled: Vec<Request>,
    destroyed: Option<Request>,
)
    requires
        call_ensures(WindowInner::map, (&window, connected), mapped),
        call_ensures(WindowInner::unmap, (&window, connected), unmapped),
        call_ensures(WindowInner::set_title, (&window, title, connected), titled),
        call_ensures(WindowInner::destroy, (window, connected), destroyed),
    ensures
        !connected ==> mapped@.len() == 0 && unmapped@.len() == 0 && titled@.len() == 0
            && destroyed is None,
        connected ==> {
            &&& mapped@ == seq![Request::MapWindow(window.id)]
            &&& unmapped@.len() == 2
            &&& unmapped@[0] == Request::UnmapWindow(window.id)
            &&& unmapped@[1] matches Request::SendUnmapNotify {
                destination,
                event_mask,
                event,
                window: unmapped_window,
            } && {
                &&& destination == window.id && unmapped_window == window.id
                &&& event == window.root
                &&& event_mask == 0x2_0000 + 0x8_0000
            }
            &&& titled@.len() == 2
            &&& titled@[0] matches Request::ChangeProperty8 { window: w, property, ty, data } && {
                w == window.id && property == 39 && ty == 31 && data@ == vstd::utf8::encode_utf8(
                    title@,
                )
            }
            &&& titled@[1] matches Request::ChangeProperty8 { window: w, property, ty, data } && {
                w == window.id && property == window.atoms.net_wm_name && ty
                    == window.atoms.utf8_string && data@ == vstd::utf8::encode_utf8(title@)
            }
            &&& destroyed == Some(Request::DestroyWindow(window.id))
        },
{
}

/// A surface takes on the latest size that the window has had, and asks for buffers of that size
/// and of its own format. Without a new size it stays as it is.
pub proof fn surfaces_follow_the_latest_size(
    surface: &mut X11Surface,
    resizes: Vec<Size<u16>>,
    r: Option<BufferRequest>,
)
    requires
        call_ensures(X11Surface::prepare_present, (surface, &resizes), r),
    ensures
        r is None <==> resizes@.len() == 0,
        r is None ==> *final(surface) == *old(surface),
        r matches Some(request) ==> {
            let size = resizes@[resizes@.len() - 1];
            &&& request.width == size.w && request.height == size.h
            &&& request.format == old(surface).format
            &&& final(surface).width == size.w && final(surface).height == size.h
        },
        final(surface).format == old(surface).format,
        final(surface).buffers == old(surface).buffers,
{
}

/// What is shown is what was drawn to, in the size of the surface, and the buffer that was shown
/// before is drawn to next. Without a connection nothing is shown and nothing changes.
pub proof fn what_was_drawn_is_shown(present: Present<'_>, connected: bool, r: Option<Presented>)
    requires
        call_ensures(Present::finish, (present, connected), r),
    ensures
        connected ==> {
            &&& r matches Some(shown) && {
                &&& shown.buffer == old(present.surface).buffers.next
                &&& shown.width == old(present.surface).width
                &&& shown.height == old(present.surface).height
            }
            &&& final(present.surface).buffers.current == old(present.surface).buffers.next
            &&& final(present.surface).buffers.next == old(present.surface).buffers.current
            &&& final(present.surface).width == old(present.surface).width
            &&& final(present.surface).height == old(present.surface).height
            &&& final(present.surface).format == old(present.surface).format
        },
        !connected ==> r is None && *final(present.surface) == *old(present.surface),
{
}

/// A pixmap is asked for with all the planes of the buffer and no others. From DRI3 1.2 on a buffer
/// has up to four of them, and before that exactly one, which has to span the whole buffer.
pub proof fn pixmaps_have_the_planes_of_the_buffer(
    dmabuf: DmabufInfo,
    window: u32,
    depth: u8,
    dri3: (u32, u32),
    r: Result<PixmapRequest, CreatePixmapError>,
)
    requires
        call_ensures(super::buffer::with_dmabuf, (&dmabuf, window, depth, dri3), r),
        dmabuf.planes@.len() >= 1,
        dmabuf.width <= u16::MAX,
        dmabuf.height <= u16::MAX,
        dmabuf.planes@[0].stride <= u16::MAX,
    ensures
        ({
            let modern = dri3.0 > 1 || (dri3.0 == 1 && dri3.1 >= 2);
            &&& modern ==> (r is Ok <==> dmabuf.planes@.len() <= 4)
            &&& !modern ==> (r is Ok <==> dmabuf.planes@.len() == 1)
            &&& r matches Err(error) ==> error is TooManyPlanes
            &&& r matches Ok(request) ==> (request is FromBuffers <==> modern)
        }),
        r matches Ok(
            PixmapRequest::FromBuffers { window: w, width, height, planes, depth: d, bpp, modifier },
        ) ==> {
            let none = Plane { stride: 0, offset: 0 };
            let count = dmabuf.planes@.len();
            &&& w == window && d == depth && bpp == 32
            &&& width == dmabuf.width && height == dmabuf.height
            &&& modifier == dmabuf.modifier
            &&& planes.0 == dmabuf.planes@[0]
            &&& count >= 2 ==> planes.1 == dmabuf.planes@[1]
            &&& count >= 3 ==> planes.2 == dmabuf.planes@[2]
            &&& count >= 4 ==> planes.3 == dmabuf.planes@[3]
            &&& count < 2 ==> planes.1 == none
            &&& count < 3 ==> planes.2 == none
            &&& count < 4 ==> planes.3 == none
        },
        r matches Ok(
            PixmapRequest::FromBuffer { window: w, size, width, height, stride, depth: d, bpp },
        ) ==> {
            &&& w == window && d == depth && bpp == 32
            &&& width == dmabuf.width && height == dmabuf.height
            &&& stride == dmabuf.planes@[0].stride
            &&& size == height * stride
        },
{
    let (height, stride) = (dmabuf.height, dmabuf.planes@[0].stride);
    assert(0 <= height * stride <= u32::MAX) by (nonlinear_arith)
        requires
            height <= 0xffff,
            stride <= 0xffff,
    ;
}

/// Each frame is for the next one of the screen, and two frames after one another have serials that
/// follow one another.
pub proof fn frames_follow_one_another(
    state: &mut PresentState,
    later: &mut PresentState,
    window: u32,
    pixmap: u32,
    first: PresentRequest,
    second: PresentRequest,
)
    requires
        call_ensures(PresentState::present, (state, window, pixmap), first),
        *old(later) == *final(state),
        call_ensures(PresentState::present, (later, window, pixmap), second),
        old(state).last_msc < u64::MAX,
    ensures
        first.window == window && first.pixmap == pixmap,
        first.serial == old(state).next_serial,
        first.target_msc == old(state).last_msc + 1,
        first.serial < u32::MAX ==> second.serial == first.serial + 1,
        first.serial == u32::MAX ==> second.serial == 0,
        second.target_msc == first.target_msc,
{
}

/// The minor numbers of nodes come in groups of 64: primary nodes, control nodes and render nodes.
pub proof fn minor_numbers_tell_the_type(
    major: u64,
    minor: u64,
    r: Result<DrmNodeType, InvalidNodeType>,
)
    requires
        call_ensures(super::drm::drm_get_minor_type, (major, minor), r),
    ensures
        r == Ok::<DrmNodeType, InvalidNodeType>(DrmNodeType::Primary) <==> minor < 64,
        r == Ok::<DrmNodeType, InvalidNodeType>(DrmNodeType::Control) <==> 64 <= minor < 128,
        r == Ok::<DrmNodeType, InvalidNodeType>(DrmNodeType::Render) <==> 128 <= minor < 192,
        r is Err <==> minor >= 192,
{
}

/// A device is a DRM node on Linux exactly if its path exists, and elsewhere exactly if it has the
/// major number of the system.
pub proof fn nodes_are_found_by_path_or_number(
    major: u64,
    minor: u64,
    system: System,
    exists_path: bool,
    r: bool,
)
    requires
        call_ensures(super::drm::is_drm_node_drm, (major, minor, system, exists_path), r),
    ensures
        system == System::Linux ==> r == exists_path,
        system == System::DragonFly ==> r == (major == 145),
        system == System::NetBsd ==> r == (major == 34),
        system == System::OpenBsdI386 ==> r == (major == 88),
        system == System::OpenBsd ==> r == (major == 87),
        system == System::Other ==> r == (major == 226),
{
}

/// On Linux the type of a node that a file is open on is known exactly if the path of the device
/// exists and the file is a character device.
pub proof fn only_character_devices_are_nodes(
    stat: FileStat,
    exists_path: bool,
    r: Result<DrmNodeType, AllocateBuffersError>,
)
    requires
        call_ensures(super::drm::get_drm_node_type, (&stat, System::Linux, exists_path), r),
    ensures
        r is Ok <==> exists_path && stat.st_mode & 0xf000 == 0x2000,
        r matches Err(error) ==> error is UnsupportedDrmNode,
        r matches Ok(ty) ==> {
            let minor = ((stat.st_rdev >> 12) & 0xffff_ff00) | (stat.st_rdev & 0xff);
            &&& ty == DrmNodeType::Primary <==> minor < 64
            &&& ty == DrmNodeType::Control <==> 64 <= minor < 128
            &&& ty == DrmNodeType::Render <==> 128 <= minor < 192
        },
{
}

/// Connecting succeeds exactly after the display was opened, a connection of XCB found and set up.
/// A display that was opened is closed again when a later step fails.
pub proof fn connecting_goes_on_until_it_fails(event: ConnectEvent, r: ConnectAction)
    requires
        call_ensures(super::connection::connect_step, (event,), r),
    ensures
        r == ConnectAction::GetXcb <==> event == ConnectEvent::DisplayOpened(true),
        r == ConnectAction::SetUpXcb <==> event == ConnectEvent::XcbFound(true),
        r == ConnectAction::Done <==> event == ConnectEvent::XcbSetUp(true),
        r matches ConnectAction::Fail { close_display, error } ==> {
            &&& close_display <==> event !is DisplayOpened
            &&& error == ConnectToXError::XlibNoConnection <==> event is DisplayOpened
            &&& error == ConnectToXError::NoXlibXcb <==> event is XcbFound
            &&& error == ConnectToXError::Xcb <==> event is XcbSetUp
        },
{
}

} // verus!
