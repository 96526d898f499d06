//! What holds of every call of the functions for windows, surfaces and device nodes.
//!
//! Each law speaks of what a call was given and what came of it.

use vstd::prelude::*;

use super::buffer::{with_dmabuf, CreatePixmapError, DmabufInfo, PixmapRequest};
use super::connection::ConnectToXError;
use super::drm::{
    close_on_exec, drm_node_path, drm_path_of, get_drm_node_type, is_drm_node_drm, DrmNodeType,
    FileStat, InvalidNodeType, System, UnsupportedDrmNodeType,
};
use super::error::{AllocateBuffersError, X11Error};
use super::surface::{
    BufferRequest, Buffers, GbmBufferingX11Surface, Present, Presented, X11Surface,
};
use super::window_inner::{Atoms, Request, WindowIds, WindowInner};
use super::{Event, Window, WindowProperties, X11Backend};
use crate::utils::Size;

verus! {

/// An event can be processed exactly if it is no key of the window, or one whose code X11 has and
/// that can be counted.
pub proof fn events_are_processed_where_they_can_be(
    backend: &mut X11Backend,
    event: Event,
    r: bool,
)
    requires
        call_ensures(X11Backend::can_process, (&*old(backend), &event), r),
    ensures
        r ==> call_requires(X11Backend::process_event, (backend, &event)),
        event matches Event::KeyPress { event: window, detail, .. } ==> (r <==> window
            != old(backend).window.id || detail >= 8 && old(backend).key_counter < 0xffff_ffff),
        event matches Event::KeyRelease { event: window, detail, .. } ==> (r <==> window
            != old(backend).window.id || detail >= 8),
        event !is KeyPress && event !is KeyRelease ==> r,
{
}

/// The handle of a backend is to its window, and what is done through the handle is done to that.
/// The screen is the one that the backend is on.
pub proof fn handles_are_to_the_window_of_the_backend<'a>(
    backend: &'a mut X11Backend,
    screen: usize,
    r: Window<'a>,
)
    requires
        call_ensures(X11Backend::window, (backend,), r),
        call_ensures(X11Backend::screen, (&*final(backend),), screen),
    ensures
        r.inner matches Some(inner) && *inner == old(backend).window && final(backend).window
            == *final(inner),
        final(backend).resize == old(backend).resize,
        final(backend).key_counter == old(backend).key_counter,
        final(backend).format == old(backend).format,
        screen == old(backend).screen_number,
{
}

/// A handle to a window that exists tells what the window is. One to a window that does not exist
/// tells zeros.
pub proof fn handles_tell_of_their_window(
    window: Window<'_>,
    size: Size<u16>,
    id: u32,
    depth: u8,
    gc: u32,
)
    requires
        call_ensures(Window::size, (&window,), size),
        call_ensures(Window::id, (&window,), id),
        call_ensures(Window::depth, (&window,), depth),
        call_ensures(Window::gc, (&window,), gc),
    ensures
        window.inner matches Some(inner) ==> {
            &&& size.w == inner.size.w && size.h == inner.size.h
            &&& id == inner.id && depth == inner.depth && gc == inner.gc
        },
        window.inner is None ==> size.w == 0 && size.h == 0 && id == 0 && depth == 0 && gc == 0,
{
}

/// Requests through a handle are those of the window, and there are none where it does not exist.
pub proof fn handles_make_the_requests_of_their_window(
    window: Window<'_>,
    inner: WindowInner,
    title: &str,
    connected: bool,
    mapped: Vec<Request>,
    unmapped: Vec<Request>,
    titled: Vec<Request>,
    own_mapped: Vec<Request>,
    own_unmapped: Vec<Request>,
)
    requires
        call_ensures(Window::map, (&window, connected), mapped),
        call_ensures(Window::unmap, (&window, connected), unmapped),
        call_ensures(Window::set_title, (&window, title, connected), titled),
        call_ensures(WindowInner::map, (&inner, connected), own_mapped),
        call_ensures(WindowInner::unmap, (&inner, connected), own_unmapped),
    ensures
        window.inner matches Some(own) && *own == inner ==> mapped@ == own_mapped@ && unmapped@
            == own_unmapped@,
        window.inner matches Some(own) && *own == inner && connected ==> titled@.len() == 2,
        window.inner matches Some(own) && *own == inner && connected ==> (
        titled@[0] matches Request::ChangeProperty8 { window: w, property, ty, data } && w
            == inner.id && property == 39 && ty == 31 && data@ == vstd::utf8::encode_utf8(title@)),
        window.inner matches Some(own) && *own == inner && connected ==> (
        titled@[1] matches Request::ChangeProperty8 { window: w, property, ty, data } && w
            == inner.id && property == inner.atoms.net_wm_name && ty == inner.atoms.utf8_string
            && data@ == vstd::utf8::encode_utf8(title@)),
        window.inner is None || !connected ==> mapped@.len() == 0 && unmapped@.len() == 0
            && titled@.len() == 0,
{
}

/// The cursor is shown or hidden through a handle as it is by the window.
pub proof fn handles_show_and_hide_the_cursor(
    window: Window<'_>,
    visible: bool,
    connected: bool,
    r: Option<Request>,
)
    requires
        call_ensures(Window::set_cursor_visible, (window, visible, connected), r),
    ensures
        window.inner is None ==> r is None,
        window.inner matches Some(inner) ==> {
            &&& r is Some <==> connected && inner.cursor_visible != visible
            &&& r matches Some(request) ==> request == (if visible {
                Request::ShowCursor(inner.id)
            } else {
                Request::HideCursor(inner.id)
            })
            &&& connected ==> final(inner).cursor_visible == visible
            &&& !connected ==> final(inner).cursor_visible == inner.cursor_visible
            &&& final(inner).id == inner.id && final(inner).size == inner.size
            &&& final(inner).root == inner.root && final(inner).atoms == inner.atoms
            &&& final(inner).depth == inner.depth && final(inner).gc == inner.gc
        },
{
}

/// Two handles are to the same window exactly if both windows exist and have the same id.
pub proof fn windows_are_the_same_by_their_id(
    one: Window<'_>,
    two: Window<'_>,
    first: WindowInner,
    second: WindowInner,
    r: bool,
    s: bool,
    size: Size<u16>,
)
    requires
        call_ensures(Window::is_same, (&one, &two), r),
        call_ensures(WindowInner::is_same, (&first, &second), s),
        call_ensures(WindowInner::size, (&first,), size),
    ensures
        one.inner is None || two.inner is None ==> !r,
        one.inner is Some && two.inner is Some ==> (r <==> one.inner->0.id == two.inner->0.id),
        s <==> first.id == second.id,
        size == first.size,
{
}

/// A new window is the one that was asked for and has its cursor.
pub proof fn new_windows_are_as_asked(
    root: u32,
    properties: WindowProperties<'_>,
    atoms: Atoms,
    depth: u8,
    visual_id: u32,
    ids: WindowIds,
    r: (WindowInner, Vec<Request>),
)
    requires
        call_ensures(WindowInner::new, (root, &properties, atoms, depth, visual_id, &ids), r),
    ensures
        r.0.id == ids.window && r.0.gc == ids.gc && r.0.root == root && r.0.atoms == atoms,
        r.0.size == properties.size && r.0.depth == depth && r.0.cursor_visible,
        r.1@.len() == 7,
        r.1@[0] matches Request::CreateWindow(info) && {
            &&& info.window == ids.window && info.parent == root && info.depth == depth
            &&& info.visual == visual_id && info.colormap == ids.colormap
            &&& info.width == properties.size.w && info.height == properties.size.h
            &&& info.x == 0 && info.y == 0 && info.border_width == 0 && info.border_pixel == 0
            &&& info.class == 1
            &&& info.event_mask == 0x1 + 0x2 + 0x4 + 0x8 + 0x40 + 0x8000 + 0x2_0000
        },
        r.1@[1] == (Request::CreateGc { gc: ids.gc, drawable: ids.window }),
        r.1@[2] matches Request::ChangeProperty32 { window, property, ty, data } && {
            window == ids.window && property == atoms.wm_protocols && ty == 4 && data@.len() == 1
                && data@[0] == atoms.wm_delete_window
        },
        r.1@[3] matches Request::ChangeProperty8 { window, property, ty, data } && {
            window == ids.window && property == atoms.wm_class && ty == 31 && data@
                == vstd::utf8::encode_utf8("Smithay\0Wayland_Compositor\0"@)
        },
        r.1@[4] matches Request::ChangeProperty8 { window, property, ty, data } && {
            window == ids.window && property == 39 && ty == 31 && data@ == vstd::utf8::encode_utf8(
                properties.title@,
            )
        },
        r.1@[5] matches Request::ChangeProperty8 { window, property, ty, data } && {
            window == ids.window && property == atoms.net_wm_name && ty == atoms.utf8_string
                && data@ == vstd::utf8::encode_utf8(properties.title@)
        },
        r.1@[6] == Request::MapWindow(ids.window),
{
}

/// A surface has the size, the format and the buffers that it was given. It takes on a size, and
/// asks for buffers of it, without losing its buffers; it takes on buffers without changing its
/// size.
pub proof fn surfaces_keep_what_they_were_given(
    size: Size<u16>,
    format: u32,
    buffers: Buffers,
    surface: X11Surface,
    told: u32,
    resized: &mut X11Surface,
    other: &mut X11Surface,
    request: BufferRequest,
    own: BufferRequest,
)
    requires
        call_ensures(X11Surface::new, (&size, format, buffers), surface),
        call_ensures(X11Surface::format, (&surface,), told),
        call_ensures(X11Surface::resize, (resized, &size), request),
        call_ensures(X11Surface::set_buffers, (other, buffers), ()),
        call_ensures(BufferRequest::new, (&size, format), own),
    ensures
        surface.width == size.w && surface.height == size.h,
        surface.buffers == buffers && told == format,
        final(resized).width == size.w && final(resized).height == size.h,
        final(resized).buffers == old(resized).buffers,
        final(resized).format == old(resized).format,
        request.width == size.w && request.height == size.h,
        request.format == old(resized).format,
        final(other).buffers == buffers,
        final(other).width == old(other).width && final(other).height == old(other).height,
        final(other).format == old(other).format,
        own.width == size.w && own.height == size.h && own.format == format,
{
}

/// What is drawn to is the next buffer of the surface. Swapping exchanges the buffers, and swapping
/// twice changes nothing.
pub proof fn the_next_buffer_is_drawn_to<'a>(
    surface: &'a mut X11Surface,
    present: Present<'a>,
    buffer: u64,
    first: &mut Buffers,
    second: &mut Buffers,
)
    requires
        call_ensures(X11Surface::present, (surface,), present),
        call_ensures(Present::buffer, (&present,), buffer),
        call_ensures(Buffers::swap, (first,), ()),
        *old(second) == *final(first),
        call_ensures(Buffers::swap, (second,), ()),
    ensures
        buffer == old(surface).buffers.next,
        *final(surface) == *final(present.surface),
        final(first).current == old(first).next && final(first).next == old(first).current,
        *final(second) == *old(first),
{
}

/// Surfaces of 32 bits with alpha ask for buffers of that format. What was drawn to is shown, and
/// what was shown is drawn to next.
pub proof fn buffering_surfaces_show_what_was_drawn(
    size: Size<u16>,
    buffers: Buffers,
    fresh: GbmBufferingX11Surface,
    request: BufferRequest,
    resized: &mut GbmBufferingX11Surface,
    surface: &mut GbmBufferingX11Surface,
    buffer: u64,
    shown: Presented,
)
    requires
        call_ensures(GbmBufferingX11Surface::new, (&size, buffers), fresh),
        call_ensures(GbmBufferingX11Surface::allocate_buffers, (&size,), request),
        call_ensures(GbmBufferingX11Surface::resize, (resized, &size, buffers), ()),
        call_ensures(GbmBufferingX11Surface::buffer, (&*old(surface),), buffer),
        call_ensures(GbmBufferingX11Surface::finish_present, (surface,), shown),
    ensures
        fresh.width == size.w && fresh.height == size.h && fresh.buffers == buffers,
        request.width == size.w && request.height == size.h && request.format == 0x3432_5241,
        *final(resized) == fresh,
        buffer == old(surface).buffers.next,
        shown.buffer == buffer,
        shown.width == old(surface).width && shown.height == old(surface).height,
        final(surface).buffers.current == buffer,
        final(surface).buffers.next == old(surface).buffers.current,
        final(surface).width == old(surface).width && final(surface).height
            == old(surface).height,
{
}

/// A pixmap can be asked for from DRI3 1.2 on exactly if the buffer has planes. Before that it can
/// be unless the bytes of the one plane are out of the range of 32 bits.
pub proof fn buffers_are_importable_with_planes(
    dmabuf: DmabufInfo,
    window: u32,
    depth: u8,
    dri3: (u32, u32),
    r: bool,
)
    requires
        call_ensures(DmabufInfo::is_importable, (&dmabuf, dri3), r),
    ensures
        r ==> call_requires(with_dmabuf, (&dmabuf, window, depth, dri3)),
        dri3.0 > 1 || (dri3.0 == 1 && dri3.1 >= 2) ==> (r <==> dmabuf.planes@.len() > 0),
        dri3.0 < 1 || (dri3.0 == 1 && dri3.1 < 2) ==> (r <==> dmabuf.planes@.len() != 1
            || dmabuf.planes@[0].stride * dmabuf.height <= 0xffff_ffff),
{
    if dmabuf.planes@.len() == 1 {
        let (stride, height) = (dmabuf.planes@[0].stride, dmabuf.height);
        assert(stride * height == height * stride) by (nonlinear_arith);
    }
}

/// Of a width, a height or a stride that is out of the range of 16 bits, the lower 16 bits are
/// sent.
pub proof fn pixmaps_have_sizes_of_16_bits(
    dmabuf: DmabufInfo,
    window: u32,
    depth: u8,
    dri3: (u32, u32),
    r: Result<PixmapRequest, CreatePixmapError>,
)
    requires
        call_ensures(with_dmabuf, (&dmabuf, window, depth, dri3), r),
    ensures
        r matches Ok(PixmapRequest::FromBuffers { width, height, .. }) ==> width == dmabuf.width
            % 0x1_0000 && height == dmabuf.height % 0x1_0000,
        r matches Ok(PixmapRequest::FromBuffer { width, height, stride, .. }) ==> width
            == dmabuf.width % 0x1_0000 && height == dmabuf.height % 0x1_0000 && stride
            == dmabuf.planes@[0].stride % 0x1_0000,
{
    let (w, h, s) = (dmabuf.width, dmabuf.height, dmabuf.planes@[0].stride);
    assert((w as u16) == w % 0x1_0000) by (bit_vector);
    assert((h as u16) == h % 0x1_0000) by (bit_vector);
    assert((s as u16) == s % 0x1_0000) by (bit_vector);
}

/// The types of nodes are numbered from zero: primary, control and render.
pub proof fn node_types_are_numbered(value: u64, r: Result<DrmNodeType, InvalidNodeType>)
    requires
        call_ensures(DrmNodeType::try_from, (value,), r),
    ensures
        value == 0 ==> (r matches Ok(ty) && ty == DrmNodeType::Primary),
        value == 1 ==> (r matches Ok(ty) && ty == DrmNodeType::Control),
        value == 2 ==> (r matches Ok(ty) && ty == DrmNodeType::Render),
        value > 2 ==> r is Err,
{
}

/// Each system has its own major number for DRM nodes.
pub proof fn systems_have_their_own_number(system: System, r: u64)
    requires
        call_ensures(System::drm_major, (&system,), r),
    ensures
        system == System::DragonFly <==> r == 145,
        system == System::NetBsd <==> r == 34,
        system == System::OpenBsdI386 <==> r == 88,
        system == System::OpenBsd <==> r == 87,
        system == System::Linux || system == System::Other <==> r == 226,
{
}

/// The path of a device is made of its two numbers. That of a file is the path of the device that
/// it is open on.
pub proof fn paths_have_the_numbers_of_the_device(
    major: u64,
    minor: u64,
    stat: FileStat,
    path: String,
    r: String,
)
    requires
        call_ensures(drm_node_path, (major, minor), path),
        call_ensures(drm_path_of, (&stat,), r),
    ensures
        path@ == "/sys/dev/char/"@ + crate::utils::text::decimal(major as nat) + ":"@
            + crate::utils::text::decimal(minor as nat) + "/device/drm"@,
        major == ((stat.st_rdev >> 32) & 0xffff_f000) | ((stat.st_rdev >> 8) & 0xfff) && minor == ((
        stat.st_rdev >> 12) & 0xffff_ff00) | (stat.st_rdev & 0xff) ==> r@ == path@,
{
}

/// On every system, the type of the node that a file is open on is known exactly if the device is a
/// DRM node there and the file is a character device. It goes by the minor number of the device.
pub proof fn files_on_nodes_have_their_type(
    stat: FileStat,
    system: System,
    path_exists: bool,
    is_node: bool,
    known: bool,
    r: Result<DrmNodeType, AllocateBuffersError>,
)
    requires
        call_ensures(get_drm_node_type, (&stat, system, path_exists), r),
        call_ensures(
            is_drm_node_drm,
            (
                ((stat.st_rdev >> 32) & 0xffff_f000) | ((stat.st_rdev >> 8) & 0xfff),
                ((stat.st_rdev >> 12) & 0xffff_ff00) | (stat.st_rdev & 0xff),
                system,
                path_exists,
            ),
            is_node,
        ),
        call_ensures(FileStat::knows_node_type, (&stat,), known),
    ensures
        known ==> call_requires(get_drm_node_type, (&stat, system, path_exists)),
        known <==> (((stat.st_rdev >> 12) & 0xffff_ff00) | (stat.st_rdev & 0xff)) < 192,
        r is Ok <==> is_node && stat.st_mode & 0xf000 == 0x2000,
        r matches Err(error) ==> error == AllocateBuffersError::UnsupportedDrmNode,
        r matches Ok(ty) ==> {
            let minor = ((stat.st_rdev >> 12) & 0xffff_ff00) | (stat.st_rdev & 0xff);
            &&& ty == DrmNodeType::Primary <==> minor < 64
            &&& ty == DrmNodeType::Control <==> 64 <= minor < 128
            &&& ty == DrmNodeType::Render <==> 128 <= minor < 192
        },
{
}

/// A file descriptor that is to be closed has the flag for it, whatever flags it had.
pub proof fn descriptors_are_closed(fd_flags: i32, r: i32)
    requires
        call_ensures(close_on_exec, (fd_flags,), r),
    ensures
        r == 1,
{
}

/// Every error has its own text.
pub proof fn errors_have_their_texts(
    pixmap: CreatePixmapError,
    connect: ConnectToXError,
    invalid: InvalidNodeType,
    unsupported: UnsupportedDrmNodeType,
    error: X11Error,
    converted: CreatePixmapError,
    pixmap_text: &'static str,
    connect_text: &'static str,
    invalid_text: &'static str,
    unsupported_text: &'static str,
)
    requires
        call_ensures(CreatePixmapError::message, (&pixmap,), pixmap_text),
        call_ensures(ConnectToXError::message, (&connect,), connect_text),
        call_ensures(InvalidNodeType::message, (&invalid,), invalid_text),
        call_ensures(UnsupportedDrmNodeType::message, (&unsupported,), unsupported_text),
        call_ensures(<CreatePixmapError as From<X11Error>>::from, (error,), converted),
    ensures
        pixmap is Protocol ==> pixmap_text@ == "An x11 protocol error occured"@,
        pixmap is TooManyPlanes ==> pixmap_text@ == "The Dmabuf had too many planes"@,
        pixmap is DupFailed ==> pixmap_text@
            == "Duplicating the file descriptors for the dmabuf handles failed"@,
        connect is Xcb ==> connect_text@ == "XCB failed to connect to the X server"@,
        connect is LibrariesNotLoaded ==> connect_text@
            == "Required libraries (xlib and xlib_libxcb) were not loaded"@,
        connect is XlibNoConnection ==> connect_text@
            == "An xlib connection could not be established"@,
        connect is NoXlibXcb ==> connect_text@
            == "Xlib implementation does not support getting the inner xcb connection"@,
        invalid_text@ == "The DRM node type is not a valid value."@,
        unsupported_text@ == "the drm node type is not supported"@,
        converted == CreatePixmapError::Protocol(error),
{
}

} // verus!
