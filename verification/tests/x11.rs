use smithay::backend::allocator::{FOURCC_ARGB8888, FOURCC_XRGB8888};
use smithay::backend::x11::buffer::{
    with_dmabuf, CreatePixmapError, DmabufInfo, PixmapRequest, Plane, PresentState,
};
use smithay::backend::x11::connection::{
    connect_step, ConnectAction, ConnectEvent, ConnectToXError,
};
use smithay::backend::x11::drm::{
    close_on_exec, drm_get_minor_type, drm_node_path, drm_path_of, get_drm_node_type,
    is_drm_node_drm, DrmNodeType, FileStat, InvalidNodeType, System, UnsupportedDrmNodeType,
    DRM_MAJOR,
    FD_CLOEXEC, S_IFCHR, S_IFMT,
};
use smithay::backend::x11::error::{
    AllocateBuffersError, CreateWindowError, MissingExtensionError, X11Error,
};
use smithay::backend::x11::input::{
    Axis, ButtonState, InputEvent, KeyState, MouseButton, X11KeyboardInputEvent,
    X11MouseInputEvent, X11MouseMovedEvent, X11MouseWheelEvent,
};
use smithay::backend::x11::surface::{Buffers, GbmBufferingX11Surface, Presented, X11Surface};
use smithay::backend::x11::window_inner::{
    Atoms, Request, WindowIds, ATOM_ATOM, ATOM_STRING, ATOM_WM_NAME, EVENT_MASK_RESIZE_REDIRECT,
    STRUCTURE_EVENT_MASK, WINDOW_CLASS_INPUT_OUTPUT, WINDOW_EVENT_MASK,
};
use smithay::backend::x11::{
    check_for_extensions, select_format, Depth, Event, Screen, Visual, Window, WindowProperties,
    X11Backend, X11Event, DRI3_NAME, VISUAL_CLASS_TRUE_COLOR, XFIXES_NAME,
};
use smithay::utils::Size;
use x11rb::protocol::xproto::{AtomEnum, EventMask, VisualClass, WindowClass};

const ATOMS: Atoms = Atoms {
    wm_protocols: 101,
    wm_delete_window: 102,
    wm_class: 103,
    net_wm_name: 104,
    utf8_string: 105,
    smithay_x11_backend_close: 106,
};

const IDS: WindowIds = WindowIds { window: 7, gc: 8, colormap: 9 };

fn screen() -> Screen {
    Screen {
        number: 3,
        root: 1,
        allowed_depths: vec![
            Depth { depth: 1, visuals: vec![] },
            Depth { depth: 24, visuals: vec![Visual { visual_id: 33, class: 4 }] },
            Depth {
                depth: 32,
                visuals: vec![
                    Visual { visual_id: 40, class: 5 },
                    Visual { visual_id: 41, class: 4 },
                    Visual { visual_id: 42, class: 4 },
                ],
            },
            Depth { depth: 32, visuals: vec![Visual { visual_id: 50, class: 4 }] },
        ],
    }
}

fn backend() -> X11Backend {
    X11Backend::new(&WindowProperties::default(), &screen(), ATOMS, &IDS).unwrap().0
}

#[test]
fn default_window_properties() {
    let properties = WindowProperties::default();
    assert_eq!(properties.size, Size { w: 1280, h: 800 });
    assert_eq!(properties.title, "Smithay");
}

#[test]
fn constants_are_those_of_the_protocol() {
    assert_eq!(u8::from(VisualClass::TRUE_COLOR), VISUAL_CLASS_TRUE_COLOR);
    assert_eq!(u16::from(WindowClass::INPUT_OUTPUT), WINDOW_CLASS_INPUT_OUTPUT);
    assert_eq!(u32::from(AtomEnum::ATOM), ATOM_ATOM);
    assert_eq!(u32::from(AtomEnum::STRING), ATOM_STRING);
    assert_eq!(u32::from(AtomEnum::WM_NAME), ATOM_WM_NAME);
    let mask = EventMask::EXPOSURE
        | EventMask::STRUCTURE_NOTIFY
        | EventMask::KEY_PRESS
        | EventMask::KEY_RELEASE
        | EventMask::BUTTON_PRESS
        | EventMask::BUTTON_RELEASE
        | EventMask::POINTER_MOTION
        | EventMask::NO_EVENT;
    assert_eq!(u32::from(mask), WINDOW_EVENT_MASK);
    assert_eq!(u32::from(EventMask::RESIZE_REDIRECT), EVENT_MASK_RESIZE_REDIRECT);
    let structure = EventMask::STRUCTURE_NOTIFY | EventMask::SUBSTRUCTURE_NOTIFY;
    assert_eq!(u32::from(structure), STRUCTURE_EVENT_MASK);
    assert_eq!(x11rb::protocol::dri3::X11_EXTENSION_NAME, DRI3_NAME);
    assert_eq!(x11rb::protocol::xfixes::X11_EXTENSION_NAME, XFIXES_NAME);
    assert_eq!(WINDOW_EVENT_MASK & EVENT_MASK_RESIZE_REDIRECT, 0);
}

#[test]
fn prefers_32_bits() {
    let format = select_format(&screen().allowed_depths).unwrap();
    assert_eq!(format.depth, 32);
    assert_eq!(format.visual_id, 41);
    assert_eq!(format.format, FOURCC_ARGB8888);
}

#[test]
fn falls_back_to_24_bits() {
    let depths = vec![
        Depth { depth: 8, visuals: vec![] },
        Depth { depth: 24, visuals: vec![Visual { visual_id: 33, class: 4 }] },
        Depth { depth: 24, visuals: vec![Visual { visual_id: 34, class: 4 }] },
    ];
    let format = select_format(&depths).unwrap();
    assert_eq!((format.depth, format.visual_id, format.format), (24, 33, FOURCC_XRGB8888));
}

#[test]
fn no_depth_and_no_visual() {
    let depths = vec![Depth { depth: 16, visuals: vec![Visual { visual_id: 1, class: 4 }] }];
    assert_eq!(select_format(&depths), Err(CreateWindowError::NoDepth));
    let depths = vec![
        Depth { depth: 24, visuals: vec![Visual { visual_id: 1, class: 4 }] },
        Depth { depth: 32, visuals: vec![Visual { visual_id: 2, class: 3 }] },
    ];
    assert_eq!(select_format(&depths), Err(CreateWindowError::NoVisual));
    let screen = Screen { number: 0, root: 1, allowed_depths: vec![] };
    assert!(X11Backend::new(&WindowProperties::default(), &screen, ATOMS, &IDS).is_err());
}

#[test]
fn window_is_created() {
    let properties = WindowProperties { size: Size { w: 640, h: 480 }, title: "T" };
    let (mut backend, requests) = X11Backend::new(&properties, &screen(), ATOMS, &IDS).unwrap();
    assert_eq!(backend.screen(), 3);
    assert_eq!(backend.window().id(), 7);
    assert_eq!(backend.window().gc(), 8);
    assert_eq!(backend.window().depth(), 32);
    assert_eq!(backend.window().size(), Size { w: 640, h: 480 });
    assert_eq!(requests.len(), 8);
    assert!(matches!(
        &requests[0],
        Request::CreateColormap { colormap: 9, window: 1, visual: 41 }
    ));
    match &requests[1] {
        Request::CreateWindow(info) => {
            assert_eq!((info.window, info.parent, info.depth), (7, 1, 32));
            assert_eq!((info.width, info.height), (640, 480));
            assert_eq!((info.x, info.y, info.border_width, info.border_pixel), (0, 0, 0, 0));
            assert_eq!((info.visual, info.colormap), (41, 9));
            assert_eq!(info.event_mask, WINDOW_EVENT_MASK);
        }
        _ => panic!("the window is created second"),
    }
    assert!(matches!(&requests[2], Request::CreateGc { gc: 8, drawable: 7 }));
    match &requests[3] {
        Request::ChangeProperty32 { window, property, ty, data } => {
            assert_eq!((*window, *property, *ty), (7, 101, 4));
            assert_eq!(data, &vec![102]);
        }
        _ => panic!("the protocols are set"),
    }
    match &requests[4] {
        Request::ChangeProperty8 { window, property, ty, data } => {
            assert_eq!((*window, *property, *ty), (7, 103, 31));
            assert_eq!(data.as_slice(), b"Smithay\0Wayland_Compositor\0");
        }
        _ => panic!("the class is set"),
    }
    match (&requests[5], &requests[6]) {
        (
            Request::ChangeProperty8 { property: 39, ty: 31, data: name, .. },
            Request::ChangeProperty8 { property: 104, ty: 105, data: net, .. },
        ) => {
            assert_eq!(name.as_slice(), b"T");
            assert_eq!(net.as_slice(), b"T");
        }
        _ => panic!("the title is set"),
    }
    assert!(matches!(&requests[7], Request::MapWindow(7)));
}

#[test]
fn buttons_are_reported() {
    let mut backend = backend();
    for (detail, button) in [
        (1, MouseButton::Left),
        (2, MouseButton::Middle),
        (3, MouseButton::Right),
        (8, MouseButton::Other(8)),
        (0, MouseButton::Other(0)),
    ] {
        assert_eq!(
            backend.process_event(&Event::ButtonPress { event: 7, detail, time: 5 }),
            Some(X11Event::Input(InputEvent::PointerButton {
                event: X11MouseInputEvent { time: 5, button, state: ButtonState::Pressed },
            }))
        );
        assert_eq!(
            backend.process_event(&Event::ButtonRelease { event: 7, detail, time: 6 }),
            Some(X11Event::Input(InputEvent::PointerButton {
                event: X11MouseInputEvent { time: 6, button, state: ButtonState::Released },
            }))
        );
    }
}

#[test]
fn scrolling_is_reported_on_press_only() {
    let mut backend = backend();
    for (detail, axis, amount) in [
        (4, Axis::Vertical, 1),
        (5, Axis::Vertical, -1),
        (6, Axis::Horizontal, -1),
        (7, Axis::Horizontal, 1),
    ] {
        assert_eq!(
            backend.process_event(&Event::ButtonPress { event: 7, detail, time: 5 }),
            Some(X11Event::Input(InputEvent::PointerAxis {
                event: X11MouseWheelEvent { time: 5, axis, amount },
            }))
        );
        assert_eq!(
            backend.process_event(&Event::ButtonRelease { event: 7, detail, time: 5 }),
            None
        );
    }
}

fn key(count: u32, key: u32, state: KeyState) -> Option<X11Event> {
    Some(X11Event::Input(InputEvent::Keyboard {
        event: X11KeyboardInputEvent { time: 1, key, count, state },
    }))
}

#[test]
fn keys_are_counted() {
    let mut backend = backend();
    let press = Event::KeyPress { event: 7, detail: 38, time: 1 };
    let release = Event::KeyRelease { event: 7, detail: 38, time: 1 };
    assert_eq!(backend.process_event(&press), key(1, 30, KeyState::Pressed));
    assert_eq!(backend.process_event(&press), key(2, 30, KeyState::Pressed));
    assert_eq!(backend.process_event(&release), key(1, 30, KeyState::Released));
    assert_eq!(backend.process_event(&release), key(0, 30, KeyState::Released));
    assert_eq!(backend.process_event(&release), key(0, 30, KeyState::Released));
    assert!(!backend.can_process(&Event::KeyPress { event: 7, detail: 7, time: 1 }));
    assert!(backend.can_process(&Event::KeyPress { event: 6, detail: 7, time: 1 }));
    assert!(!backend.can_process(&Event::KeyRelease { event: 7, detail: 0, time: 1 }));
    assert!(backend.can_process(&press));
}

#[test]
fn motion_has_the_size_of_the_window() {
    let mut backend = backend();
    assert_eq!(
        backend.process_event(&Event::MotionNotify { event: 7, time: 2, event_x: -3, event_y: 4 }),
        Some(X11Event::Input(InputEvent::PointerMotionAbsolute {
            event: X11MouseMovedEvent { time: 2, x: -3, y: 4, size: Size { w: 1280, h: 800 } },
        }))
    );
}

#[test]
fn resize_is_reported_once() {
    let mut backend = backend();
    let event = Event::ConfigureNotify { window: 7, width: 10, height: 20 };
    let size = Size { w: 10, h: 20 };
    assert_eq!(backend.process_event(&event), Some(X11Event::Resized(size)));
    assert_eq!(backend.process_event(&event), None);
    assert_eq!(backend.window().size(), size);
    let other = Event::ConfigureNotify { window: 7, width: 11, height: 20 };
    assert_eq!(backend.process_event(&other), Some(X11Event::Resized(Size { w: 11, h: 20 })));
    assert_eq!(backend.take_resizes(), vec![size, Size { w: 11, h: 20 }]);
    assert_eq!(backend.take_resizes(), vec![]);
}

#[test]
fn close_and_refresh() {
    let mut backend = backend();
    assert_eq!(
        backend.process_event(&Event::ClientMessage { window: 7, data: 102 }),
        Some(X11Event::CloseRequested)
    );
    assert_eq!(backend.process_event(&Event::ClientMessage { window: 7, data: 1 }), None);
    assert_eq!(
        backend.process_event(&Event::Expose { window: 7, count: 0 }),
        Some(X11Event::Refresh)
    );
    assert_eq!(backend.process_event(&Event::Expose { window: 7, count: 2 }), None);
    assert_eq!(backend.process_event(&Event::Error), None);
    assert_eq!(backend.process_event(&Event::Other), None);
}

#[test]
fn other_windows_are_ignored() {
    let mut backend = backend();
    for event in [
        Event::ButtonPress { event: 6, detail: 1, time: 0 },
        Event::ButtonRelease { event: 6, detail: 1, time: 0 },
        Event::KeyPress { event: 6, detail: 1, time: 0 },
        Event::KeyRelease { event: 6, detail: 1, time: 0 },
        Event::MotionNotify { event: 6, time: 0, event_x: 0, event_y: 0 },
        Event::ConfigureNotify { window: 6, width: 1, height: 1 },
        Event::ClientMessage { window: 6, data: 102 },
        Event::Expose { window: 6, count: 0 },
    ] {
        assert!(backend.can_process(&event));
        assert_eq!(backend.process_event(&event), None);
    }
    assert_eq!(backend.key_counter, 0);
}

#[test]
fn extensions_are_checked() {
    assert_eq!(check_for_extensions(Some((4, 0)), Some((1, 2))), Ok(()));
    assert_eq!(check_for_extensions(Some((5, 0)), Some((1, 3))), Ok(()));
    assert_eq!(
        check_for_extensions(None, None),
        Err(MissingExtensionError::NotFound { name: "XFIXES", major: 4, minor: 0 })
    );
    assert_eq!(
        check_for_extensions(Some((3, 9)), None),
        Err(MissingExtensionError::WrongVersion {
            name: "XFIXES",
            required_major: 4,
            required_minor: 0,
            available_major: 3,
            available_minor: 9,
        })
    );
    assert_eq!(
        check_for_extensions(Some((4, 0)), None),
        Err(MissingExtensionError::NotFound { name: "DRI3", major: 1, minor: 2 })
    );
    assert_eq!(
        check_for_extensions(Some((4, 0)), Some((1, 1))),
        Err(MissingExtensionError::WrongVersion {
            name: "DRI3",
            required_major: 1,
            required_minor: 2,
            available_major: 1,
            available_minor: 1,
        })
    );
}

#[test]
fn window_requests() {
    let mut backend = backend();
    assert!(backend.window().map(false).is_empty());
    assert!(backend.window().unmap(false).is_empty());
    assert!(backend.window().set_title("x", false).is_empty());
    let unmap = backend.window().unmap(true);
    assert!(matches!(unmap[0], Request::UnmapWindow(7)));
    assert!(matches!(
        unmap[1],
        Request::SendUnmapNotify { destination: 7, event: 1, window: 7, event_mask: 0xa_0000 }
    ));
    assert_eq!(backend.window().set_title("title", true).len(), 2);
    assert!(backend.window().set_cursor_visible(true, true).is_none());
    assert!(backend.window().set_cursor_visible(false, false).is_none());
    assert!(matches!(
        backend.window().set_cursor_visible(false, true),
        Some(Request::HideCursor(7))
    ));
    assert!(backend.window().set_cursor_visible(false, true).is_none());
    assert!(matches!(
        backend.window().set_cursor_visible(true, true),
        Some(Request::ShowCursor(7))
    ));
    let mut other = self::backend();
    assert!(backend.window().is_same(&other.window()));
    let gone = Window { inner: None };
    assert!(!gone.is_same(&backend.window()));
    assert_eq!((gone.id(), gone.depth(), gone.gc()), (0, 0, 0));
    assert_eq!(gone.size(), Size { w: 0, h: 0 });
    assert!(gone.map(true).is_empty());
    assert!(gone.set_cursor_visible(true, true).is_none());
    assert!(matches!(backend.window.destroy(true), Some(Request::DestroyWindow(7))));
}

#[test]
fn buffers_alternate() {
    let size = Size { w: 10, h: 20 };
    let mut surface = X11Surface::new(&size, FOURCC_ARGB8888, Buffers { current: 1, next: 2 });
    assert_eq!(surface.format(), FOURCC_ARGB8888);
    assert_eq!(surface.prepare_present(&vec![]), None);
    assert_eq!(surface.present().buffer(), 2);
    assert_eq!(
        surface.present().finish(true),
        Some(Presented { buffer: 2, width: 10, height: 20 })
    );
    assert_eq!(surface.present().buffer(), 1);
    assert_eq!(surface.present().finish(false), None);
    assert_eq!(surface.present().buffer(), 1);
    assert_eq!(
        surface.present().finish(true),
        Some(Presented { buffer: 1, width: 10, height: 20 })
    );
    assert_eq!(surface.buffers, Buffers { current: 1, next: 2 });
}

#[test]
fn surface_takes_on_the_latest_size() {
    let size = Size { w: 10, h: 20 };
    let mut surface = X11Surface::new(&size, FOURCC_XRGB8888, Buffers { current: 1, next: 2 });
    let request =
        surface.prepare_present(&vec![Size { w: 11, h: 21 }, Size { w: 12, h: 22 }]).unwrap();
    assert_eq!((request.width, request.height, request.format), (12, 22, FOURCC_XRGB8888));
    assert_eq!((surface.width, surface.height), (12, 22));
    assert_eq!(surface.present().buffer(), 2);
    surface.set_buffers(Buffers { current: 3, next: 4 });
    assert_eq!(surface.present().buffer(), 4);
}

#[test]
fn gbm_surface() {
    let size = Size { w: 10, h: 20 };
    let request = GbmBufferingX11Surface::allocate_buffers(&size);
    assert_eq!((request.width, request.height, request.format), (10, 20, FOURCC_ARGB8888));
    let mut surface = GbmBufferingX11Surface::new(&size, Buffers { current: 1, next: 2 });
    assert_eq!(surface.buffer(), 2);
    assert_eq!(surface.finish_present(), Presented { buffer: 2, width: 10, height: 20 });
    surface.resize(&Size { w: 1, h: 2 }, Buffers { current: 5, next: 6 });
    assert_eq!(surface.finish_present(), Presented { buffer: 6, width: 1, height: 2 });
}

fn dmabuf(planes: usize) -> DmabufInfo {
    let mut info =
        DmabufInfo { width: 70000, height: 3, planes: Vec::new(), modifier: 0x0100_0000_0000_0001 };
    for i in 0..planes {
        info.planes.push(Plane { stride: 100 + i as u32, offset: 10 * i as u32 });
    }
    info
}

#[test]
fn pixmaps_of_several_planes() {
    let none = Plane { stride: 0, offset: 0 };
    let request = with_dmabuf(&dmabuf(2), 7, 32, (1, 2)).unwrap();
    assert_eq!(
        request,
        PixmapRequest::FromBuffers {
            window: 7,
            width: 4464,
            height: 3,
            planes: (
                Plane { stride: 100, offset: 0 },
                Plane { stride: 101, offset: 10 },
                none,
                none,
            ),
            depth: 32,
            bpp: 32,
            modifier: 0x0100_0000_0000_0001,
        }
    );
    assert!(with_dmabuf(&dmabuf(4), 7, 32, (2, 0)).is_ok());
    assert!(matches!(
        with_dmabuf(&dmabuf(5), 7, 32, (1, 2)),
        Err(CreatePixmapError::TooManyPlanes)
    ));
    assert!(!dmabuf(0).is_importable((1, 2)));
    assert!(dmabuf(1).is_importable((1, 2)));
}

#[test]
fn pixmaps_of_one_plane() {
    assert_eq!(
        with_dmabuf(&dmabuf(1), 7, 24, (1, 1)).unwrap(),
        PixmapRequest::FromBuffer {
            window: 7,
            size: 300,
            width: 4464,
            height: 3,
            stride: 100,
            depth: 24,
            bpp: 32,
        }
    );
    assert!(matches!(
        with_dmabuf(&dmabuf(2), 7, 24, (1, 1)),
        Err(CreatePixmapError::TooManyPlanes)
    ));
    assert!(matches!(
        with_dmabuf(&dmabuf(0), 7, 24, (0, 9)),
        Err(CreatePixmapError::TooManyPlanes)
    ));
    let mut large = dmabuf(1);
    large.height = u32::MAX;
    assert!(!large.is_importable((1, 0)));
    assert!(large.is_importable((1, 2)));
}

#[test]
fn pixmap_errors_have_texts() {
    let error = CreatePixmapError::from(X11Error::Protocol(3));
    assert!(matches!(error, CreatePixmapError::Protocol(X11Error::Protocol(3))));
    assert_eq!(CreatePixmapError::TooManyPlanes.message(), "The Dmabuf had too many planes");
    assert_eq!(
        CreatePixmapError::Protocol(X11Error::Connection).message(),
        "An x11 protocol error occured"
    );
    assert_eq!(
        CreatePixmapError::DupFailed("x".to_string()).message(),
        "Duplicating the file descriptors for the dmabuf handles failed"
    );
}

#[test]
fn frames_are_numbered() {
    let mut state = PresentState { next_serial: u32::MAX, last_msc: 41 };
    let request = state.present(7, 12);
    assert_eq!((request.window, request.pixmap), (7, 12));
    assert_eq!((request.serial, request.target_msc), (u32::MAX, 42));
    assert_eq!(state.present(7, 12).serial, 0);
    assert_eq!(state.present(7, 12).serial, 1);
}

#[test]
fn node_types() {
    assert_eq!(DrmNodeType::try_from(0), Ok(DrmNodeType::Primary));
    assert_eq!(DrmNodeType::try_from(1), Ok(DrmNodeType::Control));
    assert_eq!(DrmNodeType::try_from(2), Ok(DrmNodeType::Render));
    assert_eq!(DrmNodeType::try_from(3), Err(InvalidNodeType));
    assert_eq!(drm_get_minor_type(226, 0), Ok(DrmNodeType::Primary));
    assert_eq!(drm_get_minor_type(226, 63), Ok(DrmNodeType::Primary));
    assert_eq!(drm_get_minor_type(226, 64), Ok(DrmNodeType::Control));
    assert_eq!(drm_get_minor_type(226, 128), Ok(DrmNodeType::Render));
    assert_eq!(drm_get_minor_type(226, 192), Err(InvalidNodeType));
    assert_eq!(InvalidNodeType.message(), "The DRM node type is not a valid value.");
    assert_eq!(UnsupportedDrmNodeType.message(), "the drm node type is not supported");
    assert!(is_drm_node_drm(13, 5, System::Linux, true));
    assert!(!is_drm_node_drm(DRM_MAJOR, 5, System::Linux, false));
    let majors = [
        (System::DragonFly, 145),
        (System::NetBsd, 34),
        (System::OpenBsdI386, 88),
        (System::OpenBsd, 87),
        (System::Other, 226),
    ];
    for (system, major) in majors {
        assert_eq!(system.drm_major(), major);
        assert!(is_drm_node_drm(major, 5, system, false));
        assert!(!is_drm_node_drm(13, 5, system, true));
    }
    assert_eq!(System::Linux.drm_major(), DRM_MAJOR);
}

#[test]
fn node_type_of_a_file() {
    let device = nix::sys::stat::makedev(226, 128);
    let stat = FileStat { st_rdev: device, st_mode: 0o020666 };
    assert!(stat.knows_node_type());
    assert_eq!(get_drm_node_type(&stat, System::Linux, true), Ok(DrmNodeType::Render));
    assert_eq!(get_drm_node_type(&stat, System::Linux, false), Err(AllocateBuffersError::UnsupportedDrmNode));
    let file = FileStat { st_rdev: device, st_mode: 0o100666 };
    assert_eq!(get_drm_node_type(&file, System::Linux, true), Err(AllocateBuffersError::UnsupportedDrmNode));
    let block = FileStat { st_rdev: device, st_mode: 0o060666 };
    assert_eq!(get_drm_node_type(&block, System::Linux, true), Err(AllocateBuffersError::UnsupportedDrmNode));
    let unsupported = Err(AllocateBuffersError::UnsupportedDrmNode);
    assert_eq!(get_drm_node_type(&stat, System::Other, false), Ok(DrmNodeType::Render));
    assert_eq!(get_drm_node_type(&stat, System::NetBsd, true), unsupported);
    let far = FileStat { st_rdev: nix::sys::stat::makedev(226, 1000), st_mode: 0o020666 };
    assert!(!far.knows_node_type());
    assert_eq!(nix::sys::stat::SFlag::S_IFMT.bits(), S_IFMT);
    assert_eq!(nix::sys::stat::SFlag::S_IFCHR.bits(), S_IFCHR);
}

#[test]
fn path_of_a_node() {
    assert_eq!(drm_node_path(226, 128), "/sys/dev/char/226:128/device/drm");
    let device = nix::sys::stat::makedev(0x12345678, 0x9abcdef0);
    let stat = FileStat { st_rdev: device, st_mode: 0 };
    assert_eq!(drm_path_of(&stat), "/sys/dev/char/305419896:2596069104/device/drm");
    let last = FileStat { st_rdev: u64::MAX, st_mode: 0 };
    let path = drm_path_of(&last);
    assert_eq!(path, "/sys/dev/char/4294967295:4294967295/device/drm");
    assert!(path.len() <= 63);
}

#[test]
fn close_on_exec_is_enabled() {
    assert_eq!(close_on_exec(0), FD_CLOEXEC);
    assert_eq!(close_on_exec(0x7fff_fffe), FD_CLOEXEC);
    assert_eq!(close_on_exec(-1), FD_CLOEXEC);
    assert_eq!(nix::fcntl::FdFlag::FD_CLOEXEC.bits(), FD_CLOEXEC);
}

#[test]
fn connecting_step_by_step() {
    assert_eq!(connect_step(ConnectEvent::DisplayOpened(true)), ConnectAction::GetXcb);
    assert_eq!(connect_step(ConnectEvent::XcbFound(true)), ConnectAction::SetUpXcb);
    assert_eq!(connect_step(ConnectEvent::XcbSetUp(true)), ConnectAction::Done);
    assert_eq!(
        connect_step(ConnectEvent::DisplayOpened(false)),
        ConnectAction::Fail { close_display: false, error: ConnectToXError::XlibNoConnection }
    );
    assert_eq!(
        connect_step(ConnectEvent::XcbFound(false)),
        ConnectAction::Fail { close_display: true, error: ConnectToXError::NoXlibXcb }
    );
    assert_eq!(
        connect_step(ConnectEvent::XcbSetUp(false)),
        ConnectAction::Fail { close_display: true, error: ConnectToXError::Xcb }
    );
    assert_eq!(
        ConnectToXError::LibrariesNotLoaded.message(),
        "Required libraries (xlib and xlib_libxcb) were not loaded"
    );
    assert_eq!(ConnectToXError::Xcb.message(), "XCB failed to connect to the X server");
    assert_eq!(
        ConnectToXError::XlibNoConnection.message(),
        "An xlib connection could not be established"
    );
    assert_eq!(
        ConnectToXError::NoXlibXcb.message(),
        "Xlib implementation does not support getting the inner xcb connection"
    );
}
