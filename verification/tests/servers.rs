use smithay::anvil::x11::{
    frame_time, physical_properties, window_properties, EventAction, Mode, X11Data, OUTPUT_NAME,
};
use smithay::backend::allocator::FOURCC_ARGB8888;
use smithay::backend::renderer::Transform;
use smithay::backend::x11::input::{
    ButtonState, InputEvent, MouseButton, X11MouseInputEvent,
};
use smithay::backend::x11::surface::{Buffers, X11Surface};
use smithay::backend::x11::X11Event;
use smithay::utils::Size;
use smithay::xwayland::xserver::{
    inherited_sockets, keeps_variable, shell_command, wayland_socket_variable, xwayland_args,
    Shutdown, XWayland, XWaylandEvent,
};

#[test]
fn xwayland_starts_once() {
    let mut handle = XWayland::new();
    assert!(handle.start());
    assert_eq!(handle.shutdown(), None);
    handle.launched(3, 70, 80, 90);
    assert!(!handle.start());
    let startup = handle.ready(Some(b'S')).unwrap();
    assert_eq!(startup.display_variable, ":3");
    assert_eq!(
        startup.event,
        XWaylandEvent::Ready { connection: 90, client: 70, client_fd: 80, display: 3 }
    );
    assert!(!handle.start());
    assert_eq!(
        handle.shutdown(),
        Some(Shutdown { kill_client: None, event: XWaylandEvent::Exited })
    );
    assert_eq!(handle.shutdown(), None);
    assert!(handle.start());
}

#[test]
fn xwayland_crashes_at_startup() {
    for read in [None, Some(b's'), Some(0)] {
        let mut handle = XWayland::new();
        handle.launched(3, 70, 80, 90);
        assert!(handle.ready(read).is_none());
        assert_eq!(handle.disconnected(true), None);
        assert_eq!(
            handle.disconnected(false),
            Some(Shutdown { kill_client: Some(70), event: XWaylandEvent::Exited })
        );
        assert_eq!(handle.disconnected(false), None);
    }
}

#[test]
fn xwayland_command() {
    assert_eq!(xwayland_args(12, 5, &vec![]), ":12 -rootless -terminate -wm 5");
    assert_eq!(
        shell_command(0, 5, &vec![6, 7]),
        "trap 'echo S' USR1; (trap '' USR1; exec Xwayland :0 -rootless -terminate -wm 5 \
         -listenfd 6 -listenfd 7) 1>&2 & wait"
    );
    assert_eq!(inherited_sockets(4, 5, &vec![6, 7]), vec![4, 5, 6, 7]);
    assert_eq!(wayland_socket_variable(42), "42");
    assert!(keeps_variable(&"PATH".to_string()));
    assert!(keeps_variable(&"XDG_RUNTIME_DIR".to_string()));
    assert!(!keeps_variable(&"HOME".to_string()));
    assert!(!keeps_variable(&"PATH2".to_string()));
}

fn data() -> X11Data {
    let size = Size { w: 1280, h: 800 };
    let surface = X11Surface::new(&size, FOURCC_ARGB8888, Buffers { current: 1, next: 2 });
    X11Data::new(&size, surface)
}

#[test]
fn compositor_starts() {
    let properties = window_properties();
    assert_eq!(properties.title, "Anvil");
    assert_eq!(properties.size, Size { w: 1280, h: 800 });
    let output = physical_properties();
    assert_eq!((output.make, output.model), ("Smithay", "X11"));
    assert_eq!(output.size, Size { w: 0, h: 0 });
    assert_eq!(OUTPUT_NAME, "x11");
    let data = data();
    assert_eq!(data.seat_name(), "x11");
    assert_eq!(data.mode, Mode { size: Size { w: 1280, h: 800 }, refresh: 60_000 });
    let frame = data.next_frame().unwrap();
    assert_eq!(frame.transform, Transform::Flipped180);
    assert_eq!((frame.size, frame.buffer), (Size { w: 1280, h: 800 }, 2));
}

#[test]
fn compositor_handles_events() {
    let mut data = data();
    let mode = Mode { size: Size { w: 10, h: 65535 }, refresh: 60_000 };
    assert_eq!(
        data.handle_event(&X11Event::Resized(Size { w: 10, h: 65535 })),
        EventAction::UpdateMode(mode)
    );
    assert_eq!(data.next_frame().unwrap().size, mode.size);
    let input = InputEvent::PointerButton {
        event: X11MouseInputEvent {
            time: 1,
            button: MouseButton::Left,
            state: ButtonState::Pressed,
        },
    };
    assert_eq!(data.handle_event(&X11Event::Input(input)), EventAction::ProcessInput(input));
    assert_eq!(data.handle_event(&X11Event::Refresh), EventAction::Ignore);
    assert!(data.dispatched(true));
    assert!(data.running);
    assert_eq!(data.handle_event(&X11Event::CloseRequested), EventAction::Stop);
    assert_eq!(data.next_frame(), None);
    assert!(data.dispatched(true));
    assert!(!data.running);
}

#[test]
fn compositor_ends_when_waiting_fails() {
    let mut data = data();
    assert!(!data.dispatched(false));
    assert_eq!(data.next_frame(), None);
}

#[test]
fn frame_times_wrap() {
    assert_eq!(frame_time(16), 16);
    assert_eq!(frame_time(0x1_0000_0005), 5);
}
