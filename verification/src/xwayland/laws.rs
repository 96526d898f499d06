//! What holds of every call of the functions of the XWayland server.
//!
//! Each law speaks of what a call was given and what came of it.

use vstd::prelude::*;

use super::xserver::{
    inherited_sockets, keeps_variable, shell_command, wayland_socket_variable, xwayland_args,
    Shutdown, Startup, XWayland, XWaylandEvent,
};

verus! {

/// A server has to be launched exactly if there is none, and once it is launched none has to be.
pub proof fn servers_are_launched_once(
    first: XWayland,
    handle: &mut XWayland,
    display: u32,
    client: u64,
    client_fd: i32,
    wm_fd: i32,
    start: bool,
    again: bool,
)
    requires
        call_ensures(XWayland::new, (), first),
        call_ensures(XWayland::start, (&first,), start),
        call_ensures(XWayland::launched, (handle, display, client, client_fd, wm_fd), ()),
        call_ensures(XWayland::start, (&*final(handle),), again),
    ensures
        start,
        !again,
{
}

/// A server that was launched and says so is ready. Its connections are handed out as they were
/// launched, and the display is told to the environment. They are handed out once: the server runs
/// on, and its client is not killed when it is shut down.
pub proof fn ready_servers_are_handed_out(
    first: &mut XWayland,
    second: &mut XWayland,
    third: &mut XWayland,
    display: u32,
    client: u64,
    client_fd: i32,
    wm_fd: i32,
    byte: u8,
    r: Option<Startup>,
    running: bool,
    end: Option<Shutdown>,
)
    requires
        call_ensures(XWayland::launched, (first, display, client, client_fd, wm_fd), ()),
        *old(second) == *final(first),
        call_ensures(XWayland::ready, (second, Some(byte)), r),
        call_ensures(XWayland::start, (&*final(second),), running),
        *old(third) == *final(second),
        call_ensures(XWayland::shutdown, (third,), end),
    ensures
        call_requires(XWayland::ready, (second, Some(byte))),
        byte == 0x53 ==> {
            &&& r matches Some(startup)
            &&& startup.display_variable@ == ":"@ + crate::utils::text::decimal(display as nat)
            &&& startup.event matches XWaylandEvent::Ready {
                connection,
                client: of,
                client_fd: at,
                display: on,
            }
            &&& connection == wm_fd && of == client && at == client_fd && on == display
        },
        byte != 0x53 ==> r is None && *final(second) == *final(first),
        !running,
        end matches Some(shutdown) && shutdown.event is Exited && shutdown.kill_client == (if byte
            == 0x53 {
            None::<u64>
        } else {
            Some(client)
        }),
        final(third).instance is None,
{
}

/// A server of which nothing was read is not ready, and stays as it is.
pub proof fn silent_servers_are_not_ready(handle: &mut XWayland, r: Option<Startup>)
    requires
        call_ensures(XWayland::ready, (handle, None::<u8>), r),
    ensures
        r is None,
        *final(handle) == *old(handle),
{
}

/// Shutting down ends a server that there is, and does nothing where there is none. After it there
/// is none.
pub proof fn servers_are_shut_down_once(
    first: &mut XWayland,
    second: &mut XWayland,
    r: Option<Shutdown>,
    again: Option<Shutdown>,
    start: bool,
)
    requires
        call_ensures(XWayland::shutdown, (first,), r),
        call_ensures(XWayland::start, (&*final(first),), start),
        *old(second) == *final(first),
        call_ensures(XWayland::shutdown, (second,), again),
    ensures
        r is Some <==> old(first).instance is Some,
        r matches Some(shutdown) ==> {
            &&& shutdown.event is Exited
            &&& old(first).instance matches Some(instance)
            &&& shutdown.kill_client == instance.wayland_client
        },
        start,
        again is None,
{
}

/// A client that has disconnected shuts its server down, unless the handle is in use.
pub proof fn disconnecting_shuts_down(
    handle: &mut XWayland,
    same: &mut XWayland,
    in_use: bool,
    r: Option<Shutdown>,
    end: Option<Shutdown>,
)
    requires
        *old(same) == *old(handle),
        call_ensures(XWayland::disconnected, (handle, in_use), r),
        call_ensures(XWayland::shutdown, (same,), end),
    ensures
        in_use ==> r is None && *final(handle) == *old(handle),
        !in_use ==> r == end && *final(handle) == *final(same),
{
}

/// The arguments of a server name its display and the socket of the window manager. Each socket
/// that it listens on is named behind them, in order.
pub proof fn sockets_are_arguments(
    display: u32,
    wm_socket: i32,
    shorter: Vec<i32>,
    longer: Vec<i32>,
    socket: i32,
    before: String,
    after: String,
    command: String,
)
    requires
        call_ensures(xwayland_args, (display, wm_socket, &shorter), before),
        call_ensures(xwayland_args, (display, wm_socket, &longer), after),
        call_ensures(shell_command, (display, wm_socket, &shorter), command),
        longer@ == shorter@.push(socket),
    ensures
        shorter@.len() == 0 ==> before@ == ":"@ + crate::utils::text::decimal(display as nat)
            + " -rootless -terminate -wm "@ + crate::utils::text::signed_decimal(wm_socket as int),
        after@ == before@ + " -listenfd "@ + crate::utils::text::signed_decimal(socket as int),
        command@ == "trap 'echo S' USR1; (trap '' USR1; exec Xwayland "@ + before@
            + ") 1>&2 & wait"@,
{
    assert(longer@.drop_last() =~= shorter@);
    assert(longer@.last() == socket);
    let start = ":"@ + crate::utils::text::decimal(display as nat) + " -rootless -terminate -wm "@
        + crate::utils::text::signed_decimal(wm_socket as int);
    if shorter@.len() == 0 {
        assert(before@ =~= start);
    }
    assert(after@ =~= before@ + " -listenfd "@ + crate::utils::text::signed_decimal(
        socket as int,
    ));
}

/// Two variables of the environment are kept, and no other. The socket of the client is told by its
/// number.
pub proof fn the_environment_is_cleared(name: String, socket: i32, r: bool, value: String)
    requires
        call_ensures(keeps_variable, (&name,), r),
        call_ensures(wayland_socket_variable, (socket,), value),
    ensures
        name@ == "PATH"@ ==> r,
        name@ == "XDG_RUNTIME_DIR"@ ==> r,
        name@ != "PATH"@ && name@ != "XDG_RUNTIME_DIR"@ ==> !r,
        value@ == crate::utils::text::signed_decimal(socket as int),
{
}

/// All sockets are inherited: that of the client, that of the window manager and then each that the
/// server listens on.
pub proof fn all_sockets_are_inherited(
    wayland_socket: i32,
    wm_socket: i32,
    listen_sockets: Vec<i32>,
    i: int,
    r: Vec<i32>,
)
    requires
        call_ensures(inherited_sockets, (wayland_socket, wm_socket, &listen_sockets), r),
    ensures
        r@.len() == listen_sockets@.len() + 2,
        r@[0] == wayland_socket,
        r@[1] == wm_socket,
        0 <= i < listen_sockets@.len() ==> r@[i + 2] == listen_sockets@[i],
{
}

} // verus!
