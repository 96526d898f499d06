//! Starting and stopping the XWayland server.
//!
//! The server is spawned through a shell, which prints `S` once the server has signaled that it is
//! ready.

use vstd::prelude::*;
use vstd::string::*;

use crate::utils::text::{push_decimal, push_signed};

verus! {

/// The byte that is read once the server is ready.
pub const READY_BYTE: u8 = 0x53;

/// The connections to a server.
#[derive(Debug, Clone, Copy, PartialEq, Eq)]
pub struct XWaylandInstance {
    /// The number of the display.
    pub display: u32,
    /// The Wayland client that is the server, until it is handed out.
    pub wayland_client: Option<u64>,
    /// The file descriptor of the client, until it is handed out.
    pub wayland_client_fd: Option<i32>,
    /// The file descriptor of the connection of the window manager, until it is handed out.
    pub wm_fd: Option<i32>,
}

/// Events generated by the XWayland manager.
///
/// The window manager must be able to handle the server connecting then disconnecting several times
/// in a row, but only a single connection is active at any given time.
#[must_use]
#[derive(Debug, Clone, Copy, PartialEq, Eq)]
pub enum XWaylandEvent {
    /// The XWayland server is ready.
    Ready {
        /// Privileged X11 connection to XWayland.
        connection: i32,
        /// Wayland client representing XWayland.
        client: u64,
        /// Wayland client file descriptor.
        client_fd: i32,
        /// The display number the XWayland server is available at.
        display: u32,
    },
    /// The XWayland server exited.
    Exited,
}

/// What to do when the server is shut down.
#[derive(Debug, Clone, Copy, PartialEq, Eq)]
pub struct Shutdown {
    /// The Wayland client to kill, if it was not handed out.
    pub kill_client: Option<u64>,
    /// The event to send. After it, `DISPLAY` is to be removed from the environment.
    pub event: XWaylandEvent,
}

/// What to do when the server is ready.
#[derive(Debug)]
pub struct Startup {
    /// The value that `DISPLAY` is to have in the environment.
    pub display_variable: String,
    /// The event to send.
    pub event: XWaylandEvent,
}

/// The XWayland handle.
#[derive(Debug, Clone, Copy, PartialEq, Eq)]
pub struct XWayland {
    /// The server, if it is started or starting.
    pub instance: Option<XWaylandInstance>,
}

impl XWaylandInstance {
    /// Nothing of the server has been handed out.
    pub open spec fn is_whole(&self) -> bool {
        self.wayland_client is Some && self.wayland_client_fd is Some && self.wm_fd is Some
    }
}

/// What was read says that the server is ready.
pub open spec fn says_ready(read: Option<u8>) -> bool {
    read == Some(READY_BYTE)
}

impl XWayland {
    /// The server was launched and nothing of it has been handed out.
    pub open spec fn is_starting(self) -> bool {
        self.instance matches Some(instance) && instance.is_whole()
    }

    /// What to do to shut the server down, if it is running.
    pub open spec fn shutdown_of(self) -> Option<Shutdown> {
        match self.instance {
            Some(instance) => Some(
                Shutdown { kill_client: instance.wayland_client, event: XWaylandEvent::Exited },
            ),
            None => None,
        }
    }

    /// The handle after the connections of the server were handed out.
    pub open spec fn handed_out(self) -> XWayland {
        XWayland {
            instance: Some(
                XWaylandInstance {
                    display: self.instance->0.display,
                    wayland_client: None,
                    wayland_client_fd: None,
                    wm_fd: None,
                },
            ),
        }
    }

    /// A handle without a server.
    pub fn new() -> (r: XWayland)
        ensures
            r.instance is None,
    {
        XWayland { instance: None }
    }

    /// Whether a server has to be launched to start it.
    ///
    /// There is nothing to do if the server is already started or starting.
    pub fn start(&self) -> (r: bool)
        ensures
            r == self.instance is None,
    {
        self.instance.is_none()
    }

    /// Takes on a server that was launched.
    pub fn launched(&mut self, display: u32, client: u64, client_fd: i32, wm_fd: i32)
        requires
            old(self).instance is None,
        ensures
            final(self).instance == Some(
                XWaylandInstance {
                    display,
                    wayland_client: Some(client),
                    wayland_client_fd: Some(client_fd),
                    wm_fd: Some(wm_fd),
                },
            ),
            final(self).is_starting(),
    {
        self.instance = Some(
            XWaylandInstance {
                display,
                wayland_client: Some(client),
                wayland_client_fd: Some(client_fd),
                wm_fd: Some(wm_fd),
            },
        );
    }

    /// Processes that the shell has written, or has failed to.
    ///
    /// `read` is the byte that was read, if there was one. If the server is ready, its connections
    /// are handed out; otherwise it has crashed at startup and is not restarted.
    pub fn ready(&mut self, read: Option<u8>) -> (r: Option<Startup>)
        requires
            old(self).is_starting(),
        ensures
            match r {
                Some(startup) => {
                    let instance = old(self).instance->0;
                    &&& says_ready(read)
                    &&& startup.display_variable@ == ":"@ + crate::utils::text::decimal(
                        instance.display as nat,
                    )
                    &&& startup.event == (XWaylandEvent::Ready {
                        connection: instance.wm_fd->0,
                        client: instance.wayland_client->0,
                        client_fd: instance.wayland_client_fd->0,
                        display: instance.display,
                    })
                    &&& *final(self) == old(self).handed_out()
                },
                None => !says_ready(read) && *final(self) == *old(self),
            },
    {
        let success: bool = match read {
            Some(byte) => byte == READY_BYTE,
            None => false,
        };
        if !success {
            return None;
        }
        match self.instance {
            Some(instance) => {
                let connection: i32 = instance.wm_fd.unwrap();
                let client: u64 = instance.wayland_client.unwrap();
                let client_fd: i32 = instance.wayland_client_fd.unwrap();
                self.instance = Some(
                    XWaylandInstance {
                        display: instance.display,
                        wayland_client: None,
                        wayland_client_fd: None,
                        wm_fd: None,
                    },
                );
                let mut display_variable: String = ":".to_owned();
                push_decimal(&mut display_variable, instance.display as u64);
                Some(
                    Startup {
                        display_variable,
                        event: XWaylandEvent::Ready {
                            connection,
                            client,
                            client_fd,
                            display: instance.display,
                        },
                    },
                )
            },
            None => None,
        }
    }

    /// Shuts the server down.
    ///
    /// Does nothing if it was not already running. The process is not killed: it dies when our side
    /// of its connections is closed.
    pub fn shutdown(&mut self) -> (r: Option<Shutdown>)
        ensures
            final(self).instance is None,
            r == old(self).shutdown_of(),
    {
        match self.instance.take() {
            Some(instance) => Some(
                Shutdown { kill_client: instance.wayland_client, event: XWaylandEvent::Exited },
            ),
            None => None,
        }
    }

    /// Shuts the server down since its client has disconnected.
    ///
    /// If the handle is in use, a shutdown is in progress already and nothing is done.
    pub fn disconnected(&mut self, in_use: bool) -> (r: Option<Shutdown>)
        ensures
            in_use ==> r is None && *final(self) == *old(self),
            !in_use ==> {
                &&& final(self).instance is None
                &&& r == old(self).shutdown_of()
            },
    {
        if in_use {
            None
        } else {
            self.shutdown()
        }
    }
}

/// Shutting the server down does nothing if it is not running, and after it the server can be
/// started again.
pub proof fn shutdown_is_done_once(handle: XWayland)
    ensures
        handle.instance is None ==> handle.shutdown_of() is None,
        handle.instance is Some ==> handle.shutdown_of() is Some,
        (XWayland { instance: None }).shutdown_of() is None,
{
}

/// The server is reported as ready at most once for each time that it is launched. It counts as
/// running until it is shut down, and its client is then not killed, since it was handed out.
pub proof fn ready_is_reported_once(handle: XWayland)
    requires
        handle.is_starting(),
    ensures
        !handle.handed_out().is_starting(),
        handle.handed_out().instance is Some,
        handle.handed_out().shutdown_of() == Some(
            Shutdown { kill_client: None, event: XWaylandEvent::Exited },
        ),
{
}

/// The sockets that a server listens on, as arguments of its command line.
pub open spec fn listen_arguments(sockets: Seq<i32>) -> Seq<char>
    decreases sockets.len(),
{
    if sockets.len() == 0 {
        Seq::empty()
    } else {
        listen_arguments(sockets.drop_last()) + " -listenfd "@
            + crate::utils::text::signed_decimal(sockets.last() as int)
    }
}

/// The arguments of the command line of a server.
pub open spec fn server_arguments(display: u32, wm_socket: i32, sockets: Seq<i32>) -> Seq<char> {
    ":"@ + crate::utils::text::decimal(display as nat) + " -rootless -terminate -wm "@
        + crate::utils::text::signed_decimal(wm_socket as int) + listen_arguments(sockets)
}

/// The arguments of the command line of a server: see `server_arguments`.
pub fn xwayland_args(display: u32, wm_socket: i32, listen_sockets: &Vec<i32>) -> (r: String)
    ensures
        r@ == server_arguments(display, wm_socket, listen_sockets@),
{
    let mut arguments: String = ":".to_owned();
    push_decimal(&mut arguments, display as u64);
    arguments.append(" -rootless -terminate -wm ");
    push_signed(&mut arguments, wm_socket);
    let ghost start = arguments@;
    let mut i: usize = 0;
    assert(arguments@ =~= start + listen_arguments(listen_sockets@.take(0)));
    while i < listen_sockets.len()
        invariant
            i <= listen_sockets@.len(),
            arguments@ == start + listen_arguments(listen_sockets@.take(i as int)),
        decreases listen_sockets@.len() - i,
    {
        let ghost next = listen_sockets@.take(i + 1);
        assert(next.drop_last() =~= listen_sockets@.take(i as int));
        arguments.append(" -listenfd ");
        push_signed(&mut arguments, listen_sockets[i]);
        assert(arguments@ =~= start + listen_arguments(next));
        i = i + 1;
    }
    assert(listen_sockets@.take(i as int) =~= listen_sockets@);
    arguments
}

/// The command that the shell is to execute.
///
/// It has the shell
/// - set up a handler for the signal `USR1`,
/// - launch the server with `USR1` ignored, so that the server signals when it is ready, and with
///   its output redirected, so that it does not get in the way,
/// - print `S` and exit if `USR1` is received.
pub fn shell_command(display: u32, wm_socket: i32, listen_sockets: &Vec<i32>) -> (r: String)
    ensures
        r@ == "trap 'echo S' USR1; (trap '' USR1; exec Xwayland "@ + server_arguments(
            display,
            wm_socket,
            listen_sockets@,
        ) + ") 1>&2 & wait"@,
{
    let mut command: String = "trap 'echo S' USR1; (trap '' USR1; exec Xwayland ".to_owned();
    let arguments: String = xwayland_args(display, wm_socket, listen_sockets);
    command.append(arguments.as_str());
    command.append(") 1>&2 & wait");
    command
}

/// Whether a variable of the environment is passed on to the server: everything is cleared except
/// `PATH` and `XDG_RUNTIME_DIR`.
pub fn keeps_variable(name: &String) -> (r: bool)
    ensures
        r <==> name@ == "PATH"@ || name@ == "XDG_RUNTIME_DIR"@,
{
    let path: String = "PATH".to_owned();
    let runtime_dir: String = "XDG_RUNTIME_DIR".to_owned();
    *name == path || *name == runtime_dir
}

/// The value of `WAYLAND_SOCKET` in the environment of the server.
pub fn wayland_socket_variable(wayland_socket: i32) -> (r: String)
    ensures
        r@ == crate::utils::text::signed_decimal(wayland_socket as int),
{
    let mut value: String = "".to_owned();
    proof {
        reveal_strlit("");
    }
    push_signed(&mut value, wayland_socket);
    assert(value@ =~= crate::utils::text::signed_decimal(wayland_socket as int));
    value
}

/// The sockets that are passed to the server, and that must not be closed when it is executed, in
/// the order in which they are prepared.
pub fn inherited_sockets(wayland_socket: i32, wm_socket: i32, listen_sockets: &Vec<i32>) -> (r:
    Vec<i32>)
    ensures
        r@ == seq![wayland_socket, wm_socket] + listen_sockets@,
{
    let mut sockets: Vec<i32> = vec![wayland_socket, wm_socket];
    let mut i: usize = 0;
    assert(sockets@ =~= seq![wayland_socket, wm_socket] + listen_sockets@.take(0));
    while i < listen_sockets.len()
        invariant
            i <= listen_sockets@.len(),
            sockets@ == seq![wayland_socket, wm_socket] + listen_sockets@.take(i as int),
        decreases listen_sockets@.len() - i,
    {
        sockets.push(listen_sockets[i]);
        i = i + 1;
        assert(sockets@ =~= seq![wayland_socket, wm_socket] + listen_sockets@.take(i as int));
    }
    assert(listen_sockets@.take(i as int) =~= listen_sockets@);
    sockets
}

} // verus!
