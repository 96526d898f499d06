//! XDG decoration protocol.
//!
//! The client and the compositor negotiate whether the client or the server draws the decorations
//! of a toplevel surface. Clients which do not use the protocol draw their own.

use vstd::prelude::*;

use super::protocol::decoration_mode;

verus! {

/// The number of the mode in which the client draws the decorations.
pub const MODE_CLIENT_SIDE: u32 = 1;

/// The number of the mode in which the server draws the decorations.
pub const MODE_SERVER_SIDE: u32 = 2;

/// The decoration mode of a surface.
#[derive(Debug, Clone, Copy, PartialEq, Eq)]
pub enum DecorationMode {
    /// Decorations should be drawn by the client.
    ClientSide,
    /// Decorations should be drawn by the server.
    ServerSide,
}

impl DecorationMode {
    /// The number of the mode in the protocol.
    pub open spec fn number(self) -> u32 {
        match self {
            DecorationMode::ClientSide => MODE_CLIENT_SIDE,
            DecorationMode::ServerSide => MODE_SERVER_SIDE,
        }
    }

    /// The number of the mode in the protocol.
    pub fn to_protocol(&self) -> (r: u32)
        ensures
            r == self.number(),
    {
        match self {
            DecorationMode::ClientSide => MODE_CLIENT_SIDE,
            DecorationMode::ServerSide => MODE_SERVER_SIDE,
        }
    }

    /// The mode that the protocol has under a number, if there is one.
    pub fn from_protocol(code: u32) -> (r: Option<DecorationMode>)
        ensures
            match r {
                Some(mode) => mode.number() == code,
                None => code != MODE_CLIENT_SIDE && code != MODE_SERVER_SIDE,
            },
    {
        match decoration_mode(code) {
            Some(code) => {
                if code == MODE_CLIENT_SIDE {
                    Some(DecorationMode::ClientSide)
                } else {
                    Some(DecorationMode::ServerSide)
                }
            },
            None => None,
        }
    }
}

/// A decoration object for a toplevel surface.
#[derive(Debug, Clone, Copy)]
pub struct ToplevelDecoration {
    /// The object.
    pub inner: u64,
    /// The surface.
    pub surface: u64,
    /// The current mode.
    pub mode: DecorationMode,
}

/// The event that asks a client to use a mode.
#[derive(Debug, Clone, Copy, PartialEq, Eq)]
pub struct Configure {
    /// The decoration object.
    pub inner: u64,
    /// The number of the mode.
    pub mode: u32,
}

impl ToplevelDecoration {
    /// Returns the surface this decoration state belongs to.
    pub fn surface(&self) -> (r: u64)
        ensures
            r == self.surface,
    {
        self.surface
    }

    /// Returns the current decoration mode.
    pub fn mode(&self) -> (r: DecorationMode)
        ensures
            r == self.mode,
    {
        self.mode
    }

    /// Asks the client to change the decoration mode of the toplevel surface.
    pub fn set_mode(&mut self, mode: DecorationMode) -> (r: Configure)
        ensures
            *final(self) == (ToplevelDecoration { mode, ..*old(self) }),
            r == (Configure { inner: old(self).inner, mode: mode.number() }),
    {
        self.mode = mode;
        Configure { inner: self.inner, mode: mode.to_protocol() }
    }
}

/// A request a client may send regarding the current state of decorations.
#[derive(Debug, Clone, Copy)]
pub enum DecorationRequest {
    /// The client has requested that the decoration mode of the surface should be changed.
    ///
    /// The compositor should respond to the surface with an ack-configure event.
    SetMode {
        /// The decoration.
        decoration: ToplevelDecoration,
        /// The new decoration mode.
        mode: DecorationMode,
    },
    /// The client has indicated it does not prefer a particular decoration mode.
    ///
    /// The compositor should respond to the surface with an ack-configure event.
    UnsetMode {
        /// The decoration.
        decoration: ToplevelDecoration,
    },
    /// The client has switched back to a mode with no server side decorations for the next commit.
    Destroy {
        /// The decoration.
        decoration: ToplevelDecoration,
    },
}

/// Tracks the current state of decoration modes.
pub struct DecorationManager {
    /// The decorations of toplevel surfaces which understand this protocol.
    pub decorations: Vec<ToplevelDecoration>,
}

impl DecorationManager {
    /// Returns all decoration settings for toplevel surfaces which understand this protocol.
    pub fn decorations(&self) -> (r: &Vec<ToplevelDecoration>)
        ensures
            *r == self.decorations,
    {
        &self.decorations
    }

    /// Returns the decoration state for a toplevel surface: the first that there is.
    ///
    /// Returns none if the client providing the surface does not declare the ability to understand
    /// the decoration protocol.
    pub fn get_decoration(&self, toplevel: u64) -> (r: Option<&ToplevelDecoration>)
        ensures
            match r {
                Some(decoration) => exists|i: int|
                    {
                        &&& 0 <= i < self.decorations@.len()
                        &&& #[trigger] self.decorations@[i] == *decoration
                        &&& decoration.surface == toplevel
                        &&& forall|j: int|
                            0 <= j < i ==> (#[trigger] self.decorations@[j]).surface != toplevel
                    },
                None => forall|j: int|
                    0 <= j < self.decorations@.len() ==> (#[trigger] self.decorations@[j]).surface
                        != toplevel,
            },
    {
        let mut i: usize = 0;
        while i < self.decorations.len()
            invariant
                i <= self.decorations@.len(),
                forall|j: int| 0 <= j < i ==> (#[trigger] self.decorations@[j]).surface != toplevel,
            decreases self.decorations@.len() - i,
        {
            if self.decorations[i].surface() == toplevel {
                assert(self.decorations@[i as int].surface == toplevel);
                return Some(&self.decorations[i]);
            }
            i = i + 1;
        }
        None
    }
}

/// The state of a decoration manager that was just announced: no surface has decorations yet.
pub fn init_decoration_manager() -> (r: DecorationManager)
    ensures
        r.decorations@.len() == 0,
{
    DecorationManager { decorations: Vec::new() }
}

/// A mode is told apart from every other by its number.
pub proof fn mode_numbers_differ(a: DecorationMode, b: DecorationMode)
    ensures
        a.number() == b.number() <==> a == b,
{
}

} // verus!
