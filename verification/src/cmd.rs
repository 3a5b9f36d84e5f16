//! [`Cmd`] — the side-effects the outer runtime dispatches after an event is
//! folded into the model. Side-effects never run inside the model: `update` is
//! a pure function of `(state, event) -> (state, Vec<Cmd>)`.

use vstd::prelude::*;

use crate::contract::{ComponentSocketKind, MentciRequest};

verus! {

/// One side-effect to dispatch. The runtime executes these; the model only
/// describes them.
#[derive(Debug, Clone, PartialEq, Eq)]
pub enum Cmd {
    /// Send a Mentci request to a component socket. The runtime frames it,
    /// dials the socket configured for the kind, and raises the reply as an
    /// engine event.
    SendRequest { socket: ComponentSocketKind, request: MentciRequest },
}

impl Cmd {
    /// The component socket a command is addressed to.
    pub open spec fn target(self) -> ComponentSocketKind {
        match self {
            Cmd::SendRequest { socket, .. } => socket,
        }
    }

    /// Build a [`Cmd::SendRequest`] addressed to a component socket.
    pub fn send(socket: ComponentSocketKind, request: MentciRequest) -> (cmd: Self)
        ensures
            cmd == (Cmd::SendRequest { socket, request }),
    {
        Cmd::SendRequest { socket, request }
    }
}

} // verus!
