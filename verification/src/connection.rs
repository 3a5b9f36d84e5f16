//! Per-daemon connection state surfaced in a header: one record per daemon
//! the client talks to (criome and the nexus renderer), each with its
//! lifecycle stage, negotiated protocol version and last disconnect reason.

use vstd::prelude::*;

verus! {

/// Live state of both daemon connections.
#[derive(Debug, Clone, PartialEq, Eq)]
pub struct ConnectionState {
    pub criome: PerDaemonState,
    pub nexus: PerDaemonState,
}

/// One daemon's state. Used twice in [`ConnectionState`].
#[derive(Debug, Clone, PartialEq, Eq)]
pub struct PerDaemonState {
    pub status: DaemonStatus,
    pub protocol_version: Option<String>,
    /// Reason the connection ended, if applicable. Surfaced to the user —
    /// there is no automatic reconnect.
    pub last_disconnect_reason: Option<String>,
}

/// Lifecycle stages for one daemon.
#[derive(Debug, Clone, Copy, PartialEq, Eq, Structural)]
pub enum DaemonStatus {
    Disconnected,
    Connecting,
    Handshaking,
    Connected,
}

/// View of one daemon's connection. Pure data; the shell paints it.
#[derive(Debug, Clone, PartialEq, Eq)]
pub struct ConnectionView {
    pub label: String,
    pub status: DaemonStatus,
    pub version: Option<String>,
    pub note: Option<String>,
}

impl PerDaemonState {
    /// A daemon that has never connected: disconnected, with no version and no
    /// disconnect reason.
    pub open spec fn is_pristine(self) -> bool {
        &&& self.status == DaemonStatus::Disconnected
        &&& self.protocol_version is None
        &&& self.last_disconnect_reason is None
    }

    pub fn disconnected() -> (state: Self)
        ensures
            state.is_pristine(),
    {
        PerDaemonState {
            status: DaemonStatus::Disconnected,
            protocol_version: None,
            last_disconnect_reason: None,
        }
    }
}

impl ConnectionState {
    pub fn new() -> (state: Self)
        ensures
            state.criome.is_pristine(),
            state.nexus.is_pristine(),
    {
        ConnectionState { criome: PerDaemonState::disconnected(), nexus: PerDaemonState::disconnected() }
    }
}

impl Default for ConnectionState {
    fn default() -> (state: Self)
        ensures
            state.criome.is_pristine(),
            state.nexus.is_pristine(),
    {
        Self::new()
    }
}

} // verus!
