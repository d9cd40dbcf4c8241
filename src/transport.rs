//! Transports of the control channel: where the server listens, who is on the
//! other end of a connection, and how the accept loop reacts to each event.

use vstd::prelude::*;

verus! {

/// Which transport carries a connection.
#[derive(Debug, Clone, Copy, PartialEq, Eq, Structural)]
pub enum TransportKind {
    LocalSocket,
    VmSocket,
}

/// Identity of the peer of a connection, captured when it was accepted.
#[derive(Debug, Clone, Copy, PartialEq, Eq, Structural)]
pub enum PeerIdentity {
    /// Kernel credentials of the process at the other end of a local socket.
    Local { pid: Option<i32>, uid: u32, gid: u32 },
    /// Context id and port of the other end of a VM socket.
    Vm { cid: u32, port: u32 },
}

impl PeerIdentity {
    /// The transport that this identity belongs to.
    pub fn transport_kind(&self) -> (r: TransportKind)
        ensures
            (self is Local) <==> r == TransportKind::LocalSocket,
            (self is Vm) <==> r == TransportKind::VmSocket,
    {
        match self {
            PeerIdentity::Local { .. } => TransportKind::LocalSocket,
            PeerIdentity::Vm { .. } => TransportKind::VmSocket,
        }
    }
}

/// Where the server listens.
pub enum ListenAddress {
    LocalSocket { path: String },
    VmSocket { cid: u32, port: u32 },
}

impl ListenAddress {
    pub fn transport_kind(&self) -> (r: TransportKind)
        ensures
            (self is LocalSocket) <==> r == TransportKind::LocalSocket,
            (self is VmSocket) <==> r == TransportKind::VmSocket,
    {
        match self {
            ListenAddress::LocalSocket { .. } => TransportKind::LocalSocket,
            ListenAddress::VmSocket { .. } => TransportKind::VmSocket,
        }
    }
}

/// The socket path to bind: the one given explicitly, else the configured one.
pub fn socket_path(explicit: Option<String>, configured: String) -> (r: String)
    ensures
        r == match explicit {
            Some(p) => p,
            None => configured,
        },
{
    match explicit {
        Some(p) => p,
        None => configured,
    }
}

/// Life cycle of a listener.
#[derive(Debug, Clone, Copy, PartialEq, Eq, Structural)]
pub enum ListenerState {
    Unbound,
    Bound,
    Accepting,
    Closed,
}

/// What happened to a listener.
#[derive(Debug, Clone, Copy, PartialEq, Eq, Structural)]
pub enum ListenerEvent {
    BindSucceeded,
    BindFailed,
    Accepted,
    AcceptFailed,
    Shutdown,
}

/// What the server does next.
#[derive(Debug, Clone, Copy, PartialEq, Eq, Structural)]
pub enum ListenerAction {
    /// Start the accept loop.
    StartAccepting,
    /// Refuse to start: the address cannot be used.
    FailStartup,
    /// Log the audit line of the new connection and serve it on its own task.
    ServeConnection,
    /// Log the failed accept and wait for the next connection.
    LogAndContinue,
    /// Stop accepting.
    Stop,
    /// The event does not apply in this state.
    Ignore,
}

pub open spec fn listener_next(s: ListenerState, e: ListenerEvent) -> (ListenerState, ListenerAction) {
    match (s, e) {
        (ListenerState::Closed, _) => (ListenerState::Closed, ListenerAction::Ignore),
        (_, ListenerEvent::Shutdown) => (ListenerState::Closed, ListenerAction::Stop),
        (ListenerState::Unbound, ListenerEvent::BindSucceeded) => (ListenerState::Bound, ListenerAction::StartAccepting),
        (ListenerState::Unbound, ListenerEvent::BindFailed) => (ListenerState::Closed, ListenerAction::FailStartup),
        (ListenerState::Bound, ListenerEvent::Accepted) => (ListenerState::Accepting, ListenerAction::ServeConnection),
        (ListenerState::Accepting, ListenerEvent::Accepted) => (ListenerState::Accepting, ListenerAction::ServeConnection),
        (ListenerState::Bound, ListenerEvent::AcceptFailed) => (ListenerState::Accepting, ListenerAction::LogAndContinue),
        (ListenerState::Accepting, ListenerEvent::AcceptFailed) => (ListenerState::Accepting, ListenerAction::LogAndContinue),
        _ => (s, ListenerAction::Ignore),
    }
}

/// The listener's next state and action after an event. Only a failed bind
/// ends the server; a failed accept leaves the loop running.
pub fn listener_step(s: ListenerState, e: ListenerEvent) -> (r: (ListenerState, ListenerAction))
    ensures
        r == listener_next(s, e),
        e == ListenerEvent::AcceptFailed && (s == ListenerState::Bound || s == ListenerState::Accepting)
            ==> r.0 == ListenerState::Accepting,
{
    match (s, e) {
        (ListenerState::Closed, _) => (ListenerState::Closed, ListenerAction::Ignore),
        (_, ListenerEvent::Shutdown) => (ListenerState::Closed, ListenerAction::Stop),
        (ListenerState::Unbound, ListenerEvent::BindSucceeded) => (ListenerState::Bound, ListenerAction::StartAccepting),
        (ListenerState::Unbound, ListenerEvent::BindFailed) => (ListenerState::Closed, ListenerAction::FailStartup),
        (ListenerState::Bound, ListenerEvent::Accepted) => (ListenerState::Accepting, ListenerAction::ServeConnection),
        (ListenerState::Accepting, ListenerEvent::Accepted) => (ListenerState::Accepting, ListenerAction::ServeConnection),
        (ListenerState::Bound, ListenerEvent::AcceptFailed) => (ListenerState::Accepting, ListenerAction::LogAndContinue),
        (ListenerState::Accepting, ListenerEvent::AcceptFailed) => (ListenerState::Accepting, ListenerAction::LogAndContinue),
        _ => (s, ListenerAction::Ignore),
    }
}

/// Per-connection audit: the peer is logged once, before the first request.
pub struct ConnectionAudit {
    pub peer: PeerIdentity,
    pub logged: bool,
}

impl ConnectionAudit {
    /// A freshly accepted connection, not yet logged.
    pub fn new(peer: PeerIdentity) -> (r: ConnectionAudit)
        ensures
            r.peer == peer,
            !r.logged,
    {
        ConnectionAudit { peer, logged: false }
    }

    /// Called before each request; true exactly when the audit line is due,
    /// that is before the connection's first request.
    pub fn before_request(&mut self) -> (r: bool)
        ensures
            r == !old(self).logged,
            final(self).logged,
            final(self).peer == old(self).peer,
    {
        let due = !self.logged;
        self.logged = true;
        due
    }
}

} // verus!
