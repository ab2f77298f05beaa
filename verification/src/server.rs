//! The decisions of the ground station's event loop: where a polled event
//! goes, what a readable connection is handed to, and how each drone is
//! treated on a heartbeat tick. The loop itself (polling, sockets, locks)
//! runs outside the library and acts on these answers.
use crate::error::Error;
use vstd::prelude::*;

verus! {

/// The token of the listening socket.
pub const LISTENER: usize = 0;

/// The token of the internal signal queue (one past the last port number).
pub const INTERNAL_SIGNALLER: usize = 65536;

/// How long a drone may take to connect, in nanoseconds (1.5 s).
pub const CONNECT_TIMEOUT_NANOS: u128 = 1_500_000_000;

/// The kinds of connection the server keeps, by token.
#[derive(Debug, Clone, Copy, PartialEq, Eq, Structural)]
pub enum ConnectionKind {
    /// A TCP stream that has not yet said what it is for.
    Tcp,
    /// A UDP socket that has not yet been given a role.
    Udp,
    ClientControl,
    VideoOut,
    ServerInfo,
    Drone,
    Camera,
}

impl ConnectionKind {
    pub open spec fn spec_socket_type_name(self) -> Seq<char> {
        match self {
            ConnectionKind::Tcp => "Unpromoted TCP"@,
            ConnectionKind::Udp => "Unpromoted UDP"@,
            ConnectionKind::ClientControl => "ClientControl"@,
            ConnectionKind::VideoOut => "VideoOut"@,
            ConnectionKind::ServerInfo => "ServerInfo"@,
            ConnectionKind::Drone => "Drone"@,
            ConnectionKind::Camera => "Camera"@,
        }
    }

    /// The name a connection of this kind is logged under.
    pub fn socket_type_name(&self) -> (r: &'static str)
        ensures
            r@ == self.spec_socket_type_name(),
    {
        match self {
            ConnectionKind::Tcp => "Unpromoted TCP",
            ConnectionKind::Udp => "Unpromoted UDP",
            ConnectionKind::ClientControl => "ClientControl",
            ConnectionKind::VideoOut => "VideoOut",
            ConnectionKind::ServerInfo => "ServerInfo",
            ConnectionKind::Drone => "Drone",
            ConnectionKind::Camera => "Camera",
        }
    }

    /// Whether a connection of this kind can be shared (its handle cloned)
    /// while the connection map is unlocked: the promoted streams and the
    /// drones can, the unpromoted sockets cannot.
    pub open spec fn spec_shareable(self) -> bool {
        match self {
            ConnectionKind::ClientControl | ConnectionKind::VideoOut | ConnectionKind::ServerInfo
            | ConnectionKind::Drone => true,
            _ => false,
        }
    }

    /// Whether a connection of this kind can be shared; cameras are not
    /// supported.
    pub fn shareable(&self) -> (r: bool)
        requires
            *self != ConnectionKind::Camera,
        ensures
            r == self.spec_shareable(),
    {
        match self {
            ConnectionKind::ClientControl | ConnectionKind::VideoOut | ConnectionKind::ServerInfo
            | ConnectionKind::Drone => true,
            _ => false,
        }
    }
}

/// Where a polled event is handled.
#[derive(Debug, Clone, Copy, PartialEq, Eq)]
pub enum EventTarget {
    /// Accept the pending TCP streams.
    Listener,
    /// Drain the internal signal queue.
    InternalSignals,
    /// Handle activity on the connection with this token.
    Connection(usize),
}

pub open spec fn spec_event_target(token: usize) -> EventTarget {
    if token == LISTENER {
        EventTarget::Listener
    } else if token == INTERNAL_SIGNALLER {
        EventTarget::InternalSignals
    } else {
        EventTarget::Connection(token)
    }
}

/// Where the event of a token is handled.
pub fn event_target(token: usize) -> (r: EventTarget)
    ensures
        r == spec_event_target(token),
{
    if token == LISTENER {
        EventTarget::Listener
    } else if token == INTERNAL_SIGNALLER {
        EventTarget::InternalSignals
    } else {
        EventTarget::Connection(token)
    }
}

/// What a readable connection is handed to.
#[derive(Debug, Clone, Copy, PartialEq, Eq)]
pub enum TokenRoute {
    /// An unpromoted stream: read its handshake and give it its role.
    PromoteStream,
    /// Read an information packet from the client.
    InfoActivity,
    /// Let the drone read what it was sent.
    DroneSignal,
    /// Read a control message from the client.
    ControlActivity,
}

pub open spec fn spec_route_token(kind: Option<ConnectionKind>) -> Result<TokenRoute, Error> {
    match kind {
        None => Err(Error::Custom("Somehow registry included an unmapped value! Shutting down server!")),
        Some(ConnectionKind::Tcp) => Ok(TokenRoute::PromoteStream),
        Some(ConnectionKind::ServerInfo) => Ok(TokenRoute::InfoActivity),
        Some(ConnectionKind::Drone) => Ok(TokenRoute::DroneSignal),
        Some(ConnectionKind::ClientControl) => Ok(TokenRoute::ControlActivity),
        Some(_) => Err(
            Error::Custom(
                "Error within drain_events token case. Did not know how to handle this connection...",
            ),
        ),
    }
}

/// What the readable connection of kind `kind` is handed to (`None`: the
/// token is not in the connection map, which stops the server). Unpromoted
/// UDP sockets and cameras never become readable connections of the map.
pub fn route_token(kind: Option<ConnectionKind>) -> (r: Result<TokenRoute, Error>)
    requires
        kind != Some(ConnectionKind::Udp),
        kind != Some(ConnectionKind::Camera),
    ensures
        r == spec_route_token(kind),
{
    match kind {
        None => Err(Error::Custom("Somehow registry included an unmapped value! Shutting down server!")),
        Some(ConnectionKind::Tcp) => Ok(TokenRoute::PromoteStream),
        Some(ConnectionKind::ServerInfo) => Ok(TokenRoute::InfoActivity),
        Some(ConnectionKind::Drone) => Ok(TokenRoute::DroneSignal),
        Some(ConnectionKind::ClientControl) => Ok(TokenRoute::ControlActivity),
        Some(_) => Err(
            Error::Custom(
                "Error within drain_events token case. Did not know how to handle this connection...",
            ),
        ),
    }
}

/// What a heartbeat tick does with one drone.
#[derive(Debug, Clone, Copy, PartialEq, Eq)]
pub enum DroneHeartbeat {
    /// Send it a heartbeat.
    Ping,
    /// It is still connecting: leave it alone.
    AwaitConnection,
    /// It did not connect in time: report the failure and drop it.
    ReportFailedConnection,
}

pub open spec fn spec_drone_heartbeat(connected: bool, nanos_since_created: u128) -> DroneHeartbeat {
    if connected {
        DroneHeartbeat::Ping
    } else if nanos_since_created > CONNECT_TIMEOUT_NANOS {
        DroneHeartbeat::ReportFailedConnection
    } else {
        DroneHeartbeat::AwaitConnection
    }
}

/// What a heartbeat tick does with a drone that is `connected` or not, and
/// was created `nanos_since_created` nanoseconds ago.
pub fn drone_heartbeat(connected: bool, nanos_since_created: u128) -> (r: DroneHeartbeat)
    ensures
        r == spec_drone_heartbeat(connected, nanos_since_created),
{
    if connected {
        DroneHeartbeat::Ping
    } else if nanos_since_created > CONNECT_TIMEOUT_NANOS {
        DroneHeartbeat::ReportFailedConnection
    } else {
        DroneHeartbeat::AwaitConnection
    }
}

/// How sending a heartbeat to a drone went.
#[derive(Debug, Clone, Copy, PartialEq, Eq)]
pub enum PingOutcome {
    Sent,
    /// The socket was not ready; the next tick tries again.
    WouldBlock,
    /// Any other I/O failure.
    IoFailure,
    /// A failure that is not an I/O one.
    OtherFailure,
}

pub open spec fn spec_ping_result(outcome: PingOutcome) -> Result<(), Error> {
    match outcome {
        PingOutcome::Sent | PingOutcome::WouldBlock => Ok(()),
        PingOutcome::IoFailure => Err(Error::Custom("IO error occurred while pinging a drone!")),
        PingOutcome::OtherFailure => Err(Error::Custom("Generic error occurred while pinging a drone!")),
    }
}

/// Whether the heartbeat tick goes on after a ping: a socket that would
/// block is tried again later, any other failure ends the tick.
pub fn ping_result(outcome: PingOutcome) -> (r: Result<(), Error>)
    ensures
        r == spec_ping_result(outcome),
{
    match outcome {
        PingOutcome::Sent | PingOutcome::WouldBlock => Ok(()),
        PingOutcome::IoFailure => Err(Error::Custom("IO error occurred while pinging a drone!")),
        PingOutcome::OtherFailure => Err(Error::Custom("Generic error occurred while pinging a drone!")),
    }
}

/// Where an information packet for the client goes.
#[derive(Debug, Clone, Copy, PartialEq, Eq)]
pub enum InfoRoute {
    /// No information socket is known: the packet is dropped with a warning.
    NoCandidate,
    /// Write the packet to the information socket.
    Send,
}

pub open spec fn spec_route_info(token_known: bool, kind: Option<ConnectionKind>) -> (
    Result<InfoRoute, Error>,
    bool,
) {
    if !token_known {
        (Ok(InfoRoute::NoCandidate), false)
    } else {
        match kind {
            None => (
                Err(Error::Custom("While attempting to send info, found that the current token was invalid!")),
                false,
            ),
            Some(ConnectionKind::ServerInfo) => (Ok(InfoRoute::Send), true),
            Some(_) => (
                Err(
                    Error::Custom(
                        "While attempting to send info, found that the info socket was the wrong type of connection!",
                    ),
                ),
                false,
            ),
        }
    }
}

/// Where an information packet goes, given whether an information token is
/// known and the kind of connection the map holds under it; and whether
/// the token is kept (a stale or mistyped token is forgotten).
pub fn route_info(token_known: bool, kind: Option<ConnectionKind>) -> (r: (Result<InfoRoute, Error>, bool))
    ensures
        r == spec_route_info(token_known, kind),
{
    if !token_known {
        return (Ok(InfoRoute::NoCandidate), false);
    }
    match kind {
        None => (
            Err(Error::Custom("While attempting to send info, found that the current token was invalid!")),
            false,
        ),
        Some(ConnectionKind::ServerInfo) => (Ok(InfoRoute::Send), true),
        Some(_) => (
            Err(
                Error::Custom(
                    "While attempting to send info, found that the info socket was the wrong type of connection!",
                ),
            ),
            false,
        ),
    }
}

pub open spec fn spec_client_socket_check(expected: ConnectionKind, found: Option<ConnectionKind>) -> Result<
    (),
    Error,
> {
    match found {
        None => if expected == ConnectionKind::ServerInfo {
            Err(Error::Custom("The client's info socket was somehow not in the ownership map. Local: {}, Peer: {}"))
        } else {
            Err(Error::Custom("The client's drone control socket was somehow not in the ownership map. "))
        },
        Some(k) => if k == expected {
            Ok(())
        } else if expected == ConnectionKind::ServerInfo {
            Err(Error::Custom("Info socket was NOT the right type of connection."))
        } else {
            Err(Error::Custom("Drone control socket was NOT the right type of connection."))
        },
    }
}

/// Checks that activity on the client's information (`ServerInfo`) or
/// control (`ClientControl`) socket came from a connection of that kind in
/// the map; on an error for a missing connection the server forgets the
/// socket's token.
pub fn client_socket_check(expected: ConnectionKind, found: Option<ConnectionKind>) -> (r: Result<(), Error>)
    requires
        expected == ConnectionKind::ServerInfo || expected == ConnectionKind::ClientControl,
    ensures
        r == spec_client_socket_check(expected, found),
{
    let info = expected == ConnectionKind::ServerInfo;
    match found {
        None => if info {
            Err(Error::Custom("The client's info socket was somehow not in the ownership map. Local: {}, Peer: {}"))
        } else {
            Err(Error::Custom("The client's drone control socket was somehow not in the ownership map. "))
        },
        Some(k) => if k == expected {
            Ok(())
        } else if info {
            Err(Error::Custom("Info socket was NOT the right type of connection."))
        } else {
            Err(Error::Custom("Drone control socket was NOT the right type of connection."))
        },
    }
}

/// A drone is reported as failed only while it is not connected, and only
/// once the timeout has passed; a connected drone is always pinged.
pub proof fn lemma_heartbeat_timeout(connected: bool, a: u128, b: u128)
    requires
        a <= b,
    ensures
        spec_drone_heartbeat(connected, a) == DroneHeartbeat::ReportFailedConnection ==> spec_drone_heartbeat(
            connected,
            b,
        ) == DroneHeartbeat::ReportFailedConnection,
        connected ==> spec_drone_heartbeat(connected, a) == DroneHeartbeat::Ping,
{
}

} // verus!
