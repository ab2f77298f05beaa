use takeflight::error::Error;
use takeflight::server::{
    client_socket_check, drone_heartbeat, event_target, ping_result, route_info, route_token, ConnectionKind,
    DroneHeartbeat, EventTarget, InfoRoute, PingOutcome, TokenRoute, CONNECT_TIMEOUT_NANOS,
};

#[test]
fn socket_type_names() {
    assert_eq!(ConnectionKind::Tcp.socket_type_name(), "Unpromoted TCP");
    assert_eq!(ConnectionKind::Udp.socket_type_name(), "Unpromoted UDP");
    assert_eq!(ConnectionKind::ServerInfo.socket_type_name(), "ServerInfo");
    assert_eq!(ConnectionKind::Camera.socket_type_name(), "Camera");
    assert!(ConnectionKind::Drone.shareable());
    assert!(!ConnectionKind::Tcp.shareable());
}

#[test]
fn events_go_to_their_handlers() {
    assert_eq!(event_target(0), EventTarget::Listener);
    assert_eq!(event_target(65536), EventTarget::InternalSignals);
    assert_eq!(event_target(8889), EventTarget::Connection(8889));
}

#[test]
fn readable_connections_are_routed_by_kind() {
    assert_eq!(
        route_token(None),
        Err(Error::Custom("Somehow registry included an unmapped value! Shutting down server!"))
    );
    assert_eq!(route_token(Some(ConnectionKind::Tcp)), Ok(TokenRoute::PromoteStream));
    assert_eq!(route_token(Some(ConnectionKind::ServerInfo)), Ok(TokenRoute::InfoActivity));
    assert_eq!(route_token(Some(ConnectionKind::Drone)), Ok(TokenRoute::DroneSignal));
    assert_eq!(route_token(Some(ConnectionKind::ClientControl)), Ok(TokenRoute::ControlActivity));
    assert_eq!(
        route_token(Some(ConnectionKind::VideoOut)),
        Err(Error::Custom(
            "Error within drain_events token case. Did not know how to handle this connection..."
        ))
    );
}

#[test]
fn heartbeat_waits_for_the_connect_timeout() {
    assert_eq!(drone_heartbeat(true, u128::MAX), DroneHeartbeat::Ping);
    assert_eq!(drone_heartbeat(false, CONNECT_TIMEOUT_NANOS), DroneHeartbeat::AwaitConnection);
    assert_eq!(
        drone_heartbeat(false, CONNECT_TIMEOUT_NANOS + 1),
        DroneHeartbeat::ReportFailedConnection
    );
    assert_eq!(drone_heartbeat(false, 0), DroneHeartbeat::AwaitConnection);
}

#[test]
fn ping_failures() {
    assert_eq!(ping_result(PingOutcome::Sent), Ok(()));
    assert_eq!(ping_result(PingOutcome::WouldBlock), Ok(()));
    assert_eq!(
        ping_result(PingOutcome::IoFailure),
        Err(Error::Custom("IO error occurred while pinging a drone!"))
    );
    assert_eq!(
        ping_result(PingOutcome::OtherFailure),
        Err(Error::Custom("Generic error occurred while pinging a drone!"))
    );
}

#[test]
fn info_packets_need_an_info_socket() {
    assert_eq!(route_info(false, None), (Ok(InfoRoute::NoCandidate), false));
    assert_eq!(route_info(true, Some(ConnectionKind::ServerInfo)), (Ok(InfoRoute::Send), true));
    assert_eq!(
        route_info(true, None),
        (
            Err(Error::Custom(
                "While attempting to send info, found that the current token was invalid!"
            )),
            false
        )
    );
    assert_eq!(
        route_info(true, Some(ConnectionKind::Drone)).0,
        Err(Error::Custom(
            "While attempting to send info, found that the info socket was the wrong type of connection!"
        ))
    );
}

#[test]
fn client_sockets_must_have_their_kind() {
    assert_eq!(client_socket_check(ConnectionKind::ServerInfo, Some(ConnectionKind::ServerInfo)), Ok(()));
    assert_eq!(
        client_socket_check(ConnectionKind::ServerInfo, Some(ConnectionKind::Drone)),
        Err(Error::Custom("Info socket was NOT the right type of connection."))
    );
    assert_eq!(
        client_socket_check(ConnectionKind::ClientControl, None),
        Err(Error::Custom(
            "The client's drone control socket was somehow not in the ownership map. "
        ))
    );
    assert_eq!(
        client_socket_check(ConnectionKind::ClientControl, Some(ConnectionKind::VideoOut)),
        Err(Error::Custom("Drone control socket was NOT the right type of connection."))
    );
}
