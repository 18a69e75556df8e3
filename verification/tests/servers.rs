use edgelet_http::server::{
    ConcurrencyThrottling, ConnectionPhase, ServerAction, ServerEvent, ServerState, ServerStatus,
};
use edgelet_http::{LocalEndpoint, SocketAddress};

fn take_in(server: &mut ServerState) -> usize {
    match server.handle(ServerEvent::Incoming) {
        ServerAction::IdentifyPeer(id) => id,
        other => panic!("expected an admission, got {:?}", other),
    }
}

fn serve(server: &mut ServerState) -> usize {
    let id = take_in(server);
    assert_eq!(server.handle(ServerEvent::PeerIdentified(id)), ServerAction::StartService(id));
    assert_eq!(server.handle(ServerEvent::ServiceReady(id)), ServerAction::Serve(id));
    id
}

#[test]
fn a_connection_goes_from_phase_to_phase() {
    let mut server = ServerState::new(ConcurrencyThrottling::NoLimit);
    let id = take_in(&mut server);
    assert_eq!(server.phase(id), Some(ConnectionPhase::Accepted));
    assert_eq!(server.handle(ServerEvent::PeerIdentified(id)), ServerAction::StartService(id));
    assert_eq!(server.phase(id), Some(ConnectionPhase::Starting));
    assert_eq!(server.handle(ServerEvent::ServiceReady(id)), ServerAction::Serve(id));
    assert_eq!(server.phase(id), Some(ConnectionPhase::Serving));
    assert_eq!(server.handle(ServerEvent::ConnectionClosed(id)), ServerAction::Close(id));
    assert_eq!(server.phase(id), None);
    assert_eq!(server.open_connections(), 0);
}

#[test]
fn the_limit_is_kept() {
    let mut server = ServerState::new(ConcurrencyThrottling::Limited(2));
    let first = serve(&mut server);
    let second = serve(&mut server);
    assert_ne!(first, second);
    assert_eq!(server.handle(ServerEvent::Incoming), ServerAction::Refuse(2));
    assert_eq!(server.handle(ServerEvent::Incoming), ServerAction::Refuse(2));
    assert_eq!(server.open_connections(), 2);
    assert_eq!(server.status(), ServerStatus::Running);
}

#[test]
fn a_limit_of_zero_refuses_all() {
    let mut server = ServerState::new(ConcurrencyThrottling::Limited(0));
    assert_eq!(server.handle(ServerEvent::Incoming), ServerAction::Refuse(0));
    assert_eq!(server.open_connections(), 0);
}

#[test]
fn every_end_of_a_connection_frees_its_place() {
    let mut server = ServerState::new(ConcurrencyThrottling::Limited(1));
    let id = serve(&mut server);
    assert_eq!(server.handle(ServerEvent::ConnectionClosed(id)), ServerAction::Close(id));
    let id = serve(&mut server);
    assert_eq!(
        server.handle(ServerEvent::ConnectionFailed(id)),
        ServerAction::CloseReportingError(id)
    );
    let id = take_in(&mut server);
    assert_eq!(server.handle(ServerEvent::PeerIdentified(id)), ServerAction::StartService(id));
    assert_eq!(
        server.handle(ServerEvent::ServiceFailed(id)),
        ServerAction::CloseReportingError(id)
    );
    take_in(&mut server);
    assert_eq!(server.handle(ServerEvent::Incoming), ServerAction::Refuse(1));
}

#[test]
fn a_place_is_freed_once() {
    let mut server = ServerState::new(ConcurrencyThrottling::Limited(1));
    let id = serve(&mut server);
    assert_eq!(server.handle(ServerEvent::ConnectionClosed(id)), ServerAction::Close(id));
    assert_eq!(server.handle(ServerEvent::ConnectionClosed(id)), ServerAction::Ignore);
    take_in(&mut server);
    assert_eq!(server.handle(ServerEvent::Incoming), ServerAction::Refuse(1));
}

#[test]
fn events_out_of_turn_are_ignored() {
    let mut server = ServerState::new(ConcurrencyThrottling::NoLimit);
    let id = take_in(&mut server);
    assert_eq!(server.handle(ServerEvent::ServiceReady(id)), ServerAction::Ignore);
    assert_eq!(server.handle(ServerEvent::ServiceFailed(id)), ServerAction::Ignore);
    assert_eq!(server.handle(ServerEvent::ConnectionClosed(id)), ServerAction::Ignore);
    assert_eq!(server.handle(ServerEvent::ConnectionFailed(id)), ServerAction::Ignore);
    assert_eq!(server.handle(ServerEvent::PeerIdentified(id + 1)), ServerAction::Ignore);
    assert_eq!(server.handle(ServerEvent::PeerUnknown(id + 1)), ServerAction::Ignore);
    assert_eq!(server.phase(id), Some(ConnectionPhase::Accepted));
}

#[test]
fn other_connections_are_left_alone() {
    let mut server = ServerState::new(ConcurrencyThrottling::NoLimit);
    let first = serve(&mut server);
    let second = take_in(&mut server);
    assert_eq!(server.handle(ServerEvent::ConnectionClosed(first)), ServerAction::Close(first));
    assert_eq!(server.phase(second), Some(ConnectionPhase::Accepted));
    let third = take_in(&mut server);
    assert_ne!(second, third);
    assert_eq!(server.open_connections(), 2);
}

#[test]
fn an_unknown_peer_ends_the_server() {
    let mut server = ServerState::new(ConcurrencyThrottling::Limited(3));
    let id = take_in(&mut server);
    assert_eq!(server.handle(ServerEvent::PeerUnknown(id)), ServerAction::StopWithServiceError);
    assert_eq!(server.status(), ServerStatus::Failed);
    assert_eq!(server.open_connections(), 1);
    assert_eq!(server.handle(ServerEvent::Incoming), ServerAction::Ignore);
    assert_eq!(server.handle(ServerEvent::ShutdownRequested), ServerAction::Ignore);
    assert_eq!(server.status(), ServerStatus::Failed);
}

#[test]
fn a_server_ends_with_its_listener() {
    let mut server = ServerState::new(ConcurrencyThrottling::NoLimit);
    assert_eq!(server.handle(ServerEvent::IncomingClosed), ServerAction::Stop);
    assert_eq!(server.status(), ServerStatus::Stopped);
    let mut server = ServerState::new(ConcurrencyThrottling::NoLimit);
    assert_eq!(server.handle(ServerEvent::IncomingFailed), ServerAction::StopWithServiceError);
    assert_eq!(server.status(), ServerStatus::Failed);
}

#[test]
fn connections_outlive_a_shutdown() {
    let mut server = ServerState::new(ConcurrencyThrottling::Limited(1));
    let id = serve(&mut server);
    assert_eq!(server.handle(ServerEvent::ShutdownRequested), ServerAction::Stop);
    assert_eq!(server.handle(ServerEvent::IncomingClosed), ServerAction::Ignore);
    assert_eq!(server.phase(id), Some(ConnectionPhase::Serving));
    assert_eq!(server.handle(ServerEvent::ConnectionClosed(id)), ServerAction::Close(id));
    assert_eq!(server.open_connections(), 0);
    assert_eq!(server.status(), ServerStatus::Stopped);
}

#[test]
fn only_tcp_has_a_port() {
    let v4 = SocketAddress::V4 { ipv4: 0x7f00_0001, port: 8080 };
    let v6 = SocketAddress::V6 { ipv6: 1, port: 443, flowinfo: 0, scope_id: 0 };
    assert_eq!(LocalEndpoint::Tcp(Some(v4)).port(), Some(8080));
    assert_eq!(LocalEndpoint::Tcp(Some(v6)).port(), Some(443));
    assert_eq!(LocalEndpoint::Tcp(None).port(), None);
    assert_eq!(LocalEndpoint::Unix.port(), None);
}
