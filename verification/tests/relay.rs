use tinydns::MAX_DATAGRAM_LEN;
use tinydns::RELAY_TIMEOUT_SECS;
use tinydns::RelayError;
use tinydns::ServerAction;
use tinydns::ServerEvent;
use tinydns::ServerState;
use tinydns::relay_reply;
use tinydns::reply_for;
use tinydns::server_step;

#[test]
fn server_forwards_datagram_verbatim() {
    let datagram = vec![0x12, 0x34, 0x01, 0x00, 0xFF, 0x00];
    let (state, action) = server_step(
        ServerState::Running,
        ServerEvent::Datagram(datagram.clone()),
    );
    assert_eq!(state, ServerState::Running);
    assert_eq!(action, ServerAction::Forward(datagram));
}

#[test]
fn server_forwards_undecodable_datagram() {
    let garbage = vec![0xFF; 3];
    let (state, action) = server_step(ServerState::Running, ServerEvent::Datagram(garbage.clone()));
    assert_eq!(state, ServerState::Running);
    assert_eq!(action, ServerAction::Forward(garbage));
}

#[test]
fn server_stops_on_shutdown_signal() {
    let (state, action) = server_step(ServerState::Running, ServerEvent::ShutdownRequested);
    assert_eq!(state, ServerState::ShuttingDown);
    assert_eq!(action, ServerAction::Stop);
}

#[test]
fn server_ignores_receive_failure() {
    let (state, action) = server_step(ServerState::Running, ServerEvent::ReceiveFailed);
    assert_eq!(state, ServerState::Running);
    assert_eq!(action, ServerAction::Ignore);
}

#[test]
fn shutting_down_is_terminal() {
    let (state, action) = server_step(
        ServerState::ShuttingDown,
        ServerEvent::Datagram(vec![1, 2, 3]),
    );
    assert_eq!(state, ServerState::ShuttingDown);
    assert_eq!(action, ServerAction::Stop);
}

#[test]
fn reply_is_upstream_bytes_verbatim() {
    let response = vec![0xAB, 0xCD, 0x81, 0x80];
    assert_eq!(reply_for(Ok(response.clone())), Some(response));
}

#[test]
fn no_reply_on_relay_failure() {
    assert_eq!(reply_for(Err(RelayError::SendFailed)), None);
    assert_eq!(reply_for(Err(RelayError::ReceiveFailed)), None);
    assert_eq!(reply_for(Err(RelayError::TimedOut)), None);
}

#[test]
fn relay_reply_truncates_to_received_length() {
    let mut buffer = vec![0u8; MAX_DATAGRAM_LEN];
    buffer[0] = 0x12;
    buffer[1] = 0x34;
    buffer[2] = 0x81;
    assert_eq!(relay_reply(&buffer, 3), vec![0x12, 0x34, 0x81]);
    assert_eq!(relay_reply(&buffer, 0), Vec::<u8>::new());
}

#[test]
fn relay_constants() {
    assert_eq!(RELAY_TIMEOUT_SECS, 5);
    assert_eq!(MAX_DATAGRAM_LEN, 512);
}
