use reception::connection::shared_state::{ConnectionStatus, HandleHalf, HandleStatus, SharedState, SharedStateError};
use reception::connection::ConnectionConfig;

#[test]
fn channels_start_normal_and_carry_updates() {
    let config = ConnectionConfig { ping_interval: 10, pong_timeout: 20 };
    let (mut connection_half, handle_half) = SharedState::new(config).split();
    assert_eq!(*handle_half.config(), config);

    let mut handle_receiver = handle_half.receiver();
    assert_eq!(*handle_receiver.borrow_and_update(), ConnectionStatus::Normal);
    assert_eq!(*connection_half.receiver_mut().borrow_and_update(), HandleStatus::Normal);

    assert!(connection_half.notify(ConnectionStatus::ClientSentIllegalData).is_ok());
    assert_eq!(*handle_receiver.borrow_and_update(), ConnectionStatus::ClientSentIllegalData);

    assert!(handle_half.notify(HandleStatus::SendPing(vec![1u8, 2u8])).is_ok());
    assert_eq!(*connection_half.receiver_mut().borrow_and_update(), HandleStatus::SendPing(vec![1u8, 2u8]));
}

#[test]
fn connection_notify_fails_with_status_when_handle_is_gone() {
    let (connection_half, handle_half) = SharedState::new(ConnectionConfig::default()).split();
    drop(handle_half);
    assert_eq!(
        connection_half.notify(ConnectionStatus::Unknown),
        Err(SharedStateError::ConnectionFailedToShareUpdate(ConnectionStatus::Unknown))
    );
}

#[test]
fn handle_notify_hands_back_the_status_when_connection_is_gone() {
    let (connection_half, handle_half) = SharedState::new(ConnectionConfig::default()).split();
    drop(connection_half);
    assert_eq!(
        handle_half.notify(HandleStatus::SendPing(vec![7u8])),
        Err(SharedStateError::HandleFailedToShareUpdate(HandleStatus::SendPing(vec![7u8])))
    );
}

#[test]
fn status_names() {
    assert_eq!(ConnectionStatus::Normal.to_string(), "Normal");
    assert_eq!(ConnectionStatus::ClientClosedNormally.to_string(), "ClientClosedNormally");
    assert_eq!(ConnectionStatus::ClientSentIllegalData.to_string(), "ClientSentIllegalData");
    assert_eq!(ConnectionStatus::ClientClosedWithoutHandshake.to_string(), "ClientClosedWithoutHandshake");
    assert_eq!(ConnectionStatus::ConnectionTerminated.to_string(), "ConnectionTerminated");
    assert_eq!(ConnectionStatus::Unknown.to_string(), "Unknown");
    assert_eq!(HandleStatus::Normal.to_string(), "Normal");
    assert_eq!(HandleStatus::ServerClosedNormally.to_string(), "ServerClosedNormally");
    assert_eq!(HandleStatus::PingTaskTerminated.to_string(), "PingTaskTerminated");
    assert_eq!(HandleStatus::SendPing(vec![1u8]).to_string(), "SendPing");
    assert_eq!(ConnectionStatus::default(), ConnectionStatus::Normal);
    assert_eq!(HandleStatus::default(), HandleStatus::Normal);
}

#[test]
fn shared_state_error_messages() {
    assert_eq!(
        SharedStateError::ConnectionFailedToShareUpdate(ConnectionStatus::ConnectionTerminated).to_string(),
        "connection failed to share a new status update with the handle. Status: 'ConnectionTerminated'"
    );
    assert_eq!(
        SharedStateError::HandleFailedToShareUpdate(HandleStatus::SendPing(vec![1u8])).to_string(),
        "handle failed to share a new status update with the connection. Status: 'SendPing'"
    );
}

#[test]
fn each_half_reads_what_the_other_published() {
    let (mut connection_half, handle_half) = SharedState::new(ConnectionConfig::default()).split();
    let mut receiver = handle_half.receiver();
    assert_eq!(HandleHalf::read_status(&mut receiver), ConnectionStatus::Normal);
    assert_eq!(connection_half.latest_handle_status(), HandleStatus::Normal);

    connection_half.notify(ConnectionStatus::ConnectionTerminated).unwrap();
    assert_eq!(HandleHalf::read_status(&mut receiver), ConnectionStatus::ConnectionTerminated);
    assert!(!receiver.has_changed().unwrap());

    handle_half.notify(HandleStatus::SendPing(vec![3u8, 4u8])).unwrap();
    assert_eq!(connection_half.latest_handle_status(), HandleStatus::SendPing(vec![3u8, 4u8]));
    handle_half.notify(HandleStatus::ServerClosedNormally).unwrap();
    assert_eq!(connection_half.latest_handle_status(), HandleStatus::ServerClosedNormally);
}
