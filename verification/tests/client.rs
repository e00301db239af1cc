use reception::client::shared_state::{ClientStatus, SharedState, SharedStateError};
use reception::client::{run, ClientError, ClientHandleState, ClientReaction};
use reception::step::Step;

#[derive(Debug, PartialEq)]
struct MockModel {
    data: Vec<u8>,
}

const INVALID_DATA: &[u8] = &[13u8, 37u8];

fn parse(data: Vec<u8>) -> Result<MockModel, ClientError> {
    if INVALID_DATA == data.as_slice() {
        return Err(ClientError::ModelDeserialization);
    }
    Ok(MockModel { data })
}

#[test]
fn valid_model_is_delivered() {
    let r = run(Some(parse(vec![42u8, 42u8])));
    assert_eq!(r, ClientReaction { result: Ok(Step::Item(MockModel { data: vec![42u8, 42u8] })), notify: None });
}

#[test]
fn invalid_model_fails_and_tells_handle() {
    let r = run(Some(parse(INVALID_DATA.to_vec())));
    assert_eq!(
        r,
        ClientReaction { result: Err(ClientError::ModelDeserialization), notify: Some(ClientStatus::InvalidModel) }
    );
}

#[test]
fn closed_connection_channel_stops_client() {
    let r = run::<MockModel, ClientError>(None);
    assert_eq!(r, ClientReaction { result: Ok(Step::Break), notify: None });
}

#[test]
fn open_handle_sends_until_closed() {
    let mut handle = ClientHandleState::new(7u32);
    assert!(handle.open());
    assert_eq!(handle.send_result(true), Ok(()));
    assert_eq!(handle.send_result(false), Err(ClientError::SendModel));
    assert_eq!(handle.inner_mut().map(|h| *h), Some(7u32));
    handle.close();
    assert!(!handle.open());
    assert!(handle.inner_mut().is_none());
    assert_eq!(handle.send_result(true), Err(ClientError::DroppedConnection));
    // Closing again has no effect.
    handle.close();
    assert!(!handle.open());
}

#[test]
fn invalid_model_status_closes_handle() {
    let mut handle = ClientHandleState::new(1u8);
    assert!(handle.on_client_status(Some(ClientStatus::Normal)));
    assert!(handle.open());
    assert!(!handle.on_client_status(Some(ClientStatus::InvalidModel)));
    assert!(!handle.open());
    assert_eq!(handle.send_result(true), Err(ClientError::DroppedConnection));
}

#[test]
fn closed_status_channel_stops_watching_but_keeps_handle() {
    let mut handle = ClientHandleState::new(1u8);
    assert!(!handle.on_client_status(None));
    assert!(handle.open());
}

#[test]
fn client_error_messages() {
    assert_eq!(ClientError::ModelDeserialization.to_string(), "failed to deserialize a message received from peer");
    assert_eq!(ClientError::SendModel.to_string(), "failed to send serialized model to the client");
    assert_eq!(ClientError::DroppedConnection.to_string(), "connection to client has been dropped");
}

#[test]
fn client_status_names() {
    assert_eq!(ClientStatus::Normal.to_string(), "Normal");
    assert_eq!(ClientStatus::InvalidModel.to_string(), "InvalidModel");
    assert_eq!(ClientStatus::default(), ClientStatus::Normal);
}

#[test]
fn client_shared_state_error_names_status() {
    let e = SharedStateError::new(ClientStatus::InvalidModel);
    assert_eq!(e.status(), ClientStatus::InvalidModel);
    assert_eq!(
        e.to_string(),
        "connection failed to share a new status update with the handle. Status: 'InvalidModel'"
    );
}

#[test]
fn client_half_notifies_while_handle_lives() {
    let (client_half, mut handle_half) = SharedState::new().split();
    assert_eq!(handle_half.latest_client_status(), ClientStatus::Normal);
    assert!(client_half.notify(ClientStatus::InvalidModel).is_ok());
    assert_eq!(handle_half.latest_client_status(), ClientStatus::InvalidModel);
    drop(handle_half);
    let e = client_half.notify(ClientStatus::InvalidModel).unwrap_err();
    assert_eq!(e.status(), ClientStatus::InvalidModel);
}
