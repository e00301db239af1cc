use reception::connection::connection_handle::{
    new_ping_payload, ping_task_step, send_result, ConnectionHandleState, HandleTaskAction, PingAttempt,
    PING_BYTE_BOUND, PING_PAYLOAD_LEN,
};
use reception::connection::shared_state::{ConnectionStatus, HandleStatus};

#[test]
fn ping_payload_has_ten_bytes_below_bound() {
    for _ in 0..100 {
        let payload = new_ping_payload();
        assert_eq!(payload.len(), PING_PAYLOAD_LEN);
        assert_eq!(payload.len(), 10);
        assert!(payload.iter().all(|b| *b < PING_BYTE_BOUND));
    }
}

#[test]
fn ping_payloads_are_random() {
    let first = new_ping_payload();
    let differs = (0..20).any(|_| new_ping_payload() != first);
    assert!(differs);
}

#[test]
fn ping_task_reports_sent_pings_and_stops_on_failure() {
    assert_eq!(ping_task_step(PingAttempt::Sent(vec![1u8, 2u8])), (HandleStatus::SendPing(vec![1u8, 2u8]), true));
    assert_eq!(ping_task_step(PingAttempt::SendFailed), (HandleStatus::PingTaskTerminated, false));
    assert_eq!(ping_task_step(PingAttempt::SinkGone), (HandleStatus::PingTaskTerminated, false));
}

#[test]
fn send_result_hands_back_the_item_on_failure() {
    assert_eq!(send_result(Some(true), vec![1u8]), Ok(()));
    assert_eq!(send_result(Some(false), vec![1u8]), Err(vec![1u8]));
    assert_eq!(send_result(None, vec![2u8]), Err(vec![2u8]));
}

#[test]
fn close_frame_is_sent_once() {
    let mut state = ConnectionHandleState::new();
    assert!(!state.has_sent_close_frame());
    assert!(state.send_close_frame_if());
    assert!(state.has_sent_close_frame());
    assert!(!state.send_close_frame_if());
    assert!(!state.on_drop(true));
}

#[test]
fn status_task_closes_sink_on_any_end_of_peer() {
    for status in [
        ConnectionStatus::ClientClosedNormally,
        ConnectionStatus::ClientSentIllegalData,
        ConnectionStatus::ClientClosedWithoutHandshake,
        ConnectionStatus::ConnectionTerminated,
        ConnectionStatus::Unknown,
    ] {
        let mut state = ConnectionHandleState::new();
        assert_eq!(state.on_connection_status(Some(status)), HandleTaskAction::CloseSinkAndStop);
        assert!(state.has_sent_close_frame());
        assert_eq!(state.on_connection_status(Some(status)), HandleTaskAction::Stop);
    }
}

#[test]
fn status_task_waits_on_normal_and_stops_on_closed_channel() {
    let mut state = ConnectionHandleState::new();
    assert_eq!(state.on_connection_status(Some(ConnectionStatus::Normal)), HandleTaskAction::Wait);
    assert_eq!(state.on_connection_status(None), HandleTaskAction::Stop);
    assert!(!state.has_sent_close_frame());
}

#[test]
fn drop_closes_live_sink_only() {
    let mut state = ConnectionHandleState::new();
    assert!(!state.on_drop(false));
    assert!(!state.has_sent_close_frame());
    assert!(state.on_drop(true));
    assert!(state.has_sent_close_frame());
}

#[test]
fn only_the_first_of_many_claims_closes() {
    let mut state = ConnectionHandleState::new();
    let claims: Vec<bool> = (0..5).map(|_| state.send_close_frame_if()).collect();
    assert_eq!(claims, vec![true, false, false, false, false]);
    assert!(state.has_sent_close_frame());
}

#[test]
fn a_drop_after_the_status_task_closed_does_nothing() {
    let mut state = ConnectionHandleState::new();
    assert_eq!(state.on_connection_status(Some(ConnectionStatus::ConnectionTerminated)), HandleTaskAction::CloseSinkAndStop);
    assert!(!state.on_drop(true));
    assert!(!state.send_close_frame_if());
}
