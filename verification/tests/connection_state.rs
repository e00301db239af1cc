use reception::connection::shared_state::{ConnectionStatus, HandleStatus};
use reception::connection::{
    CloseFrame, ConnectionConfig, ConnectionError, ConnectionEvent, ConnectionReaction, ConnectionState, PeerError,
    PeerMessage,
};
use reception::step::Step;

type Reaction = ConnectionReaction<String>;

fn state_with_timeout(pong_timeout: u128) -> ConnectionState {
    ConnectionState::new(ConnectionConfig { ping_interval: 400, pong_timeout })
}

fn peer(state: &mut ConnectionState, message: PeerMessage) -> Reaction {
    state.process_peer_message::<String>(Some(Ok(message)))
}

#[test]
fn new_state_has_no_pending_ping() {
    let state = state_with_timeout(100);
    assert_eq!(state.next_pong_deadline(), None);
    assert_eq!(state.config().pong_timeout, 100);
}

#[test]
fn binary_message_is_delivered_unchanged() {
    let mut state = state_with_timeout(100);
    let data = vec![1u8, 3u8, 3u8, 7u8];
    let r = peer(&mut state, PeerMessage::Binary(data.clone()));
    assert_eq!(r, ConnectionReaction { result: Ok(Step::Item(data)), notify: None });
}

#[test]
fn close_message_stops_and_reports_normal_close() {
    let mut state = state_with_timeout(100);
    let r = peer(&mut state, PeerMessage::Close(None));
    assert_eq!(r, ConnectionReaction { result: Ok(Step::Break), notify: Some(ConnectionStatus::ClientClosedNormally) });
    let frame = CloseFrame { code: 1000, reason: "bye".to_owned() };
    let r = peer(&mut state, PeerMessage::Close(Some(frame)));
    assert_eq!(r.result, Ok(Step::Break));
}

#[test]
fn text_message_is_illegal() {
    let mut state = state_with_timeout(100);
    let msg = PeerMessage::Text("1337".to_owned());
    let r = peer(&mut state, msg.clone());
    assert_eq!(
        r,
        ConnectionReaction {
            result: Err(ConnectionError::IllegalMessageType(msg)),
            notify: Some(ConnectionStatus::ClientSentIllegalData),
        }
    );
}

#[test]
fn frame_message_is_illegal() {
    let mut state = state_with_timeout(100);
    let r = peer(&mut state, PeerMessage::Frame);
    assert_eq!(r.result, Err(ConnectionError::IllegalMessageType(PeerMessage::Frame)));
    assert_eq!(r.notify, Some(ConnectionStatus::ClientSentIllegalData));
}

#[test]
fn ping_from_peer_is_ignored() {
    let mut state = state_with_timeout(100);
    let r = peer(&mut state, PeerMessage::Ping(vec![42u8]));
    assert_eq!(r, ConnectionReaction { result: Ok(Step::Continue), notify: None });
    assert_eq!(state.next_pong_deadline(), None);
}

#[test]
fn transport_failures_are_classified() {
    let mut state = state_with_timeout(100);
    let r = state.process_peer_message::<String>(Some(Err(PeerError::ConnectionClosed)));
    assert_eq!(r, ConnectionReaction { result: Ok(Step::Break), notify: Some(ConnectionStatus::ClientClosedNormally) });
    let r = state.process_peer_message::<String>(Some(Err(PeerError::ResetWithoutClosingHandshake)));
    assert_eq!(
        r,
        ConnectionReaction { result: Ok(Step::Break), notify: Some(ConnectionStatus::ClientClosedWithoutHandshake) }
    );
    let r = state.process_peer_message::<String>(Some(Err(PeerError::Other("io".to_owned()))));
    assert_eq!(
        r,
        ConnectionReaction {
            result: Err(ConnectionError::WebSocket("io".to_owned())),
            notify: Some(ConnectionStatus::Unknown),
        }
    );
}

#[test]
fn exhausted_stream_stops_silently() {
    let mut state = state_with_timeout(100);
    let r = state.process_peer_message::<String>(None);
    assert_eq!(r, ConnectionReaction { result: Ok(Step::Break), notify: None });
}

#[test]
fn sent_ping_becomes_pending_with_its_deadline() {
    let mut state = state_with_timeout(100);
    let r: Reaction = state.on_handle_update(Some(HandleStatus::SendPing(vec![42u8])), 400);
    assert_eq!(r, ConnectionReaction { result: Ok(Step::Continue), notify: None });
    assert_eq!(state.next_pong_deadline(), Some(500));
    let r: Reaction = state.on_handle_update(Some(HandleStatus::SendPing(vec![43u8])), 800);
    assert_eq!(r.result, Ok(Step::Continue));
    // The oldest ping is still the one that is due first.
    assert_eq!(state.next_pong_deadline(), Some(500));
}

#[test]
fn matching_pong_keeps_connection() {
    let mut state = state_with_timeout(100);
    let _: Reaction = state.on_handle_update(Some(HandleStatus::SendPing(vec![42u8, 7u8])), 0);
    let r = peer(&mut state, PeerMessage::Pong(vec![42u8, 7u8]));
    assert_eq!(r, ConnectionReaction { result: Ok(Step::Continue), notify: None });
    let r: Reaction = state.on_pong_deadline();
    assert_eq!(r, ConnectionReaction { result: Ok(Step::Continue), notify: None });
    assert_eq!(state.next_pong_deadline(), None);
}

#[test]
fn pings_are_settled_in_order() {
    let mut state = state_with_timeout(100);
    let _: Reaction = state.on_handle_update(Some(HandleStatus::SendPing(vec![1u8])), 0);
    let _: Reaction = state.on_handle_update(Some(HandleStatus::SendPing(vec![2u8])), 50);
    let _ = peer(&mut state, PeerMessage::Pong(vec![1u8]));
    let _ = peer(&mut state, PeerMessage::Pong(vec![2u8]));
    let r: Reaction = state.on_pong_deadline();
    assert_eq!(r.result, Ok(Step::Continue));
    assert_eq!(state.next_pong_deadline(), Some(150));
    let r: Reaction = state.on_pong_deadline();
    assert_eq!(r.result, Ok(Step::Continue));
    assert_eq!(state.next_pong_deadline(), None);
}

#[test]
fn missing_pong_terminates_connection() {
    let mut state = state_with_timeout(100);
    let _: Reaction = state.on_handle_update(Some(HandleStatus::SendPing(vec![42u8])), 400);
    let r: Reaction = state.on_pong_deadline();
    assert_eq!(r, ConnectionReaction { result: Ok(Step::Break), notify: Some(ConnectionStatus::ConnectionTerminated) });
}

#[test]
fn wrong_pong_terminates_connection() {
    let mut state = state_with_timeout(100);
    let _: Reaction = state.on_handle_update(Some(HandleStatus::SendPing(vec![42u8])), 0);
    let _ = peer(&mut state, PeerMessage::Pong(vec![41u8]));
    let r: Reaction = state.on_pong_deadline();
    assert_eq!(r, ConnectionReaction { result: Ok(Step::Break), notify: Some(ConnectionStatus::ConnectionTerminated) });
    // The ping itself stays pending; only the wrong pong was consumed.
    assert_eq!(state.next_pong_deadline(), Some(100));
}

#[test]
fn longer_pong_terminates_connection() {
    let mut state = state_with_timeout(100);
    let _: Reaction = state.on_handle_update(Some(HandleStatus::SendPing(vec![42u8])), 0);
    let _ = peer(&mut state, PeerMessage::Pong(vec![42u8, 42u8]));
    let r: Reaction = state.on_pong_deadline();
    assert_eq!(r.result, Ok(Step::Break));
}

#[test]
fn handle_updates_drive_connection() {
    let mut state = state_with_timeout(100);
    let r: Reaction = state.on_handle_update(Some(HandleStatus::Normal), 0);
    assert_eq!(r, ConnectionReaction { result: Ok(Step::Continue), notify: None });
    let r: Reaction = state.on_handle_update(Some(HandleStatus::ServerClosedNormally), 0);
    assert_eq!(r, ConnectionReaction { result: Ok(Step::Break), notify: None });
    let r: Reaction = state.on_handle_update(Some(HandleStatus::PingTaskTerminated), 0);
    assert_eq!(r, ConnectionReaction { result: Ok(Step::Break), notify: None });
    let r: Reaction = state.on_handle_update(None, 0);
    assert_eq!(r, ConnectionReaction { result: Ok(Step::Break), notify: None });
}

#[test]
fn run_dispatches_every_event() {
    let mut state = state_with_timeout(100);
    let r = state.run::<String>(ConnectionEvent::HandleUpdate(Some(HandleStatus::SendPing(vec![9u8]))), 10);
    assert_eq!(r.result, Ok(Step::Continue));
    assert_eq!(state.next_pong_deadline(), Some(110));
    let r = state.run::<String>(ConnectionEvent::Peer(Some(Ok(PeerMessage::Pong(vec![9u8])))), 20);
    assert_eq!(r.result, Ok(Step::Continue));
    let r = state.run::<String>(ConnectionEvent::PongDeadline, 110);
    assert_eq!(r.result, Ok(Step::Continue));
    let r = state.run::<String>(ConnectionEvent::Peer(Some(Ok(PeerMessage::Binary(vec![5u8])))), 120);
    assert_eq!(r.result, Ok(Step::Item(vec![5u8])));
}

#[test]
fn pong_read_before_its_ping_report_still_keeps_connection() {
    let mut state = state_with_timeout(100);
    // The peer's pong reaches the connection before the handle's report.
    let r = peer(&mut state, PeerMessage::Pong(vec![8u8, 9u8]));
    assert_eq!(r.result, Ok(Step::Continue));
    assert_eq!(state.next_pong_deadline(), None);
    let _: Reaction = state.on_handle_update(Some(HandleStatus::SendPing(vec![8u8, 9u8])), 300);
    assert_eq!(state.next_pong_deadline(), Some(400));
    let r: Reaction = state.on_pong_deadline();
    assert_eq!(r, ConnectionReaction { result: Ok(Step::Continue), notify: None });
    assert_eq!(state.next_pong_deadline(), None);
}

#[test]
fn ten_answered_pings_never_cut_the_peer_off() {
    let mut state = state_with_timeout(100);
    for round in 0..10u128 {
        let payload = vec![round as u8; 10];
        let _: Reaction = state.on_handle_update(Some(HandleStatus::SendPing(payload.clone())), round * 300);
        let _ = peer(&mut state, PeerMessage::Pong(payload));
        let r: Reaction = state.on_pong_deadline();
        assert_eq!(r, ConnectionReaction { result: Ok(Step::Continue), notify: None });
    }
    let r = peer(&mut state, PeerMessage::Close(None));
    assert_eq!(r, ConnectionReaction { result: Ok(Step::Break), notify: Some(ConnectionStatus::ClientClosedNormally) });
}

#[test]
fn timeouts_beyond_u64_nanoseconds_are_kept_exactly() {
    // About 600 years, longer than a u64 count of nanoseconds can hold.
    let six_hundred_years: u128 = 600 * 365 * 24 * 3600 * 1_000_000_000;
    assert!(six_hundred_years > u64::MAX as u128);
    let mut state = state_with_timeout(six_hundred_years);
    let _: Reaction = state.on_handle_update(Some(HandleStatus::SendPing(vec![1u8])), 1_000);
    assert_eq!(state.next_pong_deadline(), Some(1_000 + six_hundred_years));
}
