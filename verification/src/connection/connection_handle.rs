use vstd::prelude::*;

use super::shared_state::{ConnectionStatus, HandleStatus};

verus! {

/// How many random bytes a ping carries.
pub const PING_PAYLOAD_LEN: usize = 10;

/// Every byte of a ping's payload is below this bound.
pub const PING_BYTE_BOUND: u8 = 255;

/// What the task that watches the connection's status does next.
#[derive(Debug, Clone, Copy, PartialEq, Eq, Structural)]
pub enum HandleTaskAction {
    /// Keep watching.
    Wait,
    /// Stop watching, leaving the peer's sink as it is.
    Stop,
    /// Flush and close the peer's sink, tell the connection that the server
    /// closed normally, and stop watching.
    CloseSinkAndStop,
}

/// How an attempt to ping the peer went.
#[derive(Debug, PartialEq, Eq)]
pub enum PingAttempt {
    /// The peer's sink is gone; no ping was sent.
    SinkGone,
    /// The ping could not be sent.
    SendFailed,
    /// A ping with this payload was sent.
    Sent(Vec<u8>),
}

/// The sending side of a peer's connection: remembers whether it has already
/// closed the peer's sink, so that the close frame goes out at most once,
/// whichever of its tasks asks first.
#[derive(Debug)]
pub struct ConnectionHandleState {
    has_sent_close_frame: bool,
}

impl ConnectionHandleState {
    /// Whether the close frame has been sent.
    pub closed spec fn spec_has_sent_close_frame(&self) -> bool {
        self.has_sent_close_frame
    }

    /// A handle that has not closed the peer's sink.
    pub fn new() -> (r: Self)
        ensures
            !r.spec_has_sent_close_frame(),
    {
        ConnectionHandleState { has_sent_close_frame: false }
    }

    /// Whether the close frame has been sent.
    pub fn has_sent_close_frame(&self) -> (r: bool)
        ensures
            r == self.spec_has_sent_close_frame(),
    {
        self.has_sent_close_frame
    }

    /// Claims the right to close the peer's sink: `true` the first time only.
    /// The caller that gets `true` closes the sink and then tells the
    /// connection that the server closed normally.
    pub fn send_close_frame_if(&mut self) -> (r: bool)
        ensures
            r == request_closes(old(self).spec_has_sent_close_frame(), CloseRequest::Claim),
            r == !old(self).spec_has_sent_close_frame(),
            final(self).spec_has_sent_close_frame(),
    {
        if self.has_sent_close_frame {
            return false;
        }
        self.has_sent_close_frame = true;
        true
    }

    /// Decides what to do on a status update from the connection (`Some`),
    /// or when the connection's channel has closed (`None`): any status but
    /// `Normal` means the peer is done, and the sink is closed unless it
    /// already was.
    pub fn on_connection_status(&mut self, update: Option<ConnectionStatus>) -> (r: HandleTaskAction)
        ensures
            r == handle_task_action(old(self).spec_has_sent_close_frame(), update),
            final(self).spec_has_sent_close_frame() == (old(self).spec_has_sent_close_frame()
                || r == HandleTaskAction::CloseSinkAndStop),
    {
        match update {
            None => HandleTaskAction::Stop,
            Some(ConnectionStatus::Normal) => HandleTaskAction::Wait,
            Some(_) => {
                if self.send_close_frame_if() {
                    HandleTaskAction::CloseSinkAndStop
                } else {
                    HandleTaskAction::Stop
                }
            },
        }
    }

    /// Decides, when the handle is dropped, whether to close the peer's sink:
    /// only if the sink is still alive and has not been closed yet.
    pub fn on_drop(&mut self, sink_alive: bool) -> (r: bool)
        ensures
            r == request_closes(old(self).spec_has_sent_close_frame(), CloseRequest::Drop(sink_alive)),
            final(self).spec_has_sent_close_frame() == (old(self).spec_has_sent_close_frame() || r),
    {
        if !sink_alive {
            return false;
        }
        self.send_close_frame_if()
    }
}

/// The action the status-watching task takes, given whether the sink has
/// already been closed.
pub open spec fn handle_task_action(has_sent_close_frame: bool, update: Option<ConnectionStatus>) -> HandleTaskAction {
    match update {
        None => HandleTaskAction::Stop,
        Some(ConnectionStatus::Normal) => HandleTaskAction::Wait,
        Some(_) => if has_sent_close_frame {
            HandleTaskAction::Stop
        } else {
            HandleTaskAction::CloseSinkAndStop
        },
    }
}

/// Whether dropping the handle closes the peer's sink.
pub open spec fn drop_closes(has_sent_close_frame: bool, sink_alive: bool) -> bool {
    sink_alive && !has_sent_close_frame
}

/// A request that may close the peer's sink: a status update seen by the
/// status-watching task, the handle being dropped (with whether the sink is
/// still alive), or a direct claim of the close.
pub enum CloseRequest {
    /// A status update, or the closing of the connection's channel.
    Status(Option<ConnectionStatus>),
    /// The handle is dropped.
    Drop(bool),
    /// A direct call of `send_close_frame_if`.
    Claim,
}

/// Whether `request` closes the peer's sink.
pub open spec fn request_closes(has_sent_close_frame: bool, request: CloseRequest) -> bool {
    match request {
        CloseRequest::Status(update) => handle_task_action(has_sent_close_frame, update)
            == HandleTaskAction::CloseSinkAndStop,
        CloseRequest::Drop(sink_alive) => drop_closes(has_sent_close_frame, sink_alive),
        CloseRequest::Claim => !has_sent_close_frame,
    }
}

/// Whether `request` asks for the sink to be closed: a status that tells
/// the peer is done, a drop while the sink is alive, or a direct claim.
pub open spec fn asks_to_close(request: CloseRequest) -> bool {
    match request {
        CloseRequest::Status(Some(status)) => status != ConnectionStatus::Normal,
        CloseRequest::Status(None) => false,
        CloseRequest::Drop(sink_alive) => sink_alive,
        CloseRequest::Claim => true,
    }
}

/// Whether any request in `requests` asks for the sink to be closed.
pub open spec fn any_asks_to_close(requests: Seq<CloseRequest>) -> bool {
    exists|i: int| 0 <= i < requests.len() && asks_to_close(#[trigger] requests[i])
}

/// How many times the requests in `requests`, taken in order, close the
/// peer's sink.
pub open spec fn closes_in(has_sent_close_frame: bool, requests: Seq<CloseRequest>) -> nat
    decreases requests.len(),
{
    if requests.len() == 0 {
        0
    } else {
        let first = request_closes(has_sent_close_frame, requests[0]);
        (if first { 1nat } else { 0nat }) + closes_in(has_sent_close_frame || first, requests.drop_first())
    }
}

/// Whether the sink has been closed once the requests in `requests`, taken
/// in order, have been handled.
pub open spec fn closed_after(has_sent_close_frame: bool, requests: Seq<CloseRequest>) -> bool
    decreases requests.len(),
{
    if requests.len() == 0 {
        has_sent_close_frame
    } else {
        closed_after(has_sent_close_frame || request_closes(has_sent_close_frame, requests[0]), requests.drop_first())
    }
}

/// The close frame goes out exactly once: whatever status updates, drops and
/// direct claims a handle sees, in whatever order, the sink is closed once if
/// any of them asks for it and it was not closed yet, by the first that asks,
/// and never otherwise; afterwards it counts as closed if any asked.
pub proof fn lemma_close_frame_exactly_once(has_sent_close_frame: bool, requests: Seq<CloseRequest>)
    ensures
        closes_in(has_sent_close_frame, requests) == (if !has_sent_close_frame && any_asks_to_close(requests) {
            1nat
        } else {
            0nat
        }),
        closed_after(has_sent_close_frame, requests) == (has_sent_close_frame || any_asks_to_close(requests)),
        requests.len() > 0 && asks_to_close(requests[0]) ==> request_closes(has_sent_close_frame, requests[0])
            == !has_sent_close_frame,
    decreases requests.len(),
{
    if requests.len() > 0 {
        let first = request_closes(has_sent_close_frame, requests[0]);
        let rest = requests.drop_first();
        lemma_close_frame_exactly_once(has_sent_close_frame || first, rest);
        assert(first == (!has_sent_close_frame && asks_to_close(requests[0])));
        if any_asks_to_close(requests) && !asks_to_close(requests[0]) {
            let i = choose|i: int| 0 <= i < requests.len() && asks_to_close(#[trigger] requests[i]);
            assert(asks_to_close(rest[i - 1]));
        }
        if any_asks_to_close(rest) {
            let j = choose|j: int| 0 <= j < rest.len() && asks_to_close(#[trigger] rest[j]);
            assert(asks_to_close(requests[j + 1]));
        }
    } else {
        assert(!any_asks_to_close(requests));
    }
}

/// Calls `fastrand::u8` on the range `low..high`, which gives a byte drawn
/// from that range (the range is not empty, which the call requires).
#[verifier::external_body]
fn random_byte(low: u8, high: u8) -> (r: u8)
    requires
        low < high,
    ensures
        low <= r < high,
{
    fastrand::u8(low..high)
}

/// A fresh payload for a ping: ten random bytes, each below 255.
pub fn new_ping_payload() -> (r: Vec<u8>)
    ensures
        r@.len() == PING_PAYLOAD_LEN,
        forall|i: int| 0 <= i < r@.len() ==> r@[i] < PING_BYTE_BOUND,
{
    let mut payload: Vec<u8> = Vec::with_capacity(PING_PAYLOAD_LEN);
    let mut i: usize = 0;
    while i < PING_PAYLOAD_LEN
        invariant
            i <= PING_PAYLOAD_LEN,
            payload@.len() == i,
            forall|j: int| 0 <= j < payload@.len() ==> payload@[j] < PING_BYTE_BOUND,
        decreases PING_PAYLOAD_LEN - i,
    {
        let byte = random_byte(0, PING_BYTE_BOUND);
        payload.push(byte);
        i += 1;
    }
    payload
}

/// What the ping task reports to the connection after an attempt, and
/// whether it keeps pinging: a sent ping is reported with its payload; a
/// missing sink or a failed send stops the task.
pub fn ping_task_step(attempt: PingAttempt) -> (r: (HandleStatus, bool))
    ensures
        r == ping_task_outcome(attempt),
{
    match attempt {
        PingAttempt::SinkGone => (HandleStatus::PingTaskTerminated, false),
        PingAttempt::SendFailed => (HandleStatus::PingTaskTerminated, false),
        PingAttempt::Sent(payload) => (HandleStatus::SendPing(payload), true),
    }
}

/// The status that the ping task reports after `attempt`, and whether it
/// keeps going.
pub open spec fn ping_task_outcome(attempt: PingAttempt) -> (HandleStatus, bool) {
    match attempt {
        PingAttempt::Sent(payload) => (HandleStatus::SendPing(payload), true),
        _ => (HandleStatus::PingTaskTerminated, false),
    }
}

/// The result of sending `item` to the peer: `attempt` is `None` when the
/// sink is gone, and otherwise whether the send succeeded. A failed send
/// hands the item back.
pub fn send_result(attempt: Option<bool>, item: Vec<u8>) -> (r: Result<(), Vec<u8>>)
    ensures
        attempt == Some(true) ==> r == Ok::<(), Vec<u8>>(()),
        attempt != Some(true) ==> r == Err::<(), Vec<u8>>(item),
{
    match attempt {
        Some(true) => Ok(()),
        _ => Err(item),
    }
}

} // verus!

verus! {

/// A ping that went out is always reported to the connection with its own
/// payload, and the ping task keeps going; a missing sink or a failed send
/// always stops the task and reports that it stopped.
pub proof fn lemma_sent_ping_is_reported_and_task_continues(payload: Vec<u8>)
    ensures
        ping_task_outcome(PingAttempt::Sent(payload)) == (HandleStatus::SendPing(payload), true),
        ping_task_outcome(PingAttempt::SinkGone) == (HandleStatus::PingTaskTerminated, false),
        ping_task_outcome(PingAttempt::SendFailed) == (HandleStatus::PingTaskTerminated, false),
{
}

} // verus!

verus! {

/// The status-watching task waits while the connection is `Normal`, stops
/// when the connection's channel closes, and on any other status closes the
/// peer's sink unless that was already done, in which case it just stops.
pub proof fn lemma_status_task_decisions(has_sent_close_frame: bool, status: ConnectionStatus)
    ensures
        handle_task_action(has_sent_close_frame, Some(ConnectionStatus::Normal)) == HandleTaskAction::Wait,
        handle_task_action(has_sent_close_frame, None) == HandleTaskAction::Stop,
        status != ConnectionStatus::Normal && !has_sent_close_frame ==> handle_task_action(
            has_sent_close_frame,
            Some(status),
        ) == HandleTaskAction::CloseSinkAndStop,
        status != ConnectionStatus::Normal && has_sent_close_frame ==> handle_task_action(
            has_sent_close_frame,
            Some(status),
        ) == HandleTaskAction::Stop,
        drop_closes(has_sent_close_frame, true) == !has_sent_close_frame,
        !drop_closes(has_sent_close_frame, false),
{
}

} // verus!
