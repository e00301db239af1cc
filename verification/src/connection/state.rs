use std::collections::VecDeque;

use vstd::prelude::*;

use crate::step::Step;

use super::{
    config::ConnectionConfig,
    error::ConnectionError,
    message::{CloseFrame, PeerError, PeerMessage},
    ping_context::{PingContext, PingRecord},
    shared_state::{ConnectionStatus, HandleStatus},
};

verus! {

/// Something that a connection waits for: whichever comes first drives the
/// connection one step.
#[derive(Debug)]
pub enum ConnectionEvent<W> {
    /// The deadline of the oldest unanswered ping has passed.
    PongDeadline,
    /// The handle published a new status (`Some`), or the handle's channel
    /// closed (`None`).
    HandleUpdate(Option<HandleStatus>),
    /// The peer's stream yielded a message or a failure (`Some`), or ended
    /// (`None`).
    Peer(Option<Result<PeerMessage, PeerError<W>>>),
}

/// What one step of a connection produces: the step's result, and the status
/// to publish to the handle, if any.
#[derive(Debug, PartialEq, Eq)]
pub struct ConnectionReaction<W> {
    /// The data delivered, or whether the connection keeps going, or why it
    /// failed.
    pub result: Result<Step<Vec<u8>>, ConnectionError<W>>,
    /// The status to publish to the handle.
    pub notify: Option<ConnectionStatus>,
}

/// The mathematical value of a [`ConnectionState`].
pub struct ConnectionView {
    /// The pings sent to the peer and not yet settled, oldest first.
    pub pings: Seq<PingRecord>,
    /// The payloads of the pongs received and not yet checked, oldest first.
    pub pongs: Seq<Seq<u8>>,
    /// The connection's configuration.
    pub config: ConnectionConfig,
}

/// The reaction of a connection in state `v` to `event`.
pub open spec fn reaction<W>(v: ConnectionView, event: ConnectionEvent<W>) -> ConnectionReaction<W> {
    match event {
        ConnectionEvent::PongDeadline => {
            if v.pongs.len() > 0 && v.pongs[0] == v.pings[0].payload {
                ConnectionReaction { result: Ok(Step::Continue), notify: None }
            } else {
                ConnectionReaction {
                    result: Ok(Step::Break),
                    notify: Some(ConnectionStatus::ConnectionTerminated),
                }
            }
        },
        ConnectionEvent::HandleUpdate(update) => match update {
            Some(HandleStatus::Normal) => ConnectionReaction { result: Ok(Step::Continue), notify: None },
            Some(HandleStatus::SendPing(_)) => ConnectionReaction { result: Ok(Step::Continue), notify: None },
            _ => ConnectionReaction { result: Ok(Step::Break), notify: None },
        },
        ConnectionEvent::Peer(item) => match item {
            Some(Ok(message)) => match message {
                PeerMessage::Close(_) => ConnectionReaction {
                    result: Ok(Step::Break),
                    notify: Some(ConnectionStatus::ClientClosedNormally),
                },
                PeerMessage::Ping(_) => ConnectionReaction { result: Ok(Step::Continue), notify: None },
                PeerMessage::Pong(_) => ConnectionReaction { result: Ok(Step::Continue), notify: None },
                PeerMessage::Binary(data) => ConnectionReaction { result: Ok(Step::Item(data)), notify: None },
                _ => ConnectionReaction {
                    result: Err(ConnectionError::IllegalMessageType(message)),
                    notify: Some(ConnectionStatus::ClientSentIllegalData),
                },
            },
            Some(Err(PeerError::ConnectionClosed)) => ConnectionReaction {
                result: Ok(Step::Break),
                notify: Some(ConnectionStatus::ClientClosedNormally),
            },
            Some(Err(PeerError::ResetWithoutClosingHandshake)) => ConnectionReaction {
                result: Ok(Step::Break),
                notify: Some(ConnectionStatus::ClientClosedWithoutHandshake),
            },
            Some(Err(PeerError::Other(w))) => ConnectionReaction {
                result: Err(ConnectionError::WebSocket(w)),
                notify: Some(ConnectionStatus::Unknown),
            },
            None => ConnectionReaction { result: Ok(Step::Break), notify: None },
        },
    }
}

/// The state of a connection in state `v` after `event` at time `now`.
pub open spec fn next_view<W>(v: ConnectionView, event: ConnectionEvent<W>, now: u128) -> ConnectionView {
    match event {
        ConnectionEvent::PongDeadline => {
            if v.pongs.len() > 0 && v.pongs[0] == v.pings[0].payload {
                ConnectionView { pings: v.pings.drop_first(), pongs: v.pongs.drop_first(), ..v }
            } else if v.pongs.len() > 0 {
                ConnectionView { pongs: v.pongs.drop_first(), ..v }
            } else {
                v
            }
        },
        ConnectionEvent::HandleUpdate(Some(HandleStatus::SendPing(payload))) => ConnectionView {
            pings: v.pings.push(PingRecord { payload: payload@, deadline: now + v.config.pong_timeout }),
            ..v
        },
        ConnectionEvent::Peer(Some(Ok(PeerMessage::Pong(payload)))) => ConnectionView {
            pongs: v.pongs.push(payload@),
            ..v
        },
        _ => v,
    }
}

/// Whether a connection in state `v` can take `event` at time `now`: a pong
/// deadline can only pass while a ping is pending, and a ping's deadline must
/// be a time that the clock can hold.
pub open spec fn can_take<W>(v: ConnectionView, event: ConnectionEvent<W>, now: u128) -> bool {
    match event {
        ConnectionEvent::PongDeadline => v.pings.len() > 0,
        ConnectionEvent::HandleUpdate(Some(HandleStatus::SendPing(_))) => now + v.config.pong_timeout <= u128::MAX,
        _ => true,
    }
}

/// The receiving side of a peer's connection: keeps track of the pings sent
/// to the peer and of the pongs it sent back, and decides on each event what
/// the connection does next.
#[derive(Debug)]
pub struct ConnectionState {
    ping_queue: VecDeque<PingContext>,
    pong_payload_queue: VecDeque<Vec<u8>>,
    config: ConnectionConfig,
}

impl View for ConnectionState {
    type V = ConnectionView;

    closed spec fn view(&self) -> ConnectionView {
        ConnectionView {
            pings: self.ping_queue@.map_values(|p: PingContext| p@),
            pongs: self.pong_payload_queue@.map_values(|p: Vec<u8>| p@),
            config: self.config,
        }
    }
}

/// Whether two byte strings are equal.
fn bytes_equal(a: &Vec<u8>, b: &Vec<u8>) -> (r: bool)
    ensures
        r == (a@ == b@),
{
    if a.len() != b.len() {
        return false;
    }
    let mut i: usize = 0;
    while i < a.len()
        invariant
            i <= a.len(),
            a.len() == b.len(),
            forall|j: int| 0 <= j < i ==> a@[j] == b@[j],
        decreases a.len() - i,
    {
        if a[i] != b[i] {
            return false;
        }
        i += 1;
    }
    assert(a@ =~= b@);
    true
}

impl ConnectionState {
    /// A connection with no ping pending and no pong received.
    pub fn new(config: ConnectionConfig) -> (r: Self)
        ensures
            r@.pings.len() == 0,
            r@.pongs.len() == 0,
            r@.config == config,
    {
        let r = ConnectionState {
            ping_queue: VecDeque::with_capacity(2),
            pong_payload_queue: VecDeque::with_capacity(2),
            config,
        };
        assert(r@.pings =~= Seq::<PingRecord>::empty());
        assert(r@.pongs =~= Seq::<Seq<u8>>::empty());
        r
    }

    /// The connection's configuration.
    pub fn config(&self) -> (r: &ConnectionConfig)
        ensures
            *r == self@.config,
    {
        &self.config
    }

    /// The time by which the oldest pending ping must have been answered, if
    /// any ping is pending. This is the deadline that a
    /// [`ConnectionEvent::PongDeadline`] stands for.
    pub fn next_pong_deadline(&self) -> (r: Option<u128>)
        ensures
            self@.pings.len() == 0 ==> r is None,
            self@.pings.len() > 0 ==> (r matches Some(d) && d == self@.pings[0].deadline),
    {
        if self.ping_queue.len() == 0 {
            None
        } else {
            let d = *self.ping_queue[0].deadline();
            Some(d)
        }
    }

    /// Handles what the peer's stream yielded.
    ///
    /// Binary data is delivered unchanged. A pong is queued for checking. A
    /// ping is ignored: the transport answers it. A close message, a closed
    /// or reset connection and the end of the stream stop the connection;
    /// text, raw frames and any other transport failure stop it with an
    /// error. The handle is told of every way in which the peer ended the
    /// connection.
    pub fn process_peer_message<W>(
        &mut self,
        item: Option<Result<PeerMessage, PeerError<W>>>,
    ) -> (r: ConnectionReaction<W>)
        ensures
            r == reaction(old(self)@, ConnectionEvent::Peer(item)),
            final(self)@ == next_view(old(self)@, ConnectionEvent::Peer(item), 0),
    {
        match item {
            Some(Ok(message)) => match message {
                PeerMessage::Close(frame) => ConnectionReaction {
                    result: Ok(Step::Break),
                    notify: Some(ConnectionStatus::ClientClosedNormally),
                },
                PeerMessage::Ping(_) => ConnectionReaction { result: Ok(Step::Continue), notify: None },
                PeerMessage::Pong(payload) => {
                    let ghost old_pongs = self@.pongs;
                    let ghost p = payload@;
                    self.pong_payload_queue.push_back(payload);
                    assert(self@.pongs =~= old_pongs.push(p));
                    ConnectionReaction { result: Ok(Step::Continue), notify: None }
                },
                PeerMessage::Binary(data) => ConnectionReaction { result: Ok(Step::Item(data)), notify: None },
                PeerMessage::Text(text) => ConnectionReaction {
                    result: Err(ConnectionError::IllegalMessageType(PeerMessage::Text(text))),
                    notify: Some(ConnectionStatus::ClientSentIllegalData),
                },
                PeerMessage::Frame => ConnectionReaction {
                    result: Err(ConnectionError::IllegalMessageType(PeerMessage::Frame)),
                    notify: Some(ConnectionStatus::ClientSentIllegalData),
                },
            },
            Some(Err(PeerError::ConnectionClosed)) => ConnectionReaction {
                result: Ok(Step::Break),
                notify: Some(ConnectionStatus::ClientClosedNormally),
            },
            Some(Err(PeerError::ResetWithoutClosingHandshake)) => ConnectionReaction {
                result: Ok(Step::Break),
                notify: Some(ConnectionStatus::ClientClosedWithoutHandshake),
            },
            Some(Err(PeerError::Other(w))) => ConnectionReaction {
                result: Err(ConnectionError::WebSocket(w)),
                notify: Some(ConnectionStatus::Unknown),
            },
            None => ConnectionReaction { result: Ok(Step::Break), notify: None },
        }
    }

    /// Checks the oldest pending ping once its deadline has passed: the
    /// oldest pong received must carry the same payload. Then both are
    /// settled and the connection keeps going; otherwise the connection is
    /// terminated.
    pub fn on_pong_deadline<W>(&mut self) -> (r: ConnectionReaction<W>)
        requires
            old(self)@.pings.len() > 0,
        ensures
            r == reaction(old(self)@, ConnectionEvent::<W>::PongDeadline),
            final(self)@ == next_view(old(self)@, ConnectionEvent::<W>::PongDeadline, 0),
    {
        let ghost v = self@;
        match self.pong_payload_queue.pop_front() {
            Some(pong) => {
                assert(self@.pongs =~= v.pongs.drop_first());
                if bytes_equal(self.ping_queue[0].payload(), &pong) {
                    self.ping_queue.pop_front();
                    assert(self@.pings =~= v.pings.drop_first());
                    ConnectionReaction { result: Ok(Step::Continue), notify: None }
                } else {
                    ConnectionReaction {
                        result: Ok(Step::Break),
                        notify: Some(ConnectionStatus::ConnectionTerminated),
                    }
                }
            },
            None => ConnectionReaction {
                result: Ok(Step::Break),
                notify: Some(ConnectionStatus::ConnectionTerminated),
            },
        }
    }

    /// Handles a status update from the handle at time `now`: a ping that
    /// the handle sent becomes pending, due `pong_timeout` nanoseconds
    /// later; the server closing, the ping task stopping and the handle's
    /// channel closing stop the connection.
    pub fn on_handle_update<W>(&mut self, update: Option<HandleStatus>, now: u128) -> (r: ConnectionReaction<W>)
        requires
            can_take(old(self)@, ConnectionEvent::<W>::HandleUpdate(update), now),
        ensures
            r == reaction(old(self)@, ConnectionEvent::<W>::HandleUpdate(update)),
            final(self)@ == next_view(old(self)@, ConnectionEvent::<W>::HandleUpdate(update), now),
    {
        match update {
            Some(HandleStatus::Normal) => ConnectionReaction { result: Ok(Step::Continue), notify: None },
            Some(HandleStatus::ServerClosedNormally) => ConnectionReaction { result: Ok(Step::Break), notify: None },
            Some(HandleStatus::PingTaskTerminated) => ConnectionReaction { result: Ok(Step::Break), notify: None },
            Some(HandleStatus::SendPing(payload)) => {
                let ghost v = self@;
                let context = PingContext::with_time(payload, self.config.pong_timeout, now);
                self.ping_queue.push_back(context);
                assert(self@.pings =~= v.pings.push(context@));
                ConnectionReaction { result: Ok(Step::Continue), notify: None }
            },
            None => ConnectionReaction { result: Ok(Step::Break), notify: None },
        }
    }

    /// Drives the connection one step on whichever event came first.
    pub fn run<W>(&mut self, event: ConnectionEvent<W>, now: u128) -> (r: ConnectionReaction<W>)
        requires
            can_take(old(self)@, event, now),
        ensures
            r == reaction(old(self)@, event),
            final(self)@ == next_view(old(self)@, event, now),
    {
        match event {
            ConnectionEvent::PongDeadline => self.on_pong_deadline(),
            ConnectionEvent::HandleUpdate(update) => self.on_handle_update(update, now),
            ConnectionEvent::Peer(item) => self.process_peer_message(item),
        }
    }
}

} // verus!

verus! {

/// Whether the pongs received line up with the pings pending: as far as
/// both queues reach, the `i`-th pong carries the `i`-th ping's payload.
/// Either queue may run ahead of the other, since a pong may be read before
/// the handle's report of its ping.
pub open spec fn answered_in_order(v: ConnectionView) -> bool {
    forall|i: int| 0 <= i < v.pongs.len() && i < v.pings.len() ==> #[trigger] v.pongs[i] == v.pings[i].payload
}

/// Whether `event` is one that a peer answering each ping with its payload,
/// in order and before its deadline, can bring about: a pong carries the
/// payload of the ping it answers, a ping that the handle reports carries the
/// payload of the pong already read for it, and a deadline passes only after
/// the pong for its ping was read.
pub open spec fn peer_keeps_pace<W>(v: ConnectionView, event: ConnectionEvent<W>) -> bool {
    match event {
        ConnectionEvent::Peer(Some(Ok(PeerMessage::Pong(p)))) => v.pongs.len() < v.pings.len()
            ==> p@ == v.pings[v.pongs.len() as int].payload,
        ConnectionEvent::HandleUpdate(Some(HandleStatus::SendPing(p))) => v.pings.len() < v.pongs.len()
            ==> v.pongs[v.pings.len() as int] == p@,
        ConnectionEvent::PongDeadline => v.pongs.len() > 0,
        _ => true,
    }
}

/// A ping whose pong arrived before its deadline keeps the connection going:
/// at the deadline both are settled, oldest first, and nothing is reported.
pub proof fn lemma_answered_ping_keeps_connection(v: ConnectionView)
    requires
        v.pings.len() > 0,
        v.pongs.len() > 0,
        v.pongs[0] == v.pings[0].payload,
    ensures
        reaction(v, ConnectionEvent::<()>::PongDeadline).result == Ok::<Step<Vec<u8>>, ConnectionError<()>>(Step::Continue),
        reaction(v, ConnectionEvent::<()>::PongDeadline).notify is None,
        next_view(v, ConnectionEvent::<()>::PongDeadline, 0).pings == v.pings.drop_first(),
        next_view(v, ConnectionEvent::<()>::PongDeadline, 0).pongs == v.pongs.drop_first(),
{
}

/// A ping that was not answered, or answered with another payload, by its
/// deadline terminates the connection, and the handle is told so; the wrong
/// pong, if any, is used up, and the ping stays pending.
pub proof fn lemma_unanswered_ping_terminates(v: ConnectionView)
    requires
        v.pings.len() > 0,
        v.pongs.len() == 0 || v.pongs[0] != v.pings[0].payload,
    ensures
        reaction(v, ConnectionEvent::<()>::PongDeadline).result == Ok::<Step<Vec<u8>>, ConnectionError<()>>(Step::Break),
        reaction(v, ConnectionEvent::<()>::PongDeadline).notify == Some(ConnectionStatus::ConnectionTerminated),
        next_view(v, ConnectionEvent::<()>::PongDeadline, 0).pings == v.pings,
        next_view(v, ConnectionEvent::<()>::PongDeadline, 0).pongs == (if v.pongs.len() > 0 {
            v.pongs.drop_first()
        } else {
            v.pongs
        }),
{
}

/// A peer that answers each ping with its payload, in the order the pings
/// were sent, before each deadline, is never disconnected by the pong check,
/// whichever of a pong and the handle's report of its ping the connection
/// reads first: every such event keeps the pongs lined up with the pings, and
/// a deadline that passes after its pong arrived lets the connection go on.
pub proof fn lemma_in_order_answers_keep_connection<W>(v: ConnectionView, event: ConnectionEvent<W>, now: u128)
    requires
        answered_in_order(v),
        can_take(v, event, now),
        peer_keeps_pace(v, event),
    ensures
        answered_in_order(next_view(v, event, now)),
        event is PongDeadline ==> reaction(v, event).result == Ok::<Step<Vec<u8>>, ConnectionError<W>>(Step::Continue),
{
    let w = next_view(v, event, now);
    assert forall|i: int| 0 <= i < w.pongs.len() && i < w.pings.len() implies #[trigger] w.pongs[i]
        == w.pings[i].payload by {
        match event {
            ConnectionEvent::PongDeadline => {
                assert(w.pongs[i] == v.pongs[i + 1]);
                assert(w.pings[i] == v.pings[i + 1]);
            },
            ConnectionEvent::HandleUpdate(update) => {
                if i < v.pings.len() {
                    assert(w.pings[i] == v.pings[i]);
                }
            },
            ConnectionEvent::Peer(item) => {
                if i < v.pongs.len() {
                    assert(w.pongs[i] == v.pongs[i]);
                }
            },
        }
    }
}

/// Whether the events `events`, taken at the times `times`, can all be
/// taken in turn from state `v`, each one keeping pace with the peer.
pub open spec fn paced_run<W>(v: ConnectionView, events: Seq<ConnectionEvent<W>>, times: Seq<u128>) -> bool
    decreases events.len(),
{
    &&& events.len() == times.len()
    &&& events.len() > 0 ==> {
        &&& can_take(v, events[0], times[0])
        &&& peer_keeps_pace(v, events[0])
        &&& paced_run(next_view(v, events[0], times[0]), events.drop_first(), times.drop_first())
    }
}

/// Whether every pong deadline among `events`, taken in turn from state `v`,
/// lets the connection go on.
pub open spec fn pong_check_passes<W>(v: ConnectionView, events: Seq<ConnectionEvent<W>>, times: Seq<u128>) -> bool
    decreases events.len(),
{
    events.len() > 0 && times.len() > 0 ==> {
        &&& events[0] is PongDeadline ==> reaction(v, events[0]).result
            == Ok::<Step<Vec<u8>>, ConnectionError<W>>(Step::Continue)
        &&& pong_check_passes(next_view(v, events[0], times[0]), events.drop_first(), times.drop_first())
    }
}

/// Over a whole run: a peer that answers each ping with its payload, in
/// order and before its deadline, is never cut off by the pong check, in
/// whatever order the connection reads its pongs and the handle's reports.
pub proof fn lemma_paced_peer_is_never_cut_off<W>(v: ConnectionView, events: Seq<ConnectionEvent<W>>, times: Seq<u128>)
    requires
        answered_in_order(v),
        paced_run(v, events, times),
    ensures
        pong_check_passes(v, events, times),
    decreases events.len(),
{
    if events.len() > 0 {
        lemma_in_order_answers_keep_connection(v, events[0], times[0]);
        lemma_paced_peer_is_never_cut_off(next_view(v, events[0], times[0]), events.drop_first(), times.drop_first());
    }
}

/// Pings and pongs each have a single writer: only the handle's pings add to
/// the pending pings, only the peer's pongs add to the received pongs, and
/// only a passing deadline removes either.
pub proof fn lemma_queues_have_single_writers<W>(v: ConnectionView, event: ConnectionEvent<W>, now: u128)
    ensures
        !(event is PongDeadline) && !(event matches ConnectionEvent::HandleUpdate(Some(HandleStatus::SendPing(_))))
            ==> next_view(v, event, now).pings == v.pings,
        !(event is PongDeadline) && !(event matches ConnectionEvent::Peer(Some(Ok(PeerMessage::Pong(_)))))
            ==> next_view(v, event, now).pongs == v.pongs,
        next_view(v, event, now).config == v.config,
{
}

/// A ping sent at `now` is due exactly `pong_timeout` nanoseconds later,
/// behind every ping already pending.
pub proof fn lemma_ping_deadline(v: ConnectionView, payload: Vec<u8>, now: u128)
    requires
        now + v.config.pong_timeout <= u128::MAX,
    ensures
        ({
            let w = next_view(v, ConnectionEvent::<()>::HandleUpdate(Some(HandleStatus::SendPing(payload))), now);
            &&& w.pings.len() == v.pings.len() + 1
            &&& w.pings.drop_last() == v.pings
            &&& w.pings.last().payload == payload@
            &&& w.pings.last().deadline == now + v.config.pong_timeout
        }),
{
    let w = next_view(v, ConnectionEvent::<()>::HandleUpdate(Some(HandleStatus::SendPing(payload))), now);
    assert(w.pings.drop_last() =~= v.pings);
}

} // verus!

verus! {

/// Binary data from the peer is delivered unchanged, whatever its length or
/// content and whatever the connection's state: the step yields exactly those
/// bytes, publishes nothing, and leaves the pings and pongs as they were.
pub proof fn lemma_binary_data_is_delivered_unchanged<W>(v: ConnectionView, data: Vec<u8>, now: u128)
    ensures
        reaction(v, ConnectionEvent::<W>::Peer(Some(Ok(PeerMessage::Binary(data))))) == (ConnectionReaction::<W> {
            result: Ok(Step::Item(data)),
            notify: None,
        }),
        next_view(v, ConnectionEvent::<W>::Peer(Some(Ok(PeerMessage::Binary(data)))), now) == v,
{
}

/// A pong from the peer, whatever its payload and whatever the state, never
/// ends the connection on its own: the step keeps going, publishes nothing,
/// and only queues the payload behind the pongs already received. Whether it
/// answers its ping is decided at that ping's deadline.
pub proof fn lemma_pong_is_queued_and_keeps_connection<W>(v: ConnectionView, payload: Vec<u8>, now: u128)
    ensures
        reaction(v, ConnectionEvent::<W>::Peer(Some(Ok(PeerMessage::Pong(payload))))) == (ConnectionReaction::<W> {
            result: Ok(Step::Continue),
            notify: None,
        }),
        next_view(v, ConnectionEvent::<W>::Peer(Some(Ok(PeerMessage::Pong(payload)))), now).pongs
            == v.pongs.push(payload@),
        next_view(v, ConnectionEvent::<W>::Peer(Some(Ok(PeerMessage::Pong(payload)))), now).pings == v.pings,
{
}

/// A close message ends the connection normally, whatever close frame comes
/// with it (none, or any code and reason): the step stops without an error and
/// tells the handle that the peer closed normally.
pub proof fn lemma_close_message_ends_connection_normally<W>(v: ConnectionView, frame: Option<CloseFrame>)
    ensures
        reaction(v, ConnectionEvent::<W>::Peer(Some(Ok(PeerMessage::Close(frame))))) == (ConnectionReaction::<W> {
            result: Ok(Step::Break),
            notify: Some(ConnectionStatus::ClientClosedNormally),
        }),
{
}

/// Keep-alive traffic and data never end a connection and are never
/// reported to the handle: a ping, pong or binary message from the peer, and
/// a `Normal` or ping report from the handle, each let the connection go on
/// without publishing a status.
pub proof fn lemma_traffic_never_ends_connection<W>(v: ConnectionView, event: ConnectionEvent<W>)
    requires
        event matches ConnectionEvent::Peer(Some(Ok(m))) ==> (m is Ping || m is Pong || m is Binary),
        event matches ConnectionEvent::HandleUpdate(u) ==> (u matches Some(s) && (s is Normal || s is SendPing)),
        !(event is PongDeadline),
        !(event matches ConnectionEvent::Peer(None)),
        !(event matches ConnectionEvent::Peer(Some(Err(_)))),
    ensures
        reaction(v, event).notify is None,
        reaction(v, event).result is Ok,
        reaction(v, event).result != Ok::<Step<Vec<u8>>, ConnectionError<W>>(Step::Break),
{
}

} // verus!

verus! {

/// Text and raw frames are refused: whatever the state, the step fails with
/// an illegal-message error that hands back the very message, and the handle
/// is told that the peer sent illegal data. Neither queue changes.
pub proof fn lemma_text_and_frames_are_refused<W>(v: ConnectionView, message: PeerMessage, now: u128)
    requires
        message is Text || message is Frame,
    ensures
        reaction(v, ConnectionEvent::<W>::Peer(Some(Ok(message)))) == (ConnectionReaction::<W> {
            result: Err(ConnectionError::IllegalMessageType(message)),
            notify: Some(ConnectionStatus::ClientSentIllegalData),
        }),
        next_view(v, ConnectionEvent::<W>::Peer(Some(Ok(message))), now) == v,
{
}

/// A ping from the peer is left to the transport to answer: the step keeps
/// going, publishes nothing and changes nothing.
pub proof fn lemma_peer_ping_is_ignored<W>(v: ConnectionView, payload: Vec<u8>, now: u128)
    ensures
        reaction(v, ConnectionEvent::<W>::Peer(Some(Ok(PeerMessage::Ping(payload))))) == (ConnectionReaction::<W> {
            result: Ok(Step::Continue),
            notify: None,
        }),
        next_view(v, ConnectionEvent::<W>::Peer(Some(Ok(PeerMessage::Ping(payload)))), now) == v,
{
}

/// How the peer's stream can end: a closed connection ends it normally, a
/// reset ends it without the handshake, any other transport failure ends it
/// with that very failure, each told to the handle; a stream that simply runs
/// out ends it without telling the handle.
pub proof fn lemma_stream_endings<W>(v: ConnectionView, failure: W)
    ensures
        reaction(v, ConnectionEvent::<W>::Peer(Some(Err(PeerError::ConnectionClosed)))) == (ConnectionReaction::<W> {
            result: Ok(Step::Break),
            notify: Some(ConnectionStatus::ClientClosedNormally),
        }),
        reaction(v, ConnectionEvent::<W>::Peer(Some(Err(PeerError::ResetWithoutClosingHandshake))))
            == (ConnectionReaction::<W> {
            result: Ok(Step::Break),
            notify: Some(ConnectionStatus::ClientClosedWithoutHandshake),
        }),
        reaction(v, ConnectionEvent::<W>::Peer(Some(Err(PeerError::Other(failure))))) == (ConnectionReaction::<W> {
            result: Err(ConnectionError::WebSocket(failure)),
            notify: Some(ConnectionStatus::Unknown),
        }),
        reaction(v, ConnectionEvent::<W>::Peer(None)) == (ConnectionReaction::<W> {
            result: Ok(Step::Break),
            notify: None,
        }),
{
}

/// What the handle reports drives the connection without any status going
/// back: `Normal` and a sent ping keep it going; the server closing, the ping
/// task stopping and the handle's channel closing stop it.
pub proof fn lemma_handle_updates_drive_connection<W>(v: ConnectionView, payload: Vec<u8>)
    ensures
        reaction(v, ConnectionEvent::<W>::HandleUpdate(Some(HandleStatus::Normal))) == (ConnectionReaction::<W> {
            result: Ok(Step::Continue),
            notify: None,
        }),
        reaction(v, ConnectionEvent::<W>::HandleUpdate(Some(HandleStatus::SendPing(payload))))
            == (ConnectionReaction::<W> { result: Ok(Step::Continue), notify: None }),
        reaction(v, ConnectionEvent::<W>::HandleUpdate(Some(HandleStatus::ServerClosedNormally)))
            == (ConnectionReaction::<W> { result: Ok(Step::Break), notify: None }),
        reaction(v, ConnectionEvent::<W>::HandleUpdate(Some(HandleStatus::PingTaskTerminated)))
            == (ConnectionReaction::<W> { result: Ok(Step::Break), notify: None }),
        reaction(v, ConnectionEvent::<W>::HandleUpdate(None)) == (ConnectionReaction::<W> {
            result: Ok(Step::Break),
            notify: None,
        }),
{
}

} // verus!
