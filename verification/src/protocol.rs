//! Laws that tie the two ends of a status channel together: what one side
//! publishes and what the other side then does.
use vstd::prelude::*;

use crate::client::client_handle::{send_outcome, stays_open};
use crate::client::shared_state::ClientStatus;
use crate::client::{client_reaction, ClientError};
use crate::connection::connection_handle::{handle_task_action, ping_task_outcome, HandleTaskAction, PingAttempt};
use crate::connection::ping_context::PingRecord;
use crate::connection::shared_state::HandleStatus;
use crate::connection::state::{can_take, next_view, reaction, ConnectionEvent, ConnectionView};
use crate::connection::ConnectionError;
use crate::client::shared_state::{ClientHalf, HandleHalf as ClientHandleHalf};
use crate::connection::shared_state::{paired, ConnectionHalf, ConnectionStatus, HandleHalf};
use crate::step::Step;
use crate::watch::{
    client_status_linked, client_status_published, connection_status_linked, connection_status_published,
    handle_status_linked, handle_status_published,
};
use tokio::sync::watch::{Receiver, Sender};

verus! {

/// Every status that a connection publishes tells its handle that the peer
/// is done: the handle closes the peer's sink, unless it already has.
pub proof fn lemma_published_status_closes_sink<W>(v: ConnectionView, event: ConnectionEvent<W>)
    ensures
        reaction(v, event).notify matches Some(status)
            ==> handle_task_action(false, Some(status)) == HandleTaskAction::CloseSinkAndStop,
        reaction(v, event).notify matches Some(status) ==> handle_task_action(true, Some(status)) == HandleTaskAction::Stop,
{
}

/// Once the handle has closed the peer's sink and says so, the connection
/// stops.
pub proof fn lemma_server_close_stops_connection(v: ConnectionView, now: u128)
    ensures
        reaction(v, ConnectionEvent::<()>::HandleUpdate(Some(HandleStatus::ServerClosedNormally))).result
            == Ok::<Step<Vec<u8>>, ConnectionError<()>>(Step::Break),
        next_view(v, ConnectionEvent::<()>::HandleUpdate(Some(HandleStatus::ServerClosedNormally)), now) == v,
{
}

/// What the ping task reports drives the connection: a ping that went out
/// becomes the newest pending ping and the connection keeps going; a ping
/// task that stopped stops the connection.
pub proof fn lemma_ping_task_drives_connection(v: ConnectionView, attempt: PingAttempt, now: u128)
    requires
        now + v.config.pong_timeout <= u128::MAX,
    ensures
        ({
            let (status, keep_going) = ping_task_outcome(attempt);
            let event = ConnectionEvent::<()>::HandleUpdate(Some(status));
            &&& can_take(v, event, now)
            &&& keep_going ==> reaction(v, event).result == Ok::<Step<Vec<u8>>, ConnectionError<()>>(Step::Continue)
            &&& keep_going ==> (attempt matches PingAttempt::Sent(payload) && next_view(v, event, now).pings
                == v.pings.push(PingRecord { payload: payload@, deadline: now + v.config.pong_timeout }))
            &&& !keep_going ==> reaction(v, event).result == Ok::<Step<Vec<u8>>, ConnectionError<()>>(Step::Break)
            &&& !keep_going ==> next_view(v, event, now) == v
        }),
{
}

/// After the peer sends an invalid model, the client fails with
/// `ModelDeserialization` and tells its handle, which closes; from then on
/// every send to the client fails with `DroppedConnection`.
pub proof fn lemma_invalid_model_drops_connection<CM, E>(error: E, open: bool, delivered: bool)
    ensures
        client_reaction::<CM, E>(Some(Err(error))).result == Err::<Step<CM>, ClientError>(ClientError::ModelDeserialization),
        client_reaction::<CM, E>(Some(Err(error))).notify == Some(ClientStatus::InvalidModel),
        !stays_open(open, client_reaction::<CM, E>(Some(Err(error))).notify),
        send_outcome(stays_open(open, client_reaction::<CM, E>(Some(Err(error))).notify), delivered)
            == Err::<(), ClientError>(ClientError::DroppedConnection),
{
}

/// Each side of a connection reads only what the other side published:
/// between two paired halves, a status that the handle reads on a receiver
/// made from its half was published by the connection's half, and a status
/// that the connection reads was published by the handle's half.
pub proof fn lemma_each_side_reads_what_the_other_published(
    connection_half: ConnectionHalf,
    handle_half: HandleHalf,
    receiver: Receiver<ConnectionStatus>,
    seen_by_handle: ConnectionStatus,
    seen_by_connection: HandleStatus,
)
    requires
        paired(connection_half, handle_half),
        forall|sender: Sender<ConnectionStatus>| #[trigger] connection_status_linked(sender, handle_half.spec_receiver())
            ==> connection_status_linked(sender, receiver),
        forall|sender: Sender<ConnectionStatus>| #[trigger] connection_status_linked(sender, receiver)
            ==> connection_status_published(sender, seen_by_handle),
        forall|sender: Sender<HandleStatus>| #[trigger] handle_status_linked(sender, connection_half.spec_receiver())
            ==> handle_status_published(sender, seen_by_connection),
    ensures
        connection_status_published(connection_half.spec_notifier(), seen_by_handle),
        handle_status_published(handle_half.spec_notifier(), seen_by_connection),
{
    assert(connection_status_linked(connection_half.spec_notifier(), handle_half.spec_receiver()));
    assert(connection_status_linked(connection_half.spec_notifier(), receiver));
    assert(handle_status_linked(handle_half.spec_notifier(), connection_half.spec_receiver()));
}

/// Reading a status keeps two halves paired: a connection's half that stays
/// on its channels while it reads is still paired with the same handle's
/// half.
pub proof fn lemma_reading_keeps_halves_paired(before: ConnectionHalf, after: ConnectionHalf, handle_half: HandleHalf)
    requires
        paired(before, handle_half),
        after.spec_notifier() == before.spec_notifier(),
        forall|sender: Sender<HandleStatus>| #[trigger] handle_status_linked(sender, before.spec_receiver())
            ==> handle_status_linked(sender, after.spec_receiver()),
    ensures
        paired(after, handle_half),
{
    assert(handle_status_linked(handle_half.spec_notifier(), before.spec_receiver()));
}

/// A client's handle reads only what the client published: a status read
/// on the handle's half, when the client's sender feeds it, was published by
/// the client's half.
pub proof fn lemma_handle_reads_what_client_published(
    client_half: ClientHalf,
    handle_half: ClientHandleHalf,
    seen_by_handle: ClientStatus,
)
    requires
        client_status_linked(client_half.spec_notifier(), handle_half.spec_receiver()),
        forall|sender: Sender<ClientStatus>| #[trigger] client_status_linked(sender, handle_half.spec_receiver())
            ==> client_status_published(sender, seen_by_handle),
    ensures
        client_status_published(client_half.spec_notifier(), seen_by_handle),
{
}

} // verus!
