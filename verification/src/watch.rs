//! The single-value channels over which a service and its handle publish
//! their latest status to each other.
//!
//! A channel is modelled by relations on its ends: which sender feeds
//! which receiver (`*_linked`), which values the channel has held
//! (`*_published`), and whether it has ever been left without a receiver
//! (`*_closed`). All are facts about the whole life of a channel, so they
//! never change once they hold. Each status type has its own channels, so
//! each has its own relations and its own trusted items.
use vstd::prelude::*;

use tokio::sync::watch::{Receiver, Sender};

use crate::client::shared_state::ClientStatus;
use crate::connection::shared_state::{ConnectionStatus, HandleStatus};

verus! {

/// The sending half of a `tokio` watch channel.
#[verifier::external_type_specification]
#[verifier::external_body]
#[verifier::reject_recursive_types(T)]
pub struct ExWatchSender<T>(tokio::sync::watch::Sender<T>);

/// The receiving half of a `tokio` watch channel.
#[verifier::external_type_specification]
#[verifier::external_body]
#[verifier::reject_recursive_types(T)]
pub struct ExWatchReceiver<T>(tokio::sync::watch::Receiver<T>);

/// Whether `sender` and `receiver` are ends of the same channel of connection
/// statuses.
pub uninterp spec fn connection_status_linked(sender: Sender<ConnectionStatus>, receiver: Receiver<ConnectionStatus>) -> bool;

/// Whether the channel of connection statuses that `sender` feeds has held
/// `value` at some time.
pub uninterp spec fn connection_status_published(sender: Sender<ConnectionStatus>, value: ConnectionStatus) -> bool;

/// Whether the channel of connection statuses that `sender` feeds has, at
/// some time, had no receiver left.
pub uninterp spec fn connection_status_closed(sender: Sender<ConnectionStatus>) -> bool;

/// Whether `sender` and `receiver` are ends of the same channel of handle
/// statuses.
pub uninterp spec fn handle_status_linked(sender: Sender<HandleStatus>, receiver: Receiver<HandleStatus>) -> bool;

/// Whether the channel of handle statuses that `sender` feeds has held
/// `value` at some time.
pub uninterp spec fn handle_status_published(sender: Sender<HandleStatus>, value: HandleStatus) -> bool;

/// Whether the channel of handle statuses that `sender` feeds has, at
/// some time, had no receiver left.
pub uninterp spec fn handle_status_closed(sender: Sender<HandleStatus>) -> bool;

/// Whether `sender` and `receiver` are ends of the same channel of client
/// statuses.
pub uninterp spec fn client_status_linked(sender: Sender<ClientStatus>, receiver: Receiver<ClientStatus>) -> bool;

/// Whether the channel of client statuses that `sender` feeds has held
/// `value` at some time.
pub uninterp spec fn client_status_published(sender: Sender<ClientStatus>, value: ClientStatus) -> bool;

/// Whether the channel of client statuses that `sender` feeds has, at
/// some time, had no receiver left.
pub uninterp spec fn client_status_closed(sender: Sender<ClientStatus>) -> bool;


/// Calls `tokio::sync::watch::channel`, which creates a channel holding
/// `init`: the two halves it returns are ends of that one channel, and the
/// channel has held `init`.
#[verifier::external_body]
pub(crate) fn connection_status_channel(init: ConnectionStatus) -> (r: (Sender<ConnectionStatus>, Receiver<ConnectionStatus>))
    ensures
        connection_status_linked(r.0, r.1),
        connection_status_published(r.0, init),
{
    tokio::sync::watch::channel(init)
}

/// Calls `tokio::sync::watch::Sender::send`. When it succeeds, the channel
/// that `sender` feeds has held `value`. It fails only when no receiver is
/// left, so the channel has then had no receiver, and it hands back the very
/// value it was given.
#[verifier::external_body]
pub(crate) fn connection_status_send(sender: &Sender<ConnectionStatus>, value: ConnectionStatus) -> (r: Result<(), ConnectionStatus>)
    ensures
        r is Ok ==> connection_status_published(*sender, value),
        r is Err ==> connection_status_closed(*sender),
        r matches Err(v) ==> v == value,
{
    sender.send(value).map_err(|e| e.0)
}

/// Calls `Clone::clone` on a `tokio::sync::watch::Receiver`, which makes
/// another receiver of the same channel: every sender that feeds `receiver`
/// feeds the new one.
#[verifier::external_body]
pub(crate) fn connection_status_subscribe(receiver: &Receiver<ConnectionStatus>) -> (r: Receiver<ConnectionStatus>)
    ensures
        forall|sender: Sender<ConnectionStatus>| #[trigger] connection_status_linked(sender, *receiver) ==> connection_status_linked(sender, r),
{
    receiver.clone()
}

/// Calls `tokio::sync::watch::Receiver::borrow_and_update` and clones the
/// value it lends: the value the channel holds now, which the channel has
/// therefore held. The receiver stays an end of the same channel; it only
/// marks the value as seen.
#[verifier::external_body]
pub(crate) fn connection_status_latest(receiver: &mut Receiver<ConnectionStatus>) -> (r: ConnectionStatus)
    ensures
        forall|sender: Sender<ConnectionStatus>| #[trigger] connection_status_linked(sender, *old(receiver))
            ==> connection_status_linked(sender, *final(receiver)) && connection_status_published(sender, r),
{
    receiver.borrow_and_update().clone()
}

/// Calls `tokio::sync::watch::channel`, which creates a channel holding
/// `init`: the two halves it returns are ends of that one channel, and the
/// channel has held `init`.
#[verifier::external_body]
pub(crate) fn handle_status_channel(init: HandleStatus) -> (r: (Sender<HandleStatus>, Receiver<HandleStatus>))
    ensures
        handle_status_linked(r.0, r.1),
        handle_status_published(r.0, init),
{
    tokio::sync::watch::channel(init)
}

/// Calls `tokio::sync::watch::Sender::send`. When it succeeds, the channel
/// that `sender` feeds has held `value`. It fails only when no receiver is
/// left, so the channel has then had no receiver, and it hands back the very
/// value it was given.
#[verifier::external_body]
pub(crate) fn handle_status_send(sender: &Sender<HandleStatus>, value: HandleStatus) -> (r: Result<(), HandleStatus>)
    ensures
        r is Ok ==> handle_status_published(*sender, value),
        r is Err ==> handle_status_closed(*sender),
        r matches Err(v) ==> v == value,
{
    sender.send(value).map_err(|e| e.0)
}

/// Calls `tokio::sync::watch::Receiver::borrow_and_update` and clones the
/// value it lends: the value the channel holds now, which the channel has
/// therefore held. The receiver stays an end of the same channel; it only
/// marks the value as seen.
#[verifier::external_body]
pub(crate) fn handle_status_latest(receiver: &mut Receiver<HandleStatus>) -> (r: HandleStatus)
    ensures
        forall|sender: Sender<HandleStatus>| #[trigger] handle_status_linked(sender, *old(receiver))
            ==> handle_status_linked(sender, *final(receiver)) && handle_status_published(sender, r),
{
    receiver.borrow_and_update().clone()
}

/// Calls `tokio::sync::watch::channel`, which creates a channel holding
/// `init`: the two halves it returns are ends of that one channel, and the
/// channel has held `init`.
#[verifier::external_body]
pub(crate) fn client_status_channel(init: ClientStatus) -> (r: (Sender<ClientStatus>, Receiver<ClientStatus>))
    ensures
        client_status_linked(r.0, r.1),
        client_status_published(r.0, init),
{
    tokio::sync::watch::channel(init)
}

/// Calls `tokio::sync::watch::Sender::send`. When it succeeds, the channel
/// that `sender` feeds has held `value`. It fails only when no receiver is
/// left, so the channel has then had no receiver, and it hands back the very
/// value it was given.
#[verifier::external_body]
pub(crate) fn client_status_send(sender: &Sender<ClientStatus>, value: ClientStatus) -> (r: Result<(), ClientStatus>)
    ensures
        r is Ok ==> client_status_published(*sender, value),
        r is Err ==> client_status_closed(*sender),
        r matches Err(v) ==> v == value,
{
    sender.send(value).map_err(|e| e.0)
}

/// Calls `tokio::sync::watch::Receiver::borrow_and_update` and clones the
/// value it lends: the value the channel holds now, which the channel has
/// therefore held. The receiver stays an end of the same channel; it only
/// marks the value as seen.
#[verifier::external_body]
pub(crate) fn client_status_latest(receiver: &mut Receiver<ClientStatus>) -> (r: ClientStatus)
    ensures
        forall|sender: Sender<ClientStatus>| #[trigger] client_status_linked(sender, *old(receiver))
            ==> client_status_linked(sender, *final(receiver)) && client_status_published(sender, r),
{
    receiver.borrow_and_update().clone()
}

} // verus!
