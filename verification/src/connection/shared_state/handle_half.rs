use vstd::prelude::*;

use tokio::sync::watch::{Receiver, Sender};

use crate::connection::ConnectionConfig;
use crate::watch::{
    connection_status_latest, connection_status_linked, connection_status_published, connection_status_subscribe,
    handle_status_closed, handle_status_published, handle_status_send,
};

use super::{connection_status::ConnectionStatus, error::SharedStateError, handle_status::HandleStatus};

verus! {

/// The handle's end of the status channels: it publishes the handle's
/// status and watches the connection's.
#[derive(Debug)]
pub struct HandleHalf {
    config: ConnectionConfig,
    connection_notifier: Sender<HandleStatus>,
    handle_receiver: Receiver<ConnectionStatus>,
}

impl HandleHalf {
    /// The configuration that the connection was made with.
    pub closed spec fn spec_config(&self) -> ConnectionConfig {
        self.config
    }

    /// The sender on which the handle publishes its status.
    pub closed spec fn spec_notifier(&self) -> Sender<HandleStatus> {
        self.connection_notifier
    }

    /// The receiver of the connection's status updates.
    pub closed spec fn spec_receiver(&self) -> Receiver<ConnectionStatus> {
        self.handle_receiver
    }

    pub(crate) fn new(
        config: ConnectionConfig,
        connection_notifier: Sender<HandleStatus>,
        handle_receiver: Receiver<ConnectionStatus>,
    ) -> (r: Self)
        ensures
            r.spec_config() == config,
            r.spec_notifier() == connection_notifier,
            r.spec_receiver() == handle_receiver,
    {
        HandleHalf { config, connection_notifier, handle_receiver }
    }

    /// Publishes `status` to the connection: on success the handle's channel
    /// has held `status`. It fails only when the connection is gone, and the
    /// error then holds the status that could not be delivered.
    pub fn notify(&self, status: HandleStatus) -> (r: Result<(), SharedStateError>)
        ensures
            r is Ok ==> handle_status_published(self.spec_notifier(), status),
            r is Err ==> handle_status_closed(self.spec_notifier()),
            r matches Err(e) ==> e == SharedStateError::HandleFailedToShareUpdate(status),
    {
        match handle_status_send(&self.connection_notifier, status) {
            Ok(()) => Ok(()),
            Err(returned) => Err(SharedStateError::HandleFailedToShareUpdate(returned)),
        }
    }

    /// A new receiver of the connection's status updates: every sender that
    /// feeds this half's receiver feeds it too.
    pub fn receiver(&self) -> (r: Receiver<ConnectionStatus>)
        ensures
            forall|sender: Sender<ConnectionStatus>| #[trigger] connection_status_linked(sender, self.spec_receiver())
                ==> connection_status_linked(sender, r),
    {
        connection_status_subscribe(&self.handle_receiver)
    }

    /// The connection's latest status on `receiver`, marked as seen: a
    /// status that every sender feeding `receiver` has published. The
    /// receiver stays on the same channel.
    pub fn read_status(receiver: &mut Receiver<ConnectionStatus>) -> (r: ConnectionStatus)
        ensures
            forall|sender: Sender<ConnectionStatus>| #[trigger] connection_status_linked(sender, *old(receiver))
                ==> connection_status_linked(sender, *final(receiver))
                && connection_status_published(sender, r),
    {
        connection_status_latest(receiver)
    }

    /// The configuration that the connection was made with.
    pub fn config(&self) -> (r: &ConnectionConfig)
        ensures
            *r == self.spec_config(),
    {
        &self.config
    }
}

} // verus!
