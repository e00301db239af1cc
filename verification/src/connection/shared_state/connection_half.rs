use vstd::prelude::*;

use tokio::sync::watch::{Receiver, Sender};

use crate::watch::{connection_status_closed, connection_status_published, connection_status_send, handle_status_latest, handle_status_linked, handle_status_published};

use super::{connection_status::ConnectionStatus, error::SharedStateError, handle_status::HandleStatus};

verus! {

/// The connection's end of the status channels: it publishes the
/// connection's status and watches the handle's.
#[derive(Debug)]
pub struct ConnectionHalf {
    handle_notifier: Sender<ConnectionStatus>,
    connection_receiver: Receiver<HandleStatus>,
}

impl ConnectionHalf {
    /// The sender on which the connection publishes its status.
    pub closed spec fn spec_notifier(&self) -> Sender<ConnectionStatus> {
        self.handle_notifier
    }

    /// The receiver of the handle's status updates.
    pub closed spec fn spec_receiver(&self) -> Receiver<HandleStatus> {
        self.connection_receiver
    }

    pub(crate) fn new(
        handle_notifier: Sender<ConnectionStatus>,
        connection_receiver: Receiver<HandleStatus>,
    ) -> (r: Self)
        ensures
            r.spec_notifier() == handle_notifier,
            r.spec_receiver() == connection_receiver,
    {
        ConnectionHalf { handle_notifier, connection_receiver }
    }

    /// Publishes `status` to the handle: on success the connection's channel
    /// has held `status`. It fails only when the handle is gone, and the
    /// error then names the status that could not be delivered.
    pub fn notify(&self, status: ConnectionStatus) -> (r: Result<(), SharedStateError>)
        ensures
            r is Ok ==> connection_status_published(self.spec_notifier(), status),
            r is Err ==> connection_status_closed(self.spec_notifier()),
            r matches Err(e) ==> e == SharedStateError::ConnectionFailedToShareUpdate(status),
    {
        match connection_status_send(&self.handle_notifier, status) {
            Ok(()) => Ok(()),
            Err(_) => Err(SharedStateError::ConnectionFailedToShareUpdate(status)),
        }
    }

    /// The receiver of the handle's status updates.
    pub fn receiver_mut(&mut self) -> (r: &mut Receiver<HandleStatus>)
        ensures
            *r == old(self).spec_receiver(),
            final(self).spec_receiver() == *final(r),
            final(self).spec_notifier() == old(self).spec_notifier(),
    {
        &mut self.connection_receiver
    }

    /// The handle's latest status, marked as seen: a status that every
    /// sender feeding this half's receiver has published. The half stays on
    /// the same channels.
    pub fn latest_handle_status(&mut self) -> (r: HandleStatus)
        ensures
            final(self).spec_notifier() == old(self).spec_notifier(),
            forall|sender: Sender<HandleStatus>| #[trigger] handle_status_linked(sender, old(self).spec_receiver())
                ==> handle_status_linked(sender, final(self).spec_receiver())
                && handle_status_published(sender, r),
    {
        handle_status_latest(&mut self.connection_receiver)
    }
}

} // verus!
