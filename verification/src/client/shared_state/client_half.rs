use vstd::prelude::*;

use tokio::sync::watch::Sender;

use crate::watch::{client_status_closed, client_status_published, client_status_send};

use super::{client_status::ClientStatus, error::SharedStateError};

verus! {

/// The client's end of the status channel: it publishes the client's status.
#[derive(Debug)]
pub struct ClientHalf {
    handle_notifier: Sender<ClientStatus>,
}

impl ClientHalf {
    /// The sender of the client's status updates.
    pub closed spec fn spec_notifier(&self) -> Sender<ClientStatus> {
        self.handle_notifier
    }

    pub(crate) fn new(handle_notifier: Sender<ClientStatus>) -> (r: Self)
        ensures
            r.spec_notifier() == handle_notifier,
    {
        ClientHalf { handle_notifier }
    }

    /// Publishes `status` to the handle: on success the client's channel has
    /// held `status`. It fails only when the handle is gone, and the error
    /// then names the status that could not be delivered.
    pub fn notify(&self, status: ClientStatus) -> (r: Result<(), SharedStateError>)
        ensures
            r is Ok ==> client_status_published(self.spec_notifier(), status),
            r is Err ==> client_status_closed(self.spec_notifier()),
            r matches Err(e) ==> e.spec_status() == status,
    {
        match client_status_send(&self.handle_notifier, status) {
            Ok(()) => Ok(()),
            Err(_) => Err(SharedStateError::new(status)),
        }
    }
}

} // verus!
