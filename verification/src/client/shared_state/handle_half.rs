use vstd::prelude::*;

use tokio::sync::watch::{Receiver, Sender};

use crate::watch::{client_status_latest, client_status_linked, client_status_published};

use super::client_status::ClientStatus;

verus! {

/// The handle's end of the status channel: it watches the client's status.
#[derive(Debug)]
pub struct HandleHalf {
    handle_receiver: Receiver<ClientStatus>,
}

impl HandleHalf {
    /// The receiver of the client's status updates.
    pub closed spec fn spec_receiver(&self) -> Receiver<ClientStatus> {
        self.handle_receiver
    }

    pub(crate) fn new(handle_receiver: Receiver<ClientStatus>) -> (r: Self)
        ensures
            r.spec_receiver() == handle_receiver,
    {
        HandleHalf { handle_receiver }
    }

    /// The receiver of the client's status updates.
    pub fn receiver_mut(&mut self) -> (r: &mut Receiver<ClientStatus>)
        ensures
            *r == old(self).spec_receiver(),
            final(self).spec_receiver() == *final(r),
    {
        &mut self.handle_receiver
    }

    /// The client's latest status, marked as seen: a status that every
    /// sender feeding this half's receiver has published. The half stays on
    /// the same channel.
    pub fn latest_client_status(&mut self) -> (r: ClientStatus)
        ensures
            forall|sender: Sender<ClientStatus>| #[trigger] client_status_linked(sender, old(self).spec_receiver())
                ==> client_status_linked(sender, final(self).spec_receiver())
                && client_status_published(sender, r),
    {
        client_status_latest(&mut self.handle_receiver)
    }
}

} // verus!
