pub mod client_half;
pub mod client_status;
pub mod error;
pub mod handle_half;

use vstd::prelude::*;

use crate::watch::{client_status_channel, client_status_linked, client_status_published};

pub use self::{
    client_half::ClientHalf, client_status::ClientStatus, error::SharedStateError, handle_half::HandleHalf,
};

verus! {

/// The status channel between a client and its handle, before its ends are
/// handed out.
#[derive(Debug)]
pub struct SharedState {
    handle_half: HandleHalf,
    client_half: ClientHalf,
}

impl SharedState {
    /// The client's end of the channel.
    pub closed spec fn spec_client_half(&self) -> ClientHalf {
        self.client_half
    }

    /// The handle's end of the channel.
    pub closed spec fn spec_handle_half(&self) -> HandleHalf {
        self.handle_half
    }

    /// Opens the channel, holding the `Normal` status, with the client's
    /// sender feeding the handle's receiver.
    pub fn new() -> (r: Self)
        ensures
            client_status_linked(r.spec_client_half().spec_notifier(), r.spec_handle_half().spec_receiver()),
            client_status_published(r.spec_client_half().spec_notifier(), ClientStatus::Normal),
    {
        let (handle_notifier, handle_receiver) = client_status_channel(ClientStatus::default());

        let handle_half = HandleHalf::new(handle_receiver);
        let client_half = ClientHalf::new(handle_notifier);

        SharedState { handle_half, client_half }
    }

    /// Hands out the client's end and the handle's end.
    pub fn split(self) -> (r: (ClientHalf, HandleHalf))
        ensures
            r.0 == self.spec_client_half(),
            r.1 == self.spec_handle_half(),
    {
        (self.client_half, self.handle_half)
    }
}

} // verus!
