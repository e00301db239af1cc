pub mod connection_half;
pub mod connection_status;
pub mod error;
pub mod handle_half;
pub mod handle_status;

use vstd::prelude::*;

use crate::watch::{
    connection_status_channel, connection_status_linked, connection_status_published, handle_status_channel,
    handle_status_linked, handle_status_published,
};

pub use self::{
    connection_half::ConnectionHalf, connection_status::ConnectionStatus, error::SharedStateError,
    handle_half::HandleHalf, handle_status::HandleStatus,
};

use super::ConnectionConfig;

verus! {

/// The two status channels between a connection and its handle, before they
/// are handed out to the two sides.
#[derive(Debug)]
pub struct SharedState {
    handle_half: HandleHalf,
    connection_half: ConnectionHalf,
}

/// Whether a connection's half and a handle's half are the two ends of the
/// same pair of channels: each one's sender feeds the other one's receiver.
pub open spec fn paired(connection_half: ConnectionHalf, handle_half: HandleHalf) -> bool {
    &&& connection_status_linked(connection_half.spec_notifier(), handle_half.spec_receiver())
    &&& handle_status_linked(handle_half.spec_notifier(), connection_half.spec_receiver())
}

impl SharedState {
    /// The configuration that the handle's side keeps.
    pub closed spec fn spec_config(&self) -> ConnectionConfig {
        self.handle_half.spec_config()
    }

    /// The connection's side.
    pub closed spec fn spec_connection_half(&self) -> ConnectionHalf {
        self.connection_half
    }

    /// The handle's side.
    pub closed spec fn spec_handle_half(&self) -> HandleHalf {
        self.handle_half
    }

    /// Opens both channels, each holding the `Normal` status, with the
    /// connection's sender feeding the handle's receiver and the handle's
    /// sender feeding the connection's receiver, and gives the handle's side
    /// a copy of `config`.
    pub fn new(config: ConnectionConfig) -> (r: Self)
        ensures
            r.spec_config() == config,
            paired(r.spec_connection_half(), r.spec_handle_half()),
            connection_status_published(r.spec_connection_half().spec_notifier(), ConnectionStatus::Normal),
            handle_status_published(r.spec_handle_half().spec_notifier(), HandleStatus::Normal),
    {
        let (connection_notifier, connection_receiver) = handle_status_channel(HandleStatus::default());
        let (handle_notifier, handle_receiver) = connection_status_channel(ConnectionStatus::default());

        let handle_half = HandleHalf::new(config, connection_notifier, handle_receiver);
        let connection_half = ConnectionHalf::new(handle_notifier, connection_receiver);

        SharedState { handle_half, connection_half }
    }

    /// Hands out the connection's side and the handle's side.
    pub fn split(self) -> (r: (ConnectionHalf, HandleHalf))
        ensures
            r.0 == self.spec_connection_half(),
            r.1 == self.spec_handle_half(),
            r.1.spec_config() == self.spec_config(),
    {
        (self.connection_half, self.handle_half)
    }
}

} // verus!
