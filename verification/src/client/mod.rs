pub mod client_handle;
pub mod error;
pub mod shared_state;

use vstd::prelude::*;

use crate::step::Step;

pub use self::client_handle::ClientHandleState;
pub use self::error::ClientError;
use self::shared_state::ClientStatus;

verus! {

/// What one step of a client produces: the step's result, and the status to
/// publish to the client's handle, if any.
#[derive(Debug, PartialEq, Eq)]
pub struct ClientReaction<CM> {
    /// The model received, or whether the client keeps going, or why it
    /// failed.
    pub result: Result<Step<CM>, ClientError>,
    /// The status to publish to the handle.
    pub notify: Option<ClientStatus>,
}

/// The reaction of a client to what the connection delivered.
pub open spec fn client_reaction<CM, E>(received: Option<Result<CM, E>>) -> ClientReaction<CM> {
    match received {
        Some(Ok(model)) => ClientReaction { result: Ok(Step::Item(model)), notify: None },
        Some(Err(_)) => ClientReaction {
            result: Err(ClientError::ModelDeserialization),
            notify: Some(ClientStatus::InvalidModel),
        },
        None => ClientReaction { result: Ok(Step::Break), notify: None },
    }
}

/// Drives a client one step. `received` is `None` once the connection's
/// channel has closed, and otherwise the conversion of the data received into
/// a model: a valid model is delivered; an invalid one fails the client and
/// tells the handle, which then drops the connection.
pub fn run<CM, E>(received: Option<Result<CM, E>>) -> (r: ClientReaction<CM>)
    ensures
        r == client_reaction(received),
{
    match received {
        Some(Ok(model)) => ClientReaction { result: Ok(Step::Item(model)), notify: None },
        Some(Err(_)) => ClientReaction {
            result: Err(ClientError::ModelDeserialization),
            notify: Some(ClientStatus::InvalidModel),
        },
        None => ClientReaction { result: Ok(Step::Break), notify: None },
    }
}

} // verus!

verus! {

/// A valid model is delivered as it came, without telling the handle; any
/// failure to convert the data fails the client with `ModelDeserialization`
/// and tells the handle the model was invalid; a closed connection channel
/// ends the client quietly.
pub proof fn lemma_client_step_outcomes<CM, E>(model: CM, error: E)
    ensures
        client_reaction::<CM, E>(Some(Ok(model))) == (ClientReaction { result: Ok(Step::Item(model)), notify: None }),
        client_reaction::<CM, E>(Some(Err(error))) == (ClientReaction::<CM> {
            result: Err(ClientError::ModelDeserialization),
            notify: Some(ClientStatus::InvalidModel),
        }),
        client_reaction::<CM, E>(None) == (ClientReaction::<CM> { result: Ok(Step::Break), notify: None }),
{
}

} // verus!
