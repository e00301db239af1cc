use vstd::prelude::*;

verus! {

/// Errors that can be raised by a client.
#[derive(Debug, Clone, Copy, PartialEq, Eq, Structural)]
pub enum ClientError {
    /// Server has failed to deserialize client's model.
    ///
    /// It is assumed that the peer's connection has been broken. The server gracefully terminates the connection to the
    /// peer. After receiving this error, any sends to the client will fail.
    ModelDeserialization,

    /// Server has failed to send a serialized model to the client.
    ///
    /// It _probably_ means that the peer has dropped its half of the connection. It's not possible to revive a closed
    /// connection.
    SendModel,

    /// Client's connection has already been dropped.
    ///
    /// Either the peer has sent an ill-formed model or the client's handle has been closed.
    DroppedConnection,
}

impl ClientError {
    /// The text of the error.
    pub open spec fn spec_message(self) -> Seq<char> {
        match self {
            ClientError::ModelDeserialization => "failed to deserialize a message received from peer"@,
            ClientError::SendModel => "failed to send serialized model to the client"@,
            ClientError::DroppedConnection => "connection to client has been dropped"@,
        }
    }

    /// The text of the error.
    pub fn to_string(&self) -> (r: String)
        ensures
            r@ == self.spec_message(),
    {
        match self {
            ClientError::ModelDeserialization => "failed to deserialize a message received from peer".to_owned(),
            ClientError::SendModel => "failed to send serialized model to the client".to_owned(),
            ClientError::DroppedConnection => "connection to client has been dropped".to_owned(),
        }
    }
}

} // verus!
