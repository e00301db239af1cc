use vstd::prelude::*;
use vstd::string::StringExecFns;

use super::{connection_status::ConnectionStatus, handle_status::HandleStatus};

verus! {

/// A status update that could not be delivered, because the other side of
/// the channel is gone.
#[derive(Debug, PartialEq, Eq)]
pub enum SharedStateError {
    /// The connection could not tell its handle about this status.
    ConnectionFailedToShareUpdate(ConnectionStatus),
    /// The handle could not tell its connection about this status.
    HandleFailedToShareUpdate(HandleStatus),
}

impl SharedStateError {
    /// The text of the error.
    pub open spec fn spec_message(self) -> Seq<char> {
        match self {
            SharedStateError::ConnectionFailedToShareUpdate(s) =>
                "connection failed to share a new status update with the handle. Status: '"@
                    + s.spec_name() + "'"@,
            SharedStateError::HandleFailedToShareUpdate(s) =>
                "handle failed to share a new status update with the connection. Status: '"@
                    + s.spec_name() + "'"@,
        }
    }

    /// The text of the error, naming the status that was not delivered.
    pub fn to_string(&self) -> (r: String)
        ensures
            r@ == self.spec_message(),
    {
        let (mut text, name) = match self {
            SharedStateError::ConnectionFailedToShareUpdate(s) => (
                "connection failed to share a new status update with the handle. Status: '".to_owned(),
                s.to_string(),
            ),
            SharedStateError::HandleFailedToShareUpdate(s) => (
                "handle failed to share a new status update with the connection. Status: '".to_owned(),
                s.to_string(),
            ),
        };
        text.append(name.as_str());
        text.append("'");
        text
    }
}

} // verus!
