use vstd::prelude::*;
use vstd::string::StringExecFns;

use super::client_status::ClientStatus;

verus! {

/// A client status that could not be delivered to the handle, because the
/// handle is gone.
#[derive(Debug)]
pub struct SharedStateError {
    status: ClientStatus,
}

impl SharedStateError {
    /// The status that was not delivered.
    pub closed spec fn spec_status(&self) -> ClientStatus {
        self.status
    }

    /// The error for `status`.
    pub fn new(status: ClientStatus) -> (r: Self)
        ensures
            r.spec_status() == status,
    {
        SharedStateError { status }
    }

    /// The status that was not delivered.
    pub fn status(&self) -> (r: ClientStatus)
        ensures
            r == self.spec_status(),
    {
        self.status
    }

    /// The text of the error.
    pub open spec fn spec_message(&self) -> Seq<char> {
        "connection failed to share a new status update with the handle. Status: '"@
            + self.spec_status().spec_name() + "'"@
    }

    /// The text of the error, naming the status that was not delivered.
    pub fn to_string(&self) -> (r: String)
        ensures
            r@ == self.spec_message(),
    {
        let mut text = "connection failed to share a new status update with the handle. Status: '".to_owned();
        let name = self.status.to_string();
        text.append(name.as_str());
        text.append("'");
        text
    }
}

} // verus!
