use vstd::prelude::*;

verus! {

/// What the client last reported to its handle.
#[derive(Debug, Clone, Copy, PartialEq, Eq, Structural)]
pub enum ClientStatus {
    /// Nothing has gone wrong.
    Normal,
    /// The peer sent data that is not a valid model.
    InvalidModel,
}

impl ClientStatus {
    /// The name under which a status is shown.
    pub open spec fn spec_name(self) -> Seq<char> {
        match self {
            ClientStatus::Normal => "Normal"@,
            ClientStatus::InvalidModel => "InvalidModel"@,
        }
    }

    /// The status's name, as text.
    pub fn to_string(&self) -> (r: String)
        ensures
            r@ == self.spec_name(),
    {
        match self {
            ClientStatus::Normal => "Normal".to_owned(),
            ClientStatus::InvalidModel => "InvalidModel".to_owned(),
        }
    }
}

impl Default for ClientStatus {
    fn default() -> (r: Self)
        ensures
            r == ClientStatus::Normal,
    {
        ClientStatus::Normal
    }
}

} // verus!
