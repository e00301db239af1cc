use vstd::prelude::*;

verus! {

/// What the connection's handle last reported to the connection.
#[derive(Debug, Clone, PartialEq, Eq)]
pub enum HandleStatus {
    /// Nothing has gone wrong.
    Normal,
    /// The server closed its side of the connection.
    ServerClosedNormally,
    /// The task that pings the peer has stopped after an error.
    PingTaskTerminated,
    /// A ping with this payload was sent to the peer; its pong is due.
    SendPing(Vec<u8>),
}

impl HandleStatus {
    /// The name under which a status is shown (a ping's payload is not shown).
    pub open spec fn spec_name(self) -> Seq<char> {
        match self {
            HandleStatus::Normal => "Normal"@,
            HandleStatus::ServerClosedNormally => "ServerClosedNormally"@,
            HandleStatus::PingTaskTerminated => "PingTaskTerminated"@,
            HandleStatus::SendPing(_) => "SendPing"@,
        }
    }

    /// The status's name, as text.
    pub fn to_string(&self) -> (r: String)
        ensures
            r@ == self.spec_name(),
    {
        match self {
            HandleStatus::Normal => "Normal".to_owned(),
            HandleStatus::ServerClosedNormally => "ServerClosedNormally".to_owned(),
            HandleStatus::PingTaskTerminated => "PingTaskTerminated".to_owned(),
            HandleStatus::SendPing(_) => "SendPing".to_owned(),
        }
    }
}

impl Default for HandleStatus {
    fn default() -> (r: Self)
        ensures
            r == HandleStatus::Normal,
    {
        HandleStatus::Normal
    }
}

} // verus!
