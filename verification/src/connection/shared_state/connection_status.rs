use vstd::prelude::*;

verus! {

/// What the connection last reported to its handle about the peer.
#[derive(Debug, Clone, Copy, PartialEq, Eq, Structural)]
pub enum ConnectionStatus {
    /// Nothing has gone wrong.
    Normal,
    /// The peer closed the connection with a close frame, or its stream ended.
    ClientClosedNormally,
    /// The peer sent a message of a type that this server does not accept.
    ClientSentIllegalData,
    /// The peer reset the connection without the closing handshake.
    ClientClosedWithoutHandshake,
    /// The peer failed to answer a ping in time, or answered it wrongly.
    ConnectionTerminated,
    /// The transport reported an error of any other kind.
    Unknown,
}

impl ConnectionStatus {
    /// The name under which a status is shown.
    pub open spec fn spec_name(self) -> Seq<char> {
        match self {
            ConnectionStatus::Normal => "Normal"@,
            ConnectionStatus::ClientClosedNormally => "ClientClosedNormally"@,
            ConnectionStatus::ClientSentIllegalData => "ClientSentIllegalData"@,
            ConnectionStatus::ClientClosedWithoutHandshake => "ClientClosedWithoutHandshake"@,
            ConnectionStatus::ConnectionTerminated => "ConnectionTerminated"@,
            ConnectionStatus::Unknown => "Unknown"@,
        }
    }

    /// The status's name, as text.
    pub fn to_string(&self) -> (r: String)
        ensures
            r@ == self.spec_name(),
    {
        match self {
            ConnectionStatus::Normal => "Normal".to_owned(),
            ConnectionStatus::ClientClosedNormally => "ClientClosedNormally".to_owned(),
            ConnectionStatus::ClientSentIllegalData => "ClientSentIllegalData".to_owned(),
            ConnectionStatus::ClientClosedWithoutHandshake => "ClientClosedWithoutHandshake".to_owned(),
            ConnectionStatus::ConnectionTerminated => "ConnectionTerminated".to_owned(),
            ConnectionStatus::Unknown => "Unknown".to_owned(),
        }
    }
}

impl Default for ConnectionStatus {
    fn default() -> (r: Self)
        ensures
            r == ConnectionStatus::Normal,
    {
        ConnectionStatus::Normal
    }
}

} // verus!
