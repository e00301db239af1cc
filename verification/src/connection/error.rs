use vstd::prelude::*;

use super::message::PeerMessage;

verus! {

/// Why a connection stopped with an error.
///
/// `W` is the transport's own error type, carried through unchanged.
#[derive(Debug, PartialEq, Eq)]
pub enum ConnectionError<W> {
    /// The transport reported an error other than the peer closing the
    /// connection.
    WebSocket(W),
    /// The peer sent a message of a type that this server does not accept.
    IllegalMessageType(PeerMessage),
}

} // verus!
