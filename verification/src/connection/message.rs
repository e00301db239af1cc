use vstd::prelude::*;

verus! {

/// The frame that may come with a peer's close message.
#[derive(Debug, Clone, PartialEq, Eq)]
pub struct CloseFrame {
    /// The close code.
    pub code: u16,
    /// The reason the peer gave.
    pub reason: String,
}

/// A message that the peer sent over its WebSocket.
#[derive(Debug, Clone, PartialEq, Eq)]
pub enum PeerMessage {
    /// A text message; this server does not accept text.
    Text(String),
    /// A binary message: the data that the connection delivers.
    Binary(Vec<u8>),
    /// A ping from the peer.
    Ping(Vec<u8>),
    /// A pong from the peer, answering one of the server's pings.
    Pong(Vec<u8>),
    /// The peer's close message.
    Close(Option<CloseFrame>),
    /// A raw frame; the transport never hands one out when reading, and this
    /// server does not accept it.
    Frame,
}

/// A failure that the transport reported instead of a message.
///
/// `W` is the transport's own error type for every other failure.
#[derive(Debug, PartialEq, Eq)]
pub enum PeerError<W> {
    /// The connection was closed.
    ConnectionClosed,
    /// The peer reset the connection without the closing handshake.
    ResetWithoutClosingHandshake,
    /// Any other failure.
    Other(W),
}

} // verus!
