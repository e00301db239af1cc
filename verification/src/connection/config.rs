use vstd::prelude::*;

verus! {

/// Timing of the keep-alive exchange between the server and each peer.
///
/// Both intervals are counted in nanoseconds; a `u128` holds every
/// duration that `std::time::Duration` can, exactly.
#[derive(Debug, Clone, Copy, PartialEq, Eq, Structural)]
pub struct ConnectionConfig {
    /// An interval used for delaying ping message send from the server to its clients.
    pub ping_interval: u128,

    /// An interval during which the client must respond to a ping message.
    ///
    /// If a client fails to deliver a pong message with the matching payload, the server will assume the connection to
    /// be ill-formed and will disconnect the peer.
    pub pong_timeout: u128,
}

/// Nanoseconds between two pings when nothing else is configured (20 s).
pub const DEFAULT_PING_INTERVAL_NS: u128 = 20_000_000_000;

/// Nanoseconds a peer has to answer a ping when nothing else is configured (4 s).
pub const DEFAULT_PONG_TIMEOUT_NS: u128 = 4_000_000_000;

impl Default for ConnectionConfig {
    fn default() -> (r: Self)
        ensures
            r.ping_interval == DEFAULT_PING_INTERVAL_NS,
            r.pong_timeout == DEFAULT_PONG_TIMEOUT_NS,
    {
        ConnectionConfig {
            ping_interval: DEFAULT_PING_INTERVAL_NS,
            pong_timeout: DEFAULT_PONG_TIMEOUT_NS,
        }
    }
}

} // verus!
