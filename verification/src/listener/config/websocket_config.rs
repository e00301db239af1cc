use vstd::prelude::*;

verus! {

/// One mebibyte.
pub const MEGA: usize = 1024 * 1024;

/// Limits on what a peer may send over its WebSocket.
#[derive(Debug, Clone, Copy, PartialEq, Eq, Structural)]
pub struct WebSocketConfig {
    /// The largest message, in bytes, that a peer may send.
    pub max_message_size: usize,
    /// The largest frame, in bytes, that a peer may send.
    pub max_frame_size: usize,
}

impl Default for WebSocketConfig {
    fn default() -> (r: Self)
        ensures
            r.max_message_size == 16 * MEGA,
            r.max_frame_size == 4 * MEGA,
    {
        WebSocketConfig { max_message_size: 16 * MEGA, max_frame_size: 4 * MEGA }
    }
}

} // verus!
