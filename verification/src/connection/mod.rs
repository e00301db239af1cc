pub mod config;
pub mod connection_handle;
pub mod error;
pub mod message;
pub mod ping_context;
pub mod shared_state;
pub mod state;

pub use self::config::ConnectionConfig;
pub use self::error::ConnectionError;
pub use self::message::{CloseFrame, PeerError, PeerMessage};
pub use self::ping_context::PingContext;
pub use self::state::{ConnectionEvent, ConnectionReaction, ConnectionState};
