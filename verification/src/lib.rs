//! Core of a WebSocket reception server: the configuration, the status
//! protocol shared between a connection and its handle, and the decisions that
//! the connection, the client and the listener take on every event.
//!
//! The asynchronous plumbing (sockets, tasks, timers) drives these decisions
//! from the outside: it hands each event to the functions here and performs the
//! action they return.

pub mod client;
pub mod connection;
pub mod listener;
pub mod protocol;
pub mod step;
pub mod watch;

pub use listener::config::ListenerConfig;
pub use listener::config::WebSocketConfig;
