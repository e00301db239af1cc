# reception

A WebSocket reception server: a TCP listener accepts WebSocket connections,
keeps each peer alive with pings, and wraps each peer in a client that turns
binary messages into models and back.

The crate is split in two:

- `src/` is the verified library. It holds the configuration, the status
  protocol between a connection and its handle (over `tokio` watch channels),
  and every decision the server takes: what a message from the peer means,
  when a missing pong ends a connection, when the peer's sink is closed (at
  most once), when a client's handle stops accepting models, what a listener
  does with each event. Each is a function from state and event to next state
  and action, with its contract, and the laws that tie them together are
  proved as `proof fn`s.
- `app/` is the asynchronous shell: sockets, spawned tasks, timers, the
  `cancellable` service loop, and the `serde`/`thiserror` copies of the
  library's types. It hands each event to the library and performs the
  action that comes back.

Times in the library are nanoseconds on a connection's own clock.
