# yuha

The core of yuha, a remote development tool that talks to a remote server over SSH, a local
process, TCP or WSL to forward ports, share the clipboard and open browsers. The library in
`src/` is written in Verus: each public function carries a contract, and the contracts are
proved.

## Layout

- `src/keyed.rs`, `src/text.rs`: a small verified map and the text helpers the rest uses.
- `src/error*`, `src/simple_error.rs`: error types with their messages, classification, context,
  retry decisions and a circuit breaker.
- `src/transport*`: transport kinds, configurations, builders, validation and the factory.
- `src/config.rs`, `src/logging.rs`, `src/metrics.rs`: settings, logging configuration and
  counters of operations, transports and features.
- `src/session*`: sessions, their registry with name and connection indexes, the reuse pool,
  lifecycle rules, the session manager and session metrics; `src/multi_session.rs` is the
  simpler manager that groups sessions by connection.
- `src/protocol*`, `src/message_channel.rs`: the client-server protocol, response buffers and
  the length-prefixed framing.
- `src/remote.rs`, `src/ipc.rs`, `src/port_forward.rs`, `src/clipboard.rs`, `src/browser.rs`:
  the decisions of the remote server, its IPC commands and port forwarding.
- `app/`: the remote server binary and everything that does I/O or works with floats: sockets,
  standard I/O, files, the tracing subscriber, float metrics and backoff delays.
- `tests/`: tests of the library.

Times are milliseconds since the Unix epoch throughout the library.
