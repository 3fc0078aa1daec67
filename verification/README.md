# ethos_client

A client for an ethos server, with its behaviour proved.

A client never waits: it hands commands (connect, send, close, end) to a
communication thread over channels, and learns what became of them from the
updates that the thread sends back, together with the messages of the server.

- `src/client.rs`: `EthosClient`, the client's side. Its status follows the
  updates it receives (`message::status_after_update`).
- `src/thread.rs`: `ClientThread`, the decisions of the communication thread as
  functions from its state and an event (a command of the client, the outcome
  of a connection attempt, of a read or of a write) to its next state and to
  what the caller is to do next. The network input/output stays with the
  caller.
- `src/protocol.rs`: laws that relate the two sides.
- `src/error.rs`, `src/message.rs`, `src/status.rs`: the shared types.
- `src/channel.rs`: the standard channels, as trusted declarations.
- `app/`: the thread run over TCP with the wire messages of `ethos_core`.

The client is generic in the wire messages (`C` for the server, `S` from the
server) and in the codec's error type `E`.
