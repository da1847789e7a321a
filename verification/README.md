# discord-ipc-bridge

A bridge between Discord's local RPC socket and local IPC clients: it logs in
to Discord, follows the user's voice settings and voice channel, passes the
events on to clients of its own Unix socket, and turns their `ToggleMute` /
`ToggleDeafen` commands into Discord commands.

Layout:

- `src/` — the verified library (Verus).
  - `lib.rs` — the shared `State`.
  - `discord/frames.rs` — the frame codec (opcode, little-endian length, UTF-8 JSON payload).
  - `discord/events.rs`, `payload.rs`, `response.rs` — the message model.
  - `discord/session.rs` — OAuth sessions: token request forms, expiry, the cache decision.
  - `discord/connect.rs` — the connection as a step machine (handshake, cache or authorization, authentication).
  - `discord/client.rs` — the main loop's decisions: startup messages, what each message and command leads to, channel changes.
  - `ipc/` — the IPC commands and the server's decisions.
- `app/` — the program: sockets, HTTP, files, serde conversions, and the loops that carry out the library's decisions.
- `tests/` — tests of the library.
