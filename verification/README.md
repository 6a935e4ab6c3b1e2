# rustls

The client's side of a TLS1.3 session as a verified library: the handshake from the
ServerHello to the running session, the key schedule, the messages on the wire, and what is
kept of a session to resume it by.

- `src/client/tls13/` holds the handshake: its steps (`mod.rs`), its states (`states.rs`), its
  end (`finish.rs`), the running session (`traffic.rs`), and what holds of all of it
  (`laws.rs`).
- `src/client/`, `src/server/` and `src/session.rs` hold what a session remembers and sends.
- `src/codec.rs`, `enums.rs`, `extensions.rs`, `handshake.rs`, `message.rs` and `hsjoiner.rs`
  are the wire format.
- `src/key_schedule.rs`, `hash_hs.rs`, `kx.rs`, `sign.rs` and `verify.rs` are the
  cryptography; `src/crypto.rs` is the only module that calls *ring*.
- `src/persist.rs` is what is stored of a session.
- `app/` is a fuzz target.
