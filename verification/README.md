# chat_application

An end-to-end encrypted chat service: a server that keeps users, groups,
messages and files in SQLite, and a graphical or console client.

`src/` is the verified library (Verus):

- `crypto` — AES-256-GCM encryption of bodies with ring, framed as nonce then
  ciphertext and tag; decryption inverts encryption.
- `codec` — bodies and files as base64 text of such frames.
- `server` — one connection's protocol as a state machine: requests, the
  storage work they need, the replies and deliveries they cause.
- `client` — the client's screens as a state machine over user, server and
  work events.
- `models`, `protocol`, `rows`, `ids` — records, wire messages, database rows
  and UUID identifiers.
- `views`, `console`, `paths`, `clock`, `text` — smaller pieces of client logic.

`app/` is the program around it: the Tokio server and its SQLite store, the
iced client and the console client. Run the server with no argument, the
graphical client with `client`, the console client with `console [address]`.
