//! Verified core of a small end-to-end encrypted chat service: the data
//! model, the AES-256-GCM framing of message bodies, the server's per
//! connection protocol and the client's screen logic.

pub mod client;
pub mod clock;
pub mod codec;
pub mod console;
pub mod crypto;
pub mod ids;
pub mod models;
pub mod paths;
pub mod protocol;
pub mod rows;
pub mod server;
pub mod text;
pub mod views;
