//! Clipboard replication between two peers over one TCP stream: the frame
//! codec, the shared-secret handshake, the clipboard adapter's change
//! detection, and the decisions of a session's send and receive loops.

pub mod adapter;
pub mod codec;
pub mod error;
pub mod handshake;
pub mod object;
pub mod session;
pub mod utf8;
