//! The end-to-end encryption protocol: keys, sessions, messages and their framing.

pub mod client;
pub mod kdf;
pub mod message;
pub mod message_stream;
pub mod keys;
pub mod peer;
