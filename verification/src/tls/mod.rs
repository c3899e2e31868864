//! Core of the TLS 1.3 client: codecs, messages, key schedule and state machine.

pub mod error;
pub mod reader;
pub mod codec;
pub mod enums;
pub mod crypto;
pub mod msgs;
pub mod record_layer;
pub mod connection;
pub mod hex;
