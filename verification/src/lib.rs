//! Sickgnal: end-to-end encrypted chat protocol and a small TLS 1.3 client core.
//!
//! The `tls` module holds the record and handshake codecs, the key schedule and
//! the connection state machine; the `e2e` module holds the end-to-end protocol:
//! key storage, sessions, payload encryption and message framing.

pub mod bytes;
pub mod e2e;
pub mod primitives;
pub mod tls;
