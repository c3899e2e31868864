//! Manages the TLS state machine to send and receive data
//!
//! The connection is used to manage the TLS state machine, and the sender and receiver
//! used to encrypt and decrypt messages: the sender fragments, encrypts and frames what the
//! state machine and the application send; the receiver deframes, decrypts and defragments
//! what comes from the network, and hands handshake messages to the state machine.

pub mod traffic_keys;
pub mod encryption_state;
pub mod decryption_state;
pub mod sender;
pub mod state;
pub mod receiver;
pub mod connection;
