//! The text form of the binary fields of messages: standard base64 with padding
//!
//! A field that is a nonce, a key or a signature must also decode to the right number of
//! bytes.

pub mod base64json;
pub mod base64nonce;
pub mod base64signature;
pub mod base64x25519key;

use vstd::prelude::*;

verus! {

/// Why a base64 field could not be read
#[derive(Debug, Clone, Copy, PartialEq, Eq, Structural)]
pub enum FieldError {
    /// The text is not valid base64
    InvalidBase64,
    /// The bytes are not as many as the field holds; this many were decoded
    InvalidLength(usize),
}

} // verus!
