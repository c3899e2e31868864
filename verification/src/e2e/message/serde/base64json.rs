//! Serialize and deserialize bytes as a base64 string

use vstd::prelude::*;

use crate::e2e::message::serde::FieldError;
use crate::primitives::{base64_decode, base64_decoded, base64_encode, base64_text};

verus! {

/// The base64 text of bytes
pub fn serialize(v: &[u8]) -> (r: String)
    ensures
        r@ == base64_text(v@),
        base64_decoded(r@) == Some(v@),
{
    base64_encode(v)
}

/// The bytes of a base64 text
pub fn deserialize(text: &str) -> (r: Result<Vec<u8>, FieldError>)
    ensures
        match base64_decoded(text@) {
            Some(b) => r matches Ok(v) && v@ == b,
            None => r == Err::<Vec<u8>, FieldError>(FieldError::InvalidBase64),
        },
{
    match base64_decode(text) {
        Some(v) => Ok(v),
        None => Err(FieldError::InvalidBase64),
    }
}

} // verus!
