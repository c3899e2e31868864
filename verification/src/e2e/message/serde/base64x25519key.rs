//! Serialize and deserialize x25519 public keys as base64 strings

use vstd::prelude::*;

use crate::e2e::message::serde::{base64json, FieldError};
use crate::primitives::base64_decoded;

verus! {

/// The base64 text of the bytes
pub fn serialize(v: &[u8; 32]) -> (r: String)
    ensures
        base64_decoded(r@) == Some(v@),
{
    base64json::serialize(v.as_slice())
}

/// The 32 bytes of a base64 text
pub fn deserialize(text: &str) -> (r: Result<[u8; 32], FieldError>)
    ensures
        match base64_decoded(text@) {
            Some(b) => if b.len() == 32 {
                r matches Ok(a) && a@ == b
            } else {
                r == Err::<[u8; 32], FieldError>(FieldError::InvalidLength(b.len() as usize))
            },
            None => r == Err::<[u8; 32], FieldError>(FieldError::InvalidBase64),
        },
{
    let bytes = base64json::deserialize(text)?;
    if bytes.len() != 32 {
        return Err(FieldError::InvalidLength(bytes.len()));
    }
    let mut a = [0u8; 32];
    let mut i: usize = 0;
    while i < 32
        invariant
            i <= 32,
            bytes@.len() == 32,
            a@.len() == 32,
            forall|j: int| 0 <= j < i ==> a@[j] == bytes@[j],
        decreases 32 - i,
    {
        a[i] = bytes[i];
        i = i + 1;
    }
    assert(a@ =~= bytes@);
    Ok(a)
}

} // verus!
