//! Serialize and deserialize Ed25519 signatures as base64 strings

use vstd::prelude::*;

use crate::e2e::message::serde::{base64json, FieldError};
use crate::primitives::base64_decoded;

verus! {

/// The base64 text of the bytes
pub fn serialize(v: &[u8; 64]) -> (r: String)
    ensures
        base64_decoded(r@) == Some(v@),
{
    base64json::serialize(v.as_slice())
}

/// The 64 bytes of a base64 text
pub fn deserialize(text: &str) -> (r: Result<[u8; 64], FieldError>)
    ensures
        match base64_decoded(text@) {
            Some(b) => if b.len() == 64 {
                r matches Ok(a) && a@ == b
            } else {
                r == Err::<[u8; 64], FieldError>(FieldError::InvalidLength(b.len() as usize))
            },
            None => r == Err::<[u8; 64], FieldError>(FieldError::InvalidBase64),
        },
{
    let bytes = base64json::deserialize(text)?;
    if bytes.len() != 64 {
        return Err(FieldError::InvalidLength(bytes.len()));
    }
    let mut a = [0u8; 64];
    let mut i: usize = 0;
    while i < 64
        invariant
            i <= 64,
            bytes@.len() == 64,
            a@.len() == 64,
            forall|j: int| 0 <= j < i ==> a@[j] == bytes@[j],
        decreases 64 - i,
    {
        a[i] = bytes[i];
        i = i + 1;
    }
    assert(a@ =~= bytes@);
    Ok(a)
}

} // verus!
