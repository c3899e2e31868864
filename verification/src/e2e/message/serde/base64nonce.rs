//! Serialize and deserialize 24 byte nonces as base64 strings

use vstd::prelude::*;

use crate::e2e::message::Nonce;
use crate::e2e::message::serde::{base64json, FieldError};
use crate::primitives::base64_decoded;

verus! {

/// The base64 text of the bytes
pub fn serialize(v: &Nonce) -> (r: String)
    ensures
        base64_decoded(r@) == Some(v@),
{
    base64json::serialize(v.as_slice())
}

/// The 24 bytes of a base64 text
pub fn deserialize(text: &str) -> (r: Result<Nonce, FieldError>)
    ensures
        match base64_decoded(text@) {
            Some(b) => if b.len() == 24 {
                r matches Ok(a) && a@ == b
            } else {
                r == Err::<Nonce, FieldError>(FieldError::InvalidLength(b.len() as usize))
            },
            None => r == Err::<Nonce, FieldError>(FieldError::InvalidBase64),
        },
{
    let bytes = base64json::deserialize(text)?;
    if bytes.len() != 24 {
        return Err(FieldError::InvalidLength(bytes.len()));
    }
    let mut a = [0u8; 24];
    let mut i: usize = 0;
    while i < 24
        invariant
            i <= 24,
            bytes@.len() == 24,
            a@.len() == 24,
            forall|j: int| 0 <= j < i ==> a@[j] == bytes@[j],
        decreases 24 - i,
    {
        a[i] = bytes[i];
        i = i + 1;
    }
    assert(a@ =~= bytes@);
    Ok(a)
}

} // verus!
