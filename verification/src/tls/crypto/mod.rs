//! The TLS 1.3 key schedule (RFC 8446, section 7.1)

use vstd::prelude::*;
use vstd::string::StringSliceAdditionalSpecFns;

use crate::{
    bytes::extend_bytes,
    primitives::{hkdf_sha256_expand, hkdf_sha256_okm, sha256, sha256_digest},
    tls::codec::{be2, push_u16},
};

pub mod keyshare;

verus! {

/// The bytes of `"tls13 "`, prefixed to every label
pub open spec fn tls13_prefix() -> Seq<u8> {
    seq![0x74u8, 0x6c, 0x73, 0x31, 0x33, 0x20]
}

/// The `HkdfLabel` structure: the length, the prefixed label and the context, each
/// variable-length field preceded by its one-byte length (truncated to a byte).
pub open spec fn hkdf_label(label: Seq<u8>, context: Seq<u8>, length: u16) -> Seq<u8> {
    be2(length) + seq![(label.len() + 6) as u8] + tls13_prefix() + label + seq![
        (context.len() % 256) as u8,
    ] + context
}

/// HKDF-Expand-Label over the pseudorandom key `prk`
pub open spec fn expand_label(prk: Seq<u8>, label: Seq<u8>, context: Seq<u8>, length: u16) -> Seq<
    u8,
> {
    hkdf_sha256_okm(prk, hkdf_label(label, context, length), length as nat)
}

/// The Derive-Secret function: HKDF-Expand-Label with a hash-length output, where a missing
/// transcript hash stands for the hash of the empty string.
pub open spec fn derive_secret_spec(prk: Seq<u8>, label: Seq<u8>, transcript_hash: Option<Seq<u8>>) -> Seq<
    u8,
> {
    let context = match transcript_hash {
        Some(h) => h,
        None => sha256(seq![]),
    };
    expand_label(prk, label, context, 32)
}

/// The HKDF-Expand-Label function as defined in [RFC8446#section7.1](https://datatracker.ietf.org/doc/html/rfc8446#section-7.1)
///
/// Takes the pseudorandom key of the HKDF in place of the `Secret` argument of the RFC.
/// `length` must be a valid length for HKDF-Expand (at most `255 * hash_length`).
pub fn hkdf_expand_label(prk: &[u8], label: &str, context: &[u8], length: u16) -> (r: Vec<u8>)
    requires
        prk@.len() >= 32,
        length <= 255 * 32,
        label.spec_bytes().len() <= 249,
    ensures
        r@ == expand_label(prk@, label.spec_bytes(), context@, length),
        r@.len() == length,
{
    let mut info: Vec<u8> = Vec::new();
    push_u16(&mut info, length);
    let label_bytes = label.as_bytes();
    // label length
    info.push((label_bytes.len() + 6) as u8);
    // label
    info.push(0x74);
    info.push(0x6c);
    info.push(0x73);
    info.push(0x31);
    info.push(0x33);
    info.push(0x20);
    extend_bytes(&mut info, label_bytes);
    // context length
    info.push((context.len() % 256) as u8);
    // context
    extend_bytes(&mut info, context);
    assert(info@ =~= hkdf_label(label.spec_bytes(), context@, length));
    hkdf_sha256_expand(prk, info.as_slice(), length as usize)
}

/// The Derive-Secret function as defined in [RFC8446]
///
/// Equivalent to calling [`hkdf_expand_label`] with the length of the hash as the `length`
/// parameter. An empty transcript hash (denoted as an empty string in the RFC) is passed as
/// `None`.
///
/// [RFC8446]: https://datatracker.ietf.org/doc/html/rfc8446#section-7.1
pub fn derive_secret(prk: &[u8], label: &str, transcript_hash: Option<&[u8]>) -> (r: Vec<u8>)
    requires
        prk@.len() >= 32,
        label.spec_bytes().len() <= 249,
    ensures
        r@ == derive_secret_spec(
            prk@,
            label.spec_bytes(),
            match transcript_hash {
                Some(h) => Some(h@),
                None => None,
            },
        ),
        r@.len() == 32,
{
    match transcript_hash {
        Some(h) => hkdf_expand_label(prk, label, h, 32),
        None => {
            let empty: Vec<u8> = Vec::new();
            let h = sha256_digest(empty.as_slice());
            assert(empty@ =~= seq![]);
            hkdf_expand_label(prk, label, h.as_slice(), 32)
        },
    }
}

} // verus!
