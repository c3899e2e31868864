//! The key derivation function of the extended triple Diffie-Hellman key agreement

use vstd::prelude::*;

use crate::{
    bytes::{copy_32, extend_bytes},
    primitives::{hkdf_sha512_expand, hkdf_sha512_extract, hkdf_sha512_okm, hkdf_sha512_prk},
};

verus! {

/// The HKDF salt: 32 zero bytes
pub open spec fn kdf_salt() -> Seq<u8> {
    Seq::new(32, |i: int| 0u8)
}

/// The HKDF info: the protocol name `sickgnal`
pub open spec fn kdf_info() -> Seq<u8> {
    seq![0x73u8, 0x69, 0x63, 0x6b, 0x67, 0x6e, 0x61, 0x6c]
}

/// The input keying material of `key_material`: 32 `0xFF` bytes, then the key material
pub open spec fn kdf_ikm(key_material: Seq<u8>) -> Seq<u8> {
    Seq::new(32, |i: int| 0xFFu8) + key_material
}

/// The 32 bytes that the key derivation function derives from `key_material`
pub open spec fn spec_kdf(key_material: Seq<u8>) -> Seq<u8> {
    hkdf_sha512_okm(hkdf_sha512_prk(kdf_salt(), kdf_ikm(key_material)), kdf_info(), 32)
}

/// The key derivation function as defined in X3DH: HKDF with SHA-512 over 32 `0xFF` bytes
/// and the key material, with a zero salt and the protocol name as info
pub fn kdf(key_material: &[u8]) -> (r: [u8; 32])
    ensures
        r@ == spec_kdf(key_material@),
{
    let mut ikm: Vec<u8> = Vec::new();
    let ff = [0xFFu8; 32];
    extend_bytes(&mut ikm, ff.as_slice());
    extend_bytes(&mut ikm, key_material);
    assert(ikm@ =~= kdf_ikm(key_material@));
    let salt = [0u8; 32];
    assert(salt@ =~= kdf_salt());
    let prk = hkdf_sha512_extract(salt.as_slice(), ikm.as_slice());
    let info: [u8; 8] = [0x73, 0x69, 0x63, 0x6b, 0x67, 0x6e, 0x61, 0x6c];
    assert(info@ =~= kdf_info());
    let okm = hkdf_sha512_expand(prk.as_slice(), info.as_slice(), 32);
    copy_32(okm.as_slice())
}

} // verus!
