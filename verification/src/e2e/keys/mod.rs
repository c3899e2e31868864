//! Everything related to key management

pub mod memory_storage;
pub mod storage_backend;

use vstd::prelude::*;

use crate::{
    bytes::{copy_32, extend_bytes, lemma_array_of_unique},
    primitives::{
        ed25519_point_valid, ed25519_public, ed25519_public_key, ed25519_public_key_is_valid,
        ed25519_sign, ed25519_signature, rng_bytes_32, sha256, sha256_digest, uuid_v4_from_random,
        x25519_public, x25519_public_key,
    },
};

verus! {

/// A version 4 UUID made of the first 16 of 32 random bytes
pub(crate) fn id_of_random(bytes: [u8; 32]) -> (r: u128)
    ensures
        r == crate::primitives::uuid_v4_of(bytes@.take(16)),
{
    let b: [u8; 16] = [
        bytes[0], bytes[1], bytes[2], bytes[3], bytes[4], bytes[5], bytes[6], bytes[7], bytes[8],
        bytes[9], bytes[10], bytes[11], bytes[12], bytes[13], bytes[14], bytes[15],
    ];
    assert(b@ =~= bytes@.take(16));
    uuid_v4_from_random(b)
}

/// A fresh random id, a version 4 UUID drawn from `rng`
pub(crate) fn random_id(rng: &mut rand::rngs::StdRng) -> (r: u128) {
    id_of_random(rng_bytes_32(rng))
}

/// Represents a curve25519 secret scalar
pub type X25519Secret = [u8; 32];

/// Represents a 32-byte ChaCha20Poly1305 encryption key
pub type SymetricKey = [u8; 32];

/// Represent identity keys (x25519 and Ed25519 keys)
#[derive(Clone, Copy)]
pub struct IdentityKeyPair {
    /// The x25519 secret scalar
    pub x25519_secret: X25519Secret,
    /// The Ed25519 secret seed
    pub ed25519_secret: [u8; 32],
}

/// Represents the public identity keys of a user (x25519 and Ed25519 keys)
#[derive(Clone, Copy, Debug)]
pub struct PublicIdentityKeys {
    pub x25519: [u8; 32],
    pub ed25519: [u8; 32],
}

/// An ephemeral x25519 secret key with its id
#[derive(Clone, Copy)]
pub struct EphemeralSecretKey {
    pub id: u128,
    pub secret: X25519Secret,
}

/// Why bytes are not the public identity keys of a user
#[derive(Debug, Clone, Copy, PartialEq, Eq, Structural)]
pub enum KeyDecodeError {
    /// The keys are 64 bytes long; this many were given
    InvalidLength(usize),
    /// The Ed25519 half is not a valid public key
    InvalidEd25519Key,
}

impl IdentityKeyPair {
    /// The keypair whose x25519 and Ed25519 secrets are both `secret`
    pub fn from_secret(secret: [u8; 32]) -> (r: Self)
        ensures
            r.x25519_secret == secret,
            r.ed25519_secret == secret,
    {
        IdentityKeyPair { x25519_secret: secret, ed25519_secret: secret }
    }

    /// Generate a new random keypair: 32 random bytes serve as both secrets
    pub fn new_from_rng(rng: &mut rand::rngs::StdRng) -> (r: Self)
        ensures
            r.x25519_secret == r.ed25519_secret,
    {
        let secret = rng_bytes_32(rng);
        Self::from_secret(secret)
    }

    /// The public keys of this keypair
    pub open spec fn spec_public_keys(self) -> PublicIdentityKeys {
        PublicIdentityKeys {
            x25519: crate::bytes::array_of(x25519_public(self.x25519_secret@)),
            ed25519: crate::bytes::array_of(ed25519_public(self.ed25519_secret@)),
        }
    }

    /// Get the public keys of this keypair
    pub fn public_keys(&self) -> (r: PublicIdentityKeys)
        ensures
            r.x25519@ == x25519_public(self.x25519_secret@),
            r.ed25519@ == ed25519_public(self.ed25519_secret@),
            r == self.spec_public_keys(),
    {
        let x25519 = x25519_public_key(&self.x25519_secret);
        let ed25519 = ed25519_public_key(&self.ed25519_secret);
        proof {
            crate::bytes::lemma_array_of_unique(x25519, x25519_public(self.x25519_secret@));
            crate::bytes::lemma_array_of_unique(ed25519, ed25519_public(self.ed25519_secret@));
        }
        PublicIdentityKeys { x25519, ed25519 }
    }

    /// Sign `msg` with the Ed25519 identity key
    pub fn sign(&self, msg: &[u8]) -> (r: [u8; 64])
        ensures
            r@ == ed25519_signature(self.ed25519_secret@, msg@),
    {
        ed25519_sign(&self.ed25519_secret, msg)
    }
}

impl PublicIdentityKeys {
    /// The 64 bytes of the keys: the x25519 key then the Ed25519 key
    pub open spec fn spec_bytes(self) -> Seq<u8> {
        self.x25519@ + self.ed25519@
    }

    /// Compute the fingerprint of the public keys: the SHA-256 of their bytes
    pub fn fingerprint(&self) -> (r: [u8; 32])
        ensures
            r@ == sha256(self.spec_bytes()),
    {
        let bytes = self.to_bytes();
        let digest = sha256_digest(bytes.as_slice());
        copy_32(digest.as_slice())
    }

    /// The 64 bytes of the keys
    pub fn to_bytes(&self) -> (r: Vec<u8>)
        ensures
            r@ == self.spec_bytes(),
    {
        let mut r = Vec::new();
        extend_bytes(&mut r, self.x25519.as_slice());
        extend_bytes(&mut r, self.ed25519.as_slice());
        assert(r@ =~= self.spec_bytes());
        r
    }

    /// The keys whose 64 bytes are `bytes`, when they are valid keys
    pub fn from_bytes(bytes: &[u8]) -> (r: Result<Self, KeyDecodeError>)
        ensures
            bytes@.len() != 64 ==> r == Err::<Self, KeyDecodeError>(
                KeyDecodeError::InvalidLength(bytes@.len() as usize),
            ),
            bytes@.len() == 64 && !ed25519_point_valid(bytes@.subrange(32, 64)) ==> r == Err::<
                Self,
                KeyDecodeError,
            >(KeyDecodeError::InvalidEd25519Key),
            bytes@.len() == 64 && ed25519_point_valid(bytes@.subrange(32, 64)) ==> (r matches Ok(
                k,
            ) && k.spec_bytes() == bytes@),
    {
        if bytes.len() != 64 {
            return Err(KeyDecodeError::InvalidLength(bytes.len()));
        }
        let (x, e) = bytes.split_at(32);
        let x25519 = copy_32(x);
        let ed25519 = copy_32(e);
        if !ed25519_public_key_is_valid(&ed25519) {
            return Err(KeyDecodeError::InvalidEd25519Key);
        }
        let r = PublicIdentityKeys { x25519, ed25519 };
        assert(r.spec_bytes() =~= bytes@);
        Ok(r)
    }
}

/// The bytes of public identity keys determine the keys: reading back the bytes of valid
/// keys with [`PublicIdentityKeys::from_bytes`] gives the same keys
pub proof fn law_public_keys_bytes_roundtrip(k: PublicIdentityKeys, other: PublicIdentityKeys)
    requires
        other.spec_bytes() == k.spec_bytes(),
    ensures
        other == k,
{
    assert(k.spec_bytes().subrange(32, 64) =~= k.ed25519@);
    assert(k.spec_bytes().subrange(0, 32) =~= k.x25519@);
    assert(other.spec_bytes().subrange(32, 64) =~= other.ed25519@);
    assert(other.spec_bytes().subrange(0, 32) =~= other.x25519@);
    lemma_array_of_unique(k.x25519, other.x25519@);
    lemma_array_of_unique(other.x25519, other.x25519@);
    lemma_array_of_unique(k.ed25519, other.ed25519@);
    lemma_array_of_unique(other.ed25519, other.ed25519@);
}

impl EphemeralSecretKey {
    /// Generate a new random ephemeral secret key with a fresh random id
    pub fn new_from_rng(rng: &mut rand::rngs::StdRng) -> (r: Self) {
        let id = random_id(rng);
        Self { id, secret: rng_bytes_32(rng) }
    }

    /// Consume the key and return its (id, secret) parts
    pub fn into_parts(self) -> (r: (u128, X25519Secret))
        ensures
            r == (self.id, self.secret),
    {
        (self.id, self.secret)
    }
}

} // verus!
