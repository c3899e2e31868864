//! The cryptographic primitives this library uses, each provided by an outside crate.
//!
//! Every function here hands its arguments to one outside function and its result back;
//! nothing here is proved. The names below stand for what those functions compute, and
//! the contracts say only what the crates' documentation states of them.

use vstd::prelude::*;

use aes_gcm::aead::{Aead, KeyInit, Payload};
use base64::Engine;
use chacha20poly1305::AeadCore;
use ed25519_dalek::Signer;
use hkdf::Hkdf;
use hmac::Mac;
use rand::{RngCore, Rng};
use sha2::Digest;

verus! {

// region:    Hash functions

/// SHA-256 of a byte string
pub uninterp spec fn sha256(data: Seq<u8>) -> Seq<u8>;

/// SHA-512 of a byte string
pub uninterp spec fn sha512(data: Seq<u8>) -> Seq<u8>;

/// `sha2::Sha256::digest`: the SHA-256 digest of `data`, 32 bytes long.
#[verifier::external_body]
pub(crate) fn sha256_digest(data: &[u8]) -> (r: Vec<u8>)
    ensures
        r@ == sha256(data@),
        r@.len() == 32,
{
    sha2::Sha256::digest(data).to_vec()
}

/// `sha2::Sha512::digest`: the SHA-512 digest of `data`, 64 bytes long.
#[verifier::external_body]
pub(crate) fn sha512_digest(data: &[u8]) -> (r: Vec<u8>)
    ensures
        r@ == sha512(data@),
        r@.len() == 64,
{
    sha2::Sha512::digest(data).to_vec()
}

// endregion: Hash functions

// region:    HKDF and HMAC

/// HKDF-Extract with SHA-256 (RFC 5869)
pub uninterp spec fn hkdf_sha256_prk(salt: Seq<u8>, ikm: Seq<u8>) -> Seq<u8>;

/// HKDF-Expand with SHA-256 (RFC 5869)
pub uninterp spec fn hkdf_sha256_okm(prk: Seq<u8>, info: Seq<u8>, len: nat) -> Seq<u8>;

/// HKDF-Extract with SHA-512 (RFC 5869)
pub uninterp spec fn hkdf_sha512_prk(salt: Seq<u8>, ikm: Seq<u8>) -> Seq<u8>;

/// HKDF-Expand with SHA-512 (RFC 5869)
pub uninterp spec fn hkdf_sha512_okm(prk: Seq<u8>, info: Seq<u8>, len: nat) -> Seq<u8>;

/// HMAC-SHA-256 of `data` under `key`
pub uninterp spec fn hmac_sha256(key: Seq<u8>, data: Seq<u8>) -> Seq<u8>;

/// `hkdf::Hkdf::<Sha256>::extract`: the pseudorandom key, as long as a SHA-256 output.
#[verifier::external_body]
pub(crate) fn hkdf_sha256_extract(salt: &[u8], ikm: &[u8]) -> (r: Vec<u8>)
    ensures
        r@ == hkdf_sha256_prk(salt@, ikm@),
        r@.len() == 32,
{
    Hkdf::<sha2::Sha256>::extract(Some(salt), ikm).0.to_vec()
}

/// `hkdf::Hkdf::<Sha256>::from_prk` then `expand`: `len` bytes of output keying material.
/// `from_prk` fails on a key shorter than the hash and `expand` on more than 255 hash
/// lengths of output, which `requires` rules out.
#[verifier::external_body]
pub(crate) fn hkdf_sha256_expand(prk: &[u8], info: &[u8], len: usize) -> (r: Vec<u8>)
    requires
        prk@.len() >= 32,
        len <= 255 * 32,
    ensures
        r@ == hkdf_sha256_okm(prk@, info@, len as nat),
        r@.len() == len,
{
    let mut okm = vec![0u8; len];
    Hkdf::<sha2::Sha256>::from_prk(prk).unwrap().expand(info, &mut okm).unwrap();
    okm
}

/// `hkdf::Hkdf::<Sha512>::extract`: the pseudorandom key, as long as a SHA-512 output.
#[verifier::external_body]
pub(crate) fn hkdf_sha512_extract(salt: &[u8], ikm: &[u8]) -> (r: Vec<u8>)
    ensures
        r@ == hkdf_sha512_prk(salt@, ikm@),
        r@.len() == 64,
{
    Hkdf::<sha2::Sha512>::extract(Some(salt), ikm).0.to_vec()
}

/// `hkdf::Hkdf::<Sha512>::from_prk` then `expand`: `len` bytes of output keying material,
/// under the same limits as the SHA-256 variant.
#[verifier::external_body]
pub(crate) fn hkdf_sha512_expand(prk: &[u8], info: &[u8], len: usize) -> (r: Vec<u8>)
    requires
        prk@.len() >= 64,
        len <= 255 * 64,
    ensures
        r@ == hkdf_sha512_okm(prk@, info@, len as nat),
        r@.len() == len,
{
    let mut okm = vec![0u8; len];
    Hkdf::<sha2::Sha512>::from_prk(prk).unwrap().expand(info, &mut okm).unwrap();
    okm
}

/// `hmac::Hmac::<Sha256>::new_from_slice`, `update` and `finalize`: the 32-byte tag.
/// HMAC accepts keys of any length.
#[verifier::external_body]
pub(crate) fn hmac_sha256_tag(key: &[u8], data: &[u8]) -> (r: Vec<u8>)
    ensures
        r@ == hmac_sha256(key@, data@),
        r@.len() == 32,
{
    let mut mac = <hmac::Hmac<sha2::Sha256> as Mac>::new_from_slice(key).unwrap();
    mac.update(data);
    mac.finalize().into_bytes().to_vec()
}

/// `hmac::Mac::verify_slice`: whether `tag` is the HMAC-SHA-256 of `data` under `key`,
/// compared in constant time.
#[verifier::external_body]
pub(crate) fn hmac_sha256_verify(key: &[u8], data: &[u8], tag: &[u8]) -> (r: bool)
    ensures
        r == (tag@ == hmac_sha256(key@, data@)),
{
    let mut mac = <hmac::Hmac<sha2::Sha256> as Mac>::new_from_slice(key).unwrap();
    mac.update(data);
    mac.verify_slice(tag).is_ok()
}

// endregion: HKDF and HMAC

// region:    Elliptic curves

/// The X25519 public key of a secret scalar
pub uninterp spec fn x25519_public(secret: Seq<u8>) -> Seq<u8>;

/// The X25519 shared secret of a secret scalar and a public key
pub uninterp spec fn x25519_shared(secret: Seq<u8>, public: Seq<u8>) -> Seq<u8>;

/// The Ed25519 public key of a 32-byte secret seed
pub uninterp spec fn ed25519_public(seed: Seq<u8>) -> Seq<u8>;

/// The Ed25519 signature of a message under a 32-byte secret seed
pub uninterp spec fn ed25519_signature(seed: Seq<u8>, msg: Seq<u8>) -> Seq<u8>;

/// `x25519_dalek::PublicKey::from(&StaticSecret)`: the public key of `secret`.
#[verifier::external_body]
pub(crate) fn x25519_public_key(secret: &[u8; 32]) -> (r: [u8; 32])
    ensures
        r@ == x25519_public(secret@),
{
    x25519_dalek::PublicKey::from(&x25519_dalek::StaticSecret::from(*secret)).to_bytes()
}

/// `x25519_dalek::StaticSecret::diffie_hellman`: the shared secret of `secret` and `public`.
/// As the crate documents, two parties that each combine their own secret with the other's
/// public key obtain the same shared secret.
#[verifier::external_body]
pub(crate) fn x25519_diffie_hellman(secret: &[u8; 32], public: &[u8; 32]) -> (r: [u8; 32])
    ensures
        r@ == x25519_shared(secret@, public@),
        forall|other: Seq<u8>|
            other.len() == 32 && public@ == #[trigger] x25519_public(other) ==> r@ == x25519_shared(
                other,
                x25519_public(secret@),
            ),
{
    let secret = x25519_dalek::StaticSecret::from(*secret);
    secret.diffie_hellman(&x25519_dalek::PublicKey::from(*public)).to_bytes()
}

/// `ed25519_dalek::SigningKey::verifying_key`: the public key of the seed `seed`.
#[verifier::external_body]
pub(crate) fn ed25519_public_key(seed: &[u8; 32]) -> (r: [u8; 32])
    ensures
        r@ == ed25519_public(seed@),
{
    ed25519_dalek::SigningKey::from_bytes(seed).verifying_key().to_bytes()
}

/// Whether 32 bytes are the compressed form of a valid Ed25519 public key
pub uninterp spec fn ed25519_point_valid(bytes: Seq<u8>) -> bool;

/// `ed25519_dalek::VerifyingKey::from_bytes`: whether it accepts `bytes` as a public key.
#[verifier::external_body]
pub(crate) fn ed25519_public_key_is_valid(bytes: &[u8; 32]) -> (r: bool)
    ensures
        r == ed25519_point_valid(bytes@),
{
    ed25519_dalek::VerifyingKey::from_bytes(bytes).is_ok()
}

/// `ed25519_dalek::Signer::sign` on the key of the seed `seed`: the 64-byte signature of
/// `msg`. Ed25519 signing is deterministic (RFC 8032).
#[verifier::external_body]
pub(crate) fn ed25519_sign(seed: &[u8; 32], msg: &[u8]) -> (r: [u8; 64])
    ensures
        r@ == ed25519_signature(seed@, msg@),
{
    ed25519_dalek::SigningKey::from_bytes(seed).sign(msg).to_bytes()
}

// endregion: Elliptic curves

// region:    Authenticated encryption

/// AES-128-GCM encryption: the ciphertext followed by the 16-byte tag
pub uninterp spec fn aes128gcm_seal(key: Seq<u8>, nonce: Seq<u8>, aad: Seq<u8>, pt: Seq<u8>) -> Seq<
    u8,
>;

/// AES-128-GCM decryption: the plaintext, or `None` when authentication fails
pub uninterp spec fn aes128gcm_open(key: Seq<u8>, nonce: Seq<u8>, aad: Seq<u8>, ct: Seq<u8>) -> Option<
    Seq<u8>,
>;

/// XChaCha20-Poly1305 encryption: the ciphertext followed by the 16-byte tag
pub uninterp spec fn xchacha_seal(key: Seq<u8>, nonce: Seq<u8>, aad: Seq<u8>, pt: Seq<u8>) -> Seq<
    u8,
>;

/// XChaCha20-Poly1305 decryption: the plaintext, or `None` when authentication fails
pub uninterp spec fn xchacha_open(key: Seq<u8>, nonce: Seq<u8>, aad: Seq<u8>, ct: Seq<u8>) -> Option<
    Seq<u8>,
>;

/// `aes_gcm::Aes128Gcm::encrypt` with a 16-byte key and a 12-byte nonce. It fails exactly
/// when the plaintext or the associated data is longer than 2^36 bytes.
#[verifier::external_body]
pub(crate) fn aes128gcm_encrypt(key: &[u8], nonce: &[u8; 12], aad: &[u8], pt: &[u8]) -> (r: Option<
    Vec<u8>,
>)
    requires
        key@.len() == 16,
    ensures
        (pt@.len() <= 0x10_0000_0000 && aad@.len() <= 0x10_0000_0000) == r is Some,
        r matches Some(c) ==> c@ == aes128gcm_seal(key@, nonce@, aad@, pt@) && c@.len() == pt@.len()
            + 16,
{
    let aead = aes_gcm::Aes128Gcm::new_from_slice(key).unwrap();
    aead.encrypt(nonce.into(), Payload { msg: pt, aad }).ok()
}

/// `aes_gcm::Aes128Gcm::decrypt` with a 16-byte key and a 12-byte nonce. As for every AEAD,
/// decrypting what encryption produced under the same key, nonce and associated data
/// gives back the plaintext; this is said of the plaintexts encryption accepts, up to 2^36
/// bytes, and nothing of longer ones.
#[verifier::external_body]
pub(crate) fn aes128gcm_decrypt(key: &[u8], nonce: &[u8; 12], aad: &[u8], ct: &[u8]) -> (r: Option<
    Vec<u8>,
>)
    requires
        key@.len() == 16,
    ensures
        match r {
            Some(p) => aes128gcm_open(key@, nonce@, aad@, ct@) == Some(p@),
            None => aes128gcm_open(key@, nonce@, aad@, ct@) is None,
        },
        r is None ==> forall|pt: Seq<u8>|
            pt.len() <= 0x10_0000_0000 && aad@.len() <= 0x10_0000_0000 ==> ct@ != #[trigger] aes128gcm_seal(key@, nonce@, aad@, pt),
        r matches Some(p) ==> forall|pt: Seq<u8>|
            pt.len() <= 0x10_0000_0000 && aad@.len() <= 0x10_0000_0000 && ct@ == #[trigger] aes128gcm_seal(key@, nonce@, aad@, pt) ==> p@ == pt,
{
    let aead = aes_gcm::Aes128Gcm::new_from_slice(key).unwrap();
    aead.decrypt(nonce.into(), Payload { msg: ct, aad }).ok()
}

/// `chacha20poly1305::XChaCha20Poly1305::encrypt` with a 32-byte key and a 24-byte nonce.
/// It fails exactly for plaintexts of 2^32 - 1 blocks of 64 bytes or more.
#[verifier::external_body]
pub(crate) fn xchacha_encrypt(key: &[u8; 32], nonce: &[u8; 24], aad: &[u8], pt: &[u8]) -> (r: Option<
    Vec<u8>,
>)
    ensures
        (pt@.len() < 64 * 0xffff_ffff) == r is Some,
        r matches Some(c) ==> c@ == xchacha_seal(key@, nonce@, aad@, pt@) && c@.len() == pt@.len()
            + 16,
{
    let aead = chacha20poly1305::XChaCha20Poly1305::new(key.into());
    aead.encrypt(nonce.into(), chacha20poly1305::aead::Payload { msg: pt, aad }).ok()
}

/// `chacha20poly1305::XChaCha20Poly1305::decrypt` with a 32-byte key and a 24-byte nonce.
/// Decrypting what encryption produced under the same key, nonce and associated data
/// gives back the plaintext; this is said of the plaintexts encryption accepts, shorter
/// than 64 * (2^32 - 1) bytes, and nothing of longer ones.
#[verifier::external_body]
pub(crate) fn xchacha_decrypt(key: &[u8; 32], nonce: &[u8; 24], aad: &[u8], ct: &[u8]) -> (r: Option<
    Vec<u8>,
>)
    ensures
        match r {
            Some(p) => xchacha_open(key@, nonce@, aad@, ct@) == Some(p@),
            None => xchacha_open(key@, nonce@, aad@, ct@) is None,
        },
        r is None ==> forall|pt: Seq<u8>|
            pt.len() < 64 * 0xffff_ffff ==> ct@ != #[trigger] xchacha_seal(key@, nonce@, aad@, pt),
        r matches Some(p) ==> forall|pt: Seq<u8>|
            pt.len() < 64 * 0xffff_ffff && ct@ == #[trigger] xchacha_seal(key@, nonce@, aad@, pt) ==> p@ == pt,
{
    let aead = chacha20poly1305::XChaCha20Poly1305::new(key.into());
    aead.decrypt(nonce.into(), chacha20poly1305::aead::Payload { msg: ct, aad }).ok()
}

// endregion: Authenticated encryption

// region:    Identifiers

// endregion: Identifiers

// region:    JSON

/// Whether bytes are a JSON text
pub uninterp spec fn json_text(bytes: Seq<u8>) -> bool;

/// `serde_json::from_slice` into a `serde_json::Value`: whether the bytes are a JSON text.
#[verifier::external_body]
pub(crate) fn is_json_text(bytes: &[u8]) -> (r: bool)
    ensures
        r == json_text(bytes@),
{
    serde_json::from_slice::<serde_json::Value>(bytes).is_ok()
}

// endregion: JSON

// region:    Randomness

/// `rand::RngCore::try_fill_bytes` on `rand::rngs::OsRng`: 32 bytes from the operating
/// system's generator, or `None` when it gives none.
#[verifier::external_body]
pub(crate) fn os_random_32() -> (r: Option<[u8; 32]>) {
    let mut r = [0u8; 32];
    rand::RngCore::try_fill_bytes(&mut rand::rngs::OsRng, &mut r).ok().map(|_| r)
}

/// The version 4 UUID that `uuid` makes of 16 random bytes
pub uninterp spec fn uuid_v4_of(bytes: Seq<u8>) -> u128;

/// `uuid::Builder::from_random_bytes` then `into_uuid`: the version 4 UUID made of the
/// bytes (its version and variant bits set), as its 128-bit value.
#[verifier::external_body]
pub(crate) fn uuid_v4_from_random(bytes: [u8; 16]) -> (r: u128)
    ensures
        r == uuid_v4_of(bytes@),
{
    uuid::Builder::from_random_bytes(bytes).into_uuid().as_u128()
}

/// A seeded cryptographically secure generator
#[verifier::external_type_specification]
#[verifier::external_body]
pub struct ExStdRng(rand::rngs::StdRng);

/// `rand::SeedableRng::from_rng(OsRng)` for `rand::rngs::StdRng`: a generator seeded from
/// the operating system, or `None` when the operating system gives no randomness.
#[verifier::external_body]
pub(crate) fn std_rng_from_os() -> (r: Option<rand::rngs::StdRng>) {
    rand::SeedableRng::from_rng(rand::rngs::OsRng).ok()
}

/// `rand::RngCore::fill_bytes` on `rng`: 32 random bytes.
#[verifier::external_body]
pub(crate) fn rng_bytes_32(rng: &mut rand::rngs::StdRng) -> (r: [u8; 32]) {
    let mut r = [0u8; 32];
    rng.fill_bytes(&mut r);
    r
}

/// `chacha20poly1305::AeadCore::generate_nonce` on `rng`: a random 24-byte nonce.
#[verifier::external_body]
pub(crate) fn rng_nonce_24(rng: &mut rand::rngs::StdRng) -> (r: [u8; 24]) {
    chacha20poly1305::XChaCha20Poly1305::generate_nonce(rng).into()
}

/// `rand::Rng::gen_range(lo..=hi)` on `rng`: a random value in the inclusive range, which the
/// documentation promises; the range must not be empty.
#[verifier::external_body]
pub(crate) fn rng_range_inclusive(rng: &mut rand::rngs::StdRng, lo: u64, hi: u64) -> (r: u64)
    requires
        lo <= hi,
    ensures
        lo <= r <= hi,
{
    rng.gen_range(lo..=hi)
}

// endregion: Randomness

// region:    Base64

/// The standard base64 text, with padding, of bytes
pub uninterp spec fn base64_text(bytes: Seq<u8>) -> Seq<char>;

/// The bytes that a standard base64 text with padding stands for, if it is valid
pub uninterp spec fn base64_decoded(text: Seq<char>) -> Option<Seq<u8>>;

/// `base64::engine::general_purpose::STANDARD.encode`: the base64 text of `bytes`, which
/// decodes back to them.
#[verifier::external_body]
pub(crate) fn base64_encode(bytes: &[u8]) -> (r: String)
    ensures
        r@ == base64_text(bytes@),
        base64_decoded(r@) == Some(bytes@),
{
    base64::engine::general_purpose::STANDARD.encode(bytes)
}

/// `base64::engine::general_purpose::STANDARD.decode`: the bytes of `text`, or `None` when it
/// is not valid base64.
#[verifier::external_body]
pub(crate) fn base64_decode(text: &str) -> (r: Option<Vec<u8>>)
    ensures
        match base64_decoded(text@) {
            Some(b) => r matches Some(v) && v@ == b,
            None => r is None,
        },
{
    base64::engine::general_purpose::STANDARD.decode(text).ok()
}

// endregion: Base64

// region:    Certificates

/// Whether DER bytes are an end-entity certificate that `webpki` can read
pub uninterp spec fn cert_parses(der: Seq<u8>) -> bool;

/// Whether a certificate is valid for a server name: a DNS name when `dns`, else an IP
/// address, given as its bytes
pub uninterp spec fn cert_valid_for_name(der: Seq<u8>, dns: bool, name: Seq<u8>) -> bool;

/// Whether `signature` is an RSA-PSS SHA-256 signature of `message` by the key of the
/// certificate
pub uninterp spec fn cert_signature_valid(der: Seq<u8>, message: Seq<u8>, signature: Seq<u8>) -> bool;

/// `webpki::EndEntityCert::try_from`: whether the certificate can be read.
#[verifier::external_body]
pub(crate) fn webpki_cert_parses(der: &[u8]) -> (r: bool)
    ensures
        r == cert_parses(der@),
{
    webpki::EndEntityCert::try_from(&rustls_pki_types::CertificateDer::from(der)).is_ok()
}

/// Whether a certificate chains up, through the intermediates, to one of the roots, with
/// server authentication usage, at the given time in seconds since the Unix epoch
pub uninterp spec fn cert_chain_valid(
    der: Seq<u8>,
    intermediates: Seq<Seq<u8>>,
    roots: Seq<(Seq<u8>, Seq<u8>, Option<Seq<u8>>)>,
    now: u64,
) -> bool;

/// A root certificate as its subject, public key info and name constraints
pub open spec fn root_parts(r: crate::tls::msgs::client_hello::RootCertificate) -> (Seq<u8>, Seq<u8>, Option<Seq<u8>>) {
    (r.subject@, r.subject_public_key_info@, match r.name_constraints {
        Some(n) => Some(n@),
        None => None,
    })
}

/// The root certificates, each by its parts
pub open spec fn roots_parts(roots: Seq<crate::tls::msgs::client_hello::RootCertificate>) -> Seq<(Seq<u8>, Seq<u8>, Option<Seq<u8>>)> {
    roots.map_values(|r: crate::tls::msgs::client_hello::RootCertificate| root_parts(r))
}

/// `std::time::SystemTime::now` and `duration_since(UNIX_EPOCH)`: the current time in
/// seconds since the Unix epoch, or `None` when the clock is set before it.
#[verifier::external_body]
pub(crate) fn unix_time_now() -> (r: Option<u64>) {
    std::time::SystemTime::now().duration_since(std::time::UNIX_EPOCH).ok().map(|d| d.as_secs())
}

/// `webpki::EndEntityCert::verify_for_usage` for server authentication with all the
/// algorithms `webpki` supports, at time `now` (seconds since the Unix epoch): whether the
/// certificate parses and chains up to one of the roots through the intermediates. The
/// check depends on its arguments alone.
#[verifier::external_body]
pub(crate) fn webpki_verify_chain(der: &[u8], intermediates: &Vec<Vec<u8>>, roots: &Vec<crate::tls::msgs::client_hello::RootCertificate>, now: u64) -> (r: bool)
    ensures
        r == cert_chain_valid(der@, intermediates.deep_view(), roots_parts(roots@), now),
{
    let anchors: Vec<_> = roots.iter().map(|a| rustls_pki_types::TrustAnchor { subject: a.subject.as_slice().into(), subject_public_key_info: a.subject_public_key_info.as_slice().into(), name_constraints: a.name_constraints.as_ref().map(|n| n.as_slice().into()) }).collect();
    let path: Vec<_> = intermediates.iter().map(|c| c.as_slice().into()).collect();
    match webpki::EndEntityCert::try_from(&rustls_pki_types::CertificateDer::from(der)) {
        Ok(c) => c.verify_for_usage(webpki::ALL_VERIFICATION_ALGS, &anchors, &path, rustls_pki_types::UnixTime::since_unix_epoch(core::time::Duration::from_secs(now)), webpki::KeyUsage::server_auth(), None, None).is_ok(),
        Err(_) => false,
    }
}

/// `webpki::EndEntityCert::verify_is_valid_for_subject_name`: whether the certificate is
/// valid for the name; a name whose text is not a valid DNS name or IP address is refused.
#[verifier::external_body]
pub(crate) fn webpki_valid_for_name(der: &[u8], name: &crate::tls::msgs::client_hello::ServerName) -> (r: bool)
    ensures
        r == cert_valid_for_name(der@, name is DnsName, name.bytes()),
{
    let name = match name {
        crate::tls::msgs::client_hello::ServerName::DnsName(b) => core::str::from_utf8(b).ok().and_then(|n| rustls_pki_types::ServerName::try_from(n).ok()),
        crate::tls::msgs::client_hello::ServerName::IpAddress(b) => core::str::from_utf8(b).ok().and_then(|n| rustls_pki_types::IpAddr::try_from(n).ok()).map(rustls_pki_types::ServerName::from),
    };
    match (webpki::EndEntityCert::try_from(&rustls_pki_types::CertificateDer::from(der)), name) {
        (Ok(c), Some(n)) => c.verify_is_valid_for_subject_name(&n).is_ok(),
        _ => false,
    }
}

/// `webpki::EndEntityCert::verify_signature` with RSA-PSS SHA-256: whether `signature`
/// signs `message` under the certificate's key.
#[verifier::external_body]
pub(crate) fn webpki_verify_signature(der: &[u8], message: &[u8], signature: &[u8]) -> (r: bool)
    ensures
        r == cert_signature_valid(der@, message@, signature@),
{
    match webpki::EndEntityCert::try_from(&rustls_pki_types::CertificateDer::from(der)) {
        Ok(c) => c.verify_signature(webpki::aws_lc_rs::RSA_PSS_2048_8192_SHA256_LEGACY_KEY, message, signature).is_ok(),
        Err(_) => false,
    }
}

// endregion: Certificates

} // verus!
