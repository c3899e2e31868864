//! Traffic keys: the key, the IV and the record sequence number derived from a traffic
//! secret (RFC 8446, sections 5.3 and 7.3), for the TLS_AES_128_GCM_SHA256 cipher suite

use vstd::prelude::*;
use vstd::string::StringSliceAdditionalSpecFns;

use crate::{
    bytes::bytes_to_vec,
    tls::{codec::be2, crypto::{expand_label, hkdf_expand_label}},
};

verus! {

/// The length of an AES-128-GCM key
pub const KEY_SIZE: u16 = 16;

/// The length of an AES-128-GCM nonce
pub const NONCE_SIZE: u16 = 12;

/// The key derived from a traffic secret
pub open spec fn traffic_key(secret: Seq<u8>) -> Seq<u8> {
    expand_label(secret, "key".spec_bytes(), seq![], 16)
}

/// The IV derived from a traffic secret
pub open spec fn traffic_iv(secret: Seq<u8>) -> Seq<u8> {
    expand_label(secret, "iv".spec_bytes(), seq![], 12)
}

/// The next traffic secret of a key update (RFC 8446, section 7.2)
pub open spec fn next_traffic_secret(secret: Seq<u8>) -> Seq<u8> {
    expand_label(secret, "traffic upd".spec_bytes(), seq![], 32)
}

/// Byte `i` of the 64-bit sequence number padded on the left to the nonce length
pub open spec fn seq_byte(seq: u64, i: int) -> u8 {
    if i < 4 {
        0
    } else {
        ((seq >> (8 * (11 - i)) as u64) & 0xff) as u8
    }
}

/// The per-record nonce: the sequence number, padded to the IV length, XORed with the IV
pub open spec fn record_nonce(iv: Seq<u8>, seq: u64) -> Seq<u8> {
    Seq::new(12, |i: int| iv[i] ^ seq_byte(seq, i))
}

/// The header of a TLSCiphertext record whose encrypted record is `len` bytes long: it is
/// also the record's additional data
pub open spec fn ciphertext_header(len: u16) -> Seq<u8> {
    seq![23u8, 3, 3] + be2(len)
}

/// The bytes of an ASCII label are as many as its characters
pub proof fn lemma_ascii_label_len(s: &str)
    requires
        vstd::utf8::is_ascii_chars(s@),
    ensures
        s.spec_bytes().len() == s@.len(),
{
    assert(vstd::string::is_ascii(s));
    vstd::string::is_ascii_spec_bytes(s);
}

/// The keys of one direction of a connection
#[derive(Debug)]
pub struct TrafficKeys {
    /// The traffic secret the keys derive from
    pub secret: Vec<u8>,
    pub key: Vec<u8>,
    pub iv: Vec<u8>,
    /// The number of records protected with these keys so far
    pub sequence_number: u64,
}

impl TrafficKeys {
    /// Whether the key and IV are those of the secret
    pub open spec fn wf(&self) -> bool {
        &&& self.secret@.len() == 32
        &&& self.key@ == traffic_key(self.secret@)
        &&& self.iv@ == traffic_iv(self.secret@)
        &&& self.key@.len() == 16
        &&& self.iv@.len() == 12
    }

    /// The keys of a traffic secret, for the first record
    pub fn new(secret: &[u8]) -> (r: Self)
        requires
            secret@.len() == 32,
        ensures
            r.wf(),
            r.secret@ == secret@,
            r.sequence_number == 0,
    {
        proof {
            reveal_strlit("key");
            reveal_strlit("iv");
            lemma_ascii_label_len("key");
            lemma_ascii_label_len("iv");
        }
        let key = hkdf_expand_label(secret, "key", &[], KEY_SIZE);
        let iv = hkdf_expand_label(secret, "iv", &[], NONCE_SIZE);
        assert(Seq::<u8>::empty() =~= seq![]);
        TrafficKeys { secret: bytes_to_vec(secret), key, iv, sequence_number: 0 }
    }

    /// The keys of the next traffic secret
    pub fn updated(&self) -> (r: Self)
        requires
            self.wf(),
        ensures
            r.wf(),
            r.secret@ == next_traffic_secret(self.secret@),
            r.sequence_number == 0,
    {
        proof {
            reveal_strlit("traffic upd");
            lemma_ascii_label_len("traffic upd");
        }
        let next = hkdf_expand_label(self.secret.as_slice(), "traffic upd", &[], 32);
        TrafficKeys::new(next.as_slice())
    }

    /// The nonce of the next record
    pub fn nonce(&self) -> (r: [u8; 12])
        requires
            self.wf(),
        ensures
            r@ == record_nonce(self.iv@, self.sequence_number),
    {
        let mut nonce = [0u8; 12];
        let mut i: usize = 0;
        while i < 12
            invariant
                i <= 12,
                self.iv@.len() == 12,
                nonce@.len() == 12,
                forall|j: int| 0 <= j < i ==> nonce@[j] == self.iv@[j] ^ seq_byte(self.sequence_number, j),
            decreases 12 - i,
        {
            let b: u8 = if i < 4 {
                0
            } else {
                let shift: u64 = (8 * (11 - i)) as u64;
                ((self.sequence_number >> shift) & 0xff) as u8
            };
            nonce[i] = self.iv[i] ^ b;
            i = i + 1;
        }
        assert(nonce@ =~= record_nonce(self.iv@, self.sequence_number));
        nonce
    }
}

} // verus!
