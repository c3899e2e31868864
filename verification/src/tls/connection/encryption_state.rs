//! Record protection of what we send (RFC 8446, section 5.2)

use vstd::prelude::*;

use crate::{
    bytes::extend_bytes,
    primitives::{aes128gcm_encrypt, aes128gcm_seal},
    tls::{
        codec::{push_u16, Encode},
        connection::traffic_keys::{
            ciphertext_header, next_traffic_secret, record_nonce, TrafficKeys,
        },
        enums::{ContentType, ProtocolVersion},
        record_layer::record_bytes,
    },
};

verus! {

/// Maximum number of records sent between each rekey
pub const RECORDS_REKEY_LIMIT: u64 = 10_000_000;

/// The ciphertext overhead of a protected record: the inner content type and the tag
pub const PROTECTED_OVERHEAD: usize = 17;

/// Handles encrypting records
///
/// We only handle the TLS_AES_128_GCM_SHA256 ciphersuite
#[derive(Debug)]
pub enum EncryptionState {
    Disabled,
    Enabled(TrafficKeys),
}

/// The TLSPlaintext record of a fragment
pub open spec fn plaintext_record(typ: u8, fragment: Seq<u8>) -> Seq<u8> {
    record_bytes(typ, 0x0303, fragment)
}

/// The TLSCiphertext record of a fragment under the key and IV, as record `seq`: the
/// fragment and its content type, encrypted with the header as additional data
pub open spec fn sealed_record(key: Seq<u8>, iv: Seq<u8>, seq: u64, typ: u8, fragment: Seq<u8>) -> Seq<
    u8,
> {
    let len = (fragment.len() + 17) as u16;
    ciphertext_header(len) + aes128gcm_seal(
        key,
        record_nonce(iv, seq),
        ciphertext_header(len),
        fragment.push(typ),
    )
}

/// Whether the sealed part of a protected record is as long as its header announces: the
/// inner plaintext and the 16-byte tag
pub open spec fn sealed_len_ok(key: Seq<u8>, iv: Seq<u8>, seq: u64, typ: u8, fragment: Seq<u8>) -> bool {
    let len = (fragment.len() + 17) as u16;
    aes128gcm_seal(key, record_nonce(iv, seq), ciphertext_header(len), fragment.push(typ)).len()
        == fragment.len() + 17
}

impl EncryptionState {
    /// Whether the keys, when there are some, are those of their secret
    pub open spec fn wf(&self) -> bool {
        match self {
            EncryptionState::Enabled(k) => k.wf(),
            EncryptionState::Disabled => true,
        }
    }

    /// The number of records sent with the current keys
    pub open spec fn sequence_number(&self) -> u64 {
        match self {
            EncryptionState::Enabled(k) => k.sequence_number,
            EncryptionState::Disabled => 0,
        }
    }

    /// The overhead of a record, as the exec function computes it
    pub open spec fn spec_overhead(&self) -> nat {
        match self {
            EncryptionState::Enabled(_) => 17,
            EncryptionState::Disabled => 0,
        }
    }

    /// Whether a rekey is due before sending more records
    pub open spec fn spec_needs_rekey(&self) -> bool {
        match self {
            EncryptionState::Enabled(k) => k.sequence_number == u64::MAX || k.sequence_number
                >= RECORDS_REKEY_LIMIT,
            EncryptionState::Disabled => false,
        }
    }

    /// The record of a fragment in this state
    pub open spec fn spec_record(&self, typ: u8, fragment: Seq<u8>) -> Seq<u8> {
        match self {
            EncryptionState::Enabled(k) => sealed_record(
                k.key@,
                k.iv@,
                k.sequence_number,
                typ,
                fragment,
            ),
            EncryptionState::Disabled => plaintext_record(typ, fragment),
        }
    }

    /// The state once a record is sent
    pub open spec fn after_record(&self, other: &Self) -> bool {
        match (self, other) {
            (EncryptionState::Enabled(a), EncryptionState::Enabled(b)) => b.sequence_number
                == a.sequence_number + 1 && b.secret@ == a.secret@ && b.key@ == a.key@ && b.iv@
                == a.iv@,
            (EncryptionState::Disabled, EncryptionState::Disabled) => true,
            _ => false,
        }
    }

    pub fn new() -> (r: Self)
        ensures
            r is Disabled,
    {
        EncryptionState::Disabled
    }

    /// Set the new Secret to use for traffic key calculation
    ///
    /// This recomputes the traffic keys and enables encryption if it was not enabled
    pub fn set_new_traffic_secret(&mut self, secret: &[u8])
        requires
            secret@.len() == 32,
        ensures
            final(self).wf(),
            *final(self) matches EncryptionState::Enabled(k) && k.secret@ == secret@
                && k.sequence_number == 0,
    {
        *self = EncryptionState::Enabled(TrafficKeys::new(secret))
    }

    /// Update the traffic secret and compute the new keys
    pub fn perform_key_update(&mut self)
        requires
            old(self).wf(),
        ensures
            final(self).wf(),
            *old(self) is Disabled ==> *final(self) is Disabled,
            *old(self) matches EncryptionState::Enabled(k) ==> (*final(self) matches EncryptionState::Enabled(
                n,
            ) && n.secret@ == next_traffic_secret(k.secret@) && n.sequence_number == 0),
    {
        match self {
            EncryptionState::Enabled(k) => {
                let n = k.updated();
                *self = EncryptionState::Enabled(n);
            },
            EncryptionState::Disabled => {},
        }
    }

    /// Return `true` if encryption is enabled
    pub fn enabled(&self) -> (r: bool)
        ensures
            r == self is Enabled,
    {
        match self {
            EncryptionState::Enabled(_) => true,
            EncryptionState::Disabled => false,
        }
    }

    /// Do we need a rekey before sending more data ?
    pub fn needs_rekey(&self) -> (r: bool)
        ensures
            r == self.spec_needs_rekey(),
    {
        match self {
            EncryptionState::Disabled => false,
            EncryptionState::Enabled(st) => st.sequence_number == u64::MAX || st.sequence_number
                >= RECORDS_REKEY_LIMIT,
        }
    }

    /// The upper bound amount of additional space required to support a ciphertext vs. a plaintext.
    pub fn ciphertext_overhead(&self) -> (r: usize)
        ensures
            r == self.spec_overhead(),
    {
        match self {
            EncryptionState::Disabled => 0,
            // the inner content type and the tag; we never use padding
            EncryptionState::Enabled(_) => PROTECTED_OVERHEAD,
        }
    }

    /// Construct a TLSPlaintext or TLSCiphertext record for a fragment
    ///
    /// This constructs the record in the `dest` buffer, performing encryption when required.
    /// Application data is never sent unprotected.
    pub fn encrypt(&mut self, fragment: &[u8], typ: ContentType, dest: &mut Vec<u8>)
        requires
            old(self).wf(),
            fragment@.len() + old(self).spec_overhead() <= 0xffff,
            *old(self) is Disabled ==> typ.0 != 23,
            old(self).sequence_number() < u64::MAX,
        ensures
            final(self).wf(),
            old(self).after_record(&*final(self)),
            final(dest)@ == old(dest)@ + old(self).spec_record(typ.0, fragment@),
            (*old(self) matches EncryptionState::Enabled(k) ==> sealed_len_ok(
                k.key@,
                k.iv@,
                k.sequence_number,
                typ.0,
                fragment@,
            )),
    {
        match self {
            EncryptionState::Enabled(st) => {
                let ciphertext_length = fragment.len() + PROTECTED_OVERHEAD;
                // Record header, which is also the additional data
                let mut header: Vec<u8> = Vec::new();
                ContentType(23).encode(&mut header);
                ProtocolVersion(0x0303).encode(&mut header);
                push_u16(&mut header, ciphertext_length as u16);
                assert(header@ =~= ciphertext_header(ciphertext_length as u16));
                // The inner plaintext: the fragment and its content type, without padding
                let mut payload: Vec<u8> = Vec::new();
                extend_bytes(&mut payload, fragment);
                payload.push(typ.0);
                assert(payload@ =~= fragment@.push(typ.0));
                let nonce = st.nonce();
                let sealed = match aes128gcm_encrypt(
                    st.key.as_slice(),
                    &nonce,
                    header.as_slice(),
                    payload.as_slice(),
                ) {
                    Some(c) => c,
                    None => {
                        assert(false);
                        Vec::new()
                    },
                };
                extend_bytes(dest, header.as_slice());
                extend_bytes(dest, sealed.as_slice());
                st.sequence_number = st.sequence_number + 1;
            },
            EncryptionState::Disabled => {
                let ghost d = dest@;
                // Header
                typ.encode(dest);
                ProtocolVersion(0x0303).encode(dest);
                push_u16(dest, fragment.len() as u16);
                extend_bytes(dest, fragment);
                assert(dest@ =~= d + plaintext_record(typ.0, fragment@));
            },
        }
    }
}

} // verus!
