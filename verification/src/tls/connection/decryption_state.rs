//! Record protection of what we receive (RFC 8446, section 5.2)

use vstd::prelude::*;

use crate::{
    primitives::{aes128gcm_decrypt, aes128gcm_open, aes128gcm_seal},
    tls::{
        codec::{be2, push_u16},
        connection::{
            encryption_state::{sealed_len_ok, sealed_record},
            traffic_keys::{ciphertext_header, record_nonce, TrafficKeys},
        },
        enums::ContentType,
        error::{Error, InvalidMessage},
        msgs::{parse_message, Message, MessageView},
        reader::Reader,
        record_layer::{
            law_record_roundtrip, parse_record, record_bytes, Record, RecordView,
            CIPHERTEXT_FRAGMENT_MAX_LEN,
        },
    },
};

verus! {

/// Handles decrypting records
///
/// We only handle the TLS_AES_128_GCM_SHA256 ciphersuite
#[derive(Debug)]
pub enum DecryptionState {
    Disabled,
    Enabled(TrafficKeys),
}

/// The index of the last nonzero byte of `p`, or `-1` when there is none
pub open spec fn last_nonzero(p: Seq<u8>) -> int
    decreases p.len(),
{
    if p.len() == 0 {
        -1
    } else if p.last() != 0 {
        p.len() - 1
    } else {
        last_nonzero(p.drop_last())
    }
}

/// The inner plaintext without its zero padding; all zeros are kept when nothing else is
/// there
pub open spec fn unpadded(p: Seq<u8>) -> Seq<u8> {
    if last_nonzero(p) >= 0 {
        p.take(last_nonzero(p) + 1)
    } else {
        p
    }
}

/// The additional data of a received record: its header
pub open spec fn received_header(rec: RecordView) -> Seq<u8> {
    seq![rec.typ] + be2(rec.version) + be2(rec.payload.len() as u16)
}

/// The message an inner plaintext carries, once its padding is removed: the fragment, then
/// its content type
pub open spec fn opened_plaintext(p: Seq<u8>) -> Result<MessageView, Error> {
    let u = unpadded(p);
    if u.len() == 0 {
        Err(Error::InvalidMessage(InvalidMessage::TooShort))
    } else {
        match parse_message(u.drop_last(), ContentType(u.last())) {
            Ok(m) => Ok(m),
            Err(e) => Err(Error::InvalidMessage(e)),
        }
    }
}

/// The message a protected record carries, under the key and IV, as record `seq`
pub open spec fn opened_record(key: Seq<u8>, iv: Seq<u8>, seq: u64, rec: RecordView) -> Result<
    MessageView,
    Error,
> {
    if rec.typ != 23 {
        Err(Error::InvalidMessage(InvalidMessage::UnencryptedMessage))
    } else {
        match aes128gcm_open(key, record_nonce(iv, seq), received_header(rec), rec.payload) {
            None => Err(Error::InvalidMessage(InvalidMessage::BadMacError)),
            Some(p) => opened_plaintext(p),
        }
    }
}

/// Whether `r` is what decrypting the record `rec` under the key and IV, as record `seq`,
/// may give: what decryption gives, and the message of the inner plaintext itself when
/// the record holds that plaintext sealed under these key, nonce and header
pub open spec fn record_decryption(
    key: Seq<u8>,
    iv: Seq<u8>,
    seq: u64,
    rec: RecordView,
    r: Result<MessageView, Error>,
) -> bool {
    &&& r == opened_record(key, iv, seq, rec)
    &&& rec.typ == 23 ==> forall|pt: Seq<u8>|
        pt.len() <= 0x10_0000_0000 && rec.payload == #[trigger] aes128gcm_seal(
            key,
            record_nonce(iv, seq),
            received_header(rec),
            pt,
        ) ==> r == opened_plaintext(pt)
}

/// The record that protects a fragment under the key and IV, as record `seq`
pub open spec fn sealed_view(key: Seq<u8>, iv: Seq<u8>, seq: u64, typ: u8, fragment: Seq<u8>) -> RecordView {
    let len = (fragment.len() + 17) as u16;
    RecordView {
        typ: 23,
        version: 0x0303,
        payload: aes128gcm_seal(key, record_nonce(iv, seq), ciphertext_header(len), fragment.push(typ)),
    }
}

/// A record that the sending side protects is read back from its bytes, whatever follows
/// them, and decrypting it with the same key and IV, as the same record number, gives the
/// message that its fragment and content type encode
pub proof fn law_protected_record_roundtrip(
    key: Seq<u8>,
    iv: Seq<u8>,
    seq: u64,
    typ: u8,
    fragment: Seq<u8>,
    rest: Seq<u8>,
    r: Result<MessageView, Error>,
)
    requires
        typ != 0,
        fragment.len() + 17 <= CIPHERTEXT_FRAGMENT_MAX_LEN,
        sealed_len_ok(key, iv, seq, typ, fragment),
        record_decryption(key, iv, seq, sealed_view(key, iv, seq, typ, fragment), r),
    ensures
        parse_record(sealed_record(key, iv, seq, typ, fragment) + rest) == Ok::<
            Option<(RecordView, nat)>,
            InvalidMessage,
        >(Some((sealed_view(key, iv, seq, typ, fragment), fragment.len() + 22))),
        r == (match parse_message(fragment, ContentType(typ)) {
            Ok(m) => Ok(m),
            Err(e) => Err(Error::InvalidMessage(e)),
        }),
{
    let len = (fragment.len() + 17) as u16;
    let v = sealed_view(key, iv, seq, typ, fragment);
    assert(sealed_record(key, iv, seq, typ, fragment) =~= record_bytes(23, 0x0303, v.payload));
    law_record_roundtrip(23, 0x0303, v.payload, rest);
    assert(received_header(v) =~= ciphertext_header(len));
    let p = fragment.push(typ);
    assert(last_nonzero(p) == p.len() - 1);
    assert(unpadded(p) =~= p);
    assert(p.drop_last() =~= fragment);
}

/// The view of the result of a decryption
pub open spec fn message_result_view(r: Result<Message, Error>) -> Result<MessageView, Error> {
    match r {
        Ok(m) => Ok(m@),
        Err(e) => Err(e),
    }
}

/// Zeros after index `i` leave the last nonzero byte before it
proof fn lemma_last_nonzero_prefix(p: Seq<u8>, i: int)
    requires
        0 <= i <= p.len(),
        forall|j: int| i <= j < p.len() ==> p[j] == 0,
    ensures
        last_nonzero(p) == last_nonzero(p.take(i)),
    decreases p.len() - i,
{
    if i < p.len() {
        assert(p.drop_last() =~= p.take(p.len() - 1));
        assert(p.take(p.len() - 1).take(i) =~= p.take(i));
        lemma_last_nonzero_prefix(p.drop_last(), i);
    } else {
        assert(p.take(i) =~= p);
    }
}

impl DecryptionState {
    /// Whether the keys, when there are some, are those of their secret
    pub open spec fn wf(&self) -> bool {
        match self {
            DecryptionState::Enabled(k) => k.wf(),
            DecryptionState::Disabled => true,
        }
    }

    /// The number of records received with the current keys
    pub open spec fn sequence_number(&self) -> u64 {
        match self {
            DecryptionState::Enabled(k) => k.sequence_number,
            DecryptionState::Disabled => 0,
        }
    }

    pub fn new() -> (r: Self)
        ensures
            r is Disabled,
    {
        DecryptionState::Disabled
    }

    /// Return `true` if decryption is enabled
    pub fn enabled(&self) -> (r: bool)
        ensures
            r == self is Enabled,
    {
        match self {
            DecryptionState::Enabled(_) => true,
            DecryptionState::Disabled => false,
        }
    }

    /// Set the new Secret to use for traffic key calculation
    ///
    /// This recomputes the traffic keys and enables decryption if it was not enabled
    pub fn set_new_traffic_secret(&mut self, secret: &[u8])
        requires
            secret@.len() == 32,
        ensures
            final(self).wf(),
            *final(self) matches DecryptionState::Enabled(k) && k.secret@ == secret@
                && k.sequence_number == 0,
    {
        *self = DecryptionState::Enabled(TrafficKeys::new(secret))
    }

    /// Update the traffic secret and compute the new keys
    pub fn perform_key_update(&mut self)
        requires
            old(self).wf(),
        ensures
            final(self).wf(),
            *old(self) is Disabled ==> *final(self) is Disabled,
            *old(self) matches DecryptionState::Enabled(k) ==> (*final(self) matches DecryptionState::Enabled(
                n,
            ) && n.secret@ == crate::tls::connection::traffic_keys::next_traffic_secret(k.secret@)
                && n.sequence_number == 0),
    {
        match self {
            DecryptionState::Enabled(k) => {
                let n = k.updated();
                *self = DecryptionState::Enabled(n);
            },
            DecryptionState::Disabled => {},
        }
    }

    /// Decrypt a protected record and return the [`Message`] it carries
    ///
    /// If decryption is disabled, returns an [`InvalidMessage::UnexpectedMessage`] error.
    pub fn decrypt(&mut self, record: Record) -> (r: Result<Message, Error>)
        requires
            old(self).wf(),
            record.payload@.len() <= 0xffff,
            old(self).sequence_number() < u64::MAX,
        ensures
            final(self).wf(),
            *old(self) is Disabled ==> r == Err::<Message, Error>(
                Error::InvalidMessage(InvalidMessage::UnexpectedMessage),
            ) && *final(self) is Disabled,
            *old(self) matches DecryptionState::Enabled(k) ==> ({
                &&& record_decryption(
                    k.key@,
                    k.iv@,
                    k.sequence_number,
                    record@,
                    message_result_view(r),
                )
                &&& *final(self) matches DecryptionState::Enabled(n) && n.secret@ == k.secret@
                    && n.key@ == k.key@ && n.iv@ == k.iv@
                &&& final(self).sequence_number() == if record.typ.0 == 23 && aes128gcm_open(
                    k.key@,
                    record_nonce(k.iv@, k.sequence_number),
                    received_header(record@),
                    record.payload@,
                ) is Some {
                    k.sequence_number + 1
                } else {
                    k.sequence_number as int
                }
            }),
    {
        match self {
            DecryptionState::Enabled(st) => {
                if record.typ.0 != 23 {
                    return Err(Error::InvalidMessage(InvalidMessage::UnencryptedMessage));
                }
                // additional_data is the TLSCiphertext header
                let mut header: Vec<u8> = Vec::new();
                header.push(record.typ.0);
                push_u16(&mut header, record.version.0);
                push_u16(&mut header, record.payload.len() as u16);
                assert(header@ =~= received_header(record@));
                let nonce = st.nonce();
                let mut payload = match aes128gcm_decrypt(
                    st.key.as_slice(),
                    &nonce,
                    header.as_slice(),
                    record.payload.as_slice(),
                ) {
                    Some(p) => p,
                    None => return Err(Error::InvalidMessage(InvalidMessage::BadMacError)),
                };
                st.sequence_number = st.sequence_number + 1;
                // Remove the padding
                let ghost p = payload@;
                let mut i = payload.len();
                let mut found = false;
                while i > 0 && !found
                    invariant
                        i <= p.len(),
                        payload@ == p,
                        found ==> i > 0 && p[i - 1] != 0,
                        forall|j: int| i <= j < p.len() ==> p[j] == 0,
                    decreases i, if found { 0int } else { 1int },
                {
                    if payload[i - 1] != 0 {
                        found = true;
                    } else {
                        i = i - 1;
                    }
                }
                proof {
                    lemma_last_nonzero_prefix(p, i as int);
                    if found {
                        assert(p.take(i as int).last() == p[i - 1]);
                        assert(last_nonzero(p) == i - 1);
                    } else {
                        assert(p.take(0) =~= Seq::<u8>::empty());
                        assert(last_nonzero(p) == -1);
                    }
                }
                if found {
                    payload.truncate(i);
                }
                assert(payload@ =~= unpadded(p));
                // Decode the message
                let content_type = match payload.pop() {
                    Some(t) => t,
                    None => return Err(Error::InvalidMessage(InvalidMessage::TooShort)),
                };
                let mut reader = Reader::new(payload.as_slice());
                match Message::decode(&mut reader, ContentType(content_type)) {
                    Ok(m) => Ok(m),
                    Err(e) => Err(Error::InvalidMessage(e)),
                }
            },
            DecryptionState::Disabled => Err(Error::InvalidMessage(InvalidMessage::UnexpectedMessage)),
        }
    }
}

} // verus!
