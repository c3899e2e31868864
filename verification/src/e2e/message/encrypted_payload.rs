//! Encrypted payloads: the framing of what a ciphertext carries, and its encryption

use vstd::prelude::*;

use crate::{
    bytes::{bytes_to_vec, extend_bytes, id_bytes, id_to_bytes},
    e2e::{keys::SymetricKey, message::Nonce},
    primitives::{is_json_text, json_text, xchacha_decrypt, xchacha_encrypt, xchacha_open, xchacha_seal},
};

verus! {

// region:    Error definition

/// Why a payload could not be encrypted, decrypted or read
#[derive(Debug, Clone, Copy, PartialEq, Eq, Structural)]
pub enum Error {
    /// When encryption or decryption fails
    DecryptionError,
    /// When the serialized message inside the payload cannot be read
    SerdeError,
    /// When the payload is empty
    EmptyPayload,
    /// When the payload header is invalid
    InvalidHeader(u8),
}

/// The result of an operation on payloads
pub type Result<T> = core::result::Result<T, Error>;

// endregion: Error definition

// region:    Struct definitions

/// Message ciphertext and the nonce and key id needed to decrypt it
#[derive(Debug, Clone)]
pub struct EncryptedPayload {
    /// Nonce used for message encryption
    pub nonce: Nonce,
    /// Id of the key used to encrypt the message
    pub key_id: u128,
    /// Message ciphertext
    pub ciphertext: Vec<u8>,
}

/// A message carried in the ciphertext of an encrypted message, held as the serialized
/// form of the message (a chat message or an end-to-end control message)
#[derive(Debug, Clone)]
pub enum PayloadMessage {
    ChatMessage(Vec<u8>),
    E2EMessage(Vec<u8>),
}

/// The contents of a [`PayloadMessage`]
pub enum PayloadMessageView {
    ChatMessage(Seq<u8>),
    E2EMessage(Seq<u8>),
}

/// The contents of an [`EncryptedPayload`]
pub struct EncryptedPayloadView {
    pub nonce: Seq<u8>,
    pub key_id: u128,
    pub ciphertext: Seq<u8>,
}

impl View for PayloadMessage {
    type V = PayloadMessageView;

    open spec fn view(&self) -> PayloadMessageView {
        match self {
            PayloadMessage::ChatMessage(b) => PayloadMessageView::ChatMessage(b@),
            PayloadMessage::E2EMessage(b) => PayloadMessageView::E2EMessage(b@),
        }
    }
}

impl View for EncryptedPayload {
    type V = EncryptedPayloadView;

    open spec fn view(&self) -> EncryptedPayloadView {
        EncryptedPayloadView { nonce: self.nonce@, key_id: self.key_id, ciphertext: self.ciphertext@ }
    }
}

// endregion: Struct definitions

// region:    Framing

/// The header byte of a chat message payload
pub const CHAT_MESSAGE_HEADER: u8 = 0x0A;

/// The header byte of an end-to-end control message payload
pub const E2E_MESSAGE_HEADER: u8 = 0xA0;

/// The bytes of a payload: its header byte, then the serialized message
pub open spec fn payload_bytes(p: PayloadMessageView) -> Seq<u8> {
    match p {
        PayloadMessageView::ChatMessage(b) => seq![CHAT_MESSAGE_HEADER] + b,
        PayloadMessageView::E2EMessage(b) => seq![E2E_MESSAGE_HEADER] + b,
    }
}

/// The serialized message of a payload
pub open spec fn payload_body(p: PayloadMessageView) -> Seq<u8> {
    match p {
        PayloadMessageView::ChatMessage(b) => b,
        PayloadMessageView::E2EMessage(b) => b,
    }
}

/// The payload that `bytes` hold, or why they hold none: the message after the header
/// must be a JSON text
pub open spec fn parse_payload(bytes: Seq<u8>) -> core::result::Result<PayloadMessageView, Error> {
    if bytes.len() == 0 {
        Err(Error::EmptyPayload)
    } else if bytes[0] != CHAT_MESSAGE_HEADER && bytes[0] != E2E_MESSAGE_HEADER {
        Err(Error::InvalidHeader(bytes[0]))
    } else if !json_text(bytes.drop_first()) {
        Err(Error::SerdeError)
    } else if bytes[0] == CHAT_MESSAGE_HEADER {
        Ok(PayloadMessageView::ChatMessage(bytes.drop_first()))
    } else {
        Ok(PayloadMessageView::E2EMessage(bytes.drop_first()))
    }
}

/// The view of the result of a payload operation
pub open spec fn payload_result_view(r: Result<PayloadMessage>) -> core::result::Result<
    PayloadMessageView,
    Error,
> {
    match r {
        Ok(p) => Ok(p@),
        Err(e) => Err(e),
    }
}

/// Reading the bytes of a payload whose message is a JSON text gives the payload back
pub proof fn law_payload_roundtrip(p: PayloadMessageView)
    requires
        json_text(payload_body(p)),
    ensures
        parse_payload(payload_bytes(p)) == Ok::<PayloadMessageView, Error>(p),
{
    match p {
        PayloadMessageView::ChatMessage(b) => {
            assert((seq![CHAT_MESSAGE_HEADER] + b).drop_first() =~= b);
        },
        PayloadMessageView::E2EMessage(b) => {
            assert((seq![E2E_MESSAGE_HEADER] + b).drop_first() =~= b);
        },
    }
}

impl PayloadMessage {
    /// Serialize a payload to bytes: its header, then the serialized message
    pub fn to_bytes(&self) -> (r: Vec<u8>)
        ensures
            r@ == payload_bytes(self@),
    {
        let mut bytes: Vec<u8> = Vec::new();
        match self {
            PayloadMessage::ChatMessage(msg) => {
                bytes.push(CHAT_MESSAGE_HEADER);
                extend_bytes(&mut bytes, msg.as_slice());
            },
            PayloadMessage::E2EMessage(msg) => {
                bytes.push(E2E_MESSAGE_HEADER);
                extend_bytes(&mut bytes, msg.as_slice());
            },
        }
        assert(bytes@ =~= payload_bytes(self@));
        bytes
    }

    /// Parse a payload from bytes
    pub fn try_from_bytes(value: &[u8]) -> (r: Result<Self>)
        ensures
            payload_result_view(r) == parse_payload(value@),
    {
        if value.len() == 0 {
            return Err(Error::EmptyPayload);
        }
        let discr = value[0];
        let (_, body) = value.split_at(1);
        assert(body@ =~= value@.drop_first());
        if discr != CHAT_MESSAGE_HEADER && discr != E2E_MESSAGE_HEADER {
            return Err(Error::InvalidHeader(discr));
        }
        if !is_json_text(body) {
            return Err(Error::SerdeError);
        }
        if discr == CHAT_MESSAGE_HEADER {
            Ok(PayloadMessage::ChatMessage(bytes_to_vec(body)))
        } else if discr == E2E_MESSAGE_HEADER {
            Ok(PayloadMessage::E2EMessage(bytes_to_vec(body)))
        } else {
            Err(Error::InvalidHeader(discr))
        }
    }
}

// endregion: Framing

// region:    Encryption

/// The ciphertext of `payload` under `key` and `nonce`, authenticated with the key id
pub open spec fn payload_ciphertext(
    key: Seq<u8>,
    nonce: Seq<u8>,
    key_id: u128,
    payload: PayloadMessageView,
) -> Seq<u8> {
    xchacha_seal(key, nonce, id_bytes(key_id), payload_bytes(payload))
}

/// What decrypting an encrypted payload under `key` gives
pub open spec fn decrypted_payload(key: Seq<u8>, e: EncryptedPayloadView) -> core::result::Result<
    PayloadMessageView,
    Error,
> {
    match xchacha_open(key, e.nonce, id_bytes(e.key_id), e.ciphertext) {
        Some(bytes) => parse_payload(bytes),
        None => Err(Error::DecryptionError),
    }
}

/// Whether `r` is what decrypting `e` under `key` may give: what decryption gives, and the
/// payload itself when `e` holds the ciphertext of a payload under this key
pub open spec fn decryption_outcome(
    key: Seq<u8>,
    e: EncryptedPayloadView,
    r: core::result::Result<PayloadMessageView, Error>,
) -> bool {
    &&& r == decrypted_payload(key, e)
    &&& forall|p: PayloadMessageView|
        e.ciphertext == #[trigger] payload_ciphertext(key, e.nonce, e.key_id, p) && json_text(
            payload_body(p),
        ) && payload_bytes(p).len() < 64 * 0xffff_ffffnat ==> r == Ok::<
            PayloadMessageView,
            Error,
        >(p)
}

impl EncryptedPayload {
    /// Decrypt the payload with `key`; the key id is the associated data
    pub fn decrypt(&self, key: &SymetricKey) -> (r: Result<PayloadMessage>)
        ensures
            decryption_outcome(key@, self@, payload_result_view(r)),
    {
        let aad = id_to_bytes(self.key_id);
        match xchacha_decrypt(key, &self.nonce, aad.as_slice(), self.ciphertext.as_slice()) {
            Some(bytes) => {
                proof {
                    assert forall|p: PayloadMessageView|
                        self.ciphertext@ == #[trigger] payload_ciphertext(
                            key@,
                            self.nonce@,
                            self.key_id,
                            p,
                        ) && payload_bytes(p).len() < 64 * 0xffff_ffffnat implies bytes@ == payload_bytes(p) by {}
                    assert forall|p: PayloadMessageView|
                        self.ciphertext@ == #[trigger] payload_ciphertext(
                            key@,
                            self.nonce@,
                            self.key_id,
                            p,
                        ) && json_text(payload_body(p)) && payload_bytes(p).len() < 64 * 0xffff_ffffnat implies parse_payload(bytes@) == Ok::<
                        PayloadMessageView,
                        Error,
                    >(p) by {
                        law_payload_roundtrip(p);
                    }
                }
                PayloadMessage::try_from_bytes(bytes.as_slice())
            },
            None => Err(Error::DecryptionError),
        }
    }

    /// Encrypt a chat message and return the resulting [`EncryptedPayload`]
    pub fn encrypt_chat(key_id: u128, nonce: Nonce, key: &SymetricKey, msg: Vec<u8>) -> (r: Result<
        Self,
    >)
        ensures
            encrypted_result_view(r) == spec_encrypt(
                key_id,
                nonce@,
                key@,
                PayloadMessageView::ChatMessage(msg@),
            ),
    {
        Self::encrypt(key_id, nonce, key, &PayloadMessage::ChatMessage(msg))
    }

    /// Encrypt an end-to-end control message and return the resulting [`EncryptedPayload`]
    pub fn encrypt_e2e(key_id: u128, nonce: Nonce, key: &SymetricKey, msg: Vec<u8>) -> (r: Result<
        Self,
    >)
        ensures
            encrypted_result_view(r) == spec_encrypt(
                key_id,
                nonce@,
                key@,
                PayloadMessageView::E2EMessage(msg@),
            ),
    {
        Self::encrypt(key_id, nonce, key, &PayloadMessage::E2EMessage(msg))
    }

    /// Encrypt a payload and return the resulting [`EncryptedPayload`]
    pub fn encrypt(key_id: u128, nonce: Nonce, key: &SymetricKey, payload: &PayloadMessage) -> (r:
        Result<Self>)
        ensures
            encrypted_result_view(r) == spec_encrypt(key_id, nonce@, key@, payload@),
    {
        let bytes = payload.to_bytes();
        let aad = id_to_bytes(key_id);
        match xchacha_encrypt(key, &nonce, aad.as_slice(), bytes.as_slice()) {
            Some(ciphertext) => Ok(Self { nonce, key_id, ciphertext }),
            None => Err(Error::DecryptionError),
        }
    }
}

/// What encrypting `payload` gives: the payload encrypted under the key and nonce, with
/// the key id as associated data, or a failure when it is too long
pub open spec fn spec_encrypt(
    key_id: u128,
    nonce: Seq<u8>,
    key: Seq<u8>,
    payload: PayloadMessageView,
) -> core::result::Result<EncryptedPayloadView, Error> {
    if payload_bytes(payload).len() < 64 * 0xffff_ffffnat {
        Ok(
            EncryptedPayloadView {
                nonce,
                key_id,
                ciphertext: payload_ciphertext(key, nonce, key_id, payload),
            },
        )
    } else {
        Err(Error::DecryptionError)
    }
}

/// The view of the result of an encryption
pub open spec fn encrypted_result_view(r: Result<EncryptedPayload>) -> core::result::Result<
    EncryptedPayloadView,
    Error,
> {
    match r {
        Ok(e) => Ok(e@),
        Err(e) => Err(e),
    }
}

/// Decrypting what encryption produced, with the same key, gives the payload back, when its
/// message is a JSON text
pub proof fn law_decrypt_inverts_encrypt(
    key: Seq<u8>,
    nonce: Seq<u8>,
    key_id: u128,
    payload: PayloadMessageView,
    e: EncryptedPayloadView,
    r: core::result::Result<PayloadMessageView, Error>,
)
    requires
        spec_encrypt(key_id, nonce, key, payload) == Ok::<EncryptedPayloadView, Error>(e),
        json_text(payload_body(payload)),
        decryption_outcome(key, e, r),
    ensures
        r == Ok::<PayloadMessageView, Error>(payload),
{
}

// endregion: Encryption

} // verus!
