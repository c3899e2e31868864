//! The messages of the end-to-end protocol
//!
//! Their serialized form is JSON; the serialization itself happens at the edge of the
//! library, and the binary fields are carried in base64 (see [`serde`]).

pub mod encrypted_payload;
pub mod serde;

use vstd::prelude::*;
use vstd::utf8::encode_utf8;

use crate::{
    e2e::keys::{EphemeralSecretKey, IdentityKeyPair, PublicIdentityKeys},
    e2e::message::encrypted_payload::EncryptedPayload,
    primitives::{ed25519_signature, x25519_public, x25519_public_key},
};

verus! {

// region:    Struct definition

/// The number of bytes in a XChaCha20Poly1305 Nonce
pub const NONCE_BYTES: usize = 24;

/// A nonce that can be used with XChaCha20Poly1305
pub type Nonce = [u8; 24];

/// An error reported by the other party
#[derive(Debug, Clone, Copy, PartialEq, Eq, Structural)]
pub enum ErrorCode {
    /// Invalid message format
    ///
    /// Usually terminates the connection.
    InvalidMessage,
    /// Message understood but not accepted by the other party
    ///
    /// May terminate the connection
    MessageTypeNotAccepted,
    /// Missing or invalid token, or invalid challenge response
    ///
    /// Keeps the connection open, but the clients needs to renew
    /// authentication
    InvalidAuthentication,
    /// Username already taken
    UsernameUnavailable,
    /// Username or user id not found
    UserNotFound,
    /// Prekey storage limit reached
    PreKeyLimit,
    /// No prekey available for the requested user
    NoAvailableKey,
    /// Internal server error
    InternalError,
}

impl ErrorCode {
    /// The number that stands for each code
    pub open spec fn spec_code(self) -> u8 {
        match self {
            ErrorCode::InvalidMessage => 0,
            ErrorCode::MessageTypeNotAccepted => 1,
            ErrorCode::InvalidAuthentication => 2,
            ErrorCode::UsernameUnavailable => 10,
            ErrorCode::UserNotFound => 11,
            ErrorCode::PreKeyLimit => 20,
            ErrorCode::NoAvailableKey => 21,
            ErrorCode::InternalError => 255,
        }
    }

    /// The number of this code
    pub fn code(&self) -> (r: u8)
        ensures
            r == self.spec_code(),
    {
        match self {
            ErrorCode::InvalidMessage => 0,
            ErrorCode::MessageTypeNotAccepted => 1,
            ErrorCode::InvalidAuthentication => 2,
            ErrorCode::UsernameUnavailable => 10,
            ErrorCode::UserNotFound => 11,
            ErrorCode::PreKeyLimit => 20,
            ErrorCode::NoAvailableKey => 21,
            ErrorCode::InternalError => 255,
        }
    }

    /// The code of a number, if it stands for one
    pub fn from_code(code: u8) -> (r: Option<Self>)
        ensures
            r matches Some(c) ==> c.spec_code() == code,
            r is None ==> forall|c: ErrorCode| c.spec_code() != code,
    {
        match code {
            0 => Some(ErrorCode::InvalidMessage),
            1 => Some(ErrorCode::MessageTypeNotAccepted),
            2 => Some(ErrorCode::InvalidAuthentication),
            10 => Some(ErrorCode::UsernameUnavailable),
            11 => Some(ErrorCode::UserNotFound),
            20 => Some(ErrorCode::PreKeyLimit),
            21 => Some(ErrorCode::NoAvailableKey),
            255 => Some(ErrorCode::InternalError),
            _ => None,
        }
    }

    /// The words that describe each code
    pub open spec fn spec_description(self) -> Seq<char> {
        match self {
            ErrorCode::InvalidMessage => "Invalid message format"@,
            ErrorCode::MessageTypeNotAccepted => "Message type not accepted"@,
            ErrorCode::InvalidAuthentication => "Invalid authentication"@,
            ErrorCode::UsernameUnavailable => "Username already taken"@,
            ErrorCode::UserNotFound => "User not found"@,
            ErrorCode::PreKeyLimit => "Prekey storage limit reached"@,
            ErrorCode::NoAvailableKey => "No available prekey"@,
            ErrorCode::InternalError => "Internal server error"@,
        }
    }

    /// The description of the error
    pub fn description(&self) -> (r: &'static str)
        ensures
            r@ == self.spec_description(),
    {
        match self {
            ErrorCode::InvalidMessage => "Invalid message format",
            ErrorCode::MessageTypeNotAccepted => "Message type not accepted",
            ErrorCode::InvalidAuthentication => "Invalid authentication",
            ErrorCode::UsernameUnavailable => "Username already taken",
            ErrorCode::UserNotFound => "User not found",
            ErrorCode::PreKeyLimit => "Prekey storage limit reached",
            ErrorCode::NoAvailableKey => "No available prekey",
            ErrorCode::InternalError => "Internal server error",
        }
    }
}

/// A Prekey bundle that can be used to open a conversation
#[derive(Debug, Clone, Copy)]
pub struct PreKeyBundle {
    /// Public identity key of the correspondant
    pub identity_keys: PublicIdentityKeys,
    /// Signed mid-term prekey of the correspondant
    pub midterm_prekey: [u8; 32],
    /// Mid-term prekey signature
    pub midterm_prekey_signature: [u8; 64],
    /// Optional ephemeral prekey
    pub ephemeral_prekey: Option<EphemeralKey>,
}

/// A public ephemeral prekey with its id
#[derive(Debug, Clone, Copy)]
pub struct EphemeralKey {
    /// Id of the ephemeral prekey
    pub id: u128,
    /// Public ephemeral prekey
    pub key: [u8; 32],
}

impl EphemeralKey {
    /// The public key of an ephemeral secret key, under the same id
    pub fn from_secret(key: &EphemeralSecretKey) -> (r: Self)
        ensures
            r.id == key.id,
            r.key@ == x25519_public(key.secret@),
    {
        EphemeralKey { id: key.id, key: x25519_public_key(&key.secret) }
    }
}

/// A mid-term prekey signed with the identity key
#[derive(Debug, Clone, Copy)]
pub struct SignedPreKey {
    /// Public prekey
    pub key: [u8; 32],
    /// Signature of the public prekey with the identity key
    pub signature: [u8; 64],
}

/// Key exchange information sent in initial conversation messages
#[derive(Debug, Clone)]
pub struct KeyExchangeData {
    /// Public identity key of the sender
    ///
    /// Used in extended Diffie-Hellman key exchange.
    pub identity_key: PublicIdentityKeys,
    /// Ephemeral public prekey of the sender
    ///
    /// Used in extended Diffie-Hellman key exchange.
    pub ephemeral_prekey: [u8; 32],
    /// Ephemeral prekey id of the recipient key used, if any
    pub recipient_prekey_id: Option<u128>,
    /// Initial sending key id of the sender
    pub send_key_id: u128,
    /// Initial receiving key id of the sender
    pub receive_key_id: u128,
    /// Initial message ciphertext
    pub msg_ciphertext: EncryptedPayload,
}

/// Message ciphertext and associated Nonce to decrypt it
#[derive(Debug, Clone)]
pub struct ChatMessageCiphertext {
    /// Nonce used for message encryption
    pub nonce: Vec<u8>,
    /// Message ciphertext
    pub msg: Vec<u8>,
}

/// E2E Message type
#[derive(Debug, Clone)]
pub enum E2EMessage {
    // Client messages
    /// PreKey bundle used to open a new conversation
    PreKeyBundle(PreKeyBundle),
    /// Initial message with key negotiation
    ConversationOpen {
        /// Id of the sender
        sender_id: u128,
        data: KeyExchangeData,
    },
    /// Generic message in an open conversation
    ConversationMessage {
        /// Id of the sender
        sender_id: u128,
        msg_ciphertext: EncryptedPayload,
    },
    /// Message sent on key rotation
    KeyRotation {
        /// Nonce used to derive the new key
        nonce: Vec<u8>,
        /// Id of the derived key
        key_id: u128,
        /// The message encrypted with the previous key, if any
        message: Option<EncryptedPayload>,
        /// Optional random padding
        padding: Option<String>,
    },
    /// Profile of a user
    ///
    /// Response from [`E2EMessage::UserProfileByUsername`] and [`E2EMessage::UserProfileById`]
    UserProfile {
        /// Id of the user
        id: u128,
        username: String,
    },
    // Server messages
    // Auth
    /// Account creation message
    CreateAccount {
        identity_key: PublicIdentityKeys,
        username: String,
        /// Signature of the username with the identity key
        signature: Vec<u8>,
    },
    /// Message with an authentication token
    ///
    /// Sent in response to [`E2EMessage::CreateAccount`] or challenge-response authentication
    AuthToken {
        /// Id of the user the token was delivered to
        id: u128,
        /// Authentication token
        token: String,
    },
    /// Request an authentication challenge to the server
    AuthChallengeRequest {
        /// Username of the user requesting the authentication
        username: String,
    },
    /// Authentication challenge sent by the server
    ///
    /// The client should reply with a signature of `SHA512(chall) || username`  with
    /// its identity key pair
    AuthChallenge {
        /// The challenge Nonce to sign
        chall: Vec<u8>,
    },
    /// Signature response to the server [`E2EMessage::AuthChallenge`]
    AuthChallengeSolve {
        /// Original challenge
        chall: Vec<u8>,
        /// Signature of `SHA512(chall) || username` with the identity key
        solve: Vec<u8>,
    },
    // Key management
    /// Upload mid-term and ephemeral pre-keys to the server
    PreKeyUpload {
        /// Authentication token
        token: String,
        /// Replace all old keys with new ones if true
        ///
        /// Does not delete the signed prekey if no other one is given.
        replace: bool,
        /// Optional signed prekey
        signed_prekey: Option<SignedPreKey>,
        ephemeral_prekeys: Vec<EphemeralKey>,
    },
    /// Delete ephemeral prekeys from the server
    PreKeyDelete {
        /// Authentication token
        token: String,
        /// Ids of the keys to delete
        keys: Vec<u128>,
    },
    /// Get the status of the uploaded prekeys on the server
    PreKeyStatusRequest {
        /// Authentication token
        token: String,
    },
    /// Status of uploaded prekeys
    ///
    /// Sent in response to [`E2EMessage::PreKeyStatusRequest`]
    PreKeyStatus {
        /// Number of uploaded keys
        count: u64,
        /// Maximum number of uploadable keys
        limit: u64,
        /// Ids of available keys on the server
        keys: Vec<u128>,
    },
    /// Request a [`PreKeyBundle`] for a user to start a conversation
    PreKeyBundleRequest {
        /// Authentication token
        token: String,
        /// Id of the other user
        id: u128,
    },
    // Profile
    /// Get a user profile by username
    UserProfileByUsername {
        /// Authentication token
        token: String,
        username: String,
    },
    /// Get a user profile by id
    UserProfileById {
        /// Authentication token
        token: String,
        id: u128,
    },
    // Messages
    /// Send an initial message to open a conversation
    SendInitialMessage {
        /// Authentication token
        token: String,
        /// Id of the recipient
        recipient_id: u128,
        data: KeyExchangeData,
    },
    /// Send a message to a conversation
    SendMessage {
        /// Authentication token
        token: String,
        /// Id of the recipient
        recipient_id: u128,
        msg_ciphertext: EncryptedPayload,
    },
    /// Get initial messages stored on the server
    GetInitialMessages {
        /// Authentication token
        token: String,
        /// Maximum number of messages to get
        limit: u64,
    },
    /// Get conversation messages stored on the server
    GetMessages {
        /// Authentication token
        token: String,
        /// Maximum number of messages to get
        limit: u64,
    },
    /// List of messages sent back by the server
    MessagesList {
        /// List of messages sent back by the server, each in its serialized form
        messages: Vec<Vec<u8>>,
    },
    // Instant relay
    EnableInstantRelay {
        /// Authentication token
        token: String,
    },
    DisableInstantRelay,
    /// Acknowledgement of a request
    Okay,
    // Errors
    Error { code: ErrorCode },
}

/// A message with the id of the request it belongs to; `0` for a message that belongs to
/// no request
#[derive(Debug, Clone)]
pub struct E2EPacket {
    pub request_id: u16,
    pub message: E2EMessage,
}

impl E2EPacket {
    /// A packet that belongs to no request
    pub fn untagged(message: E2EMessage) -> (r: Self)
        ensures
            r.request_id == 0,
            r.message == message,
    {
        E2EPacket { request_id: 0, message }
    }
}

// endregion: Struct definition

// region:    Constructors

impl E2EMessage {
    /// Whether the message has a field for an authentication token
    pub open spec fn has_token(self) -> bool {
        match self {
            E2EMessage::PreKeyUpload { .. }
            | E2EMessage::PreKeyDelete { .. }
            | E2EMessage::PreKeyStatusRequest { .. }
            | E2EMessage::PreKeyBundleRequest { .. }
            | E2EMessage::UserProfileByUsername { .. }
            | E2EMessage::UserProfileById { .. }
            | E2EMessage::SendInitialMessage { .. }
            | E2EMessage::SendMessage { .. }
            | E2EMessage::GetInitialMessages { .. }
            | E2EMessage::GetMessages { .. }
            | E2EMessage::EnableInstantRelay { .. } => true,
            _ => false,
        }
    }

    /// The authentication token of a message that has one
    pub open spec fn token(self) -> String
        recommends
            self.has_token(),
    {
        match self {
            E2EMessage::PreKeyUpload { token, .. } => token,
            E2EMessage::PreKeyDelete { token, .. } => token,
            E2EMessage::PreKeyStatusRequest { token } => token,
            E2EMessage::PreKeyBundleRequest { token, .. } => token,
            E2EMessage::UserProfileByUsername { token, .. } => token,
            E2EMessage::UserProfileById { token, .. } => token,
            E2EMessage::SendInitialMessage { token, .. } => token,
            E2EMessage::SendMessage { token, .. } => token,
            E2EMessage::GetInitialMessages { token, .. } => token,
            E2EMessage::GetMessages { token, .. } => token,
            E2EMessage::EnableInstantRelay { token } => token,
            _ => arbitrary(),
        }
    }

    /// The message with its authentication token replaced by `t`, when it has one
    pub open spec fn with_token(self, t: String) -> E2EMessage {
        match self {
            E2EMessage::PreKeyUpload { token, replace, signed_prekey, ephemeral_prekeys } =>
                E2EMessage::PreKeyUpload { token: t, replace, signed_prekey, ephemeral_prekeys },
            E2EMessage::PreKeyDelete { token, keys } => E2EMessage::PreKeyDelete { token: t, keys },
            E2EMessage::PreKeyStatusRequest { token } => E2EMessage::PreKeyStatusRequest { token: t },
            E2EMessage::PreKeyBundleRequest { token, id } => E2EMessage::PreKeyBundleRequest {
                token: t,
                id,
            },
            E2EMessage::UserProfileByUsername { token, username } =>
                E2EMessage::UserProfileByUsername { token: t, username },
            E2EMessage::UserProfileById { token, id } => E2EMessage::UserProfileById {
                token: t,
                id,
            },
            E2EMessage::SendInitialMessage { token, recipient_id, data } =>
                E2EMessage::SendInitialMessage { token: t, recipient_id, data },
            E2EMessage::SendMessage { token, recipient_id, msg_ciphertext } =>
                E2EMessage::SendMessage { token: t, recipient_id, msg_ciphertext },
            E2EMessage::GetInitialMessages { token, limit } => E2EMessage::GetInitialMessages {
                token: t,
                limit,
            },
            E2EMessage::GetMessages { token, limit } => E2EMessage::GetMessages {
                token: t,
                limit,
            },
            E2EMessage::EnableInstantRelay { token } => E2EMessage::EnableInstantRelay { token: t },
            m => m,
        }
    }

    /// Create an account: the public identity keys, the username, and the signature of the
    /// username with the identity key
    pub fn create_account(identity_keys: &IdentityKeyPair, username: String) -> (r: Self)
        ensures
            r matches E2EMessage::CreateAccount { identity_key, username: u, signature } && identity_key
                == identity_keys.spec_public_keys() && u@ == username@ && signature@
                == ed25519_signature(identity_keys.ed25519_secret@, encode_utf8(username@)),
    {
        let username_sig = identity_keys.sign(username.as_str().as_bytes());
        E2EMessage::CreateAccount {
            identity_key: identity_keys.public_keys(),
            username,
            signature: crate::bytes::bytes_to_vec(username_sig.as_slice()),
        }
    }

    /// Set the authentication token in the message, if there is a field for it.
    pub fn set_token(&mut self, new_token: String)
        ensures
            *final(self) == old(self).with_token(new_token),
    {
        match self {
            E2EMessage::PreKeyUpload { token, .. } => *token = new_token,
            E2EMessage::PreKeyDelete { token, .. } => *token = new_token,
            E2EMessage::PreKeyStatusRequest { token } => *token = new_token,
            E2EMessage::PreKeyBundleRequest { token, .. } => *token = new_token,
            E2EMessage::UserProfileByUsername { token, .. } => *token = new_token,
            E2EMessage::UserProfileById { token, .. } => *token = new_token,
            E2EMessage::SendInitialMessage { token, .. } => *token = new_token,
            E2EMessage::SendMessage { token, .. } => *token = new_token,
            E2EMessage::GetInitialMessages { token, .. } => *token = new_token,
            E2EMessage::GetMessages { token, .. } => *token = new_token,
            E2EMessage::EnableInstantRelay { token } => *token = new_token,
            _ => (),
        }
    }
}

/// Setting a token gives a message with that token, when the message has a token field,
/// and leaves any other message unchanged
pub proof fn law_set_token(m: E2EMessage, t: String)
    ensures
        m.has_token() ==> m.with_token(t).has_token() && m.with_token(t).token() == t,
        !m.has_token() ==> m.with_token(t) == m,
{
}

// endregion: Constructors

} // verus!
