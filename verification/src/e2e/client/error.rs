//! E2E Client errors

use vstd::prelude::*;

use crate::e2e::{
    keys::storage_backend::KeyStorageError,
    message::{encrypted_payload, E2EMessage, ErrorCode},
    message_stream::MessageStreamError,
    peer::Peer,
};

verus! {

/// An E2E Client error
#[derive(Debug, Clone)]
pub enum Error {
    StorageBackendError(KeyStorageError),
    MessageStreamError(MessageStreamError),
    ProtocolError(ErrorCode),
    /// When the client receives an E2E message it did not except
    UnexpectedE2EMessage(E2EMessage),
    /// When a decrypted payload holds an E2E message where the client did not expect one:
    /// the message, still serialized
    UnexpectedE2EPayload(Vec<u8>),
    /// When the client can't find the requested prekey during key exchange
    NoSuchPrekey(u128),
    /// No session key with this id (second) for this user (first)
    NoSessionKey(u128, u128),
    EncryptedPayloadError(encrypted_payload::Error),
    /// When the requested user cannot be found on the server
    UserNotFound,
    NoSession(u128),
    /// When we try to open a session with a user that didn't upload keys on the server
    NoPrekeyAvailable,
    /// When there is an error sending the message on the worker channel
    WorkerSendError,
    /// When we can't receive a response because the receiving worker stopped
    ReceiveWorkerStopped,
    /// The fingerprint of the peer's keys differs from the known one: the known peer, and
    /// the new fingerprint
    FingerprintMismatch(Peer, Vec<u8>),
    /// When the operating system gives no randomness to seed the client's generator
    NoRandomness,
}

/// The result of a client operation
pub type Result<T> = core::result::Result<T, Error>;

/// The client error that an error code of the server stands for
pub open spec fn spec_error_of_code(code: ErrorCode) -> Error {
    match code {
        ErrorCode::UserNotFound => Error::UserNotFound,
        ErrorCode::NoAvailableKey => Error::NoPrekeyAvailable,
        _ => Error::ProtocolError(code),
    }
}

impl Error {
    /// The client error that an error code of the server stands for
    pub fn from_code(code: ErrorCode) -> (r: Self)
        ensures
            r == spec_error_of_code(code),
    {
        match code {
            ErrorCode::UserNotFound => Error::UserNotFound,
            ErrorCode::NoAvailableKey => Error::NoPrekeyAvailable,
            _ => Error::ProtocolError(code),
        }
    }
}

impl From<ErrorCode> for Error {
    fn from(code: ErrorCode) -> (r: Self) {
        Error::from_code(code)
    }
}

impl vstd::std_specs::convert::FromSpecImpl<ErrorCode> for Error {
    open spec fn obeys_from_spec() -> bool {
        true
    }

    open spec fn from_spec(code: ErrorCode) -> Error {
        spec_error_of_code(code)
    }
}

impl From<KeyStorageError> for Error {
    fn from(e: KeyStorageError) -> (r: Self) {
        Error::StorageBackendError(e)
    }
}

impl vstd::std_specs::convert::FromSpecImpl<KeyStorageError> for Error {
    open spec fn obeys_from_spec() -> bool {
        true
    }

    open spec fn from_spec(e: KeyStorageError) -> Error {
        Error::StorageBackendError(e)
    }
}

impl From<MessageStreamError> for Error {
    fn from(e: MessageStreamError) -> (r: Self) {
        Error::MessageStreamError(e)
    }
}

impl vstd::std_specs::convert::FromSpecImpl<MessageStreamError> for Error {
    open spec fn obeys_from_spec() -> bool {
        true
    }

    open spec fn from_spec(e: MessageStreamError) -> Error {
        Error::MessageStreamError(e)
    }
}

impl From<encrypted_payload::Error> for Error {
    fn from(e: encrypted_payload::Error) -> (r: Self) {
        Error::EncryptedPayloadError(e)
    }
}

impl vstd::std_specs::convert::FromSpecImpl<encrypted_payload::Error> for Error {
    open spec fn obeys_from_spec() -> bool {
        true
    }

    open spec fn from_spec(e: encrypted_payload::Error) -> Error {
        Error::EncryptedPayloadError(e)
    }
}

} // verus!
