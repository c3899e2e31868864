//! Errors of the TLS client.

use vstd::prelude::*;

verus! {

/// Reasons why a message received from the peer is invalid.
#[derive(Debug, Clone, Copy, PartialEq, Eq)]
pub enum InvalidMessage {
    /// We received an unexpected message
    UnexpectedMessage,
    /// When the message was shorter than the expected length
    TooShort,
    /// When the message was too short to read the named field
    TooShortFor(&'static str),
    /// When the protocol version is not known
    UnknownProtocolVersion,
    /// When we don't support a protocol version
    UnsupportedProtocolVersion,
    /// When we don't support or recognise an extension
    UnsupportedExtension,
    /// When we don't support a named group
    UnsupportedNamedGroup,
    /// We received an unencrypted message while record protection was enabled
    UnencryptedMessage,
    /// When the content type is not known
    InvalidContentType,
    /// When the handshake type is invalid
    InvalidHandshakeType,
    /// When the cipher suite is invalid
    InvalidCipherSuite,
    /// When we receive an invalid named group
    InvalidNamedGroup,
    /// When we receive an unknown signature scheme
    InvalidSignatureScheme,
    /// When we receive a ChangeCipherSpec message with an invalid value
    InvalidChangeCipherSpec,
    /// When we receive a parameter with an invalid value
    IllegalParameter,
    /// When a record is too long
    RecordOverflow,
    /// When we are missing an extension in the handshake
    MissingExtension,
    /// When the server sends an empty certificate list
    EmptyCertificates,
    /// When we failed to decrypt a message
    BadMacError,
    /// When the server certificate cannot be decoded
    CertDecodeError,
    /// When the server certificate is not valid for this connection
    InvalidCertificate,
    /// When the CertificateVerify signature does not verify
    InvalidCertificateVerify,
    /// When the server Finished HMAC does not verify
    InvalidFinishedHmac,
    /// When a handshake message type is known but not supported yet
    UnsupportedHandshakeType,
}

/// Errors of the TLS client.
#[derive(Debug, Clone, Copy, PartialEq, Eq)]
pub enum Error {
    /// When we receive an invalid TLS message from the peer
    InvalidMessage(InvalidMessage),
    /// An I/O error, described by its kind
    IoError(u8),
    /// When we are trying to do something invalid for the state we are in
    InvalidState,
    /// When we got an error during the handshake and still try to use the connection
    UnfinishedHandshake,
    /// When we receive a HelloRetryRequest, which we don't support yet
    UnsupportedHelloRetryRequest,
    /// When the operating system gives no random bytes for the handshake
    NoRandomness,
}

impl Error {
    /// Wrap an [`InvalidMessage`] into an [`Error`].
    pub fn invalid(m: InvalidMessage) -> (r: Error)
        ensures
            r == Error::InvalidMessage(m),
    {
        Error::InvalidMessage(m)
    }
}

impl From<InvalidMessage> for Error {
    fn from(m: InvalidMessage) -> (r: Self) {
        Error::InvalidMessage(m)
    }
}

impl vstd::std_specs::convert::FromSpecImpl<InvalidMessage> for Error {
    open spec fn obeys_from_spec() -> bool {
        true
    }

    open spec fn from_spec(m: InvalidMessage) -> Error {
        Error::InvalidMessage(m)
    }
}

} // verus!
