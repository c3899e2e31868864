//! Raw JSON message stream
//!
//! Uses the following packet format :
//! ```text
//! 0     15                     ...
//! +-----+---------------------------+
//! | len | JSON Payload              |
//! +-----+---------------------------+
//! ```
//! where `len` is the length of the payload, as a big-endian 16-bit integer.

use vstd::prelude::*;
use vstd::string::StringExecFns;

use crate::{bytes::extend_bytes, e2e::message_stream::MessageStreamError, tls::codec::be2};

verus! {

/// Why a message could not go through a raw JSON stream
#[derive(Debug, Clone, Copy, PartialEq, Eq, Structural)]
pub enum Error {
    /// When an error happens during serialization/deserialization of the message
    SerializationError,
    /// When an error happens in the underlying IO stream
    IOError,
    /// When the json payload length cannot be represented on 16 bits
    PaylodTooLarge,
}

impl Error {
    /// The words that describe this error
    pub open spec fn spec_description(self) -> Seq<char> {
        match self {
            Error::SerializationError => "Serialization error"@,
            Error::IOError => "IO error"@,
            Error::PaylodTooLarge => "Payload too large"@,
        }
    }

    /// The stream error describing this error
    pub fn to_message_stream_error(&self) -> (r: MessageStreamError)
        ensures
            r.description@ == self.spec_description(),
    {
        match self {
            Error::SerializationError => MessageStreamError::new(
                String::from_str("Serialization error"),
            ),
            Error::IOError => MessageStreamError::new(String::from_str("IO error")),
            Error::PaylodTooLarge => MessageStreamError::new(String::from_str("Payload too large")),
        }
    }
}

/// The packet of a JSON payload: its length on two big-endian bytes, then the payload
pub open spec fn spec_frame(payload: Seq<u8>) -> Seq<u8> {
    be2(payload.len() as u16) + payload
}

/// The packet that carries a serialized message, or [`Error::PaylodTooLarge`] when the
/// payload is longer than a 16-bit length can say
pub fn frame(payload: &[u8]) -> (r: Result<Vec<u8>, Error>)
    ensures
        payload@.len() <= 0xffff ==> (r matches Ok(p) && p@ == spec_frame(payload@)),
        payload@.len() > 0xffff ==> r == Err::<Vec<u8>, Error>(Error::PaylodTooLarge),
{
    if payload.len() > 0xffff {
        return Err(Error::PaylodTooLarge);
    }
    let len = payload.len() as u16;
    let mut r: Vec<u8> = Vec::new();
    r.push((len / 256) as u8);
    r.push((len % 256) as u8);
    extend_bytes(&mut r, payload);
    assert(r@ =~= spec_frame(payload@));
    Ok(r)
}

/// The length of the payload that follows a two-byte header
pub fn payload_length(header: [u8; 2]) -> (r: u16)
    ensures
        r == header[0] * 256 + header[1],
{
    (header[0] as u16) * 256 + (header[1] as u16)
}

/// Reading the header of a packet gives the length of its payload
pub proof fn law_frame_length(payload: Seq<u8>)
    requires
        payload.len() <= 0xffff,
    ensures
        spec_frame(payload)[0] * 256 + spec_frame(payload)[1] == payload.len(),
        spec_frame(payload).subrange(2, spec_frame(payload).len() as int) == payload,
{
    assert(spec_frame(payload).subrange(2, spec_frame(payload).len() as int) =~= payload);
}

/// Reading a packet off a stream gives its payload back and leaves what follows it: the
/// header gives the length, and that many bytes after the header are the payload
pub proof fn law_frame_read_back(payload: Seq<u8>, rest: Seq<u8>)
    requires
        payload.len() <= 0xffff,
    ensures
        ({
            let stream = spec_frame(payload) + rest;
            let len = stream[0] * 256 + stream[1];
            &&& len == payload.len()
            &&& stream.subrange(2, 2 + len) == payload
            &&& stream.skip(2 + len) == rest
        }),
{
    law_frame_length(payload);
    let stream = spec_frame(payload) + rest;
    assert(stream.subrange(2, 2 + payload.len() as int) =~= payload);
    assert(stream.skip(2 + payload.len() as int) =~= rest);
}

} // verus!
