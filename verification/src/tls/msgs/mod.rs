//! TLS Messages structs

pub mod certificate;
pub mod client_hello;
pub mod handshake;
pub mod server_hello;

use vstd::prelude::*;

use crate::{
    bytes::{bytes_to_vec, extend_bytes},
    tls::{
        codec::{be_bytes, Encode},
        enums::{ContentType, ContentTypeName},
        error::InvalidMessage,
        msgs::{
            client_hello::ClientHello,
            handshake::{Handshake, HandshakeView},
        },
        reader::Reader,
    },
};

verus! {

/// A message carried by a TLS record
#[derive(Debug)]
pub enum Message {
    ChangeCipherSpec,
    Alert,
    Handshake {
        decoded: Handshake,
        /// Raw handshake payload, used for the transcript hash
        raw_bytes: Vec<u8>,
    },
    /// Handshake bytes that might contain zero, one or multiple handshake messages
    ///
    /// This is what we decode when we get a record with a handshake content type, as we
    /// might still need to defragment the content.
    HandshakeData(Vec<u8>),
    ApplicationData(Vec<u8>),
}

/// The contents of a [`Message`]
pub enum MessageView {
    ChangeCipherSpec,
    Alert,
    Handshake(HandshakeView, Seq<u8>),
    HandshakeData(Seq<u8>),
    ApplicationData(Seq<u8>),
}

impl View for Message {
    type V = MessageView;

    open spec fn view(&self) -> MessageView {
        match self {
            Message::ChangeCipherSpec => MessageView::ChangeCipherSpec,
            Message::Alert => MessageView::Alert,
            Message::Handshake { decoded, raw_bytes } => MessageView::Handshake(
                decoded@,
                raw_bytes@,
            ),
            Message::HandshakeData(b) => MessageView::HandshakeData(b@),
            Message::ApplicationData(b) => MessageView::ApplicationData(b@),
        }
    }
}

/// Decoding the payload `s` of a record of content type `typ`
pub open spec fn parse_message(s: Seq<u8>, typ: ContentType) -> Result<MessageView, InvalidMessage> {
    match typ.spec_name() {
        None => Err(InvalidMessage::InvalidContentType),
        Some(ContentTypeName::ChangeCipherSpec) => if s.len() == 0 {
            Err(InvalidMessage::TooShortFor("ccs"))
        } else if s[0] != 0x01 {
            Err(InvalidMessage::InvalidChangeCipherSpec)
        } else {
            Ok(MessageView::ChangeCipherSpec)
        },
        Some(ContentTypeName::Alert) => Ok(MessageView::Alert),
        Some(ContentTypeName::Handshake) => Ok(MessageView::HandshakeData(s)),
        Some(ContentTypeName::ApplicationData) => Ok(MessageView::ApplicationData(s)),
        Some(ContentTypeName::Heartbeat) => Err(InvalidMessage::InvalidContentType),
    }
}

/// The handshake header and body of a Finished message holding `verify_data`
pub open spec fn finished_bytes(verify_data: Seq<u8>) -> Seq<u8> {
    seq![20u8] + be_bytes(verify_data.len(), 3) + verify_data
}

impl Message {
    /// A handshake message holding a ClientHello, with its encoding as raw bytes
    pub fn client_hello(hello: ClientHello) -> (r: Self)
        ensures
            r matches Message::Handshake { decoded, raw_bytes } && decoded
                == Handshake::ClientHello(hello) && raw_bytes@ == hello.encoding(),
    {
        let mut raw_bytes = Vec::new();
        hello.encode(&mut raw_bytes);
        assert(raw_bytes@ =~= hello.encoding());
        Message::Handshake { decoded: Handshake::ClientHello(hello), raw_bytes }
    }

    /// Create a Finished message with the given data
    ///
    /// Returns a [`Message::HandshakeData`] that can be used for the transcript hash
    pub fn finished(verify_data: Vec<u8>) -> (r: Self)
        ensures
            r matches Message::HandshakeData(b) && b@ == finished_bytes(verify_data@),
    {
        // directly encode as handshake data
        let mut bytes = Vec::new();
        let len = verify_data.len();
        // Handshake header: msg_type and length
        bytes.push(20);
        bytes.push(((len / 65536) % 256) as u8);
        bytes.push(((len / 256) % 256) as u8);
        bytes.push((len % 256) as u8);
        extend_bytes(&mut bytes, verify_data.as_slice());
        proof {
            let n = len as nat;
            reveal_with_fuel(be_bytes, 4);
            assert(n / 256 / 256 == n / 65536) by (nonlinear_arith);
            assert(bytes@ =~= finished_bytes(verify_data@));
        }
        Message::HandshakeData(bytes)
    }

    /// The content type of the record that carries this message
    pub open spec fn spec_content_type(&self) -> ContentTypeName {
        match self {
            Message::ChangeCipherSpec => ContentTypeName::ChangeCipherSpec,
            Message::Alert => ContentTypeName::Alert,
            Message::Handshake { .. } | Message::HandshakeData(..) => ContentTypeName::Handshake,
            Message::ApplicationData(..) => ContentTypeName::ApplicationData,
        }
    }

    /// Get the [`ContentTypeName`] of this message
    pub fn content_type(&self) -> (r: ContentTypeName)
        ensures
            r == self.spec_content_type(),
    {
        match self {
            Message::ChangeCipherSpec => ContentTypeName::ChangeCipherSpec,
            Message::Alert => ContentTypeName::Alert,
            Message::Handshake { .. } | Message::HandshakeData(..) => ContentTypeName::Handshake,
            Message::ApplicationData(..) => ContentTypeName::ApplicationData,
        }
    }

    /// The bytes a message is sent as
    pub open spec fn spec_encoding(&self) -> Seq<u8> {
        match self {
            Message::Handshake { raw_bytes, .. } => raw_bytes@,
            Message::ApplicationData(bytes) => bytes@,
            Message::HandshakeData(bytes) => bytes@,
            _ => seq![],
        }
    }

    /// Append the bytes of this message to `dest`.
    ///
    /// The encoding of ChangeCipherSpec and Alert messages is not written yet.
    pub fn encode(&self, dest: &mut Vec<u8>)
        requires
            !(self is ChangeCipherSpec),
            !(self is Alert),
        ensures
            final(dest)@ == old(dest)@ + self.spec_encoding(),
    {
        match self {
            Message::Handshake { raw_bytes, .. } => extend_bytes(dest, raw_bytes.as_slice()),
            Message::ApplicationData(bytes) => extend_bytes(dest, bytes.as_slice()),
            Message::HandshakeData(bytes) => extend_bytes(dest, bytes.as_slice()),
            _ => {},
        }
    }

    /// Decode the payload of a record of content type `typ`
    ///
    /// Handshake payloads are not defragmented here: they come back as
    /// [`Message::HandshakeData`].
    pub fn decode(reader: &mut Reader, typ: ContentType) -> (r: Result<Self, InvalidMessage>)
        ensures
            match parse_message(old(reader)@, typ) {
                Ok(v) => r matches Ok(m) && m@ == v,
                Err(e) => r matches Err(e2) && e2 == e,
            },
            // a change_cipher_spec takes its byte, handshake and application data take it
            // all, and nothing else is read
            final(reader)@ == if typ.0 == 20 && old(reader)@.len() >= 1 {
                old(reader)@.skip(1)
            } else if typ.0 == 22 || typ.0 == 23 {
                Seq::<u8>::empty()
            } else {
                old(reader)@
            },
    {
        let name = match typ.name() {
            Some(n) => n,
            None => return Err(InvalidMessage::InvalidContentType),
        };
        match name {
            ContentTypeName::ChangeCipherSpec => {
                if reader.take_byte_for("ccs")? != 0x01 {
                    Err(InvalidMessage::InvalidChangeCipherSpec)
                } else {
                    Ok(Message::ChangeCipherSpec)
                }
            },
            ContentTypeName::Alert => Ok(Message::Alert),
            ContentTypeName::Handshake => Ok(Message::HandshakeData(bytes_to_vec(reader.take_all()))),
            ContentTypeName::ApplicationData => Ok(
                Message::ApplicationData(bytes_to_vec(reader.take_all())),
            ),
            ContentTypeName::Heartbeat => Err(InvalidMessage::InvalidContentType),
        }
    }

    /// The length of the encoding of this message, when known beforehand
    pub fn encoded_length_hint(&self) -> (r: Option<usize>)
        ensures
            r == match self {
                Message::ChangeCipherSpec => Some(1usize),
                Message::Alert => Some(2usize),
                Message::Handshake { raw_bytes, .. } => if raw_bytes@.len() == 0 {
                    None
                } else {
                    Some(raw_bytes@.len() as usize)
                },
                Message::HandshakeData(bytes) | Message::ApplicationData(bytes) => Some(
                    bytes@.len() as usize,
                ),
            },
    {
        match self {
            Message::ChangeCipherSpec => Some(1),
            // the size of an alert: level and description
            Message::Alert => Some(2),
            Message::Handshake { raw_bytes, .. } => {
                if raw_bytes.len() == 0 {
                    None
                } else {
                    Some(raw_bytes.len())
                }
            },
            Message::HandshakeData(bytes) | Message::ApplicationData(bytes) => Some(bytes.len()),
        }
    }
}

} // verus!
