//! Handshake messages (RFC 8446, section 4)

use vstd::prelude::*;

use crate::{
    bytes::bytes_to_vec,
    tls::{
        codec::{Decode, U24},
        enums::{HandshakeType, HandshakeTypeName, SignatureSchemeName},
        error::InvalidMessage,
        msgs::{
            server_hello::{lemma_server_hello_no_selected_group, no_selected_group, ServerHelloView as ShView},
            certificate::{
                parse_certificate_message, parse_certificate_verify, CertificateMessage,
                CertificateMessageView, CertificateVerify,
            },
            client_hello::ClientHello,
            server_hello::{parse_server_hello, ServerHello, ServerHelloView},
        },
        reader::Reader,
    },
};

verus! {

/// The length of a SHA-256 hash, the hash of the only cipher suite we offer
pub const HASH_LENGTH: usize = 32;

/// A decoded handshake message
#[derive(Debug, Clone)]
pub enum Handshake {
    ClientHello(ClientHello),
    ServerHello(ServerHello),
    EncryptedExtensions,
    Certificate(CertificateMessage),
    CertificateVerify(CertificateVerify),
    Finished(Finished),
}

/// The contents of a [`Handshake`] as decoding gives them (a ClientHello is never decoded)
pub enum HandshakeView {
    /// A ClientHello, by the bytes of its body
    ClientHello(Seq<u8>),
    ServerHello(ServerHelloView),
    EncryptedExtensions,
    Certificate(CertificateMessageView),
    CertificateVerify(SignatureSchemeName, Seq<u8>),
    Finished(Seq<u8>),
}

impl View for Handshake {
    type V = HandshakeView;

    open spec fn view(&self) -> HandshakeView {
        match self {
            Handshake::ClientHello(h) => HandshakeView::ClientHello(h.body()),
            Handshake::ServerHello(h) => HandshakeView::ServerHello(h@),
            Handshake::EncryptedExtensions => HandshakeView::EncryptedExtensions,
            Handshake::Certificate(c) => HandshakeView::Certificate(c@),
            Handshake::CertificateVerify(c) => HandshakeView::CertificateVerify(
                c.algorithm,
                c.signature@,
            ),
            Handshake::Finished(f) => HandshakeView::Finished(f.verify_data@),
        }
    }
}

impl Handshake {
    /// The msg_type of a handshake message
    pub open spec fn spec_handshake_type(&self) -> HandshakeTypeName {
        match self {
            Handshake::ClientHello(_) => HandshakeTypeName::ClientHello,
            Handshake::ServerHello(_) => HandshakeTypeName::ServerHello,
            Handshake::EncryptedExtensions => HandshakeTypeName::EncryptedExtensions,
            Handshake::Certificate(..) => HandshakeTypeName::Certificate,
            Handshake::CertificateVerify(..) => HandshakeTypeName::CertificateVerify,
            Handshake::Finished(..) => HandshakeTypeName::Finished,
        }
    }

    /// Get the msg_type for this handshake
    pub fn handshake_type(&self) -> (r: HandshakeType)
        ensures
            r.0 == self.spec_handshake_type().spec_value(),
    {
        match self {
            Handshake::ClientHello(_) => HandshakeTypeName::ClientHello.value(),
            Handshake::ServerHello(_) => HandshakeTypeName::ServerHello.value(),
            Handshake::EncryptedExtensions => HandshakeTypeName::EncryptedExtensions.value(),
            Handshake::Certificate(..) => HandshakeTypeName::Certificate.value(),
            Handshake::CertificateVerify(..) => HandshakeTypeName::CertificateVerify.value(),
            Handshake::Finished(..) => HandshakeTypeName::Finished.value(),
        }
    }
}

/// Whether the handshake message type `t` is known but its decoding is not written yet
pub open spec fn is_unimplemented_handshake_type(t: u8) -> bool {
    t == 4 || t == 5 || t == 13 || t == 24 || t == 254
}

/// Whether `s` starts with a whole handshake message of a type whose decoding is not written
/// yet: NewSessionTicket, EndOfEarlyData, CertificateRequest, KeyUpdate or MessageHash
pub open spec fn starts_with_unimplemented_handshake(s: Seq<u8>) -> bool {
    &&& s.len() >= 4
    &&& s.len() >= 4 + (s[1] * 65536 + s[2] * 256 + s[3])
    &&& is_unimplemented_handshake_type(s[0])
}

/// Decoding a handshake message from `s`: the message and the bytes taken, or the error
pub open spec fn parse_handshake(s: Seq<u8>) -> Result<(HandshakeView, nat), InvalidMessage> {
    match HandshakeType::parse(s) {
        Err(e) => Err(e),
        Ok((t, _)) => match U24::parse(s.skip(1)) {
            Err(e) => Err(e),
            Ok((len, _)) => if s.len() < 4 + len.0 {
                Err(InvalidMessage::TooShortFor("handshake"))
            } else {
                let p = s.subrange(4, 4 + len.0 as int);
                let n = (4 + len.0) as nat;
                if t.0 == 1 {
                    // We shouldn't have to decrypt ClientHello messages
                    Err(InvalidMessage::UnexpectedMessage)
                } else if t.0 == 2 {
                    match parse_server_hello(p) {
                        Err(e) => Err(e),
                        Ok((h, _)) => Ok((HandshakeView::ServerHello(h), n)),
                    }
                } else if t.0 == 8 {
                    // We don't support any encrypted extensions, just check if its an empty list
                    match u16::parse(p) {
                        Err(e) => Err(e),
                        Ok((l, _)) => if l != 0 {
                            Err(InvalidMessage::UnsupportedExtension)
                        } else {
                            Ok((HandshakeView::EncryptedExtensions, n))
                        },
                    }
                } else if t.0 == 11 {
                    match parse_certificate_message(p) {
                        Err(e) => Err(e),
                        Ok((c, _)) => Ok((HandshakeView::Certificate(c), n)),
                    }
                } else if t.0 == 15 {
                    match parse_certificate_verify(p) {
                        Err(e) => Err(e),
                        Ok((a, sig, _)) => Ok((HandshakeView::CertificateVerify(a, sig), n)),
                    }
                } else if t.0 == 20 {
                    if p.len() < 32 {
                        Err(InvalidMessage::TooShortFor("Finished"))
                    } else {
                        Ok((HandshakeView::Finished(p.take(32)), n))
                    }
                } else {
                    Err(InvalidMessage::InvalidHandshakeType)
                }
            },
        },
    }
}

impl Handshake {
    /// Decode a handshake message
    pub fn decode(buf: &mut Reader) -> (r: Result<Self, InvalidMessage>)
        requires
            !starts_with_unimplemented_handshake(old(buf)@),
        ensures
            match parse_handshake(old(buf)@) {
                Ok((v, n)) => r matches Ok(h) && h@ == v && n <= old(buf)@.len() && final(buf)@
                    == old(buf)@.skip(n as int),
                Err(e) => r matches Err(e2) && e2 == e,
            },
    {
        let ghost s = buf@;
        // handshake_type
        let msg_type = HandshakeType::decode(buf)?;
        let length = U24::decode(buf)?;
        proof {
            assert(s.skip(1).skip(3) =~= s.skip(4));
        }
        // Try to take the payload length
        let payload = buf.take_for("handshake", length.0 as usize)?;
        proof {
            assert(payload@ =~= s.subrange(4, 4 + length.0 as int));
            assert(s.skip(4).skip(length.0 as int) =~= s.skip(4 + length.0 as int));
        }
        let mut inner = Reader::new(payload);
        let t = msg_type.0;
        if t == 1 {
            // We shouldn't have to decrypt ClientHello messages
            Err(InvalidMessage::UnexpectedMessage)
        } else if t == 2 {
            Ok(Handshake::ServerHello(ServerHello::decode(&mut inner)?))
        } else if t == 8 {
            // We don't support any encrypted extensions, just check if its an empty list
            let len = u16::decode(&mut inner)?;
            if len != 0 {
                return Err(InvalidMessage::UnsupportedExtension);
            }
            Ok(Handshake::EncryptedExtensions)
        } else if t == 11 {
            Ok(Handshake::Certificate(CertificateMessage::decode(&mut inner)?))
        } else if t == 15 {
            Ok(Handshake::CertificateVerify(CertificateVerify::decode(&mut inner)?))
        } else if t == 20 {
            Ok(Handshake::Finished(Finished::decode(&mut inner, HASH_LENGTH)?))
        } else {
            Err(InvalidMessage::InvalidHandshakeType)
        }
    }
}

/// The Finished message
#[derive(Debug, Clone)]
pub struct Finished {
    pub verify_data: Vec<u8>,
}

impl Finished {
    /// Decode a Finished message holding `hash_length` bytes of verify_data
    pub fn decode(buf: &mut Reader, hash_length: usize) -> (r: Result<Self, InvalidMessage>)
        ensures
            hash_length <= old(buf)@.len() ==> (r matches Ok(f) && f.verify_data@ == old(buf)@.take(hash_length as int) && final(buf)@ == old(buf)@.skip(hash_length as int)),
            hash_length > old(buf)@.len() ==> (r matches Err(e) && e
                == InvalidMessage::TooShortFor("Finished") && final(buf)@ == old(buf)@),
    {
        let data = buf.take_for("Finished", hash_length)?;
        Ok(Finished { verify_data: bytes_to_vec(data) })
    }
}

/// A decoded ServerHello, as opposed to a HelloRetryRequest, never holds the key share of
/// a HelloRetryRequest
pub proof fn lemma_parse_handshake_no_selected_group(s: Seq<u8>)
    ensures
        parse_handshake(s) matches Ok((HandshakeView::ServerHello(ShView::ServerHello(p)), _))
            ==> no_selected_group(p.extensions),
{
    if s.len() >= 4 {
        let len = (s[1] * 65536 + s[2] * 256 + s[3]) as int;
        if s.len() >= 4 + len {
            lemma_server_hello_no_selected_group(s.subrange(4, 4 + len));
        }
    }
}

} // verus!
