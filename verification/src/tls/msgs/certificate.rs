//! Certificate and CertificateVerify messages (RFC 8446, sections 4.4.2 and 4.4.3)
//!
//! We only support the X509 certificate type without extensions

use vstd::prelude::*;

use crate::{
    bytes::bytes_to_vec,
    tls::{
        codec::{Decode, U24},
        enums::{SignatureScheme, SignatureSchemeName},
        error::InvalidMessage,
        reader::Reader,
    },
};

verus! {

/// The Certificate message of the server: DER certificates
#[derive(Debug, Clone)]
pub struct CertificateMessage {
    /// The sever's certificate
    ///
    /// This is the first entry in the `certificate_list`
    pub server_cert: Vec<u8>,
    /// The certification chain to verify the server's certificate
    pub certification_path: Vec<Vec<u8>>,
}

/// The contents of a [`CertificateMessage`]
pub struct CertificateMessageView {
    pub server_cert: Seq<u8>,
    pub certification_path: Seq<Seq<u8>>,
}

impl View for CertificateMessage {
    type V = CertificateMessageView;

    open spec fn view(&self) -> CertificateMessageView {
        CertificateMessageView {
            server_cert: self.server_cert@,
            certification_path: self.certification_path@.map_values(|c: Vec<u8>| c@),
        }
    }
}

/// Decoding one CertificateEntry from `s`: the certificate and the bytes taken
pub open spec fn parse_cert_entry(s: Seq<u8>) -> Result<(Seq<u8>, nat), InvalidMessage> {
    match U24::parse(s) {
        Err(InvalidMessage::TooShortFor(_)) => Err(InvalidMessage::TooShortFor("cert_len")),
        Err(e) => Err(e),
        Ok((len, _)) => if s.len() < 3 + len.0 {
            Err(InvalidMessage::TooShortFor("cert"))
        } else {
            match u16::parse(s.skip(3 + len.0 as int)) {
                Err(e) => Err(e),
                Ok((exts_len, _)) => if exts_len != 0 {
                    // extensions should be empty
                    Err(InvalidMessage::UnsupportedExtension)
                } else {
                    Ok((s.subrange(3, 3 + len.0 as int), (3 + len.0 + 2) as nat))
                },
            }
        },
    }
}

/// Decoding CertificateEntries from `s` until it is used up
pub open spec fn parse_cert_chain(s: Seq<u8>) -> Result<Seq<Seq<u8>>, InvalidMessage>
    decreases s.len(),
{
    if s.len() == 0 {
        Ok(seq![])
    } else {
        match parse_cert_entry(s) {
            Err(e) => Err(e),
            Ok((c, n)) => if 0 < n <= s.len() {
                match parse_cert_chain(s.skip(n as int)) {
                    Err(e) => Err(e),
                    Ok(rest) => Ok(seq![c] + rest),
                }
            } else {
                Err(InvalidMessage::TooShort)
            },
        }
    }
}

/// Decoding a Certificate message from `s`: the message and the bytes taken
pub open spec fn parse_certificate_message(s: Seq<u8>) -> Result<
    (CertificateMessageView, nat),
    InvalidMessage,
> {
    match u8::parse(s) {
        Err(e) => Err(e),
        Ok((context_len, _)) => if context_len != 0 {
            // certificate_request_context should be empty for the server
            Err(InvalidMessage::IllegalParameter)
        } else {
            match U24::parse(s.skip(1)) {
                Err(e) => Err(e),
                Ok((list_len, _)) => if list_len.0 == 0 {
                    Err(InvalidMessage::EmptyCertificates)
                } else if s.len() < 4 + list_len.0 {
                    Err(InvalidMessage::TooShortFor("certificate_list"))
                } else {
                    let list = s.subrange(4, 4 + list_len.0 as int);
                    match parse_cert_entry(list) {
                        Err(e) => Err(e),
                        Ok((server_cert, n)) => match parse_cert_chain(list.skip(n as int)) {
                            Err(e) => Err(e),
                            Ok(path) => Ok(
                                (
                                    CertificateMessageView {
                                        server_cert,
                                        certification_path: path,
                                    },
                                    (4 + list_len.0) as nat,
                                ),
                            ),
                        },
                    }
                },
            }
        },
    }
}

/// Decode a CertificateEntry
///
/// Expects a X509 entry with no extension
pub fn decode_cert_entry(reader: &mut Reader) -> (r: Result<Vec<u8>, InvalidMessage>)
    ensures
        match parse_cert_entry(old(reader)@) {
            Ok((c, n)) => r matches Ok(v) && v@ == c && 5 <= n <= old(reader)@.len() && final(reader)@ == old(reader)@.skip(n as int),
            Err(e) => r matches Err(e2) && e2 == e,
        },
{
    let ghost s = reader@;
    let data_len = U24::decode_for("cert_len", reader)?.0 as usize;
    let cert = reader.take_for("cert", data_len)?;
    proof {
        assert(cert@ =~= s.subrange(3, 3 + data_len as int));
        assert(s.skip(3).skip(data_len as int) =~= s.skip(3 + data_len as int));
    }
    // extensions should be empty
    let exts_len = u16::decode(reader)?;
    if exts_len != 0 {
        return Err(InvalidMessage::UnsupportedExtension);
    }
    proof {
        assert(s.skip(3 + data_len as int).skip(2) =~= s.skip(3 + data_len as int + 2));
    }
    Ok(bytes_to_vec(cert))
}

impl CertificateMessage {
    /// Decode a Certificate message
    pub fn decode(reader: &mut Reader) -> (r: Result<Self, InvalidMessage>)
        ensures
            match parse_certificate_message(old(reader)@) {
                Ok((v, n)) => r matches Ok(m) && m@ == v && n <= old(reader)@.len() && final(reader)@ == old(reader)@.skip(n as int),
                Err(e) => r matches Err(e2) && e2 == e,
            },
    {
        let ghost s = reader@;
        // certificate_request_context should be empty for the server
        let context_len = u8::decode(reader)?;
        if context_len != 0 {
            return Err(InvalidMessage::IllegalParameter);
        }
        let certificate_list_len = U24::decode(reader)?.0 as usize;
        if certificate_list_len == 0 {
            return Err(InvalidMessage::EmptyCertificates);
        }
        proof {
            assert(s.skip(1).skip(3) =~= s.skip(4));
        }
        let payload = reader.take_for("certificate_list", certificate_list_len)?;
        proof {
            assert(payload@ =~= s.subrange(4, 4 + certificate_list_len as int));
            assert(s.skip(4).skip(certificate_list_len as int) =~= s.skip(
                4 + certificate_list_len as int,
            ));
        }
        let mut list_reader = Reader::new(payload);

        // decode the server certificate
        let server_cert = decode_cert_entry(&mut list_reader)?;

        // decode the certification chain
        let mut certification_path: Vec<Vec<u8>> = Vec::new();
        let ghost after_server = list_reader@;
        #[verifier::loop_isolation(false)]
        while !list_reader.is_empty()
            invariant
                parse_cert_chain(after_server) == match parse_cert_chain(list_reader@) {
                    Ok(rest) => Ok(certification_path@.map_values(|c: Vec<u8>| c@) + rest),
                    Err(e) => Err::<Seq<Seq<u8>>, InvalidMessage>(e),
                },
            decreases list_reader@.len(),
        {
            let ghost before = list_reader@;
            let ghost path_before = certification_path@.map_values(|c: Vec<u8>| c@);
            match decode_cert_entry(&mut list_reader) {
                Ok(cert) => {
                    certification_path.push(cert);
                    proof {
                        assert(certification_path@.map_values(|c: Vec<u8>| c@) =~= path_before
                            + seq![cert@]);
                        match parse_cert_chain(list_reader@) {
                            Ok(rest) => {
                                assert(path_before + (seq![cert@] + rest) =~= path_before + seq![
                                    cert@,
                                ] + rest);
                            },
                            Err(_) => {},
                        }
                    }
                },
                Err(e) => {
                    assert(parse_cert_chain(before) == Err::<Seq<Seq<u8>>, InvalidMessage>(e));
                    return Err(e);
                },
            }
        }
        assert(certification_path@.map_values(|c: Vec<u8>| c@) + seq![] =~= certification_path@.map_values(
            |c: Vec<u8>| c@,
        ));
        Ok(CertificateMessage { server_cert, certification_path })
    }
}

/// The CertificateVerify message of the server
#[derive(Debug, Clone)]
pub struct CertificateVerify {
    pub algorithm: SignatureSchemeName,
    pub signature: Vec<u8>,
}

/// Decoding a CertificateVerify message from `s`: the algorithm, the signature and the
/// bytes taken
pub open spec fn parse_certificate_verify(s: Seq<u8>) -> Result<
    (SignatureSchemeName, Seq<u8>, nat),
    InvalidMessage,
> {
    match SignatureScheme::parse(s) {
        Err(e) => Err(e),
        Ok((algorithm, _)) => match algorithm.spec_name() {
            None => Err(InvalidMessage::InvalidSignatureScheme),
            Some(name) => match u16::parse(s.skip(2)) {
                Err(e) => Err(e),
                Ok((sig_len, _)) => if s.len() < 4 + sig_len {
                    Err(InvalidMessage::TooShortFor("CertificateVerify"))
                } else {
                    Ok((name, s.subrange(4, 4 + sig_len as int), (4 + sig_len) as nat))
                },
            },
        },
    }
}

impl CertificateVerify {
    /// Decode a CertificateVerify message
    pub fn decode(buf: &mut Reader) -> (r: Result<Self, InvalidMessage>)
        ensures
            match parse_certificate_verify(old(buf)@) {
                Ok((a, sig, n)) => r matches Ok(m) && m.algorithm == a && m.signature@ == sig && n
                    <= old(buf)@.len() && final(buf)@ == old(buf)@.skip(n as int),
                Err(e) => r matches Err(e2) && e2 == e,
            },
    {
        let ghost s = buf@;
        let algorithm = SignatureScheme::decode(buf)?;
        let algorithm = match algorithm.name() {
            Some(a) => a,
            None => return Err(InvalidMessage::InvalidSignatureScheme),
        };
        let sig_length = u16::decode(buf)?;
        proof {
            assert(s.skip(2).skip(2) =~= s.skip(4));
        }
        let sig = buf.take_for("CertificateVerify", sig_length as usize)?;
        proof {
            assert(sig@ =~= s.subrange(4, 4 + sig_length as int));
            assert(s.skip(4).skip(sig_length as int) =~= s.skip(4 + sig_length as int));
        }
        Ok(CertificateVerify { algorithm, signature: bytes_to_vec(sig) })
    }
}

} // verus!
