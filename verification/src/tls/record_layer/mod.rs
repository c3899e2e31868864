//! The record layer (RFC 8446, section 5): the framing of records, and the reassembly of
//! the handshake messages they carry

pub mod handshake_deframer;

use vstd::prelude::*;

use crate::{
    bytes::bytes_to_vec,
    tls::{
        codec::be2,
        enums::{ContentType, ProtocolVersion},
        error::InvalidMessage,
    },
};

verus! {

/// The largest fragment a TLSCiphertext record can carry: 2^14 + 256 bytes
pub const CIPHERTEXT_FRAGMENT_MAX_LEN: u16 = 16640;

/// The length of a record header: type, legacy version and length
pub const RECORD_HEADER_LEN: usize = 5;

/// A TLS record, whose payload is still encoded (and maybe encrypted)
#[derive(Debug, Clone)]
pub struct Record {
    pub typ: ContentType,
    pub version: ProtocolVersion,
    pub payload: Vec<u8>,
}

/// The contents of a [`Record`]
pub struct RecordView {
    pub typ: u8,
    pub version: u16,
    pub payload: Seq<u8>,
}

impl View for Record {
    type V = RecordView;

    open spec fn view(&self) -> RecordView {
        RecordView { typ: self.typ.0, version: self.version.0, payload: self.payload@ }
    }
}

/// The bytes of a record: its header (type, legacy version, payload length), then its payload
pub open spec fn record_bytes(typ: u8, version: u16, payload: Seq<u8>) -> Seq<u8> {
    seq![typ] + be2(version) + be2(payload.len() as u16) + payload
}

/// The length a record header announces
pub open spec fn announced_len(s: Seq<u8>) -> nat {
    (s[3] * 256 + s[4]) as nat
}

/// The next record at the start of `s`, with the number of bytes it takes; `None` when
/// `s` does not hold a whole record yet
pub open spec fn parse_record(s: Seq<u8>) -> Result<Option<(RecordView, nat)>, InvalidMessage> {
    if s.len() < 5 {
        Ok(None)
    } else if announced_len(s) > CIPHERTEXT_FRAGMENT_MAX_LEN {
        Err(InvalidMessage::RecordOverflow)
    } else if s.len() < 5 + announced_len(s) {
        Ok(None)
    } else {
        Ok(
            Some(
                (
                    RecordView {
                        typ: s[0],
                        version: (s[1] * 256 + s[2]) as u16,
                        payload: s.subrange(5, 5 + announced_len(s) as int),
                    },
                    5 + announced_len(s),
                ),
            ),
        )
    }
}

/// Read the next record at the start of `buf`: the record and the number of bytes it takes,
/// `None` when `buf` does not hold a whole record yet, or [`InvalidMessage::RecordOverflow`]
/// when the header announces a fragment longer than a record can carry
pub fn next_record(buf: &[u8]) -> (r: Result<Option<(Record, usize)>, InvalidMessage>)
    ensures
        match parse_record(buf@) {
            Ok(None) => r matches Ok(None),
            Ok(Some((v, n))) => r matches Ok(Some((rec, m))) && rec@ == v && m == n,
            Err(e) => r matches Err(e2) && e2 == e,
        },
{
    if buf.len() < RECORD_HEADER_LEN {
        return Ok(None);
    }
    let len: usize = (buf[3] as usize) * 256 + (buf[4] as usize);
    if len > CIPHERTEXT_FRAGMENT_MAX_LEN as usize {
        return Err(InvalidMessage::RecordOverflow);
    }
    if buf.len() < RECORD_HEADER_LEN + len {
        return Ok(None);
    }
    let typ = ContentType(buf[0]);
    let version = ProtocolVersion((buf[1] as u16) * 256 + (buf[2] as u16));
    let payload = bytes_to_vec(&buf[5..5 + len]);
    Ok(Some((Record { typ, version, payload }, 5 + len)))
}

/// Reading the bytes of a record gives the record back, whatever follows it
pub proof fn law_record_roundtrip(typ: u8, version: u16, payload: Seq<u8>, rest: Seq<u8>)
    requires
        payload.len() <= CIPHERTEXT_FRAGMENT_MAX_LEN,
    ensures
        parse_record(record_bytes(typ, version, payload) + rest) == Ok::<
            Option<(RecordView, nat)>,
            InvalidMessage,
        >(Some((RecordView { typ, version, payload }, 5 + payload.len()))),
{
    let s = record_bytes(typ, version, payload) + rest;
    let l = payload.len() as u16;
    assert(s[3] == (l / 256) as u8 && s[4] == (l % 256) as u8);
    assert(announced_len(s) == payload.len());
    assert(s.subrange(5, 5 + payload.len() as int) =~= payload);
    assert(s[1] == (version / 256) as u8 && s[2] == (version % 256) as u8);
}

} // verus!
