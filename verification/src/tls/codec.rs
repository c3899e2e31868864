//! Encoding and decoding of the TLS presentation language (RFC 8446, section 3).

use vstd::prelude::*;

use crate::tls::{error::InvalidMessage, reader::Reader};

verus! {

/// The two big-endian bytes of a `u16`.
pub open spec fn be2(v: u16) -> Seq<u8> {
    seq![(v / 256) as u8, (v % 256) as u8]
}

/// The three low big-endian bytes of a `u32`.
pub open spec fn be3(v: u32) -> Seq<u8> {
    seq![((v / 65536) % 256) as u8, ((v / 256) % 256) as u8, (v % 256) as u8]
}

/// The `w` low bytes of `n`, big-endian first.
pub open spec fn be_bytes(n: nat, w: nat) -> Seq<u8>
    decreases w,
{
    if w == 0 {
        seq![]
    } else {
        be_bytes(n / 256, (w - 1) as nat).push((n % 256) as u8)
    }
}

/// A trait for encoding something
pub trait Encode: Sized {
    /// The bytes that encode `self`
    spec fn encoding(&self) -> Seq<u8>;

    /// Encode self by appending it to the `dest` buffer
    fn encode(&self, dest: &mut Vec<u8>)
        ensures
            final(dest)@ == old(dest)@ + self.encoding(),
    ;
}

/// A trait to decode something
pub trait Decode: Sized {
    /// What decoding gives on the bytes `s`: the value and the number of bytes it took,
    /// or the error.
    spec fn parse(s: Seq<u8>) -> Result<(Self, nat), InvalidMessage>;

    /// Decode self by reading from the provided `reader`
    fn decode(buf: &mut Reader) -> (r: Result<Self, InvalidMessage>)
        ensures
            match Self::parse(old(buf)@) {
                Ok((v, n)) => r == Ok::<Self, InvalidMessage>(v) && n <= old(buf)@.len()
                    && final(buf)@ == old(buf)@.skip(n as int),
                Err(e) => r == Err::<Self, InvalidMessage>(e),
            },
    ;

    /// Decode by reading the provided `reader`, mapping [`InvalidMessage::TooShortFor`] errors
    /// to the given name.
    fn decode_for(name: &'static str, buf: &mut Reader) -> (r: Result<Self, InvalidMessage>)
        ensures
            match Self::parse(old(buf)@) {
                Ok((v, n)) => r == Ok::<Self, InvalidMessage>(v) && n <= old(buf)@.len()
                    && final(buf)@ == old(buf)@.skip(n as int),
                Err(InvalidMessage::TooShortFor(_)) => r == Err::<Self, InvalidMessage>(
                    InvalidMessage::TooShortFor(name),
                ),
                Err(e) => r == Err::<Self, InvalidMessage>(e),
            },
    {
        match Self::decode(buf) {
            Ok(v) => Ok(v),
            Err(InvalidMessage::TooShortFor(_)) => Err(InvalidMessage::TooShortFor(name)),
            Err(e) => Err(e),
        }
    }
}

/// Append the two big-endian bytes of `v`
pub fn push_u16(dest: &mut Vec<u8>, v: u16)
    ensures
        final(dest)@ == old(dest)@ + be2(v),
{
    dest.push((v / 256) as u8);
    dest.push((v % 256) as u8);
}

impl Encode for u8 {
    open spec fn encoding(&self) -> Seq<u8> {
        seq![*self]
    }

    fn encode(&self, dest: &mut Vec<u8>) {
        dest.push(*self);
    }
}

impl Decode for u8 {
    open spec fn parse(s: Seq<u8>) -> Result<(u8, nat), InvalidMessage> {
        if s.len() >= 1 {
            Ok((s[0], 1))
        } else {
            Err(InvalidMessage::TooShortFor("u8"))
        }
    }

    fn decode(buf: &mut Reader) -> (r: Result<Self, InvalidMessage>) {
        match buf.take_byte() {
            Some(b) => Ok(b),
            None => Err(InvalidMessage::TooShortFor("u8")),
        }
    }
}

impl Encode for u16 {
    open spec fn encoding(&self) -> Seq<u8> {
        be2(*self)
    }

    fn encode(&self, dest: &mut Vec<u8>) {
        push_u16(dest, *self);
    }
}

impl Decode for u16 {
    open spec fn parse(s: Seq<u8>) -> Result<(u16, nat), InvalidMessage> {
        if s.len() >= 2 {
            Ok(((s[0] * 256 + s[1]) as u16, 2))
        } else {
            Err(InvalidMessage::TooShortFor("u16"))
        }
    }

    fn decode(buf: &mut Reader) -> (r: Result<Self, InvalidMessage>) {
        match buf.take(2) {
            Some(b) => Ok((b[0] as u16) * 256 + (b[1] as u16)),
            None => Err(InvalidMessage::TooShortFor("u16")),
        }
    }
}

/// A 24-bit unsigned integer, held in the low bits of a `u32`
#[derive(Debug, Clone, Copy, PartialEq, Eq)]
pub struct U24(pub u32);

impl Encode for U24 {
    open spec fn encoding(&self) -> Seq<u8> {
        be3(self.0)
    }

    fn encode(&self, dest: &mut Vec<u8>) {
        dest.push(((self.0 / 65536) % 256) as u8);
        dest.push(((self.0 / 256) % 256) as u8);
        dest.push((self.0 % 256) as u8);
    }
}

impl Decode for U24 {
    open spec fn parse(s: Seq<u8>) -> Result<(U24, nat), InvalidMessage> {
        if s.len() >= 3 {
            Ok((U24((s[0] * 65536 + s[1] * 256 + s[2]) as u32), 3))
        } else {
            Err(InvalidMessage::TooShortFor("u24"))
        }
    }

    fn decode(buf: &mut Reader) -> (r: Result<Self, InvalidMessage>) {
        match buf.take(3) {
            Some(b) => Ok(U24((b[0] as u32) * 65536 + (b[1] as u32) * 256 + (b[2] as u32))),
            None => Err(InvalidMessage::TooShortFor("u24")),
        }
    }
}

/// Represents the size of the length field for a length-prefixed vector
#[derive(Debug, Clone, Copy, PartialEq, Eq)]
pub enum LengthSize {
    U8,
    U16,
    U24,
}

impl LengthSize {
    /// The number of bytes of the length field
    pub open spec fn width(self) -> nat {
        match self {
            LengthSize::U8 => 1,
            LengthSize::U16 => 2,
            LengthSize::U24 => 3,
        }
    }
}

/// The concatenation of the encodings of `s`
pub open spec fn encode_all<T: Encode>(s: Seq<T>) -> Seq<u8>
    decreases s.len(),
{
    if s.len() == 0 {
        seq![]
    } else {
        encode_all(s.drop_last()) + s.last().encoding()
    }
}

/// Encode a length-prefixed vector with the given length field size
///
/// The length field holds the length of the encoded elements, truncated to its width.
pub fn encode_length_prefixed_vector<T: Encode>(
    dest: &mut Vec<u8>,
    length_size: LengthSize,
    elements: &[T],
)
    ensures
        final(dest)@ == old(dest)@ + be_bytes(encode_all(elements@).len(), length_size.width())
            + encode_all(elements@),
{
    let ghost d0 = dest@;
    // Keep some space for the length
    let start = dest.len();
    match length_size {
        LengthSize::U8 => {
            dest.push(0xff);
        },
        LengthSize::U16 => {
            dest.push(0xff);
            dest.push(0xff);
        },
        LengthSize::U24 => {
            dest.push(0xff);
            dest.push(0xff);
            dest.push(0xff);
        },
    }
    let header_end = dest.len();

    // Encode the vector
    let mut i: usize = 0;
    while i < elements.len()
        invariant
            0 <= i <= elements@.len(),
            start == d0.len(),
            header_end == start + length_size.width(),
            dest@.len() == header_end + encode_all(elements@.take(i as int)).len(),
            dest@.subrange(0, header_end as int) == d0 + Seq::new(
                length_size.width(),
                |k: int| 0xffu8,
            ),
            dest@.subrange(header_end as int, dest@.len() as int) == encode_all(
                elements@.take(i as int),
            ),
        decreases elements@.len() - i,
    {
        proof {
            lemma_encode_all_take_push(elements@, i as int);
            lemma_encode_all_prefix_len(elements@, i as int + 1);
        }
        let ghost before = dest@;
        elements[i].encode(dest);
        i = i + 1;
        proof {
            assert(dest@.subrange(0, header_end as int) == before.subrange(0, header_end as int));
            assert(dest@.subrange(header_end as int, dest@.len() as int) == before.subrange(
                header_end as int,
                before.len() as int,
            ) + elements@[i - 1].encoding());
        }
    }
    proof {
        assert(elements@.take(elements@.len() as int) == elements@);
    }

    // Update the length
    let len = dest.len() - header_end;
    let ghost body = dest@.subrange(header_end as int, dest@.len() as int);
    let ghost filled = dest@;
    proof {
        assert(filled == d0 + Seq::new(length_size.width(), |k: int| 0xffu8) + body) by {
            assert(filled =~= filled.subrange(0, header_end as int) + filled.subrange(
                header_end as int,
                filled.len() as int,
            ));
        }
    }
    let ghost n = len as nat;
    proof {
        reveal_with_fuel(be_bytes, 4);
        assert(n / 256 / 256 == n / 65536) by (nonlinear_arith);
    }
    match length_size {
        LengthSize::U8 => {
            dest.set(start, (len % 256) as u8);
            assert(dest@ =~= d0 + be_bytes(n, length_size.width()) + body);
        },
        LengthSize::U16 => {
            dest.set(start, ((len / 256) % 256) as u8);
            dest.set(start + 1, (len % 256) as u8);
            assert(dest@ =~= d0 + be_bytes(n, length_size.width()) + body);
        },
        LengthSize::U24 => {
            dest.set(start, ((len / 65536) % 256) as u8);
            dest.set(start + 1, ((len / 256) % 256) as u8);
            dest.set(start + 2, (len % 256) as u8);
            assert(dest@ =~= d0 + be_bytes(n, length_size.width()) + body);
        },
    }
}

/// Encoding the first `i + 1` elements adds the encoding of element `i`
pub proof fn lemma_encode_all_take_push<T: Encode>(s: Seq<T>, i: int)
    requires
        0 <= i < s.len(),
    ensures
        encode_all(s.take(i + 1)) == encode_all(s.take(i)) + s[i].encoding(),
{
    assert(s.take(i + 1).drop_last() == s.take(i));
}

/// A prefix encodes to no more bytes than the whole sequence
pub proof fn lemma_encode_all_prefix_len<T: Encode>(s: Seq<T>, i: int)
    requires
        0 <= i <= s.len(),
    ensures
        encode_all(s.take(i)).len() <= encode_all(s).len(),
    decreases s.len() - i,
{
    if i == s.len() {
        assert(s.take(i) == s);
    } else {
        lemma_encode_all_prefix_len(s, i + 1);
        lemma_encode_all_take_push(s, i);
    }
}

} // verus!
