//! Reassembly of handshake messages, which records may fragment or coalesce

use vstd::prelude::*;

use crate::{
    bytes::{bytes_to_vec, extend_bytes},
    tls::{
        error::InvalidMessage,
        msgs::handshake::{
            is_unimplemented_handshake_type, parse_handshake, Handshake, HandshakeView,
        },
        reader::Reader,
    },
};

verus! {

/// The body length a handshake header announces
pub open spec fn body_len(s: Seq<u8>) -> nat {
    (s[1] * 65536 + s[2] * 256 + s[3]) as nat
}

/// Whether `s` starts with a whole handshake message
pub open spec fn has_whole_message(s: Seq<u8>) -> bool {
    s.len() >= 4 && s.len() >= 4 + body_len(s)
}

/// The whole handshake messages at the start of `s`, one after the other
pub open spec fn whole_messages(s: Seq<u8>) -> Seq<Seq<u8>>
    decreases s.len(),
{
    if has_whole_message(s) {
        seq![s.take(4 + body_len(s) as int)] + whole_messages(s.skip(4 + body_len(s) as int))
    } else {
        seq![]
    }
}

/// What is left of `s` after its whole handshake messages: the start of the next one
pub open spec fn partial_message(s: Seq<u8>) -> Seq<u8>
    decreases s.len(),
{
    if has_whole_message(s) {
        partial_message(s.skip(4 + body_len(s) as int))
    } else {
        s
    }
}

/// Reassembles handshake messages from the handshake data of records
#[derive(Debug)]
pub struct HandshakeDeframer {
    /// Handshake data received and not yet decoded
    pub buffer: Vec<u8>,
}

impl HandshakeDeframer {
    /// A deframer with no data
    pub fn new() -> (r: Self)
        ensures
            r.buffer@ == Seq::<u8>::empty(),
    {
        HandshakeDeframer { buffer: Vec::new() }
    }

    /// Whether no partial handshake message waits for more data: records of other types
    /// may only come then
    pub fn is_aligned(&self) -> (r: bool)
        ensures
            r == (self.buffer@.len() == 0),
    {
        self.buffer.len() == 0
    }

    /// Add the handshake data of a record
    pub fn add(&mut self, bytes: Vec<u8>)
        ensures
            final(self).buffer@ == old(self).buffer@ + bytes@,
    {
        extend_bytes(&mut self.buffer, bytes.as_slice());
    }

    /// Decode the whole handshake messages received so far, each with its bytes, and keep
    /// the start of the next one
    ///
    /// A message of a type whose decoding is not supported is refused with
    /// [`InvalidMessage::UnsupportedHandshakeType`].
    pub fn decoded(&mut self) -> (r: Result<Vec<(Handshake, Vec<u8>)>, InvalidMessage>)
        ensures
            r matches Ok(v) ==> {
                &&& v@.len() == whole_messages(old(self).buffer@).len()
                &&& forall|i: int|
                    0 <= i < v@.len() ==> (#[trigger] v@[i]).1@ == whole_messages(
                        old(self).buffer@,
                    )[i] && (parse_handshake(v@[i].1@) matches Ok((h, _)) && v@[i].0@ == h)
                &&& final(self).buffer@ == partial_message(old(self).buffer@)
            },
            (forall|i: int|
                0 <= i < whole_messages(old(self).buffer@).len() ==> parse_handshake(
                    #[trigger] whole_messages(old(self).buffer@)[i],
                ) is Ok && !is_unimplemented_handshake_type(
                    whole_messages(old(self).buffer@)[i][0],
                )) ==> r is Ok,
    {
        let mut out: Vec<(Handshake, Vec<u8>)> = Vec::new();
        let mut pos: usize = 0;
        let mut stop = false;
        let ghost s = self.buffer@;
        let ghost mut done: Seq<Seq<u8>> = Seq::empty();
        assert(s.skip(0) =~= s);
        assert(done + whole_messages(s) =~= whole_messages(s));
        while !stop && pos <= self.buffer.len() && self.buffer.len() - pos >= 4
            invariant
                self.buffer@ == s,
                pos <= s.len(),
                done.len() == out@.len(),
                forall|i: int| 0 <= i < out@.len() ==> (#[trigger] out@[i]).1@ == done[i],
                whole_messages(s) == done + whole_messages(s.skip(pos as int)),
                partial_message(s) == partial_message(s.skip(pos as int)),
                stop ==> !has_whole_message(s.skip(pos as int)),
                forall|i: int|
                    0 <= i < out@.len() ==> (parse_handshake((#[trigger] out@[i]).1@) matches Ok(
                        (h, _),
                    ) && out@[i].0@ == h),
            decreases s.len() - pos, if stop { 0int } else { 1int },
        {
            let ghost rest = s.skip(pos as int);
            let len: usize = (self.buffer[pos + 1] as usize) * 65536 + (self.buffer[pos + 2] as usize)
                * 256 + (self.buffer[pos + 3] as usize);
            assert(body_len(rest) == len);
            if self.buffer.len() - pos < 4 + len {
                stop = true;
            } else {
                assert(has_whole_message(rest));
                let bytes = bytes_to_vec(&self.buffer[pos..pos + 4 + len]);
                assert(bytes@ =~= rest.take(4 + len));
                assert(whole_messages(rest)[0] == bytes@);
                assert(whole_messages(s)[done.len() as int] == bytes@);
                if is_unimplemented(self.buffer[pos]) {
                    return Err(InvalidMessage::UnsupportedHandshakeType);
                }
                let mut reader = Reader::new(bytes.as_slice());
                let h = match Handshake::decode(&mut reader) {
                    Ok(h) => h,
                    Err(e) => return Err(e),
                };
                assert(rest.skip(4 + len) =~= s.skip(pos + 4 + len));
                proof {
                    assert(done + whole_messages(rest) =~= done.push(bytes@) + whole_messages(
                        rest.skip(4 + len),
                    ));
                    done = done.push(bytes@);
                }
                out.push((h, bytes));
                pos = pos + 4 + len;
            }
        }
        proof {
            assert(!has_whole_message(s.skip(pos as int)));
            assert(whole_messages(s.skip(pos as int)) =~= Seq::<Seq<u8>>::empty());
            assert(done + Seq::<Seq<u8>>::empty() =~= done);
        }
        let remaining = bytes_to_vec(&self.buffer[pos..self.buffer.len()]);
        assert(remaining@ =~= s.skip(pos as int));
        self.buffer = remaining;
        Ok(out)
    }
}

/// Whether the handshake message type `t` is known but its decoding is not supported
fn is_unimplemented(t: u8) -> (r: bool)
    ensures
        r == is_unimplemented_handshake_type(t),
{
    t == 4 || t == 5 || t == 13 || t == 24 || t == 254
}

} // verus!
