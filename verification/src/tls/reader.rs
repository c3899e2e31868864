//! Utility reader for parsing incoming data

use vstd::prelude::*;

use crate::tls::error::InvalidMessage;

verus! {

/// A non-consuming reader over a slice
pub struct Reader<'a> {
    buf: &'a [u8],
}

impl<'a> View for Reader<'a> {
    type V = Seq<u8>;

    /// The bytes that are still to be read
    closed spec fn view(&self) -> Seq<u8> {
        self.buf@
    }
}

impl<'a> Reader<'a> {
    /// Create a new Reader from an underlying buffer
    pub fn new(buf: &'a [u8]) -> (r: Self)
        ensures
            r@ == buf@,
    {
        Self { buf }
    }

    /// Returns `true` when no byte is left to read
    pub fn is_empty(&self) -> (b: bool)
        ensures
            b <==> self@.len() == 0,
    {
        self.buf.len() == 0
    }

    /// Take exacly `count` bytes from the buffer
    ///
    /// Returns `None` if the buffer does not contain enough bytes, and then
    /// leaves the reader unchanged.
    pub fn take(&mut self, count: usize) -> (r: Option<&'a [u8]>)
        ensures
            count <= old(self)@.len() ==> (r matches Some(s) && s@ == old(self)@.take(count as int)
                && final(self)@ == old(self)@.skip(count as int)),
            count > old(self)@.len() ==> r is None && final(self)@ == old(self)@,
            old(self)@ == read_bytes_opt(r) + final(self)@,
    {
        if count <= self.buf.len() {
            let (consumed, remaining) = self.buf.split_at(count);
            self.buf = remaining;
            Some(consumed)
        } else {
            None
        }
    }

    /// Convenience function for [`Self::take`] to return an [`InvalidMessage::TooShortFor`] error
    /// instead of `None`
    pub fn take_for(&mut self, name: &'static str, count: usize) -> (r: Result<
        &'a [u8],
        InvalidMessage,
    >)
        ensures
            count <= old(self)@.len() ==> (r matches Ok(s) && s@ == old(self)@.take(count as int)
                && final(self)@ == old(self)@.skip(count as int)),
            count > old(self)@.len() ==> r == Err::<&[u8], _>(InvalidMessage::TooShortFor(name))
                && final(self)@ == old(self)@,
            old(self)@ == match r {
                Ok(s) => s@,
                Err(_) => Seq::<u8>::empty(),
            } + final(self)@,
    {
        match self.take(count) {
            Some(s) => Ok(s),
            None => Err(InvalidMessage::TooShortFor(name)),
        }
    }

    /// Take all the bytes available in the buffer.
    ///
    /// Returns an empty slice if the buffer is empty.
    pub fn take_all(&mut self) -> (r: &'a [u8])
        ensures
            r@ == old(self)@,
            final(self)@.len() == 0,
            old(self)@ == r@ + final(self)@,
    {
        let (all, rest) = self.buf.split_at(self.buf.len());
        self.buf = rest;
        all
    }

    /// Take a single byte from the buffer
    pub fn take_byte(&mut self) -> (r: Option<u8>)
        ensures
            old(self)@.len() >= 1 ==> r == Some(old(self)@[0]) && final(self)@ == old(self)@.skip(1),
            old(self)@.len() == 0 ==> r is None && final(self)@ == old(self)@,
            old(self)@ == match r {
                Some(b) => seq![b],
                None => Seq::<u8>::empty(),
            } + final(self)@,
    {
        match self.take(1) {
            Some(s) => Some(s[0]),
            None => None,
        }
    }

    /// Convenience function for [`Self::take_byte`] to return an [`InvalidMessage::TooShortFor`]
    /// error instead of `None`
    pub fn take_byte_for(&mut self, name: &'static str) -> (r: Result<u8, InvalidMessage>)
        ensures
            old(self)@.len() >= 1 ==> r == Ok::<u8, InvalidMessage>(old(self)@[0]) && final(self)@
                == old(self)@.skip(1),
            old(self)@.len() == 0 ==> r == Err::<u8, _>(InvalidMessage::TooShortFor(name))
                && final(self)@ == old(self)@,
            old(self)@ == match r {
                Ok(b) => seq![b],
                Err(_) => Seq::<u8>::empty(),
            } + final(self)@,
    {
        match self.take_byte() {
            Some(b) => Ok(b),
            None => Err(InvalidMessage::TooShortFor(name)),
        }
    }

    /// Returns the number of bytes available in this reader
    pub fn available(&self) -> (n: usize)
        ensures
            n == self@.len(),
    {
        self.buf.len()
    }
}

/// The bytes a read took, none when it took nothing
pub open spec fn read_bytes_opt(r: Option<&[u8]>) -> Seq<u8> {
    match r {
        Some(s) => s@,
        None => Seq::empty(),
    }
}

/// Reads in sequence take the buffer in order: when a reader holding `b` gives `t1` and
/// keeps `r1`, and then gives `t2` and keeps `r2`, the bytes taken, then those left, are
/// `b`; and the bytes left are as many fewer as were taken
pub proof fn law_reads_take_the_buffer_in_order(
    b: Seq<u8>,
    t1: Seq<u8>,
    r1: Seq<u8>,
    t2: Seq<u8>,
    r2: Seq<u8>,
)
    requires
        b == t1 + r1,
        r1 == t2 + r2,
    ensures
        b == (t1 + t2) + r2,
        r2.len() == b.len() - (t1.len() + t2.len()),
{
    assert(b =~= (t1 + t2) + r2);
}
} // verus!
