//! Byte-buffer helpers shared by the codecs.

use vstd::prelude::*;

verus! {

/// Append the bytes of `src` to `dest`
pub fn extend_bytes(dest: &mut Vec<u8>, src: &[u8])
    ensures
        final(dest)@ == old(dest)@ + src@,
{
    let ghost d0 = dest@;
    let mut i: usize = 0;
    while i < src.len()
        invariant
            0 <= i <= src@.len(),
            dest@ == d0 + src@.take(i as int),
        decreases src@.len() - i,
    {
        dest.push(src[i]);
        i = i + 1;
        assert(src@.take(i as int) == src@.take(i - 1) + seq![src@[i - 1]]);
    }
    assert(src@.take(src@.len() as int) == src@);
}

/// A new vector holding the bytes of `src`
pub fn bytes_to_vec(src: &[u8]) -> (r: Vec<u8>)
    ensures
        r@ == src@,
{
    let mut r = Vec::new();
    extend_bytes(&mut r, src);
    assert(r@ =~= src@);
    r
}

/// Compare two byte strings
pub fn bytes_eq(a: &[u8], b: &[u8]) -> (r: bool)
    ensures
        r == (a@ == b@),
{
    if a.len() != b.len() {
        return false;
    }
    let mut i: usize = 0;
    while i < a.len()
        invariant
            a@.len() == b@.len(),
            0 <= i <= a@.len(),
            forall|j: int| 0 <= j < i ==> a@[j] == b@[j],
        decreases a@.len() - i,
    {
        if a[i] != b[i] {
            return false;
        }
        i = i + 1;
    }
    assert(a@ =~= b@);
    true
}

/// The 32-byte array holding the bytes of `s`
pub open spec fn array_of(s: Seq<u8>) -> [u8; 32] {
    choose|a: [u8; 32]| a@ == s
}

/// Copy 32 bytes into an array
pub fn copy_32(src: &[u8]) -> (r: [u8; 32])
    requires
        src@.len() == 32,
    ensures
        r@ == src@,
        r == array_of(src@),
{
    let mut r = [0u8; 32];
    let mut i: usize = 0;
    while i < 32
        invariant
            0 <= i <= 32,
            src@.len() == 32,
            r@.len() == 32,
            forall|j: int| 0 <= j < i ==> r@[j] == src@[j],
        decreases 32 - i,
    {
        r[i] = src[i];
        i = i + 1;
    }
    assert(r@ =~= src@);
    proof {
        lemma_array_of_unique(r, src@);
    }
    r
}

/// Two arrays with the same bytes are the same array
pub proof fn lemma_array_of_unique(a: [u8; 32], s: Seq<u8>)
    requires
        a@ == s,
    ensures
        array_of(s) == a,
{
    broadcast use vstd::array::group_array_axioms;

    let b = array_of(s);
    assert(b@ == s);
    assert(a =~= b);
}

/// The 16 bytes of a 128-bit identifier, most significant first
pub open spec fn id_bytes(v: u128) -> Seq<u8> {
    Seq::new(16, |i: int| ((v >> (8 * (15 - i)) as u128) & 0xff) as u8)
}

/// The 16 bytes of a 128-bit identifier, most significant first, as a UUID holds them
pub fn id_to_bytes(v: u128) -> (r: [u8; 16])
    ensures
        r@ == id_bytes(v),
{
    let mut r = [0u8; 16];
    let mut i: usize = 0;
    while i < 16
        invariant
            i <= 16,
            r@.len() == 16,
            forall|j: int| 0 <= j < i ==> r@[j] == id_bytes(v)[j],
        decreases 16 - i,
    {
        let shift: u128 = (8 * (15 - i)) as u128;
        r[i] = ((v >> shift) & 0xff) as u8;
        i = i + 1;
    }
    assert(r@ =~= id_bytes(v));
    r
}

} // verus!
