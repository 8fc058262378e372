//! Byte-level reading and writing of big-endian fields.

use vstd::prelude::*;

verus! {

/// The big-endian 16-bit value stored at `s[i..i + 2]`.
pub open spec fn be16(s: Seq<u8>, i: int) -> u16 {
    ((s[i] as u16) << 8u16) | (s[i + 1] as u16)
}

/// The two bytes of `x`, most significant first.
pub open spec fn u16_bytes(x: u16) -> Seq<u8> {
    seq![(x >> 8u16) as u8, x as u8]
}

/// Splitting a value into bytes and reading them back gives the value.
pub proof fn lemma_be16_of_bytes(x: u16)
    ensures
        be16(u16_bytes(x), 0) == x,
{
    let hi = (x >> 8u16) as u8;
    let lo = x as u8;
    assert(((hi as u16) << 8u16) | (lo as u16) == x) by (bit_vector)
        requires
            hi == (x >> 8u16) as u8,
            lo == x as u8,
    ;
}

/// Reads the big-endian 16-bit value at `buf[off..off + 2]`.
pub fn read_be16(buf: &[u8], off: usize) -> (r: u16)
    requires
        off + 2 <= buf@.len(),
    ensures
        r == be16(buf@, off as int),
{
    ((buf[off] as u16) << 8u16) | (buf[off + 1] as u16)
}

/// Copies the `N` bytes at `buf[off..off + N]` into an array.
pub fn read_array<const N: usize>(buf: &[u8], off: usize) -> (r: [u8; N])
    requires
        off + N <= buf@.len(),
    ensures
        r@ == buf@.subrange(off as int, off + N),
{
    let len = buf.len();
    let mut r = [0u8; N];
    let mut i: usize = 0;
    while i < N
        invariant
            i <= N,
            off + N <= buf@.len(),
            buf@.len() == len,
            r@.len() == N,
            forall|j: int| 0 <= j < i ==> r@[j] == buf@[off + j],
        decreases N - i,
    {
        r[i] = buf[off + i];
        i += 1;
    }
    assert(r@ =~= buf@.subrange(off as int, off + N));
    r
}

/// Appends the bytes of `s` to `v`.
pub fn push_bytes(v: &mut Vec<u8>, s: &[u8])
    ensures
        final(v)@ == old(v)@ + s@,
{
    let mut i: usize = 0;
    while i < s.len()
        invariant
            i <= s@.len(),
            v@ == old(v)@ + s@.subrange(0, i as int),
        decreases s@.len() - i,
    {
        v.push(s[i]);
        i += 1;
        assert(v@ =~= old(v)@ + s@.subrange(0, i as int));
    }
    assert(s@.subrange(0, s@.len() as int) =~= s@);
}

/// Appends the two big-endian bytes of `x` to `v`.
pub fn push_be16(v: &mut Vec<u8>, x: u16)
    ensures
        final(v)@ == old(v)@ + u16_bytes(x),
{
    v.push((x >> 8u16) as u8);
    v.push(x as u8);
    assert(v@ =~= old(v)@ + u16_bytes(x));
}

} // verus!
