//! Byte-level helpers shared by the codecs: big-endian 16-bit words and
//! writes into a caller-supplied buffer.

use vstd::prelude::*;

verus! {

/// The big-endian byte pair of a 16-bit word: most significant byte first.
pub open spec fn spec_u16_be(x: u16) -> Seq<u8> {
    seq![(x / 256) as u8, (x % 256) as u8]
}

/// The 16-bit word that two big-endian bytes spell.
pub open spec fn spec_u16_from_be(hi: u8, lo: u8) -> u16 {
    (hi * 256 + lo) as u16
}

pub fn u16_from_be(hi: u8, lo: u8) -> (x: u16)
    ensures
        x == spec_u16_from_be(hi, lo),
{
    (hi as u16) * 256 + (lo as u16)
}

/// Reads the big-endian word at `at`.
pub fn read_u16_be(buf: &[u8], at: usize) -> (x: u16)
    requires
        at + 2 <= buf.len(),
    ensures
        x == spec_u16_from_be(buf[at as int], buf[at + 1]),
{
    u16_from_be(buf[at], buf[at + 1])
}

/// Writes one byte at `at`, leaving the rest of the buffer as it was.
pub fn write_u8(buf: &mut [u8], at: usize, v: u8)
    requires
        at < old(buf).len(),
    ensures
        final(buf)@ == old(buf)@.update(at as int, v),
{
    buf[at] = v;
}

/// Writes the big-endian bytes of `x` at `at` and `at + 1`.
pub fn write_u16_be(buf: &mut [u8], at: usize, x: u16)
    requires
        at + 2 <= old(buf).len(),
    ensures
        final(buf)@ == old(buf)@.update(at as int, spec_u16_be(x)[0]).update(
            at + 1,
            spec_u16_be(x)[1],
        ),
{
    buf[at] = (x / 256) as u8;
    buf[at + 1] = (x % 256) as u8;
}

/// Copies all of `src` into `dst` starting at `at`; bytes outside the copied
/// range keep their old value.
pub fn write_slice(dst: &mut [u8], at: usize, src: &[u8])
    requires
        at + src.len() <= old(dst).len(),
    ensures
        final(dst)@.len() == old(dst)@.len(),
        final(dst)@.subrange(at as int, at + src.len()) == src@,
        forall|i: int|
            0 <= i < old(dst)@.len() && !(at <= i < at + src.len()) ==> final(dst)@[i]
                == old(dst)@[i],
{
    let mut k: usize = 0;
    while k < src.len()
        invariant
            at + src.len() <= dst.len(),
            dst@.len() == old(dst)@.len(),
            k <= src.len(),
            forall|i: int| at <= i < at + k ==> dst@[i] == src@[i - at],
            forall|i: int|
                0 <= i < old(dst)@.len() && !(at <= i < at + src.len()) ==> dst@[i] == old(
                    dst,
                )@[i],
        decreases src.len() - k,
    {
        dst[at + k] = src[k];
        k = k + 1;
    }
    assert(dst@.subrange(at as int, at + src.len()) =~= src@);
}

} // verus!
