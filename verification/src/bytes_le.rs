//! Little-endian field access within a raw firmware byte image.
//!
//! Every table this layer binds to is a packed, fixed-layout record in
//! firmware-owned memory.  These helpers read and write unsigned fields at a
//! given byte offset of such an image, and their contracts tie each access to
//! the mathematical value of the underlying bytes.

use vstd::prelude::*;

verus! {

use vstd::bytes::{
    spec_u16_from_le_bytes, spec_u32_from_le_bytes, spec_u64_from_le_bytes,
    u16_from_le_bytes, u32_from_le_bytes, u64_from_le_bytes,
    u32_to_le_bytes, u64_to_le_bytes,
    lemma_auto_spec_u32_to_from_le_bytes, lemma_auto_spec_u64_to_from_le_bytes,
};
use vstd::slice::slice_subrange;

/// The 16-bit little-endian value stored at byte offset `off` of `s`.
pub open spec fn le_u16_at(s: Seq<u8>, off: int) -> u16
    recommends
        0 <= off,
        off + 2 <= s.len(),
{
    spec_u16_from_le_bytes(s.subrange(off, off + 2))
}

/// The 32-bit little-endian value stored at byte offset `off` of `s`.
pub open spec fn le_u32_at(s: Seq<u8>, off: int) -> u32
    recommends
        0 <= off,
        off + 4 <= s.len(),
{
    spec_u32_from_le_bytes(s.subrange(off, off + 4))
}

/// The 64-bit little-endian value stored at byte offset `off` of `s`.
pub open spec fn le_u64_at(s: Seq<u8>, off: int) -> u64
    recommends
        0 <= off,
        off + 8 <= s.len(),
{
    spec_u64_from_le_bytes(s.subrange(off, off + 8))
}

/// Read the 16-bit little-endian field at byte offset `off` of `img`.
pub fn read_u16_at(img: &[u8], off: usize) -> (r: u16)
    requires
        off + 2 <= img@.len(),
    ensures
        r == le_u16_at(img@, off as int),
{
    // Materializing the length bounds it by usize, so `off + 2` cannot wrap.
    let _len: usize = img.len();
    let field = slice_subrange(img, off, off + 2);
    u16_from_le_bytes(field)
}

/// Read the 32-bit little-endian field at byte offset `off` of `img`.
pub fn read_u32_at(img: &[u8], off: usize) -> (r: u32)
    requires
        off + 4 <= img@.len(),
    ensures
        r == le_u32_at(img@, off as int),
{
    let _len: usize = img.len();
    let field = slice_subrange(img, off, off + 4);
    u32_from_le_bytes(field)
}

/// Read the 64-bit little-endian field at byte offset `off` of `img`.
pub fn read_u64_at(img: &[u8], off: usize) -> (r: u64)
    requires
        off + 8 <= img@.len(),
    ensures
        r == le_u64_at(img@, off as int),
{
    let _len: usize = img.len();
    let field = slice_subrange(img, off, off + 8);
    u64_from_le_bytes(field)
}

/// A buffer of `n` zero bytes.
pub fn zero_vec(n: usize) -> (r: Vec<u8>)
    ensures
        r@.len() == n,
        forall|i: int| 0 <= i < n ==> r@[i] == 0,
{
    let mut v: Vec<u8> = Vec::new();
    let mut k: usize = 0;
    while k < n
        invariant
            0 <= k <= n,
            v@.len() == k,
            forall|i: int| 0 <= i < k ==> v@[i] == 0,
        decreases n - k,
    {
        v.push(0);
        k += 1;
    }
    v
}

/// Overwrite `buf[off .. off + src.len()]` with the bytes of `src`,
/// leaving every other byte unchanged.
pub fn write_bytes_at(buf: &mut Vec<u8>, off: usize, src: &[u8])
    requires
        off + src@.len() <= old(buf)@.len(),
    ensures
        final(buf)@.len() == old(buf)@.len(),
        final(buf)@.subrange(off as int, off + src@.len()) == src@,
        forall|i: int|
            0 <= i < old(buf)@.len() && !(off <= i < off + src@.len())
                ==> final(buf)@[i] == old(buf)@[i],
{
    let n: usize = src.len();
    let cap: usize = buf.len();
    let mut k: usize = 0;
    while k < n
        invariant
            n == src@.len(),
            0 <= k <= n,
            off + n <= cap,
            cap == buf@.len(),
            buf@.len() == old(buf)@.len(),
            forall|i: int| 0 <= i < k ==> buf@[off + i] == src@[i],
            forall|i: int|
                0 <= i < old(buf)@.len() && !(off <= i < off + n)
                    ==> buf@[i] == old(buf)@[i],
        decreases n - k,
    {
        let b = src[k];
        buf.set(off + k, b);
        k += 1;
    }
    assert(final(buf)@.subrange(off as int, off + src@.len()) =~= src@);
}

/// Store `v` as a 32-bit little-endian field at byte offset `off` of `buf`,
/// leaving every other byte unchanged.
pub fn write_u32_at(buf: &mut Vec<u8>, off: usize, v: u32)
    requires
        off + 4 <= old(buf)@.len(),
    ensures
        final(buf)@.len() == old(buf)@.len(),
        le_u32_at(final(buf)@, off as int) == v,
        forall|i: int|
            0 <= i < old(buf)@.len() && !(off <= i < off + 4)
                ==> final(buf)@[i] == old(buf)@[i],
{
    let bytes = u32_to_le_bytes(v);
    write_bytes_at(buf, off, bytes.as_slice());
    proof {
        lemma_auto_spec_u32_to_from_le_bytes();
    }
}

/// Store `v` as a 64-bit little-endian field at byte offset `off` of `buf`,
/// leaving every other byte unchanged.
pub fn write_u64_at(buf: &mut Vec<u8>, off: usize, v: u64)
    requires
        off + 8 <= old(buf)@.len(),
    ensures
        final(buf)@.len() == old(buf)@.len(),
        le_u64_at(final(buf)@, off as int) == v,
        forall|i: int|
            0 <= i < old(buf)@.len() && !(off <= i < off + 8)
                ==> final(buf)@[i] == old(buf)@[i],
{
    let bytes = u64_to_le_bytes(v);
    write_bytes_at(buf, off, bytes.as_slice());
    proof {
        lemma_auto_spec_u64_to_from_le_bytes();
    }
}

} // verus!
