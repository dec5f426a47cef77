//! Little-endian decoding of integers from raw bytes.

use vstd::prelude::*;

verus! {

/// Mathematical value of the two bytes at `off` read little-endian.
pub open spec fn u16_le(d: Seq<u8>, off: int) -> int {
    d[off] + 0x100 * d[off + 1]
}

/// Mathematical value of the four bytes at `off` read little-endian.
pub open spec fn u32_le(d: Seq<u8>, off: int) -> int {
    d[off] + 0x100 * d[off + 1] + 0x10000 * d[off + 2] + 0x1000000 * d[off + 3]
}

/// Little-endian decode of the first four bytes of a slice.
pub fn array2ulong(b: &[u8]) -> (r: u32)
    requires
        b@.len() >= 4,
    ensures
        r == u32_le(b@, 0),
{
    (b[0] as u32) + 0x100 * (b[1] as u32) + 0x10000 * (b[2] as u32) + 0x1000000 * (b[3] as u32)
}

/// Little-endian read of a `u16` at an offset known to be in bounds.
pub(crate) fn read_u16(d: &Vec<u8>, off: usize) -> (r: u16)
    requires
        off + 2 <= d@.len(),
    ensures
        r == u16_le(d@, off as int),
{
    proof {
        assert(d@.len() == d.len());
    }
    (d[off] as u16) + 0x100 * (d[off + 1] as u16)
}

/// Little-endian read of a `u32` at an offset known to be in bounds.
pub(crate) fn read_u32(d: &Vec<u8>, off: usize) -> (r: u32)
    requires
        off + 4 <= d@.len(),
    ensures
        r == u32_le(d@, off as int),
{
    proof {
        assert(d@.len() == d.len());
    }
    (d[off] as u32) + 0x100 * (d[off + 1] as u32) + 0x10000 * (d[off + 2] as u32) + 0x1000000 * (
    d[off + 3] as u32)
}

/// Bounds-checked little-endian read of a `u16` inside a byte vector.
pub fn read_u16_at(d: &Vec<u8>, off: usize) -> (r: Option<u16>)
    ensures
        off + 2 <= d@.len() ==> r == Some((u16_le(d@, off as int) as u16)),
        off + 2 > d@.len() ==> r is None,
{
    if off < d.len() && 2 <= d.len() - off {
        Some(read_u16(d, off))
    } else {
        None
    }
}

/// Bounds-checked little-endian read of a `u32` inside a byte vector.
pub fn read_u32_at(d: &Vec<u8>, off: usize) -> (r: Option<u32>)
    ensures
        off + 4 <= d@.len() ==> r == Some((u32_le(d@, off as int) as u32)),
        off + 4 > d@.len() ==> r is None,
{
    if off < d.len() && 4 <= d.len() - off {
        Some(read_u32(d, off))
    } else {
        None
    }
}

/// A copy of the `len` bytes of `d` that start at `start`.
pub(crate) fn copy_range(d: &Vec<u8>, start: usize, len: usize) -> (r: Vec<u8>)
    requires
        start + len <= d@.len(),
    ensures
        r@ == d@.subrange(start as int, start + len),
{
    let mut r: Vec<u8> = Vec::new();
    let mut i: usize = 0;
    proof {
        assert(d@.len() == d.len());
        assert(r@ =~= d@.subrange(start as int, start as int));
    }
    while i < len
        invariant
            i <= len,
            start + len <= d@.len(),
            d@.len() <= usize::MAX,
            r@ == d@.subrange(start as int, start + i),
        decreases len - i,
    {
        r.push(d[start + i]);
        proof {
            assert(d@.subrange(start as int, start + i + 1) =~= d@.subrange(
                start as int,
                start + i,
            ).push(d@[start + i]));
        }
        i = i + 1;
    }
    r
}

} // verus!
