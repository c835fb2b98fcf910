//! Little-endian field extraction from raw sector bytes.
use vstd::prelude::*;

verus! {

/// The 16-bit little-endian value at offset `i` of `s`.
pub open spec fn le16_at(s: Seq<u8>, i: int) -> u16 {
    (s[i] as int + s[i + 1] as int * 0x100) as u16
}

/// The 32-bit little-endian value at offset `i` of `s`.
pub open spec fn le32_at(s: Seq<u8>, i: int) -> u32 {
    (s[i] as int + s[i + 1] as int * 0x100 + s[i + 2] as int * 0x1_0000 + s[i + 3] as int
        * 0x100_0000) as u32
}

/// Reads the 16-bit little-endian field at offset `i`.
pub fn read_u16_le(buf: &Vec<u8>, i: usize) -> (r: u16)
    requires
        i + 2 <= buf@.len(),
    ensures
        r == le16_at(buf@, i as int),
{
    // the exec length, a usize, bounds the offsets
    let _n: usize = buf.len();
    (buf[i] as u16) + (buf[i + 1] as u16) * 0x100
}

/// Reads the 32-bit little-endian field at offset `i`.
pub fn read_u32_le(buf: &Vec<u8>, i: usize) -> (r: u32)
    requires
        i + 4 <= buf@.len(),
    ensures
        r == le32_at(buf@, i as int),
{
    // the exec length, a usize, bounds the offsets
    let _n: usize = buf.len();
    (buf[i] as u32) + (buf[i + 1] as u32) * 0x100 + (buf[i + 2] as u32) * 0x1_0000 + (buf[i
        + 3] as u32) * 0x100_0000
}

/// Copies `len` bytes starting at offset `start` out of `buf`.
pub fn copy_range(buf: &Vec<u8>, start: usize, len: usize) -> (r: Vec<u8>)
    requires
        start + len <= buf@.len(),
    ensures
        r@ == buf@.subrange(start as int, start as int + len as int),
{
    let mut r: Vec<u8> = Vec::new();
    let mut i: usize = 0;
    while i < len
        invariant
            i <= len,
            start + len <= buf@.len(),
            r@ == buf@.subrange(start as int, start as int + i as int),
        decreases len - i,
    {
        // the exec length, a usize, bounds the offsets
        let _n: usize = buf.len();
        r.push(buf[start + i]);
        proof {
            assert(r@ =~= buf@.subrange(start as int, start as int + i as int + 1));
        }
        i = i + 1;
    }
    r
}

} // verus!
