//! Byte-signature predicates, one per supported format, grouped by category.
use vstd::prelude::*;

pub mod app;
pub mod archive;
pub mod audio;
pub mod book;
pub mod doc;
pub mod font;
pub mod image;
pub mod odf;
pub mod text;
pub mod video;


verus! {

/// `pat` occurs in `b` starting at offset `off`.
pub open spec fn bytes_at(b: Seq<u8>, off: int, pat: Seq<u8>) -> bool {
    0 <= off && off + pat.len() <= b.len() && b.subrange(off, off + pat.len()) == pat
}

/// The big-endian 32-bit integer stored in `b[off..off + 4]`.
pub open spec fn be_u32(b: Seq<u8>, off: int) -> int {
    b[off] as int * 0x1000000 + b[off + 1] as int * 0x10000 + b[off + 2] as int * 0x100
        + b[off + 3] as int
}

/// The little-endian 32-bit integer stored in `b[off..off + 4]`.
pub open spec fn le_u32(b: Seq<u8>, off: int) -> int {
    b[off + 3] as int * 0x1000000 + b[off + 2] as int * 0x10000 + b[off + 1] as int * 0x100
        + b[off] as int
}

/// The big-endian 16-bit integer stored in `b[off..off + 2]`.
pub open spec fn be_u16(b: Seq<u8>, off: int) -> int {
    b[off] as int * 0x100 + b[off + 1] as int
}

/// Whether `sub_slice` occurs in `slice` at `start_offset`; false when it would run past the end.
pub fn compare_bytes(slice: &[u8], sub_slice: &[u8], start_offset: usize) -> (r: bool)
    ensures
        r == bytes_at(slice@, start_offset as int, sub_slice@),
{
    let sl = sub_slice.len();
    if start_offset > slice.len() || sl > slice.len() - start_offset {
        return false;
    }
    let mut i: usize = 0;
    while i < sl
        invariant
            sl == sub_slice@.len(),
            start_offset + sl <= slice.len(),
            0 <= i <= sl,
            forall|j: int| 0 <= j < i ==> slice@[start_offset + j] == sub_slice@[j],
        decreases sl - i,
    {
        if slice[start_offset + i] != sub_slice[i] {
            assert(slice@.subrange(start_offset as int, start_offset + sl)[i as int]
                != sub_slice@[i as int]);
            return false;
        }
        i += 1;
    }
    assert(slice@.subrange(start_offset as int, start_offset + sl) =~= sub_slice@);
    true
}

/// Reads the big-endian 32-bit integer at `off`.
pub fn read_u32_be(buf: &[u8], off: usize) -> (r: u32)
    requires
        off + 4 <= buf.len(),
    ensures
        r as int == be_u32(buf@, off as int),
{
    (buf[off] as u32) * 0x1000000 + (buf[off + 1] as u32) * 0x10000 + (buf[off + 2] as u32)
        * 0x100 + (buf[off + 3] as u32)
}

/// Reads the little-endian 32-bit integer at `off`.
pub fn read_u32_le(buf: &[u8], off: usize) -> (r: u32)
    requires
        off + 4 <= buf.len(),
    ensures
        r as int == le_u32(buf@, off as int),
{
    (buf[off + 3] as u32) * 0x1000000 + (buf[off + 2] as u32) * 0x10000 + (buf[off + 1] as u32)
        * 0x100 + (buf[off] as u32)
}

/// Reads the big-endian 16-bit integer at `off`.
pub fn read_u16_be(buf: &[u8], off: usize) -> (r: u16)
    requires
        off + 2 <= buf.len(),
    ensures
        r as int == be_u16(buf@, off as int),
{
    (buf[off] as u16) * 0x100 + (buf[off + 1] as u16)
}

} // verus!
