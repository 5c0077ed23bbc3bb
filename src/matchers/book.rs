//! Electronic books.
use vstd::prelude::*;

use super::{bytes_at, compare_bytes};

verus! {

/// A ZIP whose first entry is the `mimetype` file holding `application/epub+zip`.
pub open spec fn spec_is_epub(b: Seq<u8>) -> bool {
    &&& b.len() > 57
    &&& bytes_at(b, 0, seq![0x50u8, 0x4B, 0x03, 0x04])
    &&& bytes_at(
        b,
        30,
        seq![
            0x6Du8, 0x69, 0x6D, 0x65, 0x74, 0x79, 0x70, 0x65, 0x61, 0x70, 0x70, 0x6C, 0x69, 0x63,
            0x61, 0x74, 0x69, 0x6F, 0x6E, 0x2F, 0x65, 0x70, 0x75, 0x62, 0x2B, 0x7A, 0x69, 0x70,
        ],
    )
}

/// `BOOKMOBI` at offset 60.
pub open spec fn spec_is_mobi(b: Seq<u8>) -> bool {
    b.len() > 67 && bytes_at(b, 60, seq![0x42u8, 0x4F, 0x4F, 0x4B, 0x4D, 0x4F, 0x42, 0x49])
}

/// Returns whether a buffer is an ePub.
pub fn is_epub(buf: &[u8]) -> (r: bool)
    ensures
        r == spec_is_epub(buf@),
{
    buf.len() > 57 && compare_bytes(buf, &[0x50, 0x4B, 0x03, 0x04], 0) && compare_bytes(
        buf,
        &[
            0x6D, 0x69, 0x6D, 0x65, 0x74, 0x79, 0x70, 0x65, 0x61, 0x70, 0x70, 0x6C, 0x69, 0x63,
            0x61, 0x74, 0x69, 0x6F, 0x6E, 0x2F, 0x65, 0x70, 0x75, 0x62, 0x2B, 0x7A, 0x69, 0x70,
        ],
        30,
    )
}

/// Returns whether a buffer is a mobi.
pub fn is_mobi(buf: &[u8]) -> (r: bool)
    ensures
        r == spec_is_mobi(buf@),
{
    buf.len() > 67 && compare_bytes(buf, &[0x42, 0x4F, 0x4F, 0x4B, 0x4D, 0x4F, 0x42, 0x49], 60)
}

} // verus!
