//! Font formats.
use vstd::prelude::*;

use super::{bytes_at, compare_bytes};

verus! {

/// `wOFF` with sfnt version 1.0.
pub open spec fn spec_is_woff(b: Seq<u8>) -> bool {
    b.len() > 7 && bytes_at(b, 0, seq![0x77u8, 0x4F, 0x46, 0x46, 0x00, 0x01, 0x00, 0x00])
}

/// `wOF2` with sfnt version 1.0.
pub open spec fn spec_is_woff2(b: Seq<u8>) -> bool {
    b.len() > 7 && bytes_at(b, 0, seq![0x77u8, 0x4F, 0x46, 0x32, 0x00, 0x01, 0x00, 0x00])
}

/// sfnt version 1.0 followed by a zero byte.
pub open spec fn spec_is_ttf(b: Seq<u8>) -> bool {
    b.len() > 4 && bytes_at(b, 0, seq![0x00u8, 0x01, 0x00, 0x00, 0x00])
}

/// `OTTO` followed by a zero byte.
pub open spec fn spec_is_otf(b: Seq<u8>) -> bool {
    b.len() > 4 && bytes_at(b, 0, seq![0x4Fu8, 0x54, 0x54, 0x4F, 0x00])
}

/// Returns whether a buffer is WOFF font data.
pub fn is_woff(buf: &[u8]) -> (r: bool)
    ensures
        r == spec_is_woff(buf@),
{
    buf.len() > 7 && compare_bytes(buf, &[0x77, 0x4F, 0x46, 0x46, 0x00, 0x01, 0x00, 0x00], 0)
}

/// Returns whether a buffer is WOFF2 font data.
pub fn is_woff2(buf: &[u8]) -> (r: bool)
    ensures
        r == spec_is_woff2(buf@),
{
    buf.len() > 7 && compare_bytes(buf, &[0x77, 0x4F, 0x46, 0x32, 0x00, 0x01, 0x00, 0x00], 0)
}

/// Returns whether a buffer is TTF font data.
pub fn is_ttf(buf: &[u8]) -> (r: bool)
    ensures
        r == spec_is_ttf(buf@),
{
    buf.len() > 4 && compare_bytes(buf, &[0x00, 0x01, 0x00, 0x00, 0x00], 0)
}

/// Returns whether a buffer is OTF font data.
pub fn is_otf(buf: &[u8]) -> (r: bool)
    ensures
        r == spec_is_otf(buf@),
{
    buf.len() > 4 && compare_bytes(buf, &[0x4F, 0x54, 0x54, 0x4F, 0x00], 0)
}

} // verus!
