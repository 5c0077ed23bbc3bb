//! Video formats.
use vstd::prelude::*;

use super::{be_u32, bytes_at, compare_bytes, read_u32_be};

verus! {

/// The four-character codes accepted as the major brand of an MP4 file.
pub open spec fn is_mp4_brand(code: int) -> bool {
    ||| code == 0x61766331  // avc1
    ||| code == 0x64617368  // dash
    ||| code == 0x69736F32  // iso2
    ||| code == 0x69736F33  // iso3
    ||| code == 0x69736F34  // iso4
    ||| code == 0x69736F35  // iso5
    ||| code == 0x69736F36  // iso6
    ||| code == 0x69736F6D  // isom
    ||| code == 0x6D6D7034  // mmp4
    ||| code == 0x6D703431  // mp41
    ||| code == 0x6D703432  // mp42
    ||| code == 0x6D703476  // mp4v
    ||| code == 0x6D703731  // mp71
    ||| code == 0x4D534E56  // MSNV
    ||| code == 0x4E444153  // NDAS
    ||| code == 0x4E445343  // NDSC
    ||| code == 0x4E445348  // NDSH
    ||| code == 0x4E44534D  // NDSM
    ||| code == 0x4E445350  // NDSP
    ||| code == 0x4E445353  // NDSS
    ||| code == 0x4E445843  // NDXC
    ||| code == 0x4E445848  // NDXH
    ||| code == 0x4E44584D  // NDXM
    ||| code == 0x4E445850  // NDXP
    ||| code == 0x4E445853  // NDXS
    ||| code == 0x46345620  // F4V
    ||| code == 0x46345020  // F4P
}

/// An `ftyp` box whose major brand is one of the MP4 brands.
pub open spec fn spec_is_mp4(b: Seq<u8>) -> bool {
    b.len() > 11 && bytes_at(b, 4, seq![0x66u8, 0x74, 0x79, 0x70]) && is_mp4_brand(be_u32(b, 8))
}

/// `ftypM4V`
pub open spec fn spec_is_m4v(b: Seq<u8>) -> bool {
    b.len() > 10 && bytes_at(b, 4, seq![0x66u8, 0x74, 0x79, 0x70, 0x4D, 0x34, 0x56])
}

/// An EBML header with doc type `matroska`, right after the header or at offset 31.
pub open spec fn spec_is_mkv(b: Seq<u8>) -> bool {
    ||| b.len() > 15 && bytes_at(
        b,
        0,
        seq![
            0x1Au8, 0x45, 0xDF, 0xA3, 0x93, 0x42, 0x82, 0x88, 0x6D, 0x61, 0x74, 0x72, 0x6F, 0x73,
            0x6B, 0x61,
        ],
    )
    ||| b.len() > 38 && bytes_at(b, 31, seq![0x6Du8, 0x61, 0x74, 0x72, 0x6F, 0x73, 0x6B, 0x61])
}

/// An EBML header.
pub open spec fn spec_is_webm(b: Seq<u8>) -> bool {
    b.len() > 3 && bytes_at(b, 0, seq![0x1Au8, 0x45, 0xDF, 0xA3])
}

/// A 20-byte `ftyp` box, or a `moov` or `mdat` atom near the start.
pub open spec fn spec_is_mov(b: Seq<u8>) -> bool {
    &&& b.len() > 15
    &&& {
        ||| bytes_at(b, 0, seq![0x00u8, 0x00, 0x00, 0x14, 0x66, 0x74, 0x79, 0x70])
        ||| bytes_at(b, 4, seq![0x6Du8, 0x6F, 0x6F, 0x76])
        ||| bytes_at(b, 4, seq![0x6Du8, 0x64, 0x61, 0x74])
        ||| bytes_at(b, 12, seq![0x6Du8, 0x64, 0x61, 0x74])
    }
}

/// `RIFF` with form type `AVI`.
pub open spec fn spec_is_avi(b: Seq<u8>) -> bool {
    b.len() > 10 && bytes_at(b, 0, seq![0x52u8, 0x49, 0x46, 0x46]) && bytes_at(
        b,
        8,
        seq![0x41u8, 0x56, 0x49],
    )
}

/// The ASF header object GUID.
pub open spec fn spec_is_wmv(b: Seq<u8>) -> bool {
    b.len() > 9 && bytes_at(b, 0, seq![0x30u8, 0x26, 0xB2, 0x75, 0x8E, 0x66, 0xCF, 0x11, 0xA6, 0xD9])
}

/// An MPEG start code `00 00 01 Bx`.
pub open spec fn spec_is_mpeg(b: Seq<u8>) -> bool {
    b.len() > 3 && bytes_at(b, 0, seq![0x00u8, 0x00, 0x01]) && 0xB0 <= b[3] <= 0xBF
}

/// `FLV` version 1.
pub open spec fn spec_is_flv(b: Seq<u8>) -> bool {
    b.len() > 3 && bytes_at(b, 0, seq![0x46u8, 0x4C, 0x56, 0x01])
}

/// Returns whether a buffer is MP4 video data.
pub fn is_mp4(buf: &[u8]) -> (r: bool)
    ensures
        r == spec_is_mp4(buf@),
{
    if buf.len() <= 11 || !compare_bytes(buf, &[0x66, 0x74, 0x79, 0x70], 4) {
        return false;
    }
    match read_u32_be(buf, 8) {
        0x61766331 | 0x64617368 | 0x69736F32 | 0x69736F33 | 0x69736F34 | 0x69736F35
        | 0x69736F36 | 0x69736F6D | 0x6D6D7034 | 0x6D703431 | 0x6D703432 | 0x6D703476
        | 0x6D703731 | 0x4D534E56 | 0x4E444153 | 0x4E445343 | 0x4E445348 | 0x4E44534D
        | 0x4E445350 | 0x4E445353 | 0x4E445843 | 0x4E445848 | 0x4E44584D | 0x4E445850
        | 0x4E445853 | 0x46345620 | 0x46345020 => true,
        _ => false,
    }
}

/// Returns whether a buffer is M4V video data.
pub fn is_m4v(buf: &[u8]) -> (r: bool)
    ensures
        r == spec_is_m4v(buf@),
{
    buf.len() > 10 && compare_bytes(buf, &[0x66, 0x74, 0x79, 0x70, 0x4D, 0x34, 0x56], 4)
}

/// Returns whether a buffer is MKV video data.
pub fn is_mkv(buf: &[u8]) -> (r: bool)
    ensures
        r == spec_is_mkv(buf@),
{
    (buf.len() > 15 && compare_bytes(
        buf,
        &[
            0x1A, 0x45, 0xDF, 0xA3, 0x93, 0x42, 0x82, 0x88, 0x6D, 0x61, 0x74, 0x72, 0x6F, 0x73,
            0x6B, 0x61,
        ],
        0,
    )) || (buf.len() > 38 && compare_bytes(
        buf,
        &[0x6D, 0x61, 0x74, 0x72, 0x6F, 0x73, 0x6B, 0x61],
        31,
    ))
}

/// Returns whether a buffer is WEBM video data.
pub fn is_webm(buf: &[u8]) -> (r: bool)
    ensures
        r == spec_is_webm(buf@),
{
    buf.len() > 3 && compare_bytes(buf, &[0x1A, 0x45, 0xDF, 0xA3], 0)
}

/// Returns whether a buffer is Quicktime MOV video data.
pub fn is_mov(buf: &[u8]) -> (r: bool)
    ensures
        r == spec_is_mov(buf@),
{
    buf.len() > 15 && (compare_bytes(buf, &[0x00, 0x00, 0x00, 0x14, 0x66, 0x74, 0x79, 0x70], 0)
        || compare_bytes(buf, &[0x6D, 0x6F, 0x6F, 0x76], 4) || compare_bytes(
        buf,
        &[0x6D, 0x64, 0x61, 0x74],
        4,
    ) || compare_bytes(buf, &[0x6D, 0x64, 0x61, 0x74], 12))
}

/// Returns whether a buffer is AVI video data.
pub fn is_avi(buf: &[u8]) -> (r: bool)
    ensures
        r == spec_is_avi(buf@),
{
    buf.len() > 10 && compare_bytes(buf, &[0x52, 0x49, 0x46, 0x46], 0) && compare_bytes(
        buf,
        &[0x41, 0x56, 0x49],
        8,
    )
}

/// Returns whether a buffer is WMV video data.
pub fn is_wmv(buf: &[u8]) -> (r: bool)
    ensures
        r == spec_is_wmv(buf@),
{
    buf.len() > 9 && compare_bytes(
        buf,
        &[0x30, 0x26, 0xB2, 0x75, 0x8E, 0x66, 0xCF, 0x11, 0xA6, 0xD9],
        0,
    )
}

/// Returns whether a buffer is MPEG video data.
pub fn is_mpeg(buf: &[u8]) -> (r: bool)
    ensures
        r == spec_is_mpeg(buf@),
{
    buf.len() > 3 && compare_bytes(buf, &[0x00, 0x00, 0x01], 0) && buf[3] >= 0xB0 && buf[3] <= 0xBF
}

/// Returns whether a buffer is FLV video data.
pub fn is_flv(buf: &[u8]) -> (r: bool)
    ensures
        r == spec_is_flv(buf@),
{
    buf.len() > 3 && compare_bytes(buf, &[0x46, 0x4C, 0x56, 0x01], 0)
}

} // verus!
