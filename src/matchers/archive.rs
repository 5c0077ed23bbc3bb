//! Archives, compressed streams and other containers.
use vstd::prelude::*;

use super::book::{is_epub as book_is_epub, spec_is_epub};
use super::{bytes_at, compare_bytes, le_u32, read_u32_le};

verus! {

/// First magic number of the range reserved for skippable frames (shared by Zstandard and LZ4).
pub const SKIPPABLE_FRAME_FIRST: u32 = 0x184D2A50;

/// Last magic number of the range reserved for skippable frames.
pub const SKIPPABLE_FRAME_LAST: u32 = 0x184D2A5F;

pub open spec fn is_skippable_magic(m: int) -> bool {
    SKIPPABLE_FRAME_FIRST <= m <= SKIPPABLE_FRAME_LAST
}

/// Local file header, end of central directory, spanned archive, or the WinZip `PK00PK\3\4`.
pub open spec fn spec_is_zip(b: Seq<u8>) -> bool {
    &&& b.len() > 3
    &&& b[0] == 0x50
    &&& b[1] == 0x4B
    &&& {
        ||| b[2] == 0x03 && b[3] == 0x04
        ||| b[2] == 0x05 && b[3] == 0x06
        ||| b[2] == 0x07 && b[3] == 0x08
        ||| b.len() > 7 && bytes_at(b, 2, seq![0x30u8, 0x30, 0x50, 0x4B, 0x03, 0x04])
    }
}

/// `ustar` at offset 257.
pub open spec fn spec_is_tar(b: Seq<u8>) -> bool {
    b.len() > 261 && bytes_at(b, 257, seq![0x75u8, 0x73, 0x74, 0x61, 0x72])
}

/// `PAR2\0PKT`
pub open spec fn spec_is_par2(b: Seq<u8>) -> bool {
    b.len() > 8 && bytes_at(b, 0, seq![0x50u8, 0x41, 0x52, 0x32, 0x00, 0x50, 0x4B, 0x54])
}

/// `Rar!\x1A\x07` followed by 0 (v1.5) or 1 (v5).
pub open spec fn spec_is_rar(b: Seq<u8>) -> bool {
    b.len() > 6 && bytes_at(b, 0, seq![0x52u8, 0x61, 0x72, 0x21, 0x1A, 0x07]) && (b[6] == 0x00
        || b[6] == 0x01)
}

pub open spec fn spec_is_gz(b: Seq<u8>) -> bool {
    b.len() > 2 && b[0] == 0x1F && b[1] == 0x8B && b[2] == 0x08
}

pub open spec fn spec_is_bz2(b: Seq<u8>) -> bool {
    b.len() > 2 && b[0] == 0x42 && b[1] == 0x5A && b[2] == 0x68
}

/// `BZ3v1`
pub open spec fn spec_is_bz3(b: Seq<u8>) -> bool {
    b.len() > 4 && bytes_at(b, 0, seq![0x42u8, 0x5A, 0x33, 0x76, 0x31])
}

pub open spec fn spec_is_7z(b: Seq<u8>) -> bool {
    b.len() > 5 && bytes_at(b, 0, seq![0x37u8, 0x7A, 0xBC, 0xAF, 0x27, 0x1C])
}

/// `%PDF`
pub open spec fn spec_is_pdf(b: Seq<u8>) -> bool {
    b.len() > 3 && bytes_at(b, 0, seq![0x25u8, 0x50, 0x44, 0x46])
}

/// `CWS` (compressed) or `FWS`.
pub open spec fn spec_is_swf(b: Seq<u8>) -> bool {
    b.len() > 2 && (b[0] == 0x43 || b[0] == 0x46) && b[1] == 0x57 && b[2] == 0x53
}

/// `{\rtf`
pub open spec fn spec_is_rtf(b: Seq<u8>) -> bool {
    b.len() > 4 && bytes_at(b, 0, seq![0x7Bu8, 0x5C, 0x72, 0x74, 0x66])
}

/// `NES\x1A`
pub open spec fn spec_is_nes(b: Seq<u8>) -> bool {
    b.len() > 3 && bytes_at(b, 0, seq![0x4Eu8, 0x45, 0x53, 0x1A])
}

/// `Cr24`
pub open spec fn spec_is_crx(b: Seq<u8>) -> bool {
    b.len() > 3 && bytes_at(b, 0, seq![0x43u8, 0x72, 0x32, 0x34])
}

/// `MSCF` or InstallShield's `ISc(`.
pub open spec fn spec_is_cab(b: Seq<u8>) -> bool {
    b.len() > 3 && (bytes_at(b, 0, seq![0x4Du8, 0x53, 0x43, 0x46]) || bytes_at(
        b,
        0,
        seq![0x49u8, 0x53, 0x63, 0x28],
    ))
}

/// `LP` at offset 34 and one of three known version fields at offset 8.
pub open spec fn spec_is_eot(b: Seq<u8>) -> bool {
    &&& b.len() > 35
    &&& b[34] == 0x4C
    &&& b[35] == 0x50
    &&& {
        ||| bytes_at(b, 8, seq![0x02u8, 0x00, 0x01])
        ||| bytes_at(b, 8, seq![0x01u8, 0x00, 0x00])
        ||| bytes_at(b, 8, seq![0x02u8, 0x00, 0x02])
    }
}

/// `%!`
pub open spec fn spec_is_ps(b: Seq<u8>) -> bool {
    b.len() > 1 && b[0] == 0x25 && b[1] == 0x21
}

pub open spec fn spec_is_xz(b: Seq<u8>) -> bool {
    b.len() > 5 && bytes_at(b, 0, seq![0xFDu8, 0x37, 0x7A, 0x58, 0x5A, 0x00])
}

/// `SQLi`
pub open spec fn spec_is_sqlite(b: Seq<u8>) -> bool {
    b.len() > 3 && bytes_at(b, 0, seq![0x53u8, 0x51, 0x4C, 0x69])
}

/// `!<arch>\ndebian-binary`
pub open spec fn spec_is_deb(b: Seq<u8>) -> bool {
    b.len() > 20 && bytes_at(
        b,
        0,
        seq![
            0x21u8, 0x3C, 0x61, 0x72, 0x63, 0x68, 0x3E, 0x0A, 0x64, 0x65, 0x62, 0x69, 0x61,
            0x6E, 0x2D, 0x62, 0x69, 0x6E, 0x61, 0x72, 0x79,
        ],
    )
}

/// `!<arch>`
pub open spec fn spec_is_ar(b: Seq<u8>) -> bool {
    b.len() > 6 && bytes_at(b, 0, seq![0x21u8, 0x3C, 0x61, 0x72, 0x63, 0x68, 0x3E])
}

pub open spec fn spec_is_z(b: Seq<u8>) -> bool {
    b.len() > 1 && b[0] == 0x1F && (b[1] == 0xA0 || b[1] == 0x9D)
}

/// `LZIP`
pub open spec fn spec_is_lz(b: Seq<u8>) -> bool {
    b.len() > 3 && bytes_at(b, 0, seq![0x4Cu8, 0x5A, 0x49, 0x50])
}

pub open spec fn spec_is_rpm(b: Seq<u8>) -> bool {
    b.len() > 96 && bytes_at(b, 0, seq![0xEDu8, 0xAB, 0xEE, 0xDB])
}

/// `DICM` after the 128-byte preamble.
pub open spec fn spec_is_dcm(b: Seq<u8>) -> bool {
    b.len() > 131 && bytes_at(b, 128, seq![0x44u8, 0x49, 0x43, 0x4D])
}

/// A Zstandard frame, possibly behind a chain of skippable frames. Each skippable frame holds
/// its magic, then a little-endian length, then that many bytes.
pub open spec fn spec_is_zst(b: Seq<u8>) -> bool
    decreases b.len(),
{
    if b.len() > 3 && bytes_at(b, 0, seq![0x28u8, 0xB5, 0x2F, 0xFD]) {
        true
    } else if b.len() < 8 || !is_skippable_magic(le_u32(b, 0)) || b.len() < 8 + le_u32(b, 4) {
        false
    } else {
        spec_is_zst(b.subrange(8 + le_u32(b, 4), b.len() as int))
    }
}

/// An LZ4 frame, possibly behind a chain of skippable frames.
pub open spec fn spec_is_lz4(b: Seq<u8>) -> bool
    decreases b.len(),
{
    if b.len() > 3 && bytes_at(b, 0, seq![0x04u8, 0x22, 0x4D, 0x18]) {
        true
    } else if b.len() < 8 || !is_skippable_magic(le_u32(b, 0)) || b.len() < 8 + le_u32(b, 4) {
        false
    } else {
        spec_is_lz4(b.subrange(8 + le_u32(b, 4), b.len() as int))
    }
}

/// The compound-file (OLE2) magic.
pub open spec fn spec_is_msi(b: Seq<u8>) -> bool {
    b.len() > 7 && bytes_at(b, 0, seq![0xD0u8, 0xCF, 0x11, 0xE0, 0xA1, 0xB1, 0x1A, 0xE1])
}

/// Old binary format in either byte order, or the `070701` "newc" ASCII format.
pub open spec fn spec_is_cpio(b: Seq<u8>) -> bool {
    ||| b.len() > 1 && ((b[0] == 0xC7 && b[1] == 0x71) || (b[0] == 0x71 && b[1] == 0xC7))
    ||| b.len() > 6 && bytes_at(b, 0, seq![0x30u8, 0x37, 0x30, 0x37, 0x30, 0x31])
}

/// Returns whether a buffer is an ePub.
pub fn is_epub(buf: &[u8]) -> (r: bool)
    ensures
        r == spec_is_epub(buf@),
{
    book_is_epub(buf)
}

/// Returns whether a buffer is a zip archive.
pub fn is_zip(buf: &[u8]) -> (r: bool)
    ensures
        r == spec_is_zip(buf@),
{
    buf.len() > 3 && buf[0] == 0x50 && buf[1] == 0x4B && ((buf[2] == 0x03 && buf[3] == 0x04) || (
    buf[2] == 0x05 && buf[3] == 0x06) || (buf[2] == 0x07 && buf[3] == 0x08) || (
    // winzip
    buf.len() > 7 && compare_bytes(buf, &[0x30, 0x30, 0x50, 0x4B, 0x03, 0x04], 2)))
}

/// Returns whether a buffer is a tar archive.
pub fn is_tar(buf: &[u8]) -> (r: bool)
    ensures
        r == spec_is_tar(buf@),
{
    buf.len() > 261 && compare_bytes(buf, &[0x75, 0x73, 0x74, 0x61, 0x72], 257)
}

/// Returns whether a buffer is a PAR2 recovery file.
pub fn is_par2(buf: &[u8]) -> (r: bool)
    ensures
        r == spec_is_par2(buf@),
{
    buf.len() > 8 && compare_bytes(buf, &[0x50, 0x41, 0x52, 0x32, 0x00, 0x50, 0x4B, 0x54], 0)
}

/// Returns whether a buffer is a RAR archive.
pub fn is_rar(buf: &[u8]) -> (r: bool)
    ensures
        r == spec_is_rar(buf@),
{
    buf.len() > 6 && compare_bytes(buf, &[0x52, 0x61, 0x72, 0x21, 0x1A, 0x07], 0) && (buf[6]
        == 0x00 || buf[6] == 0x01)
}

/// Returns whether a buffer is a gzip archive.
pub fn is_gz(buf: &[u8]) -> (r: bool)
    ensures
        r == spec_is_gz(buf@),
{
    buf.len() > 2 && buf[0] == 0x1F && buf[1] == 0x8B && buf[2] == 0x08
}

/// Returns whether a buffer is a bzip2 archive.
pub fn is_bz2(buf: &[u8]) -> (r: bool)
    ensures
        r == spec_is_bz2(buf@),
{
    buf.len() > 2 && buf[0] == 0x42 && buf[1] == 0x5A && buf[2] == 0x68
}

/// Returns whether a buffer is a bzip3 archive.
pub fn is_bz3(buf: &[u8]) -> (r: bool)
    ensures
        r == spec_is_bz3(buf@),
{
    buf.len() > 4 && compare_bytes(buf, &[0x42, 0x5A, 0x33, 0x76, 0x31], 0)
}

/// Returns whether a buffer is a 7z archive.
pub fn is_7z(buf: &[u8]) -> (r: bool)
    ensures
        r == spec_is_7z(buf@),
{
    buf.len() > 5 && compare_bytes(buf, &[0x37, 0x7A, 0xBC, 0xAF, 0x27, 0x1C], 0)
}

/// Returns whether a buffer is a PDF.
pub fn is_pdf(buf: &[u8]) -> (r: bool)
    ensures
        r == spec_is_pdf(buf@),
{
    buf.len() > 3 && compare_bytes(buf, &[0x25, 0x50, 0x44, 0x46], 0)
}

/// Returns whether a buffer is a SWF.
pub fn is_swf(buf: &[u8]) -> (r: bool)
    ensures
        r == spec_is_swf(buf@),
{
    buf.len() > 2 && (buf[0] == 0x43 || buf[0] == 0x46) && buf[1] == 0x57 && buf[2] == 0x53
}

/// Returns whether a buffer is an RTF.
pub fn is_rtf(buf: &[u8]) -> (r: bool)
    ensures
        r == spec_is_rtf(buf@),
{
    buf.len() > 4 && compare_bytes(buf, &[0x7B, 0x5C, 0x72, 0x74, 0x66], 0)
}

/// Returns whether a buffer is a Nintendo NES ROM.
pub fn is_nes(buf: &[u8]) -> (r: bool)
    ensures
        r == spec_is_nes(buf@),
{
    buf.len() > 3 && compare_bytes(buf, &[0x4E, 0x45, 0x53, 0x1A], 0)
}

/// Returns whether a buffer is Google Chrome Extension
pub fn is_crx(buf: &[u8]) -> (r: bool)
    ensures
        r == spec_is_crx(buf@),
{
    buf.len() > 3 && compare_bytes(buf, &[0x43, 0x72, 0x32, 0x34], 0)
}

/// Returns whether a buffer is a CAB.
pub fn is_cab(buf: &[u8]) -> (r: bool)
    ensures
        r == spec_is_cab(buf@),
{
    buf.len() > 3 && (compare_bytes(buf, &[0x4D, 0x53, 0x43, 0x46], 0) || compare_bytes(
        buf,
        &[0x49, 0x53, 0x63, 0x28],
        0,
    ))
}

/// Returns whether a buffer is a eot octet stream.
pub fn is_eot(buf: &[u8]) -> (r: bool)
    ensures
        r == spec_is_eot(buf@),
{
    buf.len() > 35 && buf[34] == 0x4C && buf[35] == 0x50 && (compare_bytes(
        buf,
        &[0x02, 0x00, 0x01],
        8,
    ) || compare_bytes(buf, &[0x01, 0x00, 0x00], 8) || compare_bytes(buf, &[0x02, 0x00, 0x02], 8))
}

/// Returns whether a buffer is postscript.
pub fn is_ps(buf: &[u8]) -> (r: bool)
    ensures
        r == spec_is_ps(buf@),
{
    buf.len() > 1 && buf[0] == 0x25 && buf[1] == 0x21
}

/// Returns whether a buffer is xz archive.
pub fn is_xz(buf: &[u8]) -> (r: bool)
    ensures
        r == spec_is_xz(buf@),
{
    buf.len() > 5 && compare_bytes(buf, &[0xFD, 0x37, 0x7A, 0x58, 0x5A, 0x00], 0)
}

/// Returns whether a buffer is a sqlite3 database.
pub fn is_sqlite(buf: &[u8]) -> (r: bool)
    ensures
        r == spec_is_sqlite(buf@),
{
    buf.len() > 3 && compare_bytes(buf, &[0x53, 0x51, 0x4C, 0x69], 0)
}

/// Returns whether a buffer is a deb archive.
pub fn is_deb(buf: &[u8]) -> (r: bool)
    ensures
        r == spec_is_deb(buf@),
{
    buf.len() > 20 && compare_bytes(
        buf,
        &[
            0x21, 0x3C, 0x61, 0x72, 0x63, 0x68, 0x3E, 0x0A, 0x64, 0x65, 0x62, 0x69, 0x61, 0x6E,
            0x2D, 0x62, 0x69, 0x6E, 0x61, 0x72, 0x79,
        ],
        0,
    )
}

/// Returns whether a buffer is a ar archive.
pub fn is_ar(buf: &[u8]) -> (r: bool)
    ensures
        r == spec_is_ar(buf@),
{
    buf.len() > 6 && compare_bytes(buf, &[0x21, 0x3C, 0x61, 0x72, 0x63, 0x68, 0x3E], 0)
}

/// Returns whether a buffer is a z archive.
pub fn is_z(buf: &[u8]) -> (r: bool)
    ensures
        r == spec_is_z(buf@),
{
    buf.len() > 1 && buf[0] == 0x1F && (buf[1] == 0xA0 || buf[1] == 0x9D)
}

/// Returns whether a buffer is a lzip archive.
pub fn is_lz(buf: &[u8]) -> (r: bool)
    ensures
        r == spec_is_lz(buf@),
{
    buf.len() > 3 && compare_bytes(buf, &[0x4C, 0x5A, 0x49, 0x50], 0)
}

/// Returns whether a buffer is an RPM.
pub fn is_rpm(buf: &[u8]) -> (r: bool)
    ensures
        r == spec_is_rpm(buf@),
{
    buf.len() > 96 && compare_bytes(buf, &[0xED, 0xAB, 0xEE, 0xDB], 0)
}

/// Returns whether a buffer is a dcm archive.
pub fn is_dcm(buf: &[u8]) -> (r: bool)
    ensures
        r == spec_is_dcm(buf@),
{
    buf.len() > 131 && compare_bytes(buf, &[0x44, 0x49, 0x43, 0x4D], 128)
}

/// Reads the header of a skippable frame: `Some(n)` when `buf` starts with one whose `n`
/// payload bytes fit in the buffer, so that the next frame starts at `8 + n`.
fn skippable_frame_len(buf: &[u8]) -> (r: Option<usize>)
    ensures
        r is Some <==> (buf@.len() >= 8 && is_skippable_magic(le_u32(buf@, 0)) && buf@.len() >= 8
            + le_u32(buf@, 4)),
        r matches Some(n) ==> n == le_u32(buf@, 4) && 8 + n <= buf@.len(),
{
    if buf.len() < 8 {
        return None;
    }
    let magic = read_u32_le(buf, 0);
    if magic < SKIPPABLE_FRAME_FIRST || magic > SKIPPABLE_FRAME_LAST {
        return None;
    }
    let data_len = read_u32_le(buf, 4) as usize;
    if data_len > buf.len() - 8 {
        return None;
    }
    Some(data_len)
}

/// Returns whether a buffer is a Zstd archive.
///
/// Zstandard data is a sequence of frames, each either a Zstandard frame or a skippable frame;
/// skippable frames are stepped over until a Zstandard frame shows up.
pub fn is_zst(buf: &[u8]) -> (r: bool)
    ensures
        r == spec_is_zst(buf@),
    decreases buf@.len(),
{
    if buf.len() > 3 && compare_bytes(buf, &[0x28, 0xB5, 0x2F, 0xFD], 0) {
        return true;
    }
    match skippable_frame_len(buf) {
        None => false,
        Some(data_len) => is_zst(&buf[8 + data_len..buf.len()]),
    }
}

/// Returns whether a buffer is a LZ4 archive.
///
/// LZ4 data is a sequence of frames, each either an LZ4 frame or a skippable frame.
pub fn is_lz4(buf: &[u8]) -> (r: bool)
    ensures
        r == spec_is_lz4(buf@),
    decreases buf@.len(),
{
    if buf.len() > 3 && compare_bytes(buf, &[0x04, 0x22, 0x4D, 0x18], 0) {
        return true;
    }
    match skippable_frame_len(buf) {
        None => false,
        Some(data_len) => is_lz4(&buf[8 + data_len..buf.len()]),
    }
}

/// Returns whether a buffer is a MSI Windows Installer archive.
pub fn is_msi(buf: &[u8]) -> (r: bool)
    ensures
        r == spec_is_msi(buf@),
{
    buf.len() > 7 && compare_bytes(buf, &[0xD0, 0xCF, 0x11, 0xE0, 0xA1, 0xB1, 0x1A, 0xE1], 0)
}

/// Returns whether a buffer is a CPIO archive.
pub fn is_cpio(buf: &[u8]) -> (r: bool)
    ensures
        r == spec_is_cpio(buf@),
{
    (buf.len() > 1 && ((buf[0] == 0xC7 && buf[1] == 0x71) || (buf[0] == 0x71 && buf[1] == 0xC7)))
        || (buf.len() > 6 && compare_bytes(buf, &[0x30, 0x37, 0x30, 0x37, 0x30, 0x31], 0))
}

} // verus!
