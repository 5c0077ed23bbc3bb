//! Image formats.
use vstd::prelude::*;

use super::{be_u32, bytes_at, compare_bytes, read_u32_be};

verus! {

pub open spec fn spec_is_jpeg(b: Seq<u8>) -> bool {
    b.len() > 2 && b[0] == 0xFF && b[1] == 0xD8 && b[2] == 0xFF
}

/// The JPEG 2000 signature box.
pub open spec fn spec_is_jpeg2000(b: Seq<u8>) -> bool {
    b.len() > 12 && bytes_at(
        b,
        0,
        seq![0x00u8, 0x00, 0x00, 0x0C, 0x6A, 0x50, 0x20, 0x20, 0x0D, 0x0A, 0x87, 0x0A, 0x00],
    )
}

pub open spec fn spec_is_png(b: Seq<u8>) -> bool {
    b.len() > 3 && bytes_at(b, 0, seq![0x89u8, 0x50, 0x4E, 0x47])
}

/// `GIF`
pub open spec fn spec_is_gif(b: Seq<u8>) -> bool {
    b.len() > 2 && b[0] == 0x47 && b[1] == 0x49 && b[2] == 0x46
}

/// `WEBP` as the RIFF form type.
pub open spec fn spec_is_webp(b: Seq<u8>) -> bool {
    b.len() > 11 && bytes_at(b, 8, seq![0x57u8, 0x45, 0x42, 0x50])
}

/// A TIFF header in either byte order (`II*\0` or `MM\0*`).
pub open spec fn tiff_header(b: Seq<u8>) -> bool {
    bytes_at(b, 0, seq![0x49u8, 0x49, 0x2A, 0x00]) || bytes_at(b, 0, seq![0x4Du8, 0x4D, 0x00, 0x2A])
}

/// A TIFF header followed by `CR` and major version 2 at offset 8.
pub open spec fn spec_is_cr2(b: Seq<u8>) -> bool {
    b.len() > 10 && tiff_header(b) && bytes_at(b, 8, seq![0x43u8, 0x52, 0x02])
}

/// A TIFF header that is not a Canon raw image.
pub open spec fn spec_is_tiff(b: Seq<u8>) -> bool {
    b.len() > 9 && tiff_header(b) && b[8] != 0x43 && b[9] != 0x52 && !spec_is_cr2(b)
}

/// `BM`
pub open spec fn spec_is_bmp(b: Seq<u8>) -> bool {
    b.len() > 1 && b[0] == 0x42 && b[1] == 0x4D
}

pub open spec fn spec_is_jxr(b: Seq<u8>) -> bool {
    b.len() > 2 && b[0] == 0x49 && b[1] == 0x49 && b[2] == 0xBC
}

/// `8BPS`
pub open spec fn spec_is_psd(b: Seq<u8>) -> bool {
    b.len() > 3 && bytes_at(b, 0, seq![0x38u8, 0x42, 0x50, 0x53])
}

pub open spec fn spec_is_ico(b: Seq<u8>) -> bool {
    b.len() > 3 && bytes_at(b, 0, seq![0x00u8, 0x00, 0x01, 0x00])
}

/// A bare JPEG XL codestream, or the JPEG XL signature box.
pub open spec fn spec_is_jxl(b: Seq<u8>) -> bool {
    ||| b.len() > 2 && b[0] == 0xFF && b[1] == 0x0A
    ||| b.len() > 12 && bytes_at(
        b,
        0,
        seq![0x00u8, 0x00, 0x00, 0x0C, 0x4A, 0x58, 0x4C, 0x20, 0x0D, 0x0A, 0x87, 0x0A],
    )
}

/// ISO base media file format: an `ftyp` box first, whose declared size fits in the buffer.
pub open spec fn spec_is_isobmff(b: Seq<u8>) -> bool {
    b.len() >= 16 && bytes_at(b, 4, seq![0x66u8, 0x74, 0x79, 0x70]) && b.len() >= be_u32(b, 0)
}

/// How many compatible brands of the `ftyp` box are looked at: those its size declares after
/// the 16 header bytes, and no more than the buffer holds.
pub open spec fn ftyp_brand_count(b: Seq<u8>) -> int {
    let declared = if be_u32(b, 0) / 4 >= 4 {
        be_u32(b, 0) / 4 - 4
    } else {
        0
    };
    let available = (b.len() - 16) / 4;
    if declared < available {
        declared
    } else {
        available
    }
}

/// The `k`-th compatible brand of the `ftyp` box is `brand`.
pub open spec fn compatible_brand(b: Seq<u8>, k: int, brand: Seq<u8>) -> bool {
    0 <= k < ftyp_brand_count(b) && bytes_at(b, 16 + 4 * k, brand)
}

pub open spec fn brand_heic() -> Seq<u8> {
    seq![0x68u8, 0x65, 0x69, 0x63]
}

pub open spec fn brand_heix() -> Seq<u8> {
    seq![0x68u8, 0x65, 0x69, 0x78]
}

pub open spec fn brand_mif1() -> Seq<u8> {
    seq![0x6Du8, 0x69, 0x66, 0x31]
}

pub open spec fn brand_msf1() -> Seq<u8> {
    seq![0x6Du8, 0x73, 0x66, 0x31]
}

pub open spec fn brand_avif() -> Seq<u8> {
    seq![0x61u8, 0x76, 0x69, 0x66]
}

pub open spec fn brand_avis() -> Seq<u8> {
    seq![0x61u8, 0x76, 0x69, 0x73]
}

/// Major brand `heic` or `heix`; or major brand `mif1` or `msf1` with `heic` among the
/// compatible brands.
pub open spec fn spec_is_heif(b: Seq<u8>) -> bool {
    &&& b.len() > 0
    &&& spec_is_isobmff(b)
    &&& {
        ||| bytes_at(b, 8, brand_heic()) || bytes_at(b, 8, brand_heix())
        ||| (bytes_at(b, 8, brand_mif1()) || bytes_at(b, 8, brand_msf1())) && exists|k: int|
            compatible_brand(b, k, brand_heic())
    }
}

/// `avif` or `avis` as the major brand or as a compatible brand.
pub open spec fn spec_is_avif(b: Seq<u8>) -> bool {
    &&& b.len() > 0
    &&& spec_is_isobmff(b)
    &&& {
        ||| bytes_at(b, 8, brand_avif()) || bytes_at(b, 8, brand_avis())
        ||| exists|k: int|
            compatible_brand(b, k, brand_avif()) || compatible_brand(b, k, brand_avis())
    }
}

/// A ZIP whose first entry is the `mimetype` file holding `image/openraster`.
pub open spec fn spec_is_ora(b: Seq<u8>) -> bool {
    &&& b.len() > 57
    &&& bytes_at(b, 0, seq![0x50u8, 0x4B, 0x03, 0x04])
    &&& bytes_at(
        b,
        30,
        seq![
            0x6Du8, 0x69, 0x6D, 0x65, 0x74, 0x79, 0x70, 0x65, 0x69, 0x6D, 0x61, 0x67, 0x65, 0x2F,
            0x6F, 0x70, 0x65, 0x6E, 0x72, 0x61, 0x73, 0x74, 0x65, 0x72,
        ],
    )
}

/// `AT&TFORM` with `DJV` as the form type.
pub open spec fn spec_is_djvu(b: Seq<u8>) -> bool {
    b.len() > 14 && bytes_at(b, 0, seq![0x41u8, 0x54, 0x26, 0x54, 0x46, 0x4F, 0x52, 0x4D])
        && bytes_at(b, 12, seq![0x44u8, 0x4A, 0x56])
}

/// Returns whether a buffer is JPEG image data.
pub fn is_jpeg(buf: &[u8]) -> (r: bool)
    ensures
        r == spec_is_jpeg(buf@),
{
    buf.len() > 2 && buf[0] == 0xFF && buf[1] == 0xD8 && buf[2] == 0xFF
}

/// Returns whether a buffer is jpg2 image data.
pub fn is_jpeg2000(buf: &[u8]) -> (r: bool)
    ensures
        r == spec_is_jpeg2000(buf@),
{
    buf.len() > 12 && compare_bytes(
        buf,
        &[0x00, 0x00, 0x00, 0x0C, 0x6A, 0x50, 0x20, 0x20, 0x0D, 0x0A, 0x87, 0x0A, 0x00],
        0,
    )
}

/// Returns whether a buffer is PNG image data.
pub fn is_png(buf: &[u8]) -> (r: bool)
    ensures
        r == spec_is_png(buf@),
{
    buf.len() > 3 && compare_bytes(buf, &[0x89, 0x50, 0x4E, 0x47], 0)
}

/// Returns whether a buffer is GIF image data.
pub fn is_gif(buf: &[u8]) -> (r: bool)
    ensures
        r == spec_is_gif(buf@),
{
    buf.len() > 2 && buf[0] == 0x47 && buf[1] == 0x49 && buf[2] == 0x46
}

/// Returns whether a buffer is WEBP image data.
pub fn is_webp(buf: &[u8]) -> (r: bool)
    ensures
        r == spec_is_webp(buf@),
{
    buf.len() > 11 && compare_bytes(buf, &[0x57, 0x45, 0x42, 0x50], 8)
}

fn has_tiff_header(buf: &[u8]) -> (r: bool)
    ensures
        r == tiff_header(buf@),
{
    compare_bytes(buf, &[0x49, 0x49, 0x2A, 0x00], 0) || compare_bytes(buf, &[0x4D, 0x4D, 0x00, 0x2A], 0)
}

/// Returns whether a buffer is Canon CR2 image data.
pub fn is_cr2(buf: &[u8]) -> (r: bool)
    ensures
        r == spec_is_cr2(buf@),
{
    // `CR` and the CR2 major version follow the TIFF header.
    buf.len() > 10 && has_tiff_header(buf) && compare_bytes(buf, &[0x43, 0x52, 0x02], 8)
}

/// Returns whether a buffer is TIFF image data.
pub fn is_tiff(buf: &[u8]) -> (r: bool)
    ensures
        r == spec_is_tiff(buf@),
{
    // Canon raw images carry a TIFF header too; they are told apart here.
    buf.len() > 9 && has_tiff_header(buf) && buf[8] != 0x43 && buf[9] != 0x52 && !is_cr2(buf)
}

/// Returns whether a buffer is BMP image data.
pub fn is_bmp(buf: &[u8]) -> (r: bool)
    ensures
        r == spec_is_bmp(buf@),
{
    buf.len() > 1 && buf[0] == 0x42 && buf[1] == 0x4D
}

/// Returns whether a buffer is jxr image data.
pub fn is_jxr(buf: &[u8]) -> (r: bool)
    ensures
        r == spec_is_jxr(buf@),
{
    buf.len() > 2 && buf[0] == 0x49 && buf[1] == 0x49 && buf[2] == 0xBC
}

/// Returns whether a buffer is Photoshop PSD image data.
pub fn is_psd(buf: &[u8]) -> (r: bool)
    ensures
        r == spec_is_psd(buf@),
{
    buf.len() > 3 && compare_bytes(buf, &[0x38, 0x42, 0x50, 0x53], 0)
}

/// Returns whether a buffer is ICO icon image data.
pub fn is_ico(buf: &[u8]) -> (r: bool)
    ensures
        r == spec_is_ico(buf@),
{
    buf.len() > 3 && compare_bytes(buf, &[0x00, 0x00, 0x01, 0x00], 0)
}

/// Returns whether a buffer is JPEG XL (JXL) image data.
pub fn is_jxl(buf: &[u8]) -> (r: bool)
    ensures
        r == spec_is_jxl(buf@),
{
    (buf.len() > 2 && buf[0] == 0xFF && buf[1] == 0x0A) || (buf.len() > 12 && compare_bytes(
        buf,
        &[0x00, 0x00, 0x00, 0x0C, 0x4A, 0x58, 0x4C, 0x20, 0x0D, 0x0A, 0x87, 0x0A],
        0,
    ))
}

/// Whether the given buffer represents ISO Base Media File Format data.
pub fn is_isobmff(buf: &[u8]) -> (r: bool)
    ensures
        r == spec_is_isobmff(buf@),
{
    if buf.len() < 16 {
        return false;
    }
    if !compare_bytes(buf, &[0x66, 0x74, 0x79, 0x70], 4) {
        return false;
    }
    let ftyp_length = read_u32_be(buf, 0) as usize;
    buf.len() >= ftyp_length
}

/// The major brand, the minor version and the number of compatible brands of the `ftyp` box at
/// the start of the buffer; compatible brand `k` is stored at `16 + 4 * k`.
pub fn get_ftyp(buf: &[u8]) -> (r: Option<(&[u8], &[u8], usize)>)
    ensures
        r is Some <==> buf@.len() >= 16,
        r matches Some((major, minor, count)) ==> {
            &&& major@ == buf@.subrange(8, 12)
            &&& minor@ == buf@.subrange(12, 16)
            &&& count == ftyp_brand_count(buf@)
            &&& 16 + 4 * count <= buf@.len()
        },
{
    if buf.len() < 16 {
        return None;
    }
    let ftyp_length = read_u32_be(buf, 0) as usize;
    let major = &buf[8..12];
    let minor = &buf[12..16];
    let declared = (ftyp_length / 4).saturating_sub(4);
    let available = (buf.len() - 16) / 4;
    let count = if declared < available {
        declared
    } else {
        available
    };
    Some((major, minor, count))
}

/// Whether `brand` is among the first `count` compatible brands.
fn has_compatible_brand(buf: &[u8], count: usize, brand: &[u8]) -> (r: bool)
    requires
        count == ftyp_brand_count(buf@),
        16 + 4 * count <= buf@.len(),
    ensures
        r == exists|k: int| compatible_brand(buf@, k, brand@),
{
    let mut k: usize = 0;
    while k < count
        invariant
            count == ftyp_brand_count(buf@),
            16 + 4 * count <= buf@.len(),
            0 <= k <= count,
            forall|j: int| 0 <= j < k ==> !compatible_brand(buf@, j, brand@),
        decreases count - k,
    {
        if compare_bytes(buf, brand, 16 + 4 * k) {
            assert(compatible_brand(buf@, k as int, brand@));
            return true;
        }
        k += 1;
    }
    false
}

/// Returns whether a buffer is HEIF image data.
pub fn is_heif(buf: &[u8]) -> (r: bool)
    ensures
        r == spec_is_heif(buf@),
{
    if buf.len() == 0 || !is_isobmff(buf) {
        return false;
    }
    match get_ftyp(buf) {
        None => false,
        Some((_major, _minor, count)) => {
            if compare_bytes(buf, &[0x68, 0x65, 0x69, 0x63], 8) || compare_bytes(
                buf,
                &[0x68, 0x65, 0x69, 0x78],
                8,
            ) {
                return true;
            }
            if compare_bytes(buf, &[0x6D, 0x69, 0x66, 0x31], 8) || compare_bytes(
                buf,
                &[0x6D, 0x73, 0x66, 0x31],
                8,
            ) {
                return has_compatible_brand(buf, count, &[0x68, 0x65, 0x69, 0x63]);
            }
            false
        },
    }
}

/// Returns whether a buffer is AVIF image data.
pub fn is_avif(buf: &[u8]) -> (r: bool)
    ensures
        r == spec_is_avif(buf@),
{
    if buf.len() == 0 || !is_isobmff(buf) {
        return false;
    }
    match get_ftyp(buf) {
        None => false,
        Some((_major, _minor, count)) => {
            if compare_bytes(buf, &[0x61, 0x76, 0x69, 0x66], 8) || compare_bytes(
                buf,
                &[0x61, 0x76, 0x69, 0x73],
                8,
            ) {
                return true;
            }
            let avif = has_compatible_brand(buf, count, &[0x61, 0x76, 0x69, 0x66]);
            let avis = has_compatible_brand(buf, count, &[0x61, 0x76, 0x69, 0x73]);
            avif || avis
        },
    }
}

/// Returns whether a buffer is OpenRaster image data.
pub fn is_ora(buf: &[u8]) -> (r: bool)
    ensures
        r == spec_is_ora(buf@),
{
    buf.len() > 57 && compare_bytes(buf, &[0x50, 0x4B, 0x03, 0x04], 0) && compare_bytes(
        buf,
        &[
            0x6D, 0x69, 0x6D, 0x65, 0x74, 0x79, 0x70, 0x65, 0x69, 0x6D, 0x61, 0x67, 0x65, 0x2F,
            0x6F, 0x70, 0x65, 0x6E, 0x72, 0x61, 0x73, 0x74, 0x65, 0x72,
        ],
        30,
    )
}

/// Returns whether a buffer is DjVu image data.
pub fn is_djvu(buf: &[u8]) -> (r: bool)
    ensures
        r == spec_is_djvu(buf@),
{
    buf.len() > 14 && compare_bytes(buf, &[0x41, 0x54, 0x26, 0x54, 0x46, 0x4F, 0x52, 0x4D], 0)
        && compare_bytes(buf, &[0x44, 0x4A, 0x56], 12)
}

} // verus!
