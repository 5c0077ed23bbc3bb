//! Audio formats.
use vstd::prelude::*;

use super::{bytes_at, compare_bytes};

verus! {

/// `MThd`
pub open spec fn spec_is_midi(b: Seq<u8>) -> bool {
    b.len() > 3 && bytes_at(b, 0, seq![0x4Du8, 0x54, 0x68, 0x64])
}

/// An ID3v2 tag, or an MPEG-1 Layer III frame sync.
pub open spec fn spec_is_mp3(b: Seq<u8>) -> bool {
    b.len() > 2 && ((b[0] == 0x49 && b[1] == 0x44 && b[2] == 0x33) || (b[0] == 0xFF && b[1]
        == 0xFB))
}

/// `ftypM4A` at offset 4, or `M4A ` at the start.
pub open spec fn spec_is_m4a(b: Seq<u8>) -> bool {
    b.len() > 10 && (bytes_at(b, 4, seq![0x66u8, 0x74, 0x79, 0x70, 0x4D, 0x34, 0x41])
        || bytes_at(b, 0, seq![0x4Du8, 0x34, 0x41, 0x20]))
}

/// `OggS`
pub open spec fn spec_is_ogg(b: Seq<u8>) -> bool {
    b.len() > 3 && bytes_at(b, 0, seq![0x4Fu8, 0x67, 0x67, 0x53])
}

/// An Ogg page whose first packet is an `OpusHead`.
pub open spec fn spec_is_ogg_opus(b: Seq<u8>) -> bool {
    spec_is_ogg(b) && b.len() > 35 && bytes_at(
        b,
        28,
        seq![0x4Fu8, 0x70, 0x75, 0x73, 0x48, 0x65, 0x61, 0x64],
    )
}

/// `fLaC`
pub open spec fn spec_is_flac(b: Seq<u8>) -> bool {
    b.len() > 3 && bytes_at(b, 0, seq![0x66u8, 0x4C, 0x61, 0x43])
}

/// `RIFF` with form type `WAVE`.
pub open spec fn spec_is_wav(b: Seq<u8>) -> bool {
    b.len() > 11 && bytes_at(b, 0, seq![0x52u8, 0x49, 0x46, 0x46]) && bytes_at(
        b,
        8,
        seq![0x57u8, 0x41, 0x56, 0x45],
    )
}

/// `#!AMR\n`
pub open spec fn spec_is_amr(b: Seq<u8>) -> bool {
    b.len() > 11 && bytes_at(b, 0, seq![0x23u8, 0x21, 0x41, 0x4D, 0x52, 0x0A])
}

/// An ADTS frame sync for MPEG-4 or MPEG-2 AAC.
pub open spec fn spec_is_aac(b: Seq<u8>) -> bool {
    b.len() > 1 && b[0] == 0xFF && (b[1] == 0xF1 || b[1] == 0xF9)
}

/// `FORM` with form type `AIFF`.
pub open spec fn spec_is_aiff(b: Seq<u8>) -> bool {
    b.len() > 11 && bytes_at(b, 0, seq![0x46u8, 0x4F, 0x52, 0x4D]) && bytes_at(
        b,
        8,
        seq![0x41u8, 0x49, 0x46, 0x46],
    )
}

/// `DSD `
pub open spec fn spec_is_dsf(b: Seq<u8>) -> bool {
    b.len() > 4 && bytes_at(b, 0, seq![0x44u8, 0x53, 0x44, 0x20])
}

/// `MAC `
pub open spec fn spec_is_ape(b: Seq<u8>) -> bool {
    b.len() > 4 && bytes_at(b, 0, seq![0x4Du8, 0x41, 0x43, 0x20])
}

/// Returns whether a buffer is MIDI data.
pub fn is_midi(buf: &[u8]) -> (r: bool)
    ensures
        r == spec_is_midi(buf@),
{
    buf.len() > 3 && compare_bytes(buf, &[0x4D, 0x54, 0x68, 0x64], 0)
}

/// Returns whether a buffer is MP3 data.
pub fn is_mp3(buf: &[u8]) -> (r: bool)
    ensures
        r == spec_is_mp3(buf@),
{
    // The final bit of the frame sync (has CRC) may or may not be set.
    buf.len() > 2 && ((buf[0] == 0x49 && buf[1] == 0x44 && buf[2] == 0x33) || (buf[0] == 0xFF
        && buf[1] == 0xFB))
}

/// Returns whether a buffer is M4A data.
pub fn is_m4a(buf: &[u8]) -> (r: bool)
    ensures
        r == spec_is_m4a(buf@),
{
    buf.len() > 10 && (compare_bytes(buf, &[0x66, 0x74, 0x79, 0x70, 0x4D, 0x34, 0x41], 4)
        || compare_bytes(buf, &[0x4D, 0x34, 0x41, 0x20], 0))
}

/// Returns whether a buffer is OGG data.
pub fn is_ogg(buf: &[u8]) -> (r: bool)
    ensures
        r == spec_is_ogg(buf@),
{
    buf.len() > 3 && compare_bytes(buf, &[0x4F, 0x67, 0x67, 0x53], 0)
}

/// Returns whether a buffer is OGG Opus data.
pub fn is_ogg_opus(buf: &[u8]) -> (r: bool)
    ensures
        r == spec_is_ogg_opus(buf@),
{
    if !is_ogg(buf) {
        return false;
    }
    buf.len() > 35 && compare_bytes(buf, &[0x4F, 0x70, 0x75, 0x73, 0x48, 0x65, 0x61, 0x64], 28)
}

/// Returns whether a buffer is FLAC data.
pub fn is_flac(buf: &[u8]) -> (r: bool)
    ensures
        r == spec_is_flac(buf@),
{
    buf.len() > 3 && compare_bytes(buf, &[0x66, 0x4C, 0x61, 0x43], 0)
}

/// Returns whether a buffer is WAV data.
pub fn is_wav(buf: &[u8]) -> (r: bool)
    ensures
        r == spec_is_wav(buf@),
{
    buf.len() > 11 && compare_bytes(buf, &[0x52, 0x49, 0x46, 0x46], 0) && compare_bytes(
        buf,
        &[0x57, 0x41, 0x56, 0x45],
        8,
    )
}

/// Returns whether a buffer is AMR data.
pub fn is_amr(buf: &[u8]) -> (r: bool)
    ensures
        r == spec_is_amr(buf@),
{
    buf.len() > 11 && compare_bytes(buf, &[0x23, 0x21, 0x41, 0x4D, 0x52, 0x0A], 0)
}

/// Returns whether a buffer is AAC data.
pub fn is_aac(buf: &[u8]) -> (r: bool)
    ensures
        r == spec_is_aac(buf@),
{
    buf.len() > 1 && buf[0] == 0xFF && (buf[1] == 0xF1 || buf[1] == 0xF9)
}

/// Returns whether a buffer is AIFF data.
pub fn is_aiff(buf: &[u8]) -> (r: bool)
    ensures
        r == spec_is_aiff(buf@),
{
    buf.len() > 11 && compare_bytes(buf, &[0x46, 0x4F, 0x52, 0x4D], 0) && compare_bytes(
        buf,
        &[0x41, 0x49, 0x46, 0x46],
        8,
    )
}

/// Returns whether a buffer is DSF data.
pub fn is_dsf(buf: &[u8]) -> (r: bool)
    ensures
        r == spec_is_dsf(buf@),
{
    buf.len() > 4 && compare_bytes(buf, &[0x44, 0x53, 0x44, 0x20], 0)
}

/// Returns whether a buffer is APE (Monkey's Audio) data.
pub fn is_ape(buf: &[u8]) -> (r: bool)
    ensures
        r == spec_is_ape(buf@),
{
    buf.len() > 4 && compare_bytes(buf, &[0x4D, 0x41, 0x43, 0x20], 0)
}

} // verus!
