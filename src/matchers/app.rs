//! Executables, bytecode and certificates.
use vstd::prelude::*;

use super::{be_u16, be_u32, bytes_at, compare_bytes, read_u16_be, read_u32_be};

verus! {

/// `\0asm` followed by binary format version 1.
pub open spec fn spec_is_wasm(b: Seq<u8>) -> bool {
    b.len() >= 8 && bytes_at(b, 0, seq![0x00u8, 0x61, 0x73, 0x6D, 0x01, 0x00, 0x00, 0x00])
}

pub open spec fn spec_is_exe(b: Seq<u8>) -> bool {
    b.len() > 1 && b[0] == 0x4D && b[1] == 0x5A
}

pub open spec fn spec_is_elf(b: Seq<u8>) -> bool {
    b.len() > 52 && bytes_at(b, 0, seq![0x7Fu8, 0x45, 0x4C, 0x46])
}

/// Class files carry `CAFEBABE` and then a version of at least 45; Mach-O fat binaries share
/// the magic but carry a small architecture count there instead.
pub open spec fn spec_is_java(b: Seq<u8>) -> bool {
    &&& b.len() >= 8
    &&& bytes_at(b, 0, seq![0xCAu8, 0xFE, 0xBA, 0xBE])
    &&& be_u32(b, 4) >= 45
    &&& be_u16(b, 6) >= 45
}

pub open spec fn spec_is_llvm(b: Seq<u8>) -> bool {
    b.len() >= 2 && b[0] == 0x42 && b[1] == 0x43
}

/// 32/64-bit Mach-O in either byte order, or a fat binary (`CAFEBABE` with fewer than 45
/// architectures, which tells it apart from a Java class file).
pub open spec fn spec_is_mach(b: Seq<u8>) -> bool {
    &&& b.len() >= 4
    &&& {
        ||| (b[0] == 0xCF || b[0] == 0xCE) && bytes_at(b, 1, seq![0xFAu8, 0xED, 0xFE])
        ||| bytes_at(b, 0, seq![0xFEu8, 0xED, 0xFA]) && (b[3] == 0xCF || b[3] == 0xCE)
        ||| bytes_at(b, 0, seq![0xCAu8, 0xFE, 0xBA, 0xBE]) && b.len() >= 8 && be_u32(b, 4) < 45
    }
}

pub open spec fn spec_is_dex(b: Seq<u8>) -> bool {
    b.len() > 36 && bytes_at(b, 0, seq![0x64u8, 0x65, 0x78, 0x0A]) && b[36] == 0x70
}

/// An optimized DEX: its own magic, with a DEX header embedded at offset 40.
pub open spec fn spec_is_dey(b: Seq<u8>) -> bool {
    b.len() > 100 && bytes_at(b, 0, seq![0x64u8, 0x65, 0x79, 0x0A]) && spec_is_dex(
        b.subrange(40, 100),
    )
}

pub open spec fn spec_is_der(b: Seq<u8>) -> bool {
    b.len() > 2 && b[0] == 0x30 && b[1] == 0x82
}

pub open spec fn spec_is_coff_i386(b: Seq<u8>) -> bool {
    b.len() > 2 && b[0] == 0x4C && b[1] == 0x01
}

pub open spec fn spec_is_coff_x64(b: Seq<u8>) -> bool {
    b.len() > 2 && b[0] == 0x64 && b[1] == 0x86
}

pub open spec fn spec_is_coff_ia64(b: Seq<u8>) -> bool {
    b.len() > 2 && b[0] == 0x00 && b[1] == 0x02
}

pub open spec fn spec_is_coff(b: Seq<u8>) -> bool {
    spec_is_coff_x64(b) || spec_is_coff_i386(b) || spec_is_coff_ia64(b)
}

/// `-----BEGIN `
pub open spec fn spec_is_pem(b: Seq<u8>) -> bool {
    b.len() > 11 && bytes_at(
        b,
        0,
        seq![0x2Du8, 0x2D, 0x2D, 0x2D, 0x2D, 0x42, 0x45, 0x47, 0x49, 0x4E, 0x20],
    )
}

/// Returns whether a buffer is a wasm.
pub fn is_wasm(buf: &[u8]) -> (r: bool)
    ensures
        r == spec_is_wasm(buf@),
{
    buf.len() >= 8 && compare_bytes(buf, &[0x00, 0x61, 0x73, 0x6D, 0x01, 0x00, 0x00, 0x00], 0)
}

/// Returns whether a buffer is an EXE. DLL and EXE have the same magic number, so returns true
/// also for a DLL.
pub fn is_exe(buf: &[u8]) -> (r: bool)
    ensures
        r == spec_is_exe(buf@),
{
    buf.len() > 1 && buf[0] == 0x4D && buf[1] == 0x5A
}

/// Returns whether a buffer is a DLL. DLL and EXE have the same magic number, so returns true
/// also for an EXE.
pub fn is_dll(buf: &[u8]) -> (r: bool)
    ensures
        r == spec_is_exe(buf@),
{
    is_exe(buf)
}

/// Returns whether a buffer is an ELF.
pub fn is_elf(buf: &[u8]) -> (r: bool)
    ensures
        r == spec_is_elf(buf@),
{
    buf.len() > 52 && compare_bytes(buf, &[0x7F, 0x45, 0x4C, 0x46], 0)
}

/// Returns whether a buffer is compiled Java bytecode.
pub fn is_java(buf: &[u8]) -> (r: bool)
    ensures
        r == spec_is_java(buf@),
{
    if buf.len() < 8 || !compare_bytes(buf, &[0xCA, 0xFE, 0xBA, 0xBE], 0) {
        return false;
    }
    // The minor and major version follow the magic; class files start at major version 45.
    if read_u32_be(buf, 4) < 45 {
        return false;
    }
    read_u16_be(buf, 6) >= 45
}

/// Returns whether a buffer is LLVM Bitcode.
pub fn is_llvm(buf: &[u8]) -> (r: bool)
    ensures
        r == spec_is_llvm(buf@),
{
    buf.len() >= 2 && buf[0] == 0x42 && buf[1] == 0x43
}

/// Returns whether a buffer is a Mach-O binary.
pub fn is_mach(buf: &[u8]) -> (r: bool)
    ensures
        r == spec_is_mach(buf@),
{
    if buf.len() < 4 {
        return false;
    }
    if (buf[0] == 0xCF || buf[0] == 0xCE) && compare_bytes(buf, &[0xFA, 0xED, 0xFE], 1) {
        return true;
    }
    if compare_bytes(buf, &[0xFE, 0xED, 0xFA], 0) && (buf[3] == 0xCF || buf[3] == 0xCE) {
        return true;
    }
    compare_bytes(buf, &[0xCA, 0xFE, 0xBA, 0xBE], 0) && buf.len() >= 8 && read_u32_be(buf, 4)
        < 45
}

/// Returns whether a buffer is a Dalvik Executable (DEX).
pub fn is_dex(buf: &[u8]) -> (r: bool)
    ensures
        r == spec_is_dex(buf@),
{
    buf.len() > 36 && compare_bytes(buf, &[0x64, 0x65, 0x78, 0x0A], 0) && buf[36] == 0x70
}

/// Returns whether a buffer is a Dey Optimized Dalvik Executable (ODEX).
pub fn is_dey(buf: &[u8]) -> (r: bool)
    ensures
        r == spec_is_dey(buf@),
{
    buf.len() > 100 && compare_bytes(buf, &[0x64, 0x65, 0x79, 0x0A], 0) && is_dex(&buf[40..100])
}

/// Returns whether a buffer DER encoded X.509 certificate.
pub fn is_der(buf: &[u8]) -> (r: bool)
    ensures
        r == spec_is_der(buf@),
{
    buf.len() > 2 && buf[0] == 0x30 && buf[1] == 0x82
}

/// Returns whether a buffer is a Common Object File Format for i386 architecture.
pub fn is_coff_i386(buf: &[u8]) -> (r: bool)
    ensures
        r == spec_is_coff_i386(buf@),
{
    buf.len() > 2 && buf[0] == 0x4C && buf[1] == 0x01
}

/// Returns whether a buffer is a Common Object File Format for x64 architecture.
pub fn is_coff_x64(buf: &[u8]) -> (r: bool)
    ensures
        r == spec_is_coff_x64(buf@),
{
    buf.len() > 2 && buf[0] == 0x64 && buf[1] == 0x86
}

/// Returns whether a buffer is a Common Object File Format for Itanium architecture.
pub fn is_coff_ia64(buf: &[u8]) -> (r: bool)
    ensures
        r == spec_is_coff_ia64(buf@),
{
    buf.len() > 2 && buf[0] == 0x00 && buf[1] == 0x02
}

/// Returns whether a buffer is a Common Object File Format.
pub fn is_coff(buf: &[u8]) -> (r: bool)
    ensures
        r == spec_is_coff(buf@),
{
    is_coff_x64(buf) || is_coff_i386(buf) || is_coff_ia64(buf)
}

/// Returns whether a buffer is pem
pub fn is_pem(buf: &[u8]) -> (r: bool)
    ensures
        r == spec_is_pem(buf@),
{
    buf.len() > 11 && compare_bytes(
        buf,
        &[0x2D, 0x2D, 0x2D, 0x2D, 0x2D, 0x42, 0x45, 0x47, 0x49, 0x4E, 0x20],
        0,
    )
}

} // verus!
