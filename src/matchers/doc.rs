//! Microsoft Office documents: the compound-file (OLE2) formats and Office Open XML.
use vstd::prelude::*;

use super::{bytes_at, compare_bytes, le_u32, read_u32_le};

verus! {

/// The Office document kinds told apart by this module.
#[allow(clippy::upper_case_acronyms)]
#[derive(Debug, PartialEq, Eq, Structural)]
pub enum DocType {
    DOC,
    DOCX,
    XLS,
    XLSX,
    PPT,
    PPTX,
    OOXML,
}

/// Class id of an Excel workbook root storage.
pub const CLSID_EXCEL: u128 = 0x00020810_0000_0000_C000_000000000046;

/// Class id of an Excel 97-2003 workbook root storage.
pub const CLSID_EXCEL_97: u128 = 0x00020820_0000_0000_C000_000000000046;

/// Class id of a Word document root storage.
pub const CLSID_WORD: u128 = 0x00020906_0000_0000_C000_000000000046;

/// Class id of a PowerPoint presentation root storage.
pub const CLSID_POWERPOINT: u128 = 0x64818D10_4F9B_11CF_86EA_00AA00B929E8;

/// The class id of the root storage of the compound file that `b` holds, read as a big-endian
/// 128-bit integer; `None` when `b` is not a compound file that parses.
pub uninterp spec fn compound_file_root_clsid(b: Seq<u8>) -> Option<u128>;

/// Relies on `cfb::CompoundFile::open` (over an in-memory `std::io::Cursor`) to parse the
/// compound file, and on `CompoundFile::root_entry` and `Entry::clsid` for the class id of its
/// root storage, converted by uuid's `Uuid::as_u128`. A parse error gives `None`.
#[verifier::external_body]
fn root_clsid(buf: &[u8]) -> (r: Option<u128>)
    ensures
        r == compound_file_root_clsid(buf@),
{
    match cfb::CompoundFile::open(std::io::Cursor::new(buf)) {
        Ok(file) => Some(file.root_entry().clsid().as_u128()),
        Err(_) => None,
    }
}

/// The compound-file signature.
pub open spec fn ole2_signature() -> Seq<u8> {
    seq![0xD0u8, 0xCF, 0x11, 0xE0, 0xA1, 0xB1, 0x1A, 0xE1]
}

/// The document kind named by the class id of a compound file's root storage.
pub open spec fn doc_type_of_clsid(clsid: u128) -> Option<DocType> {
    if clsid == CLSID_EXCEL || clsid == CLSID_EXCEL_97 {
        Some(DocType::XLS)
    } else if clsid == CLSID_WORD {
        Some(DocType::DOC)
    } else if clsid == CLSID_POWERPOINT {
        Some(DocType::PPT)
    } else {
        None
    }
}

/// A compound file whose root storage has the class id of Word, Excel or PowerPoint.
pub open spec fn spec_ole2(b: Seq<u8>) -> Option<DocType> {
    if !bytes_at(b, 0, ole2_signature()) {
        None
    } else {
        match compound_file_root_clsid(b) {
            Some(clsid) => doc_type_of_clsid(clsid),
            None => None,
        }
    }
}

/// The ZIP local file header signature `PK\3\4`.
pub open spec fn zip_local_header() -> Seq<u8> {
    seq![0x50u8, 0x4B, 0x03, 0x04]
}

/// The Office Open XML part directory named at `offset`: `word/`, `ppt/` or `xl/`.
pub open spec fn spec_check_msooml(b: Seq<u8>, offset: int) -> Option<DocType> {
    if bytes_at(b, offset, seq![0x77u8, 0x6F, 0x72, 0x64, 0x2F]) {
        Some(DocType::DOCX)
    } else if bytes_at(b, offset, seq![0x70u8, 0x70, 0x74, 0x2F]) {
        Some(DocType::PPTX)
    } else if bytes_at(b, offset, seq![0x78u8, 0x6C, 0x2F]) {
        Some(DocType::XLSX)
    } else {
        None
    }
}

/// The first position `p` with `from <= p` and `p + 4 <= end` where a local file header starts.
pub open spec fn first_local_header(b: Seq<u8>, from: int, end: int) -> Option<int>
    decreases end - from,
{
    if from + 4 > end {
        None
    } else if bytes_at(b, from, zip_local_header()) {
        Some(from)
    } else {
        first_local_header(b, from + 1, end)
    }
}

/// The offset, counted from `start`, of the first local file header that lies wholly within
/// `b[start..start + range]` (cut at the end of `b`).
pub open spec fn spec_search(b: Seq<u8>, start: int, range: int) -> Option<int> {
    let end = if start + range > b.len() {
        b.len() as int
    } else {
        start + range
    };
    if start >= end {
        None
    } else {
        match first_local_header(b, start, end) {
            Some(p) => Some(p - start),
            None => None,
        }
    }
}

/// How far the header scans of an Office Open XML file look ahead.
pub const SEARCH_RANGE: usize = 6000;

/// Sniffs an Office Open XML package. Its first entry either lies in the part directory
/// (`word/`, `ppt/`, `xl/`), or is one of the package files (`[Content_Types].xml`,
/// `_rels/.rels`, `docProps`); in the latter case the third entry must lie in a part
/// directory, and the fourth decides when present (a local file header follows each header's
/// 30 fixed bytes, some with a 520-byte extra field in between, hence the scans).
pub open spec fn spec_msooxml(b: Seq<u8>) -> Option<DocType> {
    if !bytes_at(b, 0, zip_local_header()) {
        None
    } else if spec_check_msooml(b, 0x1E) is Some {
        spec_check_msooml(b, 0x1E)
    } else if !bytes_at(
        b,
        0x1E,
        seq![
            0x5Bu8, 0x43, 0x6F, 0x6E, 0x74, 0x65, 0x6E, 0x74, 0x5F, 0x54, 0x79, 0x70, 0x65, 0x73,
            0x5D, 0x2E, 0x78, 0x6D, 0x6C,
        ],
    ) && !bytes_at(b, 0x1E, seq![0x5Fu8, 0x72, 0x65, 0x6C, 0x73, 0x2F, 0x2E, 0x72, 0x65, 0x6C, 0x73])
        && !bytes_at(b, 0x1E, seq![0x64u8, 0x6F, 0x63, 0x50, 0x72, 0x6F, 0x70, 0x73]) {
        None
    } else if le_u32(b, 18) + 49 > u32::MAX {
        None
    } else {
        let s0 = le_u32(b, 18) + 49;
        match spec_search(b, s0, SEARCH_RANGE as int) {
            None => None,
            Some(i1) => {
                let s1 = s0 + i1 + 4 + 26;
                match spec_search(b, s1, SEARCH_RANGE as int) {
                    None => None,
                    Some(i2) => {
                        let s2 = s1 + i2 + 4 + 26;
                        if spec_check_msooml(b, s2) is None {
                            None
                        } else {
                            let s3 = s2 + 26;
                            match spec_search(b, s3, SEARCH_RANGE as int) {
                                None => Some(DocType::OOXML),
                                Some(i3) => {
                                    let s4 = s3 + i3 + 4 + 26;
                                    match spec_check_msooml(b, s4) {
                                        Some(t) => Some(t),
                                        None => Some(DocType::OOXML),
                                    }
                                },
                            }
                        }
                    },
                }
            },
        }
    }
}

pub open spec fn spec_is_doc(b: Seq<u8>) -> bool {
    spec_ole2(b) == Some(DocType::DOC)
}

pub open spec fn spec_is_docx(b: Seq<u8>) -> bool {
    spec_msooxml(b) == Some(DocType::DOCX)
}

pub open spec fn spec_is_xls(b: Seq<u8>) -> bool {
    spec_ole2(b) == Some(DocType::XLS)
}

pub open spec fn spec_is_xlsx(b: Seq<u8>) -> bool {
    spec_msooxml(b) == Some(DocType::XLSX)
}

pub open spec fn spec_is_ppt(b: Seq<u8>) -> bool {
    spec_ole2(b) == Some(DocType::PPT)
}

pub open spec fn spec_is_pptx(b: Seq<u8>) -> bool {
    spec_msooxml(b) == Some(DocType::PPTX)
}

/// Returns whether a buffer is Microsoft Word Document (DOC) data.
pub fn is_doc(buf: &[u8]) -> (r: bool)
    ensures
        r == spec_is_doc(buf@),
{
    ole2(buf) == Some(DocType::DOC)
}

/// Returns whether a buffer is Microsoft Word Open XML Format Document (DOCX) data.
pub fn is_docx(buf: &[u8]) -> (r: bool)
    ensures
        r == spec_is_docx(buf@),
{
    msooxml(buf) == Some(DocType::DOCX)
}

/// Returns whether a buffer is Microsoft Excel 97-2003 Worksheet (XLS) data.
pub fn is_xls(buf: &[u8]) -> (r: bool)
    ensures
        r == spec_is_xls(buf@),
{
    ole2(buf) == Some(DocType::XLS)
}

/// Returns whether a buffer is Microsoft Excel Open XML Format Spreadsheet (XLSX) data.
pub fn is_xlsx(buf: &[u8]) -> (r: bool)
    ensures
        r == spec_is_xlsx(buf@),
{
    msooxml(buf) == Some(DocType::XLSX)
}

/// Returns whether a buffer is Microsoft PowerPoint 97-2003 Presentation (PPT) data.
pub fn is_ppt(buf: &[u8]) -> (r: bool)
    ensures
        r == spec_is_ppt(buf@),
{
    ole2(buf) == Some(DocType::PPT)
}

/// Returns whether a buffer is Microsoft PowerPoint Open XML Presentation (PPTX) data.
pub fn is_pptx(buf: &[u8]) -> (r: bool)
    ensures
        r == spec_is_pptx(buf@),
{
    msooxml(buf) == Some(DocType::PPTX)
}

/// The kind of compound-file Office document the buffer holds, if any.
pub fn ole2(buf: &[u8]) -> (r: Option<DocType>)
    ensures
        r == spec_ole2(buf@),
{
    if !compare_bytes(buf, &[0xD0, 0xCF, 0x11, 0xE0, 0xA1, 0xB1, 0x1A, 0xE1], 0) {
        return None;
    }
    match root_clsid(buf) {
        Some(clsid) => {
            if clsid == CLSID_EXCEL || clsid == CLSID_EXCEL_97 {
                Some(DocType::XLS)
            } else if clsid == CLSID_WORD {
                Some(DocType::DOC)
            } else if clsid == CLSID_POWERPOINT {
                Some(DocType::PPT)
            } else {
                None
            }
        },
        None => None,
    }
}

/// The Office Open XML part directory named at `offset`, if any.
pub fn check_msooml(buf: &[u8], offset: usize) -> (r: Option<DocType>)
    ensures
        r == spec_check_msooml(buf@, offset as int),
{
    if compare_bytes(buf, &[0x77, 0x6F, 0x72, 0x64, 0x2F], offset) {
        Some(DocType::DOCX)
    } else if compare_bytes(buf, &[0x70, 0x70, 0x74, 0x2F], offset) {
        Some(DocType::PPTX)
    } else if compare_bytes(buf, &[0x78, 0x6C, 0x2F], offset) {
        Some(DocType::XLSX)
    } else {
        None
    }
}

/// The offset, counted from `start`, of the first local file header within
/// `buf[start..start + range]`.
pub fn search(buf: &[u8], start: usize, range: usize) -> (r: Option<usize>)
    ensures
        r matches Some(i) ==> spec_search(buf@, start as int, range as int) == Some(i as int)
            && start + i + 4 <= buf@.len(),
        r is None ==> spec_search(buf@, start as int, range as int) is None,
{
    let length = buf.len();
    if start >= length {
        return None;
    }
    let end = if range > length - start {
        length
    } else {
        start + range
    };
    if start >= end {
        return None;
    }
    let mut p = start;
    while end - p >= 4
        invariant
            end as int == (if start + range > buf@.len() {
                buf@.len() as int
            } else {
                start + range
            }),
            start < end,
            start <= p <= end,
            end <= buf@.len(),
            first_local_header(buf@, start as int, end as int) == first_local_header(
                buf@,
                p as int,
                end as int,
            ),
        decreases end - p,
    {
        if compare_bytes(buf, &[0x50, 0x4B, 0x03, 0x04], p) {
            assert(first_local_header(buf@, p as int, end as int) == Some(p as int));
            return Some(p - start);
        }
        assert(first_local_header(buf@, p as int, end as int) == first_local_header(
            buf@,
            p + 1,
            end as int,
        ));
        p += 1;
    }
    None
}

/// Past the end of the buffer, neither a scan nor a part directory check finds anything.
proof fn lemma_past_end(b: Seq<u8>, offset: int)
    requires
        offset >= b.len(),
    ensures
        spec_search(b, offset, SEARCH_RANGE as int) is None,
        spec_check_msooml(b, offset) is None,
{
}

/// The kind of Office Open XML package the buffer holds, if any.
pub fn msooxml(buf: &[u8]) -> (r: Option<DocType>)
    ensures
        r == spec_msooxml(buf@),
{
    let length = buf.len();
    // start by checking for ZIP local file header signature
    if !compare_bytes(buf, &[0x50, 0x4B, 0x03, 0x04], 0) {
        return None;
    }
    let v = check_msooml(buf, 0x1E);
    if v.is_some() {
        return v;
    }
    if !compare_bytes(
        buf,
        &[
            0x5B, 0x43, 0x6F, 0x6E, 0x74, 0x65, 0x6E, 0x74, 0x5F, 0x54, 0x79, 0x70, 0x65, 0x73,
            0x5D, 0x2E, 0x78, 0x6D, 0x6C,
        ],
        0x1E,
    ) && !compare_bytes(buf, &[0x5F, 0x72, 0x65, 0x6C, 0x73, 0x2F, 0x2E, 0x72, 0x65, 0x6C, 0x73], 0x1E)
        && !compare_bytes(buf, &[0x64, 0x6F, 0x63, 0x50, 0x72, 0x6F, 0x70, 0x73], 0x1E) {
        return None;
    }
    // skip to the second local file header; some documents put a 520-byte extra field after
    // the file header, so the next header is scanned for
    let s0 = match read_u32_le(buf, 18).checked_add(49) {
        Some(v) => v as usize,
        None => return None,
    };
    let i1 = match search(buf, s0, SEARCH_RANGE) {
        Some(i) => i,
        None => return None,
    };
    // now skip to the *third* local file header, scanning again; offsets that would not fit
    // in a usize lie past the end of the buffer, where nothing more is found
    let s1 = (s0 + i1).saturating_add(4 + 26);
    proof {
        if s1 as int != s0 + i1 + 4 + 26 {
            lemma_past_end(buf@, s0 + i1 + 4 + 26);
            lemma_past_end(buf@, s1 as int);
        }
    }
    let i2 = match search(buf, s1, SEARCH_RANGE) {
        Some(i) => i,
        None => return None,
    };
    // the subdirectory of the third entry tells the kind of document
    let s2 = (s1 + i2).saturating_add(4 + 26);
    proof {
        if s2 as int != s1 + i2 + 4 + 26 {
            lemma_past_end(buf@, s1 + i2 + 4 + 26);
            lemma_past_end(buf@, s2 as int);
        }
    }
    if check_msooml(buf, s2).is_none() {
        return None;
    }
    // OpenOffice/LibreOffice orders the entries differently, so the fourth one is checked too
    let s3 = s2.saturating_add(26);
    proof {
        if s3 as int != s2 + 26 {
            lemma_past_end(buf@, s2 + 26);
            lemma_past_end(buf@, s3 as int);
        }
    }
    let i3 = match search(buf, s3, SEARCH_RANGE) {
        Some(i) => i,
        None => return Some(DocType::OOXML),
    };
    let s4 = (s3 + i3).saturating_add(4 + 26);
    proof {
        if s4 as int != s3 + i3 + 4 + 26 {
            lemma_past_end(buf@, s3 + i3 + 4 + 26);
            lemma_past_end(buf@, s4 as int);
        }
    }
    let typo = check_msooml(buf, s4);
    if typo.is_some() {
        return typo;
    }
    Some(DocType::OOXML)
}

} // verus!
