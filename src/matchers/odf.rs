//! OpenDocument formats.
use vstd::prelude::*;

use super::{bytes_at, compare_bytes};

verus! {

/// The OpenDocument kinds told apart by the `mimetype` entry.
#[derive(Debug, PartialEq, Eq, Structural)]
pub enum DocType {
    Text,
    Spreadsheet,
    Presentation,
}

/// `vnd.oasis.opendocument.` followed by `kind`.
pub open spec fn opendocument(kind: Seq<u8>) -> Seq<u8> {
    seq![
        0x76u8, 0x6E, 0x64, 0x2E, 0x6F, 0x61, 0x73, 0x69, 0x73, 0x2E, 0x6F, 0x70, 0x65, 0x6E,
        0x64, 0x6F, 0x63, 0x75, 0x6D, 0x65, 0x6E, 0x74, 0x2E,
    ] + kind
}

/// A ZIP whose first entry is the uncompressed `mimetype` file, its content at offset 0x32
/// naming the kind of document.
pub open spec fn spec_odf(b: Seq<u8>) -> Option<DocType> {
    if !bytes_at(b, 0, seq![0x50u8, 0x4B, 0x03, 0x04]) {
        None
    } else if !bytes_at(b, 0x1E, seq![0x6Du8, 0x69, 0x6D, 0x65, 0x74, 0x79, 0x70, 0x65]) {
        None
    } else if bytes_at(b, 0x32, opendocument(seq![0x74u8, 0x65, 0x78, 0x74])) {
        Some(DocType::Text)
    } else if bytes_at(
        b,
        0x32,
        opendocument(seq![0x73u8, 0x70, 0x72, 0x65, 0x61, 0x64, 0x73, 0x68, 0x65, 0x65, 0x74]),
    ) {
        Some(DocType::Spreadsheet)
    } else if bytes_at(
        b,
        0x32,
        opendocument(seq![0x70u8, 0x72, 0x65, 0x73, 0x65, 0x6E, 0x74, 0x61, 0x74, 0x69, 0x6F, 0x6E]),
    ) {
        Some(DocType::Presentation)
    } else {
        None
    }
}

pub open spec fn spec_is_odt(b: Seq<u8>) -> bool {
    spec_odf(b) == Some(DocType::Text)
}

pub open spec fn spec_is_ods(b: Seq<u8>) -> bool {
    spec_odf(b) == Some(DocType::Spreadsheet)
}

pub open spec fn spec_is_odp(b: Seq<u8>) -> bool {
    spec_odf(b) == Some(DocType::Presentation)
}

/// Returns whether a buffer is OpenDocument Text.
pub fn is_odt(buf: &[u8]) -> (r: bool)
    ensures
        r == spec_is_odt(buf@),
{
    odf(buf) == Some(DocType::Text)
}

/// Returns whether a buffer is OpenDocument Spreadsheet.
pub fn is_ods(buf: &[u8]) -> (r: bool)
    ensures
        r == spec_is_ods(buf@),
{
    odf(buf) == Some(DocType::Spreadsheet)
}

/// Returns whether a buffer is OpenDocument Presentation.
pub fn is_odp(buf: &[u8]) -> (r: bool)
    ensures
        r == spec_is_odp(buf@),
{
    odf(buf) == Some(DocType::Presentation)
}

/// The kind of OpenDocument file the buffer holds, if any.
pub fn odf(buf: &[u8]) -> (r: Option<DocType>)
    ensures
        r == spec_odf(buf@),
{
    // start by checking for ZIP local file header signature
    if !compare_bytes(buf, &[0x50, 0x4B, 0x03, 0x04], 0) {
        return None;
    }
    // Check mimetype
    if !compare_bytes(buf, &[0x6D, 0x69, 0x6D, 0x65, 0x74, 0x79, 0x70, 0x65], 0x1E) {
        return None;
    }
    let text = [
        0x76, 0x6E, 0x64, 0x2E, 0x6F, 0x61, 0x73, 0x69, 0x73, 0x2E, 0x6F, 0x70, 0x65, 0x6E, 0x64,
        0x6F, 0x63, 0x75, 0x6D, 0x65, 0x6E, 0x74, 0x2E, 0x74, 0x65, 0x78, 0x74,
    ];
    assert(text@ =~= opendocument(seq![0x74u8, 0x65, 0x78, 0x74]));
    if compare_bytes(buf, &text, 0x32) {
        return Some(DocType::Text);
    }
    let spreadsheet = [
        0x76, 0x6E, 0x64, 0x2E, 0x6F, 0x61, 0x73, 0x69, 0x73, 0x2E, 0x6F, 0x70, 0x65, 0x6E, 0x64,
        0x6F, 0x63, 0x75, 0x6D, 0x65, 0x6E, 0x74, 0x2E, 0x73, 0x70, 0x72, 0x65, 0x61, 0x64, 0x73,
        0x68, 0x65, 0x65, 0x74,
    ];
    assert(spreadsheet@ =~= opendocument(
        seq![0x73u8, 0x70, 0x72, 0x65, 0x61, 0x64, 0x73, 0x68, 0x65, 0x65, 0x74],
    ));
    if compare_bytes(buf, &spreadsheet, 0x32) {
        return Some(DocType::Spreadsheet);
    }
    let presentation = [
        0x76, 0x6E, 0x64, 0x2E, 0x6F, 0x61, 0x73, 0x69, 0x73, 0x2E, 0x6F, 0x70, 0x65, 0x6E, 0x64,
        0x6F, 0x63, 0x75, 0x6D, 0x65, 0x6E, 0x74, 0x2E, 0x70, 0x72, 0x65, 0x73, 0x65, 0x6E, 0x74,
        0x61, 0x74, 0x69, 0x6F, 0x6E,
    ];
    assert(presentation@ =~= opendocument(
        seq![0x70u8, 0x72, 0x65, 0x73, 0x65, 0x6E, 0x74, 0x61, 0x74, 0x69, 0x6F, 0x6E],
    ));
    if compare_bytes(buf, &presentation, 0x32) {
        return Some(DocType::Presentation);
    }
    None
}

} // verus!
