use std::io::Cursor;

use infer::MatcherType;

/// An in-memory compound file whose root storage has the class id `clsid`.
fn compound_file(clsid: u128) -> Vec<u8> {
    let mut comp = cfb::CompoundFile::create(Cursor::new(Vec::new())).expect("create");
    comp.set_storage_clsid("/", uuid::Uuid::from_u128(clsid)).expect("clsid");
    comp.flush().expect("flush");
    comp.into_inner().into_inner()
}

#[test]
fn word_document() {
    let buf = compound_file(0x00020906_0000_0000_C000_000000000046);
    assert!(infer::doc::is_doc(&buf));
    assert!(!infer::doc::is_xls(&buf));
    let kind = infer::get(&buf).expect("type is known");
    assert_eq!(kind.mime_type(), "application/msword");
    assert_eq!(kind.extension(), "doc");
    assert_eq!(kind.matcher_type(), MatcherType::Doc);
}

#[test]
fn excel_workbooks() {
    let buf = compound_file(0x00020810_0000_0000_C000_000000000046);
    assert!(infer::doc::is_xls(&buf));
    let buf = compound_file(0x00020820_0000_0000_C000_000000000046);
    let kind = infer::get(&buf).expect("type is known");
    assert_eq!(kind.mime_type(), "application/vnd.ms-excel");
    assert_eq!(kind.extension(), "xls");
}

#[test]
fn powerpoint_presentation() {
    let buf = compound_file(0x64818D10_4F9B_11CF_86EA_00AA00B929E8);
    assert!(infer::doc::is_ppt(&buf));
    assert_eq!(infer::get(&buf).unwrap().extension(), "ppt");
}

#[test]
fn other_compound_files_are_installers() {
    let buf = compound_file(0x12345678_0000_0000_0000_000000000000);
    assert!(!infer::doc::is_doc(&buf));
    assert_eq!(infer::get(&buf).unwrap().extension(), "msi");
    // the signature alone does not parse as a compound file
    let truncated = &buf[..16];
    assert!(!infer::doc::is_doc(truncated));
}
