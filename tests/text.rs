use infer::text::{is_html, is_shellscript, is_xml, trim_start_byte_order_marks, trim_start_whitespaces};

#[test]
fn trim_whitespaces() {
    let got = trim_start_whitespaces(&[0x09, 0x0A, 0x0C, 0x0D, 0x20, b'A', b'B', b'C']);
    assert_eq!(got, b"ABC");

    let got = trim_start_whitespaces(b"abc");
    assert_eq!(got, b"abc");

    let got = trim_start_whitespaces(&[]);
    assert_eq!(got, &[]);
}

#[test]
fn html() {
    assert!(!is_html(b"<"));
    assert!(!is_html(b"<HTML"));
    assert!(is_html(b"<HTML "));
    assert!(is_html(b"   <BODY>"));
}

#[test]
fn shellscript() {
    assert!(!is_shellscript(b"#!"));
}

#[test]
fn html_tags_in_any_case() {
    assert!(is_html(b"<!doctype html>"));
    assert!(is_html(b"\n\t<p>hello"));
    assert!(!is_html(b"<pre>"));
    assert!(!is_html(b"<HTMLX>"));
    assert!(is_html(b"<!-- comment -->"));
}

#[test]
fn xml_after_whitespace_and_byte_order_mark() {
    assert!(is_xml(b"<?xml version=\"1.0\"?>"));
    assert!(is_xml(b"  <?XML "));
    assert!(is_xml(&[0xEF, 0xBB, 0xBF, b'<', b'?', b'x', b'm', b'l']));
    assert!(!is_xml(b"<xml"));
}

#[test]
fn byte_order_marks_are_stripped() {
    assert_eq!(trim_start_byte_order_marks(&[0xEF, 0xBB, 0xBF, b'a', b'b', b'c']), b"abc");
    assert_eq!(trim_start_byte_order_marks(&[0xFE, 0xFF, b'a', b'b']), b"ab");
    assert_eq!(trim_start_byte_order_marks(&[0xFF, 0xFE, b'a']), b"a");
    assert_eq!(trim_start_byte_order_marks(&[0xFF, 0xFE]), &[0xFF, 0xFE]);
}

#[test]
fn shellscript_needs_a_command() {
    assert!(is_shellscript(b"#!/bin/sh"));
    assert_eq!(infer::get(b"#!/bin/sh").unwrap().extension(), "sh");
}
