use std::io::{Read, Seek};

use infer::{Infer, MatcherType, ReadAction, ReadEvent, ReadScan, Selector, Type};

type Matcher = fn(&[u8]) -> bool;

// overrides jpeg matcher
fn foo_matcher(buf: &[u8]) -> bool {
    buf.len() > 2 && buf[0] == 0xFF && buf[1] == 0xD8 && buf[2] == 0xFF
}

// overrides png matcher
fn bar_matcher(buf: &[u8]) -> bool {
    buf.len() > 3 && buf[0] == 0x89 && buf[1] == 0x50 && buf[2] == 0x4E && buf[3] == 0x47
}

fn empty_matcher(_buf: &[u8]) -> bool {
    true
}

/// Drives a read scan over a real reader, as a caller of the library does.
fn get_read<R: Read + Seek>(info: &Infer<Matcher>, r: &mut R) -> std::io::Result<Option<Type>> {
    let mut scan = ReadScan::new(Selector::All);
    let mut action = info.read_step(&mut scan, ReadEvent::Start);
    loop {
        match action {
            ReadAction::Read(n) => {
                let mut window = Vec::new();
                r.by_ref().take(n as u64).read_to_end(&mut window)?;
                action = info.read_step(&mut scan, ReadEvent::Window(&window));
            }
            ReadAction::Rewind => {
                r.rewind().ok();
                action = info.read_step(&mut scan, ReadEvent::Rewound);
            }
            ReadAction::Matched(t) => return Ok(Some(t)),
            ReadAction::NoMatch => return Ok(None),
        }
    }
}

#[test]
fn test_get_unknown() {
    let buf: [u8; 0] = [];
    assert!(infer::get(&buf).is_none());
}

#[test]
fn test_get_jpeg() {
    let buf = [0xFF, 0xD8, 0xFF, 0xAA];
    let kind = infer::get(&buf).expect("file type is known");
    assert_eq!(kind.extension(), "jpg");
    assert_eq!(kind.mime_type(), "image/jpeg");
}

#[test]
fn test_matcher_type() {
    let buf = [0xFF, 0xD8, 0xFF, 0xAA];
    let kind = infer::get(&buf).expect("file type is known");
    assert_eq!(kind.matcher_type(), MatcherType::Image);
}

#[test]
fn test_custom_matcher_ordering() {
    let mut info: Infer<Matcher> = Infer::new();
    info.add("custom/foo", "foo", foo_matcher, None);
    info.add("custom/bar", "bar", bar_matcher, Some(4));

    let buf_foo = &[0xFF, 0xD8, 0xFF];
    let typ = info.get(buf_foo).expect("type is matched");
    assert_eq!(typ.mime_type(), "custom/foo");
    assert_eq!(typ.extension(), "foo");

    let buf_bar = &[0x89, 0x50, 0x4E, 0x47, 0x12];
    let typ = info.get(buf_bar).expect("type is matched");
    assert_eq!(typ.mime_type(), "custom/bar");
    assert_eq!(typ.extension(), "bar");

    let mut f = std::io::Cursor::new(buf_bar);
    let kind = get_read(&info, &mut f).unwrap().expect("type is matched");
    assert_eq!(kind.mime_type(), "custom/bar");
    assert_eq!(kind.extension(), "bar");

    let kind = info.scan_bytes(buf_bar, Selector::All).expect("type is matched");
    assert_eq!(kind.mime_type(), "custom/bar");
    assert_eq!(kind.extension(), "bar");
}

#[test]
fn empty_buffer_matches_nothing_even_with_custom() {
    let mut info: Infer<Matcher> = Infer::new();
    info.add("custom/any", "any", empty_matcher, Some(1));
    assert!(info.get(&[]).is_none());
    assert!(!info.is_custom(&[]));
    assert!(info.get(&[0x00]).is_some());
}

#[test]
fn get_twice_gives_the_same() {
    let buf = [0x89, 0x50, 0x4E, 0x47, 0x0D, 0x0A, 0x1A, 0x0A];
    let a = infer::get(&buf);
    let b = infer::get(&buf);
    assert_eq!(a, b);
    assert_eq!(a.unwrap().extension(), "png");
}

#[test]
fn fresh_engine_agrees_with_free_functions() {
    let info: Infer<Matcher> = Infer::default();
    let buf = [0x47, 0x49, 0x46, 0x38, 0x39, 0x61];
    assert_eq!(info.get(&buf), infer::get(&buf));
    assert_eq!(info.get(&buf).unwrap().mime_type(), "image/gif");
}

#[test]
fn first_custom_added_wins() {
    let mut info: Infer<Matcher> = Infer::new();
    info.add("custom/first", "first", foo_matcher, None);
    info.add("custom/second", "second", foo_matcher, None);
    let kind = info.get(&[0xFF, 0xD8, 0xFF, 0xAA]).unwrap();
    assert_eq!(kind.extension(), "first");
    assert_eq!(kind.matcher_type(), MatcherType::Custom);
    assert!(info.is_custom(&[0xFF, 0xD8, 0xFF, 0xAA]));
    assert!(info.is_image(&[0xFF, 0xD8, 0xFF, 0xAA]));
}

#[test]
fn extension_and_mime_lookups_are_case_sensitive() {
    let buf = [0xFF, 0xD8, 0xFF, 0xAA];
    assert!(infer::is(&buf, "jpg"));
    assert!(!infer::is(&buf, "JPG"));
    assert!(infer::is_mime(&buf, "image/jpeg"));
    assert!(!infer::is_mime(&buf, "IMAGE/JPEG"));
    assert!(infer::is_supported("jpg"));
    assert!(!infer::is_supported("JPG"));
    assert!(infer::is_mime_supported("image/jpeg"));
    assert!(!infer::is_mime_supported("image/JPEG"));
    assert!(infer::get_type_by_extension("JPG").is_none());
}

#[test]
fn lookups_by_extension_and_mime() {
    let kind = infer::get_type_by_mime("image/jpeg").expect("mime type is known");
    assert_eq!(kind.mime_type(), "image/jpeg");
    assert_eq!(kind.extension(), "jpg");
    let kind = infer::get_type_by_extension("jpg").expect("extension is known");
    assert_eq!(kind.mime_type(), "image/jpeg");
    assert_eq!(kind.extension(), "jpg");
    // two descriptors share this media type: the first in registry order is returned
    let kind = infer::get_type_by_mime("application/vnd.microsoft.portable-executable").unwrap();
    assert_eq!(kind.extension(), "exe");
    let kind = infer::get_type_by_extension("woff2").unwrap();
    assert!(kind.supports_read_match());
    assert_eq!(kind.read_size(), 8);
    let kind = infer::get_type_by_extension("png").unwrap();
    assert!(!kind.supports_read_match());
    assert_eq!(kind.read_size(), 0);
    assert!(infer::get_type_by_mime("application/x-unknown").is_none());
}

#[test]
fn custom_lookups_come_first() {
    let mut info: Infer<Matcher> = Infer::new();
    info.add("image/jpeg", "jpeg-custom", foo_matcher, None);
    assert_eq!(info.get_type_by_mime("image/jpeg").unwrap().extension(), "jpeg-custom");
    assert!(info.is_supported("jpeg-custom"));
    assert!(!infer::is_supported("jpeg-custom"));
    assert!(info.is_mime_supported("image/jpeg"));
    assert_eq!(info.get_type_by_extension("jpeg-custom").unwrap().matcher_type(), MatcherType::Custom);
    assert!(info.is(&[0xFF, 0xD8, 0xFF, 0x00], "jpeg-custom"));
    assert!(info.is_mime(&[0xFF, 0xD8, 0xFF, 0x00], "image/jpeg"));
}

#[test]
fn category_checks() {
    let jpeg = [0xFF, 0xD8, 0xFF, 0xAA];
    assert!(infer::is_image(&jpeg));
    assert!(!infer::is_video(&jpeg));
    let mp3 = [0xFF, 0xFB, 0x90, 0x44, 0x00];
    assert!(infer::is_audio(&mp3));
    assert!(infer::is_archive(&[0x25, 0x50, 0x44, 0x46, 0x2D]));
    assert!(infer::is_app(&[0x00, 0x61, 0x73, 0x6D, 0x01, 0x00, 0x00, 0x00]));
    assert!(infer::is_font(&[0x00, 0x01, 0x00, 0x00, 0x00]));
    assert!(infer::is_video(&[0x46, 0x4C, 0x56, 0x01]));
    let mut mobi = vec![0u8; 68];
    mobi[60..68].copy_from_slice(&[0x42, 0x4F, 0x4F, 0x4B, 0x4D, 0x4F, 0x42, 0x49]);
    assert!(infer::is_book(&mobi));
    let mut odt = vec![0x50, 0x4B, 0x03, 0x04];
    odt.resize(30, 0);
    odt.extend_from_slice(b"mimetypeapplication/vnd.oasis.opendocument.text");
    assert!(infer::is_document(&odt));
    let info: Infer<Matcher> = Infer::new();
    assert!(info.is_app(&[0x4D, 0x5A, 0x00]));
    assert!(info.is_archive(&[0x1F, 0x8B, 0x08]));
    assert!(info.is_audio(&mp3));
    assert!(info.is_book(&mobi));
    assert!(info.is_document(&odt));
    assert!(info.is_font(&[0x4F, 0x54, 0x54, 0x4F, 0x00]));
    assert!(info.is_image(&jpeg));
    assert!(info.is_video(&[0x46, 0x4C, 0x56, 0x01]));
    assert!(!info.is_custom(&jpeg));
}

#[test]
fn type_equality_ignores_the_matcher() {
    let a = Type::new(MatcherType::Image, "image/jpeg", "jpg", infer::Format::Png, None);
    let b = infer::get(&[0xFF, 0xD8, 0xFF, 0xAA]).unwrap();
    assert_eq!(a, b);
    let c = Type::new(MatcherType::Image, "image/jpeg", "jpeg", infer::Format::Jpeg, None);
    assert_ne!(b, c);
    assert!(b.matches(&[0xFF, 0xD8, 0xFF, 0x00]));
    assert!(!b.matches(&[0xFF, 0xD8]));
}

#[test]
fn stream_scan_agrees_with_buffer() {
    let info: Infer<Matcher> = Infer::new();
    let woff2 = [0x77, 0x4F, 0x46, 0x32, 0x00, 0x01, 0x00, 0x00, 0x12, 0x34];
    let from_buffer = info.get(&woff2).unwrap();
    assert_eq!(from_buffer.extension(), "woff2");
    let from_bytes = info.scan_bytes(&woff2, Selector::All).unwrap();
    assert_eq!(from_bytes, from_buffer);
    let mut f = std::io::Cursor::new(woff2);
    let from_reader = get_read(&info, &mut f).unwrap().unwrap();
    assert_eq!(from_reader, from_buffer);
}

#[test]
fn stream_scan_skips_types_without_read_support() {
    let info: Infer<Matcher> = Infer::new();
    // a JPEG cannot be matched from a reader
    assert!(info.scan_bytes(&[0xFF, 0xD8, 0xFF, 0xAA], Selector::All).is_none());
    let ttf = [0x00, 0x01, 0x00, 0x00, 0x00, 0x10];
    assert!(info.scan_bytes(&ttf, Selector::Category(MatcherType::Font)).is_some());
    assert!(info.scan_bytes(&ttf, Selector::Category(MatcherType::Image)).is_none());
    assert!(info.scan_bytes(&ttf, Selector::Extension("ttf")).is_some());
    assert!(info.scan_bytes(&ttf, Selector::Extension("otf")).is_none());
    assert!(info.scan_bytes(&ttf, Selector::MimeType("application/font-sfnt")).is_some());
}

#[test]
fn stream_scan_rewinds_between_probes() {
    let info: Infer<Matcher> = Infer::new();
    let mut scan = ReadScan::new(Selector::All);
    // the first readable descriptor is probed first
    let first = info.read_step(&mut scan, ReadEvent::Start);
    assert!(matches!(first, ReadAction::Read(8)));
    // a window that does not match asks for a rewind before anything else is read
    let after_miss = info.read_step(&mut scan, ReadEvent::Window(&[0x01, 0x02, 0x03]));
    assert!(matches!(after_miss, ReadAction::Rewind));
    let next = info.read_step(&mut scan, ReadEvent::Rewound);
    assert!(matches!(next, ReadAction::Read(_)));
}

#[test]
fn stream_scan_reads_each_window_from_the_start() {
    let mut info: Infer<Matcher> = Infer::new();
    info.add("custom/foo", "foo", foo_matcher, Some(3));
    info.add("custom/bar", "bar", bar_matcher, Some(4));
    // the first probe reads three bytes and misses; after the rewind the second probe must
    // see the same leading bytes
    let data = [0x89, 0x50, 0x4E, 0x47, 0x00];
    let mut f = std::io::Cursor::new(data);
    let kind = get_read(&info, &mut f).unwrap().unwrap();
    assert_eq!(kind.extension(), "bar");
}
