use infer::MatcherType;

fn padded(prefix: &[u8], len: usize) -> Vec<u8> {
    let mut v = prefix.to_vec();
    v.resize(len, 0);
    v
}

fn at(offset: usize, bytes: &[u8], len: usize) -> Vec<u8> {
    let mut v = vec![0u8; len];
    v[offset..offset + bytes.len()].copy_from_slice(bytes);
    v
}

fn zip_entry(name: &[u8]) -> Vec<u8> {
    let mut v = vec![0x50, 0x4B, 0x03, 0x04];
    v.resize(30, 0);
    v.extend_from_slice(name);
    v.resize(120, 0);
    v
}

fn check(buf: &[u8], category: MatcherType, mime: &str, ext: &str) {
    let kind = infer::get(buf).expect("type is known");
    assert_eq!(kind.matcher_type(), category, "{}", ext);
    assert_eq!(kind.mime_type(), mime, "{}", ext);
    assert_eq!(kind.extension(), ext);
}

#[test]
fn app_samples() {
    check(&[0x00, 0x61, 0x73, 0x6D, 0x01, 0x00, 0x00, 0x00], MatcherType::App, "application/wasm", "wasm");
    check(&padded(&[0x7F, 0x45, 0x4C, 0x46], 64), MatcherType::App, "application/x-executable", "elf");
    check(&[0x4D, 0x5A, 0x90, 0x00], MatcherType::App, "application/vnd.microsoft.portable-executable", "exe");
    check(&[0xCA, 0xFE, 0xBA, 0xBE, 0x00, 0x00, 0x00, 0x34], MatcherType::App, "application/java", "class");
    check(&[0xCA, 0xFE, 0xBA, 0xBE, 0x00, 0x00, 0x00, 0x02], MatcherType::App, "application/x-mach-binary", "mach");
    check(&[0xCF, 0xFA, 0xED, 0xFE], MatcherType::App, "application/x-mach-binary", "mach");
    check(&[0xFE, 0xED, 0xFA, 0xCE], MatcherType::App, "application/x-mach-binary", "mach");
    check(&[0x42, 0x43, 0xC0, 0xDE], MatcherType::App, "application/x-llvm", "bc");
    let mut dex = padded(b"dex\n035\0", 40);
    dex[36] = 0x70;
    check(&dex, MatcherType::App, "application/vnd.android.dex", "dex");
    let mut dey = padded(b"dey\n036\0", 112);
    dey[40..44].copy_from_slice(b"dex\n");
    dey[76] = 0x70;
    check(&dey, MatcherType::App, "application/vnd.android.dey", "dey");
    check(&[0x30, 0x82, 0x01, 0x0A], MatcherType::App, "application/x-x509-ca-cert", "der");
    check(&[0x64, 0x86, 0x00], MatcherType::App, "application/x-executable", "obj");
    check(b"-----BEGIN CERTIFICATE-----", MatcherType::App, "application/x-x509-ca-cert", "pem");
}

#[test]
fn image_samples() {
    check(&[0xFF, 0xD8, 0xFF, 0xAA], MatcherType::Image, "image/jpeg", "jpg");
    check(&[0x89, 0x50, 0x4E, 0x47, 0x0D, 0x0A, 0x1A, 0x0A], MatcherType::Image, "image/png", "png");
    check(b"GIF89a", MatcherType::Image, "image/gif", "gif");
    check(b"RIFF\0\0\0\0WEBPVP8 ", MatcherType::Image, "image/webp", "webp");
    check(&[0x49, 0x49, 0x2A, 0x00, 0x10, 0x00, 0x00, 0x00, 0x43, 0x52, 0x02], MatcherType::Image, "image/x-canon-cr2", "cr2");
    check(&[0x49, 0x49, 0x2A, 0x00, 0x08, 0x00, 0x00, 0x00, 0x00, 0x00], MatcherType::Image, "image/tiff", "tif");
    check(&[0x4D, 0x4D, 0x00, 0x2A, 0x00, 0x00, 0x00, 0x08, 0x00, 0x00], MatcherType::Image, "image/tiff", "tif");
    check(b"BM\x36\x00", MatcherType::Image, "image/bmp", "bmp");
    check(&[0x49, 0x49, 0xBC, 0x01], MatcherType::Image, "image/vnd.ms-photo", "jxr");
    check(b"8BPS\0\x01", MatcherType::Image, "image/vnd.adobe.photoshop", "psd");
    check(&[0x00, 0x00, 0x01, 0x00, 0x01, 0x00], MatcherType::Image, "image/vnd.microsoft.icon", "ico");
    check(&[0x00, 0x00, 0x00, 0x0C, 0x6A, 0x50, 0x20, 0x20, 0x0D, 0x0A, 0x87, 0x0A, 0x00], MatcherType::Image, "image/jp2", "jp2");
    check(&[0xFF, 0x0A, 0x00], MatcherType::Image, "image/jxl", "jxl");
    check(b"\0\0\0\x18ftypheic\0\0\0\0mif1heic", MatcherType::Image, "image/heif", "heif");
    check(b"\0\0\0\x18ftypmif1\0\0\0\0mif1heic", MatcherType::Image, "image/heif", "heif");
    check(b"\0\0\0\x1cftypavif\0\0\0\0avifmif1miaf", MatcherType::Image, "image/avif", "avif");
    check(b"\0\0\0\x1cftypmif1\0\0\0\0mif1avifmiaf", MatcherType::Image, "image/avif", "avif");
    check(&zip_entry(b"mimetypeimage/openraster"), MatcherType::Image, "image/openraster", "ora");
    check(b"AT&TFORM\0\0\0\0DJVM", MatcherType::Image, "image/vnd.djvu", "djvu");
}

#[test]
fn heif_brand_outside_the_box_is_ignored() {
    // the box declares 16 bytes: the `heic` brand after it is not a compatible brand
    let buf = b"\0\0\0\x10ftypmif1\0\0\0\0heic";
    assert!(!infer::image::is_heif(buf));
    // a box larger than the buffer is no ISO-BMFF data
    assert!(!infer::image::is_heif(b"\0\0\x01\0ftypheic\0\0\0\0mif1heic"));
}

#[test]
fn video_samples() {
    check(b"\0\0\0\x18ftypisom\0\0\x02\0isomiso2", MatcherType::Video, "video/mp4", "mp4");
    check(b"\0\0\0\x18ftypM4V \0\0\x02\0", MatcherType::Video, "video/x-m4v", "m4v");
    let mut mkv = vec![0x1A, 0x45, 0xDF, 0xA3, 0x93, 0x42, 0x82, 0x88];
    mkv.extend_from_slice(b"matroska");
    check(&mkv, MatcherType::Video, "video/x-matroska", "mkv");
    check(&[0x1A, 0x45, 0xDF, 0xA3, 0x9F, 0x42, 0x86, 0x81], MatcherType::Video, "video/webm", "webm");
    check(b"\0\0\0\x08moov\0\0\0\0\0\0\0\0", MatcherType::Video, "video/quicktime", "mov");
    check(b"RIFF\0\0\0\0AVI LIST", MatcherType::Video, "video/x-msvideo", "avi");
    check(&[0x30, 0x26, 0xB2, 0x75, 0x8E, 0x66, 0xCF, 0x11, 0xA6, 0xD9, 0x00], MatcherType::Video, "video/x-ms-wmv", "wmv");
    check(&[0x00, 0x00, 0x01, 0xBA, 0x44], MatcherType::Video, "video/mpeg", "mpg");
    check(b"FLV\x01\x05", MatcherType::Video, "video/x-flv", "flv");
}

#[test]
fn audio_samples() {
    check(b"MThd\0\0\0\x06", MatcherType::Audio, "audio/midi", "midi");
    check(b"ID3\x03\0", MatcherType::Audio, "audio/mpeg", "mp3");
    check(&[0xFF, 0xFB, 0x90, 0x44, 0x00], MatcherType::Audio, "audio/mpeg", "mp3");
    check(b"\0\0\0\x20ftypM4A \0\0\0\0", MatcherType::Audio, "audio/m4a", "m4a");
    check(&at(28, b"OpusHead", 40).iter().enumerate().map(|(i, b)| if i < 4 { b"OggS"[i] } else { *b }).collect::<Vec<u8>>(), MatcherType::Audio, "audio/opus", "opus");
    check(&padded(b"OggS", 40), MatcherType::Audio, "audio/ogg", "ogg");
    check(b"fLaC\0\0\0\x22", MatcherType::Audio, "audio/x-flac", "flac");
    check(b"RIFF\0\0\0\0WAVEfmt ", MatcherType::Audio, "audio/x-wav", "wav");
    check(b"#!AMR\n\0\0\0\0\0\0", MatcherType::Audio, "audio/amr", "amr");
    check(&[0xFF, 0xF1, 0x50], MatcherType::Audio, "audio/aac", "aac");
    check(b"FORM\0\0\0\0AIFFCOMM", MatcherType::Audio, "audio/x-aiff", "aiff");
    check(b"DSD \x1c", MatcherType::Audio, "audio/x-dsf", "dsf");
    check(b"MAC \x96", MatcherType::Audio, "audio/x-ape", "ape");
}

#[test]
fn font_samples() {
    check(&[0x77, 0x4F, 0x46, 0x46, 0x00, 0x01, 0x00, 0x00], MatcherType::Font, "application/font-woff", "woff");
    check(&[0x77, 0x4F, 0x46, 0x32, 0x00, 0x01, 0x00, 0x00], MatcherType::Font, "application/font-woff", "woff2");
    check(&[0x00, 0x01, 0x00, 0x00, 0x00], MatcherType::Font, "application/font-sfnt", "ttf");
    check(b"OTTO\0", MatcherType::Font, "application/font-sfnt", "otf");
}

#[test]
fn book_samples() {
    check(&zip_entry(b"mimetypeapplication/epub+zip"), MatcherType::Book, "application/epub+zip", "epub");
    check(&at(60, b"BOOKMOBI", 80), MatcherType::Book, "application/x-mobipocket-ebook", "mobi");
    assert!(infer::archive::is_epub(&zip_entry(b"mimetypeapplication/epub+zip")));
}

#[test]
fn odt_is_told_apart_from_zip() {
    let odt = zip_entry(b"mimetypeapplication/vnd.oasis.opendocument.text");
    check(&odt, MatcherType::Doc, "application/vnd.oasis.opendocument.text", "odt");
    assert!(infer::archive::is_zip(&odt));
    check(&zip_entry(b"mimetypeapplication/vnd.oasis.opendocument.spreadsheet"), MatcherType::Doc, "application/vnd.oasis.opendocument.spreadsheet", "ods");
    check(&zip_entry(b"mimetypeapplication/vnd.oasis.opendocument.presentation"), MatcherType::Doc, "application/vnd.oasis.opendocument.presentation", "odp");
    check(&zip_entry(b"mimetypeapplication/x-other"), MatcherType::Archive, "application/zip", "zip");
}

#[test]
fn office_open_xml_samples() {
    check(&zip_entry(b"word/document.xml"), MatcherType::Doc, "application/vnd.openxmlformats-officedocument.wordprocessingml.document", "docx");
    check(&zip_entry(b"xl/workbook.xml"), MatcherType::Doc, "application/vnd.openxmlformats-officedocument.spreadsheetml.sheet", "xlsx");
    check(&zip_entry(b"ppt/presentation.xml"), MatcherType::Doc, "application/vnd.openxmlformats-officedocument.presentationml.presentation", "pptx");
}

/// A ZIP local file header named `name`, with `extra` bytes of data after the name.
fn local_header(name: &[u8], extra: usize) -> Vec<u8> {
    let mut v = vec![0x50, 0x4B, 0x03, 0x04];
    v.resize(18, 0);
    // compressed size, then uncompressed size, name length, extra length
    v.extend_from_slice(&(extra as u32).to_le_bytes());
    v.extend_from_slice(&(extra as u32).to_le_bytes());
    v.extend_from_slice(&(name.len() as u16).to_le_bytes());
    v.extend_from_slice(&0u16.to_le_bytes());
    v.extend_from_slice(name);
    v.resize(v.len() + extra, 0x20);
    v
}

#[test]
fn office_open_xml_found_in_a_later_entry() {
    let mut buf = local_header(b"[Content_Types].xml", 40);
    buf.extend(local_header(b"_rels/.rels", 40));
    buf.extend(local_header(b"xl/workbook.xml", 40));
    // with three entries only, the package is Office Open XML of no particular kind
    assert!(!infer::doc::is_xlsx(&buf));
    // the fourth entry decides
    buf.extend(local_header(b"xl/styles.xml", 40));
    check(&buf, MatcherType::Doc, "application/vnd.openxmlformats-officedocument.spreadsheetml.sheet", "xlsx");
    // the package files alone, without a part directory after them
    let mut buf = local_header(b"[Content_Types].xml", 40);
    buf.extend(local_header(b"_rels/.rels", 40));
    buf.extend(local_header(b"customXml/item.xml", 40));
    assert!(!infer::doc::is_xlsx(&buf));
    check(&buf, MatcherType::Archive, "application/zip", "zip");
}

#[test]
fn archive_samples() {
    check(&[0x50, 0x4B, 0x03, 0x04, 0x14, 0x00], MatcherType::Archive, "application/zip", "zip");
    check(&[0x50, 0x4B, 0x05, 0x06], MatcherType::Archive, "application/zip", "zip");
    check(&at(257, b"ustar", 300), MatcherType::Archive, "application/x-tar", "tar");
    check(b"Rar!\x1a\x07\x01\x00", MatcherType::Archive, "application/vnd.rar", "rar");
    check(&[0x1F, 0x8B, 0x08, 0x00], MatcherType::Archive, "application/gzip", "gz");
    check(b"BZh91AY", MatcherType::Archive, "application/x-bzip2", "bz2");
    check(b"BZ3v1\0", MatcherType::Archive, "application/vnd.bzip3", "bz3");
    check(&[0x37, 0x7A, 0xBC, 0xAF, 0x27, 0x1C, 0x00], MatcherType::Archive, "application/x-7z-compressed", "7z");
    check(&[0xFD, 0x37, 0x7A, 0x58, 0x5A, 0x00, 0x00], MatcherType::Archive, "application/x-xz", "xz");
    check(b"%PDF-1.7", MatcherType::Archive, "application/pdf", "pdf");
    check(b"FWS\x0a", MatcherType::Archive, "application/x-shockwave-flash", "swf");
    check(b"{\\rtf1", MatcherType::Archive, "application/rtf", "rtf");
    let mut eot = vec![0u8; 40];
    eot[8..11].copy_from_slice(&[0x02, 0x00, 0x01]);
    eot[34] = 0x4C;
    eot[35] = 0x50;
    check(&eot, MatcherType::Archive, "application/octet-stream", "eot");
    check(b"%!PS-Adobe", MatcherType::Archive, "application/postscript", "ps");
    check(b"SQLite format 3\0", MatcherType::Archive, "application/vnd.sqlite3", "sqlite");
    check(b"NES\x1a\x02", MatcherType::Archive, "application/x-nintendo-nes-rom", "nes");
    check(b"Cr24\x03", MatcherType::Archive, "application/x-google-chrome-extension", "crx");
    check(b"MSCF\0\0", MatcherType::Archive, "application/vnd.ms-cab-compressed", "cab");
    check(b"!<arch>\ndebian-binary   ", MatcherType::Archive, "application/vnd.debian.binary-package", "deb");
    check(b"!<arch>\nfoo.o/", MatcherType::Archive, "application/x-unix-archive", "ar");
    check(&[0x1F, 0x9D, 0x90], MatcherType::Archive, "application/x-compress", "Z");
    check(b"LZIP\x01", MatcherType::Archive, "application/x-lzip", "lz");
    check(&padded(&[0xED, 0xAB, 0xEE, 0xDB], 100), MatcherType::Archive, "application/x-rpm", "rpm");
    check(&at(128, b"DICM", 140), MatcherType::Archive, "application/dicom", "dcm");
    check(&[0x28, 0xB5, 0x2F, 0xFD, 0x00], MatcherType::Archive, "application/zstd", "zst");
    check(&[0x04, 0x22, 0x4D, 0x18, 0x64], MatcherType::Archive, "application/x-lz4", "lz4");
    check(&padded(&[0xD0, 0xCF, 0x11, 0xE0, 0xA1, 0xB1, 0x1A, 0xE1], 64), MatcherType::Archive, "application/x-ole-storage", "msi");
    check(&[0xC7, 0x71, 0x00], MatcherType::Archive, "application/x-cpio", "cpio");
    check(b"070701000", MatcherType::Archive, "application/x-cpio", "cpio");
    check(b"PAR2\0PKT\0", MatcherType::Archive, "application/x-par2", "par2");
}

#[test]
fn skippable_frames_are_followed() {
    // a skippable frame of four bytes, then a Zstandard frame
    let zst = [0x50, 0x2A, 0x4D, 0x18, 0x04, 0x00, 0x00, 0x00, 1, 2, 3, 4, 0x28, 0xB5, 0x2F, 0xFD];
    check(&zst, MatcherType::Archive, "application/zstd", "zst");
    // the same skippable frame, then an LZ4 frame
    let lz4 = [0x5F, 0x2A, 0x4D, 0x18, 0x04, 0x00, 0x00, 0x00, 1, 2, 3, 4, 0x04, 0x22, 0x4D, 0x18];
    check(&lz4, MatcherType::Archive, "application/x-lz4", "lz4");
    assert!(!infer::archive::is_zst(&lz4));
    // a declared length that runs past the end of the buffer
    let short = [0x50, 0x2A, 0x4D, 0x18, 0xFF, 0x00, 0x00, 0x00, 0x28, 0xB5, 0x2F, 0xFD];
    assert!(!infer::archive::is_zst(&short));
    assert!(!infer::archive::is_lz4(&short));
    // a magic just outside the skippable range
    let outside = [0x60, 0x2A, 0x4D, 0x18, 0x00, 0x00, 0x00, 0x00, 0x28, 0xB5, 0x2F, 0xFD];
    assert!(!infer::archive::is_zst(&outside));
}

#[test]
fn text_samples() {
    check(b"<HTML><BODY>", MatcherType::Text, "text/html", "html");
    check(b"<?xml version=\"1.0\"?>", MatcherType::Text, "text/xml", "xml");
    check(b"#!/bin/bash", MatcherType::Text, "text/x-shellscript", "sh");
}

#[test]
fn java_and_fat_mach_o_share_a_magic() {
    let java = [0xCA, 0xFE, 0xBA, 0xBE, 0x00, 0x00, 0x00, 0x34];
    assert!(infer::app::is_java(&java));
    assert!(!infer::app::is_mach(&java));
    let fat = [0xCA, 0xFE, 0xBA, 0xBE, 0x00, 0x00, 0x00, 0x02];
    assert!(infer::app::is_mach(&fat));
    assert!(!infer::app::is_java(&fat));
    // version 45 minor 0 is the first Java class file version
    assert!(infer::app::is_java(&[0xCA, 0xFE, 0xBA, 0xBE, 0x00, 0x00, 0x00, 0x2D]));
    assert!(infer::app::is_mach(&[0xCA, 0xFE, 0xBA, 0xBE, 0x00, 0x00, 0x00, 0x2C]));
}

#[test]
fn short_buffers_match_nothing() {
    for len in 0..3 {
        let buf = vec![0xFFu8; len];
        if len < 3 {
            assert!(!infer::image::is_jpeg(&buf));
        }
    }
    assert!(infer::get(&[0x00]).is_none());
    assert!(!infer::app::is_elf(&padded(&[0x7F, 0x45, 0x4C, 0x46], 52)));
}
