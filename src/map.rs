//! The built-in registry: one descriptor per supported format, in the order they are tried.
use vstd::prelude::*;

use crate::matchers::{app, archive, audio, book, doc, font, image, odf, text, video};
use crate::matchtype::{Predicate, Type};

verus! {

/// The categories of types.
#[derive(Debug, Clone, Copy, PartialEq, Eq, Structural)]
pub enum MatcherType {
    App,
    Archive,
    Audio,
    Book,
    Doc,
    Font,
    Image,
    Text,
    Video,
    Custom,
}

/// The formats of the built-in registry.
#[derive(Debug, Clone, Copy, PartialEq, Eq, Structural)]
pub enum Format {
    Wasm,
    Elf,
    Exe,
    Dll,
    Java,
    Llvm,
    Mach,
    Dex,
    Dey,
    Der,
    Coff,
    Pem,
    Epub,
    Mobi,
    Jpeg,
    Jpeg2000,
    Png,
    Gif,
    Webp,
    Cr2,
    Tiff,
    Bmp,
    Jxr,
    Psd,
    Ico,
    Heif,
    Avif,
    Jxl,
    Ora,
    Djvu,
    Mp4,
    M4v,
    Mkv,
    Webm,
    Mov,
    Avi,
    Wmv,
    Mpeg,
    Flv,
    Midi,
    Mp3,
    M4a,
    OggOpus,
    Ogg,
    Flac,
    Wav,
    Amr,
    Aac,
    Aiff,
    Dsf,
    Ape,
    Woff,
    Woff2,
    Ttf,
    Otf,
    Doc,
    Docx,
    Xls,
    Xlsx,
    Ppt,
    Pptx,
    Odt,
    Ods,
    Odp,
    Zip,
    Tar,
    Rar,
    Gz,
    Bz2,
    Bz3,
    SevenZ,
    Xz,
    Pdf,
    Swf,
    Rtf,
    Eot,
    Ps,
    Sqlite,
    Nes,
    Crx,
    Cab,
    Deb,
    Ar,
    Z,
    Lz,
    Rpm,
    Dcm,
    Zst,
    Lz4,
    Msi,
    Cpio,
    Par2,
    Html,
    Xml,
    Shellscript,
}

/// Number of built-in descriptors.
pub const BUILTIN_COUNT: usize = 95;

/// Whether `b` passes the signature of format `f`.
pub open spec fn format_matches(f: Format, b: Seq<u8>) -> bool {
    match f {
        Format::Wasm => app::spec_is_wasm(b),
        Format::Elf => app::spec_is_elf(b),
        Format::Exe => app::spec_is_exe(b),
        Format::Dll => app::spec_is_exe(b),
        Format::Java => app::spec_is_java(b),
        Format::Llvm => app::spec_is_llvm(b),
        Format::Mach => app::spec_is_mach(b),
        Format::Dex => app::spec_is_dex(b),
        Format::Dey => app::spec_is_dey(b),
        Format::Der => app::spec_is_der(b),
        Format::Coff => app::spec_is_coff(b),
        Format::Pem => app::spec_is_pem(b),
        Format::Epub => book::spec_is_epub(b),
        Format::Mobi => book::spec_is_mobi(b),
        Format::Jpeg => image::spec_is_jpeg(b),
        Format::Jpeg2000 => image::spec_is_jpeg2000(b),
        Format::Png => image::spec_is_png(b),
        Format::Gif => image::spec_is_gif(b),
        Format::Webp => image::spec_is_webp(b),
        Format::Cr2 => image::spec_is_cr2(b),
        Format::Tiff => image::spec_is_tiff(b),
        Format::Bmp => image::spec_is_bmp(b),
        Format::Jxr => image::spec_is_jxr(b),
        Format::Psd => image::spec_is_psd(b),
        Format::Ico => image::spec_is_ico(b),
        Format::Heif => image::spec_is_heif(b),
        Format::Avif => image::spec_is_avif(b),
        Format::Jxl => image::spec_is_jxl(b),
        Format::Ora => image::spec_is_ora(b),
        Format::Djvu => image::spec_is_djvu(b),
        Format::Mp4 => video::spec_is_mp4(b),
        Format::M4v => video::spec_is_m4v(b),
        Format::Mkv => video::spec_is_mkv(b),
        Format::Webm => video::spec_is_webm(b),
        Format::Mov => video::spec_is_mov(b),
        Format::Avi => video::spec_is_avi(b),
        Format::Wmv => video::spec_is_wmv(b),
        Format::Mpeg => video::spec_is_mpeg(b),
        Format::Flv => video::spec_is_flv(b),
        Format::Midi => audio::spec_is_midi(b),
        Format::Mp3 => audio::spec_is_mp3(b),
        Format::M4a => audio::spec_is_m4a(b),
        Format::OggOpus => audio::spec_is_ogg_opus(b),
        Format::Ogg => audio::spec_is_ogg(b),
        Format::Flac => audio::spec_is_flac(b),
        Format::Wav => audio::spec_is_wav(b),
        Format::Amr => audio::spec_is_amr(b),
        Format::Aac => audio::spec_is_aac(b),
        Format::Aiff => audio::spec_is_aiff(b),
        Format::Dsf => audio::spec_is_dsf(b),
        Format::Ape => audio::spec_is_ape(b),
        Format::Woff => font::spec_is_woff(b),
        Format::Woff2 => font::spec_is_woff2(b),
        Format::Ttf => font::spec_is_ttf(b),
        Format::Otf => font::spec_is_otf(b),
        Format::Doc => doc::spec_is_doc(b),
        Format::Docx => doc::spec_is_docx(b),
        Format::Xls => doc::spec_is_xls(b),
        Format::Xlsx => doc::spec_is_xlsx(b),
        Format::Ppt => doc::spec_is_ppt(b),
        Format::Pptx => doc::spec_is_pptx(b),
        Format::Odt => odf::spec_is_odt(b),
        Format::Ods => odf::spec_is_ods(b),
        Format::Odp => odf::spec_is_odp(b),
        Format::Zip => archive::spec_is_zip(b),
        Format::Tar => archive::spec_is_tar(b),
        Format::Rar => archive::spec_is_rar(b),
        Format::Gz => archive::spec_is_gz(b),
        Format::Bz2 => archive::spec_is_bz2(b),
        Format::Bz3 => archive::spec_is_bz3(b),
        Format::SevenZ => archive::spec_is_7z(b),
        Format::Xz => archive::spec_is_xz(b),
        Format::Pdf => archive::spec_is_pdf(b),
        Format::Swf => archive::spec_is_swf(b),
        Format::Rtf => archive::spec_is_rtf(b),
        Format::Eot => archive::spec_is_eot(b),
        Format::Ps => archive::spec_is_ps(b),
        Format::Sqlite => archive::spec_is_sqlite(b),
        Format::Nes => archive::spec_is_nes(b),
        Format::Crx => archive::spec_is_crx(b),
        Format::Cab => archive::spec_is_cab(b),
        Format::Deb => archive::spec_is_deb(b),
        Format::Ar => archive::spec_is_ar(b),
        Format::Z => archive::spec_is_z(b),
        Format::Lz => archive::spec_is_lz(b),
        Format::Rpm => archive::spec_is_rpm(b),
        Format::Dcm => archive::spec_is_dcm(b),
        Format::Zst => archive::spec_is_zst(b),
        Format::Lz4 => archive::spec_is_lz4(b),
        Format::Msi => archive::spec_is_msi(b),
        Format::Cpio => archive::spec_is_cpio(b),
        Format::Par2 => archive::spec_is_par2(b),
        Format::Html => text::spec_is_html(b),
        Format::Xml => text::spec_is_xml(b),
        Format::Shellscript => text::spec_is_shellscript(b),
    }
}

/// The descriptor of format `f`.
pub open spec fn format_type(f: Format) -> Type {
    match f {
        Format::Wasm => Type { matcher_type: MatcherType::App, mime_type: "application/wasm", extension: "wasm", matcher: Predicate::Builtin(Format::Wasm), read_size: Some(8usize) },
        Format::Elf => Type { matcher_type: MatcherType::App, mime_type: "application/x-executable", extension: "elf", matcher: Predicate::Builtin(Format::Elf), read_size: None },
        Format::Exe => Type { matcher_type: MatcherType::App, mime_type: "application/vnd.microsoft.portable-executable", extension: "exe", matcher: Predicate::Builtin(Format::Exe), read_size: None },
        Format::Dll => Type { matcher_type: MatcherType::App, mime_type: "application/vnd.microsoft.portable-executable", extension: "dll", matcher: Predicate::Builtin(Format::Dll), read_size: None },
        Format::Java => Type { matcher_type: MatcherType::App, mime_type: "application/java", extension: "class", matcher: Predicate::Builtin(Format::Java), read_size: None },
        Format::Llvm => Type { matcher_type: MatcherType::App, mime_type: "application/x-llvm", extension: "bc", matcher: Predicate::Builtin(Format::Llvm), read_size: None },
        Format::Mach => Type { matcher_type: MatcherType::App, mime_type: "application/x-mach-binary", extension: "mach", matcher: Predicate::Builtin(Format::Mach), read_size: None },
        Format::Dex => Type { matcher_type: MatcherType::App, mime_type: "application/vnd.android.dex", extension: "dex", matcher: Predicate::Builtin(Format::Dex), read_size: None },
        Format::Dey => Type { matcher_type: MatcherType::App, mime_type: "application/vnd.android.dey", extension: "dey", matcher: Predicate::Builtin(Format::Dey), read_size: None },
        Format::Der => Type { matcher_type: MatcherType::App, mime_type: "application/x-x509-ca-cert", extension: "der", matcher: Predicate::Builtin(Format::Der), read_size: None },
        Format::Coff => Type { matcher_type: MatcherType::App, mime_type: "application/x-executable", extension: "obj", matcher: Predicate::Builtin(Format::Coff), read_size: None },
        Format::Pem => Type { matcher_type: MatcherType::App, mime_type: "application/x-x509-ca-cert", extension: "pem", matcher: Predicate::Builtin(Format::Pem), read_size: None },
        Format::Epub => Type { matcher_type: MatcherType::Book, mime_type: "application/epub+zip", extension: "epub", matcher: Predicate::Builtin(Format::Epub), read_size: None },
        Format::Mobi => Type { matcher_type: MatcherType::Book, mime_type: "application/x-mobipocket-ebook", extension: "mobi", matcher: Predicate::Builtin(Format::Mobi), read_size: None },
        Format::Jpeg => Type { matcher_type: MatcherType::Image, mime_type: "image/jpeg", extension: "jpg", matcher: Predicate::Builtin(Format::Jpeg), read_size: None },
        Format::Jpeg2000 => Type { matcher_type: MatcherType::Image, mime_type: "image/jp2", extension: "jp2", matcher: Predicate::Builtin(Format::Jpeg2000), read_size: None },
        Format::Png => Type { matcher_type: MatcherType::Image, mime_type: "image/png", extension: "png", matcher: Predicate::Builtin(Format::Png), read_size: None },
        Format::Gif => Type { matcher_type: MatcherType::Image, mime_type: "image/gif", extension: "gif", matcher: Predicate::Builtin(Format::Gif), read_size: None },
        Format::Webp => Type { matcher_type: MatcherType::Image, mime_type: "image/webp", extension: "webp", matcher: Predicate::Builtin(Format::Webp), read_size: None },
        Format::Cr2 => Type { matcher_type: MatcherType::Image, mime_type: "image/x-canon-cr2", extension: "cr2", matcher: Predicate::Builtin(Format::Cr2), read_size: None },
        Format::Tiff => Type { matcher_type: MatcherType::Image, mime_type: "image/tiff", extension: "tif", matcher: Predicate::Builtin(Format::Tiff), read_size: None },
        Format::Bmp => Type { matcher_type: MatcherType::Image, mime_type: "image/bmp", extension: "bmp", matcher: Predicate::Builtin(Format::Bmp), read_size: None },
        Format::Jxr => Type { matcher_type: MatcherType::Image, mime_type: "image/vnd.ms-photo", extension: "jxr", matcher: Predicate::Builtin(Format::Jxr), read_size: None },
        Format::Psd => Type { matcher_type: MatcherType::Image, mime_type: "image/vnd.adobe.photoshop", extension: "psd", matcher: Predicate::Builtin(Format::Psd), read_size: None },
        Format::Ico => Type { matcher_type: MatcherType::Image, mime_type: "image/vnd.microsoft.icon", extension: "ico", matcher: Predicate::Builtin(Format::Ico), read_size: None },
        Format::Heif => Type { matcher_type: MatcherType::Image, mime_type: "image/heif", extension: "heif", matcher: Predicate::Builtin(Format::Heif), read_size: None },
        Format::Avif => Type { matcher_type: MatcherType::Image, mime_type: "image/avif", extension: "avif", matcher: Predicate::Builtin(Format::Avif), read_size: None },
        Format::Jxl => Type { matcher_type: MatcherType::Image, mime_type: "image/jxl", extension: "jxl", matcher: Predicate::Builtin(Format::Jxl), read_size: None },
        Format::Ora => Type { matcher_type: MatcherType::Image, mime_type: "image/openraster", extension: "ora", matcher: Predicate::Builtin(Format::Ora), read_size: None },
        Format::Djvu => Type { matcher_type: MatcherType::Image, mime_type: "image/vnd.djvu", extension: "djvu", matcher: Predicate::Builtin(Format::Djvu), read_size: None },
        Format::Mp4 => Type { matcher_type: MatcherType::Video, mime_type: "video/mp4", extension: "mp4", matcher: Predicate::Builtin(Format::Mp4), read_size: None },
        Format::M4v => Type { matcher_type: MatcherType::Video, mime_type: "video/x-m4v", extension: "m4v", matcher: Predicate::Builtin(Format::M4v), read_size: None },
        Format::Mkv => Type { matcher_type: MatcherType::Video, mime_type: "video/x-matroska", extension: "mkv", matcher: Predicate::Builtin(Format::Mkv), read_size: None },
        Format::Webm => Type { matcher_type: MatcherType::Video, mime_type: "video/webm", extension: "webm", matcher: Predicate::Builtin(Format::Webm), read_size: None },
        Format::Mov => Type { matcher_type: MatcherType::Video, mime_type: "video/quicktime", extension: "mov", matcher: Predicate::Builtin(Format::Mov), read_size: None },
        Format::Avi => Type { matcher_type: MatcherType::Video, mime_type: "video/x-msvideo", extension: "avi", matcher: Predicate::Builtin(Format::Avi), read_size: None },
        Format::Wmv => Type { matcher_type: MatcherType::Video, mime_type: "video/x-ms-wmv", extension: "wmv", matcher: Predicate::Builtin(Format::Wmv), read_size: None },
        Format::Mpeg => Type { matcher_type: MatcherType::Video, mime_type: "video/mpeg", extension: "mpg", matcher: Predicate::Builtin(Format::Mpeg), read_size: None },
        Format::Flv => Type { matcher_type: MatcherType::Video, mime_type: "video/x-flv", extension: "flv", matcher: Predicate::Builtin(Format::Flv), read_size: None },
        Format::Midi => Type { matcher_type: MatcherType::Audio, mime_type: "audio/midi", extension: "midi", matcher: Predicate::Builtin(Format::Midi), read_size: None },
        Format::Mp3 => Type { matcher_type: MatcherType::Audio, mime_type: "audio/mpeg", extension: "mp3", matcher: Predicate::Builtin(Format::Mp3), read_size: None },
        Format::M4a => Type { matcher_type: MatcherType::Audio, mime_type: "audio/m4a", extension: "m4a", matcher: Predicate::Builtin(Format::M4a), read_size: None },
        Format::OggOpus => Type { matcher_type: MatcherType::Audio, mime_type: "audio/opus", extension: "opus", matcher: Predicate::Builtin(Format::OggOpus), read_size: None },
        Format::Ogg => Type { matcher_type: MatcherType::Audio, mime_type: "audio/ogg", extension: "ogg", matcher: Predicate::Builtin(Format::Ogg), read_size: None },
        Format::Flac => Type { matcher_type: MatcherType::Audio, mime_type: "audio/x-flac", extension: "flac", matcher: Predicate::Builtin(Format::Flac), read_size: None },
        Format::Wav => Type { matcher_type: MatcherType::Audio, mime_type: "audio/x-wav", extension: "wav", matcher: Predicate::Builtin(Format::Wav), read_size: None },
        Format::Amr => Type { matcher_type: MatcherType::Audio, mime_type: "audio/amr", extension: "amr", matcher: Predicate::Builtin(Format::Amr), read_size: None },
        Format::Aac => Type { matcher_type: MatcherType::Audio, mime_type: "audio/aac", extension: "aac", matcher: Predicate::Builtin(Format::Aac), read_size: None },
        Format::Aiff => Type { matcher_type: MatcherType::Audio, mime_type: "audio/x-aiff", extension: "aiff", matcher: Predicate::Builtin(Format::Aiff), read_size: None },
        Format::Dsf => Type { matcher_type: MatcherType::Audio, mime_type: "audio/x-dsf", extension: "dsf", matcher: Predicate::Builtin(Format::Dsf), read_size: None },
        Format::Ape => Type { matcher_type: MatcherType::Audio, mime_type: "audio/x-ape", extension: "ape", matcher: Predicate::Builtin(Format::Ape), read_size: None },
        Format::Woff => Type { matcher_type: MatcherType::Font, mime_type: "application/font-woff", extension: "woff", matcher: Predicate::Builtin(Format::Woff), read_size: Some(8usize) },
        Format::Woff2 => Type { matcher_type: MatcherType::Font, mime_type: "application/font-woff", extension: "woff2", matcher: Predicate::Builtin(Format::Woff2), read_size: Some(8usize) },
        Format::Ttf => Type { matcher_type: MatcherType::Font, mime_type: "application/font-sfnt", extension: "ttf", matcher: Predicate::Builtin(Format::Ttf), read_size: Some(5usize) },
        Format::Otf => Type { matcher_type: MatcherType::Font, mime_type: "application/font-sfnt", extension: "otf", matcher: Predicate::Builtin(Format::Otf), read_size: Some(5usize) },
        Format::Doc => Type { matcher_type: MatcherType::Doc, mime_type: "application/msword", extension: "doc", matcher: Predicate::Builtin(Format::Doc), read_size: None },
        Format::Docx => Type { matcher_type: MatcherType::Doc, mime_type: "application/vnd.openxmlformats-officedocument.wordprocessingml.document", extension: "docx", matcher: Predicate::Builtin(Format::Docx), read_size: None },
        Format::Xls => Type { matcher_type: MatcherType::Doc, mime_type: "application/vnd.ms-excel", extension: "xls", matcher: Predicate::Builtin(Format::Xls), read_size: None },
        Format::Xlsx => Type { matcher_type: MatcherType::Doc, mime_type: "application/vnd.openxmlformats-officedocument.spreadsheetml.sheet", extension: "xlsx", matcher: Predicate::Builtin(Format::Xlsx), read_size: None },
        Format::Ppt => Type { matcher_type: MatcherType::Doc, mime_type: "application/vnd.ms-powerpoint", extension: "ppt", matcher: Predicate::Builtin(Format::Ppt), read_size: None },
        Format::Pptx => Type { matcher_type: MatcherType::Doc, mime_type: "application/vnd.openxmlformats-officedocument.presentationml.presentation", extension: "pptx", matcher: Predicate::Builtin(Format::Pptx), read_size: None },
        Format::Odt => Type { matcher_type: MatcherType::Doc, mime_type: "application/vnd.oasis.opendocument.text", extension: "odt", matcher: Predicate::Builtin(Format::Odt), read_size: Some(104usize) },
        Format::Ods => Type { matcher_type: MatcherType::Doc, mime_type: "application/vnd.oasis.opendocument.spreadsheet", extension: "ods", matcher: Predicate::Builtin(Format::Ods), read_size: Some(104usize) },
        Format::Odp => Type { matcher_type: MatcherType::Doc, mime_type: "application/vnd.oasis.opendocument.presentation", extension: "odp", matcher: Predicate::Builtin(Format::Odp), read_size: Some(104usize) },
        Format::Zip => Type { matcher_type: MatcherType::Archive, mime_type: "application/zip", extension: "zip", matcher: Predicate::Builtin(Format::Zip), read_size: None },
        Format::Tar => Type { matcher_type: MatcherType::Archive, mime_type: "application/x-tar", extension: "tar", matcher: Predicate::Builtin(Format::Tar), read_size: None },
        Format::Rar => Type { matcher_type: MatcherType::Archive, mime_type: "application/vnd.rar", extension: "rar", matcher: Predicate::Builtin(Format::Rar), read_size: None },
        Format::Gz => Type { matcher_type: MatcherType::Archive, mime_type: "application/gzip", extension: "gz", matcher: Predicate::Builtin(Format::Gz), read_size: None },
        Format::Bz2 => Type { matcher_type: MatcherType::Archive, mime_type: "application/x-bzip2", extension: "bz2", matcher: Predicate::Builtin(Format::Bz2), read_size: None },
        Format::Bz3 => Type { matcher_type: MatcherType::Archive, mime_type: "application/vnd.bzip3", extension: "bz3", matcher: Predicate::Builtin(Format::Bz3), read_size: None },
        Format::SevenZ => Type { matcher_type: MatcherType::Archive, mime_type: "application/x-7z-compressed", extension: "7z", matcher: Predicate::Builtin(Format::SevenZ), read_size: None },
        Format::Xz => Type { matcher_type: MatcherType::Archive, mime_type: "application/x-xz", extension: "xz", matcher: Predicate::Builtin(Format::Xz), read_size: None },
        Format::Pdf => Type { matcher_type: MatcherType::Archive, mime_type: "application/pdf", extension: "pdf", matcher: Predicate::Builtin(Format::Pdf), read_size: None },
        Format::Swf => Type { matcher_type: MatcherType::Archive, mime_type: "application/x-shockwave-flash", extension: "swf", matcher: Predicate::Builtin(Format::Swf), read_size: None },
        Format::Rtf => Type { matcher_type: MatcherType::Archive, mime_type: "application/rtf", extension: "rtf", matcher: Predicate::Builtin(Format::Rtf), read_size: None },
        Format::Eot => Type { matcher_type: MatcherType::Archive, mime_type: "application/octet-stream", extension: "eot", matcher: Predicate::Builtin(Format::Eot), read_size: None },
        Format::Ps => Type { matcher_type: MatcherType::Archive, mime_type: "application/postscript", extension: "ps", matcher: Predicate::Builtin(Format::Ps), read_size: None },
        Format::Sqlite => Type { matcher_type: MatcherType::Archive, mime_type: "application/vnd.sqlite3", extension: "sqlite", matcher: Predicate::Builtin(Format::Sqlite), read_size: None },
        Format::Nes => Type { matcher_type: MatcherType::Archive, mime_type: "application/x-nintendo-nes-rom", extension: "nes", matcher: Predicate::Builtin(Format::Nes), read_size: None },
        Format::Crx => Type { matcher_type: MatcherType::Archive, mime_type: "application/x-google-chrome-extension", extension: "crx", matcher: Predicate::Builtin(Format::Crx), read_size: None },
        Format::Cab => Type { matcher_type: MatcherType::Archive, mime_type: "application/vnd.ms-cab-compressed", extension: "cab", matcher: Predicate::Builtin(Format::Cab), read_size: None },
        Format::Deb => Type { matcher_type: MatcherType::Archive, mime_type: "application/vnd.debian.binary-package", extension: "deb", matcher: Predicate::Builtin(Format::Deb), read_size: None },
        Format::Ar => Type { matcher_type: MatcherType::Archive, mime_type: "application/x-unix-archive", extension: "ar", matcher: Predicate::Builtin(Format::Ar), read_size: None },
        Format::Z => Type { matcher_type: MatcherType::Archive, mime_type: "application/x-compress", extension: "Z", matcher: Predicate::Builtin(Format::Z), read_size: None },
        Format::Lz => Type { matcher_type: MatcherType::Archive, mime_type: "application/x-lzip", extension: "lz", matcher: Predicate::Builtin(Format::Lz), read_size: None },
        Format::Rpm => Type { matcher_type: MatcherType::Archive, mime_type: "application/x-rpm", extension: "rpm", matcher: Predicate::Builtin(Format::Rpm), read_size: None },
        Format::Dcm => Type { matcher_type: MatcherType::Archive, mime_type: "application/dicom", extension: "dcm", matcher: Predicate::Builtin(Format::Dcm), read_size: None },
        Format::Zst => Type { matcher_type: MatcherType::Archive, mime_type: "application/zstd", extension: "zst", matcher: Predicate::Builtin(Format::Zst), read_size: None },
        Format::Lz4 => Type { matcher_type: MatcherType::Archive, mime_type: "application/x-lz4", extension: "lz4", matcher: Predicate::Builtin(Format::Lz4), read_size: None },
        Format::Msi => Type { matcher_type: MatcherType::Archive, mime_type: "application/x-ole-storage", extension: "msi", matcher: Predicate::Builtin(Format::Msi), read_size: None },
        Format::Cpio => Type { matcher_type: MatcherType::Archive, mime_type: "application/x-cpio", extension: "cpio", matcher: Predicate::Builtin(Format::Cpio), read_size: None },
        Format::Par2 => Type { matcher_type: MatcherType::Archive, mime_type: "application/x-par2", extension: "par2", matcher: Predicate::Builtin(Format::Par2), read_size: None },
        Format::Html => Type { matcher_type: MatcherType::Text, mime_type: "text/html", extension: "html", matcher: Predicate::Builtin(Format::Html), read_size: None },
        Format::Xml => Type { matcher_type: MatcherType::Text, mime_type: "text/xml", extension: "xml", matcher: Predicate::Builtin(Format::Xml), read_size: None },
        Format::Shellscript => Type { matcher_type: MatcherType::Text, mime_type: "text/x-shellscript", extension: "sh", matcher: Predicate::Builtin(Format::Shellscript), read_size: None },
    }
}

/// The format at position `i` of the built-in registry.
pub open spec fn builtin_format(i: int) -> Format {
    if i == 0 {
        Format::Wasm
    } else if i == 1 {
        Format::Elf
    } else if i == 2 {
        Format::Exe
    } else if i == 3 {
        Format::Dll
    } else if i == 4 {
        Format::Java
    } else if i == 5 {
        Format::Llvm
    } else if i == 6 {
        Format::Mach
    } else if i == 7 {
        Format::Dex
    } else if i == 8 {
        Format::Dey
    } else if i == 9 {
        Format::Der
    } else if i == 10 {
        Format::Coff
    } else if i == 11 {
        Format::Pem
    } else if i == 12 {
        Format::Epub
    } else if i == 13 {
        Format::Mobi
    } else if i == 14 {
        Format::Jpeg
    } else if i == 15 {
        Format::Jpeg2000
    } else if i == 16 {
        Format::Png
    } else if i == 17 {
        Format::Gif
    } else if i == 18 {
        Format::Webp
    } else if i == 19 {
        Format::Cr2
    } else if i == 20 {
        Format::Tiff
    } else if i == 21 {
        Format::Bmp
    } else if i == 22 {
        Format::Jxr
    } else if i == 23 {
        Format::Psd
    } else if i == 24 {
        Format::Ico
    } else if i == 25 {
        Format::Heif
    } else if i == 26 {
        Format::Avif
    } else if i == 27 {
        Format::Jxl
    } else if i == 28 {
        Format::Ora
    } else if i == 29 {
        Format::Djvu
    } else if i == 30 {
        Format::Mp4
    } else if i == 31 {
        Format::M4v
    } else if i == 32 {
        Format::Mkv
    } else if i == 33 {
        Format::Webm
    } else if i == 34 {
        Format::Mov
    } else if i == 35 {
        Format::Avi
    } else if i == 36 {
        Format::Wmv
    } else if i == 37 {
        Format::Mpeg
    } else if i == 38 {
        Format::Flv
    } else if i == 39 {
        Format::Midi
    } else if i == 40 {
        Format::Mp3
    } else if i == 41 {
        Format::M4a
    } else if i == 42 {
        Format::OggOpus
    } else if i == 43 {
        Format::Ogg
    } else if i == 44 {
        Format::Flac
    } else if i == 45 {
        Format::Wav
    } else if i == 46 {
        Format::Amr
    } else if i == 47 {
        Format::Aac
    } else if i == 48 {
        Format::Aiff
    } else if i == 49 {
        Format::Dsf
    } else if i == 50 {
        Format::Ape
    } else if i == 51 {
        Format::Woff
    } else if i == 52 {
        Format::Woff2
    } else if i == 53 {
        Format::Ttf
    } else if i == 54 {
        Format::Otf
    } else if i == 55 {
        Format::Doc
    } else if i == 56 {
        Format::Docx
    } else if i == 57 {
        Format::Xls
    } else if i == 58 {
        Format::Xlsx
    } else if i == 59 {
        Format::Ppt
    } else if i == 60 {
        Format::Pptx
    } else if i == 61 {
        Format::Odt
    } else if i == 62 {
        Format::Ods
    } else if i == 63 {
        Format::Odp
    } else if i == 64 {
        Format::Zip
    } else if i == 65 {
        Format::Tar
    } else if i == 66 {
        Format::Rar
    } else if i == 67 {
        Format::Gz
    } else if i == 68 {
        Format::Bz2
    } else if i == 69 {
        Format::Bz3
    } else if i == 70 {
        Format::SevenZ
    } else if i == 71 {
        Format::Xz
    } else if i == 72 {
        Format::Pdf
    } else if i == 73 {
        Format::Swf
    } else if i == 74 {
        Format::Rtf
    } else if i == 75 {
        Format::Eot
    } else if i == 76 {
        Format::Ps
    } else if i == 77 {
        Format::Sqlite
    } else if i == 78 {
        Format::Nes
    } else if i == 79 {
        Format::Crx
    } else if i == 80 {
        Format::Cab
    } else if i == 81 {
        Format::Deb
    } else if i == 82 {
        Format::Ar
    } else if i == 83 {
        Format::Z
    } else if i == 84 {
        Format::Lz
    } else if i == 85 {
        Format::Rpm
    } else if i == 86 {
        Format::Dcm
    } else if i == 87 {
        Format::Zst
    } else if i == 88 {
        Format::Lz4
    } else if i == 89 {
        Format::Msi
    } else if i == 90 {
        Format::Cpio
    } else if i == 91 {
        Format::Par2
    } else if i == 92 {
        Format::Html
    } else if i == 93 {
        Format::Xml
    } else {
        Format::Shellscript
    }
}

/// The descriptor at position `i` of the built-in registry.
pub open spec fn builtin_type(i: int) -> Type {
    format_type(builtin_format(i))
}

/// Returns the format at position `i` of the built-in registry.
pub fn builtin_format_at(i: usize) -> (f: Format)
    requires
        i < BUILTIN_COUNT,
    ensures
        f == builtin_format(i as int),
{
    match i {
        0 => Format::Wasm,
        1 => Format::Elf,
        2 => Format::Exe,
        3 => Format::Dll,
        4 => Format::Java,
        5 => Format::Llvm,
        6 => Format::Mach,
        7 => Format::Dex,
        8 => Format::Dey,
        9 => Format::Der,
        10 => Format::Coff,
        11 => Format::Pem,
        12 => Format::Epub,
        13 => Format::Mobi,
        14 => Format::Jpeg,
        15 => Format::Jpeg2000,
        16 => Format::Png,
        17 => Format::Gif,
        18 => Format::Webp,
        19 => Format::Cr2,
        20 => Format::Tiff,
        21 => Format::Bmp,
        22 => Format::Jxr,
        23 => Format::Psd,
        24 => Format::Ico,
        25 => Format::Heif,
        26 => Format::Avif,
        27 => Format::Jxl,
        28 => Format::Ora,
        29 => Format::Djvu,
        30 => Format::Mp4,
        31 => Format::M4v,
        32 => Format::Mkv,
        33 => Format::Webm,
        34 => Format::Mov,
        35 => Format::Avi,
        36 => Format::Wmv,
        37 => Format::Mpeg,
        38 => Format::Flv,
        39 => Format::Midi,
        40 => Format::Mp3,
        41 => Format::M4a,
        42 => Format::OggOpus,
        43 => Format::Ogg,
        44 => Format::Flac,
        45 => Format::Wav,
        46 => Format::Amr,
        47 => Format::Aac,
        48 => Format::Aiff,
        49 => Format::Dsf,
        50 => Format::Ape,
        51 => Format::Woff,
        52 => Format::Woff2,
        53 => Format::Ttf,
        54 => Format::Otf,
        55 => Format::Doc,
        56 => Format::Docx,
        57 => Format::Xls,
        58 => Format::Xlsx,
        59 => Format::Ppt,
        60 => Format::Pptx,
        61 => Format::Odt,
        62 => Format::Ods,
        63 => Format::Odp,
        64 => Format::Zip,
        65 => Format::Tar,
        66 => Format::Rar,
        67 => Format::Gz,
        68 => Format::Bz2,
        69 => Format::Bz3,
        70 => Format::SevenZ,
        71 => Format::Xz,
        72 => Format::Pdf,
        73 => Format::Swf,
        74 => Format::Rtf,
        75 => Format::Eot,
        76 => Format::Ps,
        77 => Format::Sqlite,
        78 => Format::Nes,
        79 => Format::Crx,
        80 => Format::Cab,
        81 => Format::Deb,
        82 => Format::Ar,
        83 => Format::Z,
        84 => Format::Lz,
        85 => Format::Rpm,
        86 => Format::Dcm,
        87 => Format::Zst,
        88 => Format::Lz4,
        89 => Format::Msi,
        90 => Format::Cpio,
        91 => Format::Par2,
        92 => Format::Html,
        93 => Format::Xml,
        _ => Format::Shellscript,
    }
}

impl Format {
    /// Whether `buf` passes this format's signature.
    pub fn matches(&self, buf: &[u8]) -> (r: bool)
        ensures
            r == format_matches(*self, buf@),
    {
        match self {
            Format::Wasm => app::is_wasm(buf),
            Format::Elf => app::is_elf(buf),
            Format::Exe => app::is_exe(buf),
            Format::Dll => app::is_dll(buf),
            Format::Java => app::is_java(buf),
            Format::Llvm => app::is_llvm(buf),
            Format::Mach => app::is_mach(buf),
            Format::Dex => app::is_dex(buf),
            Format::Dey => app::is_dey(buf),
            Format::Der => app::is_der(buf),
            Format::Coff => app::is_coff(buf),
            Format::Pem => app::is_pem(buf),
            Format::Epub => book::is_epub(buf),
            Format::Mobi => book::is_mobi(buf),
            Format::Jpeg => image::is_jpeg(buf),
            Format::Jpeg2000 => image::is_jpeg2000(buf),
            Format::Png => image::is_png(buf),
            Format::Gif => image::is_gif(buf),
            Format::Webp => image::is_webp(buf),
            Format::Cr2 => image::is_cr2(buf),
            Format::Tiff => image::is_tiff(buf),
            Format::Bmp => image::is_bmp(buf),
            Format::Jxr => image::is_jxr(buf),
            Format::Psd => image::is_psd(buf),
            Format::Ico => image::is_ico(buf),
            Format::Heif => image::is_heif(buf),
            Format::Avif => image::is_avif(buf),
            Format::Jxl => image::is_jxl(buf),
            Format::Ora => image::is_ora(buf),
            Format::Djvu => image::is_djvu(buf),
            Format::Mp4 => video::is_mp4(buf),
            Format::M4v => video::is_m4v(buf),
            Format::Mkv => video::is_mkv(buf),
            Format::Webm => video::is_webm(buf),
            Format::Mov => video::is_mov(buf),
            Format::Avi => video::is_avi(buf),
            Format::Wmv => video::is_wmv(buf),
            Format::Mpeg => video::is_mpeg(buf),
            Format::Flv => video::is_flv(buf),
            Format::Midi => audio::is_midi(buf),
            Format::Mp3 => audio::is_mp3(buf),
            Format::M4a => audio::is_m4a(buf),
            Format::OggOpus => audio::is_ogg_opus(buf),
            Format::Ogg => audio::is_ogg(buf),
            Format::Flac => audio::is_flac(buf),
            Format::Wav => audio::is_wav(buf),
            Format::Amr => audio::is_amr(buf),
            Format::Aac => audio::is_aac(buf),
            Format::Aiff => audio::is_aiff(buf),
            Format::Dsf => audio::is_dsf(buf),
            Format::Ape => audio::is_ape(buf),
            Format::Woff => font::is_woff(buf),
            Format::Woff2 => font::is_woff2(buf),
            Format::Ttf => font::is_ttf(buf),
            Format::Otf => font::is_otf(buf),
            Format::Doc => doc::is_doc(buf),
            Format::Docx => doc::is_docx(buf),
            Format::Xls => doc::is_xls(buf),
            Format::Xlsx => doc::is_xlsx(buf),
            Format::Ppt => doc::is_ppt(buf),
            Format::Pptx => doc::is_pptx(buf),
            Format::Odt => odf::is_odt(buf),
            Format::Ods => odf::is_ods(buf),
            Format::Odp => odf::is_odp(buf),
            Format::Zip => archive::is_zip(buf),
            Format::Tar => archive::is_tar(buf),
            Format::Rar => archive::is_rar(buf),
            Format::Gz => archive::is_gz(buf),
            Format::Bz2 => archive::is_bz2(buf),
            Format::Bz3 => archive::is_bz3(buf),
            Format::SevenZ => archive::is_7z(buf),
            Format::Xz => archive::is_xz(buf),
            Format::Pdf => archive::is_pdf(buf),
            Format::Swf => archive::is_swf(buf),
            Format::Rtf => archive::is_rtf(buf),
            Format::Eot => archive::is_eot(buf),
            Format::Ps => archive::is_ps(buf),
            Format::Sqlite => archive::is_sqlite(buf),
            Format::Nes => archive::is_nes(buf),
            Format::Crx => archive::is_crx(buf),
            Format::Cab => archive::is_cab(buf),
            Format::Deb => archive::is_deb(buf),
            Format::Ar => archive::is_ar(buf),
            Format::Z => archive::is_z(buf),
            Format::Lz => archive::is_lz(buf),
            Format::Rpm => archive::is_rpm(buf),
            Format::Dcm => archive::is_dcm(buf),
            Format::Zst => archive::is_zst(buf),
            Format::Lz4 => archive::is_lz4(buf),
            Format::Msi => archive::is_msi(buf),
            Format::Cpio => archive::is_cpio(buf),
            Format::Par2 => archive::is_par2(buf),
            Format::Html => text::is_html(buf),
            Format::Xml => text::is_xml(buf),
            Format::Shellscript => text::is_shellscript(buf),
        }
    }

    /// This format's descriptor.
    pub fn descriptor(&self) -> (t: Type)
        ensures
            t == format_type(*self),
    {
        match self {
            Format::Wasm => Type { matcher_type: MatcherType::App, mime_type: "application/wasm", extension: "wasm", matcher: Predicate::Builtin(Format::Wasm), read_size: Some(8) },
            Format::Elf => Type { matcher_type: MatcherType::App, mime_type: "application/x-executable", extension: "elf", matcher: Predicate::Builtin(Format::Elf), read_size: None },
            Format::Exe => Type { matcher_type: MatcherType::App, mime_type: "application/vnd.microsoft.portable-executable", extension: "exe", matcher: Predicate::Builtin(Format::Exe), read_size: None },
            Format::Dll => Type { matcher_type: MatcherType::App, mime_type: "application/vnd.microsoft.portable-executable", extension: "dll", matcher: Predicate::Builtin(Format::Dll), read_size: None },
            Format::Java => Type { matcher_type: MatcherType::App, mime_type: "application/java", extension: "class", matcher: Predicate::Builtin(Format::Java), read_size: None },
            Format::Llvm => Type { matcher_type: MatcherType::App, mime_type: "application/x-llvm", extension: "bc", matcher: Predicate::Builtin(Format::Llvm), read_size: None },
            Format::Mach => Type { matcher_type: MatcherType::App, mime_type: "application/x-mach-binary", extension: "mach", matcher: Predicate::Builtin(Format::Mach), read_size: None },
            Format::Dex => Type { matcher_type: MatcherType::App, mime_type: "application/vnd.android.dex", extension: "dex", matcher: Predicate::Builtin(Format::Dex), read_size: None },
            Format::Dey => Type { matcher_type: MatcherType::App, mime_type: "application/vnd.android.dey", extension: "dey", matcher: Predicate::Builtin(Format::Dey), read_size: None },
            Format::Der => Type { matcher_type: MatcherType::App, mime_type: "application/x-x509-ca-cert", extension: "der", matcher: Predicate::Builtin(Format::Der), read_size: None },
            Format::Coff => Type { matcher_type: MatcherType::App, mime_type: "application/x-executable", extension: "obj", matcher: Predicate::Builtin(Format::Coff), read_size: None },
            Format::Pem => Type { matcher_type: MatcherType::App, mime_type: "application/x-x509-ca-cert", extension: "pem", matcher: Predicate::Builtin(Format::Pem), read_size: None },
            Format::Epub => Type { matcher_type: MatcherType::Book, mime_type: "application/epub+zip", extension: "epub", matcher: Predicate::Builtin(Format::Epub), read_size: None },
            Format::Mobi => Type { matcher_type: MatcherType::Book, mime_type: "application/x-mobipocket-ebook", extension: "mobi", matcher: Predicate::Builtin(Format::Mobi), read_size: None },
            Format::Jpeg => Type { matcher_type: MatcherType::Image, mime_type: "image/jpeg", extension: "jpg", matcher: Predicate::Builtin(Format::Jpeg), read_size: None },
            Format::Jpeg2000 => Type { matcher_type: MatcherType::Image, mime_type: "image/jp2", extension: "jp2", matcher: Predicate::Builtin(Format::Jpeg2000), read_size: None },
            Format::Png => Type { matcher_type: MatcherType::Image, mime_type: "image/png", extension: "png", matcher: Predicate::Builtin(Format::Png), read_size: None },
            Format::Gif => Type { matcher_type: MatcherType::Image, mime_type: "image/gif", extension: "gif", matcher: Predicate::Builtin(Format::Gif), read_size: None },
            Format::Webp => Type { matcher_type: MatcherType::Image, mime_type: "image/webp", extension: "webp", matcher: Predicate::Builtin(Format::Webp), read_size: None },
            Format::Cr2 => Type { matcher_type: MatcherType::Image, mime_type: "image/x-canon-cr2", extension: "cr2", matcher: Predicate::Builtin(Format::Cr2), read_size: None },
            Format::Tiff => Type { matcher_type: MatcherType::Image, mime_type: "image/tiff", extension: "tif", matcher: Predicate::Builtin(Format::Tiff), read_size: None },
            Format::Bmp => Type { matcher_type: MatcherType::Image, mime_type: "image/bmp", extension: "bmp", matcher: Predicate::Builtin(Format::Bmp), read_size: None },
            Format::Jxr => Type { matcher_type: MatcherType::Image, mime_type: "image/vnd.ms-photo", extension: "jxr", matcher: Predicate::Builtin(Format::Jxr), read_size: None },
            Format::Psd => Type { matcher_type: MatcherType::Image, mime_type: "image/vnd.adobe.photoshop", extension: "psd", matcher: Predicate::Builtin(Format::Psd), read_size: None },
            Format::Ico => Type { matcher_type: MatcherType::Image, mime_type: "image/vnd.microsoft.icon", extension: "ico", matcher: Predicate::Builtin(Format::Ico), read_size: None },
            Format::Heif => Type { matcher_type: MatcherType::Image, mime_type: "image/heif", extension: "heif", matcher: Predicate::Builtin(Format::Heif), read_size: None },
            Format::Avif => Type { matcher_type: MatcherType::Image, mime_type: "image/avif", extension: "avif", matcher: Predicate::Builtin(Format::Avif), read_size: None },
            Format::Jxl => Type { matcher_type: MatcherType::Image, mime_type: "image/jxl", extension: "jxl", matcher: Predicate::Builtin(Format::Jxl), read_size: None },
            Format::Ora => Type { matcher_type: MatcherType::Image, mime_type: "image/openraster", extension: "ora", matcher: Predicate::Builtin(Format::Ora), read_size: None },
            Format::Djvu => Type { matcher_type: MatcherType::Image, mime_type: "image/vnd.djvu", extension: "djvu", matcher: Predicate::Builtin(Format::Djvu), read_size: None },
            Format::Mp4 => Type { matcher_type: MatcherType::Video, mime_type: "video/mp4", extension: "mp4", matcher: Predicate::Builtin(Format::Mp4), read_size: None },
            Format::M4v => Type { matcher_type: MatcherType::Video, mime_type: "video/x-m4v", extension: "m4v", matcher: Predicate::Builtin(Format::M4v), read_size: None },
            Format::Mkv => Type { matcher_type: MatcherType::Video, mime_type: "video/x-matroska", extension: "mkv", matcher: Predicate::Builtin(Format::Mkv), read_size: None },
            Format::Webm => Type { matcher_type: MatcherType::Video, mime_type: "video/webm", extension: "webm", matcher: Predicate::Builtin(Format::Webm), read_size: None },
            Format::Mov => Type { matcher_type: MatcherType::Video, mime_type: "video/quicktime", extension: "mov", matcher: Predicate::Builtin(Format::Mov), read_size: None },
            Format::Avi => Type { matcher_type: MatcherType::Video, mime_type: "video/x-msvideo", extension: "avi", matcher: Predicate::Builtin(Format::Avi), read_size: None },
            Format::Wmv => Type { matcher_type: MatcherType::Video, mime_type: "video/x-ms-wmv", extension: "wmv", matcher: Predicate::Builtin(Format::Wmv), read_size: None },
            Format::Mpeg => Type { matcher_type: MatcherType::Video, mime_type: "video/mpeg", extension: "mpg", matcher: Predicate::Builtin(Format::Mpeg), read_size: None },
            Format::Flv => Type { matcher_type: MatcherType::Video, mime_type: "video/x-flv", extension: "flv", matcher: Predicate::Builtin(Format::Flv), read_size: None },
            Format::Midi => Type { matcher_type: MatcherType::Audio, mime_type: "audio/midi", extension: "midi", matcher: Predicate::Builtin(Format::Midi), read_size: None },
            Format::Mp3 => Type { matcher_type: MatcherType::Audio, mime_type: "audio/mpeg", extension: "mp3", matcher: Predicate::Builtin(Format::Mp3), read_size: None },
            Format::M4a => Type { matcher_type: MatcherType::Audio, mime_type: "audio/m4a", extension: "m4a", matcher: Predicate::Builtin(Format::M4a), read_size: None },
            Format::OggOpus => Type { matcher_type: MatcherType::Audio, mime_type: "audio/opus", extension: "opus", matcher: Predicate::Builtin(Format::OggOpus), read_size: None },
            Format::Ogg => Type { matcher_type: MatcherType::Audio, mime_type: "audio/ogg", extension: "ogg", matcher: Predicate::Builtin(Format::Ogg), read_size: None },
            Format::Flac => Type { matcher_type: MatcherType::Audio, mime_type: "audio/x-flac", extension: "flac", matcher: Predicate::Builtin(Format::Flac), read_size: None },
            Format::Wav => Type { matcher_type: MatcherType::Audio, mime_type: "audio/x-wav", extension: "wav", matcher: Predicate::Builtin(Format::Wav), read_size: None },
            Format::Amr => Type { matcher_type: MatcherType::Audio, mime_type: "audio/amr", extension: "amr", matcher: Predicate::Builtin(Format::Amr), read_size: None },
            Format::Aac => Type { matcher_type: MatcherType::Audio, mime_type: "audio/aac", extension: "aac", matcher: Predicate::Builtin(Format::Aac), read_size: None },
            Format::Aiff => Type { matcher_type: MatcherType::Audio, mime_type: "audio/x-aiff", extension: "aiff", matcher: Predicate::Builtin(Format::Aiff), read_size: None },
            Format::Dsf => Type { matcher_type: MatcherType::Audio, mime_type: "audio/x-dsf", extension: "dsf", matcher: Predicate::Builtin(Format::Dsf), read_size: None },
            Format::Ape => Type { matcher_type: MatcherType::Audio, mime_type: "audio/x-ape", extension: "ape", matcher: Predicate::Builtin(Format::Ape), read_size: None },
            Format::Woff => Type { matcher_type: MatcherType::Font, mime_type: "application/font-woff", extension: "woff", matcher: Predicate::Builtin(Format::Woff), read_size: Some(8) },
            Format::Woff2 => Type { matcher_type: MatcherType::Font, mime_type: "application/font-woff", extension: "woff2", matcher: Predicate::Builtin(Format::Woff2), read_size: Some(8) },
            Format::Ttf => Type { matcher_type: MatcherType::Font, mime_type: "application/font-sfnt", extension: "ttf", matcher: Predicate::Builtin(Format::Ttf), read_size: Some(5) },
            Format::Otf => Type { matcher_type: MatcherType::Font, mime_type: "application/font-sfnt", extension: "otf", matcher: Predicate::Builtin(Format::Otf), read_size: Some(5) },
            Format::Doc => Type { matcher_type: MatcherType::Doc, mime_type: "application/msword", extension: "doc", matcher: Predicate::Builtin(Format::Doc), read_size: None },
            Format::Docx => Type { matcher_type: MatcherType::Doc, mime_type: "application/vnd.openxmlformats-officedocument.wordprocessingml.document", extension: "docx", matcher: Predicate::Builtin(Format::Docx), read_size: None },
            Format::Xls => Type { matcher_type: MatcherType::Doc, mime_type: "application/vnd.ms-excel", extension: "xls", matcher: Predicate::Builtin(Format::Xls), read_size: None },
            Format::Xlsx => Type { matcher_type: MatcherType::Doc, mime_type: "application/vnd.openxmlformats-officedocument.spreadsheetml.sheet", extension: "xlsx", matcher: Predicate::Builtin(Format::Xlsx), read_size: None },
            Format::Ppt => Type { matcher_type: MatcherType::Doc, mime_type: "application/vnd.ms-powerpoint", extension: "ppt", matcher: Predicate::Builtin(Format::Ppt), read_size: None },
            Format::Pptx => Type { matcher_type: MatcherType::Doc, mime_type: "application/vnd.openxmlformats-officedocument.presentationml.presentation", extension: "pptx", matcher: Predicate::Builtin(Format::Pptx), read_size: None },
            Format::Odt => Type { matcher_type: MatcherType::Doc, mime_type: "application/vnd.oasis.opendocument.text", extension: "odt", matcher: Predicate::Builtin(Format::Odt), read_size: Some(104) },
            Format::Ods => Type { matcher_type: MatcherType::Doc, mime_type: "application/vnd.oasis.opendocument.spreadsheet", extension: "ods", matcher: Predicate::Builtin(Format::Ods), read_size: Some(104) },
            Format::Odp => Type { matcher_type: MatcherType::Doc, mime_type: "application/vnd.oasis.opendocument.presentation", extension: "odp", matcher: Predicate::Builtin(Format::Odp), read_size: Some(104) },
            Format::Zip => Type { matcher_type: MatcherType::Archive, mime_type: "application/zip", extension: "zip", matcher: Predicate::Builtin(Format::Zip), read_size: None },
            Format::Tar => Type { matcher_type: MatcherType::Archive, mime_type: "application/x-tar", extension: "tar", matcher: Predicate::Builtin(Format::Tar), read_size: None },
            Format::Rar => Type { matcher_type: MatcherType::Archive, mime_type: "application/vnd.rar", extension: "rar", matcher: Predicate::Builtin(Format::Rar), read_size: None },
            Format::Gz => Type { matcher_type: MatcherType::Archive, mime_type: "application/gzip", extension: "gz", matcher: Predicate::Builtin(Format::Gz), read_size: None },
            Format::Bz2 => Type { matcher_type: MatcherType::Archive, mime_type: "application/x-bzip2", extension: "bz2", matcher: Predicate::Builtin(Format::Bz2), read_size: None },
            Format::Bz3 => Type { matcher_type: MatcherType::Archive, mime_type: "application/vnd.bzip3", extension: "bz3", matcher: Predicate::Builtin(Format::Bz3), read_size: None },
            Format::SevenZ => Type { matcher_type: MatcherType::Archive, mime_type: "application/x-7z-compressed", extension: "7z", matcher: Predicate::Builtin(Format::SevenZ), read_size: None },
            Format::Xz => Type { matcher_type: MatcherType::Archive, mime_type: "application/x-xz", extension: "xz", matcher: Predicate::Builtin(Format::Xz), read_size: None },
            Format::Pdf => Type { matcher_type: MatcherType::Archive, mime_type: "application/pdf", extension: "pdf", matcher: Predicate::Builtin(Format::Pdf), read_size: None },
            Format::Swf => Type { matcher_type: MatcherType::Archive, mime_type: "application/x-shockwave-flash", extension: "swf", matcher: Predicate::Builtin(Format::Swf), read_size: None },
            Format::Rtf => Type { matcher_type: MatcherType::Archive, mime_type: "application/rtf", extension: "rtf", matcher: Predicate::Builtin(Format::Rtf), read_size: None },
            Format::Eot => Type { matcher_type: MatcherType::Archive, mime_type: "application/octet-stream", extension: "eot", matcher: Predicate::Builtin(Format::Eot), read_size: None },
            Format::Ps => Type { matcher_type: MatcherType::Archive, mime_type: "application/postscript", extension: "ps", matcher: Predicate::Builtin(Format::Ps), read_size: None },
            Format::Sqlite => Type { matcher_type: MatcherType::Archive, mime_type: "application/vnd.sqlite3", extension: "sqlite", matcher: Predicate::Builtin(Format::Sqlite), read_size: None },
            Format::Nes => Type { matcher_type: MatcherType::Archive, mime_type: "application/x-nintendo-nes-rom", extension: "nes", matcher: Predicate::Builtin(Format::Nes), read_size: None },
            Format::Crx => Type { matcher_type: MatcherType::Archive, mime_type: "application/x-google-chrome-extension", extension: "crx", matcher: Predicate::Builtin(Format::Crx), read_size: None },
            Format::Cab => Type { matcher_type: MatcherType::Archive, mime_type: "application/vnd.ms-cab-compressed", extension: "cab", matcher: Predicate::Builtin(Format::Cab), read_size: None },
            Format::Deb => Type { matcher_type: MatcherType::Archive, mime_type: "application/vnd.debian.binary-package", extension: "deb", matcher: Predicate::Builtin(Format::Deb), read_size: None },
            Format::Ar => Type { matcher_type: MatcherType::Archive, mime_type: "application/x-unix-archive", extension: "ar", matcher: Predicate::Builtin(Format::Ar), read_size: None },
            Format::Z => Type { matcher_type: MatcherType::Archive, mime_type: "application/x-compress", extension: "Z", matcher: Predicate::Builtin(Format::Z), read_size: None },
            Format::Lz => Type { matcher_type: MatcherType::Archive, mime_type: "application/x-lzip", extension: "lz", matcher: Predicate::Builtin(Format::Lz), read_size: None },
            Format::Rpm => Type { matcher_type: MatcherType::Archive, mime_type: "application/x-rpm", extension: "rpm", matcher: Predicate::Builtin(Format::Rpm), read_size: None },
            Format::Dcm => Type { matcher_type: MatcherType::Archive, mime_type: "application/dicom", extension: "dcm", matcher: Predicate::Builtin(Format::Dcm), read_size: None },
            Format::Zst => Type { matcher_type: MatcherType::Archive, mime_type: "application/zstd", extension: "zst", matcher: Predicate::Builtin(Format::Zst), read_size: None },
            Format::Lz4 => Type { matcher_type: MatcherType::Archive, mime_type: "application/x-lz4", extension: "lz4", matcher: Predicate::Builtin(Format::Lz4), read_size: None },
            Format::Msi => Type { matcher_type: MatcherType::Archive, mime_type: "application/x-ole-storage", extension: "msi", matcher: Predicate::Builtin(Format::Msi), read_size: None },
            Format::Cpio => Type { matcher_type: MatcherType::Archive, mime_type: "application/x-cpio", extension: "cpio", matcher: Predicate::Builtin(Format::Cpio), read_size: None },
            Format::Par2 => Type { matcher_type: MatcherType::Archive, mime_type: "application/x-par2", extension: "par2", matcher: Predicate::Builtin(Format::Par2), read_size: None },
            Format::Html => Type { matcher_type: MatcherType::Text, mime_type: "text/html", extension: "html", matcher: Predicate::Builtin(Format::Html), read_size: None },
            Format::Xml => Type { matcher_type: MatcherType::Text, mime_type: "text/xml", extension: "xml", matcher: Predicate::Builtin(Format::Xml), read_size: None },
            Format::Shellscript => Type { matcher_type: MatcherType::Text, mime_type: "text/x-shellscript", extension: "sh", matcher: Predicate::Builtin(Format::Shellscript), read_size: None },
        }
    }
}

} // verus!
