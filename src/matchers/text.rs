//! Text formats, sniffed as the WHATWG MIME Sniffing Standard describes.
use vstd::prelude::*;

verus! {

/// Whitespace bytes as the MIME Sniffing Standard defines them.
pub open spec fn is_sniff_whitespace(c: u8) -> bool {
    c == 0x09 || c == 0x0A || c == 0x0C || c == 0x0D || c == 0x20
}

/// `b` without its leading whitespace.
pub open spec fn spec_trim_start_whitespaces(b: Seq<u8>) -> Seq<u8>
    decreases b.len(),
{
    if b.len() > 0 && is_sniff_whitespace(b[0]) {
        spec_trim_start_whitespaces(b.drop_first())
    } else {
        b
    }
}

/// `b` without its leading byte order marks (UTF-8, UTF-16 BE, UTF-16 LE), looked for only
/// while at least three bytes are left.
pub open spec fn spec_trim_start_byte_order_marks(b: Seq<u8>) -> Seq<u8>
    decreases b.len(),
{
    if b.len() >= 3 && b[0] == 0xEF && b[1] == 0xBB && b[2] == 0xBF {
        spec_trim_start_byte_order_marks(b.subrange(3, b.len() as int))
    } else if b.len() >= 3 && ((b[0] == 0xFE && b[1] == 0xFF) || (b[0] == 0xFF && b[1] == 0xFE)) {
        spec_trim_start_byte_order_marks(b.subrange(2, b.len() as int))
    } else {
        b
    }
}

pub open spec fn ascii_lower(c: u8) -> u8 {
    if 0x41 <= c <= 0x5A {
        (c + 0x20) as u8
    } else {
        c
    }
}

/// `b` starts with `needle`, ASCII letters compared without regard to case.
pub open spec fn spec_starts_with_ignore_ascii_case(b: Seq<u8>, needle: Seq<u8>) -> bool {
    b.len() >= needle.len() && forall|i: int|
        0 <= i < needle.len() ==> #[trigger] ascii_lower(b[i]) == ascii_lower(needle[i])
}

/// `t` starts with `tag` (in any case) followed by a space or `>`.
pub open spec fn opens_tag(t: Seq<u8>, tag: Seq<u8>) -> bool {
    spec_starts_with_ignore_ascii_case(t, tag) && t.len() > tag.len() && (t[tag.len() as int]
        == 0x20 || t[tag.len() as int] == 0x3E)
}

/// After leading whitespace, one of the HTML tags the MIME Sniffing Standard lists, ended by a
/// space or `>`.
pub open spec fn spec_is_html(b: Seq<u8>) -> bool {
    let t = spec_trim_start_whitespaces(b);
    ||| opens_tag(t, seq![0x3Cu8, 0x21, 0x44, 0x4F, 0x43, 0x54, 0x59, 0x50, 0x45, 0x20, 0x48, 0x54, 0x4D, 0x4C])  // <!DOCTYPE HTML
    ||| opens_tag(t, seq![0x3Cu8, 0x48, 0x54, 0x4D, 0x4C])  // <HTML
    ||| opens_tag(t, seq![0x3Cu8, 0x48, 0x45, 0x41, 0x44])  // <HEAD
    ||| opens_tag(t, seq![0x3Cu8, 0x53, 0x43, 0x52, 0x49, 0x50, 0x54])  // <SCRIPT
    ||| opens_tag(t, seq![0x3Cu8, 0x49, 0x46, 0x52, 0x41, 0x4D, 0x45])  // <IFRAME
    ||| opens_tag(t, seq![0x3Cu8, 0x48, 0x31])  // <H1
    ||| opens_tag(t, seq![0x3Cu8, 0x44, 0x49, 0x56])  // <DIV
    ||| opens_tag(t, seq![0x3Cu8, 0x46, 0x4F, 0x4E, 0x54])  // <FONT
    ||| opens_tag(t, seq![0x3Cu8, 0x54, 0x41, 0x42, 0x4C, 0x45])  // <TABLE
    ||| opens_tag(t, seq![0x3Cu8, 0x41])  // <A
    ||| opens_tag(t, seq![0x3Cu8, 0x53, 0x54, 0x59, 0x4C, 0x45])  // <STYLE
    ||| opens_tag(t, seq![0x3Cu8, 0x54, 0x49, 0x54, 0x4C, 0x45])  // <TITLE
    ||| opens_tag(t, seq![0x3Cu8, 0x42])  // <B
    ||| opens_tag(t, seq![0x3Cu8, 0x42, 0x4F, 0x44, 0x59])  // <BODY
    ||| opens_tag(t, seq![0x3Cu8, 0x42, 0x52])  // <BR
    ||| opens_tag(t, seq![0x3Cu8, 0x50])  // <P
    ||| opens_tag(t, seq![0x3Cu8, 0x21, 0x2D, 0x2D])  // <!--
}

/// `<?xml` (in any case) after leading whitespace and byte order marks.
pub open spec fn spec_is_xml(b: Seq<u8>) -> bool {
    spec_starts_with_ignore_ascii_case(
        spec_trim_start_byte_order_marks(spec_trim_start_whitespaces(b)),
        seq![0x3Cu8, 0x3F, 0x78, 0x6D, 0x6C],
    )
}

/// `#!` followed by at least one more byte.
pub open spec fn spec_is_shellscript(b: Seq<u8>) -> bool {
    b.len() > 2 && b[0] == 0x23 && b[1] == 0x21
}

/// Strip whitespaces at the beginning of the buffer.
///
/// Follows the https://mimesniff.spec.whatwg.org definition of whitespace.
pub fn trim_start_whitespaces(buf: &[u8]) -> (r: &[u8])
    ensures
        r@ == spec_trim_start_whitespaces(buf@),
{
    let mut i: usize = 0;
    assert(buf@.subrange(0, buf@.len() as int) =~= buf@);
    while i < buf.len() && (buf[i] == 0x09 || buf[i] == 0x0A || buf[i] == 0x0C || buf[i] == 0x0D
        || buf[i] == 0x20)
        invariant
            0 <= i <= buf@.len(),
            spec_trim_start_whitespaces(buf@) == spec_trim_start_whitespaces(
                buf@.subrange(i as int, buf@.len() as int),
            ),
        decreases buf@.len() - i,
    {
        assert(buf@.subrange(i as int, buf@.len() as int).drop_first() =~= buf@.subrange(
            i + 1,
            buf@.len() as int,
        ));
        i += 1;
    }
    &buf[i..buf.len()]
}

/// Strip byte order marks at the beginning of the buffer.
pub fn trim_start_byte_order_marks(buf: &[u8]) -> (r: &[u8])
    ensures
        r@ == spec_trim_start_byte_order_marks(buf@),
{
    let mut i: usize = 0;
    assert(buf@.subrange(0, buf@.len() as int) =~= buf@);
    while buf.len() - i >= 3
        invariant
            0 <= i <= buf@.len(),
            spec_trim_start_byte_order_marks(buf@) == spec_trim_start_byte_order_marks(
                buf@.subrange(i as int, buf@.len() as int),
            ),
        ensures
            spec_trim_start_byte_order_marks(buf@) == buf@.subrange(i as int, buf@.len() as int),
        decreases buf@.len() - i,
    {
        let ghost rest = buf@.subrange(i as int, buf@.len() as int);
        if buf[i] == 0xEF && buf[i + 1] == 0xBB && buf[i + 2] == 0xBF {
            assert(rest.subrange(3, rest.len() as int) =~= buf@.subrange(
                i + 3,
                buf@.len() as int,
            ));
            i += 3;
        } else if (buf[i] == 0xFE && buf[i + 1] == 0xFF) || (buf[i] == 0xFF && buf[i + 1] == 0xFE) {
            assert(rest.subrange(2, rest.len() as int) =~= buf@.subrange(
                i + 2,
                buf@.len() as int,
            ));
            i += 2;
        } else {
            break;
        }
    }
    &buf[i..buf.len()]
}

fn to_ascii_lower(c: u8) -> (r: u8)
    ensures
        r == ascii_lower(c),
{
    if c >= 0x41 && c <= 0x5A {
        c + 0x20
    } else {
        c
    }
}

/// Whether `buf` starts with `needle`, ASCII letters compared without regard to case.
pub fn starts_with_ignore_ascii_case(buf: &[u8], needle: &[u8]) -> (r: bool)
    ensures
        r == spec_starts_with_ignore_ascii_case(buf@, needle@),
{
    if buf.len() < needle.len() {
        return false;
    }
    let mut i: usize = 0;
    while i < needle.len()
        invariant
            buf@.len() >= needle@.len(),
            0 <= i <= needle@.len(),
            forall|j: int| 0 <= j < i ==> #[trigger] ascii_lower(buf@[j]) == ascii_lower(needle@[j]),
        decreases needle@.len() - i,
    {
        if to_ascii_lower(buf[i]) != to_ascii_lower(needle[i]) {
            return false;
        }
        i += 1;
    }
    true
}

fn opens_html_tag(t: &[u8], tag: &[u8]) -> (r: bool)
    ensures
        r == opens_tag(t@, tag@),
{
    starts_with_ignore_ascii_case(t, tag) && t.len() > tag.len() && (t[tag.len()] == 0x20
        || t[tag.len()] == 0x3E)
}

/// Returns whether a buffer is html data.
///
/// Follows the [WHATWG MIME Sniffing Standard](https://mimesniff.spec.whatwg.org/).
pub fn is_html(buf: &[u8]) -> (r: bool)
    ensures
        r == spec_is_html(buf@),
{
    let t = trim_start_whitespaces(buf);
    opens_html_tag(t, &[0x3C, 0x21, 0x44, 0x4F, 0x43, 0x54, 0x59, 0x50, 0x45, 0x20, 0x48, 0x54, 0x4D, 0x4C])
        || opens_html_tag(t, &[0x3C, 0x48, 0x54, 0x4D, 0x4C])
        || opens_html_tag(t, &[0x3C, 0x48, 0x45, 0x41, 0x44])
        || opens_html_tag(t, &[0x3C, 0x53, 0x43, 0x52, 0x49, 0x50, 0x54])
        || opens_html_tag(t, &[0x3C, 0x49, 0x46, 0x52, 0x41, 0x4D, 0x45])
        || opens_html_tag(t, &[0x3C, 0x48, 0x31])
        || opens_html_tag(t, &[0x3C, 0x44, 0x49, 0x56])
        || opens_html_tag(t, &[0x3C, 0x46, 0x4F, 0x4E, 0x54])
        || opens_html_tag(t, &[0x3C, 0x54, 0x41, 0x42, 0x4C, 0x45])
        || opens_html_tag(t, &[0x3C, 0x41])
        || opens_html_tag(t, &[0x3C, 0x53, 0x54, 0x59, 0x4C, 0x45])
        || opens_html_tag(t, &[0x3C, 0x54, 0x49, 0x54, 0x4C, 0x45])
        || opens_html_tag(t, &[0x3C, 0x42])
        || opens_html_tag(t, &[0x3C, 0x42, 0x4F, 0x44, 0x59])
        || opens_html_tag(t, &[0x3C, 0x42, 0x52])
        || opens_html_tag(t, &[0x3C, 0x50])
        || opens_html_tag(t, &[0x3C, 0x21, 0x2D, 0x2D])
}

/// Returns whether a buffer is xml data.
///
/// Follows the [WHATWG MIME Sniffing Standard](https://mimesniff.spec.whatwg.org/).
pub fn is_xml(buf: &[u8]) -> (r: bool)
    ensures
        r == spec_is_xml(buf@),
{
    let t = trim_start_whitespaces(buf);
    let t = trim_start_byte_order_marks(t);
    starts_with_ignore_ascii_case(t, &[0x3C, 0x3F, 0x78, 0x6D, 0x6C])
}

/// Returns whether a buffer is a shell script.
pub fn is_shellscript(buf: &[u8]) -> (r: bool)
    ensures
        r == spec_is_shellscript(buf@),
{
    buf.len() > 2 && buf[0] == 0x23 && buf[1] == 0x21
}

} // verus!
