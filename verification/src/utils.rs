//! Path-name helpers and content-based format sniffing.
//!
//! Paths are handled as plain strings: the final component of a path is the
//! part after the last `/`, and its extension is the part after the last `.`
//! of that component, provided the dot is not the component's first character.
//! Case-insensitive comparisons fold the ASCII letters `A`..`Z`.

use vstd::prelude::*;

verus! {

// ---------------------------------------------------------------------------
// ASCII case folding
// ---------------------------------------------------------------------------
/// ASCII lowercase of one character: `A`..`Z` map to `a`..`z`, all else is kept.
pub open spec fn lower_char(c: char) -> char {
    if 'A' <= c && c <= 'Z' {
        ((c as u32) + 32) as char
    } else {
        c
    }
}

/// ASCII lowercase of a character sequence.
pub open spec fn lower(s: Seq<char>) -> Seq<char> {
    s.map_values(|c: char| lower_char(c))
}

/// ASCII-lowercase one character.
pub fn lower_char_exec(c: char) -> (r: char)
    ensures
        r == lower_char(c),
{
    if 'A' <= c && c <= 'Z' {
        (((c as u32) + 32) as u8) as char
    } else {
        c
    }
}

/// `String::push` appends one character; the standard library documents no
/// other effect on the contents.
pub assume_specification[ String::push ](s: &mut String, c: char)
    ensures
        final(s)@ == old(s)@.push(c),
;

/// ASCII-lowercase a whole string.
pub fn to_lower(s: &str) -> (r: String)
    ensures
        r@ == lower(s@),
{
    let n = s.unicode_len();
    let mut out = String::new();
    let mut i: usize = 0;
    while i < n
        invariant
            n == s@.len(),
            i <= n,
            out@ == lower(s@).take(i as int),
        decreases n - i,
    {
        let c = s.get_char(i);
        out.push(lower_char_exec(c));
        proof {
            assert(out@ =~= lower(s@).take(i + 1));
        }
        i += 1;
    }
    proof {
        assert(lower(s@).take(n as int) =~= lower(s@));
    }
    out
}

/// True when `s`, ASCII-lowercased, equals `t` exactly.
pub fn eq_fold(s: &str, t: &str) -> (r: bool)
    ensures
        r == (lower(s@) == t@),
{
    let n = s.unicode_len();
    if n != t.unicode_len() {
        proof {
            assert(lower(s@).len() == s@.len());
        }
        return false;
    }
    let mut i: usize = 0;
    while i < n
        invariant
            n == s@.len() == t@.len(),
            i <= n,
            forall|j: int| 0 <= j < i ==> lower(s@)[j] == t@[j],
        decreases n - i,
    {
        if lower_char_exec(s.get_char(i)) != t.get_char(i) {
            proof {
                assert(lower(s@)[i as int] != t@[i as int]);
            }
            return false;
        }
        i += 1;
    }
    proof {
        assert(lower(s@) =~= t@);
    }
    true
}

/// ASCII lowercasing is idempotent.
pub proof fn lemma_lower_idempotent(s: Seq<char>)
    ensures
        lower(lower(s)) == lower(s),
{
    assert(lower(lower(s)) =~= lower(s));
}

// ---------------------------------------------------------------------------
// Final path component and its extension
// ---------------------------------------------------------------------------
/// Index of the last occurrence of `c` in `s`, or `-1` when absent.
pub open spec fn last_index(s: Seq<char>, c: char) -> int
    decreases s.len(),
{
    if s.len() == 0 {
        -1
    } else if s[s.len() - 1] == c {
        s.len() - 1
    } else {
        last_index(s.drop_last(), c)
    }
}

pub proof fn lemma_last_index_bounds(s: Seq<char>, c: char)
    ensures
        -1 <= last_index(s, c) < s.len(),
        last_index(s, c) >= 0 ==> s[last_index(s, c)] == c,
        forall|j: int| last_index(s, c) < j < s.len() ==> s[j] != c,
    decreases s.len(),
{
    if s.len() > 0 && s[s.len() - 1] != c {
        lemma_last_index_bounds(s.drop_last(), c);
        assert(forall|j: int| 0 <= j < s.len() - 1 ==> s[j] == s.drop_last()[j]);
    }
}

/// Find the last occurrence of `c` in `s`.
pub fn find_last(s: &str, c: char) -> (r: Option<usize>)
    ensures
        match r {
            Some(i) => i == last_index(s@, c),
            None => last_index(s@, c) == -1,
        },
{
    let n = s.unicode_len();
    proof {
        assert(s@.take(n as int) =~= s@);
    }
    let mut i: usize = n;
    while i > 0
        invariant
            n == s@.len(),
            i <= n,
            last_index(s@, c) == last_index(s@.take(i as int), c),
        decreases i,
    {
        let ch = s.get_char(i - 1);
        proof {
            assert(s@.take(i as int)[i - 1] == s@[i - 1]);
        }
        if ch == c {
            proof {
                assert(last_index(s@.take(i as int), c) == i - 1);
            }
            return Some(i - 1);
        }
        proof {
            assert(s@.take(i as int).drop_last() =~= s@.take(i - 1));
        }
        i -= 1;
    }
    proof {
        assert(s@.take(0) =~= Seq::<char>::empty());
    }
    None
}

/// The final component of a path: everything after the last `/`.
pub open spec fn file_name_spec(p: Seq<char>) -> Seq<char> {
    p.subrange(last_index(p, '/') + 1, p.len() as int)
}

/// Position of the extension dot inside a component, or `-1` when the
/// component has no extension. A dot at position 0 names a hidden file,
/// not an extension.
pub open spec fn ext_dot(name: Seq<char>) -> int {
    if last_index(name, '.') >= 1 {
        last_index(name, '.')
    } else {
        -1
    }
}

/// Lowercased extension of the final path component, empty when there is none.
pub open spec fn get_extension_spec(p: Seq<char>) -> Seq<char> {
    let name = file_name_spec(p);
    if ext_dot(name) >= 0 {
        lower(name.subrange(ext_dot(name) + 1, name.len() as int))
    } else {
        Seq::<char>::empty()
    }
}

/// The lowercased extension of a path is already lowercase.
pub proof fn lemma_get_extension_lowered(p: Seq<char>)
    ensures
        lower(get_extension_spec(p)) == get_extension_spec(p),
{
    let name = file_name_spec(p);
    if ext_dot(name) >= 0 {
        lemma_lower_idempotent(name.subrange(ext_dot(name) + 1, name.len() as int));
    } else {
        assert(lower(Seq::<char>::empty()) =~= Seq::<char>::empty());
    }
}

/// The final path component of `path`.
pub fn file_name_of(path: &str) -> (r: &str)
    ensures
        r@ == file_name_spec(path@),
{
    let n = path.unicode_len();
    proof {
        lemma_last_index_bounds(path@, '/');
    }
    let start = match find_last(path, '/') {
        Some(i) => i + 1,
        None => 0,
    };
    path.substring_char(start, n)
}

/// Lowercased extension of the file named by `path`; the empty string when
/// the name has no extension.
pub fn get_extension(path: &str) -> (r: String)
    ensures
        r@ == get_extension_spec(path@),
{
    let name = file_name_of(path);
    let n = name.unicode_len();
    match find_last(name, '.') {
        Some(d) if d >= 1 => {
            proof {
                lemma_last_index_bounds(name@, '.');
            }
            to_lower(name.substring_char(d + 1, n))
        },
        _ => String::new(),
    }
}

/// Replace the extension of the file named by `path` with `new_extension`,
/// dropping any directory part; an empty final component yields the stem
/// `output`.
pub open spec fn change_extension_spec(p: Seq<char>, new_extension: Seq<char>) -> Seq<char> {
    let name = file_name_spec(p);
    let stem = if name.len() == 0 {
        "output"@
    } else if ext_dot(name) >= 0 {
        name.subrange(0, ext_dot(name))
    } else {
        name
    };
    stem + "."@ + new_extension
}

/// File name for converted output: the stem of `path`'s final component with
/// `new_extension` appended.
pub fn change_extension(path: &str, new_extension: &str) -> (r: String)
    ensures
        r@ == change_extension_spec(path@, new_extension@),
{
    let name = file_name_of(path);
    let n = name.unicode_len();
    let stem: &str = if n == 0 {
        "output"
    } else {
        match find_last(name, '.') {
            Some(d) if d >= 1 => {
                proof {
                    lemma_last_index_bounds(name@, '.');
                }
                name.substring_char(0, d)
            },
            _ => name,
        }
    };
    let mut out = String::from_str(stem);
    out.append(".");
    out.append(new_extension);
    out
}

// ---------------------------------------------------------------------------
// Content-based format sniffing
// ---------------------------------------------------------------------------
/// A format recognised by the byte-signature table, or `svg` for text that
/// opens like an SVG document.
#[derive(Clone, Copy, Debug, PartialEq, Eq, Structural)]
pub enum FormatLabel {
    Png,
    Jpeg,
    Gif,
    Webp,
    Ico,
    Bmp,
    Tiff,
    Svg,
}

/// The first 16 bytes of a header, zero-padded when fewer were read.
pub open spec fn padded(h: Seq<u8>) -> Seq<u8> {
    Seq::new(16, |i: int| if i < h.len() { h[i] } else { 0u8 })
}

/// ASCII lowercase of one byte.
pub open spec fn lower_byte(x: u8) -> u8 {
    if 0x41 <= x && x <= 0x5a {
        (x + 0x20) as u8
    } else {
        x
    }
}

/// ASCII-lowercase one byte.
pub fn lower_byte_exec(x: u8) -> (r: u8)
    ensures
        r == lower_byte(x),
{
    if 0x41 <= x && x <= 0x5a {
        x + 0x20
    } else {
        x
    }
}

/// The WebP container check: a RIFF header whose bytes 8..12 read `WEBP`.
pub open spec fn webp_check_spec(b: Seq<u8>) -> Option<FormatLabel> {
    if b.len() >= 12 && b[8] == 0x57 && b[9] == 0x45 && b[10] == 0x42 && b[11] == 0x50 {
        Some(FormatLabel::Webp)
    } else {
        None
    }
}

/// Confirm that a RIFF-signed buffer really holds a WebP image.
pub fn validate_webp_signature(buffer: &Vec<u8>) -> (r: Option<FormatLabel>)
    ensures
        r == webp_check_spec(buffer@),
{
    if buffer.len() >= 12 && buffer[8] == 0x57 && buffer[9] == 0x45 && buffer[10] == 0x42
        && buffer[11] == 0x50 {
        Some(FormatLabel::Webp)
    } else {
        None
    }
}

/// The GIF check: `GIF8`, a version byte of `7` or `9`, then `a`.
pub open spec fn gif_check_spec(b: Seq<u8>) -> Option<FormatLabel> {
    if b.len() >= 6 && b[0] == 0x47 && b[1] == 0x49 && b[2] == 0x46 && b[3] == 0x38 && (b[4]
        == 0x37 || b[4] == 0x39) && b[5] == 0x61 {
        Some(FormatLabel::Gif)
    } else {
        None
    }
}

/// Confirm that a GIF-signed buffer names a known GIF version.
pub fn validate_gif_signature(buffer: &Vec<u8>) -> (r: Option<FormatLabel>)
    ensures
        r == gif_check_spec(buffer@),
{
    if buffer.len() >= 6 && buffer[0] == 0x47 && buffer[1] == 0x49 && buffer[2] == 0x46
        && buffer[3] == 0x38 && (buffer[4] == 0x37 || buffer[4] == 0x39) && buffer[5] == 0x61 {
        Some(FormatLabel::Gif)
    } else {
        None
    }
}

/// Bytes that open like an SVG document: valid UTF-8 whose text starts,
/// case-insensitively, with `<?xml` or `<svg`.
pub open spec fn svg_bytes_spec(b: Seq<u8>) -> bool {
    vstd::utf8::valid_utf8(b) && ((b.len() >= 5 && lower_byte(b[0]) == 0x3c && lower_byte(b[1])
        == 0x3f && lower_byte(b[2]) == 0x78 && lower_byte(b[3]) == 0x6d && lower_byte(b[4])
        == 0x6c) || (b.len() >= 4 && lower_byte(b[0]) == 0x3c && lower_byte(b[1]) == 0x73
        && lower_byte(b[2]) == 0x76 && lower_byte(b[3]) == 0x67))
}

/// Relies on `core::str::from_utf8`: it returns `Ok` exactly when the input
/// is valid UTF-8, the property `vstd::utf8::valid_utf8` models.
#[verifier::external_body]
fn utf8_valid(b: &Vec<u8>) -> (r: bool)
    ensures
        r == vstd::utf8::valid_utf8(b@),
{
    core::str::from_utf8(b.as_slice()).is_ok()
}

/// Whether the padded header bytes open like an SVG document.
fn svg_bytes_check(b: &Vec<u8>) -> (r: bool)
    ensures
        r == svg_bytes_spec(b@),
{
    if !utf8_valid(b) {
        return false;
    }
    let n = b.len();
    (n >= 5 && lower_byte_exec(b[0]) == 0x3c && lower_byte_exec(b[1]) == 0x3f && lower_byte_exec(
        b[2],
    ) == 0x78 && lower_byte_exec(b[3]) == 0x6d && lower_byte_exec(b[4]) == 0x6c) || (n >= 4
        && lower_byte_exec(b[0]) == 0x3c && lower_byte_exec(b[1]) == 0x73 && lower_byte_exec(b[2])
        == 0x76 && lower_byte_exec(b[3]) == 0x67)
}

/// The format whose signature the header matches, checked against the fixed
/// ordered table; `None` when nothing matches. A header shorter than four
/// bytes never matches. Matching reads the first 16 bytes, zero-padded when
/// the header is shorter.
pub open spec fn detect_spec(h: Seq<u8>) -> Option<FormatLabel> {
    if h.len() < 4 {
        None
    } else {
        let b = padded(h);
        if b[0] == 0x89 && b[1] == 0x50 && b[2] == 0x4e && b[3] == 0x47 && b[4] == 0x0d && b[5]
            == 0x0a && b[6] == 0x1a && b[7] == 0x0a {
            Some(FormatLabel::Png)
        } else if b[0] == 0xff && b[1] == 0xd8 && b[2] == 0xff {
            Some(FormatLabel::Jpeg)
        } else if b[0] == 0x47 && b[1] == 0x49 && b[2] == 0x46 && b[3] == 0x38 {
            gif_check_spec(b)
        } else if b[0] == 0x52 && b[1] == 0x49 && b[2] == 0x46 && b[3] == 0x46 {
            webp_check_spec(b)
        } else if b[0] == 0x00 && b[1] == 0x00 && b[2] == 0x01 && b[3] == 0x00 {
            Some(FormatLabel::Ico)
        } else if b[0] == 0x42 && b[1] == 0x4d {
            Some(FormatLabel::Bmp)
        } else if b[0] == 0x49 && b[1] == 0x49 && b[2] == 0x2a && b[3] == 0x00 {
            Some(FormatLabel::Tiff)
        } else if b[0] == 0x4d && b[1] == 0x4d && b[2] == 0x00 && b[3] == 0x2a {
            Some(FormatLabel::Tiff)
        } else if svg_bytes_spec(b) {
            Some(FormatLabel::Svg)
        } else {
            None
        }
    }
}

/// Zero-pad a header to exactly 16 bytes.
fn pad_header(h: &Vec<u8>) -> (r: Vec<u8>)
    ensures
        r@ == padded(h@),
{
    let mut out: Vec<u8> = Vec::new();
    let mut i: usize = 0;
    while i < 16
        invariant
            i <= 16,
            out@ == padded(h@).take(i as int),
        decreases 16 - i,
    {
        if i < h.len() {
            out.push(h[i]);
        } else {
            out.push(0);
        }
        proof {
            assert(out@ =~= padded(h@).take(i + 1));
        }
        i += 1;
    }
    proof {
        assert(padded(h@).take(16) =~= padded(h@));
    }
    out
}

/// Detect the image format of a file from its leading bytes, independent of
/// the file's name. `header` holds the bytes actually read, up to 16.
pub fn detect_image_format_by_content(header: &Vec<u8>) -> (r: Option<FormatLabel>)
    ensures
        r == detect_spec(header@),
{
    if header.len() < 4 {
        return None;
    }
    let b = pad_header(header);
    if b[0] == 0x89 && b[1] == 0x50 && b[2] == 0x4e && b[3] == 0x47 && b[4] == 0x0d && b[5] == 0x0a
        && b[6] == 0x1a && b[7] == 0x0a {
        Some(FormatLabel::Png)
    } else if b[0] == 0xff && b[1] == 0xd8 && b[2] == 0xff {
        Some(FormatLabel::Jpeg)
    } else if b[0] == 0x47 && b[1] == 0x49 && b[2] == 0x46 && b[3] == 0x38 {
        validate_gif_signature(&b)
    } else if b[0] == 0x52 && b[1] == 0x49 && b[2] == 0x46 && b[3] == 0x46 {
        validate_webp_signature(&b)
    } else if b[0] == 0x00 && b[1] == 0x00 && b[2] == 0x01 && b[3] == 0x00 {
        Some(FormatLabel::Ico)
    } else if b[0] == 0x42 && b[1] == 0x4d {
        Some(FormatLabel::Bmp)
    } else if b[0] == 0x49 && b[1] == 0x49 && b[2] == 0x2a && b[3] == 0x00 {
        Some(FormatLabel::Tiff)
    } else if b[0] == 0x4d && b[1] == 0x4d && b[2] == 0x00 && b[3] == 0x2a {
        Some(FormatLabel::Tiff)
    } else if svg_bytes_check(&b) {
        Some(FormatLabel::Svg)
    } else {
        None
    }
}

/// A header shorter than four bytes never matches any format, whatever it
/// holds.
pub proof fn lemma_detect_short_buffer(h: Seq<u8>)
    requires
        h.len() < 4,
    ensures
        detect_spec(h) is None,
{
}

/// A buffer that opens with the RIFF signature but whose bytes 8..12 do not
/// read `WEBP` matches no format at all.
pub proof fn lemma_riff_without_webp(h: Seq<u8>)
    requires
        h.len() >= 4,
        h[0] == 0x52 && h[1] == 0x49 && h[2] == 0x46 && h[3] == 0x46,
        !(h.len() >= 12 && h[8] == 0x57 && h[9] == 0x45 && h[10] == 0x42 && h[11] == 0x50),
    ensures
        detect_spec(h) is None,
{
    let b = padded(h);
    if h.len() >= 12 {
        assert(detect_spec(h) is None);
    } else {
        assert(b[11] == 0);
        assert(detect_spec(h) is None);
    }
}

// ---------------------------------------------------------------------------
// Eligibility gate
// ---------------------------------------------------------------------------
/// Extensions that may name an image file.
pub open spec fn is_supported_extension(e: Seq<char>) -> bool {
    ||| e == "png"@
    ||| e == "jpeg"@
    ||| e == "jpg"@
    ||| e == "gif"@
    ||| e == "webp"@
    ||| e == "svg"@
    ||| e == "ico"@
    ||| e == "bmp"@
    ||| e == "tiff"@
    ||| e == "tif"@
    ||| e == "avif"@
    ||| e == "heic"@
    ||| e == "heif"@
}

/// A path may name an image when its extension, folded to lowercase, is in
/// the supported set — or when it has no extension at all.
pub open spec fn has_potential_image_extension_spec(p: Seq<char>) -> bool {
    let name = file_name_spec(p);
    if ext_dot(name) >= 0 {
        is_supported_extension(lower(name.subrange(ext_dot(name) + 1, name.len() as int)))
    } else {
        true
    }
}

/// Quick extension screen: accept supported image extensions and files
/// without any extension.
pub fn has_potential_image_extension(path: &str) -> (r: bool)
    ensures
        r == has_potential_image_extension_spec(path@),
{
    let name = file_name_of(path);
    let n = name.unicode_len();
    match find_last(name, '.') {
        Some(d) if d >= 1 => {
            proof {
                lemma_last_index_bounds(name@, '.');
            }
            let ext = name.substring_char(d + 1, n);
            eq_fold(ext, "png") || eq_fold(ext, "jpeg") || eq_fold(ext, "jpg") || eq_fold(
                ext,
                "gif",
            ) || eq_fold(ext, "webp") || eq_fold(ext, "svg") || eq_fold(ext, "ico") || eq_fold(
                ext,
                "bmp",
            ) || eq_fold(ext, "tiff") || eq_fold(ext, "tif") || eq_fold(ext, "avif") || eq_fold(
                ext,
                "heic",
            ) || eq_fold(ext, "heif")
        },
        _ => true,
    }
}

/// The eligibility gate: a file is treated as a convertible image when its
/// name passes the extension screen and its content matches some format
/// signature.
pub open spec fn is_image_file_spec(p: Seq<char>, h: Seq<u8>) -> bool {
    has_potential_image_extension_spec(p) && detect_spec(h) is Some
}

/// Decide whether the file named `path`, whose leading bytes are `header`,
/// is treated as an image. The caller must have checked that the path names
/// a regular file and read up to 16 leading bytes from it.
pub fn is_image_file(path: &str, header: &Vec<u8>) -> (r: bool)
    ensures
        r == is_image_file_spec(path@, header@),
{
    has_potential_image_extension(path) && detect_image_format_by_content(header).is_some()
}

/// Text that opens an SVG document: starting, case-insensitively, with
/// `<?xml` or `<svg`.
pub open spec fn svg_text_spec(s: Seq<char>) -> bool {
    ||| (s.len() >= 5 && lower(s.take(5)) == "<?xml"@)
    ||| (s.len() >= 4 && lower(s.take(4)) == "<svg"@)
}

/// Whether `s`, ASCII-lowercased, starts with `t`.
fn starts_fold(s: &str, t: &str) -> (r: bool)
    ensures
        r == (s@.len() >= t@.len() && lower(s@.take(t@.len() as int)) == t@),
{
    let m = t.unicode_len();
    let n = s.unicode_len();
    if n < m {
        return false;
    }
    let mut i: usize = 0;
    while i < m
        invariant
            m == t@.len(),
            n == s@.len(),
            m <= n,
            i <= m,
            forall|j: int| 0 <= j < i ==> lower_char(s@[j]) == t@[j],
        decreases m - i,
    {
        if lower_char_exec(s.get_char(i)) != t.get_char(i) {
            proof {
                assert(lower(s@.take(m as int))[i as int] != t@[i as int]);
            }
            return false;
        }
        i += 1;
    }
    proof {
        assert(lower(s@.take(m as int)) =~= t@);
    }
    true
}

/// Whether `text` opens an SVG document.
pub fn is_svg_content(text: &str) -> (r: bool)
    ensures
        r == svg_text_spec(text@),
{
    proof {
        reveal_strlit("<?xml");
        reveal_strlit("<svg");
    }
    starts_fold(text, "<?xml") || starts_fold(text, "<svg")
}

} // verus!

