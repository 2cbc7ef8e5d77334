//! The conversion pipeline and the batch accounting.
//!
//! `convert_image` takes a file's name and content and produces the encoded
//! output bytes for one target format; its whole behaviour is pinned by
//! `convert_image_spec`, stated over the named codec results of the trusted
//! boundary. `convert_entries` applies it across a batch, counting every
//! success and every failure without ever aborting the run. All file reading
//! and writing stays with the caller.

use vstd::prelude::*;
use crate::classify::{classify, classify_spec};
use crate::codec;
use crate::error::ConversionError;
use crate::pixel::{PixelBuffer, channels, rgb_of, rgba_of};
use crate::policy::{
    TargetFormat, decide, decide_spec, parse_target_format, parse_target_format_spec,
};
use crate::utils::{
    FormatLabel, change_extension, change_extension_spec, detect_image_format_by_content,
    detect_spec, eq_fold, get_extension, get_extension_spec, find_last, is_image_file,
    is_image_file_spec, last_index, lemma_last_index_bounds, lemma_get_extension_lowered,
};
use vstd::string::StrSliceExecFns;

verus! {

/// The image converter: stateless; every method is a pure function of its
/// arguments and of the outside codecs it calls.
pub struct ImageConverter;

/// A path `dir` with `name` appended as one more component.
pub open spec fn join_path_spec(dir: Seq<char>, name: Seq<char>) -> Seq<char> {
    if dir.len() == 0 {
        name
    } else if dir[dir.len() - 1] == '/' {
        dir + name
    } else {
        dir + "/"@ + name
    }
}

/// Append `name` to the directory path `dir`.
pub fn join_path(dir: &str, name: &str) -> (r: String)
    ensures
        r@ == join_path_spec(dir@, name@),
{
    let n = dir.unicode_len();
    if n == 0 {
        return String::from_str(name);
    }
    let mut out = String::from_str(dir);
    if dir.get_char(n - 1) != '/' {
        out.append("/");
    }
    out.append(name);
    out
}

/// The directory part of a path: everything before the last `/`. A bare
/// file name has the empty path as its directory; the root `/` and the
/// empty path have no parent and resolve to `.`, the working directory.
pub open spec fn parent_spec(p: Seq<char>) -> Seq<char> {
    let li = last_index(p, '/');
    if p.len() == 0 {
        "."@
    } else if li == -1 {
        Seq::<char>::empty()
    } else if li == 0 && p.len() == 1 {
        "."@
    } else if li == 0 {
        "/"@
    } else {
        p.subrange(0, li)
    }
}

/// The directory part of a path.
pub fn parent_of(path: &str) -> (r: String)
    ensures
        r@ == parent_spec(path@),
{
    let n = path.unicode_len();
    if n == 0 {
        return String::from_str(".");
    }
    proof {
        lemma_last_index_bounds(path@, '/');
    }
    match find_last(path, '/') {
        None => String::new(),
        Some(i) => if i == 0 {
            if n == 1 {
                String::from_str(".")
            } else {
                String::from_str("/")
            }
        } else {
            String::from_str(path.substring_char(0, i))
        },
    }
}

/// Resolve the output location of the whole run, as the command line does:
/// an explicit output path is used as given; otherwise a single file
/// converts next to itself, and a directory converts into a `pixforge_output`
/// sibling of the input directory.
pub fn determine_output_path(input: &str, output: Option<&String>, input_is_file: bool) -> (r:
    String)
    ensures
        output matches Some(o) ==> r@ == o@,
        output is None && input_is_file ==> r@ == parent_spec(input@),
        output is None && !input_is_file ==> r@ == join_path_spec(
            parent_spec(input@),
            "pixforge_output"@,
        ),
{
    match output {
        Some(o) => o.clone(),
        None => {
            let parent = parent_of(input);
            if input_is_file {
                parent
            } else {
                join_path(parent.as_str(), "pixforge_output")
            }
        },
    }
}

/// A source that the pipeline refuses as SVG: the file's extension is `svg`
/// or its content is detected as SVG text.
pub open spec fn svg_source_spec(name: Seq<char>, bytes: Seq<u8>) -> bool {
    get_extension_spec(name) == "svg"@ || detect_spec(bytes) == Some(FormatLabel::Svg)
}

/// The guard on decoded dimensions: the RGBA expansion of the image must fit
/// in an in-memory vector.
pub open spec fn dims_ok_spec(w: u32, h: u32) -> bool {
    4 * w * h <= usize::MAX
}

proof fn lemma_mul_le(a: int, b: int, c: int, d: int)
    by (nonlinear_arith)
    requires
        0 <= a <= c,
        0 <= b <= d,
    ensures
        a * b <= c * d,
{
}

/// Whether dimensions pass the size guard.
fn dims_ok(w: u32, h: u32) -> (r: bool)
    ensures
        r == dims_ok_spec(w, h),
{
    proof {
        assert(4 * (w as int) * (h as int) == 4 * ((w as int) * (h as int))) by (nonlinear_arith);
        lemma_mul_le(w as int, h as int, 0xffff_ffff, 0xffff_ffff);
    }
    let p: u64 = (w as u64) * (h as u64);
    4 * (p as u128) <= usize::MAX as u128
}

/// The stream that encoding a decoded buffer yields for one target, if any,
/// in terms of the named codec results: JPEG encodes the RGB reduction; WebP
/// encodes the RGBA expansion, refusing dimensions over the format's 16383
/// limit; PNG encodes the stored samples under the preserved layout; GIF
/// encodes the RGBA expansion with no quality parameter; ICO encodes the
/// RGBA expansion, resampled to the policy's output dimensions when the
/// source exceeds 256 pixels in either direction.
pub open spec fn encode_output_spec(t: TargetFormat, b: PixelBuffer, q: u8) -> Option<Seq<u8>> {
    let opts = decide_spec(t, q, classify_spec(&b), b.layout, b.width, b.height);
    match t {
        TargetFormat::Jpeg => codec::jpeg_encoded_of(rgb_of(&b), b.width, b.height, opts.quality),
        TargetFormat::Webp => if b.width > 16383 || b.height > 16383 {
            None
        } else {
            codec::webp_encoded_of(rgba_of(&b), b.width, b.height, opts.quality)
        },
        TargetFormat::Png => codec::png_encoded_of(
            b.data@,
            b.width,
            b.height,
            opts.layout,
            opts.compression,
            opts.filter,
        ),
        TargetFormat::Gif => codec::gif_encoded_of(rgba_of(&b), b.width, b.height),
        TargetFormat::Ico => if (b.width > 256 || b.height > 256) && b.width >= 1 && b.height
            >= 1 {
            codec::ico_encoded_of(
                codec::resized_of(rgba_of(&b), b.width, b.height, opts.out_width, opts.out_height),
                opts.out_width,
                opts.out_height,
            )
        } else {
            codec::ico_encoded_of(rgba_of(&b), b.width, b.height)
        },
    }
}

/// The whole pipeline for one file: an unknown target is refused first; an
/// SVG source next; then the bytes are decoded (a failure, or an image whose
/// size guard trips, is a decode failure), and the decoded buffer is
/// encoded for the target, any encoder refusal being an encode failure.
pub open spec fn convert_image_spec(
    name: Seq<char>,
    bytes: Seq<u8>,
    target: Seq<char>,
    q: u8,
) -> Result<Seq<u8>, ConversionError> {
    match parse_target_format_spec(target) {
        None => Err(ConversionError::UnsupportedTargetFormat),
        Some(t) => if svg_source_spec(name, bytes) {
            Err(ConversionError::UnsupportedConversion)
        } else {
            match codec::decode_of(bytes) {
                None => Err(ConversionError::DecodeFailed),
                Some(b) => if !dims_ok_spec(b.width, b.height) {
                    Err(ConversionError::DecodeFailed)
                } else {
                    match encode_output_spec(t, b, q) {
                        Some(s) => Ok(s),
                        None => Err(ConversionError::EncodeFailed),
                    }
                },
            }
        },
    }
}

/// Whether an executable result carries exactly the bytes or the error of
/// the specified one.
pub open spec fn result_bytes_match(
    r: Result<Vec<u8>, ConversionError>,
    s: Result<Seq<u8>, ConversionError>,
) -> bool {
    match (r, s) {
        (Ok(v), Ok(b)) => v@ == b,
        (Err(e1), Err(e2)) => e1 == e2,
        _ => false,
    }
}

impl ImageConverter {
    /// Create a converter.
    pub fn new() -> ImageConverter {
        ImageConverter
    }

    /// Resolve the output file of one conversion: when `output` names a
    /// directory, a file named after the input with the target extension is
    /// placed inside it; otherwise `output` is taken literally. The caller
    /// reports in `output_is_dir` whether the output path names an existing
    /// directory.
    pub fn determine_output_path(
        &self,
        input: &str,
        output: &str,
        output_is_dir: bool,
        target_format: &str,
    ) -> (r: String)
        ensures
            output_is_dir ==> r@ == join_path_spec(
                output@,
                change_extension_spec(input@, target_format@),
            ),
            !output_is_dir ==> r@ == output@,
    {
        if output_is_dir {
            let filename = change_extension(input, target_format);
            join_path(output, filename.as_str())
        } else {
            String::from_str(output)
        }
    }

    /// Convert one image, handed as its file name and raw content, into the
    /// target format at the given quality; the result — output bytes or
    /// typed error — is exactly `convert_image_spec` of the arguments.
    pub fn convert_image(
        &self,
        input_name: &str,
        bytes: &Vec<u8>,
        target_format: &str,
        quality: u8,
    ) -> (r: Result<Vec<u8>, ConversionError>)
        requires
            quality <= 100,
        ensures
            result_bytes_match(r, convert_image_spec(input_name@, bytes@, target_format@, quality)),
            parse_target_format_spec(target_format@) is None <==> r == Err::<Vec<u8>, _>(
                ConversionError::UnsupportedTargetFormat,
            ),
            (parse_target_format_spec(target_format@) is Some && svg_source_spec(
                input_name@,
                bytes@,
            )) <==> r == Err::<Vec<u8>, _>(ConversionError::UnsupportedConversion),
            r is Ok ==> parse_target_format_spec(target_format@) is Some && !svg_source_spec(
                input_name@,
                bytes@,
            ),
            r matches Ok(v) ==> v@.len() > 0,
    {
        let target = match parse_target_format(target_format) {
            Some(t) => t,
            None => {
                return Err(ConversionError::UnsupportedTargetFormat);
            },
        };
        let ext = get_extension(input_name);
        proof {
            lemma_get_extension_lowered(input_name@);
        }
        let svg_ext = eq_fold(ext.as_str(), "svg");
        let svg_content = match detect_image_format_by_content(bytes) {
            Some(FormatLabel::Svg) => true,
            _ => false,
        };
        if svg_ext || svg_content {
            return Err(ConversionError::UnsupportedConversion);
        }
        let buf = match codec::decode_image(bytes) {
            Some(b) => b,
            None => {
                return Err(ConversionError::DecodeFailed);
            },
        };
        if !dims_ok(buf.width, buf.height) {
            return Err(ConversionError::DecodeFailed);
        }
        let category = classify(&buf);
        let options = decide(target, quality, category, buf.layout, buf.width, buf.height);
        let encoded: Option<Vec<u8>> = match target {
            TargetFormat::Jpeg => {
                let rgb = buf.to_rgb_data();
                codec::encode_jpeg_bytes(&rgb, buf.width, buf.height, options.quality)
            },
            TargetFormat::Webp => {
                if buf.width > 16383 || buf.height > 16383 {
                    None
                } else {
                    let rgba = buf.to_rgba_data();
                    codec::encode_webp_bytes(&rgba, buf.width, buf.height, options.quality)
                }
            },
            TargetFormat::Png => {
                proof {
                    assert(channels(options.layout) == channels(buf.layout));
                }
                codec::encode_png_bytes(
                    &buf.data,
                    buf.width,
                    buf.height,
                    options.layout,
                    options.compression,
                    options.filter,
                )
            },
            TargetFormat::Gif => {
                let rgba = buf.to_rgba_data();
                codec::encode_gif_bytes(&rgba, buf.width, buf.height)
            },
            TargetFormat::Ico => {
                let rgba = buf.to_rgba_data();
                if (buf.width > 256 || buf.height > 256) && buf.width >= 1 && buf.height >= 1 {
                    let resized = codec::resize_rgba(
                        &rgba,
                        buf.width,
                        buf.height,
                        options.out_width,
                        options.out_height,
                    );
                    codec::encode_ico_bytes(&resized, options.out_width, options.out_height)
                } else {
                    codec::encode_ico_bytes(&rgba, buf.width, buf.height)
                }
            },
        };
        match encoded {
            Some(v) => Ok(v),
            None => Err(ConversionError::EncodeFailed),
        }
    }
}

/// Counters of one batch run.
pub struct ConversionStats {
    pub converted: u32,
    pub skipped: u32,
}

impl ConversionStats {
    /// Fresh counters, both zero.
    pub fn new() -> (r: ConversionStats)
        ensures
            r.converted == 0,
            r.skipped == 0,
    {
        ConversionStats { converted: 0, skipped: 0 }
    }

    /// Record one successful conversion.
    pub fn increment_converted(&mut self)
        requires
            old(self).converted < u32::MAX,
        ensures
            final(self).converted == old(self).converted + 1,
            final(self).skipped == old(self).skipped,
    {
        self.converted = self.converted + 1;
    }

    /// Record one skipped file.
    pub fn increment_skipped(&mut self)
        requires
            old(self).skipped < u32::MAX,
        ensures
            final(self).skipped == old(self).skipped + 1,
            final(self).converted == old(self).converted,
    {
        self.skipped = self.skipped + 1;
    }

    /// Fold write failures into the counters: a file whose encoded output
    /// could not be written is not converted after all, but skipped — every
    /// per-file failure counts as a skip, never as a success.
    pub fn apply_write_failures(self, failures: u32) -> (r: ConversionStats)
        requires
            failures <= self.converted,
            self.skipped + failures <= u32::MAX,
        ensures
            r.converted == self.converted - failures,
            r.skipped == self.skipped + failures,
    {
        ConversionStats {
            converted: self.converted - failures,
            skipped: self.skipped + failures,
        }
    }

    /// The distinguished total-failure outcome: files were seen but none
    /// converted.
    pub fn is_total_failure(&self) -> (r: bool)
        ensures
            r == (self.converted == 0 && self.skipped > 0),
    {
        self.converted == 0 && self.skipped > 0
    }
}

/// One file of a batch: its path relative to the input directory, and its
/// raw content.
pub struct FileEntry {
    pub path: String,
    pub data: Vec<u8>,
}

/// The outcome of one file's conversion.
pub enum ConversionOutcome {
    /// The file converted; `output_name` mirrors the entry's relative path
    /// with the extension replaced, and `bytes` is the encoded output.
    Converted { output_name: String, bytes: Vec<u8> },
    /// The file was skipped for the given reason.
    Skipped { reason: ConversionError },
}

/// Whether an outcome is a skip for exactly the reason `e`.
pub open spec fn is_skipped_with(o: &ConversionOutcome, e: ConversionError) -> bool {
    match o {
        ConversionOutcome::Skipped { reason } => *reason == e,
        _ => false,
    }
}

/// Number of `Converted` outcomes in a sequence.
pub open spec fn converted_count(s: Seq<ConversionOutcome>) -> int
    decreases s.len(),
{
    if s.len() == 0 {
        0
    } else {
        converted_count(s.drop_last()) + (match s.last() {
            ConversionOutcome::Converted { .. } => 1int,
            _ => 0int,
        })
    }
}

/// The entry's relative path with its extension replaced by the target
/// format name, keeping any directory part.
pub open spec fn mirror_output_name_spec(p: Seq<char>, target: Seq<char>) -> Seq<char> {
    p.subrange(0, last_index(p, '/') + 1) + change_extension_spec(p, target)
}

/// Mirror an entry's relative path with the target extension.
pub fn mirror_output_name(path: &str, target_format: &str) -> (r: String)
    ensures
        r@ == mirror_output_name_spec(path@, target_format@),
{
    proof {
        lemma_last_index_bounds(path@, '/');
    }
    let _n = path.unicode_len();  // bounds path@.len() by usize::MAX
    let prefix: &str = match find_last(path, '/') {
        Some(i) => path.substring_char(0, i + 1),
        None => "",
    };
    let mut out = String::from_str(prefix);
    let name = change_extension(path, target_format);
    out.append(name.as_str());
    proof {
        reveal_strlit("");
        if last_index(path@, '/') == -1 {
            assert(path@.subrange(0, 0) =~= ""@);
        }
    }
    out
}

/// The outcome owed to one batch entry: a file that fails the eligibility
/// gate is skipped as unsupported input; otherwise the entry converts with
/// the mirrored output name and exactly the pipeline's bytes, or is skipped
/// with exactly the pipeline's error.
pub open spec fn outcome_matches(
    o: &ConversionOutcome,
    p: Seq<char>,
    d: Seq<u8>,
    t: Seq<char>,
    q: u8,
) -> bool {
    if !is_image_file_spec(p, d) {
        is_skipped_with(o, ConversionError::UnsupportedInputContent)
    } else {
        match convert_image_spec(p, d, t, q) {
            Ok(b) => match o {
                ConversionOutcome::Converted { output_name, bytes } => output_name@
                    == mirror_output_name_spec(p, t) && bytes@ == b,
                _ => false,
            },
            Err(e) => is_skipped_with(o, e),
        }
    }
}

impl ImageConverter {
    /// Convert every entry of a batch, one by one. Each entry yields exactly
    /// the outcome of `outcome_matches`: a file that fails the eligibility
    /// gate is skipped as unsupported input without ever reaching the
    /// decoder, a file the pipeline converts is `Converted` with its bytes,
    /// and every per-file failure is caught and counted — no failure aborts
    /// the run. The counters add up to the number of entries.
    pub fn convert_entries(
        &self,
        entries: &Vec<FileEntry>,
        target_format: &str,
        quality: u8,
    ) -> (r: (Vec<ConversionOutcome>, ConversionStats))
        requires
            quality <= 100,
            entries@.len() <= u32::MAX,
        ensures
            r.0@.len() == entries@.len(),
            r.1.converted == converted_count(r.0@),
            r.1.converted + r.1.skipped == entries@.len(),
            forall|i: int|
                #![trigger r.0@[i]]
                0 <= i < entries@.len() ==> outcome_matches(
                    &r.0@[i],
                    entries@[i].path@,
                    entries@[i].data@,
                    target_format@,
                    quality,
                ),
    {
        let mut out: Vec<ConversionOutcome> = Vec::new();
        let mut stats = ConversionStats::new();
        let n = entries.len();
        let mut i: usize = 0;
        while i < n
            invariant
                n == entries@.len() <= u32::MAX,
                quality <= 100,
                i <= n,
                out@.len() == i,
                stats.converted == converted_count(out@),
                stats.converted + stats.skipped == i,
                forall|j: int|
                    #![trigger out@[j]]
                    0 <= j < i ==> outcome_matches(
                        &out@[j],
                        entries@[j].path@,
                        entries@[j].data@,
                        target_format@,
                        quality,
                    ),
            decreases n - i,
        {
            let entry = &entries[i];
            let outcome: ConversionOutcome = if !is_image_file(entry.path.as_str(), &entry.data) {
                ConversionOutcome::Skipped { reason: ConversionError::UnsupportedInputContent }
            } else {
                match self.convert_image(entry.path.as_str(), &entry.data, target_format, quality) {
                    Ok(bytes) => {
                        let output_name = mirror_output_name(entry.path.as_str(), target_format);
                        ConversionOutcome::Converted { output_name, bytes }
                    },
                    Err(e) => ConversionOutcome::Skipped { reason: e },
                }
            };
            match &outcome {
                ConversionOutcome::Converted { .. } => stats.increment_converted(),
                ConversionOutcome::Skipped { .. } => stats.increment_skipped(),
            }
            let ghost prev = out@;
            out.push(outcome);
            proof {
                assert(out@.drop_last() =~= prev);
            }
            i += 1;
        }
        (out, stats)
    }
}

/// Target names that fold to the same letters drive the whole pipeline
/// identically: the same outcome, with the same output bytes.
pub proof fn lemma_convert_image_case_insensitive(
    name: Seq<char>,
    bytes: Seq<u8>,
    t1: Seq<char>,
    t2: Seq<char>,
    q: u8,
)
    requires
        crate::utils::lower(t1) == crate::utils::lower(t2),
    ensures
        convert_image_spec(name, bytes, t1, q) == convert_image_spec(name, bytes, t2, q),
{
    crate::policy::lemma_parse_target_format_case_insensitive(t1, t2);
}

/// An SVG source is refused as `UnsupportedConversion` for every supported
/// target and every quality, before any decoding.
pub proof fn lemma_svg_rejected(name: Seq<char>, bytes: Seq<u8>, target: Seq<char>, q: u8)
    requires
        parse_target_format_spec(target) is Some,
        svg_source_spec(name, bytes),
    ensures
        convert_image_spec(name, bytes, target, q) == Err::<Seq<u8>, _>(
            ConversionError::UnsupportedConversion,
        ),
{
}

/// A non-SVG source whose bytes the decode capability refuses is reported
/// as `DecodeFailed`, whatever the target and quality.
pub proof fn lemma_decode_failure_reported(name: Seq<char>, bytes: Seq<u8>, target: Seq<char>, q: u8)
    requires
        parse_target_format_spec(target) is Some,
        !svg_source_spec(name, bytes),
        codec::decode_of(bytes) is None,
    ensures
        convert_image_spec(name, bytes, target, q) == Err::<Seq<u8>, _>(
            ConversionError::DecodeFailed,
        ),
{
}

/// Conversion to a GIF target ignores the quality knob: GIF encoding takes
/// no quality parameter, so two conversions of the same source differ only
/// in nothing.
pub proof fn lemma_gif_ignores_quality(
    name: Seq<char>,
    bytes: Seq<u8>,
    target: Seq<char>,
    q1: u8,
    q2: u8,
)
    requires
        parse_target_format_spec(target) == Some(TargetFormat::Gif),
    ensures
        convert_image_spec(name, bytes, target, q1) == convert_image_spec(name, bytes, target, q2),
{
}

} // verus!

