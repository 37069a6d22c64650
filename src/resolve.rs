//! Resolution of the output: one path and one codec from the output path,
//! the flags given and, when the image comes from the clipboard, the format
//! it was captured in.

use vstd::prelude::*;
use crate::text::{has_separator, lower_of, lowercase, text_eq, contains_separator};
use crate::format::{
    Format, ImageFormat, image_format_of, canonical_extension, format_extension,
    format_of_extension, canonical_spelling, extension_lookup, extension_matches,
    format_to_extension, format_to_main_extension, lemma_extension_round_trip,
};
use crate::paths::{extension_of, with_extension_of, path_extension, path_with_extension};

verus! {

/// Why a conversion cannot go ahead.
#[derive(Debug, Clone, Copy, PartialEq, Eq, Structural)]
pub enum ConvertError {
    /// The extension asked for names no codec (one holding a path separator
    /// never does).
    UnknownExtension,
    /// No format flag was given and the output path's extension names no codec.
    UndeterminedFormat,
    /// The quality lies outside 1 to 100.
    QualityOutOfRange,
}

/// The path to write and the codec to write it in.
#[derive(Debug, Clone)]
pub struct ResolvedOutput {
    pub path: String,
    pub format: ImageFormat,
}

impl ResolvedOutput {
    pub open spec fn view(&self) -> (Seq<char>, ImageFormat) {
        (self.path@, self.format)
    }
}

/// The text and codec of a resolution, or its error.
pub open spec fn resolution_view(r: Result<ResolvedOutput, ConvertError>) -> Result<
    (Seq<char>, ImageFormat),
    ConvertError,
> {
    match r {
        Ok(o) => Ok(o@),
        Err(e) => Err(e),
    }
}

/// The codec that a path's extension names, in any case.
pub open spec fn path_format(path: Seq<char>) -> Option<ImageFormat> {
    match extension_of(path) {
        Some(e) => format_of_extension(lower_of(e)),
        None => None,
    }
}

/// Whether the path's extension already fits the format: its canonical
/// extension, or `jpeg` for JPEG, in any case.
pub open spec fn extension_fits(path: Seq<char>, f: Format) -> bool {
    match extension_of(path) {
        Some(e) => canonical_spelling(lower_of(e)) == format_extension(f),
        None => false,
    }
}

/// The path given the format's extension, unless its extension fits already.
pub open spec fn path_for_format(path: Seq<char>, f: Format) -> Seq<char> {
    if extension_fits(path, f) {
        path
    } else {
        with_extension_of(path, format_extension(f))
    }
}

/// Resolution when the image comes from a file.
pub open spec fn file_resolution(path: Seq<char>, format: Option<Format>) -> Result<
    (Seq<char>, ImageFormat),
    ConvertError,
> {
    match format {
        Some(f) => Ok((path_for_format(path, f), image_format_of(f))),
        None => match path_format(path) {
            Some(d) => Ok((path, d)),
            None => Err(ConvertError::UndeterminedFormat),
        },
    }
}

/// The path given the extension asked for, unless its own extension is the
/// same but for case.
pub open spec fn path_for_extension(path: Seq<char>, ext: Seq<char>) -> Seq<char> {
    match extension_of(path) {
        Some(cur) => if lower_of(cur) == lower_of(ext) {
            path
        } else {
            with_extension_of(path, ext)
        },
        None => with_extension_of(path, ext),
    }
}

/// The captured format, PNG where it is not known, with the path given its
/// canonical extension.
pub open spec fn captured_fallback(path: Seq<char>, detected: Option<ImageFormat>) -> (
    Seq<char>,
    ImageFormat,
) {
    let d = match detected {
        Some(d) => d,
        None => ImageFormat::Png,
    };
    (with_extension_of(path, canonical_extension(d)), d)
}

/// Resolution when the image comes from the clipboard. First match wins: the
/// extension asked for, the format asked for, the path's own extension when
/// it agrees with the captured format, and last the captured format.
pub open spec fn clipboard_resolution(
    path: Seq<char>,
    format: Option<Format>,
    extension: Option<Seq<char>>,
    detected: Option<ImageFormat>,
) -> Result<(Seq<char>, ImageFormat), ConvertError> {
    match extension {
        Some(x) => if has_separator(x) || format_of_extension(lower_of(x)) is None {
            Err(ConvertError::UnknownExtension)
        } else {
            Ok((path_for_extension(path, x), format_of_extension(lower_of(x))->Some_0))
        },
        None => match format {
            Some(f) => Ok((path_for_format(path, f), image_format_of(f))),
            None => match extension_of(path) {
                Some(cur) => {
                    if detected is Some && canonical_spelling(lower_of(cur))
                        != canonical_extension(detected->Some_0) {
                        Ok(
                            (
                                with_extension_of(path, canonical_extension(detected->Some_0)),
                                detected->Some_0,
                            ),
                        )
                    } else {
                        match format_of_extension(lower_of(cur)) {
                            Some(g) => Ok((path, g)),
                            None => Ok(captured_fallback(path, detected)),
                        }
                    }
                },
                None => Ok(captured_fallback(path, detected)),
            },
        },
    }
}

/// Whether the path's extension names the codec, as written or in lower case.
pub open spec fn extension_names(path: Seq<char>, f: ImageFormat) -> bool {
    match extension_of(path) {
        Some(e) => format_of_extension(e) == Some(f) || format_of_extension(lower_of(e)) == Some(f),
        None => false,
    }
}

/// Whether a quality may be handed to the JPEG encoder.
pub open spec fn quality_in_range(q: u8) -> bool {
    1 <= q <= 100
}

/// The canonical extensions are non-empty and hold no `.` and no path
/// separator.
proof fn lemma_canonical_extension_plain(f: ImageFormat)
    ensures
        !has_separator(canonical_extension(f)),
        canonical_extension(f).len() > 0,
        !canonical_extension(f).contains('.'),
{
    reveal_strlit("png");
    reveal_strlit("jpg");
    reveal_strlit("gif");
    reveal_strlit("bmp");
    reveal_strlit("ico");
    reveal_strlit("tiff");
    reveal_strlit("webp");
    reveal_strlit("avif");
    reveal_strlit("pnm");
    reveal_strlit("tga");
    reveal_strlit("dds");
    reveal_strlit("hdr");
    reveal_strlit("ff");
}

/// An extension that is, but for the `jpeg` spelling, the canonical
/// extension of a codec names that codec.
proof fn lemma_spelling_names_codec(e: Seq<char>, f: ImageFormat)
    requires
        canonical_spelling(e) == canonical_extension(f),
    ensures
        format_of_extension(e) == Some(f),
{
    lemma_extension_round_trip(f, Format::Png);
    lemma_extension_round_trip(ImageFormat::Jpeg, Format::Jpeg);
    reveal_strlit("jpeg");
    reveal_strlit("jpg");
    if e == "jpeg"@ {
        assert(canonical_extension(f) == "jpg"@);
        assert(format_of_extension("jpg"@) == Some(ImageFormat::Jpeg));
    }
}

/// The codec that a path's extension names.
pub fn detect_format_from_path(path: &str) -> (r: Option<ImageFormat>)
    ensures
        r == path_format(path@),
{
    match path_extension(path) {
        Some(ext) => {
            let lower = lowercase(ext.as_str());
            extension_lookup(lower.as_str())
        },
        None => None,
    }
}

/// The path with the format's canonical extension, left as it is where its
/// extension already fits the format.
pub fn add_extension_if_needed(path: &str, format: &Format) -> (r: String)
    ensures
        r@ == path_for_format(path@, *format),
        extension_of(path@) is Some ==> extension_names(r@, image_format_of(*format)),
{
    proof {
        lemma_extension_round_trip(image_format_of(*format), *format);
        lemma_canonical_extension_plain(image_format_of(*format));
    }
    if let Some(ext) = path_extension(path) {
        let lower = lowercase(ext.as_str());
        if extension_matches(lower.as_str(), format) {
            proof {
                lemma_spelling_names_codec(lower@, image_format_of(*format));
            }
            return path.to_string();
        }
    }
    let ext = format_to_extension(format);
    path_with_extension(path, ext)
}

/// Resolution when the image comes from a file: the format flag decides,
/// else the output path's extension.
pub fn determine_output(output: &str, format: Option<Format>) -> (r: Result<
    ResolvedOutput,
    ConvertError,
>)
    ensures
        resolution_view(r) == file_resolution(output@, format),
        r is Ok && extension_of(output@) is Some ==> extension_names(r->Ok_0.path@, r->Ok_0.format),
{
    match format {
        Some(fmt) => Ok(
            ResolvedOutput {
                path: add_extension_if_needed(output, &fmt),
                format: fmt.to_image_format(),
            },
        ),
        None => match detect_format_from_path(output) {
            Some(detected) => Ok(ResolvedOutput { path: output.to_string(), format: detected }),
            None => Err(ConvertError::UndeterminedFormat),
        },
    }
}

/// Whether an extension already in lower case agrees with the captured
/// format's canonical extension, `jpeg` counting as `jpg`.
pub fn agrees_with_capture(lower: &str, detected: &ImageFormat) -> (r: bool)
    ensures
        r == (canonical_spelling(lower@) == canonical_extension(*detected)),
{
    let canonical = format_to_main_extension(detected);
    if text_eq(lower, "jpeg") {
        text_eq("jpg", canonical)
    } else {
        text_eq(lower, canonical)
    }
}

/// The captured format (PNG where it is not known), with the path given its
/// canonical extension.
fn fall_back_to_capture(output: &str, detected: Option<ImageFormat>) -> (r: ResolvedOutput)
    ensures
        r@ == captured_fallback(output@, detected),
        extension_of(output@) is Some ==> extension_names(r.path@, r.format),
{
    let fmt = match detected {
        Some(d) => d,
        None => ImageFormat::Png,
    };
    let ext = format_to_main_extension(&fmt);
    proof {
        lemma_canonical_extension_plain(fmt);
        lemma_extension_round_trip(fmt, Format::Png);
    }
    ResolvedOutput { path: path_with_extension(output, ext), format: fmt }
}

/// Resolution when the image comes from the clipboard; see
/// `clipboard_resolution` for the order in which the hints count.
pub fn determine_output_from_clipboard(
    output: &str,
    explicit_format: Option<Format>,
    extension: Option<&str>,
    detected_format: Option<ImageFormat>,
) -> (r: Result<ResolvedOutput, ConvertError>)
    ensures
        resolution_view(r) == clipboard_resolution(
            output@,
            explicit_format,
            match extension {
                Some(x) => Some(x@),
                None => None,
            },
            detected_format,
        ),
        r is Ok && extension_of(output@) is Some && (extension is Some ==> extension->Some_0@.len()
            > 0 && !extension->Some_0@.contains('.')) ==> extension_names(
            r->Ok_0.path@,
            r->Ok_0.format,
        ),
{
    if let Some(ext) = extension {
        if contains_separator(ext) {
            return Err(ConvertError::UnknownExtension);
        }
        let target = match extension_lookup(lowercase(ext).as_str()) {
            Some(t) => t,
            None => {
                return Err(ConvertError::UnknownExtension);
            },
        };
        let path = match path_extension(output) {
            Some(current) => {
                let same = text_eq(lowercase(current.as_str()).as_str(), lowercase(ext).as_str());
                if same {
                    output.to_string()
                } else {
                    path_with_extension(output, ext)
                }
            },
            None => path_with_extension(output, ext),
        };
        return Ok(ResolvedOutput { path, format: target });
    }
    if let Some(fmt) = explicit_format {
        return Ok(
            ResolvedOutput {
                path: add_extension_if_needed(output, &fmt),
                format: fmt.to_image_format(),
            },
        );
    }
    match path_extension(output) {
        Some(current) => {
            let lower = lowercase(current.as_str());
            if let Some(detected) = detected_format {
                if !agrees_with_capture(lower.as_str(), &detected) {
                    let ext = format_to_main_extension(&detected);
                    proof {
                        lemma_canonical_extension_plain(detected);
                        lemma_extension_round_trip(detected, Format::Png);
                    }
                    return Ok(
                        ResolvedOutput {
                            path: path_with_extension(output, ext),
                            format: detected,
                        },
                    );
                }
            }
            match extension_lookup(lower.as_str()) {
                Some(found) => Ok(ResolvedOutput { path: output.to_string(), format: found }),
                None => Ok(fall_back_to_capture(output, detected_format)),
            }
        },
        None => Ok(fall_back_to_capture(output, detected_format)),
    }
}

/// Accepts a JPEG quality in 1 to 100 and rejects any other.
pub fn validate_quality(quality: u8) -> (r: Result<u8, ConvertError>)
    ensures
        r is Ok <==> quality_in_range(quality),
        r is Ok ==> r->Ok_0 == quality,
        r is Err ==> r->Err_0 == ConvertError::QualityOutOfRange,
{
    if quality == 0 || quality > 100 {
        Err(ConvertError::QualityOutOfRange)
    } else {
        Ok(quality)
    }
}

/// The quality to encode with: the one given for JPEG, none (the codec's
/// own default) for every other codec.
pub fn encoder_quality(format: &ImageFormat, quality: u8) -> (r: Option<u8>)
    ensures
        r == (if *format == ImageFormat::Jpeg {
            Some(quality)
        } else {
            None
        }),
{
    match format {
        ImageFormat::Jpeg => Some(quality),
        _ => None,
    }
}

} // verus!
