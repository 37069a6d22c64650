//! The codecs an image can be written in, the format names a user may ask
//! for, and the one table between codecs and file extensions.

use vstd::prelude::*;
use crate::text::{text_eq, lowercase, lower_of};

verus! {

/// A codec that the converter can write.
#[derive(Debug, Clone, Copy, PartialEq, Eq, Structural)]
pub enum ImageFormat {
    Png,
    Jpeg,
    Gif,
    Bmp,
    Ico,
    Tiff,
    WebP,
    Avif,
    Pnm,
    Tga,
    Dds,
    Hdr,
    Farbfeld,
}

/// An output format as the user names it; `Jpg` and `Tif` are spellings of
/// `Jpeg` and `Tiff`.
#[derive(Debug, Clone, Copy, PartialEq, Eq, Structural)]
pub enum Format {
    Png,
    Jpeg,
    Jpg,
    Gif,
    Bmp,
    Ico,
    Tiff,
    Tif,
    Webp,
    Avif,
    Pnm,
    Tga,
    Dds,
    Hdr,
    Farbfeld,
}

/// The codec a user-facing format name stands for.
pub open spec fn image_format_of(f: Format) -> ImageFormat {
    match f {
        Format::Png => ImageFormat::Png,
        Format::Jpeg | Format::Jpg => ImageFormat::Jpeg,
        Format::Gif => ImageFormat::Gif,
        Format::Bmp => ImageFormat::Bmp,
        Format::Ico => ImageFormat::Ico,
        Format::Tiff | Format::Tif => ImageFormat::Tiff,
        Format::Webp => ImageFormat::WebP,
        Format::Avif => ImageFormat::Avif,
        Format::Pnm => ImageFormat::Pnm,
        Format::Tga => ImageFormat::Tga,
        Format::Dds => ImageFormat::Dds,
        Format::Hdr => ImageFormat::Hdr,
        Format::Farbfeld => ImageFormat::Farbfeld,
    }
}

/// The canonical extension of each codec.
pub open spec fn canonical_extension(f: ImageFormat) -> Seq<char> {
    match f {
        ImageFormat::Png => "png"@,
        ImageFormat::Jpeg => "jpg"@,
        ImageFormat::Gif => "gif"@,
        ImageFormat::Bmp => "bmp"@,
        ImageFormat::Ico => "ico"@,
        ImageFormat::Tiff => "tiff"@,
        ImageFormat::WebP => "webp"@,
        ImageFormat::Avif => "avif"@,
        ImageFormat::Pnm => "pnm"@,
        ImageFormat::Tga => "tga"@,
        ImageFormat::Dds => "dds"@,
        ImageFormat::Hdr => "hdr"@,
        ImageFormat::Farbfeld => "ff"@,
    }
}

/// The canonical extension of a user-facing format name.
pub open spec fn format_extension(f: Format) -> Seq<char> {
    canonical_extension(image_format_of(f))
}

/// The codec that a lower-case extension names, canonical or alias.
pub open spec fn format_of_extension(e: Seq<char>) -> Option<ImageFormat> {
    if e == "png"@ {
        Some(ImageFormat::Png)
    } else if e == "jpg"@ || e == "jpeg"@ {
        Some(ImageFormat::Jpeg)
    } else if e == "gif"@ {
        Some(ImageFormat::Gif)
    } else if e == "bmp"@ {
        Some(ImageFormat::Bmp)
    } else if e == "ico"@ {
        Some(ImageFormat::Ico)
    } else if e == "tiff"@ || e == "tif"@ {
        Some(ImageFormat::Tiff)
    } else if e == "webp"@ {
        Some(ImageFormat::WebP)
    } else if e == "avif"@ {
        Some(ImageFormat::Avif)
    } else if e == "pnm"@ || e == "pbm"@ || e == "pgm"@ || e == "ppm"@ {
        Some(ImageFormat::Pnm)
    } else if e == "tga"@ {
        Some(ImageFormat::Tga)
    } else if e == "dds"@ {
        Some(ImageFormat::Dds)
    } else if e == "hdr"@ {
        Some(ImageFormat::Hdr)
    } else if e == "ff"@ {
        Some(ImageFormat::Farbfeld)
    } else {
        None
    }
}

/// Folds the one alias that counts as the canonical extension itself:
/// `jpeg` is taken as `jpg`.
pub open spec fn canonical_spelling(e: Seq<char>) -> Seq<char> {
    if e == "jpeg"@ {
        "jpg"@
    } else {
        e
    }
}

/// Every literal of the extension table, revealed.
proof fn reveal_extension_literals()
    ensures
        "png"@ =~= seq!['p', 'n', 'g'],
        "jpg"@ =~= seq!['j', 'p', 'g'],
        "jpeg"@ =~= seq!['j', 'p', 'e', 'g'],
        "gif"@ =~= seq!['g', 'i', 'f'],
        "bmp"@ =~= seq!['b', 'm', 'p'],
        "ico"@ =~= seq!['i', 'c', 'o'],
        "tiff"@ =~= seq!['t', 'i', 'f', 'f'],
        "tif"@ =~= seq!['t', 'i', 'f'],
        "webp"@ =~= seq!['w', 'e', 'b', 'p'],
        "avif"@ =~= seq!['a', 'v', 'i', 'f'],
        "pnm"@ =~= seq!['p', 'n', 'm'],
        "pbm"@ =~= seq!['p', 'b', 'm'],
        "pgm"@ =~= seq!['p', 'g', 'm'],
        "ppm"@ =~= seq!['p', 'p', 'm'],
        "tga"@ =~= seq!['t', 'g', 'a'],
        "dds"@ =~= seq!['d', 'd', 's'],
        "hdr"@ =~= seq!['h', 'd', 'r'],
        "ff"@ =~= seq!['f', 'f'],
{
    reveal_strlit("png");
    reveal_strlit("jpg");
    reveal_strlit("jpeg");
    reveal_strlit("gif");
    reveal_strlit("bmp");
    reveal_strlit("ico");
    reveal_strlit("tiff");
    reveal_strlit("tif");
    reveal_strlit("webp");
    reveal_strlit("avif");
    reveal_strlit("pnm");
    reveal_strlit("pbm");
    reveal_strlit("pgm");
    reveal_strlit("ppm");
    reveal_strlit("tga");
    reveal_strlit("dds");
    reveal_strlit("hdr");
    reveal_strlit("ff");
}

/// The extension table reads both ways: the canonical extension of every
/// codec names that codec again, and so does that of every user-facing
/// format name. `jpeg` and `jpg` (and `tif` and `tiff`) give the same
/// extension, `jpg` (`tiff`), and the alias `jpeg` is still read as JPEG.
pub proof fn lemma_extension_round_trip(codec: ImageFormat, name: Format)
    ensures
        format_of_extension(canonical_extension(codec)) == Some(codec),
        format_of_extension(format_extension(name)) == Some(image_format_of(name)),
        format_extension(Format::Jpeg) == "jpg"@,
        format_extension(Format::Jpg) == "jpg"@,
        format_of_extension("jpeg"@) == Some(ImageFormat::Jpeg),
        canonical_spelling(canonical_extension(codec)) == canonical_extension(codec),
{
    reveal_extension_literals();
}

impl Format {
    /// The codec this format name stands for.
    pub fn to_image_format(&self) -> (r: ImageFormat)
        ensures
            r == image_format_of(*self),
    {
        match self {
            Format::Png => ImageFormat::Png,
            Format::Jpeg | Format::Jpg => ImageFormat::Jpeg,
            Format::Gif => ImageFormat::Gif,
            Format::Bmp => ImageFormat::Bmp,
            Format::Ico => ImageFormat::Ico,
            Format::Tiff | Format::Tif => ImageFormat::Tiff,
            Format::Webp => ImageFormat::WebP,
            Format::Avif => ImageFormat::Avif,
            Format::Pnm => ImageFormat::Pnm,
            Format::Tga => ImageFormat::Tga,
            Format::Dds => ImageFormat::Dds,
            Format::Hdr => ImageFormat::Hdr,
            Format::Farbfeld => ImageFormat::Farbfeld,
        }
    }
}

/// The canonical extension of a codec.
pub fn format_to_main_extension(format: &ImageFormat) -> (r: &'static str)
    ensures
        r@ == canonical_extension(*format),
{
    match format {
        ImageFormat::Png => "png",
        ImageFormat::Jpeg => "jpg",
        ImageFormat::Gif => "gif",
        ImageFormat::Bmp => "bmp",
        ImageFormat::Ico => "ico",
        ImageFormat::Tiff => "tiff",
        ImageFormat::WebP => "webp",
        ImageFormat::Avif => "avif",
        ImageFormat::Pnm => "pnm",
        ImageFormat::Tga => "tga",
        ImageFormat::Dds => "dds",
        ImageFormat::Hdr => "hdr",
        ImageFormat::Farbfeld => "ff",
    }
}

/// The canonical extension of a user-facing format name: the same table as
/// for codecs, so `jpeg` and `jpg` both give `jpg`.
pub fn format_to_extension(format: &Format) -> (r: &'static str)
    ensures
        r@ == format_extension(*format),
{
    format_to_main_extension(&format.to_image_format())
}

/// The codec named by an extension that is already in lower case.
pub fn extension_lookup(lower: &str) -> (r: Option<ImageFormat>)
    ensures
        r == format_of_extension(lower@),
{
    if text_eq(lower, "png") {
        Some(ImageFormat::Png)
    } else if text_eq(lower, "jpg") || text_eq(lower, "jpeg") {
        Some(ImageFormat::Jpeg)
    } else if text_eq(lower, "gif") {
        Some(ImageFormat::Gif)
    } else if text_eq(lower, "bmp") {
        Some(ImageFormat::Bmp)
    } else if text_eq(lower, "ico") {
        Some(ImageFormat::Ico)
    } else if text_eq(lower, "tiff") || text_eq(lower, "tif") {
        Some(ImageFormat::Tiff)
    } else if text_eq(lower, "webp") {
        Some(ImageFormat::WebP)
    } else if text_eq(lower, "avif") {
        Some(ImageFormat::Avif)
    } else if text_eq(lower, "pnm") || text_eq(lower, "pbm") || text_eq(lower, "pgm")
        || text_eq(lower, "ppm") {
        Some(ImageFormat::Pnm)
    } else if text_eq(lower, "tga") {
        Some(ImageFormat::Tga)
    } else if text_eq(lower, "dds") {
        Some(ImageFormat::Dds)
    } else if text_eq(lower, "hdr") {
        Some(ImageFormat::Hdr)
    } else if text_eq(lower, "ff") {
        Some(ImageFormat::Farbfeld)
    } else {
        None
    }
}

/// The codec named by an extension in any case.
pub fn extension_to_format(ext: &str) -> (r: Option<ImageFormat>)
    ensures
        r == format_of_extension(lower_of(ext@)),
{
    let lower = lowercase(ext);
    extension_lookup(lower.as_str())
}

/// Whether an extension already in lower case is the canonical extension of
/// `format`, or its `jpeg` spelling.
pub fn extension_matches(lower: &str, format: &Format) -> (r: bool)
    ensures
        r == (canonical_spelling(lower@) == format_extension(*format)),
{
    let canonical = format_to_extension(format);
    if text_eq(lower, "jpeg") {
        text_eq("jpg", canonical)
    } else {
        text_eq(lower, canonical)
    }
}

} // verus!
