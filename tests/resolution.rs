use imgconv::format::{Format, ImageFormat};
use imgconv::resolve::{
    add_extension_if_needed, agrees_with_capture, determine_output,
    determine_output_from_clipboard, encoder_quality, validate_quality, ConvertError,
};

fn resolved(r: Result<imgconv::resolve::ResolvedOutput, ConvertError>) -> (String, ImageFormat) {
    let o = r.expect("resolution should succeed");
    (o.path, o.format)
}

#[test]
fn explicit_format_appends_missing_extension() {
    let (path, format) = resolved(determine_output("photo", Some(Format::Png)));
    assert_eq!(path, "photo.png");
    assert_eq!(format, ImageFormat::Png);
}

#[test]
fn explicit_format_keeps_matching_extension_in_any_case() {
    let (path, format) = resolved(determine_output("photo.JPG", Some(Format::Jpeg)));
    assert_eq!(path, "photo.JPG");
    assert_eq!(format, ImageFormat::Jpeg);
    let (path, format) = resolved(determine_output("photo.jpeg", Some(Format::Jpg)));
    assert_eq!(path, "photo.jpeg");
    assert_eq!(format, ImageFormat::Jpeg);
}

#[test]
fn explicit_format_replaces_other_extension() {
    let (path, format) = resolved(determine_output("photo.png", Some(Format::Webp)));
    assert_eq!(path, "photo.webp");
    assert_eq!(format, ImageFormat::WebP);
    assert_eq!(add_extension_if_needed("a/b.tif", &Format::Tiff), "a/b.tiff");
    assert_eq!(add_extension_if_needed("b.gif", &Format::Gif), "b.gif");
}

#[test]
fn file_mode_takes_format_from_extension() {
    let (path, format) = resolved(determine_output("img.bmp", None));
    assert_eq!(path, "img.bmp");
    assert_eq!(format, ImageFormat::Bmp);
}

#[test]
fn file_mode_unknown_extension_is_undetermined() {
    assert_eq!(determine_output("out.txt", None).unwrap_err(), ConvertError::UndeterminedFormat);
    assert_eq!(determine_output("out", None).unwrap_err(), ConvertError::UndeterminedFormat);
}

#[test]
fn clipboard_explicit_extension_wins() {
    let (path, format) = resolved(determine_output_from_clipboard(
        "shot.png",
        None,
        Some("jpg"),
        Some(ImageFormat::Png),
    ));
    assert_eq!(path, "shot.jpg");
    assert_eq!(format, ImageFormat::Jpeg);
}

#[test]
fn clipboard_explicit_extension_over_format_flag() {
    let (path, format) = resolved(determine_output_from_clipboard(
        "shot",
        Some(Format::Png),
        Some("webp"),
        Some(ImageFormat::Png),
    ));
    assert_eq!(path, "shot.webp");
    assert_eq!(format, ImageFormat::WebP);
}

#[test]
fn clipboard_explicit_extension_same_but_case_keeps_path() {
    let (path, format) = resolved(determine_output_from_clipboard(
        "shot.JPG",
        None,
        Some("jpg"),
        Some(ImageFormat::Png),
    ));
    assert_eq!(path, "shot.JPG");
    assert_eq!(format, ImageFormat::Jpeg);
}

#[test]
fn clipboard_unknown_extension_is_refused() {
    let r = determine_output_from_clipboard("shot.png", None, Some("xyz"), Some(ImageFormat::Png));
    assert_eq!(r.unwrap_err(), ConvertError::UnknownExtension);
    let r = determine_output_from_clipboard("shot.png", None, Some("a/png"), None);
    assert_eq!(r.unwrap_err(), ConvertError::UnknownExtension);
}

#[test]
fn clipboard_format_flag_applies() {
    let (path, format) = resolved(determine_output_from_clipboard(
        "shot",
        Some(Format::Bmp),
        None,
        Some(ImageFormat::Png),
    ));
    assert_eq!(path, "shot.bmp");
    assert_eq!(format, ImageFormat::Bmp);
}

#[test]
fn clipboard_mismatched_extension_follows_capture() {
    let (path, format) = resolved(determine_output_from_clipboard(
        "shot.jpg",
        None,
        None,
        Some(ImageFormat::Png),
    ));
    assert_eq!(path, "shot.png");
    assert_eq!(format, ImageFormat::Png);
}

#[test]
fn clipboard_matching_extension_is_kept() {
    let (path, format) = resolved(determine_output_from_clipboard(
        "shot.PNG",
        None,
        None,
        Some(ImageFormat::Png),
    ));
    assert_eq!(path, "shot.PNG");
    assert_eq!(format, ImageFormat::Png);
    let (path, format) = resolved(determine_output_from_clipboard(
        "shot.jpeg",
        None,
        None,
        Some(ImageFormat::Jpeg),
    ));
    assert_eq!(path, "shot.jpeg");
    assert_eq!(format, ImageFormat::Jpeg);
}

#[test]
fn clipboard_without_extension_uses_capture() {
    let (path, format) = resolved(determine_output_from_clipboard(
        "out/shot",
        None,
        None,
        Some(ImageFormat::Png),
    ));
    assert_eq!(path, "out/shot.png");
    assert_eq!(format, ImageFormat::Png);
    let (path, format) = resolved(determine_output_from_clipboard("shot", None, None, None));
    assert_eq!(path, "shot.png");
    assert_eq!(format, ImageFormat::Png);
}

#[test]
fn clipboard_unknown_capture_keeps_known_extension() {
    let (path, format) = resolved(determine_output_from_clipboard("shot.gif", None, None, None));
    assert_eq!(path, "shot.gif");
    assert_eq!(format, ImageFormat::Gif);
    let (path, format) = resolved(determine_output_from_clipboard("shot.xyz", None, None, None));
    assert_eq!(path, "shot.png");
    assert_eq!(format, ImageFormat::Png);
}

#[test]
fn capture_agreement_counts_jpeg_as_jpg() {
    assert!(agrees_with_capture("jpeg", &ImageFormat::Jpeg));
    assert!(agrees_with_capture("jpg", &ImageFormat::Jpeg));
    assert!(!agrees_with_capture("jpg", &ImageFormat::Png));
    assert!(!agrees_with_capture("tif", &ImageFormat::Tiff));
}

#[test]
fn quality_bounds() {
    assert_eq!(validate_quality(0), Err(ConvertError::QualityOutOfRange));
    assert_eq!(validate_quality(101), Err(ConvertError::QualityOutOfRange));
    assert_eq!(validate_quality(255), Err(ConvertError::QualityOutOfRange));
    assert_eq!(validate_quality(1), Ok(1));
    assert_eq!(validate_quality(100), Ok(100));
    assert_eq!(validate_quality(90), Ok(90));
}

#[test]
fn quality_only_reaches_jpeg() {
    assert_eq!(encoder_quality(&ImageFormat::Jpeg, 85), Some(85));
    assert_eq!(encoder_quality(&ImageFormat::Png, 85), None);
    assert_eq!(encoder_quality(&ImageFormat::WebP, 85), None);
}
