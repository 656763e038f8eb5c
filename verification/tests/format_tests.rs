use toolbench::error::{Error, OptionsFault};
use toolbench::format::{extension_label, format_for, get_image_format_from_path, resolve_extension, ContainerFormat};

#[test]
fn supported_extensions_resolve_in_lower_case() {
    assert_eq!(get_image_format_from_path("x.jpg"), Ok(ContainerFormat::Jpeg));
    assert_eq!(get_image_format_from_path("x.jpeg"), Ok(ContainerFormat::Jpeg));
    assert_eq!(get_image_format_from_path("x.png"), Ok(ContainerFormat::Png));
    assert_eq!(get_image_format_from_path("x.gif"), Ok(ContainerFormat::Gif));
    assert_eq!(get_image_format_from_path("x.webp"), Ok(ContainerFormat::WebP));
    assert_eq!(get_image_format_from_path("x.bmp"), Ok(ContainerFormat::Bmp));
    assert_eq!(get_image_format_from_path("x.ico"), Ok(ContainerFormat::Ico));
    assert_eq!(get_image_format_from_path("x.tif"), Ok(ContainerFormat::Tiff));
    assert_eq!(get_image_format_from_path("x.tiff"), Ok(ContainerFormat::Tiff));
}

#[test]
fn supported_extensions_resolve_in_upper_case() {
    assert_eq!(get_image_format_from_path("x.JPG"), Ok(ContainerFormat::Jpeg));
    assert_eq!(get_image_format_from_path("x.JPEG"), Ok(ContainerFormat::Jpeg));
    assert_eq!(get_image_format_from_path("x.PNG"), Ok(ContainerFormat::Png));
    assert_eq!(get_image_format_from_path("x.GIF"), Ok(ContainerFormat::Gif));
    assert_eq!(get_image_format_from_path("x.WEBP"), Ok(ContainerFormat::WebP));
    assert_eq!(get_image_format_from_path("x.BMP"), Ok(ContainerFormat::Bmp));
    assert_eq!(get_image_format_from_path("x.ICO"), Ok(ContainerFormat::Ico));
    assert_eq!(get_image_format_from_path("x.TIF"), Ok(ContainerFormat::Tiff));
    assert_eq!(get_image_format_from_path("x.TIFF"), Ok(ContainerFormat::Tiff));
}

#[test]
fn supported_extensions_resolve_in_mixed_case() {
    assert_eq!(get_image_format_from_path("x.JpEg"), Ok(ContainerFormat::Jpeg));
    assert_eq!(get_image_format_from_path("x.wEbP"), Ok(ContainerFormat::WebP));
    assert_eq!(get_image_format_from_path("x.Tiff"), Ok(ContainerFormat::Tiff));
}

#[test]
fn path_without_extension_is_invalid() {
    assert_eq!(get_image_format_from_path("x"), Err(Error::InvalidExtension));
    assert_eq!(get_image_format_from_path(""), Err(Error::InvalidExtension));
    assert_eq!(get_image_format_from_path(".png"), Err(Error::InvalidExtension));
    assert_eq!(get_image_format_from_path(".."), Err(Error::InvalidExtension));
    assert_eq!(get_image_format_from_path("dir.d/picture"), Err(Error::InvalidExtension));
}

#[test]
fn other_extension_is_unsupported_and_reported_in_lower_case() {
    assert_eq!(get_image_format_from_path("x.txt"), Err(Error::UnsupportedFormat("txt".to_string())));
    assert_eq!(get_image_format_from_path("x.TXT"), Err(Error::UnsupportedFormat("txt".to_string())));
    assert_eq!(get_image_format_from_path("x.pngx"), Err(Error::UnsupportedFormat("pngx".to_string())));
    assert_eq!(get_image_format_from_path("x."), Err(Error::UnsupportedFormat(String::new())));
    assert_eq!(get_image_format_from_path("archive.png.gz"), Err(Error::UnsupportedFormat("gz".to_string())));
}

#[test]
fn only_the_last_component_decides() {
    assert_eq!(get_image_format_from_path("photos/2024/cat.PNG"), Ok(ContainerFormat::Png));
    assert_eq!(get_image_format_from_path("photos.png/cat.bmp"), Ok(ContainerFormat::Bmp));
    assert_eq!(get_image_format_from_path("a.b.c.gif"), Ok(ContainerFormat::Gif));
}

#[test]
fn extension_given_directly_resolves() {
    assert_eq!(resolve_extension(Some("PnG")), Ok(ContainerFormat::Png));
    assert_eq!(resolve_extension(None), Err(Error::InvalidExtension));
    assert_eq!(resolve_extension(Some("RAW")), Err(Error::UnsupportedFormat("raw".to_string())));
}

#[test]
fn table_is_matched_exactly_in_lower_case() {
    assert_eq!(format_for("png"), Some(ContainerFormat::Png));
    assert_eq!(format_for("PNG"), None);
    assert_eq!(format_for("jpe"), None);
    assert_eq!(format_for(""), None);
}

#[test]
fn labels_name_the_formats() {
    assert_eq!(ContainerFormat::Jpeg.label(), "Jpeg");
    assert_eq!(ContainerFormat::Png.label(), "Png");
    assert_eq!(ContainerFormat::Gif.label(), "Gif");
    assert_eq!(ContainerFormat::WebP.label(), "WebP");
    assert_eq!(ContainerFormat::Bmp.label(), "Bmp");
    assert_eq!(ContainerFormat::Ico.label(), "Ico");
    assert_eq!(ContainerFormat::Tiff.label(), "Tiff");
}

#[test]
fn extension_label_is_upper_case_and_unchecked() {
    assert_eq!(extension_label("photo.jpeg"), "JPEG");
    assert_eq!(extension_label("photo.PnG"), "PNG");
    assert_eq!(extension_label("scan.xyz"), "XYZ");
    assert_eq!(extension_label("noextension"), "UNKNOWN");
    assert_eq!(extension_label("dir/file.tga"), "TGA");
}

#[test]
fn messages_describe_the_failures() {
    assert_eq!(Error::InvalidExtension.message(), "Invalid file extension");
    assert_eq!(Error::UnsupportedFormat("txt".to_string()).message(), "Unsupported format: txt");
    assert_eq!(Error::DecodeError("no such file".to_string()).message(), "no such file");
    assert_eq!(Error::EncodeError("disk full".to_string()).message(), "disk full");
    assert_eq!(
        Error::InvalidOptions(OptionsFault::PasswordTooShort).message(),
        "Password length must be at least 4 characters"
    );
    assert_eq!(
        Error::InvalidOptions(OptionsFault::NoCharacterClass).message(),
        "At least one character type must be selected"
    );
    assert_eq!(
        Error::InvalidOptions(OptionsFault::UnsupportedAlgorithm("crc32".to_string())).message(),
        "Unsupported algorithm: crc32"
    );
    assert_eq!(
        Error::InvalidOptions(OptionsFault::EmptySource).message(),
        "Image has a dimension of zero to scale from"
    );
    assert_eq!(
        Error::InvalidOptions(OptionsFault::TargetTooLarge).message(),
        "Target dimensions are too large to hold in memory"
    );
}

#[test]
fn dots_at_the_edges_of_a_name_follow_the_path_rules() {
    assert_eq!(extension_label("."), "UNKNOWN");
    assert_eq!(extension_label(".."), "UNKNOWN");
    assert_eq!(extension_label("..."), "");
    assert_eq!(extension_label(".hidden"), "UNKNOWN");
    assert_eq!(extension_label(".hidden.png"), "PNG");
    assert_eq!(extension_label("name."), "");
    assert_eq!(extension_label("..png"), "PNG");
    assert_eq!(extension_label("a.b.c"), "C");
    assert_eq!(extension_label("photo.png/"), "PNG");
    assert_eq!(extension_label("photo.png/."), "PNG");
    assert_eq!(extension_label("photo.png/.."), "UNKNOWN");
}

#[test]
fn letter_case_follows_unicode() {
    assert_eq!(get_image_format_from_path("x.\u{c9}XT"), Err(Error::UnsupportedFormat("\u{e9}xt".to_string())));
    assert_eq!(extension_label("x.stra\u{df}e"), "STRASSE");
    assert_eq!(extension_label("x.\u{e9}t\u{e9}"), "\u{c9}T\u{c9}");
    // the Kelvin sign is no ASCII letter, and its lower case is `k`
    assert_eq!(get_image_format_from_path("x.\u{212a}"), Err(Error::UnsupportedFormat("k".to_string())));
}
