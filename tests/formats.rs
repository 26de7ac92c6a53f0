use rvtf::convert::{convert, resolve_format, source_kind, target_for, Conversion, Source, Target};
use rvtf::error::ConvertError;
use rvtf::format::{format_from_lower, get_format, same_text};

#[test]
fn get_format_known_names() {
    assert_eq!(get_format("png"), Ok(image::ImageFormat::Png));
    assert_eq!(get_format("jpg"), Ok(image::ImageFormat::Jpeg));
    assert_eq!(get_format("webp"), Ok(image::ImageFormat::WebP));
    assert_eq!(get_format("avif"), Ok(image::ImageFormat::Avif));
    assert_eq!(get_format("bmp"), Ok(image::ImageFormat::Bmp));
    assert_eq!(get_format("ico"), Ok(image::ImageFormat::Ico));
    assert_eq!(get_format("tga"), Ok(image::ImageFormat::Tga));
    assert_eq!(get_format("gif"), Ok(image::ImageFormat::Gif));
    assert_eq!(get_format("pnm"), Ok(image::ImageFormat::Pnm));
    assert_eq!(get_format("tiff"), Ok(image::ImageFormat::Tiff));
    assert_eq!(get_format("hdr"), Ok(image::ImageFormat::Hdr));
    assert_eq!(get_format("ff"), Ok(image::ImageFormat::Farbfeld));
}

#[test]
fn get_format_ignores_case() {
    assert_eq!(get_format("PNG"), Ok(image::ImageFormat::Png));
    assert_eq!(get_format("Tiff"), Ok(image::ImageFormat::Tiff));
    assert_eq!(get_format("jPg"), Ok(image::ImageFormat::Jpeg));
}

#[test]
fn get_format_unknown_name() {
    assert_eq!(get_format("xyz"), Err(ConvertError::UnsupportedFormat("xyz".to_string())));
    assert_eq!(get_format("jpeg"), Err(ConvertError::UnsupportedFormat("jpeg".to_string())));
    assert_eq!(get_format("XYZ"), Err(ConvertError::UnsupportedFormat("XYZ".to_string())));
    assert_eq!(get_format(""), Err(ConvertError::UnsupportedFormat(String::new())));
}

#[test]
fn format_from_lower_is_exact() {
    assert_eq!(format_from_lower("ff"), Some(image::ImageFormat::Farbfeld));
    assert_eq!(format_from_lower("FF"), None);
    assert_eq!(format_from_lower("vtf"), None);
}

#[test]
fn same_text_compares_characters() {
    assert!(same_text("vtf", "vtf"));
    assert!(!same_text("vtf", "vtF"));
    assert!(!same_text("vtf", "vtfs"));
    assert!(same_text("", ""));
}

#[test]
fn directory_request_needs_format() {
    assert_eq!(convert(true, true, &None), Err(ConvertError::MissingFormat));
    assert_eq!(
        convert(true, true, &Some("png".to_string())),
        Ok(Conversion::Directory("png".to_string()))
    );
}

#[test]
fn file_request_when_not_both_directories() {
    assert_eq!(convert(true, false, &None), Ok(Conversion::File(None)));
    assert_eq!(convert(false, true, &None), Ok(Conversion::File(None)));
    assert_eq!(
        convert(false, false, &Some("bmp".to_string())),
        Ok(Conversion::File(Some("bmp".to_string())))
    );
}

#[test]
fn resolve_format_prefers_explicit() {
    assert_eq!(resolve_format(&Some("jpg".to_string()), "out.png"), Ok("jpg".to_string()));
    assert_eq!(resolve_format(&None, "dir/out.PNG"), Ok("PNG".to_string()));
    assert_eq!(resolve_format(&None, "dir/out"), Err(ConvertError::NoExtension));
    assert_eq!(resolve_format(&None, "dir/.hidden"), Err(ConvertError::NoExtension));
}

#[test]
fn source_kind_by_extension() {
    assert_eq!(source_kind("textures/wall.vtf"), Source::Vtf);
    assert_eq!(source_kind("textures/wall.VTF"), Source::Raster);
    assert_eq!(source_kind("textures/wall.png"), Source::Raster);
    assert_eq!(source_kind("textures/vtf"), Source::Raster);
}

#[test]
fn target_for_names() {
    assert_eq!(target_for("vtf"), Ok(Target::Vtf));
    assert_eq!(target_for("Gif"), Ok(Target::Raster(image::ImageFormat::Gif)));
    assert_eq!(target_for("VTF"), Err(ConvertError::UnsupportedFormat("VTF".to_string())));
    assert_eq!(target_for("xyz"), Err(ConvertError::UnsupportedFormat("xyz".to_string())));
}
