use pixly_kernel::formats::{detect_format_from_extension, get_supported_formats, FormatConfig, SupportedFormat};
use pixly_kernel::paths::{extension, file_name, file_stem};

#[test]
fn test_format_parsing() {
    assert_eq!(SupportedFormat::parse_format("jpg"), Some(SupportedFormat::Jpeg));
    assert_eq!(SupportedFormat::parse_format("jpeg"), Some(SupportedFormat::Jpeg));
    assert_eq!(SupportedFormat::parse_format("png"), Some(SupportedFormat::Png));
    assert_eq!(SupportedFormat::parse_format("webp"), Some(SupportedFormat::WebP));
    assert_eq!(SupportedFormat::parse_format("avif"), Some(SupportedFormat::Avif));
    assert_eq!(SupportedFormat::parse_format("jxl"), Some(SupportedFormat::Jxl));
    assert_eq!(SupportedFormat::parse_format("unknown"), None);
}

#[test]
fn test_format_properties() {
    let jpeg = SupportedFormat::Jpeg;
    assert_eq!(jpeg.extension(), "jpg");
    assert_eq!(jpeg.mime_type(), "image/jpeg");
    assert_eq!(jpeg.to_string(), "JPEG");
    assert!(!jpeg.supports_lossless());
    assert!(!jpeg.supports_animation());
    assert!(!jpeg.supports_alpha());

    let webp = SupportedFormat::WebP;
    assert!(webp.supports_lossless());
    assert!(webp.supports_animation());
    assert!(webp.supports_alpha());
}

#[test]
fn test_supported_formats_list() {
    let formats = get_supported_formats();
    assert_eq!(formats.len(), 6);
    assert!(formats.iter().all(|f| f.supported));
}

#[test]
fn test_detect_format_from_extension() {
    assert_eq!(detect_format_from_extension("test.jpg"), Some(SupportedFormat::Jpeg));
    assert_eq!(detect_format_from_extension("test.PNG"), Some(SupportedFormat::Png));
    assert_eq!(detect_format_from_extension("/path/to/image.webp"), Some(SupportedFormat::WebP));
    assert_eq!(detect_format_from_extension("test.unknown"), None);
}

#[test]
fn format_parsing_ignores_case_and_accepts_aliases() {
    assert_eq!(SupportedFormat::parse_format("JPEG"), Some(SupportedFormat::Jpeg));
    assert_eq!(SupportedFormat::parse_format("JpegXL"), Some(SupportedFormat::Jxl));
    assert_eq!(SupportedFormat::parse_format("GIF"), Some(SupportedFormat::Gif));
    assert_eq!(SupportedFormat::parse_format(""), None);
}

#[test]
fn every_format_parses_back_from_its_extension() {
    for f in SupportedFormat::all() {
        assert_eq!(SupportedFormat::parse_format(f.extension()), Some(f));
    }
}

#[test]
fn format_info_describes_the_format() {
    let info = SupportedFormat::Jxl.info();
    assert_eq!(info.name, "JPEG XL");
    assert_eq!(info.extensions, vec!["jxl".to_string()]);
    assert_eq!(info.mime_type, "image/jxl");
    assert!(info.lossless_capable && info.animation_capable && info.alpha_capable);
    let gif = SupportedFormat::Gif.info();
    assert!(!gif.lossless_capable && gif.animation_capable && gif.alpha_capable);
}

#[test]
fn format_config_default() {
    let c = FormatConfig::default();
    assert_eq!(c.format, SupportedFormat::Jpeg);
    assert_eq!(c.quality, Some(85));
    assert_eq!(c.compression, None);
    assert!(!c.lossless);
}

#[test]
fn detect_format_without_extension() {
    assert_eq!(detect_format_from_extension("Makefile"), None);
    assert_eq!(detect_format_from_extension(".png"), None);
    assert_eq!(detect_format_from_extension("dir.png/"), Some(SupportedFormat::Png));
}

#[test]
fn path_parts_follow_std_path() {
    let cases = [
        "photo.jpg", "/path/to/image.png", "a/b/", "a/b.tar.gz", ".hidden", ".hidden.txt", "x.", "..", ".",
        "/", "", "a/.", "a/..", "dir/./file.txt/", "noext", "a.b/c",
    ];
    for c in cases.iter() {
        let p = std::path::Path::new(c);
        let std_ext = p.extension().map(|e| e.to_str().unwrap().to_string());
        let std_name = p.file_name().map(|e| e.to_str().unwrap().to_string());
        let std_stem = p.file_stem().map(|e| e.to_str().unwrap().to_string());
        assert_eq!(extension(c), std_ext, "extension of {:?}", c);
        assert_eq!(file_name(c), std_name, "file name of {:?}", c);
        assert_eq!(file_stem(c), std_stem, "stem of {:?}", c);
    }
}

#[test]
fn extension_reads_back_as_its_format() {
    for f in SupportedFormat::all() {
        assert_eq!(SupportedFormat::from_lowercase_name(f.extension()), Some(f));
    }
}
