use pixly_kernel::conversion_validator::{
    ConversionConfig, ConversionMode, ConversionValidator, FileProbe, InputFile, ValidationResult,
};
use pixly_kernel::validation_integration::{ConversionFlowValidator, FormatSpecificChecks, Severity, ValidationDisplay};

fn input(name: &str, ext: &str, size: u64, animated: bool) -> InputFile {
    InputFile {
        file_path: format!("/tmp/{}", name),
        name: name.to_string(),
        ext: ext.to_string(),
        size,
        is_animated: animated,
    }
}

fn present() -> FileProbe {
    FileProbe { exists: true, metadata_error: None }
}

#[test]
fn test_validate_invalid_format() {
    let config = ConversionConfig { format: "invalid".to_string(), quality: Some(80), speed: Some(4), lossless: false };
    let result = ConversionValidator::validate_parameters(&config, &[]);
    assert!(!result.valid);
    assert_eq!(result.level, 2);
    assert!(result.errors.iter().any(|e| e.contains("Invalid target format")));
}

#[test]
fn test_validate_quality_range() {
    let config = ConversionConfig { format: "webp".to_string(), quality: Some(150), speed: Some(4), lossless: false };
    let result = ConversionValidator::validate_parameters(&config, &[]);
    assert!(!result.valid);
    assert!(result.errors.iter().any(|e| e.contains("Invalid quality parameter")));
}

#[test]
fn test_validate_jpeg_lossless() {
    let config = ConversionConfig { format: "jpeg".to_string(), quality: Some(90), speed: Some(4), lossless: true };
    let result = ConversionValidator::validate_parameters(&config, &[]);
    assert!(!result.valid);
    assert!(result.errors.iter().any(|e| e.contains("JPEG format does not support lossless mode")));
}

#[test]
fn test_validate_empty_files() {
    let files: Vec<InputFile> = vec![];
    let result = ConversionValidator::validate_input_files(&files, &[]);
    assert!(!result.valid);
    assert_eq!(result.level, 1);
    assert!(!result.errors.is_empty());
}

#[test]
fn test_validate_valid_files() {
    let files = vec![input("test.png", ".png", 1024, false)];
    let result = ConversionValidator::validate_input_files(&files, &[present()]);
    assert!(result.valid);
    assert_eq!(result.level, 1);
}

#[test]
fn test_validate_heic_transparency_warning() {
    let files = vec![input("test.png", ".png", 1024, false)];
    let config = ConversionConfig { format: "heic".to_string(), quality: Some(80), speed: Some(4), lossless: false };
    let result = ConversionValidator::validate_parameters(&config, &files);
    assert!(result.valid);
    assert!(result.warnings.iter().any(|w| w.contains("HEIC does not support transparency")));
}

#[test]
fn test_full_validation_success() {
    let files = vec![input("test.png", ".png", 1024, false)];
    let config = ConversionConfig { format: "webp".to_string(), quality: Some(80), speed: Some(4), lossless: false };
    let result = ConversionValidator::validate_full_conversion(&files, &[present()], &config, ConversionMode::Manual);
    assert!(result.valid);
    assert_eq!(result.level, 3);
}

#[test]
fn input_file_messages_are_exact() {
    let files = vec![
        InputFile { file_path: String::new(), name: "a<b.png".to_string(), ext: String::new(), size: 0, is_animated: false },
        input("big.png", ".png", 3 * 1024 * 1024 * 1024 / 2, false),
    ];
    let probes = vec![
        FileProbe { exists: false, metadata_error: None },
        FileProbe { exists: true, metadata_error: Some("denied".to_string()) },
    ];
    let r = ConversionValidator::validate_input_files(&files, &probes);
    assert!(!r.valid);
    assert_eq!(
        r.errors,
        vec![
            "❌ File #1: Invalid file path".to_string(),
            "❌ File #1 (a<b.png): Missing file extension".to_string(),
            "❌ File #1 (a<b.png): File does not exist".to_string(),
            "❌ File #2 (big.png): Cannot read file metadata: denied".to_string(),
        ]
    );
    assert_eq!(
        r.warnings,
        vec![
            "⚠️ File #1 (a<b.png): File size is 0".to_string(),
            "⚠️ File #1 (a<b.png): Filename contains illegal characters".to_string(),
            "⚠️ File #2 (big.png): File too large (1.50 GB)".to_string(),
        ]
    );
}

#[test]
fn size_with_two_decimals_matches_float_formatting() {
    let sizes: [u64; 8] = [
        1073741825,
        1073741824 + 5368709,
        1073741824 + 5368709 * 2,
        1610612736,
        1073741824 * 3 / 2 + 5368709,
        1073741824 * 7 / 4,
        1073741824 + 10737418 / 2,
        2147483648 + 1234567,
    ];
    for s in sizes.iter() {
        let f = vec![input("x.png", ".png", *s, false)];
        let r = ConversionValidator::validate_input_files(&f, &[present()]);
        let expected = format!("⚠️ File #1 (x.png): File too large ({:.2} GB)", *s as f64 / (1024.0 * 1024.0 * 1024.0));
        assert_eq!(r.warnings, vec![expected]);
    }
}

#[test]
fn parameter_errors_and_warnings_in_order() {
    let files = vec![input("a.gif", ".GIF", 10, true)];
    let config = ConversionConfig { format: "HEIC".to_string(), quality: Some(0), speed: Some(11), lossless: false };
    let r = ConversionValidator::validate_parameters(&config, &files);
    assert_eq!(
        r.errors,
        vec![
            "❌ Invalid quality parameter: 0 (should be 1-100)".to_string(),
            "❌ Invalid speed parameter: 11 (should be 0-10)".to_string(),
        ]
    );
    assert_eq!(
        r.warnings,
        vec![
            "⚠️ HEIC does not support transparency, transparent backgrounds may change color".to_string(),
            "⚠️ HEIC does not support animation, animation effects will be lost".to_string(),
        ]
    );
    let jxl = ConversionConfig { format: "jpegxl".to_string(), quality: Some(50), speed: None, lossless: false };
    let r = ConversionValidator::validate_parameters(&jxl, &[]);
    assert_eq!(r.errors, vec!["❌ Invalid target format: jpegxl".to_string()]);
    assert_eq!(r.warnings, vec!["⚠️ JXL quality parameter is low (50), may affect visual quality".to_string()]);
}

#[test]
fn mode_consistency_results() {
    let config = ConversionConfig { format: String::new(), quality: None, speed: None, lossless: false };
    let r = ConversionValidator::validate_mode_consistency(ConversionMode::Manual, &config);
    assert!(!r.valid);
    assert_eq!(r.level, 3);
    assert_eq!(r.errors, vec!["❌ Target format must be specified in manual mode".to_string()]);
    assert_eq!(r.warnings, vec!["⚠️ Quality parameter not set in manual mode, will use default value".to_string()]);
    let r = ConversionValidator::validate_mode_consistency(ConversionMode::AI, &config);
    assert!(r.valid);
    assert_eq!(r.warnings, vec!["⚠️ Smart mode will use AI predicted parameters".to_string()]);
}

#[test]
fn full_validation_stops_at_first_failing_level_with_earlier_warnings() {
    let files = vec![input("a.png", ".png", 0, false)];
    let config = ConversionConfig { format: "bmp".to_string(), quality: Some(80), speed: None, lossless: false };
    let r = ConversionValidator::validate_full_conversion(&files, &[present()], &config, ConversionMode::Smart);
    assert!(!r.valid);
    assert_eq!(r.level, 2);
    assert_eq!(r.errors, vec!["❌ Invalid target format: bmp".to_string()]);
    assert_eq!(r.warnings, vec!["⚠️ File #1 (a.png): File size is 0".to_string()]);
}

#[test]
fn result_builders() {
    let s = ValidationResult::success(4);
    assert!(s.valid && s.level == 4 && s.errors.is_empty() && s.warnings.is_empty());
    let f = ValidationResult::failure(2, vec!["e".to_string()]).with_warnings(vec!["w".to_string()]);
    assert!(!f.valid && f.level == 2);
    assert_eq!(f.errors, vec!["e".to_string()]);
    assert_eq!(f.warnings, vec!["w".to_string()]);
}

#[test]
fn test_format_specific_checks_webp() {
    let files = vec![input("test.png", ".png", 20 * 1024 * 1024, false)];
    let config = ConversionConfig { format: "webp".to_string(), quality: Some(60), speed: Some(4), lossless: false };
    let warnings = FormatSpecificChecks::check_webp(&files, &config);
    assert!(!warnings.is_empty());
    assert!(warnings.iter().any(|w| w.contains("large")));
    assert!(warnings.iter().any(|w| w.contains("quality setting is low")));
    assert_eq!(warnings[0], "⚠️ File test.png is large (20.00 MB), WebP encoding may be slow");
}

#[test]
fn test_format_specific_checks_avif() {
    let files = vec![input("test.gif", ".gif", 1024, true)];
    let config = ConversionConfig { format: "avif".to_string(), quality: Some(80), speed: Some(8), lossless: false };
    let warnings = FormatSpecificChecks::check_avif(&files, &config);
    assert!(!warnings.is_empty());
    assert!(warnings.iter().any(|w| w.contains("animation")));
    assert!(warnings.iter().any(|w| w.contains("speed setting is high")));
}

#[test]
fn test_format_specific_checks_jxl() {
    let files = vec![input("test.jpg", ".jpg", 1024, false)];
    let config = ConversionConfig { format: "jxl".to_string(), quality: Some(50), speed: Some(4), lossless: false };
    let warnings = FormatSpecificChecks::check_jxl(&files, &config);
    assert!(!warnings.is_empty());
    assert!(warnings.iter().any(|w| w.contains("JPEG") || w.contains("quality")));
}

#[test]
fn check_all_dispatches_on_format() {
    let files = vec![input("big.png", ".png", 11 * 1024 * 1024, false)];
    let png = ConversionConfig { format: "PNG".to_string(), quality: None, speed: None, lossless: false };
    assert_eq!(
        FormatSpecificChecks::check_all(&files, &png),
        vec!["⚠️ File big.png is large (11.00 MB), PNG compression may take longer".to_string()]
    );
    let other = ConversionConfig { format: "bmp".to_string(), quality: Some(1), speed: None, lossless: false };
    assert!(FormatSpecificChecks::check_all(&files, &other).is_empty());
    let avif = ConversionConfig { format: "avif".to_string(), quality: None, speed: None, lossless: false };
    let huge = vec![input("h.png", ".png", 48_000_003, false)];
    assert_eq!(
        FormatSpecificChecks::check_avif(&huge, &avif),
        vec!["⚠️ File h.png has high resolution, AVIF encoding may take longer".to_string()]
    );
}

#[test]
fn test_validation_display() {
    let result = ValidationResult { valid: true, level: 3, errors: vec![], warnings: vec!["Test warning".to_string()] };
    let lines = ValidationDisplay::display_result(&result);
    assert_eq!(lines.len(), 4);
    assert_eq!(lines[3].text, " Test warning");
    assert_eq!(ValidationDisplay::display_summary(&result), "✅ ⚠️ 1 warnings ");
    let report = ValidationDisplay::display_detailed_report(&result);
    assert_eq!(report[0].text, format!("\n{}", "═".repeat(60)));
    assert_eq!(report[3].text, "Status: Passed ✅");
    assert_eq!(report[6].text, " 1. Test warning");
    assert_eq!(report.len(), 8);
}

#[test]
fn failed_result_lines() {
    let result = ValidationResult {
        valid: false,
        level: 2,
        errors: vec!["bad".to_string()],
        warnings: vec!["careful".to_string()],
    };
    let lines = ValidationDisplay::display_result(&result);
    let texts: Vec<(Severity, String)> = lines.into_iter().map(|l| (l.severity, l.text)).collect();
    assert_eq!(
        texts,
        vec![
            (Severity::Error, "❌ Validation failed".to_string()),
            (Severity::Error, " Failed at level: Level 2".to_string()),
            (Severity::Error, "\nErrors:".to_string()),
            (Severity::Error, " bad".to_string()),
            (Severity::Warn, "\nWarnings:".to_string()),
            (Severity::Warn, " careful".to_string()),
        ]
    );
}

#[test]
fn batch_validates_each_file_alone() {
    let paths = vec!["a.png".to_string(), "b".to_string()];
    let files = vec![Some(input("a.png", ".png", 10, false)), Some(input("b", "", 10, false))];
    let probes = vec![present(), present()];
    let results = ConversionFlowValidator::validate_batch(&paths, &files, &probes, "webp", Some(80), None, false).unwrap();
    assert_eq!(results.len(), 2);
    assert!(results[0].valid && results[0].level == 3);
    assert!(!results[1].valid && results[1].level == 1);
    assert_eq!(results[1].errors, vec!["❌ File #1 (b): Missing file extension".to_string()]);
}

#[test]
fn batch_fails_on_first_unreadable_file() {
    let paths = vec!["a.png".to_string(), "gone.png".to_string(), "also_gone.png".to_string()];
    let files = vec![Some(input("a.png", ".png", 10, false)), None, None];
    let probes = vec![present(), present(), present()];
    let r = ConversionFlowValidator::validate_batch(&paths, &files, &probes, "webp", Some(80), None, false);
    assert_eq!(r.unwrap_err(), "Cannot read file: gone.png");
    let none: Vec<String> = Vec::new();
    let r = ConversionFlowValidator::validate_batch(&none, &[], &[], "webp", None, None, false);
    assert!(r.unwrap().is_empty());
}
