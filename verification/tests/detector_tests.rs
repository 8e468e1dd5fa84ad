use pixly_kernel::file_detector::FileDetector;
use pixly_kernel::validation_integration::ConversionFlowValidator;
use pixly_kernel::preprocessing::parse_u32;
use pixly_kernel::progress::{state_after_update, ConsoleProgressCallback, ProgressState};

const PNG: [u8; 16] = [0x89, b'P', b'N', b'G', 0x0D, 0x0A, 0x1A, 0x0A, 0, 0, 0, 0x0D, b'I', b'H', b'D', b'R'];
const JPEG: [u8; 4] = [0xFF, 0xD8, 0xFF, 0xE0];

#[test]
fn test_file_detector_creation() {
    let detector = FileDetector::with_defaults();
    assert_eq!(f64::from_bits(detector.min_confidence()), 0.9);
    assert!(!detector.strict_mode());
}

#[test]
fn test_extension_matches() {
    let detector = FileDetector::with_defaults();
    assert!(detector.extension_matches_type("jpg", "jpeg"));
    assert!(detector.extension_matches_type("jpeg", "jpg"));
    assert!(detector.extension_matches_type("png", "png"));
    assert!(!detector.extension_matches_type("png", "jpg"));
}

#[test]
fn detector_detects_from_bytes() {
    let d = FileDetector::with_defaults();
    let r = d.detect_file_type("photo.jpg", &PNG);
    assert_eq!(r.detected_type, "png");
    assert_eq!(f64::from_bits(r.confidence_bits), 0.95);
    assert!(r.is_high_confidence);
    assert_eq!(r.mime_type.as_deref(), Some("image/png"));
    assert_eq!(r.description.as_deref(), Some("File type: png"));
    assert!(r.is_binary);
    let r = d.detect_file_type("notes.txt", b"hello");
    assert_eq!(r.detected_type, "txt");
    assert_eq!(r.mime_type, None);
    let r = d.detect_file_type("blob", b"hello");
    assert_eq!(r.detected_type, "unknown");
    assert_eq!(f64::from_bits(r.confidence_bits), 0.1);
    assert!(!r.is_high_confidence);
    assert!(d.is_image_file("x", &JPEG));
    assert!(!d.is_video_file("x", &JPEG));
    assert_eq!(d.detect_mime_type("x", &JPEG).as_deref(), Some("image/jpeg"));
}

#[test]
fn detector_security_verdicts() {
    let lax = FileDetector::with_defaults();
    let v = lax.validate_security("fake.JPG", &PNG, None);
    assert!(!v.type_match);
    assert!(v.is_suspicious);
    assert!(v.is_safe);
    assert_eq!(v.detected_type, "png");
    assert_eq!(v.warnings, vec!["File type mismatch: extension suggests Some(\"jpg\"), but detected as png".to_string()]);
    let strict = FileDetector::new(0.9f64.to_bits(), true);
    let v = strict.validate_security("fake.jpg", &PNG, None);
    assert!(!v.is_safe);
    let v = strict.validate_security("real.png", &PNG, Some("png"));
    assert!(v.type_match && v.is_safe && v.warnings.is_empty());
    assert_eq!(v.expected_extension.as_deref(), Some("png"));
    let v = strict.validate_security("blob", b"zz", None);
    assert!(v.type_match);
    assert_eq!(v.warnings, vec!["Low confidence detection: 0.10".to_string()]);
    let picky = FileDetector::new(0.99f64.to_bits(), true);
    let v = picky.validate_security("a.gif", &PNG, None);
    assert!(!v.is_suspicious);
    assert!(v.is_safe);
    assert_eq!(v.warnings, vec!["Low confidence detection: 0.95".to_string()]);
}

#[test]
fn progress_state_moves() {
    assert_eq!(state_after_update(ProgressState::Preparing, 25, 100), ProgressState::Running);
    assert_eq!(state_after_update(ProgressState::Running, 100, 100), ProgressState::Completed);
    assert_eq!(state_after_update(ProgressState::Paused, 5, 100), ProgressState::Paused);
    assert_eq!(state_after_update(ProgressState::Preparing, 0, 0), ProgressState::Completed);
}

#[test]
fn progress_duration_text() {
    assert_eq!(ConsoleProgressCallback::format_duration(999), "0s");
    assert_eq!(ConsoleProgressCallback::format_duration(59_000), "59s");
    assert_eq!(ConsoleProgressCallback::format_duration(123_000), "2m3s");
    assert_eq!(ConsoleProgressCallback::format_duration(3_900_000), "1h5m");
    let mut c = ConsoleProgressCallback::new(true);
    assert!(c.verbose());
    let _ = c.should_update();
}

#[test]
fn animation_heuristic() {
    assert!(ConversionFlowValidator::detect_animation_heuristic(Some(" 12\n"), ".png"));
    assert!(!ConversionFlowValidator::detect_animation_heuristic(Some("1\n"), ".gif"));
    assert!(ConversionFlowValidator::detect_animation_heuristic(Some("N/A\n"), ".GIF"));
    assert!(ConversionFlowValidator::detect_animation_heuristic(None, ".webp"));
    assert!(!ConversionFlowValidator::detect_animation_heuristic(None, ".png"));
    assert_eq!(parse_u32("+7"), Some(7));
    assert_eq!(parse_u32("4294967296"), None);
    assert_eq!(parse_u32(""), None);
}

#[test]
fn progress_interval_passes_at_its_length() {
    assert!(ConsoleProgressCallback::interval_passed(100, 100));
    assert!(ConsoleProgressCallback::interval_passed(250, 100));
    assert!(!ConsoleProgressCallback::interval_passed(99, 100));
}
