use pixly_kernel::conversion_core::{
    avif_args, get_xmp_sidecar_path, jxl_args, needs_external_decode, output_validation_fails,
    should_convert_animation_to_video, strategy_for, xmp_data_verified, ConfigError, ConversionConfig,
    ConversionStrategy,
};
use pixly_kernel::feature_toggles::{FeatureToggleManager, FeatureToggles};
use pixly_kernel::format_params::{AvifParams, FormatSpecificParams, JxlParams, ParamError};

#[test]
fn conversion_core_test_default_config() {
    let config = ConversionConfig::default();
    assert_eq!(config.quality, 85);
    assert_eq!(config.speed, 4);
    assert!(config.preserve_metadata);
    assert!(!config.merge_xmp_sidecar);
}

#[test]
fn test_xmp_path_generation() {
    assert_eq!(get_xmp_sidecar_path("photo.jpg"), "photo.xmp");
    assert_eq!(get_xmp_sidecar_path("/path/to/image.png"), "/path/to/image.xmp");
}

#[test]
fn xmp_path_follows_set_extension() {
    for p in ["photo.jpg", "a/b.tar.gz", "noext", ".hidden", "dir/", "a/b.c/", "..", "", "x.", "a/./"].iter() {
        let mut expected = std::path::PathBuf::from(p);
        expected.set_extension("xmp");
        assert_eq!(get_xmp_sidecar_path(p), expected.to_str().unwrap(), "for {:?}", p);
    }
}

#[test]
fn config_checks() {
    let mut c = ConversionConfig::default();
    assert!(c.validate().is_ok());
    assert!(!c.is_ai_enabled() && !c.has_advanced_params());
    c.effort = Some(11);
    match c.validate() {
        Err(ConfigError::Invalid(m)) => assert_eq!(m, "Effort must be between 1-10"),
        _ => panic!("effort accepted"),
    }
    c.effort = Some(0);
    match c.validate() {
        Err(ConfigError::Invalid(m)) => assert_eq!(m, "Effort must be between 1-10"),
        _ => panic!("effort 0 accepted"),
    }
    c.effort = Some(1);
    assert!(c.validate().is_ok());
    let mut c = ConversionConfig::from_toggles(FeatureToggles::default());
    assert!(c.is_ai_enabled());
    c.format_specific_params = Some(FormatSpecificParams::Jxl(JxlParams { distance_bits: Some(16.0f32.to_bits()), ..JxlParams::default() }));
    match c.validate() {
        Err(ConfigError::FormatParams(ParamError::JxlDistance(b))) => assert_eq!(f32::from_bits(b), 16.0),
        _ => panic!("distance accepted"),
    }
}

#[test]
fn strategies_and_decisions() {
    assert_eq!(strategy_for("WEBP"), Ok(ConversionStrategy::WebpNative));
    assert_eq!(strategy_for("tif").map(|s| s.name()), Ok("tiff_native"));
    assert_eq!(strategy_for("heic"), Err("Unsupported output format: heic".to_string()));
    assert!(needs_external_decode("in.JXL"));
    assert!(!needs_external_decode("in.png"));
    assert!(should_convert_animation_to_video("gif", 3 * 1024 * 1024, None));
    assert!(should_convert_animation_to_video("webp", 10, Some((801, 600))));
    assert!(!should_convert_animation_to_video("webp", 10, Some((800, 600))));
    assert!(!should_convert_animation_to_video("png", u64::MAX, None));
    assert!(output_validation_fails(false, 4) && !output_validation_fails(false, 3) && !output_validation_fails(true, 5));
    assert!(xmp_data_verified("XMP Toolkit : Image::ExifTool 12.0\n"));
    assert!(!xmp_data_verified("  \n\t"));
    assert!(!xmp_data_verified("Warning: no XMP found"));
}

#[test]
fn encoder_command_lines() {
    let mut c = ConversionConfig::default();
    c.chroma_subsampling = Some("444".to_string());
    c.format_specific_params = Some(FormatSpecificParams::Avif(AvifParams { min_quantizer: Some(5), max_quantizer: None, ..AvifParams::default() }));
    assert_eq!(avif_args("i.png", "o.avif", &c), vec!["--min", "5", "--max", "63", "-s", "4", "-q", "85", "-y", "444", "i.png", "o.avif"]);
    let mut c = ConversionConfig::default();
    c.jxl_gaborish = true;
    assert_eq!(jxl_args("a.JPG", "b.jxl", &c), vec!["a.JPG", "b.jxl", "--effort", "6", "--lossless_jpeg", "0", "--distance", "1.5", "--gaborish=1"]);
    c.lossless = true;
    c.speed = 0;
    assert_eq!(jxl_args("a.png", "b.jxl", &c), vec!["a.png", "b.jxl", "--effort", "9", "--gaborish=1"]);
}

#[test]
fn jxl_distance_matches_float_text() {
    for q in 0u8..=100 {
        let c = ConversionConfig { quality: q, ..ConversionConfig::default() };
        let args = jxl_args("a.png", "b.jxl", &c);
        let expected = ((100 - q) as f32 / 10.0).clamp(0.0, 15.0).to_string();
        assert_eq!(args[5], expected, "quality {}", q);
    }
}

#[test]
fn test_default_toggles() {
    let toggles = FeatureToggles::default();
    assert!(toggles.enable_ai_prediction);
    assert!(toggles.enable_validation);
    assert!(toggles.preserve_metadata);
    assert!(toggles.enable_simd);
    assert_eq!(f32::from_bits(toggles.ai_min_confidence_bits), 0.7);
}

#[test]
fn test_ai_mode() {
    let toggles = FeatureToggles::ai_mode();
    assert!(toggles.enable_ai_prediction);
    assert!(toggles.allow_manual_override);
    assert!(toggles.enable_advanced_params);
}

#[test]
fn test_manual_mode() {
    let toggles = FeatureToggles::manual_mode();
    assert!(!toggles.enable_ai_prediction);
    assert!(toggles.allow_manual_override);
    assert!(toggles.enable_advanced_params);
}

#[test]
fn test_validation() {
    let mut toggles = FeatureToggles::default();
    assert!(toggles.validate().is_ok());
    toggles.ai_min_confidence_bits = 1.5f32.to_bits();
    assert!(toggles.validate().is_err());
    toggles.ai_min_confidence_bits = 0.7f32.to_bits();
    toggles.max_concurrent_conversions = 0;
    assert!(toggles.validate().is_err());
}

#[test]
fn confidence_check_matches_float_comparison() {
    for c in [0.0f32, -0.0, 1.0, 1.0000001, -1e-30, f32::NAN, -f32::NAN, f32::INFINITY, f32::NEG_INFINITY, 0.5].iter() {
        let t = FeatureToggles { ai_min_confidence_bits: c.to_bits(), ..FeatureToggles::default() };
        let refused = *c < 0.0 || *c > 1.0;
        assert_eq!(t.validate().is_err(), refused, "confidence {}", c);
    }
}

#[test]
fn test_manager() {
    let toggles = FeatureToggles::default();
    let mut manager = FeatureToggleManager::new(toggles).unwrap();
    assert!(manager.is_enabled("ai_prediction"));
    manager.override_toggle("ai_prediction", false);
    assert!(!manager.is_enabled("ai_prediction"));
    manager.clear_overrides();
    assert!(manager.is_enabled("ai_prediction"));
}

#[test]
fn manager_lists_and_summary() {
    let mut manager = FeatureToggleManager::new(FeatureToggles::manual_mode()).unwrap();
    manager.override_toggle("experimental", true);
    manager.override_toggle("experimental", false);
    assert!(!manager.is_enabled("experimental"));
    assert!(!manager.is_enabled("nonsense"));
    let enabled = manager.enabled_features();
    assert_eq!(enabled[0], "validation");
    assert_eq!(enabled.len(), 10);
    assert_eq!(
        FeatureToggles::default().summary(),
        "FeatureToggles { AI: true, Validation: true, Metadata: true, SIMD: true, Cache: true }"
    );
    let bad = FeatureToggles { ai_prediction_timeout_secs: 0, ..FeatureToggles::default() };
    assert_eq!(manager.update_toggles(bad).err(), Some("AI prediction timeout must be greater than 0".to_string()));
}
