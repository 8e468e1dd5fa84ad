use pixly_kernel::core_processor::{EncoderChoice, ImageProcessor, ProcessingConfig, ProcessingError};
use pixly_kernel::format_params::{AvifParams, FormatSpecificParams, HeicParams, JxlParams, ParamError, WebPParams};
use pixly_kernel::format_selector::{FormatCompatibilityChecker, FormatSelector};
use pixly_kernel::log_manager::{LogConfig, LogLevel, LogManager};
use pixly_kernel::memory_manager::MemoryManager;
use pixly_kernel::performance::{PerformanceConfig, PerformanceCore, PerformanceStats, CpuInfo, ProcessingPath};

#[test]
fn test_processor_creation() {
    let processor = ImageProcessor::with_defaults();
    assert_eq!(processor.config().quality, 85);
    assert_eq!(processor.config().speed, 5);
}

#[test]
fn test_config_validation() {
    let invalid_config = ProcessingConfig { quality: 0, ..ProcessingConfig::default() };
    assert!(invalid_config.validate().is_err());
    let invalid_config2 = ProcessingConfig { quality: 101, ..ProcessingConfig::default() };
    assert!(invalid_config2.validate().is_err());
    let valid_config = ProcessingConfig::default();
    assert!(valid_config.validate().is_ok());
}

#[test]
fn test_config_default() {
    let config = ProcessingConfig::default();
    assert!(config.preserve_metadata);
    assert_eq!(config.quality, 85);
    assert_eq!(config.speed, 5);
    assert!(!config.enable_profiling);
}

#[test]
fn test_invalid_quality_rejected() {
    let result = ImageProcessor::new(ProcessingConfig { quality: 150, ..ProcessingConfig::default() });
    assert!(result.is_err());
}

#[test]
fn processing_errors_and_encoders() {
    match (ProcessingConfig { speed: 0, ..ProcessingConfig::default() }).validate() {
        Err(e) => assert_eq!(e.to_string(), "Invalid configuration: Speed must be 1-10, got 0"),
        Ok(()) => panic!("speed 0 accepted"),
    }
    let p = ImageProcessor::with_defaults();
    assert_eq!(p.select_encoder("JPG").ok(), Some(EncoderChoice::Jpeg { quality: 85 }));
    assert_eq!(p.select_encoder("webp").ok(), Some(EncoderChoice::WebP));
    match p.select_encoder("tiff") {
        Err(ProcessingError::UnsupportedFormat { format }) => assert_eq!(format, "tiff"),
        _ => panic!("tiff accepted"),
    }
}

#[test]
fn test_webp_params_default() {
    let params = WebPParams::default();
    assert_eq!(params.method, Some(4));
    assert!(params.auto_filter);
    assert!(params.validate().is_ok());
}

#[test]
fn test_avif_params_default() {
    let params = AvifParams::default();
    assert_eq!(params.speed, Some(6));
    assert_eq!(params.chroma_subsampling, Some("420".to_string()));
    assert!(params.validate().is_ok());
}

#[test]
fn test_heic_params_default() {
    let params = HeicParams::default();
    assert_eq!(params.quality, Some(85));
    assert_eq!(params.encoder, Some("x265".to_string()));
    assert!(params.validate().is_ok());
}

#[test]
fn test_jxl_params_default() {
    let params = JxlParams::default();
    assert_eq!(params.effort, Some(7));
    assert_eq!(params.distance_bits.map(f32::from_bits), Some(1.0));
    assert!(params.validate().is_ok());
}

#[test]
fn test_jxl_params_validation() {
    let mut params = JxlParams::default();
    params.effort = Some(10);
    assert!(params.validate().is_err());
    params.effort = Some(7);
    params.distance_bits = Some(20.0f32.to_bits());
    assert!(params.validate().is_err());
}

#[test]
fn jxl_distance_range_matches_float_comparison() {
    for d in [0.0f32, -0.0, 15.0, 14.999, 15.0001, -0.5, f32::NAN, f32::INFINITY, 7.5].iter() {
        let p = JxlParams { distance_bits: Some(d.to_bits()), ..JxlParams::default() };
        let inside = (0.0..=15.0).contains(d);
        match p.validate() {
            Ok(()) => assert!(inside, "{} accepted", d),
            Err(ParamError::JxlDistance(b)) => {
                assert!(!inside);
                assert_eq!(b, d.to_bits());
            }
            Err(ParamError::Invalid(m)) => panic!("unexpected {}", m),
        }
    }
}

#[test]
fn parameter_messages_are_exact() {
    let w = WebPParams { segments: Some(0), ..WebPParams::default() };
    assert_eq!(w.validate(), Err("WebP segments must be 1-4, got 0".to_string()));
    let a = AvifParams { bit_depth: Some(9), ..AvifParams::default() };
    assert_eq!(a.validate(), Err("AVIF bit_depth must be 8/10/12, got 9".to_string()));
    let h = HeicParams { encoder: Some("foo".to_string()), ..HeicParams::default() };
    assert_eq!(h.validate(), Err("HEIC encoder must be x265 or libheif, got foo".to_string()));
    let p = FormatSpecificParams::Avif(AvifParams { tiles_cols: Some(9), ..AvifParams::default() });
    match p.validate() {
        Err(ParamError::Invalid(m)) => assert_eq!(m, "AVIF tiles_cols must be 1-8, got 9"),
        _ => panic!("tiles accepted"),
    }
    assert!(FormatSpecificParams::NoParams.validate().is_ok());
}

#[test]
fn test_format_compatibility() {
    assert!(FormatCompatibilityChecker::supports_transparency("png"));
    assert!(FormatCompatibilityChecker::supports_transparency("webp"));
    assert!(!FormatCompatibilityChecker::supports_transparency("jpeg"));
    assert_eq!(FormatCompatibilityChecker::compression_efficiency("avif"), 10);
    assert_eq!(FormatCompatibilityChecker::compatibility_score("jpeg"), 10);
}

#[test]
fn test_png_to_avif() {
    let selector = FormatSelector::new(false);
    let result = selector.select_best_format("test.png", None);
    assert_eq!(result.recommended_format, "avif");
    assert!(result.confidence_permille > 900);
    assert!(result.estimated_size_change_permille < 0);
}

#[test]
fn test_jpeg_to_jxl() {
    let selector = FormatSelector::new(false);
    let result = selector.select_best_format("test.jpg", None);
    assert_eq!(result.recommended_format, "jxl");
    assert!(result.confidence_permille > 800);
}

#[test]
fn test_risky_jpeg_to_webp() {
    let selector = FormatSelector::new(false);
    let result = selector.select_best_format("test.jpg", Some("webp"));
    assert_eq!(result.recommended_format, "webp");
    assert!(result.confidence_permille < 700);
    assert!(result.reason.contains("⚠️"));
}

#[test]
fn selector_other_cases() {
    let s = FormatSelector::new(true);
    let r = s.select_best_format("movie.XYZ", None);
    assert_eq!(r.recommended_format, "avif");
    assert_eq!(r.reason, "未知格式'xyz'，默认推荐AVIF");
    assert_eq!(r.alternatives, vec!["webp".to_string(), "jxl".to_string()]);
    let r = s.select_best_format("a.png", Some("JPG"));
    assert_eq!(r.recommended_format, "jpg");
    assert_eq!(r.confidence_permille, 500);
    assert_eq!(r.alternatives, vec!["avif".to_string(), "webp".to_string(), "jxl".to_string()]);
    let r = s.select_best_format("a.jpg", Some("avif"));
    assert_eq!(r.confidence_permille, 900);
    assert_eq!(r.reason, "用户指定格式，验证通过");
}

#[test]
fn test_config_modes() {
    let mut manager = LogManager::new();
    manager.set_config(LogConfig::production());
    let config = manager.get_config();
    assert_eq!(config.min_level, LogLevel::Info);
    assert!(!config.dev_mode);
    manager.set_config(LogConfig::development());
    let config = manager.get_config();
    assert_eq!(config.min_level, LogLevel::Debug);
    assert!(config.dev_mode);
}

#[test]
fn test_macros() {
    let manager = LogManager::new();
    let _ = manager.render(LogLevel::Debug, &format!("Debug: {}", "test"), "0.000");
    let _ = manager.render(LogLevel::Info, &format!("Info: {}", "test"), "0.000");
    let _ = manager.render(LogLevel::Warning, &format!("Warning: {}", "test"), "0.000");
    let _ = manager.render(LogLevel::Error, &format!("Error: {}", "test"), "0.000");
}

#[test]
fn test_log_levels() {
    let manager = LogManager::new();
    assert_eq!(manager.render(LogLevel::Debug, "Debug message", "1.000"), None);
    assert_eq!(
        manager.render(LogLevel::Info, "Info message", "1.000"),
        Some("ℹ️ \x1b[32mInfo message\x1b[0m".to_string())
    );
    let mut dev = LogManager::new();
    dev.set_config(LogConfig::development());
    assert_eq!(
        dev.render(LogLevel::Error, "boom", "12.345"),
        Some("[12.345s] [ERROR] ❌ \x1b[31mboom\x1b[0m".to_string())
    );
    assert_eq!(dev.separator(), Some("─".repeat(60)));
    assert_eq!(LogManager::new().separator(), None);
    let header = LogManager::new().header("Hi").unwrap();
    assert_eq!(header[1], format!("║ {:^57} ║", "Hi"));
    assert_eq!(header[0], "\n╔═══════════════════════════════════════════════════════════╗");
}

#[test]
fn test_new_manager() {
    let manager = MemoryManager::new(64 * 1024 * 1024).unwrap();
    assert_eq!(manager.total_size(), 64 * 1024 * 1024);
    assert_eq!(manager.block_size(), 4 * 1024 * 1024);
}

#[test]
fn test_stats() {
    let manager = MemoryManager::new(64 * 1024 * 1024).unwrap();
    let stats = manager.get_stats();
    assert_eq!(stats.total_allocations, 0);
}

#[test]
fn aligned_allocation_rounds_up() {
    let mut manager = MemoryManager::new(0).unwrap();
    let buf = manager.allocate_aligned(100).unwrap();
    assert_eq!(buf.len(), 128);
    assert!(buf.iter().all(|b| *b == 0));
    let buf = manager.allocate_aligned(0).unwrap();
    assert_eq!(buf.len(), 0);
    let s = manager.get_stats();
    assert_eq!((s.total_allocations, s.active_allocations), (2, 2));
}

#[test]
fn test_performance_config_default() {
    let config = PerformanceConfig::default();
    assert!(config.enable_simd);
    assert_eq!(config.worker_threads, 0);
    assert_eq!(config.memory_pool_size_mb, 512);
}

#[test]
fn test_performance_stats_default() {
    let stats = PerformanceStats::default();
    assert_eq!(stats.total_tasks, 0);
    assert_eq!(stats.successful_tasks, 0);
    assert_eq!(stats.simd_usage_count, 0);
}

#[test]
fn task_statistics() {
    let cpu = CpuInfo { cores: 4, logical_cores: 8, supports_avx2: true, supports_avx512: false, supports_neon: false, cache_line_size: 64 };
    let mut core = PerformanceCore::new(PerformanceConfig::default(), cpu);
    assert_eq!(core.estimate_speedup(), 8);
    assert_eq!(core.begin_task(200_000), ProcessingPath::Simd);
    core.end_task(300, true);
    assert_eq!(core.begin_task(10), ProcessingPath::Scalar);
    core.end_task(100, false);
    let s = core.get_stats();
    assert_eq!((s.total_tasks, s.successful_tasks, s.simd_usage_count), (2, 1, 1));
    assert_eq!(s.total_processing_time_ns, 400);
    assert_eq!(s.avg_latency_ns, 200);
    assert!(PerformanceCore::worker_threads_for(&PerformanceConfig::default()) >= 1);
}
