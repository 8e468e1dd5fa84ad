use pixly_kernel::format_optimizer::{FormatOptimizer, ToolSet};
use pixly_kernel::gif_animation_strategy::{AnimatedGifStrategy, WebpTool};
use pixly_kernel::gif_handler::{FrameOptimization, GifOptimizationConfig, GifOptimizer};
use pixly_kernel::gif_optimizer;
use pixly_kernel::image_analyzer::{FFProbeStream, ImageAnalyzer};
use pixly_kernel::managed_memory::MemoryManager as PoolManager;
use pixly_kernel::media_analyzer::{MediaAnalyzer, MediaType};
use pixly_kernel::metadata_processor::MetadataProcessor;
use pixly_kernel::modern_formats::{AVIFParams, FormatSupport, HEICParams, JXLParams, ModernFormatConverter, WebPParams};
use pixly_kernel::preprocessing::{color_distance, find_closest_color, generate_palette, parse_dimensions, sample_colors, FilterType};

#[test]
fn gif_handler_test_default_config() {
    let config = GifOptimizationConfig::default();
    assert_eq!(config.color_optimization, 2);
    assert!(!config.lossy_compression);
}

#[test]
fn test_gifsicle_level() {
    assert_eq!(FrameOptimization::NoOptimization.gifsicle_level(), "O1");
    assert_eq!(FrameOptimization::Balanced.gifsicle_level(), "O3");
}

#[test]
fn gifsicle_arguments() {
    assert_eq!(GifOptimizer::with_defaults().build_gifsicle_args(), vec!["-O3".to_string(), "--colors=64".to_string()]);
    assert_eq!(
        GifOptimizer::for_web().build_gifsicle_args(),
        vec!["-O3", "--colors=32", "--lossy=80", "--delay=3", "--resize-width=800"]
            .into_iter()
            .map(String::from)
            .collect::<Vec<_>>()
    );
}

#[test]
fn multi_pass_run_keeps_only_real_gains() {
    let opt = gif_optimizer::GifOptimizer::for_web();
    let s = opt.first_pass(1000);
    let (s, keep) = opt.after_pass(s, gif_optimizer::GifPass::Lossless, 900);
    assert!(keep && s.current_size == 900 && s.next == Some(gif_optimizer::GifPass::Colors));
    assert_eq!(opt.pass_args(gif_optimizer::GifPass::Colors), vec!["-O3", "--colors", "85"]);
    let (s, keep) = opt.after_pass(s, gif_optimizer::GifPass::Colors, 897);
    assert!(!keep && s.current_size == 900 && s.next == Some(gif_optimizer::GifPass::Lossy));
    let (s, keep) = opt.after_pass(s, gif_optimizer::GifPass::Lossy, 800);
    assert!(keep && s.current_size == 800 && s.next == Some(gif_optimizer::GifPass::Iterative(4)));
    let (s, keep) = opt.after_pass(s, gif_optimizer::GifPass::Iterative(4), 700);
    assert!(keep && s.next == Some(gif_optimizer::GifPass::Iterative(5)));
    let (s, keep) = opt.after_pass(s, gif_optimizer::GifPass::Iterative(5), 600);
    assert!(keep && s.next.is_none() && s.current_size == 600 && s.initial_size == 1000);
    assert_eq!(opt.resize_filters(), vec!["fps=30", "scale='min(800,iw):-1:flags=lanczos'"]);
}

#[test]
fn readable_sizes_match_float_formatting() {
    for size in [0u64, 1023, 1024, 1075, 1126, 1536, 1048575, 1048576, 1053818, 5_000_000, 3_145_728].iter() {
        let expected = if *size < 1024 {
            format!("{} B", size)
        } else if *size < 1024 * 1024 {
            format!("{:.1} KB", *size as f64 / 1024.0)
        } else {
            format!("{:.2} MB", *size as f64 / (1024.0 * 1024.0))
        };
        assert_eq!(gif_optimizer::file_size_readable(*size), expected);
    }
}

#[test]
fn optimization_result_savings() {
    let r = gif_optimizer::OptimizationResult { original_size: 100, optimized_size: 60, reduction_percent_bits: 40.0f64.to_bits(), elapsed_ms: 1 };
    assert!(r.is_improved());
    assert_eq!(r.bytes_saved(), 40);
    let r = gif_optimizer::OptimizationResult { original_size: 100, optimized_size: 120, reduction_percent_bits: 0, elapsed_ms: 1 };
    assert_eq!(r.bytes_saved(), 0);
}

#[test]
fn test_classify_size() {
    let analyzer = ImageAnalyzer::with_ffprobe("ffprobe");
    assert_eq!(analyzer.classify_size(60 * 1024 * 1024), "Extremely Large");
    assert_eq!(analyzer.classify_size(15 * 1024 * 1024), "Large");
    assert_eq!(analyzer.classify_size(2 * 1024 * 1024), "Medium");
    assert_eq!(analyzer.classify_size(500 * 1024), "Small");
    assert_eq!(analyzer.classify_size(50 * 1024), "Extremely Small");
}

#[test]
fn size_class_boundaries_match_float_division() {
    let analyzer = ImageAnalyzer::with_ffprobe("ffprobe");
    for s in [104857i64, 104858, 1048575, 1048576, 10485759, 52428800, -5, 0].iter() {
        let mb = *s as f64 / (1024.0 * 1024.0);
        let expected = if mb >= 50.0 {
            "Extremely Large"
        } else if mb >= 10.0 {
            "Large"
        } else if mb >= 1.0 {
            "Medium"
        } else if mb >= 0.1 {
            "Small"
        } else {
            "Extremely Small"
        };
        assert_eq!(analyzer.classify_size(*s), expected, "size {}", s);
    }
}

#[test]
fn test_estimate_bit_depth() {
    let analyzer = ImageAnalyzer::with_ffprobe("ffprobe");
    assert_eq!(analyzer.estimate_bit_depth("yuv420p10le"), 10);
    assert_eq!(analyzer.estimate_bit_depth("yuv420p12le"), 12);
    assert_eq!(analyzer.estimate_bit_depth("yuv420p16le"), 16);
    assert_eq!(analyzer.estimate_bit_depth("yuv420p"), 8);
}

#[test]
fn color_space_and_alpha() {
    let analyzer = ImageAnalyzer::with_ffprobe("ffprobe");
    let s = FFProbeStream { width: 1, height: 1, pix_fmt: "rgba".to_string(), color_space: Some("bt2020nc".to_string()), codec_name: "png".to_string() };
    assert_eq!(analyzer.detect_color_space(&s), "BT.2020");
    assert!(analyzer.has_alpha("rgba"));
    assert!(!analyzer.has_alpha("rgb24"));
    assert_eq!(ImageAnalyzer::pixel_count(0, 5), 0);
    assert_eq!(ImageAnalyzer::pixel_count(4, 5), 20);
}

#[test]
fn test_media_analyzer_creation() {
    let analyzer = MediaAnalyzer::new();
    assert!(analyzer.ai_detection_enabled());
    let analyzer = MediaAnalyzer::with_ai_detection(false);
    assert!(!analyzer.ai_detection_enabled());
}

#[test]
fn test_detect_format() {
    let analyzer = MediaAnalyzer::new();
    assert_eq!(analyzer.detect_format("/tmp/x.jpg").unwrap(), "jpg");
    assert_eq!(analyzer.detect_format("/tmp/noext").unwrap(), "unknown");
    assert!(analyzer.is_animated("a.WEBP").unwrap());
    assert_eq!(analyzer.analysis_route("clip.MKV"), MediaType::Video);
    assert_eq!(analyzer.analysis_route("a.apng"), MediaType::Animation);
    assert_eq!(analyzer.analysis_route("a.bmp"), MediaType::Image);
}

#[test]
fn test_metadata_processor_creation() {
    let processor = MetadataProcessor::new(true, false);
    assert!(processor.preserve_metadata());
    assert!(!processor.strip_sensitive());
    let default_processor = MetadataProcessor::default();
    assert!(default_processor.preserve_metadata());
}

#[test]
fn test_mime_type_detection() {
    let processor = MetadataProcessor::default();
    assert_eq!(processor.detect_mime_type("test.jpg").unwrap(), "image/jpeg");
    assert_eq!(processor.detect_mime_type("test.png").unwrap(), "image/png");
    assert_eq!(processor.detect_mime_type("test.jxl").unwrap(), "image/jxl");
    assert_eq!(processor.detect_mime_type("test.mp4").unwrap(), "video/mp4");
}

#[test]
fn test_metadata_validation() {
    let processor = MetadataProcessor::default();
    assert!(processor.validate_metadata(1024, "image/jpeg").is_ok());
    assert!(processor.validate_metadata(0, "image/jpeg").is_err());
    assert_eq!(processor.validate_metadata(1, ""), Err("Invalid metadata: MIME type is empty".to_string()));
    assert!(processor.should_copy_exif("a.JPG", "b.jpeg"));
    assert!(!processor.should_copy_exif("a.jpg", "b.png"));
}

#[test]
fn test_format_support_query() {
    let support = FormatSupport { avif: true, jxl_ffmpeg: false, jxl_native: true, webp: true };
    assert!(support.supports("webp"));
    assert!(support.supports("avif"));
    assert!(support.supports("jxl"));
    assert!(!support.supports("heic"));
    assert_eq!(support.supported_formats(), vec!["webp", "avif", "jxl"]);
}

#[test]
fn supported_formats_leave_out_missing_webp() {
    let support = FormatSupport { avif: true, jxl_ffmpeg: true, jxl_native: false, webp: false };
    assert!(!support.supports("webp"));
    assert_eq!(support.supported_formats(), vec!["avif", "jxl"]);
    let none = FormatSupport { avif: false, jxl_ffmpeg: false, jxl_native: false, webp: false };
    assert!(none.supported_formats().is_empty());
}

#[test]
fn format_support_from_encoder_listing() {
    let c = ModernFormatConverter::new();
    let s = c.check_format_support(Some(" V....D libsvtav1  SVT-AV1\n V....D libjxl JPEG XL"));
    assert!(s.webp && s.avif && s.jxl_ffmpeg);
    let s = c.check_format_support(None);
    assert!(s.webp && !s.avif && !s.jxl_ffmpeg);
}

#[test]
fn test_avif_params_from_quality() {
    let params = AVIFParams::from_quality(85);
    assert!(params.crf < 20);
    assert!(params.speed >= 2);
}

#[test]
fn avif_crf_matches_float_mapping() {
    for q in 0u8..=100 {
        let expected = ((100 - q) as f64 * 0.63) as u8;
        assert_eq!(AVIFParams::from_quality(q).crf, expected, "quality {}", q);
    }
}

#[test]
fn test_jxl_params_from_quality() {
    let params = JXLParams::from_quality(90);
    assert_eq!(params.quality, 90);
    assert!(params.effort >= 7);
    assert_eq!(f32::from_bits(params.distance_bits), 0.5);
}

#[test]
fn command_lines() {
    let avif = AVIFParams { bit_depth: 10, tiles_cols: 2, ..AVIFParams::default() };
    assert_eq!(
        ModernFormatConverter::avif_args("in.png", "out.avif", &avif),
        vec!["-i", "in.png", "-c:v", "libaom-av1", "-crf", "30", "-cpu-used", "6", "-qmin", "0", "-qmax", "63", "-tiles", "2x1", "-pix_fmt", "yuv420p10le", "-y", "out.avif"]
    );
    let w = WebPParams::from_quality(96);
    assert_eq!(ModernFormatConverter::webp_args("a", "b", &w), vec!["a", "-o", "b", "-lossless", "-m", "6", "-f", "60", "-sharpness", "0"]);
    let h = HEICParams::default();
    assert_eq!(
        ModernFormatConverter::heic_args("a", "b", &h).unwrap(),
        vec!["-i", "a", "-c:v", "libx265", "-tag:v", "hvc1", "-crf", "15", "-pix_fmt", "yuv420p", "-y", "b"]
    );
    let bad = HEICParams { encoder: "x264".to_string(), ..HEICParams::default() };
    assert_eq!(ModernFormatConverter::heic_args("a", "b", &bad), Err("Unsupported HEIC encoder: x264".to_string()));
    assert_eq!(
        ModernFormatConverter::jxl_ffmpeg_args("a", "b", &JXLParams::from_quality(95)),
        vec!["-i", "a", "-c:v", "libjxl", "-q:v", "95", "-effort", "9", "-lossless", "1", "-y", "b"]
    );
}

#[test]
fn test_filter_type_parsing() {
    assert_eq!(FilterType::parse_filter("lanczos3"), Some(FilterType::Lanczos3));
    assert_eq!(FilterType::parse_filter("gaussian"), Some(FilterType::Gaussian));
    assert_eq!(FilterType::parse_filter("invalid"), None);
    assert_eq!(FilterType::parse_filter("Catmull-Rom"), Some(FilterType::CatmullRom));
}

#[test]
fn resize_dimensions() {
    assert_eq!(parse_dimensions("1920x1080"), Some((1920, 1080)));
    assert_eq!(parse_dimensions("1920x"), Some((1920, 0)));
    assert_eq!(parse_dimensions("x1080"), Some((0, 1080)));
    assert_eq!(parse_dimensions("x"), Some((0, 0)));
    assert_eq!(parse_dimensions("invalid"), None);
    assert_eq!(parse_dimensions("1x2x3"), None);
    assert_eq!(parse_dimensions("+5x7"), Some((5, 7)));
    assert_eq!(parse_dimensions("4294967296x1"), None);
    assert_eq!(parse_dimensions("4294967295x-1"), None);
}

#[test]
fn quantisation_helpers() {
    assert_eq!(color_distance([0, 0, 0], [255, 255, 255]), 3 * 255 * 255);
    let palette = [[10u8, 10, 10], [200, 200, 200], [12, 10, 10]];
    assert_eq!(find_closest_color([11, 10, 10], &palette), [10, 10, 10]);
    assert_eq!(find_closest_color([1, 2, 3], &[]), [0, 0, 0]);
    let colors: Vec<[u8; 3]> = (0..10u8).map(|i| [i, i, i]).collect();
    assert_eq!(generate_palette(&colors, 3), vec![[0, 0, 0], [3, 3, 3], [6, 6, 6]]);
    assert_eq!(generate_palette(&[], 2), vec![[0, 0, 0], [0, 0, 0]]);
    let pixels: Vec<[u8; 3]> = (0..25000u32).map(|i| [(i % 256) as u8, 0, 0]).collect();
    let s = sample_colors(&pixels);
    assert_eq!(s.len(), 12500);
    assert_eq!(s[1], [2, 0, 0]);
}

#[test]
fn test_optimizer_creation() {
    let optimizer = FormatOptimizer::with_defaults();
    assert_eq!(optimizer.config().quality, 85);
    assert_eq!(optimizer.config().optimization_level, 3);
}

#[test]
fn optimizer_tools() {
    let none = ToolSet { oxipng: false, optipng: false, cjpegli: false, jpegtran: true, cwebp: false };
    assert_eq!(FormatOptimizer::supported_formats(&none), vec!["jpg", "jpeg"]);
    assert_eq!(FormatOptimizer::check_tools_for_format("jpeg", &none), Ok("jpegtran".to_string()));
    assert_eq!(FormatOptimizer::check_tools_for_format("png", &none), Err("PNG optimizer not found (oxipng/optipng)".to_string()));
    assert!(!FormatOptimizer::is_available_for_format("gif", &none));
    let o = FormatOptimizer::with_defaults();
    assert_eq!(o.png_args("oxipng", "i", "o").unwrap(), vec!["-o3", "--strip", "safe", "i", "-out", "o"]);
    assert_eq!(o.jpeg_args("mozjpeg", "i", "o"), Err("Unknown JPEG tool: mozjpeg".to_string()));
}

#[test]
fn gif_animation_strategy_test_supported_formats() {
    let strategy = AnimatedGifStrategy::new();
    let formats = strategy.supported_formats();
    assert!(formats.contains(&"webp".to_string()));
    assert!(formats.contains(&"avif".to_string()));
}

#[test]
fn gif_strategy_tools() {
    let s = AnimatedGifStrategy::new();
    assert_eq!(s.webp_tool(false, true), Ok(WebpTool::Ffmpeg));
    assert!(s.webp_tool(false, false).is_err());
    assert_eq!(s.gif2webp_args("a.gif", "b.webp", 80), vec!["-q", "80", "-m", "6", "a.gif", "-o", "b.webp"]);
    assert_eq!(s.ffmpeg_avif_args("a", "b", 4)[5], "61");
}

#[test]
fn pool_allocation_and_release() {
    let mut m = PoolManager::new(8 * 1024 * 1024).unwrap();
    let a = m.allocate(10).unwrap();
    assert_eq!(a.size(), 4 * 1024 * 1024);
    let b = m.allocate(10).unwrap();
    let mut c = m.allocate(100).unwrap();
    assert_eq!(c.size(), 100);
    let s = m.get_stats();
    assert_eq!((s.total_allocations, s.cache_hits, s.cache_misses, s.active_allocations, s.peak_usage), (3, 2, 1, 3, 3));
    assert!(c.write_data(&[1, 2, 3]).is_ok());
    assert_eq!(c.read_data(4).unwrap(), &[1, 2, 3, 0]);
    assert_eq!(c.write_data(&[0; 101]), Err("Data size 101 exceeds memory block size 100".to_string()));
    assert_eq!(c.read_data(101).err(), Some("Read length 101 exceeds memory block size 100".to_string()));
    m.release(a);
    m.release(b);
    m.release(c);
    let s = m.get_stats();
    assert_eq!((s.active_allocations, s.peak_usage), (0, 3));
    m.warmup();
    assert_eq!(m.get_stats().total_allocations, 8);
}

#[test]
fn test_format_support_check() {
    let converter = ModernFormatConverter::new();
    // ffmpeg's encoder list is not read here; WebP is supported regardless
    let support = converter.check_format_support(None);
    assert!(support.webp);
    println!("Supported formats: {:?}", support.supported_formats());
}

#[test]
fn format_optimizer_test_supported_formats() {
    // a machine with every optimiser installed
    let tools = ToolSet { oxipng: true, optipng: true, cjpegli: true, jpegtran: true, cwebp: true };
    let formats = FormatOptimizer::supported_formats(&tools);
    assert!(!formats.is_empty());
}

#[test]
fn jxl_native_arguments() {
    let p = JXLParams::default();
    let d = f32::from_bits(p.distance_bits).to_string();
    assert_eq!(
        ModernFormatConverter::jxl_native_args("in.png", "out.jxl", &p, &d),
        vec![
            "in.png", "out.jxl", "--quality", "85", "--effort", "7", "--progressive", "--responsive", "1",
            "--gaborish=1", "--distance", "1", "--patches", "1"
        ]
    );
    let mut q = JXLParams::from_quality(96);
    q.modular = true;
    q.gaborish = false;
    q.photon_noise = 3;
    q.decoding_speed = 2;
    q.bit_depth = 10;
    q.color_space = "Rec2020".to_string();
    q.patches = 0;
    let d = f32::from_bits(q.distance_bits).to_string();
    assert_eq!(
        ModernFormatConverter::jxl_native_args("a", "b", &q, &d),
        vec![
            "a", "b", "--lossless", "--effort", "9", "--modular", "--progressive", "--responsive", "1", "--gaborish=0",
            "--photon_noise", "3", "--decoding_speed", "2", "--bits_per_sample", "10", "--color_space", "Rec2020"
        ]
    );
    let mut r = JXLParams::default();
    r.color_space = "sRGB".to_string();
    r.bit_depth = 8;
    r.distance_bits = 0.0f32.to_bits();
    let args = ModernFormatConverter::jxl_native_args("a", "b", &r, "0");
    assert!(!args.contains(&"--distance".to_string()));
    assert!(!args.contains(&"--color_space".to_string()));
    assert!(!args.contains(&"--bits_per_sample".to_string()));
}

#[test]
fn analyzer_uses_the_program_found_or_plain_ffprobe() {
    let found = ImageAnalyzer::from_lookup(Some("/opt/bin/ffprobe".to_string()));
    assert_eq!(found.ffprobe_path(), "/opt/bin/ffprobe");
    assert_eq!(ImageAnalyzer::from_lookup(None).ffprobe_path(), "ffprobe");
}
