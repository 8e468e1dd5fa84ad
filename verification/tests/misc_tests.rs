use pixly_kernel::paths::components;
use pixly_kernel::format_knowledge::{speed_tenths, MediaType as KnowledgeMedia, Speed};
use pixly_kernel::format_recommender::{AIFormatRecommender, ImageFeatures};
use pixly_kernel::gpu_accelerator::GpuAccelerator;
use pixly_kernel::image_converter::{ConversionConfig, ImageConverter, TargetEncoder};
use pixly_kernel::ml_bridge::{validate_features, StandardFeatures};
use pixly_kernel::model_router::{ModelRouter, ModelType, ModelVersion, RoutingStrategy};
use pixly_kernel::optimization_analyzer::{detect_file_type, detect_format, select_optimal_format, FileType, FormatError};
use pixly_kernel::params::{png_chunk_lengths_fit, AIParameterClient, AnimationProbe, ParamHandler};
use pixly_kernel::ppo_model_enhanced::{
    AudioConversionParams, EnhancedPPOPredictor, ImageConversionParams, MediaType, PPOTrainingData, TrainingSample,
    VideoConversionParams,
};

fn features(alpha: bool, animated: bool, w: u32, h: u32, complexity: f64) -> ImageFeatures {
    ImageFeatures {
        width: w,
        height: h,
        file_size: 2_000_000,
        format: "png".to_string(),
        has_alpha: alpha,
        is_animated: animated,
        complexity_bits: complexity.to_bits(),
    }
}

#[test]
fn test_alpha_format_candidates() {
    let recommender = AIFormatRecommender::new();
    let f = features(true, false, 1920, 1080, 0.6);
    let formats = recommender.get_candidate_formats(&f);
    assert!(formats.contains(&"png".to_string()));
}

#[test]
fn recommender_candidate_lists() {
    let r = AIFormatRecommender::new();
    assert_eq!(r.get_candidate_formats(&features(true, true, 10, 10, 0.5)), vec!["webp", "avif", "png"]);
    assert_eq!(r.get_candidate_formats(&features(false, true, 10, 10, 0.5)), vec!["webp", "avif", "gif"]);
    assert_eq!(r.get_candidate_formats(&features(false, false, 3841, 10, 0.5)), vec!["jxl", "avif", "webp"]);
    assert_eq!(r.get_candidate_formats(&features(false, false, 3840, 2160, 0.29)), vec!["webp", "png", "avif"]);
    assert_eq!(r.get_candidate_formats(&features(false, false, 100, 100, 0.3)), vec!["avif", "webp", "jxl", "jpeg"]);
    assert_eq!(r.get_candidate_formats(&features(false, false, 100, 100, 0.71)), vec!["jxl", "avif", "webp", "jpeg"]);
    assert_eq!(r.get_candidate_formats(&features(false, false, 100, 100, f64::NAN)), vec!["avif", "webp", "jxl", "jpeg"]);
}

#[test]
fn gpu_is_never_available() {
    let g = GpuAccelerator::new().unwrap();
    assert!(!GpuAccelerator::is_available());
    let info = g.get_performance_info();
    assert_eq!(info.adapter_name, "N/A");
    assert_eq!(info.backend, "N/A");
    assert_eq!(info.max_compute_workgroups_x, 0);
}

#[test]
fn image_converter_settings_and_encoders() {
    let c = ConversionConfig::default();
    assert_eq!(c.quality, 75);
    assert_eq!(c.speed, 4);
    assert!(c.preserve_metadata && c.keep_animated);
    let conv = ImageConverter::new(c);
    assert_eq!(conv.config(), c);
    assert_eq!(conv.encoder_for("JPG"), Ok(TargetEncoder::Jpeg));
    assert_eq!(conv.encoder_for("webp"), Ok(TargetEncoder::Webp));
    assert_eq!(conv.encoder_for("Jxl"), Ok(TargetEncoder::Jxl));
    assert_eq!(conv.encoder_for("tiff"), Err("Unsupported format: tiff".to_string()));
    assert_eq!(
        ImageConverter::tool_search_paths("cjxl"),
        vec!["/opt/homebrew/bin/cjxl", "/usr/local/bin/cjxl", "/opt/local/bin/cjxl", "/usr/bin/cjxl"]
    );
}

#[test]
fn parameter_client_routes_by_format() {
    let mut c = AIParameterClient::new("JPEGXL");
    assert_eq!(c.handler(), ParamHandler::Jxl);
    assert!(!c.prefer_quality());
    c.set_prefer_quality(true);
    assert!(c.prefer_quality());
    assert_eq!(AIParameterClient::new("jpg").handler(), ParamHandler::Jpeg);
    assert_eq!(AIParameterClient::new("heic").handler(), ParamHandler::Default);
}

#[test]
fn optimization_format_decisions() {
    assert_eq!(detect_file_type("mkv"), FileType::Video);
    assert_eq!(detect_file_type("gif"), FileType::AnimatedImage);
    assert_eq!(detect_file_type("png"), FileType::Image);
    assert_eq!(detect_format("a/b.PNG", None), Ok("png".to_string()));
    assert_eq!(detect_format("a/b.PNG", Some("WebP")), Ok("webp".to_string()));
    assert_eq!(detect_format("a/b", None), Err(FormatError::NoExtension));
    assert_eq!(select_optimal_format("jpeg"), "jxl");
    assert_eq!(select_optimal_format("apng"), "webp");
    assert_eq!(select_optimal_format("h265"), "h266");
    assert_eq!(select_optimal_format("vp9"), "h265");
    assert_eq!(select_optimal_format("webp"), "jxl");
}

#[test]
fn knowledge_and_model_types() {
    assert_eq!(speed_tenths(Speed::VeryFast), 10);
    assert_eq!(speed_tenths(Speed::VerySlow), 2);
    assert_eq!(KnowledgeMedia::Image, KnowledgeMedia::Image);
    assert_ne!(ModelType::PPO, ModelType::LightGBM);
    match RoutingStrategy::Specific("m1".to_string()) {
        RoutingStrategy::Specific(id) => assert_eq!(id, "m1"),
        _ => panic!("Expected a specific model"),
    }
}

#[test]
fn predictor_default_params() {
    let i = ImageConversionParams::default();
    assert_eq!((i.quality, i.speed, i.lossless), (85, 4, false));
    let v = VideoConversionParams::default();
    assert_eq!((v.bitrate, v.preset.as_str(), v.crf), (1000, "medium", 23));
    let a = AudioConversionParams::default();
    assert_eq!((a.bitrate, a.sample_rate, a.channels), (192, 48000, 2));
    assert_ne!(MediaType::Audio, MediaType::Video);
}

fn model(id: &str, name: &str, version: &str, model_type: ModelType, path: &str, accuracy: f64, latency_ms: f64) -> ModelVersion {
    ModelVersion {
        id: id.to_string(),
        name: name.to_string(),
        version: version.to_string(),
        model_type,
        path: path.to_string(),
        accuracy_bits: accuracy.to_bits(),
        latency_ms_bits: latency_ms.to_bits(),
        enabled: true,
        weight_bits: 1.0f64.to_bits(),
    }
}

#[test]
fn test_model_registration() {
    let mut router = ModelRouter::default();
    router.register_model(model("lgbm_v1", "LightGBM v1", "1.0.0", ModelType::LightGBM, "models/lgbm_v1.txt", 0.95, 5.0));
    assert_eq!(router.list_models().len(), 1);
}

#[test]
fn test_best_accuracy_selection() {
    let mut router = ModelRouter::new(RoutingStrategy::BestAccuracy);
    router.register_model(model("model1", "Model 1", "1.0", ModelType::LightGBM, "model1", 0.90, 10.0));
    router.register_model(model("model2", "Model 2", "2.0", ModelType::PPO, "model2", 0.95, 15.0));
    let selected = router.select_model(None).unwrap();
    assert_eq!(selected.id, "model2");
    assert_eq!(f64::from_bits(selected.accuracy_bits), 0.95);
}

#[test]
fn router_picks_fastest_first_of_equals() {
    let mut router = ModelRouter::new(RoutingStrategy::FastestResponse);
    router.register_model(model("a", "A", "1", ModelType::PPO, "a", 0.5, 20.0));
    router.register_model(model("b", "B", "1", ModelType::PPO, "b", 0.5, 5.0));
    router.register_model(model("c", "C", "1", ModelType::PPO, "c", 0.5, 5.0));
    assert_eq!(router.select_model(None).unwrap().id, "b");
}

#[test]
fn router_best_accuracy_takes_last_of_equals() {
    let mut router = ModelRouter::new(RoutingStrategy::BestAccuracy);
    router.register_model(model("a", "A", "1", ModelType::PPO, "a", 0.9, 1.0));
    router.register_model(model("b", "B", "1", ModelType::PPO, "b", 0.9, 1.0));
    router.register_model(model("c", "C", "1", ModelType::PPO, "c", 0.1, 1.0));
    assert_eq!(router.select_model(None).unwrap().id, "b");
}

#[test]
fn router_round_robin_cycles_enabled_models() {
    let mut router = ModelRouter::new(RoutingStrategy::RoundRobin);
    router.register_model(model("a", "A", "1", ModelType::PPO, "a", 0.5, 1.0));
    router.register_model(model("b", "B", "1", ModelType::PPO, "b", 0.5, 1.0));
    router.register_model(model("c", "C", "1", ModelType::PPO, "c", 0.5, 1.0));
    router.set_model_enabled("b", false);
    let picks: Vec<String> = (0..4).map(|_| router.select_model(None).unwrap().id.clone()).collect();
    assert_eq!(picks, vec!["a", "c", "a", "c"]);
    assert_eq!(router.turn(), 4);
}

#[test]
fn router_specific_and_ab_pick() {
    let mut router = ModelRouter::new(RoutingStrategy::Specific("b".to_string()));
    router.register_model(model("a", "A", "1", ModelType::PPO, "a", 0.5, 1.0));
    router.register_model(model("b", "B", "1", ModelType::PPO, "b", 0.5, 1.0));
    assert_eq!(router.select_model(None).unwrap().id, "b");
    router.set_model_enabled("b", false);
    assert!(router.select_model(None).is_none());
    let mut ab = ModelRouter::new(RoutingStrategy::ABTesting);
    ab.register_model(model("a", "A", "1", ModelType::PPO, "a", 0.5, 1.0));
    ab.register_model(model("b", "B", "1", ModelType::PPO, "b", 0.5, 1.0));
    assert_eq!(ab.select_model(Some(1)).unwrap().id, "b");
    assert_eq!(ab.select_model(Some(7)).unwrap().id, "a");
    assert_eq!(ab.select_model(None).unwrap().id, "a");
}

#[test]
fn router_register_replaces_and_updates_stats() {
    let mut router = ModelRouter::new(RoutingStrategy::BestAccuracy);
    router.register_model(model("a", "A", "1", ModelType::PPO, "a", 0.5, 1.0));
    router.register_model(model("b", "B", "1", ModelType::PPO, "b", 0.6, 1.0));
    router.register_model(model("a", "A2", "2", ModelType::LightGBM, "a2", 0.4, 1.0));
    let listed = router.list_models();
    assert_eq!(listed.len(), 2);
    assert_eq!(listed[0].name, "A2");
    router.update_model_stats("a", 0.99f64.to_bits(), 3.0f64.to_bits());
    router.update_model_stats("missing", 0.1f64.to_bits(), 3.0f64.to_bits());
    assert_eq!(router.select_model(None).unwrap().id, "a");
    assert!(ModelRouter::new(RoutingStrategy::RoundRobin).select_model(None).is_none());
}

fn sample(media_type: MediaType, input_file: &str, input_size: u64, target_format: &str, quality: u32, output_size: u64, ratio: f64, reward: f64) -> TrainingSample {
    TrainingSample {
        media_type,
        input_file: input_file.to_string(),
        input_size,
        target_format: target_format.to_string(),
        quality,
        output_size,
        compression_ratio_bits: ratio.to_bits(),
        reward_bits: reward.to_bits(),
    }
}

fn mean(values: Vec<f64>, empty: f64) -> f64 {
    if values.is_empty() {
        empty
    } else {
        values.iter().sum::<f64>() / values.len() as f64
    }
}

fn mean_reward(data: &PPOTrainingData, media_type: MediaType, format: &str) -> f64 {
    mean(data.samples_for(media_type, format).iter().map(|s| f64::from_bits(s.reward_bits)).collect(), 0.0)
}

fn mean_ratio(data: &PPOTrainingData, media_type: MediaType, format: &str) -> f64 {
    mean(data.samples_for(media_type, format).iter().map(|s| f64::from_bits(s.compression_ratio_bits)).collect(), 1.0)
}

#[test]
fn test_training_data_loading() {
    let data = PPOTrainingData {
        timestamp: "2025-11-17".to_string(),
        total_samples: 2,
        stats: vec![("image".to_string(), 1), ("video".to_string(), 1)],
        data: vec![
            sample(MediaType::Image, "test.jpg", 100000, "webp", 85, 50000, 0.5, 0.8),
            sample(MediaType::Video, "test.mp4", 1000000, "webm", 1000, 800000, 0.8, 0.6),
        ],
    };
    assert_eq!(data.total_samples, 2);
    assert_eq!(data.filter_by_media_type(MediaType::Image).len(), 1);
    assert_eq!(data.filter_by_media_type(MediaType::Video).len(), 1);
}

#[test]
fn test_enhanced_predictor() {
    let data = PPOTrainingData {
        timestamp: "2025-11-17".to_string(),
        total_samples: 1,
        stats: vec![],
        data: vec![sample(MediaType::Image, "test.jpg", 100000, "webp", 85, 50000, 0.5, 0.8)],
    };
    let predictor = EnhancedPPOPredictor::new(data);
    let ratio = mean_ratio(predictor.training_data(), MediaType::Image, "webp");
    let adjustment = (mean_reward(predictor.training_data(), MediaType::Image, "webp") * 10.0) as i32;
    let params = predictor.predict_image_params(100000, ratio.to_bits(), adjustment);
    assert!(params.quality >= 60 && params.quality <= 100);
    assert!(params.speed >= 1 && params.speed <= 10);
}

#[test]
fn ppo_model_enhanced_test_format_recommendation() {
    let data = PPOTrainingData {
        timestamp: "2025-11-17".to_string(),
        total_samples: 2,
        stats: vec![],
        data: vec![
            sample(MediaType::Audio, "test.mp3", 100000, "aac", 128, 50000, 0.5, 0.9),
            sample(MediaType::Audio, "test.mp3", 100000, "opus", 128, 60000, 0.6, 0.7),
        ],
    };
    let predictor = EnhancedPPOPredictor::new(data);
    let rewards: Vec<u64> = EnhancedPPOPredictor::candidate_formats(MediaType::Audio)
        .iter()
        .map(|f| mean_reward(predictor.training_data(), MediaType::Audio, f).to_bits())
        .collect();
    let best_format = predictor.recommend_best_format(MediaType::Audio, &rewards);
    assert_eq!(best_format, "aac");
}

#[test]
fn predictor_parameters_and_stats() {
    let data = PPOTrainingData {
        timestamp: "t0".to_string(),
        total_samples: 3,
        stats: vec![("image".to_string(), 2), ("audio".to_string(), 1), ("image".to_string(), 9)],
        data: vec![
            sample(MediaType::Image, "a.png", 10, "webp", 70, 4, 0.4, 0.2),
            sample(MediaType::Image, "b.png", 10, "webp", 80, 3, 0.3, 0.1),
            sample(MediaType::Image, "c.png", 10, "webp", 90, 3, 0.3, 0.1),
        ],
    };
    let best = data.get_best_compression(MediaType::Image, "webp").unwrap();
    assert_eq!(best.input_file, "b.png");
    assert!(data.get_best_compression(MediaType::Video, "webp").is_none());
    let mut predictor = EnhancedPPOPredictor::new(data);
    assert_eq!(
        predictor.get_training_stats(),
        "PPO Training Data: total_samples=3, images=2, videos=0, audio=1, timestamp=t0"
    );
    let p = predictor.predict_image_params(6_000_000, 0.4f64.to_bits(), 50);
    assert_eq!((p.quality, p.speed, p.lossless), (100, 6, true));
    let p = predictor.predict_image_params(100, 0.9f64.to_bits(), -40);
    assert_eq!((p.quality, p.speed, p.lossless), (60, 2, false));
    let v = predictor.predict_video_params(1.5f64.to_bits(), 0.4f64.to_bits());
    assert_eq!((v.bitrate, v.preset.as_str(), v.crf), (1500, "medium", 23));
    let v = predictor.predict_video_params(f64::NAN.to_bits(), 0.9f64.to_bits());
    assert_eq!((v.bitrate, v.preset.as_str(), v.crf), (2000, "slow", 28));
    assert_eq!(predictor.predict_audio_params("opus", 0).bitrate, 160);
    predictor.set_enabled(false);
    assert_eq!(predictor.predict_audio_params("opus", 0).bitrate, 192);
    assert_eq!(predictor.predict_image_params(1, 0.1f64.to_bits(), 0), ImageConversionParams::default());
}

fn png_with(chunks: &[(&[u8; 4], &[u8])]) -> Vec<u8> {
    let mut d = vec![0x89, b'P', b'N', b'G', 0x0D, 0x0A, 0x1A, 0x0A];
    for (kind, data) in chunks {
        d.extend_from_slice(&(data.len() as u32).to_be_bytes());
        d.extend_from_slice(&kind[..]);
        d.extend_from_slice(data);
        d.extend_from_slice(&[0, 0, 0, 0]);
    }
    d
}

#[test]
fn animation_detection_from_what_was_read() {
    assert_eq!(AIParameterClient::animation_probe("a/b.GIF"), AnimationProbe::FileSize);
    assert_eq!(AIParameterClient::animation_probe("b.webp"), AnimationProbe::Header);
    assert_eq!(AIParameterClient::animation_probe("b.apng"), AnimationProbe::Contents);
    assert_eq!(AIParameterClient::animation_probe("b.jpg"), AnimationProbe::Nothing);
    assert_eq!(AIParameterClient::animation_probe("noext"), AnimationProbe::Nothing);

    assert!(AIParameterClient::detect_animation("x.gif", Some(104858), None));
    assert!(!AIParameterClient::detect_animation("x.gif", Some(104857), None));
    assert!(!AIParameterClient::detect_animation("x.gif", None, None));

    let vp8x = b"RIFF\x10\x00\x00\x00WEBPVP8X";
    assert!(AIParameterClient::detect_animation("x.webp", None, Some(&vp8x[..])));
    assert!(!AIParameterClient::detect_animation("x.webp", None, Some(&b"RIFF\x10\x00\x00\x00WEBPVP8 "[..])));
    assert!(!AIParameterClient::detect_animation("x.webp", None, Some(&vp8x[..15])));

    let still = png_with(&[(b"IHDR", &[0u8; 13]), (b"IDAT", &[1, 2, 3])]);
    let moving = png_with(&[(b"IHDR", &[0u8; 13]), (b"acTL", &[0u8; 8]), (b"IDAT", &[1])]);
    assert!(!AIParameterClient::detect_animation("x.png", None, Some(&still)));
    assert!(AIParameterClient::detect_animation("x.PNG", None, Some(&moving)));
    assert!(!AIParameterClient::detect_animation("x.png", None, Some(&moving[1..])));
    assert!(!AIParameterClient::detect_animation("x.jpg", Some(1 << 30), Some(&moving)));

    let mut bad = png_with(&[]);
    bad.extend_from_slice(&[0xFF, 0xFF, 0xFF, 0xFF]);
    bad.extend_from_slice(b"IDAT");
    assert!(!png_chunk_lengths_fit(&bad));
    assert!(png_chunk_lengths_fit(&bad[1..]));
    assert!(png_chunk_lengths_fit(&moving));
}

fn sample_features() -> StandardFeatures {
    let f = |x: f64| [x.to_bits(); 16];
    StandardFeatures {
        basic: f(1.0),
        color: f(2.0),
        texture: f(3.0),
        shape: f(4.0),
        quality: f(5.0),
        metadata: [6.0f64.to_bits(); 32],
        context: f(7.0),
    }
}

#[test]
fn test_standard_features_vector_conversion() {
    let features = sample_features();
    let vec = features.to_vector();
    assert_eq!(vec.len(), 128);
    assert_eq!(f64::from_bits(vec[0]), 1.0);
    assert_eq!(f64::from_bits(vec[16]), 2.0);
    assert_eq!(f64::from_bits(vec[112]), 7.0);
}

#[test]
fn test_ml_bridge_validation() {
    let features = sample_features();
    assert!(validate_features(&features).is_ok());
}

#[test]
fn feature_vector_round_trip_and_checks() {
    let features = sample_features();
    let back = StandardFeatures::from_vector(&features.to_vector()).unwrap();
    assert_eq!(back.to_vector(), features.to_vector());
    assert_eq!(
        StandardFeatures::from_vector(&[0u64; 127]).err(),
        Some("Invalid feature vector length: 127 (expected 128)".to_string())
    );
    let mut bad = features;
    bad.metadata[3] = f64::INFINITY.to_bits();
    assert_eq!(validate_features(&bad), Err("Features contain Inf".to_string()));
    bad.context[15] = f64::NAN.to_bits();
    assert_eq!(validate_features(&bad), Err("Features contain NaN".to_string()));
}

#[test]
fn path_components_follow_std() {
    for p in ["/a/b", "a//b/", "./a/./b", ".", "./", "/.", "", "../x/..", "a/.", "//", "x/./"].iter() {
        let ours: Vec<String> = components(p).iter().map(|c| c.iter().collect()).collect();
        let std_comps: Vec<String> =
            std::path::Path::new(p).components().map(|c| c.as_os_str().to_string_lossy().into_owned()).collect();
        assert_eq!(ours, std_comps, "for {:?}", p);
    }
}
