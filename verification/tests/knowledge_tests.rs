use pixly_kernel::format_knowledge::{FormatKnowledgeBase, MediaType};

#[test]
fn test_knowledge_base_creation() {
    let kb = FormatKnowledgeBase::new();
    assert!(kb.get_format("avif").is_some());
    assert!(kb.get_format("jxl").is_some());
    assert!(kb.get_format("webp").is_some());
}

#[test]
fn knowledge_contents() {
    let kb = FormatKnowledgeBase::default();
    assert_eq!(kb.list_all_formats().len(), 14);
    assert_eq!(kb.get_formats_by_type(MediaType::Image).len(), 5);
    assert_eq!(kb.get_formats_by_type(MediaType::Video).len(), 5);
    let audio: Vec<&str> = kb.get_formats_by_type(MediaType::Audio).iter().map(|k| k.name.as_str()).collect();
    assert_eq!(audio, vec!["opus", "aac", "mp3", "flac"]);
    let avif = kb.get_format("avif").unwrap();
    assert_eq!(avif.full_name, "AV1 Image File Format");
    assert_eq!(avif.year_released, 2019);
    assert_eq!(f64::from_bits(avif.compression_efficiency_bits), 0.95);
    assert_eq!(f64::from_bits(avif.browser_support.global_support_percentage_bits), 85.0);
    assert!(avif.capabilities.supports_hdr);
    assert!(kb.get_format("bmp").is_none());
}

#[test]
fn knowledge_upgrade_advice() {
    let kb = FormatKnowledgeBase::new();
    let (up, recs, why) = kb.suggest_format_upgrade("jpeg");
    assert!(up);
    assert_eq!(recs, vec!["avif", "jxl", "webp"]);
    assert!(why.starts_with("JPEG is outdated"));
    let (up, recs, _) = kb.suggest_format_upgrade("h264");
    assert!(up);
    assert_eq!(recs, vec!["h266", "av1", "h265"]);
    let (up, recs, _) = kb.suggest_format_upgrade("mp3");
    assert!(up);
    assert_eq!(recs, vec!["opus", "aac"]);
    // AAC is old (1997) but has no listed replacement
    let (up, recs, why) = kb.suggest_format_upgrade("aac");
    assert!(!up && recs.is_empty() && why.is_empty());
    let (up, _, _) = kb.suggest_format_upgrade("avif");
    assert!(!up);
    let (up, _, _) = kb.suggest_format_upgrade("unknown");
    assert!(!up);
    assert!(kb.should_use_same_format_optimization("png", Some("webp"), false));
    assert!(kb.should_use_same_format_optimization("png", None, true));
    assert!(kb.should_use_same_format_optimization("png", Some("png"), true));
    assert!(!kb.should_use_same_format_optimization("png", Some("webp"), true));
}

#[test]
fn knowledge_reload_replaces_by_name() {
    let mut kb = FormatKnowledgeBase::new();
    kb.load_modern_formats();
    kb.load_video_formats();
    kb.load_audio_formats();
    let names: Vec<&str> = kb.list_all_formats().iter().map(|k| k.name.as_str()).collect();
    assert_eq!(
        names,
        vec!["avif", "jxl", "webp", "png", "jpeg", "h266", "h265", "av1", "vp9", "h264", "opus", "aac", "mp3", "flac"]
    );
    let jxl = kb.get_format("jxl").unwrap();
    assert_eq!(jxl.full_name, "JPEG XL");
    assert_eq!(jxl.capabilities.color_space_support, vec!["sRGB", "P3", "Rec2020", "XYZ"]);
    assert_eq!(jxl.strengths.len(), 5);
    assert!(!jxl.browser_support.chrome);
}
