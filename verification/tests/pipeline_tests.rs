use pixly_kernel::conversion_core::{conversion_stages, ConversionConfig, ConversionStage};
use pixly_kernel::feature_toggles::FeatureToggles;
use pixly_kernel::xmp_merge::{merge_args, verify_args, MergeRun, XmpEvent, XmpMerge, XmpMergeStep, XmpNames};

fn names() -> XmpNames {
    XmpNames {
        sidecar_name: "Some(\"photo.xmp\")".to_string(),
        output_name: "Some(\"photo.avif\")".to_string(),
        sidecar_path: "\"/p/photo.xmp\"".to_string(),
    }
}

#[test]
fn stages_default_config() {
    let c = ConversionConfig::default();
    let s = conversion_stages(&c);
    assert_eq!(s[0], ConversionStage::ReadInputSize);
    assert_eq!(*s.last().unwrap(), ConversionStage::Finish);
    let i = s.iter().position(|x| *x == ConversionStage::ValidateConfig).unwrap();
    assert_eq!(s[i + 1], ConversionStage::Convert);
    assert_eq!(s[i + 2], ConversionStage::CheckOutput);
    assert!(!s.contains(&ConversionStage::MergeXmp));
}

#[test]
fn stages_follow_toggles() {
    let mut t = FeatureToggles::default();
    t.enable_video_for_animation = true;
    t.enable_file_validation = true;
    t.enable_ssim_validation = true;
    let mut c = ConversionConfig::from_toggles(t);
    c.merge_xmp_sidecar = true;
    c.enable_validation = true;
    c.enable_quality_analysis = true;
    assert_eq!(
        conversion_stages(&c),
        vec![
            ConversionStage::ReadInputSize,
            ConversionStage::AnimationToVideo,
            ConversionStage::ValidateFile,
            ConversionStage::ValidateConfig,
            ConversionStage::Convert,
            ConversionStage::CheckOutput,
            ConversionStage::ValidateOutput,
            ConversionStage::AnalyzeQuality,
            ConversionStage::MergeXmp,
            ConversionStage::CheckSsim,
            ConversionStage::Finish,
        ]
    );
}

#[test]
fn xmp_merge_full_success() {
    let mut m = XmpMerge::start(names());
    assert_eq!(m.step(), XmpMergeStep::CheckSidecar);
    assert!(m.advance(XmpEvent::SidecarExists(true)).is_empty());
    let n = m.advance(XmpEvent::SidecarReadable(Ok(())));
    assert_eq!(n[0].text, "📄 Found XMP sidecar: Some(\"photo.xmp\")");
    assert!(!n[0].to_stderr);
    assert!(m.advance(XmpEvent::OutputExists(true)).is_empty());
    assert!(m.advance(XmpEvent::SizeBefore(1000)).is_empty());
    assert_eq!(m.step(), XmpMergeStep::RunMerge);
    let n = m.advance(XmpEvent::MergeFinished(MergeRun::Exited { success: true, stderr: String::new() }));
    assert_eq!(n[0].text, "✅ XMP merged into output file: Some(\"photo.avif\")");
    let n = m.advance(XmpEvent::SizeAfter(900));
    assert_eq!(n.len(), 2);
    assert_eq!(n[1].text, "   Before: 1000 bytes, After: 900 bytes");
    assert!(n[1].to_stderr);
    let n = m.advance(XmpEvent::VerifyFinished(Some("XMP Toolkit : Image::ExifTool 12.7\n".to_string())));
    assert_eq!(n[0].text, "✅ XMP data verified in output file");
    assert_eq!(m.step(), XmpMergeStep::DeleteSidecar);
    let n = m.advance(XmpEvent::SidecarDeleted(Ok(())));
    assert_eq!(n[0].text, "🗑️ Original XMP sidecar deleted");
    assert_eq!(m.step(), XmpMergeStep::Done);
}

#[test]
fn xmp_merge_keeps_sidecar_when_unverified_or_failed() {
    let mut m = XmpMerge::start(names());
    m.advance(XmpEvent::SidecarExists(true));
    m.advance(XmpEvent::SidecarReadable(Ok(())));
    m.advance(XmpEvent::OutputExists(true));
    m.advance(XmpEvent::SizeBefore(10));
    m.advance(XmpEvent::MergeFinished(MergeRun::Exited { success: true, stderr: String::new() }));
    assert!(m.advance(XmpEvent::SizeAfter(20)).is_empty());
    let n = m.advance(XmpEvent::VerifyFinished(Some("   \n".to_string())));
    assert_eq!(n[1].text, "⚠️ Keeping original XMP sidecar for safety: \"/p/photo.xmp\"");
    assert_eq!(m.step(), XmpMergeStep::Done);

    let mut m = XmpMerge::start(names());
    m.advance(XmpEvent::SidecarExists(true));
    m.advance(XmpEvent::SidecarReadable(Ok(())));
    m.advance(XmpEvent::OutputExists(true));
    m.advance(XmpEvent::SizeBefore(10));
    let n = m.advance(XmpEvent::MergeFinished(MergeRun::Exited { success: false, stderr: "bad".to_string() }));
    assert_eq!(n[0].text, "❌ XMP merge failed: bad");
    assert_eq!(m.step(), XmpMergeStep::Done);

    let mut m = XmpMerge::start(names());
    m.advance(XmpEvent::SidecarExists(true));
    m.advance(XmpEvent::SidecarReadable(Ok(())));
    m.advance(XmpEvent::OutputExists(true));
    m.advance(XmpEvent::SizeBefore(10));
    let n = m.advance(XmpEvent::MergeFinished(MergeRun::CouldNotStart("not found".to_string())));
    assert_eq!(n.len(), 3);
    assert_eq!(n[1].text, "💡 Install exiftool: brew install exiftool");
}

#[test]
fn xmp_merge_stops_early() {
    let mut m = XmpMerge::start(names());
    assert!(m.advance(XmpEvent::SidecarExists(false)).is_empty());
    assert_eq!(m.step(), XmpMergeStep::Done);
    let mut m = XmpMerge::start(names());
    m.advance(XmpEvent::SidecarExists(true));
    let n = m.advance(XmpEvent::SidecarReadable(Err("permission denied".to_string())));
    assert_eq!(n[0].text, "⚠️ XMP file exists but not readable: permission denied");
    assert_eq!(m.step(), XmpMergeStep::Done);
    let mut m = XmpMerge::start(names());
    m.advance(XmpEvent::SidecarExists(true));
    m.advance(XmpEvent::SidecarReadable(Ok(())));
    let n = m.advance(XmpEvent::OutputExists(false));
    assert_eq!(n[0].text, "⚠️ Output file doesn't exist yet, skipping XMP merge");
    assert_eq!(m.step(), XmpMergeStep::Done);
}

#[test]
fn xmp_command_arguments() {
    assert_eq!(merge_args("a.xmp", "a.avif"), vec!["-tagsFromFile", "a.xmp", "-XMP:all", "-overwrite_original", "a.avif"]);
    assert_eq!(verify_args("a.avif"), vec!["-XMP:all", "a.avif"]);
}
