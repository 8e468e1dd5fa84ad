//! The conversion configuration and the decisions of a conversion run:
//! which encoder serves a target format, when an animation is better sent
//! to video, the command lines of the external AVIF and JPEG XL encoders,
//! where an XMP sidecar lives, and whether merged XMP data was found.
//!
//! Floating-point options (dithering level, sharpening amount and radius)
//! are carried as the bit patterns of their `f32` values.

use vstd::prelude::*;
use vstd::string::*;
use crate::text::{lowercase, to_lower, str_eq, owned, concat2, dec, decimal, views, push_msg, push_char, has_sub, contains_str, chars_of, string_from_chars};
use crate::paths::{extension, extension_of, file_name_of, stem_of, trim_tail, after_last_slash, vec_slice};
use crate::feature_toggles::{FeatureToggles, toggles_problem};
use crate::format_params::{FormatSpecificParams, ParamError, params_problem, problem_matches};
use crate::formats::SupportedFormat;

verus! {

/// Resizing options.
#[derive(Debug, Clone)]
pub struct ResizeOptions {
    pub width: Option<u32>,
    pub height: Option<u32>,
    pub filter: String,
    pub maintain_aspect_ratio: bool,
}

/// Colour quantisation options.
#[derive(Debug, Clone)]
pub struct QuantizeOptions {
    pub colors: u32,
    pub dithering: bool,
    /// The dithering level, as the bit pattern of an `f32`.
    pub dithering_level_bits: u32,
}

/// Sharpening options.
#[derive(Debug, Clone)]
pub struct SharpenOptions {
    /// The amount, as the bit pattern of an `f32`.
    pub amount_bits: u32,
    /// The radius, as the bit pattern of an `f32`.
    pub radius_bits: u32,
    pub threshold: u8,
}

/// The configuration of a conversion.
#[derive(Debug, Clone)]
pub struct ConversionConfig {
    pub quality: u8,
    pub speed: u8,
    pub preserve_metadata: bool,
    pub keep_animated: bool,
    pub lossless: bool,
    pub merge_xmp_sidecar: bool,
    pub feature_toggles: Option<FeatureToggles>,
    pub chroma_subsampling: Option<String>,
    pub alpha_quality: Option<u8>,
    pub effort: Option<u8>,
    pub resize: Option<ResizeOptions>,
    pub quantize: Option<QuantizeOptions>,
    pub sharpen: Option<SharpenOptions>,
    pub output_dir: Option<String>,
    pub normalize_filenames: bool,
    pub enable_validation: bool,
    pub validation_level: u8,
    pub enable_quality_analysis: bool,
    pub jxl_modular: bool,
    pub jxl_progressive: bool,
    pub jxl_responsive: bool,
    pub jxl_gaborish: bool,
    pub format_specific_params: Option<FormatSpecificParams>,
}

/// Why a configuration was refused.
#[derive(Debug, Clone)]
pub enum ConfigError {
    /// A setting out of range, with its message.
    Invalid(String),
    /// The format-specific parameters were refused; the message is
    /// `Format parameter validation failed: ` followed by theirs.
    FormatParams(ParamError),
}

/// The default configuration, with the given toggles.
pub open spec fn is_default_with(c: ConversionConfig, toggles: Option<FeatureToggles>) -> bool {
    &&& c.quality == 85
    &&& c.speed == 4
    &&& c.preserve_metadata
    &&& c.keep_animated
    &&& !c.lossless
    &&& !c.merge_xmp_sidecar
    &&& c.feature_toggles == toggles
    &&& c.chroma_subsampling is None
    &&& c.alpha_quality is None
    &&& c.effort is None
    &&& c.resize is None
    &&& c.quantize is None
    &&& c.sharpen is None
    &&& c.output_dir is None
    &&& !c.normalize_filenames
    &&& !c.jxl_modular
    &&& !c.jxl_progressive
    &&& !c.jxl_responsive
    &&& !c.jxl_gaborish
    &&& c.format_specific_params is None
    &&& !c.enable_validation
    &&& c.validation_level == 2
    &&& !c.enable_quality_analysis
}

/// What validation refuses first, if anything: a range message, or the
/// problem of the format-specific parameters.
pub open spec fn config_problem(c: ConversionConfig) -> Option<Result<Seq<char>, Result<Seq<char>, u32>>> {
    if c.quality > 100 {
        Some(Ok("Quality parameter must be between 0-100"@))
    } else if c.speed > 10 {
        Some(Ok("Speed parameter must be between 0-10"@))
    } else if c.alpha_quality is Some && c.alpha_quality->0 > 100 {
        Some(Ok("Alpha quality must be between 0-100"@))
    } else if c.effort is Some && (c.effort->0 < 1 || c.effort->0 > 10) {
        Some(Ok("Effort must be between 1-10"@))
    } else if c.feature_toggles is Some && toggles_problem(c.feature_toggles->0) is Some {
        Some(Ok(toggles_problem(c.feature_toggles->0)->0))
    } else if c.format_specific_params is Some && params_problem(c.format_specific_params->0) is Some {
        Some(Err(params_problem(c.format_specific_params->0)->0))
    } else {
        None
    }
}

/// The error a problem is reported as.
pub open spec fn config_error_matches(p: Result<Seq<char>, Result<Seq<char>, u32>>, e: ConfigError) -> bool {
    match p {
        Ok(m) => e matches ConfigError::Invalid(s) && s@ == m,
        Err(fp) => e matches ConfigError::FormatParams(pe) && problem_matches(fp, pe),
    }
}

fn default_with(toggles: Option<FeatureToggles>) -> (res: ConversionConfig)
    ensures
        is_default_with(res, toggles),
{
    ConversionConfig {
        quality: 85,
        speed: 4,
        preserve_metadata: true,
        keep_animated: true,
        lossless: false,
        merge_xmp_sidecar: false,
        feature_toggles: toggles,
        chroma_subsampling: None,
        alpha_quality: None,
        effort: None,
        resize: None,
        quantize: None,
        sharpen: None,
        output_dir: None,
        normalize_filenames: false,
        jxl_modular: false,
        jxl_progressive: false,
        jxl_responsive: false,
        jxl_gaborish: false,
        format_specific_params: None,
        enable_validation: false,
        validation_level: 2,
        enable_quality_analysis: false,
    }
}

impl Default for ConversionConfig {
    fn default() -> (res: Self)
        ensures
            is_default_with(res, None),
    {
        default_with(None)
    }
}

impl ConversionConfig {
    /// The default configuration carrying the given toggles.
    pub fn from_toggles(toggles: FeatureToggles) -> (res: Self)
        ensures
            is_default_with(res, Some(toggles)),
    {
        default_with(Some(toggles))
    }

    /// AI prediction is on in the toggles (off without toggles).
    pub fn is_ai_enabled(&self) -> (res: bool)
        ensures
            res == (self.feature_toggles is Some && self.feature_toggles->0.enable_ai_prediction),
    {
        match &self.feature_toggles {
            Some(t) => t.enable_ai_prediction,
            None => false,
        }
    }

    /// Some advanced parameter is set.
    pub fn has_advanced_params(&self) -> (res: bool)
        ensures
            res == (self.chroma_subsampling is Some || self.alpha_quality is Some || self.effort is Some
                || self.resize is Some || self.quantize is Some || self.sharpen is Some),
    {
        self.chroma_subsampling.is_some() || self.alpha_quality.is_some() || self.effort.is_some()
            || self.resize.is_some() || self.quantize.is_some() || self.sharpen.is_some()
    }

    /// Checks the ranges of quality, speed, alpha quality and effort, then
    /// the toggles, then the format-specific parameters.
    pub fn validate(&self) -> (res: Result<(), ConfigError>)
        ensures
            match res {
                Ok(()) => config_problem(*self) is None,
                Err(e) => config_problem(*self) is Some && config_error_matches(config_problem(*self)->0, e),
            },
    {
        if self.quality > 100 {
            return Err(ConfigError::Invalid(owned("Quality parameter must be between 0-100")));
        }
        if self.speed > 10 {
            return Err(ConfigError::Invalid(owned("Speed parameter must be between 0-10")));
        }
        match self.alpha_quality {
            Some(a) => if a > 100 {
                return Err(ConfigError::Invalid(owned("Alpha quality must be between 0-100")));
            },
            None => {},
        }
        match self.effort {
            Some(e) => if e < 1 || e > 10 {
                return Err(ConfigError::Invalid(owned("Effort must be between 1-10")));
            },
            None => {},
        }
        match &self.feature_toggles {
            Some(t) => match t.validate() {
                Ok(()) => {},
                Err(m) => return Err(ConfigError::Invalid(m)),
            },
            None => {},
        }
        match &self.format_specific_params {
            Some(p) => match p.validate() {
                Ok(()) => {},
                Err(e) => return Err(ConfigError::FormatParams(e)),
            },
            None => {},
        }
        Ok(())
    }
}

// ───────────────────────── encoders ─────────────────────────

/// How a target format is written.
#[derive(Debug, Clone, Copy, PartialEq, Eq, Structural)]
pub enum ConversionStrategy {
    WebpNative,
    PngNative,
    JpegNative,
    GifNative,
    BmpNative,
    TiffNative,
    AvifExternal,
    JxlExternal,
}

/// The strategy for a (lower-cased) target format.
pub open spec fn strategy_spec(f: Seq<char>) -> Option<ConversionStrategy> {
    if f == "webp"@ {
        Some(ConversionStrategy::WebpNative)
    } else if f == "png"@ {
        Some(ConversionStrategy::PngNative)
    } else if f == "jpg"@ || f == "jpeg"@ {
        Some(ConversionStrategy::JpegNative)
    } else if f == "gif"@ {
        Some(ConversionStrategy::GifNative)
    } else if f == "bmp"@ {
        Some(ConversionStrategy::BmpNative)
    } else if f == "tiff"@ || f == "tif"@ {
        Some(ConversionStrategy::TiffNative)
    } else if f == "avif"@ {
        Some(ConversionStrategy::AvifExternal)
    } else if f == "jxl"@ || f == "jpegxl"@ {
        Some(ConversionStrategy::JxlExternal)
    } else {
        None
    }
}

pub open spec fn strategy_name_spec(s: ConversionStrategy) -> Seq<char> {
    match s {
        ConversionStrategy::WebpNative => "webp_native"@,
        ConversionStrategy::PngNative => "png_native"@,
        ConversionStrategy::JpegNative => "jpeg_native"@,
        ConversionStrategy::GifNative => "gif_native"@,
        ConversionStrategy::BmpNative => "bmp_native"@,
        ConversionStrategy::TiffNative => "tiff_native"@,
        ConversionStrategy::AvifExternal => "avif_external"@,
        ConversionStrategy::JxlExternal => "jxl_external"@,
    }
}

impl ConversionStrategy {
    /// The strategy's name as reported in results.
    pub fn name(&self) -> (res: &'static str)
        ensures
            res@ == strategy_name_spec(*self),
    {
        match self {
            ConversionStrategy::WebpNative => "webp_native",
            ConversionStrategy::PngNative => "png_native",
            ConversionStrategy::JpegNative => "jpeg_native",
            ConversionStrategy::GifNative => "gif_native",
            ConversionStrategy::BmpNative => "bmp_native",
            ConversionStrategy::TiffNative => "tiff_native",
            ConversionStrategy::AvifExternal => "avif_external",
            ConversionStrategy::JxlExternal => "jxl_external",
        }
    }
}

/// The strategy for a target format in any letter case; unknown formats
/// are refused with `Unsupported output format: ` and the format.
pub fn strategy_for(format: &str) -> (res: Result<ConversionStrategy, String>)
    ensures
        match res {
            Ok(s) => strategy_spec(lowercase(format@)) == Some(s),
            Err(m) => strategy_spec(lowercase(format@)) is None && m@ == "Unsupported output format: "@ + format@,
        },
{
    let lower = to_lower(format);
    let f = lower.as_str();
    if str_eq(f, "webp") {
        Ok(ConversionStrategy::WebpNative)
    } else if str_eq(f, "png") {
        Ok(ConversionStrategy::PngNative)
    } else if str_eq(f, "jpg") || str_eq(f, "jpeg") {
        Ok(ConversionStrategy::JpegNative)
    } else if str_eq(f, "gif") {
        Ok(ConversionStrategy::GifNative)
    } else if str_eq(f, "bmp") {
        Ok(ConversionStrategy::BmpNative)
    } else if str_eq(f, "tiff") || str_eq(f, "tif") {
        Ok(ConversionStrategy::TiffNative)
    } else if str_eq(f, "avif") {
        Ok(ConversionStrategy::AvifExternal)
    } else if str_eq(f, "jxl") || str_eq(f, "jpegxl") {
        Ok(ConversionStrategy::JxlExternal)
    } else {
        Err(concat2("Unsupported output format: ", format))
    }
}

/// The lower-cased extension of a path, empty when it has none.
pub open spec fn lower_ext(p: Seq<char>) -> Seq<char> {
    match extension_of(p) {
        Some(e) => lowercase(e),
        None => lowercase(seq![]),
    }
}

/// The lower-cased extension of a path, empty when it has none.
pub fn lower_extension(path: &str) -> (res: String)
    ensures
        res@ == lower_ext(path@),
{
    match extension(path) {
        Some(e) => to_lower(e.as_str()),
        None => {
            let empty = String::new();
            to_lower(empty.as_str())
        },
    }
}

/// An input in AVIF or JPEG XL is first decoded to PNG by an external tool.
pub fn needs_external_decode(input: &str) -> (res: bool)
    ensures
        res == (lower_ext(input@) == "avif"@ || lower_ext(input@) == "jxl"@ || lower_ext(input@) == "jpegxl"@),
{
    let e = lower_extension(input);
    str_eq(e.as_str(), "avif") || str_eq(e.as_str(), "jxl") || str_eq(e.as_str(), "jpegxl")
}

/// An animated GIF, APNG or WebP (by lower-cased extension) is sent to
/// video when it is larger than 2 MiB or, failing that, when its frames
/// hold more than 800x600 pixels.
pub fn should_convert_animation_to_video(ext_lower: &str, file_size: u64, dimensions: Option<(u32, u32)>) -> (res: bool)
    requires
        match dimensions { Some((w, h)) => w * h <= u32::MAX, None => true },
    ensures
        res == ((ext_lower@ == "gif"@ || ext_lower@ == "apng"@ || ext_lower@ == "webp"@) && (file_size > 2097152 || match dimensions {
            Some((w, h)) => w * h > 480000,
            None => false,
        })),
{
    if !(str_eq(ext_lower, "gif") || str_eq(ext_lower, "apng") || str_eq(ext_lower, "webp")) {
        return false;
    }
    if file_size > 2097152 {
        return true;
    }
    match dimensions {
        Some((w, h)) => w * h > 480000,
        None => false,
    }
}

/// A strict validation level turns a failed output validation into an error.
pub fn output_validation_fails(valid: bool, validation_level: u8) -> (res: bool)
    ensures
        res == (!valid && validation_level >= 4),
{
    !valid && validation_level >= 4
}

// ───────────────────────── the conversion pipeline ─────────────────────────

/// A stage of a conversion, performed by the caller in the order given.
#[derive(Debug, Clone, Copy, PartialEq, Eq, Structural)]
pub enum ConversionStage {
    /// Read the input's size.
    ReadInputSize,
    /// Decide whether the animation goes to video (see
    /// `should_convert_animation_to_video`); if it does, convert it to an
    /// MP4 beside the output and stop there.
    AnimationToVideo,
    /// Check the file's real type.
    ValidateFile,
    /// Check the configuration (`ConversionConfig::validate`).
    ValidateConfig,
    /// Encode the output (see `strategy_for`).
    Convert,
    /// Check that the output exists, is not empty and can be read.
    CheckOutput,
    /// Validate the output against the input's size; a failure stops the
    /// conversion when `output_validation_fails` says so.
    ValidateOutput,
    /// Report on the output's quality.
    AnalyzeQuality,
    /// Merge the XMP sidecar (see `XmpMerge`).
    MergeXmp,
    /// Compare input and output by SSIM.
    CheckSsim,
    /// Read the output's size and record the conversion for learning.
    Finish,
}

/// A stage when it is asked for, else nothing.
pub open spec fn stage_if(b: bool, st: ConversionStage) -> Seq<ConversionStage> {
    if b {
        seq![st]
    } else {
        seq![]
    }
}

/// The toggles send animations to video.
pub open spec fn video_on(c: ConversionConfig) -> bool {
    c.feature_toggles matches Some(x) && x.enable_video_for_animation
}

/// The toggles ask for the file's type to be checked.
pub open spec fn file_check_on(c: ConversionConfig) -> bool {
    c.feature_toggles matches Some(x) && x.enable_file_validation
}

/// The toggles ask for an SSIM comparison.
pub open spec fn ssim_on(c: ConversionConfig) -> bool {
    c.feature_toggles matches Some(x) && x.enable_ssim_validation
}

/// The stages before the configuration check: the input's size, then the
/// animation check when the toggles send animations to video, then the
/// file check when they ask for it.
pub open spec fn head_stages(c: ConversionConfig) -> Seq<ConversionStage> {
    seq![ConversionStage::ReadInputSize] + stage_if(video_on(c), ConversionStage::AnimationToVideo) + stage_if(
        file_check_on(c),
        ConversionStage::ValidateFile,
    )
}

/// The configuration check, the conversion and the output check.
pub open spec fn core_stages() -> Seq<ConversionStage> {
    seq![ConversionStage::ValidateConfig, ConversionStage::Convert, ConversionStage::CheckOutput]
}

/// The stages after the output check: the output validation and the
/// quality report when the configuration asks for them, the XMP merge when
/// it is asked for, the SSIM comparison when the toggles ask for it, and
/// the end.
pub open spec fn tail_stages(c: ConversionConfig) -> Seq<ConversionStage> {
    stage_if(c.enable_validation, ConversionStage::ValidateOutput) + stage_if(
        c.enable_quality_analysis,
        ConversionStage::AnalyzeQuality,
    ) + stage_if(c.merge_xmp_sidecar, ConversionStage::MergeXmp) + stage_if(ssim_on(c), ConversionStage::CheckSsim) + seq![ConversionStage::Finish]
}

/// The stages a configuration asks for, in order.
pub open spec fn stages_spec(c: ConversionConfig) -> Seq<ConversionStage> {
    head_stages(c) + core_stages() + tail_stages(c)
}

fn push_if(v: &mut Vec<ConversionStage>, b: bool, st: ConversionStage)
    ensures
        final(v)@ == old(v)@ + stage_if(b, st),
{
    if b {
        v.push(st);
    }
    assert(final(v)@ =~= old(v)@ + stage_if(b, st));
}

fn toggle_flags(config: &ConversionConfig) -> (res: (bool, bool, bool))
    ensures
        res == (video_on(*config), file_check_on(*config), ssim_on(*config)),
{
    match &config.feature_toggles {
        Some(t) => (t.enable_video_for_animation, t.enable_file_validation, t.enable_ssim_validation),
        None => (false, false, false),
    }
}

fn head_vec(video: bool, file_check: bool) -> (res: Vec<ConversionStage>)
    ensures
        res@ == seq![ConversionStage::ReadInputSize] + stage_if(video, ConversionStage::AnimationToVideo) + stage_if(
            file_check,
            ConversionStage::ValidateFile,
        ),
{
    let mut v: Vec<ConversionStage> = Vec::new();
    v.push(ConversionStage::ReadInputSize);
    push_if(&mut v, video, ConversionStage::AnimationToVideo);
    push_if(&mut v, file_check, ConversionStage::ValidateFile);
    v
}

fn push_tail(v: &mut Vec<ConversionStage>, validation: bool, analysis: bool, xmp: bool, ssim: bool)
    ensures
        final(v)@ == old(v)@ + (stage_if(validation, ConversionStage::ValidateOutput) + stage_if(
            analysis,
            ConversionStage::AnalyzeQuality,
        ) + stage_if(xmp, ConversionStage::MergeXmp) + stage_if(ssim, ConversionStage::CheckSsim) + seq![
            ConversionStage::Finish,
        ]),
{
    push_if(v, validation, ConversionStage::ValidateOutput);
    push_if(v, analysis, ConversionStage::AnalyzeQuality);
    push_if(v, xmp, ConversionStage::MergeXmp);
    push_if(v, ssim, ConversionStage::CheckSsim);
    v.push(ConversionStage::Finish);
    assert(final(v)@ =~= old(v)@ + (stage_if(validation, ConversionStage::ValidateOutput) + stage_if(
        analysis,
        ConversionStage::AnalyzeQuality,
    ) + stage_if(xmp, ConversionStage::MergeXmp) + stage_if(ssim, ConversionStage::CheckSsim) + seq![
        ConversionStage::Finish,
    ]));
}

/// The stages of a conversion with this configuration, in order.
pub fn conversion_stages(config: &ConversionConfig) -> (res: Vec<ConversionStage>)
    ensures
        res@ == stages_spec(*config),
{
    let (video, file_check, ssim) = toggle_flags(config);
    let mut v = head_vec(video, file_check);
    v.push(ConversionStage::ValidateConfig);
    v.push(ConversionStage::Convert);
    v.push(ConversionStage::CheckOutput);
    let ghost mid = v@;
    assert(mid =~= head_stages(*config) + core_stages());
    push_tail(&mut v, config.enable_validation, config.enable_quality_analysis, config.merge_xmp_sidecar, ssim);
    assert(v@ =~= head_stages(*config) + core_stages() + tail_stages(*config));
    v
}

/// The configuration is always checked before anything is encoded, the
/// output is checked right after encoding, and the XMP merge, when asked
/// for, comes after the output check.
pub proof fn law_stage_order(c: ConversionConfig)
    ensures
        ({
            let s = stages_spec(c);
            let i = head_stages(c).len() as int;
            &&& i + 2 < s.len()
            &&& s[i] == ConversionStage::ValidateConfig
            &&& s[i + 1] == ConversionStage::Convert
            &&& s[i + 2] == ConversionStage::CheckOutput
            &&& forall|j: int|
                0 <= j < i ==> #[trigger] s[j] != ConversionStage::Convert && s[j] != ConversionStage::MergeXmp && s[j]
                    != ConversionStage::CheckOutput
            &&& forall|j: int| 0 <= j <= i + 2 ==> #[trigger] s[j] != ConversionStage::MergeXmp
        }),
        stages_spec(c)[0] == ConversionStage::ReadInputSize,
        stages_spec(c).last() == ConversionStage::Finish,
        stages_spec(c).contains(ConversionStage::MergeXmp) <==> c.merge_xmp_sidecar,
{
    let h = head_stages(c);
    let m = core_stages();
    let t = tail_stages(c);
    let s = stages_spec(c);
    assert(forall|j: int| 0 <= j < h.len() ==> #[trigger] h[j] == ConversionStage::ReadInputSize || h[j]
        == ConversionStage::AnimationToVideo || h[j] == ConversionStage::ValidateFile);
    assert forall|j: int| 0 <= j < h.len() implies #[trigger] s[j] == h[j] by {}
    assert forall|k: int| 0 <= k < 3 implies #[trigger] s[h.len() + k] == m[k] by {}
    assert forall|k: int| 0 <= k < t.len() implies #[trigger] s[h.len() + 3 + k] == t[k] by {}
    let ev = stage_if(c.enable_validation, ConversionStage::ValidateOutput);
    let qa = stage_if(c.enable_quality_analysis, ConversionStage::AnalyzeQuality);
    let xm = stage_if(c.merge_xmp_sidecar, ConversionStage::MergeXmp);
    let ss = stage_if(ssim_on(c), ConversionStage::CheckSsim);
    assert(t =~= ev + qa + xm + ss + seq![ConversionStage::Finish]);
    assert(s.last() == t.last());
    if c.merge_xmp_sidecar {
        let k: int = (ev.len() + qa.len()) as int;
        assert(t[k] == ConversionStage::MergeXmp);
        assert(s[h.len() + 3 + k] == ConversionStage::MergeXmp);
    } else {
        assert forall|k: int| 0 <= k < t.len() implies t[k] != ConversionStage::MergeXmp by {
            if k < ev.len() + qa.len() {
            } else {
                assert((ev + qa + xm + ss + seq![ConversionStage::Finish])[k] == (ss + seq![ConversionStage::Finish])[k
                    - ev.len() - qa.len()]);
            }
        }
        assert forall|j: int| 0 <= j < s.len() implies s[j] != ConversionStage::MergeXmp by {
            if j >= h.len() + 3 {
                assert(s[j] == t[j - h.len() - 3]);
            }
        }
    }
}

// ───────────────────────── external encoders ─────────────────────────

/// The quantizer bounds for AVIF: those of the AVIF parameters, each
/// defaulting to 0 and 63.
pub open spec fn avif_bounds(c: ConversionConfig) -> (u8, u8) {
    match c.format_specific_params {
        Some(FormatSpecificParams::Avif(a)) => (
            match a.min_quantizer { Some(x) => x, None => 0u8 },
            match a.max_quantizer { Some(x) => x, None => 63u8 },
        ),
        _ => (0u8, 63u8),
    }
}

/// The `avifenc` arguments.
pub open spec fn avif_args_spec(input: Seq<char>, output: Seq<char>, c: ConversionConfig) -> Seq<Seq<char>> {
    let (lo, hi) = avif_bounds(c);
    seq!["--min"@, dec(lo as nat), "--max"@, dec(hi as nat), "-s"@, dec(c.speed as nat), "-q"@, dec(c.quality as nat)]
        + (match c.chroma_subsampling {
        Some(ch) => seq!["-y"@, ch@],
        None => seq![],
    }) + (match c.alpha_quality {
        Some(a) => seq!["--qalpha"@, dec(a as nat)],
        None => seq![],
    }) + seq![input, output]
}

/// The `avifenc` arguments of a conversion.
pub fn avif_args(input: &str, output: &str, config: &ConversionConfig) -> (res: Vec<String>)
    ensures
        views(res@) == avif_args_spec(input@, output@, *config),
{
    let (lo, hi): (u8, u8) = match &config.format_specific_params {
        Some(FormatSpecificParams::Avif(a)) => (
            match a.min_quantizer { Some(x) => x, None => 0 },
            match a.max_quantizer { Some(x) => x, None => 63 },
        ),
        _ => (0, 63),
    };
    let mut v: Vec<String> = Vec::new();
    assert(views(v@) =~= seq![]);
    push_msg(&mut v, owned("--min"));
    push_msg(&mut v, decimal(lo as u64));
    push_msg(&mut v, owned("--max"));
    push_msg(&mut v, decimal(hi as u64));
    push_msg(&mut v, owned("-s"));
    push_msg(&mut v, decimal(config.speed as u64));
    push_msg(&mut v, owned("-q"));
    push_msg(&mut v, decimal(config.quality as u64));
    match &config.chroma_subsampling {
        Some(c) => {
            push_msg(&mut v, owned("-y"));
            push_msg(&mut v, owned(c.as_str()));
        },
        None => {},
    }
    match config.alpha_quality {
        Some(a) => {
            push_msg(&mut v, owned("--qalpha"));
            push_msg(&mut v, decimal(a as u64));
        },
        None => {},
    }
    push_msg(&mut v, owned(input));
    push_msg(&mut v, owned(output));
    assert(views(v@) =~= avif_args_spec(input@, output@, *config));
    v
}

/// `k / 10` as a float prints: the integer alone when `k` is a multiple
/// of ten, else with one decimal.
pub open spec fn tenths_text(k: nat) -> Seq<char> {
    if k % 10 == 0 {
        dec(k / 10)
    } else {
        dec(k / 10) + seq!['.', crate::text::digit_char(k % 10)]
    }
}

/// The JPEG XL effort for a speed: `10 - speed` kept within 1-9.
pub open spec fn jxl_effort(speed: u8) -> u8 {
    let e = 10 - speed;
    if e < 1 { 1 } else if e > 9 { 9 } else { e as u8 }
}

/// The distance part of the `cjxl` arguments.
pub open spec fn jxl_distance_part(input: Seq<char>, c: ConversionConfig) -> Seq<Seq<char>> {
    let ext = extension_of(input);
    let jpeg_in = ext is Some && (lowercase(ext->0) == "jpg"@ || lowercase(ext->0) == "jpeg"@);
    if !c.lossless {
        (if jpeg_in { seq!["--lossless_jpeg"@, "0"@] } else { seq![] }) + seq![
            "--distance"@,
            tenths_text((100 - c.quality) as nat),
        ]
    } else {
        seq![]
    }
}

/// The option flags of the `cjxl` arguments.
pub open spec fn jxl_flag_part(c: ConversionConfig) -> Seq<Seq<char>> {
    (if c.jxl_modular { seq!["--modular=1"@] } else { seq![] }) + (if c.jxl_progressive {
        seq!["--progressive"@]
    } else {
        seq![]
    }) + (if c.jxl_responsive { seq!["--responsive=1"@] } else { seq![] }) + if c.jxl_gaborish {
        seq!["--gaborish=1"@]
    } else {
        seq![]
    }
}

/// The `cjxl` arguments (after the program): input, output, effort, and
/// for lossy output the distance (`(100 - quality) / 10`, with JPEG input
/// also turning off lossless JPEG recompression), then the enabled options.
pub open spec fn jxl_args_spec(input: Seq<char>, output: Seq<char>, c: ConversionConfig) -> Seq<Seq<char>> {
    seq![input, output, "--effort"@, dec(jxl_effort(c.speed) as nat)] + jxl_distance_part(input, c) + jxl_flag_part(c)
}

fn tenths_string(k: u8) -> (res: String)
    ensures
        res@ == tenths_text(k as nat),
{
    let mut d = decimal((k / 10) as u64);
    if k % 10 != 0 {
        push_char(&mut d, '.');
        let digit: u8 = k % 10;
        let c: char = (digit + 48) as char;
        assert(c == crate::text::digit_char((k % 10) as nat));
        push_char(&mut d, c);
    }
    assert(d@ =~= tenths_text(k as nat));
    d
}

fn jxl_distance_args(input: &str, config: &ConversionConfig) -> (res: Vec<String>)
    requires
        config.quality <= 100,
    ensures
        views(res@) == jxl_distance_part(input@, *config),
{
    let mut v: Vec<String> = Vec::new();
    assert(views(v@) =~= seq![]);
    if !config.lossless {
        let jpeg_in = match extension(input) {
            Some(e) => {
                let l = to_lower(e.as_str());
                str_eq(l.as_str(), "jpg") || str_eq(l.as_str(), "jpeg")
            },
            None => false,
        };
        if jpeg_in {
            push_msg(&mut v, owned("--lossless_jpeg"));
            push_msg(&mut v, owned("0"));
        }
        push_msg(&mut v, owned("--distance"));
        push_msg(&mut v, tenths_string(100 - config.quality));
    }
    assert(views(v@) =~= jxl_distance_part(input@, *config));
    v
}

fn jxl_flag_args(config: &ConversionConfig) -> (res: Vec<String>)
    ensures
        views(res@) == jxl_flag_part(*config),
{
    let mut v: Vec<String> = Vec::new();
    assert(views(v@) =~= seq![]);
    if config.jxl_modular {
        push_msg(&mut v, owned("--modular=1"));
    }
    if config.jxl_progressive {
        push_msg(&mut v, owned("--progressive"));
    }
    if config.jxl_responsive {
        push_msg(&mut v, owned("--responsive=1"));
    }
    if config.jxl_gaborish {
        push_msg(&mut v, owned("--gaborish=1"));
    }
    assert(views(v@) =~= jxl_flag_part(*config));
    v
}

/// The `cjxl` arguments of a conversion.
pub fn jxl_args(input: &str, output: &str, config: &ConversionConfig) -> (res: Vec<String>)
    requires
        config.speed <= 10,
        config.quality <= 100,
    ensures
        views(res@) == jxl_args_spec(input@, output@, *config),
{
    let raw: u8 = 10 - config.speed;
    let effort: u8 = if raw < 1 { 1 } else if raw > 9 { 9 } else { raw };
    let mut v: Vec<String> = Vec::new();
    assert(views(v@) =~= seq![]);
    push_msg(&mut v, owned(input));
    push_msg(&mut v, owned(output));
    push_msg(&mut v, owned("--effort"));
    push_msg(&mut v, decimal(effort as u64));
    crate::text::append_msgs(&mut v, jxl_distance_args(input, config));
    crate::text::append_msgs(&mut v, jxl_flag_args(config));
    v
}

// ───────────────────────── XMP sidecars ─────────────────────────

/// The path with its extension replaced, as `PathBuf::set_extension` does:
/// cut right after the file stem, then `.` and the new extension; a path
/// without a file name stays as it is.
pub open spec fn with_extension(p: Seq<char>, ext: Seq<char>) -> Seq<char> {
    match file_name_of(p) {
        None => p,
        Some(_) => {
            let t = trim_tail(p);
            let start = after_last_slash(t);
            p.subrange(0, start + stem_of(p)->0.len()) + if ext.len() > 0 { seq!['.'] + ext } else { seq![] }
        },
    }
}

/// The XMP sidecar of a file: the same path with the extension `xmp`.
pub fn get_xmp_sidecar_path(file_path: &str) -> (res: String)
    ensures
        res@ == with_extension(file_path@, "xmp"@),
{
    let v = chars_of(file_path);
    let end = crate::paths::trimmed_end(&v);
    let start = crate::paths::component_start(&v, end);
    match crate::paths::file_stem(file_path) {
        None => owned(file_path),
        Some(stem) => {
            let n = stem.unicode_len();
            proof {
                assert(file_name_of(file_path@) is Some);
                assert(v@.subrange(0, end as int).subrange(start as int, end as int) =~= v@.subrange(start as int, end as int));
                lemma_stem_len(file_path@);
            }
            let keep = vec_slice(&v, 0, start + n);
            let mut out = string_from_chars(keep.as_slice());
            out.append(".xmp");
            proof {
                reveal_strlit("xmp");
                reveal_strlit(".xmp");
                assert(".xmp"@ =~= seq!['.'] + "xmp"@);
            }
            out
        },
    }
}

proof fn lemma_stem_len(p: Seq<char>)
    requires
        file_name_of(p) is Some,
    ensures
        after_last_slash(trim_tail(p)) + stem_of(p)->0.len() <= trim_tail(p).len(),
        trim_tail(p).len() <= p.len(),
{
    lemma_trim_tail_prefix(p);
    let t = trim_tail(p);
    crate::paths::lemma_after_last_slash_bounds(t);
    let name = file_name_of(p)->0;
    crate::paths::lemma_last_dot_bounds(name);
}

proof fn lemma_trim_tail_prefix(p: Seq<char>)
    ensures
        trim_tail(p).len() <= p.len(),
        trim_tail(p) == p.subrange(0, trim_tail(p).len() as int),
    decreases p.len(),
{
    if p.len() > 0 && p.last() == '/' {
        lemma_trim_tail_prefix(p.drop_last());
        assert(p.drop_last().subrange(0, trim_tail(p).len() as int) =~= p.subrange(0, trim_tail(p).len() as int));
    } else if p.len() >= 2 && p.last() == '.' && p[p.len() - 2] == '/' {
        lemma_trim_tail_prefix(p.subrange(0, p.len() - 2));
        assert(p.subrange(0, p.len() - 2).subrange(0, trim_tail(p).len() as int) =~= p.subrange(
            0,
            trim_tail(p).len() as int,
        ));
    } else {
        assert(p.subrange(0, p.len() as int) =~= p);
    }
}

/// The output of `exiftool -XMP:all` shows XMP data: it is not blank and
/// does not say `no XMP`.
pub open spec fn xmp_listing_ok(stdout: Seq<char>) -> bool {
    !all_blank(stdout) && !has_sub(stdout, "no XMP"@)
}

/// Every character is white space (as `str::trim` removes it).
pub open spec fn all_blank(s: Seq<char>) -> bool {
    forall|i: int| 0 <= i < s.len() ==> crate::filename_normalizer::is_space(#[trigger] s[i])
}

/// Whether merged XMP data was found in the output's listing.
pub fn xmp_data_verified(stdout: &str) -> (res: bool)
    ensures
        res == xmp_listing_ok(stdout@),
{
    let n = stdout.unicode_len();
    let mut blank = true;
    let mut i: usize = 0;
    while i < n
        invariant
            n == stdout@.len(),
            i <= n,
            blank == forall|j: int| 0 <= j < i ==> crate::filename_normalizer::is_space(#[trigger] stdout@[j]),
        decreases n - i,
    {
        let c = stdout.get_char(i);
        let u = c as u32;
        let sp = (0x09 <= u && u <= 0x0D) || u == 0x20 || u == 0x85 || u == 0xA0 || u == 0x1680 || (0x2000 <= u
            && u <= 0x200A) || u == 0x2028 || u == 0x2029 || u == 0x202F || u == 0x205F || u == 0x3000;
        if !sp {
            blank = false;
        }
        i = i + 1;
    }
    !blank && !contains_str(stdout, "no XMP")
}


/// The canonical name of a target format: `jpeg` for `jpg`, `tiff` for
/// `tif`, `jxl` for `jpegxl`, and the name itself otherwise.
pub open spec fn canonical_format(f: Seq<char>) -> Seq<char> {
    if f == "jpg"@ {
        "jpeg"@
    } else if f == "tif"@ {
        "tiff"@
    } else if f == "jpegxl"@ {
        "jxl"@
    } else {
        f
    }
}

/// The strategy chosen for a target format writes that very format: its
/// name is the format's canonical name followed by `_native` or
/// `_external`.
pub proof fn law_strategy_writes_requested_format(f: Seq<char>)
    requires
        strategy_spec(f) is Some,
    ensures
        ({
            let n = strategy_name_spec(strategy_spec(f)->0);
            n == canonical_format(f) + "_native"@ || n == canonical_format(f) + "_external"@
        }),
{
    reveal_strlit("webp");
    reveal_strlit("png");
    reveal_strlit("jpg");
    reveal_strlit("jpeg");
    reveal_strlit("gif");
    reveal_strlit("bmp");
    reveal_strlit("tiff");
    reveal_strlit("tif");
    reveal_strlit("avif");
    reveal_strlit("jxl");
    reveal_strlit("jpegxl");
    reveal_strlit("_native");
    reveal_strlit("_external");
    reveal_strlit("webp_native");
    reveal_strlit("png_native");
    reveal_strlit("jpeg_native");
    reveal_strlit("gif_native");
    reveal_strlit("bmp_native");
    reveal_strlit("tiff_native");
    reveal_strlit("avif_external");
    reveal_strlit("jxl_external");
    if f == "webp"@ {
        assert(f.len() == 4 && f[0] == 'w' && f[1] == 'e');
        assert(canonical_format(f) == "webp"@);
        assert("webp_native"@ =~= "webp"@ + "_native"@);
    } else if f == "png"@ {
        assert(f.len() == 3 && f[0] == 'p' && f[1] == 'n');
        assert(canonical_format(f) == "png"@);
        assert("png_native"@ =~= "png"@ + "_native"@);
    } else if f == "jpg"@ {
        assert(f.len() == 3 && f[0] == 'j' && f[1] == 'p');
        assert(canonical_format(f) == "jpeg"@);
        assert("jpeg_native"@ =~= "jpeg"@ + "_native"@);
    } else if f == "jpeg"@ {
        assert(f.len() == 4 && f[0] == 'j' && f[1] == 'p');
        assert(canonical_format(f) == "jpeg"@);
        assert("jpeg_native"@ =~= "jpeg"@ + "_native"@);
    } else if f == "gif"@ {
        assert(f.len() == 3 && f[0] == 'g' && f[1] == 'i');
        assert(canonical_format(f) == "gif"@);
        assert("gif_native"@ =~= "gif"@ + "_native"@);
    } else if f == "bmp"@ {
        assert(f.len() == 3 && f[0] == 'b' && f[1] == 'm');
        assert(canonical_format(f) == "bmp"@);
        assert("bmp_native"@ =~= "bmp"@ + "_native"@);
    } else if f == "tiff"@ {
        assert(f.len() == 4 && f[0] == 't' && f[1] == 'i');
        assert(canonical_format(f) == "tiff"@);
        assert("tiff_native"@ =~= "tiff"@ + "_native"@);
    } else if f == "tif"@ {
        assert(f.len() == 3 && f[0] == 't' && f[1] == 'i');
        assert(canonical_format(f) == "tiff"@);
        assert("tiff_native"@ =~= "tiff"@ + "_native"@);
    } else if f == "avif"@ {
        assert(f.len() == 4 && f[0] == 'a' && f[1] == 'v');
        assert(canonical_format(f) == "avif"@);
        assert("avif_external"@ =~= "avif"@ + "_external"@);
    } else if f == "jxl"@ {
        assert(f.len() == 3 && f[0] == 'j' && f[1] == 'x');
        assert(canonical_format(f) == "jxl"@);
        assert("jxl_external"@ =~= "jxl"@ + "_external"@);
    } else if f == "jpegxl"@ {
        assert(f.len() == 6 && f[0] == 'j' && f[1] == 'p');
        assert(canonical_format(f) == "jxl"@);
        assert("jxl_external"@ =~= "jxl"@ + "_external"@);
    }
}

/// Every format of the supported-format table has a conversion strategy.
pub proof fn law_supported_formats_have_strategy(f: SupportedFormat)
    ensures
        strategy_spec(f.ext_spec()) is Some,
{
}


/// Every strategy is the one chosen for the format it writes: asked for
/// that format, under its canonical name, the converter picks it.
pub proof fn law_every_strategy_is_reachable(s: ConversionStrategy)
    ensures
        exists|f: Seq<char>| canonical_format(f) == f && #[trigger] strategy_spec(f) == Some(s),
{
    reveal_strlit("webp");
    reveal_strlit("png");
    reveal_strlit("jpeg");
    reveal_strlit("gif");
    reveal_strlit("bmp");
    reveal_strlit("tiff");
    reveal_strlit("avif");
    reveal_strlit("jxl");
    reveal_strlit("jpg");
    reveal_strlit("tif");
    reveal_strlit("jpegxl");
    match s {
        ConversionStrategy::WebpNative => {
            let f = "webp"@;
            assert(f.len() == 4 && f[0] == 'w' && f[1] == 'e');
            assert(canonical_format(f) == f && strategy_spec(f) == Some(s));
        },
        ConversionStrategy::PngNative => {
            let f = "png"@;
            assert(f.len() == 3 && f[0] == 'p' && f[1] == 'n');
            assert(canonical_format(f) == f && strategy_spec(f) == Some(s));
        },
        ConversionStrategy::JpegNative => {
            let f = "jpeg"@;
            assert(f.len() == 4 && f[0] == 'j' && f[1] == 'p');
            assert(canonical_format(f) == f && strategy_spec(f) == Some(s));
        },
        ConversionStrategy::GifNative => {
            let f = "gif"@;
            assert(f.len() == 3 && f[0] == 'g' && f[1] == 'i');
            assert(canonical_format(f) == f && strategy_spec(f) == Some(s));
        },
        ConversionStrategy::BmpNative => {
            let f = "bmp"@;
            assert(f.len() == 3 && f[0] == 'b' && f[1] == 'm');
            assert(canonical_format(f) == f && strategy_spec(f) == Some(s));
        },
        ConversionStrategy::TiffNative => {
            let f = "tiff"@;
            assert(f.len() == 4 && f[0] == 't' && f[1] == 'i');
            assert(canonical_format(f) == f && strategy_spec(f) == Some(s));
        },
        ConversionStrategy::AvifExternal => {
            let f = "avif"@;
            assert(f.len() == 4 && f[0] == 'a' && f[1] == 'v');
            assert(canonical_format(f) == f && strategy_spec(f) == Some(s));
        },
        ConversionStrategy::JxlExternal => {
            let f = "jxl"@;
            assert(f.len() == 3 && f[0] == 'j' && f[1] == 'x');
            assert(canonical_format(f) == f && strategy_spec(f) == Some(s));
        },
    }
}

} // verus!
