//! The format knowledge base: for each image, video and audio format what
//! it can do, how fast it is, what it is for, how widely it is supported
//! and how efficiently it compresses; and the advice drawn from it.
//!
//! Ratios and percentages are `f64` values in the interface, carried as
//! their bit patterns.

use vstd::prelude::*;
use crate::floatbits::{f64_lt, lt};
use crate::text::{owned, str_eq};

verus! {

/// What a format can do.
#[derive(Debug, Clone)]
pub struct FormatCapabilities {
    pub supports_alpha: bool,
    pub supports_animation: bool,
    pub supports_lossless: bool,
    pub supports_lossy: bool,
    pub supports_hdr: bool,
    pub max_dimensions: u32,
    pub bit_depth_max: u8,
    pub color_space_support: Vec<String>,
}

/// How fast a format encodes or decodes.
#[derive(Debug, Clone, Copy, PartialEq, Eq, Structural)]
pub enum Speed {
    VerySlow,
    Slow,
    Medium,
    Fast,
    VeryFast,
}

/// What a format is used for.
#[derive(Debug, Clone, Copy, PartialEq, Eq, Structural)]
pub enum UseCase {
    WebPhotography,
    WebGraphics,
    Archival,
    Printing,
    Animation,
    Screenshots,
    Medical,
    Scientific,
}

/// The kind of media a format carries.
#[derive(Debug, Clone, Copy, PartialEq, Eq, Structural)]
pub enum MediaType {
    Image,
    Video,
    Audio,
}

/// The weight of an encoding speed in a format's score, in tenths:
/// very fast 10, fast 8, medium 6, slow 4, very slow 2.
pub open spec fn speed_tenths_spec(s: Speed) -> u8 {
    match s {
        Speed::VeryFast => 10,
        Speed::Fast => 8,
        Speed::Medium => 6,
        Speed::Slow => 4,
        Speed::VerySlow => 2,
    }
}

/// The weight of an encoding speed in a format's score, in tenths.
pub fn speed_tenths(s: Speed) -> (res: u8)
    ensures
        res == speed_tenths_spec(s),
{
    match s {
        Speed::VeryFast => 10,
        Speed::Fast => 8,
        Speed::Medium => 6,
        Speed::Slow => 4,
        Speed::VerySlow => 2,
    }
}

/// How a format performs.
#[derive(Debug, Clone, Copy, PartialEq, Eq, Structural)]
pub struct FormatPerformance {
    pub encode_speed: Speed,
    pub decode_speed: Speed,
    /// The output size against the baseline format (bits of an `f64`).
    pub compression_ratio_bits: u64,
    /// How much quality is kept, 0..1 (bits of an `f64`).
    pub quality_retention_bits: u64,
}

/// Which browsers display a format.
#[derive(Debug, Clone, Copy, PartialEq, Eq, Structural)]
pub struct BrowserSupport {
    pub chrome: bool,
    pub firefox: bool,
    pub safari: bool,
    pub edge: bool,
    /// The share of users whose browser displays it, in percent (bits of an `f64`).
    pub global_support_percentage_bits: u64,
}

/// Everything known of a format.
#[derive(Debug, Clone)]
pub struct FormatKnowledge {
    pub name: String,
    pub full_name: String,
    pub year_released: u16,
    pub media_type: MediaType,
    pub capabilities: FormatCapabilities,
    pub performance: FormatPerformance,
    pub use_cases: Vec<UseCase>,
    pub strengths: Vec<String>,
    pub weaknesses: Vec<String>,
    pub browser_support: BrowserSupport,
    /// Compression efficiency, 0..1, against the baseline (bits of an `f64`).
    pub compression_efficiency_bits: u64,
}

/// What a format can do, as plain values.
#[verifier::ext_equal]
pub struct CapabilitiesView {
    pub supports_alpha: bool,
    pub supports_animation: bool,
    pub supports_lossless: bool,
    pub supports_lossy: bool,
    pub supports_hdr: bool,
    pub max_dimensions: u32,
    pub bit_depth_max: u8,
    pub color_space_support: Seq<Seq<char>>,
}

impl View for FormatCapabilities {
    type V = CapabilitiesView;

    open spec fn view(&self) -> CapabilitiesView {
        CapabilitiesView {
            supports_alpha: self.supports_alpha,
            supports_animation: self.supports_animation,
            supports_lossless: self.supports_lossless,
            supports_lossy: self.supports_lossy,
            supports_hdr: self.supports_hdr,
            max_dimensions: self.max_dimensions,
            bit_depth_max: self.bit_depth_max,
            color_space_support: self.color_space_support@.map_values(|c: String| c@),
        }
    }
}

/// Everything known of a format, as plain values.
#[verifier::ext_equal]
pub struct KnowledgeView {
    pub name: Seq<char>,
    pub full_name: Seq<char>,
    pub year_released: u16,
    pub media_type: MediaType,
    pub capabilities: CapabilitiesView,
    pub performance: FormatPerformance,
    pub use_cases: Seq<UseCase>,
    pub strengths: Seq<Seq<char>>,
    pub weaknesses: Seq<Seq<char>>,
    pub browser_support: BrowserSupport,
    pub compression_efficiency_bits: u64,
}

impl View for FormatKnowledge {
    type V = KnowledgeView;

    open spec fn view(&self) -> KnowledgeView {
        KnowledgeView {
            name: self.name@,
            full_name: self.full_name@,
            year_released: self.year_released,
            media_type: self.media_type,
            capabilities: self.capabilities@,
            performance: self.performance,
            use_cases: self.use_cases@,
            strengths: self.strengths@.map_values(|t: String| t@),
            weaknesses: self.weaknesses@.map_values(|t: String| t@),
            browser_support: self.browser_support,
            compression_efficiency_bits: self.compression_efficiency_bits,
        }
    }
}

/// What the base knows of `avif`.
#[verifier::opaque]
pub open spec fn avif_view() -> KnowledgeView {
    KnowledgeView {
        name: "avif"@,
        full_name: "AV1 Image File Format"@,
        year_released: 2019,
        media_type: MediaType::Image,
        capabilities: CapabilitiesView {
            supports_alpha: true,
            supports_animation: true,
            supports_lossless: true,
            supports_lossy: true,
            supports_hdr: true,
            max_dimensions: 65536,
            bit_depth_max: 12,
            color_space_support: seq![
                "sRGB"@,
                "P3"@,
                "Rec2020"@,
            ],
        },
        performance: FormatPerformance {
            encode_speed: Speed::Slow,
            decode_speed: Speed::Medium,
            compression_ratio_bits: 0x3FE0000000000000u64,
            quality_retention_bits: 0x3FEF5C28F5C28F5Cu64,
        },
        use_cases: seq![UseCase::WebPhotography, UseCase::Archival],
        strengths: seq![
            "Best compression efficiency"@,
            "HDR support"@,
            "Wide color gamut"@,
            "Royalty-free"@,
        ],
        weaknesses: seq![
            "Slow encoding"@,
            "Limited browser support (85%)"@,
        ],
        browser_support: BrowserSupport {
            chrome: true,
            firefox: true,
            safari: true,
            edge: true,
            global_support_percentage_bits: 0x4055400000000000u64,
        },
        compression_efficiency_bits: 0x3FEE666666666666u64,
    }
}

/// What the base knows of `jxl`.
#[verifier::opaque]
pub open spec fn jxl_view() -> KnowledgeView {
    KnowledgeView {
        name: "jxl"@,
        full_name: "JPEG XL"@,
        year_released: 2021,
        media_type: MediaType::Image,
        capabilities: CapabilitiesView {
            supports_alpha: true,
            supports_animation: true,
            supports_lossless: true,
            supports_lossy: true,
            supports_hdr: true,
            max_dimensions: 1073741824,
            bit_depth_max: 32,
            color_space_support: seq![
                "sRGB"@,
                "P3"@,
                "Rec2020"@,
                "XYZ"@,
            ],
        },
        performance: FormatPerformance {
            encode_speed: Speed::Medium,
            decode_speed: Speed::Fast,
            compression_ratio_bits: 0x3FDCCCCCCCCCCCCDu64,
            quality_retention_bits: 0x3FEFAE147AE147AEu64,
        },
        use_cases: seq![UseCase::Archival, UseCase::Printing, UseCase::Scientific],
        strengths: seq![
            "Best quality retention"@,
            "Fastest decode speed"@,
            "Progressive decoding"@,
            "Lossless JPEG recompression"@,
            "32-bit float support"@,
        ],
        weaknesses: seq![
            "Very limited browser support (5%)"@,
            "Requires external tools"@,
        ],
        browser_support: BrowserSupport {
            chrome: false,
            firefox: false,
            safari: false,
            edge: false,
            global_support_percentage_bits: 0x4014000000000000u64,
        },
        compression_efficiency_bits: 0x3FEF5C28F5C28F5Cu64,
    }
}

/// What the base knows of `webp`.
#[verifier::opaque]
pub open spec fn webp_view() -> KnowledgeView {
    KnowledgeView {
        name: "webp"@,
        full_name: "WebP"@,
        year_released: 2010,
        media_type: MediaType::Image,
        capabilities: CapabilitiesView {
            supports_alpha: true,
            supports_animation: true,
            supports_lossless: true,
            supports_lossy: true,
            supports_hdr: false,
            max_dimensions: 16383,
            bit_depth_max: 8,
            color_space_support: seq![
                "sRGB"@,
            ],
        },
        performance: FormatPerformance {
            encode_speed: Speed::Fast,
            decode_speed: Speed::Fast,
            compression_ratio_bits: 0x3FE6666666666666u64,
            quality_retention_bits: 0x3FEE666666666666u64,
        },
        use_cases: seq![UseCase::WebPhotography, UseCase::WebGraphics, UseCase::Animation],
        strengths: seq![
            "Excellent browser support (97%)"@,
            "Fast encode/decode"@,
            "Good compression"@,
            "Animation support"@,
        ],
        weaknesses: seq![
            "No HDR support"@,
            "8-bit only"@,
            "Not ideal for archival"@,
        ],
        browser_support: BrowserSupport {
            chrome: true,
            firefox: true,
            safari: true,
            edge: true,
            global_support_percentage_bits: 0x4058400000000000u64,
        },
        compression_efficiency_bits: 0x3FEB333333333333u64,
    }
}

/// What the base knows of `png`.
#[verifier::opaque]
pub open spec fn png_view() -> KnowledgeView {
    KnowledgeView {
        name: "png"@,
        full_name: "Portable Network Graphics"@,
        year_released: 1996,
        media_type: MediaType::Image,
        capabilities: CapabilitiesView {
            supports_alpha: true,
            supports_animation: false,
            supports_lossless: true,
            supports_lossy: false,
            supports_hdr: false,
            max_dimensions: 2147483647,
            bit_depth_max: 16,
            color_space_support: seq![
                "sRGB"@,
            ],
        },
        performance: FormatPerformance {
            encode_speed: Speed::Fast,
            decode_speed: Speed::VeryFast,
            compression_ratio_bits: 0x3FF0000000000000u64,
            quality_retention_bits: 0x3FF0000000000000u64,
        },
        use_cases: seq![UseCase::WebGraphics, UseCase::Screenshots, UseCase::Archival],
        strengths: seq![
            "Universal support (100%)"@,
            "Lossless compression"@,
            "Simple and reliable"@,
            "16-bit support"@,
        ],
        weaknesses: seq![
            "Large file sizes"@,
            "No animation (use APNG)"@,
            "No HDR"@,
        ],
        browser_support: BrowserSupport {
            chrome: true,
            firefox: true,
            safari: true,
            edge: true,
            global_support_percentage_bits: 0x4059000000000000u64,
        },
        compression_efficiency_bits: 0x3FE0000000000000u64,
    }
}

/// What the base knows of `jpeg`.
#[verifier::opaque]
pub open spec fn jpeg_view() -> KnowledgeView {
    KnowledgeView {
        name: "jpeg"@,
        full_name: "Joint Photographic Experts Group"@,
        year_released: 1992,
        media_type: MediaType::Image,
        capabilities: CapabilitiesView {
            supports_alpha: false,
            supports_animation: false,
            supports_lossless: false,
            supports_lossy: true,
            supports_hdr: false,
            max_dimensions: 65535,
            bit_depth_max: 8,
            color_space_support: seq![
                "sRGB"@,
                "CMYK"@,
            ],
        },
        performance: FormatPerformance {
            encode_speed: Speed::VeryFast,
            decode_speed: Speed::VeryFast,
            compression_ratio_bits: 0x3FF0000000000000u64,
            quality_retention_bits: 0x3FECCCCCCCCCCCCDu64,
        },
        use_cases: seq![UseCase::WebPhotography, UseCase::Printing],
        strengths: seq![
            "Universal support (100%)"@,
            "Very fast encode/decode"@,
            "Mature ecosystem"@,
            "Hardware acceleration"@,
        ],
        weaknesses: seq![
            "No transparency"@,
            "Lossy only"@,
            "Compression artifacts"@,
            "Outdated technology"@,
        ],
        browser_support: BrowserSupport {
            chrome: true,
            firefox: true,
            safari: true,
            edge: true,
            global_support_percentage_bits: 0x4059000000000000u64,
        },
        compression_efficiency_bits: 0x3FE3333333333333u64,
    }
}

/// What the base knows of `h266`.
#[verifier::opaque]
pub open spec fn h266_view() -> KnowledgeView {
    KnowledgeView {
        name: "h266"@,
        full_name: "Versatile Video Coding (VVC)"@,
        year_released: 2020,
        media_type: MediaType::Video,
        capabilities: CapabilitiesView {
            supports_alpha: true,
            supports_animation: true,
            supports_lossless: false,
            supports_lossy: true,
            supports_hdr: true,
            max_dimensions: 16384,
            bit_depth_max: 12,
            color_space_support: seq![
                "BT.709"@,
                "BT.2020"@,
                "BT.2100"@,
            ],
        },
        performance: FormatPerformance {
            encode_speed: Speed::VerySlow,
            decode_speed: Speed::Slow,
            compression_ratio_bits: 0x3FD6666666666666u64,
            quality_retention_bits: 0x3FEFAE147AE147AEu64,
        },
        use_cases: seq![UseCase::Archival, UseCase::WebPhotography],
        strengths: seq![
            "Best compression efficiency (30-50% better than H.265)"@,
            "Highest quality retention"@,
            "HDR and wide color gamut"@,
            "Future-proof technology"@,
        ],
        weaknesses: seq![
            "Very slow encoding"@,
            "Limited hardware support"@,
            "New standard, limited adoption"@,
        ],
        browser_support: BrowserSupport {
            chrome: false,
            firefox: false,
            safari: false,
            edge: false,
            global_support_percentage_bits: 0x4014000000000000u64,
        },
        compression_efficiency_bits: 0x3FEFAE147AE147AEu64,
    }
}

/// What the base knows of `h265`.
#[verifier::opaque]
pub open spec fn h265_view() -> KnowledgeView {
    KnowledgeView {
        name: "h265"@,
        full_name: "High Efficiency Video Coding (HEVC)"@,
        year_released: 2013,
        media_type: MediaType::Video,
        capabilities: CapabilitiesView {
            supports_alpha: true,
            supports_animation: true,
            supports_lossless: false,
            supports_lossy: true,
            supports_hdr: true,
            max_dimensions: 8192,
            bit_depth_max: 10,
            color_space_support: seq![
                "BT.709"@,
                "BT.2020"@,
            ],
        },
        performance: FormatPerformance {
            encode_speed: Speed::Slow,
            decode_speed: Speed::Medium,
            compression_ratio_bits: 0x3FE0000000000000u64,
            quality_retention_bits: 0x3FEEB851EB851EB8u64,
        },
        use_cases: seq![UseCase::WebPhotography, UseCase::Archival],
        strengths: seq![
            "50% better compression than H.264"@,
            "HDR support"@,
            "4K/8K ready"@,
            "Wide device support"@,
        ],
        weaknesses: seq![
            "Slow encoding"@,
            "Patent licensing issues"@,
        ],
        browser_support: BrowserSupport {
            chrome: true,
            firefox: false,
            safari: true,
            edge: true,
            global_support_percentage_bits: 0x4052C00000000000u64,
        },
        compression_efficiency_bits: 0x3FED70A3D70A3D71u64,
    }
}

/// What the base knows of `av1`.
#[verifier::opaque]
pub open spec fn av1_view() -> KnowledgeView {
    KnowledgeView {
        name: "av1"@,
        full_name: "AOMedia Video 1"@,
        year_released: 2018,
        media_type: MediaType::Video,
        capabilities: CapabilitiesView {
            supports_alpha: true,
            supports_animation: true,
            supports_lossless: false,
            supports_lossy: true,
            supports_hdr: true,
            max_dimensions: 65536,
            bit_depth_max: 12,
            color_space_support: seq![
                "BT.709"@,
                "BT.2020"@,
            ],
        },
        performance: FormatPerformance {
            encode_speed: Speed::VerySlow,
            decode_speed: Speed::Medium,
            compression_ratio_bits: 0x3FD999999999999Au64,
            quality_retention_bits: 0x3FEF5C28F5C28F5Cu64,
        },
        use_cases: seq![UseCase::WebPhotography, UseCase::Archival],
        strengths: seq![
            "Best compression efficiency"@,
            "Royalty-free"@,
            "HDR and wide color gamut"@,
            "Growing browser support"@,
        ],
        weaknesses: seq![
            "Very slow encoding"@,
            "Limited hardware support"@,
        ],
        browser_support: BrowserSupport {
            chrome: true,
            firefox: true,
            safari: false,
            edge: true,
            global_support_percentage_bits: 0x4051800000000000u64,
        },
        compression_efficiency_bits: 0x3FEEB851EB851EB8u64,
    }
}

/// What the base knows of `vp9`.
#[verifier::opaque]
pub open spec fn vp9_view() -> KnowledgeView {
    KnowledgeView {
        name: "vp9"@,
        full_name: "VP9"@,
        year_released: 2013,
        media_type: MediaType::Video,
        capabilities: CapabilitiesView {
            supports_alpha: true,
            supports_animation: true,
            supports_lossless: false,
            supports_lossy: true,
            supports_hdr: true,
            max_dimensions: 16384,
            bit_depth_max: 12,
            color_space_support: seq![
                "BT.709"@,
                "BT.2020"@,
            ],
        },
        performance: FormatPerformance {
            encode_speed: Speed::Slow,
            decode_speed: Speed::Medium,
            compression_ratio_bits: 0x3FE199999999999Au64,
            quality_retention_bits: 0x3FEE666666666666u64,
        },
        use_cases: seq![UseCase::WebPhotography],
        strengths: seq![
            "Royalty-free"@,
            "Good compression"@,
            "Wide browser support"@,
        ],
        weaknesses: seq![
            "Slower than H.265"@,
            "Being replaced by AV1"@,
        ],
        browser_support: BrowserSupport {
            chrome: true,
            firefox: true,
            safari: false,
            edge: true,
            global_support_percentage_bits: 0x4057C00000000000u64,
        },
        compression_efficiency_bits: 0x3FEC28F5C28F5C29u64,
    }
}

/// What the base knows of `h264`.
#[verifier::opaque]
pub open spec fn h264_view() -> KnowledgeView {
    KnowledgeView {
        name: "h264"@,
        full_name: "Advanced Video Coding (AVC) - LEGACY"@,
        year_released: 2003,
        media_type: MediaType::Video,
        capabilities: CapabilitiesView {
            supports_alpha: false,
            supports_animation: true,
            supports_lossless: false,
            supports_lossy: true,
            supports_hdr: false,
            max_dimensions: 4096,
            bit_depth_max: 8,
            color_space_support: seq![
                "BT.709"@,
            ],
        },
        performance: FormatPerformance {
            encode_speed: Speed::Fast,
            decode_speed: Speed::VeryFast,
            compression_ratio_bits: 0x3FF0000000000000u64,
            quality_retention_bits: 0x3FED70A3D70A3D71u64,
        },
        use_cases: seq![],
        strengths: seq![
            "Universal support (100%)"@,
            "Hardware acceleration everywhere"@,
            "Fast encode/decode"@,
        ],
        weaknesses: seq![
            "OUTDATED - Use H.266/AV1/H.265 instead"@,
            "Poor compression efficiency"@,
            "No HDR support"@,
            "No modern features"@,
            "Patent licensing issues"@,
        ],
        browser_support: BrowserSupport {
            chrome: true,
            firefox: true,
            safari: true,
            edge: true,
            global_support_percentage_bits: 0x4059000000000000u64,
        },
        compression_efficiency_bits: 0x3FE0000000000000u64,
    }
}

/// What the base knows of `opus`.
#[verifier::opaque]
pub open spec fn opus_view() -> KnowledgeView {
    KnowledgeView {
        name: "opus"@,
        full_name: "Opus Interactive Audio Codec"@,
        year_released: 2012,
        media_type: MediaType::Audio,
        capabilities: CapabilitiesView {
            supports_alpha: false,
            supports_animation: false,
            supports_lossless: false,
            supports_lossy: true,
            supports_hdr: false,
            max_dimensions: 0,
            bit_depth_max: 24,
            color_space_support: Seq::empty(),
        },
        performance: FormatPerformance {
            encode_speed: Speed::Fast,
            decode_speed: Speed::VeryFast,
            compression_ratio_bits: 0x3FE3333333333333u64,
            quality_retention_bits: 0x3FEF5C28F5C28F5Cu64,
        },
        use_cases: seq![UseCase::WebPhotography],
        strengths: seq![
            "Best audio quality at low bitrates"@,
            "Royalty-free"@,
            "Low latency"@,
            "Wide bitrate range (6-510 kbps)"@,
        ],
        weaknesses: seq![
            "Limited hardware support"@,
            "Not supported in MP4 container"@,
        ],
        browser_support: BrowserSupport {
            chrome: true,
            firefox: true,
            safari: true,
            edge: true,
            global_support_percentage_bits: 0x4058400000000000u64,
        },
        compression_efficiency_bits: 0x3FEE666666666666u64,
    }
}

/// What the base knows of `aac`.
#[verifier::opaque]
pub open spec fn aac_view() -> KnowledgeView {
    KnowledgeView {
        name: "aac"@,
        full_name: "Advanced Audio Coding"@,
        year_released: 1997,
        media_type: MediaType::Audio,
        capabilities: CapabilitiesView {
            supports_alpha: false,
            supports_animation: false,
            supports_lossless: false,
            supports_lossy: true,
            supports_hdr: false,
            max_dimensions: 0,
            bit_depth_max: 24,
            color_space_support: Seq::empty(),
        },
        performance: FormatPerformance {
            encode_speed: Speed::Fast,
            decode_speed: Speed::VeryFast,
            compression_ratio_bits: 0x3FF0000000000000u64,
            quality_retention_bits: 0x3FEE666666666666u64,
        },
        use_cases: seq![UseCase::WebPhotography],
        strengths: seq![
            "Universal support"@,
            "Hardware acceleration"@,
            "Good quality"@,
            "MP4 compatible"@,
        ],
        weaknesses: seq![
            "Patent licensing"@,
            "Not as efficient as Opus"@,
        ],
        browser_support: BrowserSupport {
            chrome: true,
            firefox: true,
            safari: true,
            edge: true,
            global_support_percentage_bits: 0x4059000000000000u64,
        },
        compression_efficiency_bits: 0x3FEB333333333333u64,
    }
}

/// What the base knows of `mp3`.
#[verifier::opaque]
pub open spec fn mp3_view() -> KnowledgeView {
    KnowledgeView {
        name: "mp3"@,
        full_name: "MPEG-1 Audio Layer III"@,
        year_released: 1993,
        media_type: MediaType::Audio,
        capabilities: CapabilitiesView {
            supports_alpha: false,
            supports_animation: false,
            supports_lossless: false,
            supports_lossy: true,
            supports_hdr: false,
            max_dimensions: 0,
            bit_depth_max: 16,
            color_space_support: Seq::empty(),
        },
        performance: FormatPerformance {
            encode_speed: Speed::VeryFast,
            decode_speed: Speed::VeryFast,
            compression_ratio_bits: 0x3FF3333333333333u64,
            quality_retention_bits: 0x3FEC28F5C28F5C29u64,
        },
        use_cases: seq![UseCase::WebPhotography],
        strengths: seq![
            "Universal support (100%)"@,
            "Very fast"@,
            "Simple"@,
        ],
        weaknesses: seq![
            "Outdated compression"@,
            "Lower quality than modern codecs"@,
        ],
        browser_support: BrowserSupport {
            chrome: true,
            firefox: true,
            safari: true,
            edge: true,
            global_support_percentage_bits: 0x4059000000000000u64,
        },
        compression_efficiency_bits: 0x3FE4CCCCCCCCCCCDu64,
    }
}

/// What the base knows of `flac`.
#[verifier::opaque]
pub open spec fn flac_view() -> KnowledgeView {
    KnowledgeView {
        name: "flac"@,
        full_name: "Free Lossless Audio Codec"@,
        year_released: 2001,
        media_type: MediaType::Audio,
        capabilities: CapabilitiesView {
            supports_alpha: false,
            supports_animation: false,
            supports_lossless: true,
            supports_lossy: false,
            supports_hdr: false,
            max_dimensions: 0,
            bit_depth_max: 32,
            color_space_support: Seq::empty(),
        },
        performance: FormatPerformance {
            encode_speed: Speed::Fast,
            decode_speed: Speed::Fast,
            compression_ratio_bits: 0x3FE0000000000000u64,
            quality_retention_bits: 0x3FF0000000000000u64,
        },
        use_cases: seq![UseCase::Archival],
        strengths: seq![
            "Lossless compression"@,
            "Royalty-free"@,
            "Fast encode/decode"@,
            "High-res audio support"@,
        ],
        weaknesses: seq![
            "Large file sizes"@,
            "Limited browser support"@,
        ],
        browser_support: BrowserSupport {
            chrome: true,
            firefox: true,
            safari: true,
            edge: true,
            global_support_percentage_bits: 0x4055400000000000u64,
        },
        compression_efficiency_bits: 0x3FE8000000000000u64,
    }
}

/// The formats the base knows, in the order they are loaded: the image
/// formats, then the video codecs, then the audio codecs.
pub open spec fn knowledge_catalog() -> Seq<KnowledgeView> {
    seq![
        avif_view(),
        jxl_view(),
        webp_view(),
        png_view(),
        jpeg_view(),
        h266_view(),
        h265_view(),
        av1_view(),
        vp9_view(),
        h264_view(),
        opus_view(),
        aac_view(),
        mp3_view(),
        flac_view(),
    ]
}

/// The knowledge of `avif`.
fn avif_knowledge() -> (res: FormatKnowledge)
    ensures
        res@ == avif_view(),
{
    reveal(avif_view);
    FormatKnowledge {
        name: owned("avif"),
        full_name: owned("AV1 Image File Format"),
        year_released: 2019,
        media_type: MediaType::Image,
        capabilities: FormatCapabilities {
            supports_alpha: true,
            supports_animation: true,
            supports_lossless: true,
            supports_lossy: true,
            supports_hdr: true,
            max_dimensions: 65536,
            bit_depth_max: 12,
            color_space_support: vec![
                owned("sRGB"),
                owned("P3"),
                owned("Rec2020"),
            ],
        },
        performance: FormatPerformance {
            encode_speed: Speed::Slow,
            decode_speed: Speed::Medium,
            compression_ratio_bits: 0x3FE0000000000000u64,
            quality_retention_bits: 0x3FEF5C28F5C28F5Cu64,
        },
        use_cases: vec![UseCase::WebPhotography, UseCase::Archival],
        strengths: vec![
            owned("Best compression efficiency"),
            owned("HDR support"),
            owned("Wide color gamut"),
            owned("Royalty-free"),
        ],
        weaknesses: vec![
            owned("Slow encoding"),
            owned("Limited browser support (85%)"),
        ],
        browser_support: BrowserSupport {
            chrome: true,
            firefox: true,
            safari: true,
            edge: true,
            global_support_percentage_bits: 0x4055400000000000u64,
        },
        compression_efficiency_bits: 0x3FEE666666666666u64,
    }
}

/// The knowledge of `jxl`.
fn jxl_knowledge() -> (res: FormatKnowledge)
    ensures
        res@ == jxl_view(),
{
    reveal(jxl_view);
    FormatKnowledge {
        name: owned("jxl"),
        full_name: owned("JPEG XL"),
        year_released: 2021,
        media_type: MediaType::Image,
        capabilities: FormatCapabilities {
            supports_alpha: true,
            supports_animation: true,
            supports_lossless: true,
            supports_lossy: true,
            supports_hdr: true,
            max_dimensions: 1073741824,
            bit_depth_max: 32,
            color_space_support: vec![
                owned("sRGB"),
                owned("P3"),
                owned("Rec2020"),
                owned("XYZ"),
            ],
        },
        performance: FormatPerformance {
            encode_speed: Speed::Medium,
            decode_speed: Speed::Fast,
            compression_ratio_bits: 0x3FDCCCCCCCCCCCCDu64,
            quality_retention_bits: 0x3FEFAE147AE147AEu64,
        },
        use_cases: vec![UseCase::Archival, UseCase::Printing, UseCase::Scientific],
        strengths: vec![
            owned("Best quality retention"),
            owned("Fastest decode speed"),
            owned("Progressive decoding"),
            owned("Lossless JPEG recompression"),
            owned("32-bit float support"),
        ],
        weaknesses: vec![
            owned("Very limited browser support (5%)"),
            owned("Requires external tools"),
        ],
        browser_support: BrowserSupport {
            chrome: false,
            firefox: false,
            safari: false,
            edge: false,
            global_support_percentage_bits: 0x4014000000000000u64,
        },
        compression_efficiency_bits: 0x3FEF5C28F5C28F5Cu64,
    }
}

/// The knowledge of `webp`.
fn webp_knowledge() -> (res: FormatKnowledge)
    ensures
        res@ == webp_view(),
{
    reveal(webp_view);
    FormatKnowledge {
        name: owned("webp"),
        full_name: owned("WebP"),
        year_released: 2010,
        media_type: MediaType::Image,
        capabilities: FormatCapabilities {
            supports_alpha: true,
            supports_animation: true,
            supports_lossless: true,
            supports_lossy: true,
            supports_hdr: false,
            max_dimensions: 16383,
            bit_depth_max: 8,
            color_space_support: vec![
                owned("sRGB"),
            ],
        },
        performance: FormatPerformance {
            encode_speed: Speed::Fast,
            decode_speed: Speed::Fast,
            compression_ratio_bits: 0x3FE6666666666666u64,
            quality_retention_bits: 0x3FEE666666666666u64,
        },
        use_cases: vec![UseCase::WebPhotography, UseCase::WebGraphics, UseCase::Animation],
        strengths: vec![
            owned("Excellent browser support (97%)"),
            owned("Fast encode/decode"),
            owned("Good compression"),
            owned("Animation support"),
        ],
        weaknesses: vec![
            owned("No HDR support"),
            owned("8-bit only"),
            owned("Not ideal for archival"),
        ],
        browser_support: BrowserSupport {
            chrome: true,
            firefox: true,
            safari: true,
            edge: true,
            global_support_percentage_bits: 0x4058400000000000u64,
        },
        compression_efficiency_bits: 0x3FEB333333333333u64,
    }
}

/// The knowledge of `png`.
fn png_knowledge() -> (res: FormatKnowledge)
    ensures
        res@ == png_view(),
{
    reveal(png_view);
    FormatKnowledge {
        name: owned("png"),
        full_name: owned("Portable Network Graphics"),
        year_released: 1996,
        media_type: MediaType::Image,
        capabilities: FormatCapabilities {
            supports_alpha: true,
            supports_animation: false,
            supports_lossless: true,
            supports_lossy: false,
            supports_hdr: false,
            max_dimensions: 2147483647,
            bit_depth_max: 16,
            color_space_support: vec![
                owned("sRGB"),
            ],
        },
        performance: FormatPerformance {
            encode_speed: Speed::Fast,
            decode_speed: Speed::VeryFast,
            compression_ratio_bits: 0x3FF0000000000000u64,
            quality_retention_bits: 0x3FF0000000000000u64,
        },
        use_cases: vec![UseCase::WebGraphics, UseCase::Screenshots, UseCase::Archival],
        strengths: vec![
            owned("Universal support (100%)"),
            owned("Lossless compression"),
            owned("Simple and reliable"),
            owned("16-bit support"),
        ],
        weaknesses: vec![
            owned("Large file sizes"),
            owned("No animation (use APNG)"),
            owned("No HDR"),
        ],
        browser_support: BrowserSupport {
            chrome: true,
            firefox: true,
            safari: true,
            edge: true,
            global_support_percentage_bits: 0x4059000000000000u64,
        },
        compression_efficiency_bits: 0x3FE0000000000000u64,
    }
}

/// The knowledge of `jpeg`.
fn jpeg_knowledge() -> (res: FormatKnowledge)
    ensures
        res@ == jpeg_view(),
{
    reveal(jpeg_view);
    FormatKnowledge {
        name: owned("jpeg"),
        full_name: owned("Joint Photographic Experts Group"),
        year_released: 1992,
        media_type: MediaType::Image,
        capabilities: FormatCapabilities {
            supports_alpha: false,
            supports_animation: false,
            supports_lossless: false,
            supports_lossy: true,
            supports_hdr: false,
            max_dimensions: 65535,
            bit_depth_max: 8,
            color_space_support: vec![
                owned("sRGB"),
                owned("CMYK"),
            ],
        },
        performance: FormatPerformance {
            encode_speed: Speed::VeryFast,
            decode_speed: Speed::VeryFast,
            compression_ratio_bits: 0x3FF0000000000000u64,
            quality_retention_bits: 0x3FECCCCCCCCCCCCDu64,
        },
        use_cases: vec![UseCase::WebPhotography, UseCase::Printing],
        strengths: vec![
            owned("Universal support (100%)"),
            owned("Very fast encode/decode"),
            owned("Mature ecosystem"),
            owned("Hardware acceleration"),
        ],
        weaknesses: vec![
            owned("No transparency"),
            owned("Lossy only"),
            owned("Compression artifacts"),
            owned("Outdated technology"),
        ],
        browser_support: BrowserSupport {
            chrome: true,
            firefox: true,
            safari: true,
            edge: true,
            global_support_percentage_bits: 0x4059000000000000u64,
        },
        compression_efficiency_bits: 0x3FE3333333333333u64,
    }
}

/// The knowledge of `h266`.
fn h266_knowledge() -> (res: FormatKnowledge)
    ensures
        res@ == h266_view(),
{
    reveal(h266_view);
    FormatKnowledge {
        name: owned("h266"),
        full_name: owned("Versatile Video Coding (VVC)"),
        year_released: 2020,
        media_type: MediaType::Video,
        capabilities: FormatCapabilities {
            supports_alpha: true,
            supports_animation: true,
            supports_lossless: false,
            supports_lossy: true,
            supports_hdr: true,
            max_dimensions: 16384,
            bit_depth_max: 12,
            color_space_support: vec![
                owned("BT.709"),
                owned("BT.2020"),
                owned("BT.2100"),
            ],
        },
        performance: FormatPerformance {
            encode_speed: Speed::VerySlow,
            decode_speed: Speed::Slow,
            compression_ratio_bits: 0x3FD6666666666666u64,
            quality_retention_bits: 0x3FEFAE147AE147AEu64,
        },
        use_cases: vec![UseCase::Archival, UseCase::WebPhotography],
        strengths: vec![
            owned("Best compression efficiency (30-50% better than H.265)"),
            owned("Highest quality retention"),
            owned("HDR and wide color gamut"),
            owned("Future-proof technology"),
        ],
        weaknesses: vec![
            owned("Very slow encoding"),
            owned("Limited hardware support"),
            owned("New standard, limited adoption"),
        ],
        browser_support: BrowserSupport {
            chrome: false,
            firefox: false,
            safari: false,
            edge: false,
            global_support_percentage_bits: 0x4014000000000000u64,
        },
        compression_efficiency_bits: 0x3FEFAE147AE147AEu64,
    }
}

/// The knowledge of `h265`.
fn h265_knowledge() -> (res: FormatKnowledge)
    ensures
        res@ == h265_view(),
{
    reveal(h265_view);
    FormatKnowledge {
        name: owned("h265"),
        full_name: owned("High Efficiency Video Coding (HEVC)"),
        year_released: 2013,
        media_type: MediaType::Video,
        capabilities: FormatCapabilities {
            supports_alpha: true,
            supports_animation: true,
            supports_lossless: false,
            supports_lossy: true,
            supports_hdr: true,
            max_dimensions: 8192,
            bit_depth_max: 10,
            color_space_support: vec![
                owned("BT.709"),
                owned("BT.2020"),
            ],
        },
        performance: FormatPerformance {
            encode_speed: Speed::Slow,
            decode_speed: Speed::Medium,
            compression_ratio_bits: 0x3FE0000000000000u64,
            quality_retention_bits: 0x3FEEB851EB851EB8u64,
        },
        use_cases: vec![UseCase::WebPhotography, UseCase::Archival],
        strengths: vec![
            owned("50% better compression than H.264"),
            owned("HDR support"),
            owned("4K/8K ready"),
            owned("Wide device support"),
        ],
        weaknesses: vec![
            owned("Slow encoding"),
            owned("Patent licensing issues"),
        ],
        browser_support: BrowserSupport {
            chrome: true,
            firefox: false,
            safari: true,
            edge: true,
            global_support_percentage_bits: 0x4052C00000000000u64,
        },
        compression_efficiency_bits: 0x3FED70A3D70A3D71u64,
    }
}

/// The knowledge of `av1`.
fn av1_knowledge() -> (res: FormatKnowledge)
    ensures
        res@ == av1_view(),
{
    reveal(av1_view);
    FormatKnowledge {
        name: owned("av1"),
        full_name: owned("AOMedia Video 1"),
        year_released: 2018,
        media_type: MediaType::Video,
        capabilities: FormatCapabilities {
            supports_alpha: true,
            supports_animation: true,
            supports_lossless: false,
            supports_lossy: true,
            supports_hdr: true,
            max_dimensions: 65536,
            bit_depth_max: 12,
            color_space_support: vec![
                owned("BT.709"),
                owned("BT.2020"),
            ],
        },
        performance: FormatPerformance {
            encode_speed: Speed::VerySlow,
            decode_speed: Speed::Medium,
            compression_ratio_bits: 0x3FD999999999999Au64,
            quality_retention_bits: 0x3FEF5C28F5C28F5Cu64,
        },
        use_cases: vec![UseCase::WebPhotography, UseCase::Archival],
        strengths: vec![
            owned("Best compression efficiency"),
            owned("Royalty-free"),
            owned("HDR and wide color gamut"),
            owned("Growing browser support"),
        ],
        weaknesses: vec![
            owned("Very slow encoding"),
            owned("Limited hardware support"),
        ],
        browser_support: BrowserSupport {
            chrome: true,
            firefox: true,
            safari: false,
            edge: true,
            global_support_percentage_bits: 0x4051800000000000u64,
        },
        compression_efficiency_bits: 0x3FEEB851EB851EB8u64,
    }
}

/// The knowledge of `vp9`.
fn vp9_knowledge() -> (res: FormatKnowledge)
    ensures
        res@ == vp9_view(),
{
    reveal(vp9_view);
    FormatKnowledge {
        name: owned("vp9"),
        full_name: owned("VP9"),
        year_released: 2013,
        media_type: MediaType::Video,
        capabilities: FormatCapabilities {
            supports_alpha: true,
            supports_animation: true,
            supports_lossless: false,
            supports_lossy: true,
            supports_hdr: true,
            max_dimensions: 16384,
            bit_depth_max: 12,
            color_space_support: vec![
                owned("BT.709"),
                owned("BT.2020"),
            ],
        },
        performance: FormatPerformance {
            encode_speed: Speed::Slow,
            decode_speed: Speed::Medium,
            compression_ratio_bits: 0x3FE199999999999Au64,
            quality_retention_bits: 0x3FEE666666666666u64,
        },
        use_cases: vec![UseCase::WebPhotography],
        strengths: vec![
            owned("Royalty-free"),
            owned("Good compression"),
            owned("Wide browser support"),
        ],
        weaknesses: vec![
            owned("Slower than H.265"),
            owned("Being replaced by AV1"),
        ],
        browser_support: BrowserSupport {
            chrome: true,
            firefox: true,
            safari: false,
            edge: true,
            global_support_percentage_bits: 0x4057C00000000000u64,
        },
        compression_efficiency_bits: 0x3FEC28F5C28F5C29u64,
    }
}

/// The knowledge of `h264`.
fn h264_knowledge() -> (res: FormatKnowledge)
    ensures
        res@ == h264_view(),
{
    reveal(h264_view);
    FormatKnowledge {
        name: owned("h264"),
        full_name: owned("Advanced Video Coding (AVC) - LEGACY"),
        year_released: 2003,
        media_type: MediaType::Video,
        capabilities: FormatCapabilities {
            supports_alpha: false,
            supports_animation: true,
            supports_lossless: false,
            supports_lossy: true,
            supports_hdr: false,
            max_dimensions: 4096,
            bit_depth_max: 8,
            color_space_support: vec![
                owned("BT.709"),
            ],
        },
        performance: FormatPerformance {
            encode_speed: Speed::Fast,
            decode_speed: Speed::VeryFast,
            compression_ratio_bits: 0x3FF0000000000000u64,
            quality_retention_bits: 0x3FED70A3D70A3D71u64,
        },
        use_cases: vec![],
        strengths: vec![
            owned("Universal support (100%)"),
            owned("Hardware acceleration everywhere"),
            owned("Fast encode/decode"),
        ],
        weaknesses: vec![
            owned("OUTDATED - Use H.266/AV1/H.265 instead"),
            owned("Poor compression efficiency"),
            owned("No HDR support"),
            owned("No modern features"),
            owned("Patent licensing issues"),
        ],
        browser_support: BrowserSupport {
            chrome: true,
            firefox: true,
            safari: true,
            edge: true,
            global_support_percentage_bits: 0x4059000000000000u64,
        },
        compression_efficiency_bits: 0x3FE0000000000000u64,
    }
}

/// The knowledge of `opus`.
fn opus_knowledge() -> (res: FormatKnowledge)
    ensures
        res@ == opus_view(),
{
    reveal(opus_view);
    FormatKnowledge {
        name: owned("opus"),
        full_name: owned("Opus Interactive Audio Codec"),
        year_released: 2012,
        media_type: MediaType::Audio,
        capabilities: FormatCapabilities {
            supports_alpha: false,
            supports_animation: false,
            supports_lossless: false,
            supports_lossy: true,
            supports_hdr: false,
            max_dimensions: 0,
            bit_depth_max: 24,
            color_space_support: Vec::new(),
        },
        performance: FormatPerformance {
            encode_speed: Speed::Fast,
            decode_speed: Speed::VeryFast,
            compression_ratio_bits: 0x3FE3333333333333u64,
            quality_retention_bits: 0x3FEF5C28F5C28F5Cu64,
        },
        use_cases: vec![UseCase::WebPhotography],
        strengths: vec![
            owned("Best audio quality at low bitrates"),
            owned("Royalty-free"),
            owned("Low latency"),
            owned("Wide bitrate range (6-510 kbps)"),
        ],
        weaknesses: vec![
            owned("Limited hardware support"),
            owned("Not supported in MP4 container"),
        ],
        browser_support: BrowserSupport {
            chrome: true,
            firefox: true,
            safari: true,
            edge: true,
            global_support_percentage_bits: 0x4058400000000000u64,
        },
        compression_efficiency_bits: 0x3FEE666666666666u64,
    }
}

/// The knowledge of `aac`.
fn aac_knowledge() -> (res: FormatKnowledge)
    ensures
        res@ == aac_view(),
{
    reveal(aac_view);
    FormatKnowledge {
        name: owned("aac"),
        full_name: owned("Advanced Audio Coding"),
        year_released: 1997,
        media_type: MediaType::Audio,
        capabilities: FormatCapabilities {
            supports_alpha: false,
            supports_animation: false,
            supports_lossless: false,
            supports_lossy: true,
            supports_hdr: false,
            max_dimensions: 0,
            bit_depth_max: 24,
            color_space_support: Vec::new(),
        },
        performance: FormatPerformance {
            encode_speed: Speed::Fast,
            decode_speed: Speed::VeryFast,
            compression_ratio_bits: 0x3FF0000000000000u64,
            quality_retention_bits: 0x3FEE666666666666u64,
        },
        use_cases: vec![UseCase::WebPhotography],
        strengths: vec![
            owned("Universal support"),
            owned("Hardware acceleration"),
            owned("Good quality"),
            owned("MP4 compatible"),
        ],
        weaknesses: vec![
            owned("Patent licensing"),
            owned("Not as efficient as Opus"),
        ],
        browser_support: BrowserSupport {
            chrome: true,
            firefox: true,
            safari: true,
            edge: true,
            global_support_percentage_bits: 0x4059000000000000u64,
        },
        compression_efficiency_bits: 0x3FEB333333333333u64,
    }
}

/// The knowledge of `mp3`.
fn mp3_knowledge() -> (res: FormatKnowledge)
    ensures
        res@ == mp3_view(),
{
    reveal(mp3_view);
    FormatKnowledge {
        name: owned("mp3"),
        full_name: owned("MPEG-1 Audio Layer III"),
        year_released: 1993,
        media_type: MediaType::Audio,
        capabilities: FormatCapabilities {
            supports_alpha: false,
            supports_animation: false,
            supports_lossless: false,
            supports_lossy: true,
            supports_hdr: false,
            max_dimensions: 0,
            bit_depth_max: 16,
            color_space_support: Vec::new(),
        },
        performance: FormatPerformance {
            encode_speed: Speed::VeryFast,
            decode_speed: Speed::VeryFast,
            compression_ratio_bits: 0x3FF3333333333333u64,
            quality_retention_bits: 0x3FEC28F5C28F5C29u64,
        },
        use_cases: vec![UseCase::WebPhotography],
        strengths: vec![
            owned("Universal support (100%)"),
            owned("Very fast"),
            owned("Simple"),
        ],
        weaknesses: vec![
            owned("Outdated compression"),
            owned("Lower quality than modern codecs"),
        ],
        browser_support: BrowserSupport {
            chrome: true,
            firefox: true,
            safari: true,
            edge: true,
            global_support_percentage_bits: 0x4059000000000000u64,
        },
        compression_efficiency_bits: 0x3FE4CCCCCCCCCCCDu64,
    }
}

/// The knowledge of `flac`.
fn flac_knowledge() -> (res: FormatKnowledge)
    ensures
        res@ == flac_view(),
{
    reveal(flac_view);
    FormatKnowledge {
        name: owned("flac"),
        full_name: owned("Free Lossless Audio Codec"),
        year_released: 2001,
        media_type: MediaType::Audio,
        capabilities: FormatCapabilities {
            supports_alpha: false,
            supports_animation: false,
            supports_lossless: true,
            supports_lossy: false,
            supports_hdr: false,
            max_dimensions: 0,
            bit_depth_max: 32,
            color_space_support: Vec::new(),
        },
        performance: FormatPerformance {
            encode_speed: Speed::Fast,
            decode_speed: Speed::Fast,
            compression_ratio_bits: 0x3FE0000000000000u64,
            quality_retention_bits: 0x3FF0000000000000u64,
        },
        use_cases: vec![UseCase::Archival],
        strengths: vec![
            owned("Lossless compression"),
            owned("Royalty-free"),
            owned("Fast encode/decode"),
            owned("High-res audio support"),
        ],
        weaknesses: vec![
            owned("Large file sizes"),
            owned("Limited browser support"),
        ],
        browser_support: BrowserSupport {
            chrome: true,
            firefox: true,
            safari: true,
            edge: true,
            global_support_percentage_bits: 0x4055400000000000u64,
        },
        compression_efficiency_bits: 0x3FE8000000000000u64,
    }
}

/// The knowledge base.
#[derive(Debug, Clone)]
pub struct FormatKnowledgeBase {
    formats: Vec<FormatKnowledge>,
}

/// The bit pattern of `0.70f64`, below which a format's efficiency is outdated.
pub const OUTDATED_EFFICIENCY_BITS: u64 = 0x3FE6_6666_6666_6666u64;

/// The kind of media, year and efficiency of a format found in the base.
pub open spec fn known_facts(found: Option<KnowledgeView>) -> Option<(MediaType, u16, u64)> {
    match found {
        Some(k) => Some((k.media_type, k.year_released, k.compression_efficiency_bits)),
        None => None,
    }
}

/// The advice on upgrading a format: whether to, to which formats, and why.
pub open spec fn upgrade_spec(found: Option<(MediaType, u16, u64)>, source: Seq<char>) -> (bool, Seq<Seq<char>>, Seq<char>) {
    match found {
        None => (false, seq![], seq![]),
        Some((media, year, eff)) => if !(year < 2010 || f64_lt(eff, OUTDATED_EFFICIENCY_BITS)) {
            (false, seq![], seq![])
        } else {
            match media {
                MediaType::Image => if source == "jpeg"@ {
                    (
                        true,
                        seq!["avif"@, "jxl"@, "webp"@],
                        "JPEG is outdated. Modern formats offer 40-60% better compression with higher quality."@,
                    )
                } else if source == "png"@ {
                    (
                        true,
                        seq!["avif"@, "jxl"@, "webp"@],
                        "PNG has poor compression. Modern formats offer lossless compression with 50-70% smaller files."@,
                    )
                } else {
                    (false, seq![], seq![])
                },
                MediaType::Video => if source == "h264"@ {
                    (
                        true,
                        seq!["h266"@, "av1"@, "h265"@],
                        "H.264 is OUTDATED. Modern codecs offer 40-60% better compression with HDR support."@,
                    )
                } else {
                    (false, seq![], seq![])
                },
                MediaType::Audio => if source == "mp3"@ {
                    (
                        true,
                        seq!["opus"@, "aac"@],
                        "MP3 is outdated. Modern codecs offer 30-40% better compression with higher quality."@,
                    )
                } else {
                    (false, seq![], seq![])
                },
            }
        },
    }
}

fn texts_of(names: Vec<&str>) -> (res: Vec<String>)
    ensures
        res@.map_values(|s: String| s@) == names@.map_values(|n: &str| n@),
{
    let mut out: Vec<String> = Vec::new();
    let mut i: usize = 0;
    while i < names.len()
        invariant
            i <= names@.len(),
            out@.len() == i,
            forall|j: int| 0 <= j < i ==> (#[trigger] out@[j])@ == names@[j]@,
        decreases names@.len() - i,
    {
        out.push(owned(names[i]));
        i = i + 1;
    }
    assert(out@.map_values(|s: String| s@) =~= names@.map_values(|n: &str| n@));
    out
}

/// No two formats share a name.
pub open spec fn unique_names(v: Seq<KnowledgeView>) -> bool {
    forall|i: int, j: int| 0 <= i < v.len() && 0 <= j < v.len() && i != j ==> v[i].name != v[j].name
}

/// The first format named `name`, if any.
pub open spec fn find_format(v: Seq<KnowledgeView>, name: Seq<char>) -> Option<KnowledgeView> {
    if exists|i: int| 0 <= i < v.len() && (#[trigger] v[i]).name == name {
        Some(v[choose|i: int| 0 <= i < v.len() && (#[trigger] v[i]).name == name && forall|j: int|
            0 <= j < i ==> (#[trigger] v[j]).name != name])
    } else {
        None
    }
}

/// The formats after storing `k` under its name: it takes the place of the
/// format of that name, or comes last when there is none.
pub open spec fn store_format(v: Seq<KnowledgeView>, k: KnowledgeView) -> Seq<KnowledgeView> {
    if exists|i: int| 0 <= i < v.len() && v[i].name == k.name {
        v.update(choose|i: int| 0 <= i < v.len() && v[i].name == k.name, k)
    } else {
        v.push(k)
    }
}

/// The formats after storing each of `ks` in turn.
pub open spec fn store_all(v: Seq<KnowledgeView>, ks: Seq<KnowledgeView>) -> Seq<KnowledgeView>
    decreases ks.len(),
{
    if ks.len() == 0 {
        v
    } else {
        store_format(store_all(v, ks.drop_last()), ks.last())
    }
}

/// Storing formats whose names are new, and distinct from each other,
/// appends them in order.
pub proof fn law_store_all_fresh(v: Seq<KnowledgeView>, ks: Seq<KnowledgeView>)
    requires
        unique_names(v + ks),
    ensures
        store_all(v, ks) == v + ks,
    decreases ks.len(),
{
    if ks.len() == 0 {
        assert(v + ks =~= v);
    } else {
        let d = ks.drop_last();
        let w = v + ks;
        assert(v + d =~= w.drop_last());
        assert forall|i: int, j: int|
            0 <= i < (v + d).len() && 0 <= j < (v + d).len() && i != j implies (v + d)[i].name != (v + d)[j].name by {
            assert((v + d)[i] == w[i] && (v + d)[j] == w[j]);
        }
        law_store_all_fresh(v, d);
        assert forall|i: int| 0 <= i < (v + d).len() implies (v + d)[i].name != ks.last().name by {
            assert((v + d)[i] == w[i] && w[w.len() - 1] == ks.last());
        }
        assert((v + d).push(ks.last()) =~= w);
    }
}

/// The formats of the catalogue have distinct names.
pub proof fn law_catalog_names_unique()
    ensures
        unique_names(knowledge_catalog()),
{
    reveal_strlit("avif");
    reveal_strlit("jxl");
    reveal_strlit("webp");
    reveal_strlit("png");
    reveal_strlit("jpeg");
    reveal_strlit("h266");
    reveal_strlit("h265");
    reveal_strlit("av1");
    reveal_strlit("vp9");
    reveal_strlit("h264");
    reveal_strlit("opus");
    reveal_strlit("aac");
    reveal_strlit("mp3");
    reveal_strlit("flac");
    reveal(avif_view);
    reveal(jxl_view);
    reveal(webp_view);
    reveal(png_view);
    reveal(jpeg_view);
    reveal(h266_view);
    reveal(h265_view);
    reveal(av1_view);
    reveal(vp9_view);
    reveal(h264_view);
    reveal(opus_view);
    reveal(aac_view);
    reveal(mp3_view);
    reveal(flac_view);
    let c = knowledge_catalog();
    assert forall|i: int, j: int| 0 <= i < c.len() && 0 <= j < c.len() && i != j implies c[i].name != c[j].name by {
        let a = c[i].name;
        let b = c[j].name;
        assert(a.len() != b.len() || a[0] != b[0] || a[a.len() - 1] != b[b.len() - 1] || a[1] != b[1]);
    }
}

/// Among formats with distinct names, looking one up by its name finds it.
pub proof fn law_find_by_name(v: Seq<KnowledgeView>, i: int)
    requires
        unique_names(v),
        0 <= i < v.len(),
    ensures
        find_format(v, v[i].name) == Some(v[i]),
{
    let name = v[i].name;
    assert(0 <= i < v.len() && (#[trigger] v[i]).name == name && forall|j: int| 0 <= j < i ==> (#[trigger] v[j]).name != name);
    let c = choose|c: int| 0 <= c < v.len() && (#[trigger] v[c]).name == name && forall|j: int|
        0 <= j < c ==> (#[trigger] v[j]).name != name;
    assert(c == i);
}

impl View for FormatKnowledgeBase {
    type V = Seq<KnowledgeView>;

    /// The formats, in the order they were first loaded.
    closed spec fn view(&self) -> Seq<KnowledgeView> {
        self.formats@.map_values(|k: FormatKnowledge| k@)
    }
}

impl FormatKnowledgeBase {
    /// Well-formed: no two formats share a name.
    pub open spec fn wf(&self) -> bool {
        unique_names(self@)
    }

    /// Stores a format under its name, replacing one of the same name.
    fn store(&mut self, k: FormatKnowledge)
        requires
            old(self).wf(),
        ensures
            final(self).wf(),
            final(self)@ == store_format(old(self)@, k@),
    {
        let ghost before = self@;
        let mut i: usize = 0;
        while i < self.formats.len()
            invariant
                self.formats@ == old(self).formats@,
                before == self@,
                unique_names(before),
                i <= self.formats@.len(),
                forall|j: int| 0 <= j < i ==> before[j].name != k@.name,
            decreases self.formats@.len() - i,
        {
            if str_eq(self.formats[i].name.as_str(), k.name.as_str()) {
                proof {
                    assert(before[i as int].name == k@.name);
                    let c = choose|c: int| 0 <= c < before.len() && before[c].name == k@.name;
                    assert(c == i) by {
                        if c != i {
                            assert(unique_names(before));
                        }
                    }
                }
                self.formats.set(i, k);
                proof {
                    assert(self@ =~= before.update(i as int, k@));
                    assert forall|a: int, b: int|
                        0 <= a < self@.len() && 0 <= b < self@.len() && a != b implies self@[a].name != self@[b].name by {
                        if a != i && b != i {
                            assert(self@[a] == before[a] && self@[b] == before[b]);
                        }
                    }
                }
                return;
            }
            i = i + 1;
        }
        self.formats.push(k);
        proof {
            assert(self@ =~= before.push(k@));
            assert forall|a: int, b: int|
                0 <= a < self@.len() && 0 <= b < self@.len() && a != b implies self@[a].name != self@[b].name by {
                if a < before.len() && b < before.len() {
                    assert(self@[a] == before[a] && self@[b] == before[b]);
                } else if a < before.len() {
                    assert(self@[a] == before[a]);
                } else if b < before.len() {
                    assert(self@[b] == before[b]);
                }
            }
        }
    }

    /// Loads the image formats: AVIF, JPEG XL, WebP, PNG, JPEG. A format
    /// already known is replaced.
    pub fn load_modern_formats(&mut self)
        requires
            old(self).wf(),
        ensures
            final(self).wf(),
            final(self)@ == store_all(old(self)@, knowledge_catalog().subrange(0, 5)),
    {
        let ghost c = knowledge_catalog().subrange(0, 5);
        let ghost before = self@;
        assert(store_all(before, Seq::<KnowledgeView>::empty()) == before);
        self.store(avif_knowledge());
        assert(c.subrange(0, 1).drop_last() =~= Seq::<KnowledgeView>::empty());
        assert(c.subrange(0, 1).last() == avif_view());
        assert(self@ == store_all(before, c.subrange(0, 1)));
        self.store(jxl_knowledge());
        assert(c.subrange(0, 2).drop_last() =~= c.subrange(0, 1));
        assert(c.subrange(0, 2).last() == jxl_view());
        assert(self@ == store_all(before, c.subrange(0, 2)));
        self.store(webp_knowledge());
        assert(c.subrange(0, 3).drop_last() =~= c.subrange(0, 2));
        assert(c.subrange(0, 3).last() == webp_view());
        assert(self@ == store_all(before, c.subrange(0, 3)));
        self.store(png_knowledge());
        assert(c.subrange(0, 4).drop_last() =~= c.subrange(0, 3));
        assert(c.subrange(0, 4).last() == png_view());
        assert(self@ == store_all(before, c.subrange(0, 4)));
        self.store(jpeg_knowledge());
        assert(c.subrange(0, 5).drop_last() =~= c.subrange(0, 4));
        assert(c.subrange(0, 5).last() == jpeg_view());
        assert(self@ == store_all(before, c.subrange(0, 5)));
        assert(c.subrange(0, 5) =~= c);
    }

    /// Loads the video codecs: H.266, H.265, AV1, VP9, H.264. A format
    /// already known is replaced.
    pub fn load_video_formats(&mut self)
        requires
            old(self).wf(),
        ensures
            final(self).wf(),
            final(self)@ == store_all(old(self)@, knowledge_catalog().subrange(5, 10)),
    {
        let ghost c = knowledge_catalog().subrange(5, 10);
        let ghost before = self@;
        assert(store_all(before, Seq::<KnowledgeView>::empty()) == before);
        self.store(h266_knowledge());
        assert(c.subrange(0, 1).drop_last() =~= Seq::<KnowledgeView>::empty());
        assert(c.subrange(0, 1).last() == h266_view());
        assert(self@ == store_all(before, c.subrange(0, 1)));
        self.store(h265_knowledge());
        assert(c.subrange(0, 2).drop_last() =~= c.subrange(0, 1));
        assert(c.subrange(0, 2).last() == h265_view());
        assert(self@ == store_all(before, c.subrange(0, 2)));
        self.store(av1_knowledge());
        assert(c.subrange(0, 3).drop_last() =~= c.subrange(0, 2));
        assert(c.subrange(0, 3).last() == av1_view());
        assert(self@ == store_all(before, c.subrange(0, 3)));
        self.store(vp9_knowledge());
        assert(c.subrange(0, 4).drop_last() =~= c.subrange(0, 3));
        assert(c.subrange(0, 4).last() == vp9_view());
        assert(self@ == store_all(before, c.subrange(0, 4)));
        self.store(h264_knowledge());
        assert(c.subrange(0, 5).drop_last() =~= c.subrange(0, 4));
        assert(c.subrange(0, 5).last() == h264_view());
        assert(self@ == store_all(before, c.subrange(0, 5)));
        assert(c.subrange(0, 5) =~= c);
    }

    /// Loads the audio codecs: Opus, AAC, MP3, FLAC. A format already known
    /// is replaced.
    pub fn load_audio_formats(&mut self)
        requires
            old(self).wf(),
        ensures
            final(self).wf(),
            final(self)@ == store_all(old(self)@, knowledge_catalog().subrange(10, 14)),
    {
        let ghost c = knowledge_catalog().subrange(10, 14);
        let ghost before = self@;
        assert(store_all(before, Seq::<KnowledgeView>::empty()) == before);
        self.store(opus_knowledge());
        assert(c.subrange(0, 1).drop_last() =~= Seq::<KnowledgeView>::empty());
        assert(c.subrange(0, 1).last() == opus_view());
        assert(self@ == store_all(before, c.subrange(0, 1)));
        self.store(aac_knowledge());
        assert(c.subrange(0, 2).drop_last() =~= c.subrange(0, 1));
        assert(c.subrange(0, 2).last() == aac_view());
        assert(self@ == store_all(before, c.subrange(0, 2)));
        self.store(mp3_knowledge());
        assert(c.subrange(0, 3).drop_last() =~= c.subrange(0, 2));
        assert(c.subrange(0, 3).last() == mp3_view());
        assert(self@ == store_all(before, c.subrange(0, 3)));
        self.store(flac_knowledge());
        assert(c.subrange(0, 4).drop_last() =~= c.subrange(0, 3));
        assert(c.subrange(0, 4).last() == flac_view());
        assert(self@ == store_all(before, c.subrange(0, 4)));
        assert(c.subrange(0, 4) =~= c);
    }

    /// The base with every format loaded.
    pub fn new() -> (res: Self)
        ensures
            res.wf(),
            res@ == knowledge_catalog(),
    {
        let mut kb = FormatKnowledgeBase { formats: Vec::new() };
        proof {
            assert(kb@ =~= Seq::<KnowledgeView>::empty());
        }
        kb.load_modern_formats();
        kb.load_video_formats();
        kb.load_audio_formats();
        proof {
            let c = knowledge_catalog();
            law_catalog_names_unique();
            assert(c.subrange(0, 5) =~= Seq::<KnowledgeView>::empty() + c.subrange(0, 5));
            law_store_all_fresh(Seq::empty(), c.subrange(0, 5));
            assert(c.subrange(0, 10) =~= c.subrange(0, 5) + c.subrange(5, 10));
            law_store_all_fresh(c.subrange(0, 5), c.subrange(5, 10));
            assert(c =~= c.subrange(0, 10) + c.subrange(10, 14));
            law_store_all_fresh(c.subrange(0, 10), c.subrange(10, 14));
        }
        kb
    }

    /// The knowledge of a format by name.
    pub fn get_format(&self, format: &str) -> (res: Option<&FormatKnowledge>)
        ensures
            match res {
                Some(k) => find_format(self@, format@) == Some(k@),
                None => find_format(self@, format@) is None,
            },
    {
        let ghost f = self@;
        let mut i: usize = 0;
        while i < self.formats.len()
            invariant
                f == self@,
                f.len() == self.formats@.len(),
                i <= f.len(),
                forall|j: int| 0 <= j < i ==> (#[trigger] f[j]).name != format@,
            decreases f.len() - i,
        {
            if str_eq(self.formats[i].name.as_str(), format) {
                proof {
                    let name = format@;
                    assert(f[i as int] == self.formats@[i as int]@);
                    assert(0 <= i < f.len() && f[i as int].name == name);
                    let c = choose|c: int| 0 <= c < f.len() && (#[trigger] f[c]).name == name && forall|j: int|
                        0 <= j < c ==> (#[trigger] f[j]).name != name;
                    assert(0 <= i < f.len() && (#[trigger] f[i as int]).name == name && forall|j: int|
                        0 <= j < i ==> (#[trigger] f[j]).name != name);
                    if c < i {
                        assert(f[c].name != name);
                    }
                    if c > i {
                        assert(f[i as int].name != name);
                    }
                    assert(c == i);
                }
                return Some(&self.formats[i]);
            }
            proof {
                assert(f[i as int] == self.formats@[i as int]@);
            }
            i = i + 1;
        }
        None
    }

    /// Every format, in loading order.
    pub fn list_all_formats(&self) -> (res: Vec<&FormatKnowledge>)
        ensures
            res@.len() == self@.len(),
            forall|i: int| 0 <= i < res@.len() ==> (#[trigger] res@[i])@ == self@[i],
    {
        let mut out: Vec<&FormatKnowledge> = Vec::new();
        let mut i: usize = 0;
        while i < self.formats.len()
            invariant
                i <= self.formats@.len(),
                self@.len() == self.formats@.len(),
                out@.len() == i,
                forall|j: int| 0 <= j < i ==> (#[trigger] out@[j])@ == self@[j],
            decreases self.formats@.len() - i,
        {
            out.push(&self.formats[i]);
            i = i + 1;
        }
        out
    }

    /// The formats of one kind of media, in loading order.
    pub fn get_formats_by_type(&self, media_type: MediaType) -> (res: Vec<&FormatKnowledge>)
        ensures
            res@.map_values(|k: &FormatKnowledge| k@) == self@.filter(|k: KnowledgeView| k.media_type == media_type),
    {
        let mut out: Vec<&FormatKnowledge> = Vec::new();
        let mut i: usize = 0;
        while i < self.formats.len()
            invariant
                i <= self.formats@.len(),
                self@.len() == self.formats@.len(),
                out@.map_values(|k: &FormatKnowledge| k@) == self@.subrange(0, i as int).filter(
                    |k: KnowledgeView| k.media_type == media_type,
                ),
            decreases self.formats@.len() - i,
        {
            proof {
                assert(self@[i as int] == self.formats@[i as int]@);
            }
            if self.formats[i].media_type == media_type {
                out.push(&self.formats[i]);
            }
            proof {
                let s = self@.subrange(0, i as int + 1);
                assert(s.drop_last() =~= self@.subrange(0, i as int));
                reveal(Seq::filter);
            }
            assert(out@.map_values(|k: &FormatKnowledge| k@) =~= self@.subrange(0, i as int + 1).filter(
                |k: KnowledgeView| k.media_type == media_type,
            ));
            i = i + 1;
        }
        assert(self@.subrange(0, self@.len() as int) =~= self@);
        out
    }

    /// Whether to keep the source format and only optimise it: when format
    /// conversion is switched off, when no target is given, or when the
    /// target is the source format.
    pub fn should_use_same_format_optimization(
        &self,
        source_format: &str,
        target_format: Option<&str>,
        format_conversion_enabled: bool,
    ) -> (res: bool)
        ensures
            res == (!format_conversion_enabled || match target_format {
                None => true,
                Some(t) => t@ == source_format@,
            }),
    {
        if !format_conversion_enabled {
            return true;
        }
        match target_format {
            None => true,
            Some(t) => str_eq(t, source_format),
        }
    }

    /// The advice on upgrading a format known to the base: a format from
    /// before 2010 or with an efficiency under 0.70 is outdated, and JPEG,
    /// PNG, H.264 and MP3 have modern replacements, with the reason.
    pub fn suggest_format_upgrade(&self, source_format: &str) -> (res: (bool, Vec<String>, String))
        ensures
            ({
                let (up, names, why) = upgrade_spec(known_facts(find_format(self@, source_format@)), source_format@);
                &&& res.0 == up
                &&& res.1@.map_values(|s: String| s@) == names
                &&& res.2@ == why
            }),
    {
        let source = match self.get_format(source_format) {
            Some(f) => f,
            None => {
                return (false, Vec::new(), String::new());
            },
        };
        assert(known_facts(find_format(self@, source_format@)) == Some(
            (source.media_type, source.year_released, source.compression_efficiency_bits),
        ));
        Self::advice_for(source, source_format)
    }

    /// The advice on upgrading `source_format`, found in the base as `source`.
    fn advice_for(source: &FormatKnowledge, source_format: &str) -> (res: (bool, Vec<String>, String))
        ensures
            ({
                let found = Some((source.media_type, source.year_released, source.compression_efficiency_bits));
                let (up, names, why) = upgrade_spec(found, source_format@);
                &&& res.0 == up
                &&& res.1@.map_values(|s: String| s@) == names
                &&& res.2@ == why
            }),
    {
        let is_outdated = source.year_released < 2010 || lt(source.compression_efficiency_bits, OUTDATED_EFFICIENCY_BITS);
        if !is_outdated {
            return (false, Vec::new(), String::new());
        }
        let (names, reason): (Vec<&str>, &str) = match source.media_type {
            MediaType::Image => {
                if str_eq(source_format, "jpeg") {
                    (
                        vec!["avif", "jxl", "webp"],
                        "JPEG is outdated. Modern formats offer 40-60% better compression with higher quality.",
                    )
                } else if str_eq(source_format, "png") {
                    (
                        vec!["avif", "jxl", "webp"],
                        "PNG has poor compression. Modern formats offer lossless compression with 50-70% smaller files.",
                    )
                } else {
                    (Vec::new(), "")
                }
            },
            MediaType::Video => {
                if str_eq(source_format, "h264") {
                    (
                        vec!["h266", "av1", "h265"],
                        "H.264 is OUTDATED. Modern codecs offer 40-60% better compression with HDR support.",
                    )
                } else {
                    (Vec::new(), "")
                }
            },
            MediaType::Audio => {
                if str_eq(source_format, "mp3") {
                    (
                        vec!["opus", "aac"],
                        "MP3 is outdated. Modern codecs offer 30-40% better compression with higher quality.",
                    )
                } else {
                    (Vec::new(), "")
                }
            },
        };
        proof {
            let found = Some((source.media_type, source.year_released, source.compression_efficiency_bits));
            let up = upgrade_spec(found, source_format@);
            assert(names@.map_values(|n: &str| n@) =~= up.1);
            assert(up.1.len() == 0 <==> !up.0);
            assert(up.0 ==> reason@ == up.2);
        }
        let recommendations = texts_of(names);
        if recommendations.len() == 0 {
            return (false, recommendations, String::new());
        }
        (true, recommendations, owned(reason))
    }

}

impl Default for FormatKnowledgeBase {
    /// The base of `new`.
    fn default() -> (res: Self)
        ensures
            res.wf(),
            res@ == knowledge_catalog(),
    {
        Self::new()
    }
}

} // verus!
