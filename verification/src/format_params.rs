//! Format-specific encoder parameters (JPEG XL, WebP, AVIF, HEIC) with
//! their defaults and range checks.
//!
//! The JPEG XL distance is a single-precision float; it is held here as its
//! IEEE-754 bit pattern, which the range check reads exactly.

use vstd::prelude::*;
use vstd::string::*;
use crate::text::{owned, str_eq, dec, prefixed_number};

verus! {

/// The bit pattern of a single-precision float lies in `[0, hi]`, where
/// `hi_bits` is the pattern of a positive finite bound: non-negative floats
/// are ordered as their patterns, `-0.0` equals `0.0`, and NaN and negative
/// values lie outside.
pub open spec fn f32_bits_in_unit_range(bits: u32, hi_bits: u32) -> bool {
    bits <= hi_bits || bits == 0x8000_0000
}

/// Bit pattern of `15.0f32`.
pub const F32_FIFTEEN_BITS: u32 = 0x4170_0000;

/// Bit pattern of `1.0f32`.
pub const F32_ONE_BITS: u32 = 0x3F80_0000;

/// JPEG XL parameters.
#[derive(Debug, Clone)]
pub struct JxlParams {
    pub effort: Option<u8>,
    /// The distance (0-15) as the bit pattern of an `f32`.
    pub distance_bits: Option<u32>,
    pub bit_depth: Option<u8>,
    pub color_space: Option<String>,
    pub patches: Option<u8>,
}

/// WebP parameters.
#[derive(Debug, Clone)]
pub struct WebPParams {
    pub method: Option<u8>,
    pub filter_strength: Option<u8>,
    pub sharpness: Option<u8>,
    pub segments: Option<u8>,
    pub sns_strength: Option<u8>,
    pub auto_filter: bool,
    pub exact_mode: bool,
    pub no_alpha: bool,
    pub low_memory: bool,
    pub pass: Option<u8>,
}

/// AVIF parameters.
#[derive(Debug, Clone)]
pub struct AvifParams {
    pub speed: Option<u8>,
    pub min_quantizer: Option<u8>,
    pub max_quantizer: Option<u8>,
    pub chroma_subsampling: Option<String>,
    pub bit_depth: Option<u8>,
    pub tiles_rows: Option<u8>,
    pub tiles_cols: Option<u8>,
    pub premultiply_alpha: bool,
}

/// HEIC parameters.
#[derive(Debug, Clone)]
pub struct HeicParams {
    pub quality: Option<u8>,
    pub encoder: Option<String>,
    pub chroma_subsampling: Option<String>,
    pub lossless: bool,
    pub embed_thumbnail: bool,
}

/// The parameters of one format.
#[derive(Debug, Clone)]
pub enum FormatSpecificParams {
    Jxl(JxlParams),
    WebP(WebPParams),
    Avif(AvifParams),
    Heic(HeicParams),
    NoParams,
}

/// Why a parameter set was refused.
#[derive(Debug, Clone)]
pub enum ParamError {
    /// The message of an out-of-range parameter.
    Invalid(String),
    /// The JPEG XL distance (as `f32` bits) lies outside 0-15; its message
    /// is `JXL distance must be 0-15, got ` followed by the float.
    JxlDistance(u32),
}

/// The first out-of-range WebP parameter's message, if any.
pub open spec fn webp_error(p: WebPParams) -> Option<Seq<char>> {
    if p.method is Some && p.method->0 > 6 {
        Some("WebP method must be 0-6, got "@ + dec(p.method->0 as nat))
    } else if p.filter_strength is Some && p.filter_strength->0 > 100 {
        Some("WebP filter_strength must be 0-100, got "@ + dec(p.filter_strength->0 as nat))
    } else if p.sharpness is Some && p.sharpness->0 > 7 {
        Some("WebP sharpness must be 0-7, got "@ + dec(p.sharpness->0 as nat))
    } else if p.segments is Some && !(1 <= p.segments->0 <= 4) {
        Some("WebP segments must be 1-4, got "@ + dec(p.segments->0 as nat))
    } else if p.sns_strength is Some && p.sns_strength->0 > 100 {
        Some("WebP sns_strength must be 0-100, got "@ + dec(p.sns_strength->0 as nat))
    } else if p.pass is Some && !(1 <= p.pass->0 <= 10) {
        Some("WebP pass must be 1-10, got "@ + dec(p.pass->0 as nat))
    } else {
        None
    }
}

/// The first out-of-range AVIF parameter's message, if any.
pub open spec fn avif_error(p: AvifParams) -> Option<Seq<char>> {
    if p.speed is Some && p.speed->0 > 10 {
        Some("AVIF speed must be 0-10, got "@ + dec(p.speed->0 as nat))
    } else if p.min_quantizer is Some && p.min_quantizer->0 > 63 {
        Some("AVIF min_quantizer must be 0-63, got "@ + dec(p.min_quantizer->0 as nat))
    } else if p.max_quantizer is Some && p.max_quantizer->0 > 63 {
        Some("AVIF max_quantizer must be 0-63, got "@ + dec(p.max_quantizer->0 as nat))
    } else if p.bit_depth is Some && !(p.bit_depth->0 == 8 || p.bit_depth->0 == 10 || p.bit_depth->0 == 12) {
        Some("AVIF bit_depth must be 8/10/12, got "@ + dec(p.bit_depth->0 as nat))
    } else if p.tiles_rows is Some && !(1 <= p.tiles_rows->0 <= 8) {
        Some("AVIF tiles_rows must be 1-8, got "@ + dec(p.tiles_rows->0 as nat))
    } else if p.tiles_cols is Some && !(1 <= p.tiles_cols->0 <= 8) {
        Some("AVIF tiles_cols must be 1-8, got "@ + dec(p.tiles_cols->0 as nat))
    } else {
        None
    }
}

/// The first unsupported HEIC parameter's message, if any.
pub open spec fn heic_error(p: HeicParams) -> Option<Seq<char>> {
    if p.quality is Some && !(1 <= p.quality->0 <= 100) {
        Some("HEIC quality must be 1-100, got "@ + dec(p.quality->0 as nat))
    } else if p.encoder is Some && !(p.encoder->0@ == "x265"@ || p.encoder->0@ == "libheif"@) {
        Some("HEIC encoder must be x265 or libheif, got "@ + p.encoder->0@)
    } else if p.chroma_subsampling is Some && !(p.chroma_subsampling->0@ == "420"@
        || p.chroma_subsampling->0@ == "422"@ || p.chroma_subsampling->0@ == "444"@) {
        Some("HEIC chroma_subsampling must be 420/422/444, got "@ + p.chroma_subsampling->0@)
    } else {
        None
    }
}

/// The first out-of-range JPEG XL parameter: its message, or the distance
/// (whose message prints a float).
pub open spec fn jxl_problem(p: JxlParams) -> Option<Result<Seq<char>, u32>> {
    if p.effort is Some && !(1 <= p.effort->0 <= 9) {
        Some(Ok("JXL effort must be 1-9, got "@ + dec(p.effort->0 as nat)))
    } else if p.distance_bits is Some && !f32_bits_in_unit_range(p.distance_bits->0, F32_FIFTEEN_BITS) {
        Some(Err(p.distance_bits->0))
    } else if p.bit_depth is Some && !(p.bit_depth->0 == 8 || p.bit_depth->0 == 10 || p.bit_depth->0 == 12
        || p.bit_depth->0 == 16) {
        Some(Ok("JXL bit_depth must be 8/10/12/16, got "@ + dec(p.bit_depth->0 as nat)))
    } else if p.patches is Some && p.patches->0 > 4 {
        Some(Ok("JXL patches must be 0-4, got "@ + dec(p.patches->0 as nat)))
    } else {
        None
    }
}

/// The error a problem is reported as.
pub open spec fn problem_matches(problem: Result<Seq<char>, u32>, e: ParamError) -> bool {
    match problem {
        Ok(m) => e matches ParamError::Invalid(s) && s@ == m,
        Err(bits) => e == ParamError::JxlDistance(bits),
    }
}

fn check_max(v: Option<u8>, max: u8, prefix: &str) -> (res: Option<String>)
    ensures
        match res {
            None => !(v is Some && v->0 > max),
            Some(m) => v is Some && v->0 > max && m@ == prefix@ + dec(v->0 as nat),
        },
{
    match v {
        Some(x) => if x > max {
            Some(prefixed_number(prefix, x as u64))
        } else {
            None
        },
        None => None,
    }
}

fn check_between(v: Option<u8>, lo: u8, hi: u8, prefix: &str) -> (res: Option<String>)
    ensures
        match res {
            None => !(v is Some && !(lo <= v->0 <= hi)),
            Some(m) => v is Some && !(lo <= v->0 <= hi) && m@ == prefix@ + dec(v->0 as nat),
        },
{
    match v {
        Some(x) => if x < lo || x > hi {
            Some(prefixed_number(prefix, x as u64))
        } else {
            None
        },
        None => None,
    }
}

impl Default for JxlParams {
    fn default() -> (res: Self)
        ensures
            res.effort == Some(7u8),
            res.distance_bits == Some(F32_ONE_BITS),
            res.bit_depth == Some(8u8),
            res.color_space matches Some(s) && s@ == "sRGB"@,
            res.patches == Some(1u8),
    {
        JxlParams {
            effort: Some(7),
            distance_bits: Some(F32_ONE_BITS),
            bit_depth: Some(8),
            color_space: Some(owned("sRGB")),
            patches: Some(1),
        }
    }
}

impl JxlParams {
    /// Checks each parameter's range in turn and reports the first that is out of it.
    pub fn validate(&self) -> (res: Result<(), ParamError>)
        ensures
            match res {
                Ok(()) => jxl_problem(*self) is None,
                Err(e) => jxl_problem(*self) is Some && problem_matches(jxl_problem(*self)->0, e),
            },
    {
        if let Some(m) = check_between(self.effort, 1, 9, "JXL effort must be 1-9, got ") {
            return Err(ParamError::Invalid(m));
        }
        match self.distance_bits {
            Some(b) => {
                if !(b <= F32_FIFTEEN_BITS || b == 0x8000_0000) {
                    return Err(ParamError::JxlDistance(b));
                }
            },
            None => {},
        }
        match self.bit_depth {
            Some(d) => {
                if !(d == 8 || d == 10 || d == 12 || d == 16) {
                    return Err(
                        ParamError::Invalid(prefixed_number("JXL bit_depth must be 8/10/12/16, got ", d as u64)),
                    );
                }
            },
            None => {},
        }
        if let Some(m) = check_max(self.patches, 4, "JXL patches must be 0-4, got ") {
            return Err(ParamError::Invalid(m));
        }
        Ok(())
    }
}

impl Default for WebPParams {
    fn default() -> (res: Self)
        ensures
            res.method == Some(4u8),
            res.filter_strength == Some(60u8),
            res.sharpness == Some(0u8),
            res.segments == Some(4u8),
            res.sns_strength == Some(50u8),
            res.auto_filter,
            !res.exact_mode,
            !res.no_alpha,
            !res.low_memory,
            res.pass == Some(1u8),
    {
        WebPParams {
            method: Some(4),
            filter_strength: Some(60),
            sharpness: Some(0),
            segments: Some(4),
            sns_strength: Some(50),
            auto_filter: true,
            exact_mode: false,
            no_alpha: false,
            low_memory: false,
            pass: Some(1),
        }
    }
}

impl WebPParams {
    /// Checks each parameter's range in turn and reports the first that is out of it.
    pub fn validate(&self) -> (res: Result<(), String>)
        ensures
            match res {
                Ok(()) => webp_error(*self) is None,
                Err(m) => webp_error(*self) == Some(m@),
            },
    {
        if let Some(m) = check_max(self.method, 6, "WebP method must be 0-6, got ") {
            return Err(m);
        }
        if let Some(m) = check_max(self.filter_strength, 100, "WebP filter_strength must be 0-100, got ") {
            return Err(m);
        }
        if let Some(m) = check_max(self.sharpness, 7, "WebP sharpness must be 0-7, got ") {
            return Err(m);
        }
        if let Some(m) = check_between(self.segments, 1, 4, "WebP segments must be 1-4, got ") {
            return Err(m);
        }
        if let Some(m) = check_max(self.sns_strength, 100, "WebP sns_strength must be 0-100, got ") {
            return Err(m);
        }
        if let Some(m) = check_between(self.pass, 1, 10, "WebP pass must be 1-10, got ") {
            return Err(m);
        }
        Ok(())
    }
}

impl Default for AvifParams {
    fn default() -> (res: Self)
        ensures
            res.speed == Some(6u8),
            res.min_quantizer == Some(0u8),
            res.max_quantizer == Some(63u8),
            res.chroma_subsampling matches Some(s) && s@ == "420"@,
            res.bit_depth == Some(8u8),
            res.tiles_rows == Some(1u8),
            res.tiles_cols == Some(1u8),
            !res.premultiply_alpha,
    {
        AvifParams {
            speed: Some(6),
            min_quantizer: Some(0),
            max_quantizer: Some(63),
            chroma_subsampling: Some(owned("420")),
            bit_depth: Some(8),
            tiles_rows: Some(1),
            tiles_cols: Some(1),
            premultiply_alpha: false,
        }
    }
}

impl AvifParams {
    /// Checks each parameter's range in turn and reports the first that is out of it.
    pub fn validate(&self) -> (res: Result<(), String>)
        ensures
            match res {
                Ok(()) => avif_error(*self) is None,
                Err(m) => avif_error(*self) == Some(m@),
            },
    {
        if let Some(m) = check_max(self.speed, 10, "AVIF speed must be 0-10, got ") {
            return Err(m);
        }
        if let Some(m) = check_max(self.min_quantizer, 63, "AVIF min_quantizer must be 0-63, got ") {
            return Err(m);
        }
        if let Some(m) = check_max(self.max_quantizer, 63, "AVIF max_quantizer must be 0-63, got ") {
            return Err(m);
        }
        match self.bit_depth {
            Some(d) => {
                if !(d == 8 || d == 10 || d == 12) {
                    return Err(prefixed_number("AVIF bit_depth must be 8/10/12, got ", d as u64));
                }
            },
            None => {},
        }
        if let Some(m) = check_between(self.tiles_rows, 1, 8, "AVIF tiles_rows must be 1-8, got ") {
            return Err(m);
        }
        if let Some(m) = check_between(self.tiles_cols, 1, 8, "AVIF tiles_cols must be 1-8, got ") {
            return Err(m);
        }
        Ok(())
    }
}

impl Default for HeicParams {
    fn default() -> (res: Self)
        ensures
            res.quality == Some(85u8),
            res.encoder matches Some(s) && s@ == "x265"@,
            res.chroma_subsampling matches Some(s) && s@ == "444"@,
            !res.lossless,
            res.embed_thumbnail,
    {
        HeicParams {
            quality: Some(85),
            encoder: Some(owned("x265")),
            chroma_subsampling: Some(owned("444")),
            lossless: false,
            embed_thumbnail: true,
        }
    }
}

impl HeicParams {
    /// Checks the quality range and the encoder and chroma names.
    pub fn validate(&self) -> (res: Result<(), String>)
        ensures
            match res {
                Ok(()) => heic_error(*self) is None,
                Err(m) => heic_error(*self) == Some(m@),
            },
    {
        if let Some(m) = check_between(self.quality, 1, 100, "HEIC quality must be 1-100, got ") {
            return Err(m);
        }
        match &self.encoder {
            Some(e) => {
                if !(str_eq(e.as_str(), "x265") || str_eq(e.as_str(), "libheif")) {
                    let mut m = owned("HEIC encoder must be x265 or libheif, got ");
                    m.append(e.as_str());
                    return Err(m);
                }
            },
            None => {},
        }
        match &self.chroma_subsampling {
            Some(c) => {
                if !(str_eq(c.as_str(), "420") || str_eq(c.as_str(), "422") || str_eq(c.as_str(), "444")) {
                    let mut m = owned("HEIC chroma_subsampling must be 420/422/444, got ");
                    m.append(c.as_str());
                    return Err(m);
                }
            },
            None => {},
        }
        Ok(())
    }
}

/// The first problem of a parameter set of any format.
pub open spec fn params_problem(p: FormatSpecificParams) -> Option<Result<Seq<char>, u32>> {
    match p {
        FormatSpecificParams::Jxl(x) => jxl_problem(x),
        FormatSpecificParams::WebP(x) => match webp_error(x) {
            Some(m) => Some(Ok(m)),
            None => None,
        },
        FormatSpecificParams::Avif(x) => match avif_error(x) {
            Some(m) => Some(Ok(m)),
            None => None,
        },
        FormatSpecificParams::Heic(x) => match heic_error(x) {
            Some(m) => Some(Ok(m)),
            None => None,
        },
        FormatSpecificParams::NoParams => None,
    }
}

impl FormatSpecificParams {
    /// Validates the parameters of whichever format they belong to.
    pub fn validate(&self) -> (res: Result<(), ParamError>)
        ensures
            match res {
                Ok(()) => params_problem(*self) is None,
                Err(e) => params_problem(*self) is Some && problem_matches(params_problem(*self)->0, e),
            },
    {
        match self {
            FormatSpecificParams::Jxl(p) => p.validate(),
            FormatSpecificParams::WebP(p) => match p.validate() {
                Ok(()) => Ok(()),
                Err(m) => Err(ParamError::Invalid(m)),
            },
            FormatSpecificParams::Avif(p) => match p.validate() {
                Ok(()) => Ok(()),
                Err(m) => Err(ParamError::Invalid(m)),
            },
            FormatSpecificParams::Heic(p) => match p.validate() {
                Ok(()) => Ok(()),
                Err(m) => Err(ParamError::Invalid(m)),
            },
            FormatSpecificParams::NoParams => Ok(()),
        }
    }
}

} // verus!
