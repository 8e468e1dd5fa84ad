//! Modern formats (AVIF, JPEG XL, WebP, HEIC): which encoders are present,
//! encoder parameters chosen from a quality, and the command lines that
//! run the encoders. The caller runs the commands.
//!
//! The JPEG XL distance is a single-precision float held as its IEEE-754
//! bit pattern; its decimal text for a command line comes from the caller.

use vstd::prelude::*;
use vstd::string::*;
use crate::tools::find_tool;
use crate::text::{lowercase, to_lower, str_eq, owned, concat2, dec, decimal, has_sub, contains_str, views, push_msg};

verus! {

/// The modern format converter: the `ffmpeg` program and, when installed,
/// the native `cjxl` encoder.
pub struct ModernFormatConverter {
    ffmpeg_path: String,
    cjxl_path: Option<String>,
}

/// Which modern formats can be written.
#[derive(Debug, Clone, Copy, PartialEq, Eq, Structural)]
pub struct FormatSupport {
    pub avif: bool,
    pub jxl_ffmpeg: bool,
    pub jxl_native: bool,
    pub webp: bool,
}

impl ModernFormatConverter {
    pub closed spec fn spec_ffmpeg(&self) -> Seq<char> {
        self.ffmpeg_path@
    }

    pub closed spec fn spec_has_cjxl(&self) -> bool {
        self.cjxl_path is Some
    }

    /// A converter using `ffmpeg` from the search path and `cjxl` when it is found there.
    pub fn new() -> (res: Self)
        ensures
            res.spec_ffmpeg() == "ffmpeg"@,
    {
        ModernFormatConverter { ffmpeg_path: owned("ffmpeg"), cjxl_path: find_tool("cjxl") }
    }

    /// The `ffmpeg` program.
    pub fn ffmpeg_path(&self) -> (res: &str)
        ensures
            res@ == self.spec_ffmpeg(),
    {
        self.ffmpeg_path.as_str()
    }

    /// Where the native `cjxl` encoder was found, if it was.
    pub fn cjxl_path(&self) -> (res: Option<&str>)
        ensures
            res is Some == self.spec_has_cjxl(),
    {
        match &self.cjxl_path {
            Some(p) => Some(p.as_str()),
            None => None,
        }
    }

    /// The native `cjxl` encoder was found.
    pub fn has_native_jxl(&self) -> (res: bool)
        ensures
            res == self.spec_has_cjxl(),
    {
        self.cjxl_path.is_some()
    }

    /// The support read from the encoder list that `ffmpeg -encoders`
    /// printed (`None` when it could not run): AVIF with `libaom-av1` or
    /// `libsvtav1`, JPEG XL through `libjxl` or the native encoder, WebP always.
    pub fn check_format_support(&self, encoders: Option<&str>) -> (res: FormatSupport)
        ensures
            res.webp,
            res.jxl_native == self.spec_has_cjxl(),
            res.avif == match encoders {
                Some(e) => has_sub(e@, "libaom-av1"@) || has_sub(e@, "libsvtav1"@),
                None => false,
            },
            res.jxl_ffmpeg == match encoders {
                Some(e) => has_sub(e@, "libjxl"@),
                None => false,
            },
    {
        let (avif, jxl_ffmpeg) = match encoders {
            Some(e) => (contains_str(e, "libaom-av1") || contains_str(e, "libsvtav1"), contains_str(e, "libjxl")),
            None => (false, false),
        };
        FormatSupport { avif, jxl_ffmpeg, jxl_native: self.cjxl_path.is_some(), webp: true }
    }
}

impl Default for ModernFormatConverter {
    fn default() -> (res: Self)
        ensures
            res.spec_ffmpeg() == "ffmpeg"@,
    {
        Self::new()
    }
}

/// The formats listed as supported.
pub open spec fn supported_list(s: FormatSupport) -> Seq<Seq<char>> {
    (if s.webp { seq!["webp"@] } else { seq![] }) + (if s.avif { seq!["avif"@] } else { seq![] }) + if s.jxl_ffmpeg || s.jxl_native {
        seq!["jxl"@]
    } else {
        seq![]
    }
}

/// Support of one (lower-cased) format name.
pub open spec fn supports_spec(s: FormatSupport, f: Seq<char>) -> bool {
    if f == "webp"@ {
        s.webp
    } else if f == "avif"@ {
        s.avif
    } else if f == "jxl"@ {
        s.jxl_ffmpeg || s.jxl_native
    } else {
        false
    }
}

impl FormatSupport {
    /// WebP, AVIF and JPEG XL, each when supported, in that order.
    pub fn supported_formats(&self) -> (res: Vec<String>)
        ensures
            views(res@) == supported_list(*self),
    {
        let mut v: Vec<String> = Vec::new();
        if self.webp {
            push_msg(&mut v, owned("webp"));
        }
        if self.avif {
            push_msg(&mut v, owned("avif"));
        }
        if self.jxl_ffmpeg || self.jxl_native {
            push_msg(&mut v, owned("jxl"));
        }
        assert(views(v@) =~= supported_list(*self));
        v
    }

    /// The named format (in any letter case) can be written.
    pub fn supports(&self, format: &str) -> (res: bool)
        ensures
            res == supports_spec(*self, lowercase(format@)),
    {
        let lower = to_lower(format);
        let f = lower.as_str();
        if str_eq(f, "webp") {
            self.webp
        } else if str_eq(f, "avif") {
            self.avif
        } else if str_eq(f, "jxl") {
            self.jxl_ffmpeg || self.jxl_native
        } else {
            false
        }
    }
}

/// AVIF encoding parameters.
#[derive(Debug, Clone)]
pub struct AVIFParams {
    pub encoder: String,
    pub crf: u8,
    pub speed: u8,
    pub bit_depth: u8,
    pub min_quantizer: u8,
    pub max_quantizer: u8,
    pub chroma_subsampling: String,
    pub tiles_rows: u8,
    pub tiles_cols: u8,
    pub premultiply_alpha: bool,
}

/// The AVIF constant rate factor for a quality: `(100 - q) * 0.63`, truncated.
pub open spec fn avif_crf(q: u8) -> u8 {
    ((100 - q) * 63 / 100) as u8
}

impl Default for AVIFParams {
    fn default() -> (res: Self)
        ensures
            res.encoder@ == "libaom-av1"@,
            res.crf == 30,
            res.speed == 6,
            res.bit_depth == 8,
            res.min_quantizer == 0,
            res.max_quantizer == 63,
            res.chroma_subsampling@ == "420"@,
            res.tiles_rows == 1,
            res.tiles_cols == 1,
            !res.premultiply_alpha,
    {
        AVIFParams {
            encoder: owned("libaom-av1"),
            crf: 30,
            speed: 6,
            bit_depth: 8,
            min_quantizer: 0,
            max_quantizer: 63,
            chroma_subsampling: owned("420"),
            tiles_rows: 1,
            tiles_cols: 1,
            premultiply_alpha: false,
        }
    }
}

impl AVIFParams {
    /// Parameters for a quality (0-100): the CRF falls as quality rises;
    /// speed 6 from 90, 4 from 70, else 2; quantizer bounds 0-20 above 90,
    /// 5-35 above 70, else 10-50.
    pub fn from_quality(quality: u8) -> (res: Self)
        requires
            quality <= 100,
        ensures
            res.encoder@ == "libaom-av1"@,
            res.crf == avif_crf(quality),
            res.speed == if quality >= 90 { 6u8 } else if quality >= 70 { 4u8 } else { 2u8 },
            res.bit_depth == 8,
            res.min_quantizer == if quality > 90 { 0u8 } else if quality > 70 { 5u8 } else { 10u8 },
            res.max_quantizer == if quality > 90 { 20u8 } else if quality > 70 { 35u8 } else { 50u8 },
            res.chroma_subsampling@ == "420"@,
            res.tiles_rows == 1,
            res.tiles_cols == 1,
            !res.premultiply_alpha,
    {
        let crf: u8 = ((100 - quality) as u32 * 63 / 100) as u8;
        let speed: u8 = if quality >= 90 { 6 } else if quality >= 70 { 4 } else { 2 };
        let min_q: u8 = if quality > 90 { 0 } else if quality > 70 { 5 } else { 10 };
        let max_q: u8 = if quality > 90 { 20 } else if quality > 70 { 35 } else { 50 };
        AVIFParams {
            encoder: owned("libaom-av1"),
            crf,
            speed,
            bit_depth: 8,
            min_quantizer: min_q,
            max_quantizer: max_q,
            chroma_subsampling: owned("420"),
            tiles_rows: 1,
            tiles_cols: 1,
            premultiply_alpha: false,
        }
    }
}

/// JPEG XL encoding parameters.
#[derive(Debug, Clone)]
pub struct JXLParams {
    pub quality: u8,
    pub effort: u8,
    pub lossless: bool,
    pub modular: bool,
    pub progressive: bool,
    pub responsive: bool,
    pub gaborish: bool,
    pub photon_noise: u8,
    pub decoding_speed: u8,
    /// The psychovisual distance, as the bit pattern of an `f32`.
    pub distance_bits: u32,
    pub bit_depth: u8,
    pub color_space: String,
    pub patches: u8,
}

/// Bit pattern of `0.5f32`.
pub const F32_HALF_BITS: u32 = 0x3F00_0000;

/// Bit pattern of `1.0f32`.
pub const F32_ONE_BITS: u32 = 0x3F80_0000;

/// The float with this bit pattern is greater than zero (positive, not NaN).
pub open spec fn f32_bits_positive(bits: u32) -> bool {
    0 < bits <= 0x7F80_0000
}

impl Default for JXLParams {
    fn default() -> (res: Self)
        ensures
            res.quality == 85,
            res.effort == 7,
            !res.lossless,
            !res.modular,
            res.progressive,
            res.responsive,
            res.gaborish,
            res.photon_noise == 0,
            res.decoding_speed == 0,
            res.distance_bits == F32_ONE_BITS,
            res.bit_depth == 0,
            res.color_space@ == "auto"@,
            res.patches == 1,
    {
        JXLParams {
            quality: 85,
            effort: 7,
            lossless: false,
            modular: false,
            progressive: true,
            responsive: true,
            gaborish: true,
            photon_noise: 0,
            decoding_speed: 0,
            distance_bits: F32_ONE_BITS,
            bit_depth: 0,
            color_space: owned("auto"),
            patches: 1,
        }
    }
}

impl JXLParams {
    /// Parameters for a quality: effort 9 from 90, 7 from 70, else 5;
    /// lossless from 95; distance 0.5 from 90, else 1.0.
    pub fn from_quality(quality: u8) -> (res: Self)
        ensures
            res.quality == quality,
            res.effort == if quality >= 90 { 9u8 } else if quality >= 70 { 7u8 } else { 5u8 },
            res.lossless == (quality >= 95),
            !res.modular,
            res.progressive,
            res.responsive,
            res.gaborish,
            res.photon_noise == 0,
            res.decoding_speed == 0,
            res.distance_bits == if quality >= 90 { F32_HALF_BITS } else { F32_ONE_BITS },
            res.bit_depth == 0,
            res.color_space@ == "auto"@,
            res.patches == 1,
    {
        let effort: u8 = if quality >= 90 { 9 } else if quality >= 70 { 7 } else { 5 };
        JXLParams {
            quality,
            effort,
            lossless: quality >= 95,
            modular: false,
            progressive: true,
            responsive: true,
            gaborish: true,
            photon_noise: 0,
            decoding_speed: 0,
            distance_bits: if quality >= 90 { F32_HALF_BITS } else { F32_ONE_BITS },
            bit_depth: 0,
            color_space: owned("auto"),
            patches: 1,
        }
    }
}

/// WebP encoding parameters.
#[derive(Debug, Clone, Copy, PartialEq, Eq, Structural)]
pub struct WebPParams {
    pub quality: u8,
    pub method: u8,
    pub filter_strength: u8,
    pub sharpness: u8,
    pub lossless: bool,
}

impl Default for WebPParams {
    fn default() -> (res: Self)
        ensures
            res == (WebPParams { quality: 85, method: 4, filter_strength: 60, sharpness: 0, lossless: false }),
    {
        WebPParams { quality: 85, method: 4, filter_strength: 60, sharpness: 0, lossless: false }
    }
}

impl WebPParams {
    /// Parameters for a quality: method 6 from 90, 4 from 70, else 2;
    /// lossless from 95.
    pub fn from_quality(quality: u8) -> (res: Self)
        ensures
            res == (WebPParams {
                quality,
                method: if quality >= 90 { 6u8 } else if quality >= 70 { 4u8 } else { 2u8 },
                filter_strength: 60,
                sharpness: 0,
                lossless: quality >= 95,
            }),
    {
        let method: u8 = if quality >= 90 { 6 } else if quality >= 70 { 4 } else { 2 };
        WebPParams { quality, method, filter_strength: 60, sharpness: 0, lossless: quality >= 95 }
    }
}

/// HEIC encoding parameters.
#[derive(Debug, Clone)]
pub struct HEICParams {
    pub quality: u8,
    pub encoder: String,
    pub chroma_subsampling: String,
    pub lossless: bool,
    pub embed_thumbnail: bool,
}

impl Default for HEICParams {
    fn default() -> (res: Self)
        ensures
            res.quality == 85,
            res.encoder@ == "x265"@,
            res.chroma_subsampling@ == "420"@,
            !res.lossless,
            !res.embed_thumbnail,
    {
        HEICParams {
            quality: 85,
            encoder: owned("x265"),
            chroma_subsampling: owned("420"),
            lossless: false,
            embed_thumbnail: false,
        }
    }
}

impl HEICParams {
    /// Parameters for a quality: 4:4:4 chroma from 90, else 4:2:0;
    /// lossless from 95; thumbnail embedded.
    pub fn from_quality(quality: u8) -> (res: Self)
        ensures
            res.quality == quality,
            res.encoder@ == "x265"@,
            res.chroma_subsampling@ == if quality >= 90 { "444"@ } else { "420"@ },
            res.lossless == (quality >= 95),
            res.embed_thumbnail,
    {
        HEICParams {
            quality,
            encoder: owned("x265"),
            chroma_subsampling: if quality >= 90 { owned("444") } else { owned("420") },
            lossless: quality >= 95,
            embed_thumbnail: true,
        }
    }
}

// ───────────────────────── command lines ─────────────────────────

/// The `ffmpeg` pixel format for a bit depth and chroma subsampling; empty
/// when ffmpeg should choose.
pub open spec fn avif_pix_fmt(bit_depth: u8, chroma: Seq<char>) -> Seq<char> {
    if chroma == "420"@ {
        if bit_depth == 10 { "yuv420p10le"@ } else if bit_depth == 12 { "yuv420p12le"@ } else { "yuv420p"@ }
    } else if chroma == "422"@ {
        if bit_depth == 10 { "yuv422p10le"@ } else if bit_depth == 12 { "yuv422p12le"@ } else { "yuv422p"@ }
    } else if chroma == "444"@ {
        if bit_depth == 10 { "yuv444p10le"@ } else if bit_depth == 12 { "yuv444p12le"@ } else { "yuv444p"@ }
    } else {
        seq![]
    }
}

/// The `ffmpeg` arguments that encode `input` to AVIF at `output`.
pub open spec fn avif_args_spec(
    input: Seq<char>,
    output: Seq<char>,
    encoder: Seq<char>,
    crf: u8,
    speed: u8,
    bit_depth: u8,
    min_q: u8,
    max_q: u8,
    chroma: Seq<char>,
    rows: u8,
    cols: u8,
) -> Seq<Seq<char>> {
    let head = seq!["-i"@, input, "-c:v"@, encoder];
    let enc = if encoder == "libaom-av1"@ {
        seq!["-crf"@, dec(crf as nat), "-cpu-used"@, dec(speed as nat), "-qmin"@, dec(min_q as nat), "-qmax"@, dec(max_q as nat)]
            + if rows > 1 || cols > 1 {
            seq!["-tiles"@, dec(cols as nat) + "x"@ + dec(rows as nat)]
        } else {
            seq![]
        }
    } else if encoder == "libsvtav1"@ {
        seq!["-crf"@, dec(crf as nat), "-preset"@, dec(speed as nat), "-qmin"@, dec(min_q as nat), "-qmax"@, dec(max_q as nat)]
    } else {
        seq![]
    };
    let pix = avif_pix_fmt(bit_depth, chroma);
    let pixa = if chroma.len() > 0 && pix.len() > 0 { seq!["-pix_fmt"@, pix] } else { seq![] };
    head + enc + pixa + seq!["-y"@, output]
}

/// The `ffmpeg` arguments that encode to JPEG XL with `libjxl`.
pub open spec fn jxl_ffmpeg_args_spec(input: Seq<char>, output: Seq<char>, q: u8, effort: u8, lossless: bool) -> Seq<Seq<char>> {
    seq!["-i"@, input, "-c:v"@, "libjxl"@, "-q:v"@, dec(q as nat), "-effort"@, dec(effort as nat)] + (if lossless {
        seq!["-lossless"@, "1"@]
    } else {
        seq![]
    }) + seq!["-y"@, output]
}

/// An argument when it is asked for, else nothing.
pub open spec fn args_if(b: bool, a: Seq<Seq<char>>) -> Seq<Seq<char>> {
    if b {
        a
    } else {
        seq![]
    }
}

/// The `cjxl` arguments up to the effort: the files, then lossless or the
/// quality, then the effort.
pub open spec fn jxl_native_head(input: Seq<char>, output: Seq<char>, p: JXLParams) -> Seq<Seq<char>> {
    seq![input, output] + (if p.lossless { seq!["--lossless"@] } else { seq!["--quality"@, dec(p.quality as nat)] })
        + seq!["--effort"@, dec(p.effort as nat)]
}

/// The `cjxl` switches for the coding tools.
pub open spec fn jxl_native_tools(p: JXLParams) -> Seq<Seq<char>> {
    args_if(p.modular, seq!["--modular"@]) + args_if(p.progressive, seq!["--progressive"@]) + args_if(
        p.responsive,
        seq!["--responsive"@, "1"@],
    ) + (if p.gaborish { seq!["--gaborish=1"@] } else { seq!["--gaborish=0"@] }) + args_if(
        p.photon_noise > 0,
        seq!["--photon_noise"@, dec(p.photon_noise as nat)],
    ) + args_if(p.decoding_speed > 0, seq!["--decoding_speed"@, dec(p.decoding_speed as nat)])
}

/// The `cjxl` arguments for distance, bit depth, colour space and patches;
/// `distance_text` is the distance as `f32` displays it. The distance is
/// passed when it is above zero in lossy mode, the bit depth when it is
/// neither 0 nor 8, the colour space when it is set and neither sRGB nor
/// "auto", the patches when above zero.
pub open spec fn jxl_native_tail(p: JXLParams, distance_text: Seq<char>) -> Seq<Seq<char>> {
    args_if(f32_bits_positive(p.distance_bits) && !p.lossless, seq!["--distance"@, distance_text]) + args_if(
        p.bit_depth != 8 && p.bit_depth != 0,
        seq!["--bits_per_sample"@, dec(p.bit_depth as nat)],
    ) + args_if(
        p.color_space@.len() > 0 && p.color_space@ != "sRGB"@ && p.color_space@ != "auto"@,
        seq!["--color_space"@, p.color_space@],
    ) + args_if(p.patches > 0, seq!["--patches"@, dec(p.patches as nat)])
}

/// The `cjxl` arguments that encode `input` to JPEG XL at `output`.
pub open spec fn jxl_native_args_spec(input: Seq<char>, output: Seq<char>, p: JXLParams, distance_text: Seq<char>) -> Seq<Seq<char>> {
    jxl_native_head(input, output, p) + jxl_native_tools(p) + jxl_native_tail(p, distance_text)
}

/// The `cwebp` arguments that encode `input` to WebP at `output`.
pub open spec fn webp_args_spec(input: Seq<char>, output: Seq<char>, p: WebPParams) -> Seq<Seq<char>> {
    seq![input, "-o"@, output] + (if p.lossless { seq!["-lossless"@] } else { seq!["-q"@, dec(p.quality as nat)] })
        + seq![
        "-m"@,
        dec(p.method as nat),
        "-f"@,
        dec(p.filter_strength as nat),
        "-sharpness"@,
        dec(p.sharpness as nat),
    ]
}

/// The `ffmpeg` arguments that encode to HEIC, or the refusal of an unknown encoder.
pub open spec fn heic_args_spec(
    input: Seq<char>,
    output: Seq<char>,
    quality: u8,
    encoder: Seq<char>,
    chroma: Seq<char>,
    lossless: bool,
) -> Result<Seq<Seq<char>>, Seq<char>> {
    let enc: Option<Seq<Seq<char>>> = if encoder == "x265"@ {
        Some(
            seq!["-c:v"@, "libx265"@, "-tag:v"@, "hvc1"@] + if lossless {
                seq!["-x265-params"@, "lossless=1"@]
            } else {
                seq!["-crf"@, dec((100 - quality) as nat)]
            },
        )
    } else if encoder == "libheif"@ {
        Some(seq!["-c:v"@, "libheif"@, "-q:v"@, dec(quality as nat)])
    } else {
        None
    };
    match enc {
        None => Err("Unsupported HEIC encoder: "@ + encoder),
        Some(e) => {
            let pix: Seq<Seq<char>> = if chroma == "444"@ {
                seq!["-pix_fmt"@, "yuv444p"@]
            } else if chroma == "420"@ {
                seq!["-pix_fmt"@, "yuv420p"@]
            } else {
                seq![]
            };
            Ok(seq!["-i"@, input] + e + pix + seq!["-y"@, output])
        },
    }
}

fn push_one(v: &mut Vec<String>, a: String)
    ensures
        views(final(v)@) == views(old(v)@) + seq![a@],
{
    push_msg(v, a);
    assert(views(final(v)@) =~= views(old(v)@) + seq![a@]);
}

fn jxl_head_vec(input: &str, output: &str, p: &JXLParams) -> (res: Vec<String>)
    ensures
        views(res@) == jxl_native_head(input@, output@, *p),
{
    let mut v: Vec<String> = Vec::new();
    assert(views(v@) =~= seq![]);
    push_one(&mut v, owned(input));
    push_one(&mut v, owned(output));
    if p.lossless {
        push_one(&mut v, owned("--lossless"));
    } else {
        push_pair(&mut v, "--quality", decimal(p.quality as u64));
    }
    push_pair(&mut v, "--effort", decimal(p.effort as u64));
    assert(views(v@) =~= jxl_native_head(input@, output@, *p));
    v
}

fn push_flag_if(v: &mut Vec<String>, b: bool, a: &str)
    ensures
        views(final(v)@) == views(old(v)@) + args_if(b, seq![a@]),
{
    if b {
        push_one(v, owned(a));
    }
    assert(views(final(v)@) =~= views(old(v)@) + args_if(b, seq![a@]));
}

fn push_pair_if(v: &mut Vec<String>, b: bool, a: &str, val: String)
    ensures
        views(final(v)@) == views(old(v)@) + args_if(b, seq![a@, val@]),
{
    if b {
        push_pair(v, a, val);
    }
    assert(views(final(v)@) =~= views(old(v)@) + args_if(b, seq![a@, val@]));
}

fn push_jxl_tools(v: &mut Vec<String>, p: &JXLParams)
    ensures
        views(final(v)@) == views(old(v)@) + jxl_native_tools(*p),
{
    let ghost start = views(v@);
    push_flag_if(v, p.modular, "--modular");
    push_flag_if(v, p.progressive, "--progressive");
    push_pair_if(v, p.responsive, "--responsive", owned("1"));
    let ghost a3 = views(v@);
    if p.gaborish {
        push_one(v, owned("--gaborish=1"));
    } else {
        push_one(v, owned("--gaborish=0"));
    }
    let ghost a4 = views(v@);
    push_pair_if(v, p.photon_noise > 0, "--photon_noise", decimal(p.photon_noise as u64));
    push_pair_if(v, p.decoding_speed > 0, "--decoding_speed", decimal(p.decoding_speed as u64));
    assert(views(v@) =~= start + jxl_native_tools(*p));
}

fn push_jxl_tail(v: &mut Vec<String>, p: &JXLParams, distance_text: &str)
    ensures
        views(final(v)@) == views(old(v)@) + jxl_native_tail(*p, distance_text@),
{
    let ghost start = views(v@);
    let positive = 0 < p.distance_bits && p.distance_bits <= 0x7F80_0000;
    if positive && !p.lossless {
        push_pair(v, "--distance", owned(distance_text));
    }
    let ghost a1 = views(v@);
    assert(a1 =~= start + args_if(f32_bits_positive(p.distance_bits) && !p.lossless, seq!["--distance"@, distance_text@]));
    if p.bit_depth != 8 && p.bit_depth != 0 {
        push_pair(v, "--bits_per_sample", decimal(p.bit_depth as u64));
    }
    let ghost a2 = views(v@);
    assert(a2 =~= a1 + args_if(p.bit_depth != 8 && p.bit_depth != 0, seq!["--bits_per_sample"@, dec(p.bit_depth as nat)]));
    let cs = p.color_space.as_str();
    if cs.unicode_len() > 0 && !str_eq(cs, "sRGB") && !str_eq(cs, "auto") {
        push_pair(v, "--color_space", owned(cs));
    }
    let ghost a3 = views(v@);
    assert(a3 =~= a2 + args_if(
        p.color_space@.len() > 0 && p.color_space@ != "sRGB"@ && p.color_space@ != "auto"@,
        seq!["--color_space"@, p.color_space@],
    ));
    if p.patches > 0 {
        push_pair(v, "--patches", decimal(p.patches as u64));
    }
    assert(views(v@) =~= a3 + args_if(p.patches > 0, seq!["--patches"@, dec(p.patches as nat)]));
    assert(views(v@) =~= start + jxl_native_tail(*p, distance_text@));
}

fn push_pair(v: &mut Vec<String>, a: &str, b: String)
    ensures
        views(final(v)@) == views(old(v)@) + seq![a@, b@],
{
    push_msg(v, owned(a));
    push_msg(v, b);
    assert(views(final(v)@) =~= views(old(v)@) + seq![a@, b@]);
}

fn pix_fmt_for(bit_depth: u8, chroma: &str) -> (res: &'static str)
    ensures
        res@ == avif_pix_fmt(bit_depth, chroma@),
{
    if str_eq(chroma, "420") {
        if bit_depth == 10 { "yuv420p10le" } else if bit_depth == 12 { "yuv420p12le" } else { "yuv420p" }
    } else if str_eq(chroma, "422") {
        if bit_depth == 10 { "yuv422p10le" } else if bit_depth == 12 { "yuv422p12le" } else { "yuv422p" }
    } else if str_eq(chroma, "444") {
        if bit_depth == 10 { "yuv444p10le" } else if bit_depth == 12 { "yuv444p12le" } else { "yuv444p" }
    } else {
        let e = "";
        proof {
            reveal_strlit("");
        }
        e
    }
}

impl ModernFormatConverter {
    /// The `ffmpeg` arguments for an AVIF conversion.
    pub fn avif_args(input: &str, output: &str, params: &AVIFParams) -> (res: Vec<String>)
        ensures
            views(res@) == avif_args_spec(
                input@,
                output@,
                params.encoder@,
                params.crf,
                params.speed,
                params.bit_depth,
                params.min_quantizer,
                params.max_quantizer,
                params.chroma_subsampling@,
                params.tiles_rows,
                params.tiles_cols,
            ),
    {
        let mut v: Vec<String> = Vec::new();
        assert(views(v@) =~= seq![]);
        push_pair(&mut v, "-i", owned(input));
        push_pair(&mut v, "-c:v", owned(params.encoder.as_str()));
        let ghost head = views(v@);
        let aom = str_eq(params.encoder.as_str(), "libaom-av1");
        let svt = str_eq(params.encoder.as_str(), "libsvtav1");
        if aom || svt {
            push_pair(&mut v, "-crf", decimal(params.crf as u64));
            if aom {
                push_pair(&mut v, "-cpu-used", decimal(params.speed as u64));
            } else {
                push_pair(&mut v, "-preset", decimal(params.speed as u64));
            }
            push_pair(&mut v, "-qmin", decimal(params.min_quantizer as u64));
            push_pair(&mut v, "-qmax", decimal(params.max_quantizer as u64));
            if aom && (params.tiles_rows > 1 || params.tiles_cols > 1) {
                let mut t = decimal(params.tiles_cols as u64);
                t.append("x");
                crate::text::push_decimal(&mut t, params.tiles_rows as u64);
                push_pair(&mut v, "-tiles", t);
            }
        }
        let ghost mid = views(v@);
        if params.chroma_subsampling.unicode_len() > 0 {
            let pix = pix_fmt_for(params.bit_depth, params.chroma_subsampling.as_str());
            if pix.unicode_len() > 0 {
                push_pair(&mut v, "-pix_fmt", owned(pix));
            }
        }
        push_pair(&mut v, "-y", owned(output));
        assert(views(v@) =~= avif_args_spec(
            input@,
            output@,
            params.encoder@,
            params.crf,
            params.speed,
            params.bit_depth,
            params.min_quantizer,
            params.max_quantizer,
            params.chroma_subsampling@,
            params.tiles_rows,
            params.tiles_cols,
        ));
        v
    }

    /// The `ffmpeg` arguments for a JPEG XL conversion through `libjxl`.
    pub fn jxl_ffmpeg_args(input: &str, output: &str, params: &JXLParams) -> (res: Vec<String>)
        ensures
            views(res@) == jxl_ffmpeg_args_spec(input@, output@, params.quality, params.effort, params.lossless),
    {
        let mut v: Vec<String> = Vec::new();
        assert(views(v@) =~= seq![]);
        push_pair(&mut v, "-i", owned(input));
        push_pair(&mut v, "-c:v", owned("libjxl"));
        push_pair(&mut v, "-q:v", decimal(params.quality as u64));
        push_pair(&mut v, "-effort", decimal(params.effort as u64));
        if params.lossless {
            push_pair(&mut v, "-lossless", owned("1"));
        }
        push_pair(&mut v, "-y", owned(output));
        assert(views(v@) =~= jxl_ffmpeg_args_spec(input@, output@, params.quality, params.effort, params.lossless));
        v
    }

    /// The `cjxl` arguments for a JPEG XL conversion; `distance_text` is
    /// the distance as `f32` displays it.
    pub fn jxl_native_args(input: &str, output: &str, params: &JXLParams, distance_text: &str) -> (res: Vec<String>)
        ensures
            views(res@) == jxl_native_args_spec(input@, output@, *params, distance_text@),
    {
        let mut v = jxl_head_vec(input, output, params);
        push_jxl_tools(&mut v, params);
        push_jxl_tail(&mut v, params, distance_text);
        v
    }

    /// The `cwebp` arguments for a WebP conversion.
    pub fn webp_args(input: &str, output: &str, params: &WebPParams) -> (res: Vec<String>)
        ensures
            views(res@) == webp_args_spec(input@, output@, *params),
    {
        let mut v: Vec<String> = Vec::new();
        assert(views(v@) =~= seq![]);
        push_msg(&mut v, owned(input));
        push_pair(&mut v, "-o", owned(output));
        if params.lossless {
            push_msg(&mut v, owned("-lossless"));
        } else {
            push_pair(&mut v, "-q", decimal(params.quality as u64));
        }
        push_pair(&mut v, "-m", decimal(params.method as u64));
        push_pair(&mut v, "-f", decimal(params.filter_strength as u64));
        push_pair(&mut v, "-sharpness", decimal(params.sharpness as u64));
        assert(views(v@) =~= webp_args_spec(input@, output@, *params));
        v
    }

    /// The `ffmpeg` arguments for a HEIC conversion; an encoder other than
    /// `x265` or `libheif` is refused.
    pub fn heic_args(input: &str, output: &str, params: &HEICParams) -> (res: Result<Vec<String>, String>)
        requires
            params.quality <= 100,
        ensures
            match res {
                Ok(v) => heic_args_spec(
                    input@,
                    output@,
                    params.quality,
                    params.encoder@,
                    params.chroma_subsampling@,
                    params.lossless,
                ) == Ok::<Seq<Seq<char>>, Seq<char>>(views(v@)),
                Err(m) => heic_args_spec(
                    input@,
                    output@,
                    params.quality,
                    params.encoder@,
                    params.chroma_subsampling@,
                    params.lossless,
                ) == Err::<Seq<Seq<char>>, Seq<char>>(m@),
            },
    {
        let x265 = str_eq(params.encoder.as_str(), "x265");
        let libheif = str_eq(params.encoder.as_str(), "libheif");
        if !x265 && !libheif {
            return Err(concat2("Unsupported HEIC encoder: ", params.encoder.as_str()));
        }
        let mut v: Vec<String> = Vec::new();
        assert(views(v@) =~= seq![]);
        push_pair(&mut v, "-i", owned(input));
        if x265 {
            push_pair(&mut v, "-c:v", owned("libx265"));
            push_pair(&mut v, "-tag:v", owned("hvc1"));
            if params.lossless {
                push_pair(&mut v, "-x265-params", owned("lossless=1"));
            } else {
                push_pair(&mut v, "-crf", decimal((100 - params.quality) as u64));
            }
        } else {
            push_pair(&mut v, "-c:v", owned("libheif"));
            push_pair(&mut v, "-q:v", decimal(params.quality as u64));
        }
        if str_eq(params.chroma_subsampling.as_str(), "444") {
            push_pair(&mut v, "-pix_fmt", owned("yuv444p"));
        } else if str_eq(params.chroma_subsampling.as_str(), "420") {
            push_pair(&mut v, "-pix_fmt", owned("yuv420p"));
        }
        push_pair(&mut v, "-y", owned(output));
        proof {
            let enc: Seq<Seq<char>> = if x265 {
                seq!["-c:v"@, "libx265"@, "-tag:v"@, "hvc1"@] + if params.lossless {
                    seq!["-x265-params"@, "lossless=1"@]
                } else {
                    seq!["-crf"@, dec((100 - params.quality) as nat)]
                }
            } else {
                seq!["-c:v"@, "libheif"@, "-q:v"@, dec(params.quality as nat)]
            };
            let chroma = params.chroma_subsampling@;
            let pix: Seq<Seq<char>> = if chroma == "444"@ {
                seq!["-pix_fmt"@, "yuv444p"@]
            } else if chroma == "420"@ {
                seq!["-pix_fmt"@, "yuv420p"@]
            } else {
                seq![]
            };
            assert(views(v@) =~= seq!["-i"@, input@] + enc + pix + seq!["-y"@, output@]);
        }
        Ok(v)
    }
}

} // verus!
