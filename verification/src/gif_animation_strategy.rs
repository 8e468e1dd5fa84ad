//! Conversion of animated GIFs to WebP (with `gif2webp`, or `ffmpeg` when
//! it is missing) and to AVIF (with `ffmpeg`): which tool runs, and with
//! which arguments.

use vstd::prelude::*;
use vstd::string::*;
use crate::text::{owned, dec, decimal, views, push_msg};

verus! {

/// The animated-GIF conversion strategy.
pub struct AnimatedGifStrategy;

/// The tool that converts a GIF to WebP.
#[derive(Debug, Clone, Copy, PartialEq, Eq, Structural)]
pub enum WebpTool {
    Gif2Webp,
    Ffmpeg,
}

/// The AVIF constant rate factor for a quality, computed in `u8` as
/// `63 - quality * 63 / 100`.
pub open spec fn gif_avif_crf(quality: u8) -> u8 {
    (63 - quality * 63 / 100) as u8
}

impl AnimatedGifStrategy {
    /// The strategy.
    pub fn new() -> (res: Self) {
        AnimatedGifStrategy
    }

    /// A GIF can be converted when `gif2webp` or `ffmpeg` is installed.
    pub fn is_available(&self, has_gif2webp: bool, has_ffmpeg: bool) -> (res: bool)
        ensures
            res == (has_gif2webp || has_ffmpeg),
    {
        has_gif2webp || has_ffmpeg
    }

    /// The target formats: WebP and AVIF.
    pub fn supported_formats(&self) -> (res: Vec<String>)
        ensures
            views(res@) == seq!["webp"@, "avif"@],
    {
        let mut v: Vec<String> = Vec::new();
        assert(views(v@) =~= seq![]);
        push_msg(&mut v, owned("webp"));
        push_msg(&mut v, owned("avif"));
        v
    }

    /// The tool for a WebP conversion: `gif2webp` first, else `ffmpeg`.
    pub fn webp_tool(&self, has_gif2webp: bool, has_ffmpeg: bool) -> (res: Result<WebpTool, String>)
        ensures
            match res {
                Ok(t) => (has_gif2webp && t == WebpTool::Gif2Webp) || (!has_gif2webp && has_ffmpeg && t
                    == WebpTool::Ffmpeg),
                Err(m) => !has_gif2webp && !has_ffmpeg && m@
                    == "Neither gif2webp nor ffmpeg is available, please install one of them"@,
            },
    {
        if has_gif2webp {
            Ok(WebpTool::Gif2Webp)
        } else if has_ffmpeg {
            Ok(WebpTool::Ffmpeg)
        } else {
            Err(owned("Neither gif2webp nor ffmpeg is available, please install one of them"))
        }
    }

    /// The `gif2webp` arguments.
    pub fn gif2webp_args(&self, input: &str, output: &str, quality: u8) -> (res: Vec<String>)
        ensures
            views(res@) == seq!["-q"@, dec(quality as nat), "-m"@, "6"@, input@, "-o"@, output@],
    {
        let mut v: Vec<String> = Vec::new();
        assert(views(v@) =~= seq![]);
        push_msg(&mut v, owned("-q"));
        push_msg(&mut v, decimal(quality as u64));
        push_msg(&mut v, owned("-m"));
        push_msg(&mut v, owned("6"));
        push_msg(&mut v, owned(input));
        push_msg(&mut v, owned("-o"));
        push_msg(&mut v, owned(output));
        v
    }

    /// The `ffmpeg` arguments of a WebP conversion (progress to stderr, looping).
    pub fn ffmpeg_webp_args(&self, input: &str, output: &str, quality: u8) -> (res: Vec<String>)
        ensures
            views(res@) == seq![
                "-progress"@,
                "pipe:2"@,
                "-i"@,
                input@,
                "-c:v"@,
                "libwebp"@,
                "-qscale"@,
                dec(quality as nat),
                "-lossless"@,
                "0"@,
                "-preset"@,
                "default"@,
                "-loop"@,
                "0"@,
                "-y"@,
                output@,
            ],
    {
        let mut v: Vec<String> = Vec::new();
        assert(views(v@) =~= seq![]);
        push_msg(&mut v, owned("-progress"));
        push_msg(&mut v, owned("pipe:2"));
        push_msg(&mut v, owned("-i"));
        push_msg(&mut v, owned(input));
        push_msg(&mut v, owned("-c:v"));
        push_msg(&mut v, owned("libwebp"));
        push_msg(&mut v, owned("-qscale"));
        push_msg(&mut v, decimal(quality as u64));
        push_msg(&mut v, owned("-lossless"));
        push_msg(&mut v, owned("0"));
        push_msg(&mut v, owned("-preset"));
        push_msg(&mut v, owned("default"));
        push_msg(&mut v, owned("-loop"));
        push_msg(&mut v, owned("0"));
        push_msg(&mut v, owned("-y"));
        push_msg(&mut v, owned(output));
        v
    }

    /// The `ffmpeg` arguments of an AVIF conversion. The CRF is computed in
    /// 8-bit arithmetic, so `quality * 63` must stay within 255.
    pub fn ffmpeg_avif_args(&self, input: &str, output: &str, quality: u8) -> (res: Vec<String>)
        requires
            quality * 63 <= 255,
        ensures
            views(res@) == seq![
                "-i"@,
                input@,
                "-c:v"@,
                "libaom-av1"@,
                "-crf"@,
                dec(gif_avif_crf(quality) as nat),
                "-b:v"@,
                "0"@,
                "-y"@,
                output@,
            ],
    {
        let crf: u8 = 63 - (quality * 63 / 100);
        let mut v: Vec<String> = Vec::new();
        assert(views(v@) =~= seq![]);
        push_msg(&mut v, owned("-i"));
        push_msg(&mut v, owned(input));
        push_msg(&mut v, owned("-c:v"));
        push_msg(&mut v, owned("libaom-av1"));
        push_msg(&mut v, owned("-crf"));
        push_msg(&mut v, decimal(crf as u64));
        push_msg(&mut v, owned("-b:v"));
        push_msg(&mut v, owned("0"));
        push_msg(&mut v, owned("-y"));
        push_msg(&mut v, owned(output));
        v
    }
}

impl Default for AnimatedGifStrategy {
    fn default() -> (res: Self) {
        Self::new()
    }
}

} // verus!
