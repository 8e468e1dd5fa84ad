//! The client that asks the parameter service for conversion settings:
//! its target format and preference, which of the service's format
//! handlers a request goes to, and whether an image file is animated, read
//! from its size or its bytes (the WebP header, the PNG chunk list).

use vstd::prelude::*;
use crate::paths::{extension, extension_of};
use crate::text::{lowercase, str_eq, to_lower};

verus! {

/// The handler of the parameter service that a target format is sent to.
#[derive(Debug, Clone, Copy, PartialEq, Eq, Structural)]
pub enum ParamHandler {
    Avif,
    Jxl,
    Webp,
    Png,
    Jpeg,
    Default,
}

/// Asks the parameter service for settings.
#[derive(Debug, Clone)]
pub struct AIParameterClient {
    target_format: String,
    prefer_quality: bool,
}

/// The handler for a (lower-cased) target format.
pub open spec fn handler_spec(f: Seq<char>) -> ParamHandler {
    if f == "avif"@ {
        ParamHandler::Avif
    } else if f == "jxl"@ || f == "jpegxl"@ {
        ParamHandler::Jxl
    } else if f == "webp"@ {
        ParamHandler::Webp
    } else if f == "png"@ {
        ParamHandler::Png
    } else if f == "jpeg"@ || f == "jpg"@ {
        ParamHandler::Jpeg
    } else {
        ParamHandler::Default
    }
}

impl AIParameterClient {
    /// The target format, lower-cased.
    pub closed spec fn spec_target(&self) -> Seq<char> {
        self.target_format@
    }

    /// Whether quality is preferred over size.
    pub closed spec fn spec_prefer_quality(&self) -> bool {
        self.prefer_quality
    }

    /// A client for a target format (kept lower-cased), not preferring quality.
    pub fn new(target_format: &str) -> (res: Self)
        ensures
            res.spec_target() == lowercase(target_format@),
            !res.spec_prefer_quality(),
    {
        AIParameterClient { target_format: to_lower(target_format), prefer_quality: false }
    }

    /// Sets whether quality is preferred over size.
    pub fn set_prefer_quality(&mut self, prefer: bool)
        ensures
            final(self).spec_prefer_quality() == prefer,
            final(self).spec_target() == old(self).spec_target(),
    {
        self.prefer_quality = prefer;
    }

    /// Whether quality is preferred over size.
    pub fn prefer_quality(&self) -> (res: bool)
        ensures
            res == self.spec_prefer_quality(),
    {
        self.prefer_quality
    }

    /// The service handler that this client's requests go to.
    pub fn handler(&self) -> (res: ParamHandler)
        ensures
            res == handler_spec(self.spec_target()),
    {
        let f = self.target_format.as_str();
        if str_eq(f, "avif") {
            ParamHandler::Avif
        } else if str_eq(f, "jxl") || str_eq(f, "jpegxl") {
            ParamHandler::Jxl
        } else if str_eq(f, "webp") {
            ParamHandler::Webp
        } else if str_eq(f, "png") {
            ParamHandler::Png
        } else if str_eq(f, "jpeg") || str_eq(f, "jpg") {
            ParamHandler::Jpeg
        } else {
            ParamHandler::Default
        }
    }
}


/// What has to be read of a file to tell whether it is animated.
#[derive(Debug, Clone, Copy, PartialEq, Eq, Structural)]
pub enum AnimationProbe {
    /// Its size in bytes (a GIF).
    FileSize,
    /// Its first 16 bytes (a WebP).
    Header,
    /// All of it (a PNG or APNG).
    Contents,
    /// Nothing: a file of another kind is not animated.
    Nothing,
}

/// The extension of a path, lower-cased; empty when it has none.
pub open spec fn animation_ext(path: Seq<char>) -> Seq<char> {
    match extension_of(path) {
        Some(x) => lowercase(x),
        None => Seq::empty(),
    }
}

/// What is read for a (lower-cased) extension.
pub open spec fn probe_spec(ext: Seq<char>) -> AnimationProbe {
    if ext == "gif"@ {
        AnimationProbe::FileSize
    } else if ext == "webp"@ {
        AnimationProbe::Header
    } else if ext == "png"@ || ext == "apng"@ {
        AnimationProbe::Contents
    } else {
        AnimationProbe::Nothing
    }
}

/// A WebP header of the extended (`VP8X`) kind, which may hold an
/// animation: `RIFF`, four size bytes, `WEBP`, `VP8X`.
pub open spec fn webp_extended(h: Seq<u8>) -> bool {
    &&& h.len() >= 16
    &&& h[0] == 0x52u8 && h[1] == 0x49u8 && h[2] == 0x46u8 && h[3] == 0x46u8
    &&& h[8] == 0x57u8 && h[9] == 0x45u8 && h[10] == 0x42u8 && h[11] == 0x50u8
    &&& h[12] == 0x56u8 && h[13] == 0x50u8 && h[14] == 0x38u8 && h[15] == 0x58u8
}

/// The eight-byte PNG signature opens the data.
pub open spec fn png_signature(d: Seq<u8>) -> bool {
    &&& d.len() >= 8
    &&& d[0] == 0x89u8 && d[1] == 0x50u8 && d[2] == 0x4Eu8 && d[3] == 0x47u8
    &&& d[4] == 0x0Du8 && d[5] == 0x0Au8 && d[6] == 0x1Au8 && d[7] == 0x0Au8
}

/// The big-endian 32-bit number at `i`.
pub open spec fn be32(d: Seq<u8>, i: int) -> int {
    d[i] * 16777216 + d[i + 1] * 65536 + d[i + 2] * 256 + d[i + 3]
}

/// The chunk type at `i` is `acTL`, the animation control chunk.
pub open spec fn is_actl(d: Seq<u8>, i: int) -> bool {
    d[i] == 0x61u8 && d[i + 1] == 0x63u8 && d[i + 2] == 0x54u8 && d[i + 3] == 0x4Cu8
}

/// Walking the chunks from `pos` (length, type, data, checksum), an `acTL`
/// chunk is met before the data runs out.
pub open spec fn png_scan(d: Seq<u8>, pos: int) -> bool
    decreases d.len() - pos,
{
    if pos < 0 || pos + 8 > d.len() {
        false
    } else if is_actl(d, pos + 4) {
        true
    } else {
        let next = pos + 12 + be32(d, pos);
        if next + 8 > d.len() {
            false
        } else {
            png_scan(d, next)
        }
    }
}

/// The walk from `pos` never meets a chunk (before an `acTL`) whose length
/// plus four overflows 32 bits.
pub open spec fn png_scan_safe(d: Seq<u8>, pos: int) -> bool
    decreases d.len() - pos,
{
    if pos < 0 || pos + 8 > d.len() {
        true
    } else if is_actl(d, pos + 4) {
        true
    } else if be32(d, pos) + 4 > 0xFFFF_FFFF {
        false
    } else {
        let next = pos + 12 + be32(d, pos);
        if next + 8 > d.len() {
            true
        } else {
            png_scan_safe(d, next)
        }
    }
}

/// Whether a file is animated, from its lower-cased extension and what
/// was read of it: a GIF over 0.1 MiB; a WebP with an extended header; a
/// PNG or APNG whose chunks include `acTL`.
pub open spec fn animation_spec(ext: Seq<char>, file_size: Option<u64>, contents: Option<Seq<u8>>) -> bool {
    if ext == "gif"@ {
        file_size matches Some(s) && s > 104857
    } else if ext == "webp"@ {
        contents matches Some(c) && webp_extended(c)
    } else if ext == "png"@ || ext == "apng"@ {
        contents matches Some(c) && png_signature(c) && png_scan(c, 8)
    } else {
        false
    }
}

fn lower_extension(path: &str) -> (res: String)
    ensures
        res@ == animation_ext(path@),
{
    match extension(path) {
        Some(x) => to_lower(x.as_str()),
        None => String::new(),
    }
}

fn png_has_actl(d: &[u8]) -> (res: bool)
    requires
        png_scan_safe(d@, 8),
    ensures
        res == png_scan(d@, 8),
{
    if d.len() < 8 {
        return false;
    }
    let mut pos: usize = 8;
    loop
        invariant
            8 <= pos <= d@.len(),
            png_scan(d@, pos as int) == png_scan(d@, 8),
            png_scan_safe(d@, pos as int),
        decreases d@.len() - pos,
    {
        if d.len() - pos < 8 {
            return false;
        }
        if d[pos + 4] == 0x61u8 && d[pos + 5] == 0x63u8 && d[pos + 6] == 0x54u8 && d[pos + 7] == 0x4Cu8 {
            return true;
        }
        let chunk_len: u64 = (d[pos] as u64) * 16777216 + (d[pos + 1] as u64) * 65536 + (d[pos + 2] as u64) * 256
            + (d[pos + 3] as u64);
        assert(chunk_len == be32(d@, pos as int));
        let remaining: usize = d.len() - pos;
        if chunk_len + 20 > remaining as u64 {
            return false;
        }
        pos = pos + 12 + (chunk_len as usize);
    }
}

/// Whether data that opens with the PNG signature has a chunk walk clear
/// of a chunk length that overflows 32 bits when four is added (which the
/// walk cannot step over); data without the signature is not walked.
pub fn png_chunk_lengths_fit(d: &[u8]) -> (res: bool)
    ensures
        res == (png_signature(d@) ==> png_scan_safe(d@, 8)),
{
    if d.len() < 8 {
        return true;
    }
    if !(d[0] == 0x89u8 && d[1] == 0x50u8 && d[2] == 0x4Eu8 && d[3] == 0x47u8 && d[4] == 0x0Du8 && d[5] == 0x0Au8
        && d[6] == 0x1Au8 && d[7] == 0x0Au8) {
        return true;
    }
    let mut pos: usize = 8;
    loop
        invariant
            8 <= pos <= d@.len(),
            png_signature(d@),
            png_scan_safe(d@, pos as int) == png_scan_safe(d@, 8),
        decreases d@.len() - pos,
    {
        if d.len() - pos < 8 {
            return true;
        }
        if d[pos + 4] == 0x61u8 && d[pos + 5] == 0x63u8 && d[pos + 6] == 0x54u8 && d[pos + 7] == 0x4Cu8 {
            return true;
        }
        let chunk_len: u64 = (d[pos] as u64) * 16777216 + (d[pos + 1] as u64) * 65536 + (d[pos + 2] as u64) * 256
            + (d[pos + 3] as u64);
        assert(chunk_len == be32(d@, pos as int));
        if chunk_len + 4 > 0xFFFF_FFFFu64 {
            return false;
        }
        let remaining: usize = d.len() - pos;
        if chunk_len + 20 > remaining as u64 {
            return true;
        }
        pos = pos + 12 + (chunk_len as usize);
    }
}

impl AIParameterClient {
    /// What has to be read of a file to tell whether it is animated.
    pub fn animation_probe(path: &str) -> (res: AnimationProbe)
        ensures
            res == probe_spec(animation_ext(path@)),
    {
        let e = lower_extension(path);
        let x = e.as_str();
        if str_eq(x, "gif") {
            AnimationProbe::FileSize
        } else if str_eq(x, "webp") {
            AnimationProbe::Header
        } else if str_eq(x, "png") || str_eq(x, "apng") {
            AnimationProbe::Contents
        } else {
            AnimationProbe::Nothing
        }
    }

    /// Whether a file is animated, from what was read of it as
    /// `animation_probe` asks: its size (`None` when it could not be
    /// read), or its bytes (`None` when the file could not be read).
    pub fn detect_animation(path: &str, file_size: Option<u64>, contents: Option<&[u8]>) -> (res: bool)
        requires
            probe_spec(animation_ext(path@)) is Contents ==> match contents {
                Some(c) => png_signature(c@) ==> png_scan_safe(c@, 8),
                None => true,
            },
        ensures
            res == animation_spec(
                animation_ext(path@),
                file_size,
                match contents {
                    Some(c) => Some(c@),
                    None => None,
                },
            ),
    {
        let e = lower_extension(path);
        let x = e.as_str();
        if str_eq(x, "gif") {
            match file_size {
                Some(s) => s > 104857,
                None => false,
            }
        } else if str_eq(x, "webp") {
            match contents {
                Some(h) => h.len() >= 16 && h[0] == 0x52u8 && h[1] == 0x49u8 && h[2] == 0x46u8 && h[3] == 0x46u8
                    && h[8] == 0x57u8 && h[9] == 0x45u8 && h[10] == 0x42u8 && h[11] == 0x50u8 && h[12] == 0x56u8
                    && h[13] == 0x50u8 && h[14] == 0x38u8 && h[15] == 0x58u8,
                None => false,
            }
        } else if str_eq(x, "png") || str_eq(x, "apng") {
            match contents {
                Some(d) => {
                    let sig = d.len() >= 8 && d[0] == 0x89u8 && d[1] == 0x50u8 && d[2] == 0x4Eu8 && d[3] == 0x47u8
                        && d[4] == 0x0Du8 && d[5] == 0x0Au8 && d[6] == 0x1Au8 && d[7] == 0x0Au8;
                    sig && png_has_actl(d)
                },
                None => false,
            }
        } else {
            false
        }
    }
}

} // verus!
