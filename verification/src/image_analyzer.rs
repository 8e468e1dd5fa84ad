//! Image analysis helpers over what `ffprobe` reports: size classes, bit
//! depth and colour space from the pixel format, and alpha detection.

use vstd::prelude::*;
use vstd::string::*;
use crate::tools::find_tool;
use crate::text::{owned, has_sub, contains_str, contains_char};

verus! {

/// One stream as `ffprobe` describes it.
#[derive(Debug, Clone)]
pub struct FFProbeStream {
    pub width: u32,
    pub height: u32,
    pub pix_fmt: String,
    pub color_space: Option<String>,
    pub codec_name: String,
}

/// What `ffprobe` reports of a file.
#[derive(Debug, Clone)]
pub struct FFProbeData {
    pub streams: Vec<FFProbeStream>,
}

/// The image analyser: the `ffprobe` program it runs.
pub struct ImageAnalyzer {
    ffprobe_path: String,
}

/// The size class of a file size in bytes (thresholds 50 MiB, 10 MiB,
/// 1 MiB and 0.1 MiB).
pub open spec fn size_class(size: i64) -> Seq<char> {
    if size >= 52428800 {
        "Extremely Large"@
    } else if size >= 10485760 {
        "Large"@
    } else if size >= 1048576 {
        "Medium"@
    } else if 10 * size > 1048576 {
        "Small"@
    } else {
        "Extremely Small"@
    }
}

/// The bit depth read from a pixel format name.
pub open spec fn bit_depth_of(p: Seq<char>) -> u8 {
    if has_sub(p, "p10"@) || has_sub(p, "10le"@) {
        10
    } else if has_sub(p, "p12"@) {
        12
    } else if has_sub(p, "p16"@) || has_sub(p, "16le"@) {
        16
    } else {
        8
    }
}

/// The colour space named by a stream.
pub open spec fn color_space_of(cs: Option<Seq<char>>) -> Seq<char> {
    match cs {
        Some(c) => if has_sub(c, "bt709"@) {
            "BT.709"@
        } else if has_sub(c, "bt2020"@) {
            "BT.2020"@
        } else {
            "sRGB"@
        },
        None => "sRGB"@,
    }
}

impl Default for ImageAnalyzer {
    fn default() -> (res: Self) {
        Self::new()
    }
}

impl ImageAnalyzer {
    pub closed spec fn spec_ffprobe(&self) -> Seq<char> {
        self.ffprobe_path@
    }

    /// An analyser running `ffprobe` from where it is found on the search
    /// path, or plain `ffprobe` when it is not found. Where it is found
    /// depends on the machine; `from_lookup` states the choice.
    pub fn new() -> (res: Self) {
        Self::from_lookup(find_tool("ffprobe"))
    }

    /// An analyser for the result of looking `ffprobe` up: the path found,
    /// or plain `ffprobe` when none was.
    pub fn from_lookup(found: Option<String>) -> (res: Self)
        ensures
            res.spec_ffprobe() == match found {
                Some(p) => p@,
                None => "ffprobe"@,
            },
    {
        let ffprobe_path = match found {
            Some(p) => p,
            None => owned("ffprobe"),
        };
        ImageAnalyzer { ffprobe_path }
    }

    /// An analyser running the given `ffprobe` program.
    pub fn with_ffprobe(path: &str) -> (res: Self)
        ensures
            res.spec_ffprobe() == path@,
    {
        ImageAnalyzer { ffprobe_path: owned(path) }
    }

    /// The `ffprobe` program.
    pub fn ffprobe_path(&self) -> (res: &str)
        ensures
            res@ == self.spec_ffprobe(),
    {
        self.ffprobe_path.as_str()
    }

    /// The size class of a file size.
    pub fn classify_size(&self, file_size: i64) -> (res: String)
        ensures
            res@ == size_class(file_size),
    {
        if file_size >= 52428800 {
            owned("Extremely Large")
        } else if file_size >= 10485760 {
            owned("Large")
        } else if file_size >= 1048576 {
            owned("Medium")
        } else if file_size > 104857 {
            owned("Small")
        } else {
            owned("Extremely Small")
        }
    }

    /// The bit depth of a pixel format: 10, 12 or 16 by its suffix, else 8.
    pub fn estimate_bit_depth(&self, pix_fmt: &str) -> (res: u8)
        ensures
            res == bit_depth_of(pix_fmt@),
    {
        if contains_str(pix_fmt, "p10") || contains_str(pix_fmt, "10le") {
            10
        } else if contains_str(pix_fmt, "p12") {
            12
        } else if contains_str(pix_fmt, "p16") || contains_str(pix_fmt, "16le") {
            16
        } else {
            8
        }
    }

    /// The colour space of a stream: BT.709 or BT.2020 when named, else sRGB.
    pub fn detect_color_space(&self, stream: &FFProbeStream) -> (res: String)
        ensures
            res@ == color_space_of(match stream.color_space {
                Some(c) => Some(c@),
                None => None,
            }),
    {
        match &stream.color_space {
            Some(c) => if contains_str(c.as_str(), "bt709") {
                owned("BT.709")
            } else if contains_str(c.as_str(), "bt2020") {
                owned("BT.2020")
            } else {
                owned("sRGB")
            },
            None => owned("sRGB"),
        }
    }

    /// A pixel format with an alpha channel: its name holds an `a`.
    pub fn has_alpha(&self, pix_fmt: &str) -> (res: bool)
        ensures
            res == (pix_fmt@.contains('a') || has_sub(pix_fmt@, "rgba"@)),
    {
        contains_char(pix_fmt, 'a') || contains_str(pix_fmt, "rgba")
    }

    /// The pixel count of a stream's size, zero unless both sides are positive.
    pub fn pixel_count(width: u32, height: u32) -> (res: i64)
        requires
            width * height <= i64::MAX,
        ensures
            res == if width > 0 && height > 0 { width * height } else { 0 },
    {
        if width > 0 && height > 0 {
            (width as i64) * (height as i64)
        } else {
            0
        }
    }
}

} // verus!
