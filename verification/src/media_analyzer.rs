//! Media classification by file extension: images, animations and videos.

use vstd::prelude::*;
use vstd::string::*;
use crate::text::{lowercase, to_lower, str_eq, owned};
use crate::paths::{extension, extension_of};

verus! {

/// The kind of a media file.
#[derive(Debug, Clone, Copy, PartialEq, Eq, Structural)]
pub enum MediaType {
    Image,
    Animation,
    Video,
    Audio,
    Unknown,
}

/// The lower-cased extension of a path, or `unknown` when it has none.
pub open spec fn ext_or_unknown(path: Seq<char>) -> Seq<char> {
    match extension_of(path) {
        Some(e) => lowercase(e),
        None => "unknown"@,
    }
}

/// Extensions of video containers.
pub open spec fn is_video_ext(e: Seq<char>) -> bool {
    e == "mp4"@ || e == "mov"@ || e == "avi"@ || e == "mkv"@ || e == "webm"@ || e == "m4v"@ || e == "flv"@
        || e == "wmv"@
}

/// How a file with this (lower-case) extension is analysed.
pub open spec fn route_spec(e: Seq<char>) -> MediaType {
    if is_video_ext(e) {
        MediaType::Video
    } else if e == "gif"@ || e == "apng"@ {
        MediaType::Animation
    } else {
        MediaType::Image
    }
}

/// The lower-cased extension of a path, or `unknown`.
pub fn extension_or_unknown(path: &str) -> (res: String)
    ensures
        res@ == ext_or_unknown(path@),
{
    match extension(path) {
        Some(e) => to_lower(e.as_str()),
        None => owned("unknown"),
    }
}

/// The media analyser.
pub struct MediaAnalyzer {
    enable_ai_detection: bool,
}

impl MediaAnalyzer {
    pub closed spec fn spec_ai(&self) -> bool {
        self.enable_ai_detection
    }

    /// An analyser with AI feature extraction on.
    pub fn new() -> (res: Self)
        ensures
            res.spec_ai(),
    {
        MediaAnalyzer { enable_ai_detection: true }
    }

    /// An analyser with AI feature extraction on or off.
    pub fn with_ai_detection(enable_ai_detection: bool) -> (res: Self)
        ensures
            res.spec_ai() == enable_ai_detection,
    {
        MediaAnalyzer { enable_ai_detection }
    }

    /// AI feature extraction is on.
    pub fn ai_detection_enabled(&self) -> (res: bool)
        ensures
            res == self.spec_ai(),
    {
        self.enable_ai_detection
    }

    /// How a file is analysed, from its extension: video containers as
    /// video, GIF and APNG as animation, everything else as an image.
    pub fn analysis_route(&self, file_path: &str) -> (res: MediaType)
        ensures
            res == route_spec(ext_or_unknown(file_path@)),
    {
        let e = extension_or_unknown(file_path);
        let s = e.as_str();
        if str_eq(s, "mp4") || str_eq(s, "mov") || str_eq(s, "avi") || str_eq(s, "mkv") || str_eq(s, "webm")
            || str_eq(s, "m4v") || str_eq(s, "flv") || str_eq(s, "wmv") {
            MediaType::Video
        } else if str_eq(s, "gif") || str_eq(s, "apng") {
            MediaType::Animation
        } else {
            MediaType::Image
        }
    }

    /// The format of a file: its lower-cased extension, or `unknown`.
    pub fn detect_format(&self, file_path: &str) -> (res: Result<String, String>)
        ensures
            res matches Ok(s) && s@ == ext_or_unknown(file_path@),
    {
        Ok(extension_or_unknown(file_path))
    }

    /// The file is animated by its extension (GIF, APNG or WebP).
    pub fn is_animated(&self, file_path: &str) -> (res: Result<bool, String>)
        ensures
            res matches Ok(b) && b == {
                let e = ext_or_unknown(file_path@);
                e == "gif"@ || e == "apng"@ || e == "webp"@
            },
    {
        let e = extension_or_unknown(file_path);
        let s = e.as_str();
        Ok(str_eq(s, "gif") || str_eq(s, "apng") || str_eq(s, "webp"))
    }
}

impl Default for MediaAnalyzer {
    fn default() -> (res: Self)
        ensures
            res.spec_ai(),
    {
        Self::new()
    }
}

} // verus!
