//! Deciding what kind of media a file is, which format it is in, and which
//! format it would best be re-encoded to.

use vstd::prelude::*;
use crate::paths::{extension, extension_of};
use crate::text::{lowercase, owned, str_eq, to_lower};

verus! {

/// The kind of media.
#[derive(Debug, Clone, Copy, PartialEq, Eq, Structural)]
pub enum FileType {
    Image,
    AnimatedImage,
    Video,
}

/// The kind of media of a format: video containers, animated GIF, else image.
pub open spec fn file_type_spec(format: Seq<char>) -> FileType {
    if format == "mp4"@ || format == "mov"@ || format == "avi"@ || format == "mkv"@ || format == "webm"@ {
        FileType::Video
    } else if format == "gif"@ {
        FileType::AnimatedImage
    } else {
        FileType::Image
    }
}

/// The kind of media of a format.
pub fn detect_file_type(format: &str) -> (res: FileType)
    ensures
        res == file_type_spec(format@),
{
    if str_eq(format, "mp4") || str_eq(format, "mov") || str_eq(format, "avi") || str_eq(format, "mkv")
        || str_eq(format, "webm") {
        FileType::Video
    } else if str_eq(format, "gif") {
        FileType::AnimatedImage
    } else {
        FileType::Image
    }
}

/// Why the format of a file is unknown.
#[derive(Debug, Clone, Copy, PartialEq, Eq, Structural)]
pub enum FormatError {
    /// "No file extension and no format hint provided".
    NoExtension,
}

/// The format of a file: the hint when one is given, else the extension of
/// its path, lower-cased.
pub fn detect_format(path: &str, hint: Option<&str>) -> (res: Result<String, FormatError>)
    ensures
        match hint {
            Some(h) => res matches Ok(f) && f@ == lowercase(h@),
            None => match extension_of(path@) {
                Some(x) => res matches Ok(f) && f@ == lowercase(x),
                None => res == Err::<String, FormatError>(FormatError::NoExtension),
            },
        },
{
    if let Some(h) = hint {
        return Ok(to_lower(h));
    }
    match extension(path) {
        Some(x) => Ok(to_lower(x.as_str())),
        None => Err(FormatError::NoExtension),
    }
}

/// The format to re-encode to: JPEG XL for PNG and JPEG, WebP for GIF and
/// APNG, H.266 for H.264, MPEG-4 and H.265, H.265 for VP9, else JPEG XL
/// (WebP files are never judged old, so they go to JPEG XL too).
pub open spec fn optimal_format_spec(current: Seq<char>) -> Seq<char> {
    if current == "png"@ || current == "jpeg"@ || current == "jpg"@ {
        "jxl"@
    } else if current == "gif"@ || current == "apng"@ {
        "webp"@
    } else if current == "h264"@ || current == "mpeg4"@ || current == "h265"@ {
        "h266"@
    } else if current == "vp9"@ {
        "h265"@
    } else {
        "jxl"@
    }
}

/// The format to re-encode to.
pub fn select_optimal_format(current: &str) -> (res: String)
    ensures
        res@ == optimal_format_spec(current@),
{
    let r = if str_eq(current, "png") || str_eq(current, "jpeg") || str_eq(current, "jpg") {
        "jxl"
    } else if str_eq(current, "gif") || str_eq(current, "apng") {
        "webp"
    } else if str_eq(current, "h264") || str_eq(current, "mpeg4") || str_eq(current, "h265") {
        "h266"
    } else if str_eq(current, "vp9") {
        "h265"
    } else {
        "jxl"
    };
    owned(r)
}

} // verus!
