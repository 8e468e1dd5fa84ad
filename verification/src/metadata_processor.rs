//! Metadata handling: MIME types by extension, what kind of metadata a
//! file carries, when EXIF data is copied, and the sanity check of
//! extracted metadata.

use vstd::prelude::*;
use vstd::string::*;
use std::collections::HashMap;
use crate::text::{lowercase, to_lower, str_eq, owned, has_prefix, starts_with};
use crate::paths::{extension, extension_of};

verus! {

/// The metadata processor.
#[derive(Debug)]
pub struct MetadataProcessor {
    preserve_metadata: bool,
    strip_sensitive: bool,
}

/// Metadata of an image.
#[derive(Debug, Clone)]
pub struct ImageMetadata {
    pub width: u32,
    pub height: u32,
    pub bit_depth: u8,
    pub color_type: String,
    pub compression: Option<String>,
    pub has_alpha: bool,
    pub animated: bool,
    pub frame_count: u32,
    pub exif: HashMap<String, String>,
}

/// The MIME type of a (lower-case) extension.
pub open spec fn mime_for_ext(e: Seq<char>) -> Seq<char> {
    if e == "jpg"@ || e == "jpeg"@ {
        "image/jpeg"@
    } else if e == "png"@ {
        "image/png"@
    } else if e == "gif"@ {
        "image/gif"@
    } else if e == "webp"@ {
        "image/webp"@
    } else if e == "avif"@ {
        "image/avif"@
    } else if e == "jxl"@ || e == "jpegxl"@ {
        "image/jxl"@
    } else if e == "mp4"@ {
        "video/mp4"@
    } else if e == "webm"@ {
        "video/webm"@
    } else if e == "mov"@ {
        "video/quicktime"@
    } else if e == "avi"@ {
        "video/x-msvideo"@
    } else {
        "application/octet-stream"@
    }
}

/// The MIME type of a path, from its extension.
pub open spec fn mime_of_path(p: Seq<char>) -> Seq<char> {
    match extension_of(p) {
        Some(e) => mime_for_ext(lowercase(e)),
        None => "application/octet-stream"@,
    }
}

/// The path names a JPEG file by its extension.
pub open spec fn jpeg_path(p: Seq<char>) -> bool {
    match extension_of(p) {
        Some(e) => lowercase(e) == "jpg"@ || lowercase(e) == "jpeg"@,
        None => false,
    }
}

/// Which specific metadata a MIME type calls for.
#[derive(Debug, Clone, Copy, PartialEq, Eq, Structural)]
pub enum MetadataKind {
    Image,
    Video,
    Other,
}

pub open spec fn kind_of_mime(m: Seq<char>) -> MetadataKind {
    if has_prefix(m, "image/"@) {
        MetadataKind::Image
    } else if has_prefix(m, "video/"@) {
        MetadataKind::Video
    } else {
        MetadataKind::Other
    }
}

/// Why extracted metadata is refused, if it is.
pub open spec fn metadata_problem(file_size: u64, mime: Seq<char>) -> Option<Seq<char>> {
    if file_size == 0 {
        Some("Invalid metadata: file size is zero"@)
    } else if mime.len() == 0 {
        Some("Invalid metadata: MIME type is empty"@)
    } else {
        None
    }
}

fn mime_for_lower_ext(e: &str) -> (res: &'static str)
    ensures
        res@ == mime_for_ext(e@),
{
    if str_eq(e, "jpg") || str_eq(e, "jpeg") {
        "image/jpeg"
    } else if str_eq(e, "png") {
        "image/png"
    } else if str_eq(e, "gif") {
        "image/gif"
    } else if str_eq(e, "webp") {
        "image/webp"
    } else if str_eq(e, "avif") {
        "image/avif"
    } else if str_eq(e, "jxl") || str_eq(e, "jpegxl") {
        "image/jxl"
    } else if str_eq(e, "mp4") {
        "video/mp4"
    } else if str_eq(e, "webm") {
        "video/webm"
    } else if str_eq(e, "mov") {
        "video/quicktime"
    } else if str_eq(e, "avi") {
        "video/x-msvideo"
    } else {
        "application/octet-stream"
    }
}

impl Default for MetadataProcessor {
    fn default() -> (res: Self)
        ensures
            res.spec_preserve(),
            !res.spec_strip_sensitive(),
    {
        Self::new(true, false)
    }
}

impl MetadataProcessor {
    pub closed spec fn spec_preserve(&self) -> bool {
        self.preserve_metadata
    }

    pub closed spec fn spec_strip_sensitive(&self) -> bool {
        self.strip_sensitive
    }

    /// A processor that keeps (or drops) metadata and strips (or keeps) sensitive fields.
    pub fn new(preserve_metadata: bool, strip_sensitive: bool) -> (res: Self)
        ensures
            res.spec_preserve() == preserve_metadata,
            res.spec_strip_sensitive() == strip_sensitive,
    {
        MetadataProcessor { preserve_metadata, strip_sensitive }
    }

    /// Metadata is kept when converting.
    pub fn preserve_metadata(&self) -> (res: bool)
        ensures
            res == self.spec_preserve(),
    {
        self.preserve_metadata
    }

    /// Sensitive fields are stripped.
    pub fn strip_sensitive(&self) -> (res: bool)
        ensures
            res == self.spec_strip_sensitive(),
    {
        self.strip_sensitive
    }

    /// The MIME type of a file from its extension in any letter case;
    /// `application/octet-stream` when unknown or absent.
    pub fn detect_mime_type(&self, path: &str) -> (res: Result<String, String>)
        ensures
            res matches Ok(m) && m@ == mime_of_path(path@),
    {
        match extension(path) {
            Some(e) => {
                let lower = to_lower(e.as_str());
                Ok(owned(mime_for_lower_ext(lower.as_str())))
            },
            None => Ok(owned("application/octet-stream")),
        }
    }

    /// Which specific metadata is extracted for a MIME type.
    pub fn metadata_kind(mime: &str) -> (res: MetadataKind)
        ensures
            res == kind_of_mime(mime@),
    {
        if starts_with(mime, "image/") {
            MetadataKind::Image
        } else if starts_with(mime, "video/") {
            MetadataKind::Video
        } else {
            MetadataKind::Other
        }
    }

    /// An image is taken as animated when it is a GIF.
    pub fn is_animated_image(&self, path: &str) -> (res: Result<bool, String>)
        ensures
            res matches Ok(b) && b == match extension_of(path@) {
                Some(e) => lowercase(e) == "gif"@,
                None => false,
            },
    {
        match extension(path) {
            Some(e) => {
                let lower = to_lower(e.as_str());
                Ok(str_eq(lower.as_str(), "gif"))
            },
            None => Ok(false),
        }
    }

    /// The path names a JPEG file by its extension.
    pub fn is_jpeg_file(&self, path: &str) -> (res: bool)
        ensures
            res == jpeg_path(path@),
    {
        match extension(path) {
            Some(e) => {
                let lower = to_lower(e.as_str());
                str_eq(lower.as_str(), "jpg") || str_eq(lower.as_str(), "jpeg")
            },
            None => false,
        }
    }

    /// EXIF data is copied when metadata is kept and both files are JPEGs.
    pub fn should_copy_exif(&self, source: &str, target: &str) -> (res: bool)
        ensures
            res == (self.spec_preserve() && jpeg_path(source@) && jpeg_path(target@)),
    {
        self.preserve_metadata && self.is_jpeg_file(source) && self.is_jpeg_file(target)
    }

    /// Extracted metadata needs a non-zero size and a MIME type.
    pub fn validate_metadata(&self, file_size: u64, mime_type: &str) -> (res: Result<(), String>)
        ensures
            match res {
                Ok(()) => metadata_problem(file_size, mime_type@) is None,
                Err(m) => metadata_problem(file_size, mime_type@) == Some(m@),
            },
    {
        if file_size == 0 {
            return Err(owned("Invalid metadata: file size is zero"));
        }
        if mime_type.unicode_len() == 0 {
            return Err(owned("Invalid metadata: MIME type is empty"));
        }
        Ok(())
    }
}

} // verus!
