//! Detecting what a file really is from its leading bytes (with the
//! `infer` crate), and judging whether its extension can be trusted.
//!
//! The detector's confidence threshold and a detection's confidence are
//! `f64` values in the interface, carried as their bit patterns.

use vstd::prelude::*;
use crate::floatbits::{f64_ge, f64_lt, ge, lt};
use crate::paths::{extension, extension_of};
use crate::text::{concat2, concat3, has_prefix, lowercase, owned, starts_with, str_eq, to_lower};
use crate::formats::SupportedFormat;
use crate::conversion_core::{canonical_format, strategy_spec};
use crate::conversion_validator::is_valid_target;
use crate::media_analyzer::is_video_ext;

verus! {

/// The bit pattern of `0.95f64`, the confidence of a recognised type.
pub const HIGH_CONFIDENCE_BITS: u64 = 0x3FEE_6666_6666_6666u64;
/// The bit pattern of `0.1f64`, the confidence of an unknown type.
pub const LOW_CONFIDENCE_BITS: u64 = 0x3FB9_9999_9999_999Au64;
/// The bit pattern of `0.9f64`, the default threshold.
pub const DEFAULT_THRESHOLD_BITS: u64 = 0x3FEC_CCCC_CCCC_CCCDu64;

/// What `infer::get` recognises in a buffer: the extension and the MIME
/// type of the matched kind, or nothing.
pub uninterp spec fn inferred_kind(data: Seq<u8>) -> Option<(Seq<char>, Seq<char>)>;

/// Calls `infer::get` on the bytes and gives the matched kind's extension
/// and MIME type. The matchers are a fixed table checked in order, so the
/// result depends on the bytes alone; it is named, not written out.
#[verifier::external_body]
fn infer_kind(data: &[u8]) -> (res: Option<(&'static str, &'static str)>)
    ensures
        match res {
            Some((e, m)) => inferred_kind(data@) == Some((e@, m@)),
            None => inferred_kind(data@) is None,
        },
{
    infer::get(data).map(|k| (k.extension(), k.mime_type()))
}

/// What `format!("{:?}", s)` gives for a string: the string quoted, with
/// special characters escaped.
pub uninterp spec fn debug_quoted(s: Seq<char>) -> Seq<char>;

/// Renders a string with its `Debug` form (`<str as Debug>::fmt`).
#[verifier::external_body]
fn debug_str(s: &str) -> (res: String)
    ensures
        res@ == debug_quoted(s@),
{
    format!("{:?}", s)
}

/// What a detection found.
#[derive(Debug, Clone)]
pub struct FileTypeDetection {
    pub detected_type: String,
    /// The confidence, as the bits of an `f64`.
    pub confidence_bits: u64,
    pub is_high_confidence: bool,
    pub mime_type: Option<String>,
    pub description: Option<String>,
    pub is_binary: bool,
}

/// The verdict on a file's safety.
#[derive(Debug, Clone)]
pub struct SecurityValidation {
    pub is_safe: bool,
    pub type_match: bool,
    pub expected_extension: Option<String>,
    pub detected_type: String,
    pub warnings: Vec<String>,
    pub is_suspicious: bool,
}

/// A file type detector.
#[derive(Debug, Clone, Copy)]
pub struct FileDetector {
    min_confidence_bits: u64,
    strict_mode: bool,
}

/// The type a file is detected as: the kind `infer` recognises in its
/// bytes, else the extension of its path, else "unknown".
pub open spec fn detected_type_spec(path: Seq<char>, data: Seq<u8>) -> Seq<char> {
    match inferred_kind(data) {
        Some((e, _)) => e,
        None => match extension_of(path) {
            Some(x) => x,
            None => "unknown"@,
        },
    }
}

/// The confidence of a detected type (as bits): 0.95 unless the type is
/// "unknown", then 0.1.
pub open spec fn confidence_spec(t: Seq<char>) -> u64 {
    if t != "unknown"@ {
        HIGH_CONFIDENCE_BITS
    } else {
        LOW_CONFIDENCE_BITS
    }
}

/// Whether an extension names the detected type: equal without regard to
/// case, or one of the pairs jpg/jpeg, tif/tiff, htm/html.
pub open spec fn extension_matches_spec(ext: Seq<char>, t: Seq<char>) -> bool {
    let e = lowercase(ext);
    let d = lowercase(t);
    ||| e == d
    ||| (e == "jpg"@ && d == "jpeg"@)
    ||| (e == "jpeg"@ && d == "jpg"@)
    ||| (e == "tif"@ && d == "tiff"@)
    ||| (e == "tiff"@ && d == "tif"@)
    ||| (e == "htm"@ && d == "html"@)
    ||| (e == "html"@ && d == "htm"@)
}

/// The types counted as images.
pub open spec fn is_image_type(t: Seq<char>) -> bool {
    t == "jpg"@ || t == "jpeg"@ || t == "png"@ || t == "gif"@ || t == "webp"@ || t == "avif"@ || t == "jxl"@
        || t == "bmp"@ || t == "tiff"@ || t == "heic"@ || t == "heif"@
}

/// The types counted as videos.
pub open spec fn is_video_type(t: Seq<char>) -> bool {
    t == "mp4"@ || t == "mov"@ || t == "avi"@ || t == "mkv"@ || t == "webm"@ || t == "flv"@ || t == "wmv"@
}

/// The text of an optional string in its `Debug` form.
pub open spec fn debug_option(o: Option<Seq<char>>) -> Seq<char> {
    match o {
        Some(s) => "Some("@ + debug_quoted(s) + ")"@,
        None => "None"@,
    }
}

impl FileDetector {
    /// The confidence threshold, as bits.
    pub closed spec fn spec_min_confidence(&self) -> u64 {
        self.min_confidence_bits
    }

    /// Whether suspicious files are judged unsafe.
    pub closed spec fn spec_strict(&self) -> bool {
        self.strict_mode
    }

    /// A detector with the given threshold (the bits of an `f64`).
    pub fn new(min_confidence_bits: u64, strict_mode: bool) -> (res: Self)
        ensures
            res.spec_min_confidence() == min_confidence_bits,
            res.spec_strict() == strict_mode,
    {
        FileDetector { min_confidence_bits, strict_mode }
    }

    /// A detector with threshold 0.9, not strict.
    pub fn with_defaults() -> (res: Self)
        ensures
            res.spec_min_confidence() == DEFAULT_THRESHOLD_BITS,
            !res.spec_strict(),
    {
        Self::new(DEFAULT_THRESHOLD_BITS, false)
    }

    /// The confidence threshold, as bits.
    pub fn min_confidence(&self) -> (res: u64)
        ensures
            res == self.spec_min_confidence(),
    {
        self.min_confidence_bits
    }

    /// Whether suspicious files are judged unsafe.
    pub fn strict_mode(&self) -> (res: bool)
        ensures
            res == self.spec_strict(),
    {
        self.strict_mode
    }

    /// Detects the type of the file at `path` from its contents `data`.
    pub fn detect_file_type(&self, path: &str, data: &[u8]) -> (res: FileTypeDetection)
        ensures
            res.detected_type@ == detected_type_spec(path@, data@),
            res.confidence_bits == confidence_spec(res.detected_type@),
            res.is_high_confidence == f64_ge(res.confidence_bits, self.spec_min_confidence()),
            match inferred_kind(data@) {
                Some((_, m)) => res.mime_type matches Some(t) && t@ == m,
                None => res.mime_type is None,
            },
            res.description matches Some(d) && d@ == "File type: "@ + res.detected_type@,
            res.is_binary == !has_prefix(res.detected_type@, "text"@),
    {
        let kind = infer_kind(data);
        let detected_type = match kind {
            Some((e, _)) => owned(e),
            None => match extension(path) {
                Some(x) => x,
                None => owned("unknown"),
            },
        };
        let confidence_bits = if !str_eq(detected_type.as_str(), "unknown") {
            HIGH_CONFIDENCE_BITS
        } else {
            LOW_CONFIDENCE_BITS
        };
        let mime_type = match kind {
            Some((_, m)) => Some(owned(m)),
            None => None,
        };
        let description = Some(concat2("File type: ", detected_type.as_str()));
        let is_binary = !starts_with(detected_type.as_str(), "text");
        FileTypeDetection {
            is_high_confidence: ge(confidence_bits, self.min_confidence_bits),
            detected_type,
            confidence_bits,
            mime_type,
            description,
            is_binary,
        }
    }

    /// Whether an extension names a detected type.
    pub fn extension_matches_type(&self, extension: &str, detected_type: &str) -> (res: bool)
        ensures
            res == extension_matches_spec(extension@, detected_type@),
    {
        let e = to_lower(extension);
        let d = to_lower(detected_type);
        let (es, ds) = (e.as_str(), d.as_str());
        if str_eq(es, ds) {
            return true;
        }
        (str_eq(es, "jpg") && str_eq(ds, "jpeg")) || (str_eq(es, "jpeg") && str_eq(ds, "jpg")) || (str_eq(
            es,
            "tif",
        ) && str_eq(ds, "tiff")) || (str_eq(es, "tiff") && str_eq(ds, "tif")) || (str_eq(es, "htm") && str_eq(
            ds,
            "html",
        )) || (str_eq(es, "html") && str_eq(ds, "htm"))
    }

    /// Judges the file at `path` with contents `data` against the extension
    /// it was expected to have (or else its own extension): the types
    /// disagree when the extension does not name the detected type; a
    /// confident disagreement is suspicious, and a suspicious file is unsafe
    /// in strict mode. Warnings tell of the disagreement and of a low
    /// confidence.
    pub fn validate_security(&self, path: &str, data: &[u8], expected_extension: Option<&str>) -> (res:
        SecurityValidation)
        ensures
            ({
                let t = detected_type_spec(path@, data@);
                let actual = match extension_of(path@) {
                    Some(x) => Some(lowercase(x)),
                    None => None,
                };
                let type_match = match expected_extension {
                    Some(e) => extension_matches_spec(e@, t),
                    None => match actual {
                        Some(a) => extension_matches_spec(a, t),
                        None => true,
                    },
                };
                let conf = confidence_spec(t);
                let suspicious = !type_match && f64_ge(conf, self.spec_min_confidence());
                let low = f64_lt(conf, self.spec_min_confidence());
                let w1: Seq<Seq<char>> = if suspicious {
                    seq![
                        "File type mismatch: extension suggests "@ + debug_option(actual) + ", but detected as "@
                            + t,
                    ]
                } else {
                    Seq::empty()
                };
                let w2: Seq<Seq<char>> = if low {
                    seq![
                        "Low confidence detection: "@ + (if conf == HIGH_CONFIDENCE_BITS {
                            "0.95"@
                        } else {
                            "0.10"@
                        }),
                    ]
                } else {
                    Seq::empty()
                };
                &&& res.detected_type@ == t
                &&& res.type_match == type_match
                &&& res.is_suspicious == suspicious
                &&& res.is_safe == (!suspicious || !self.spec_strict())
                &&& res.warnings@.map_values(|m: String| m@) == w1 + w2
                &&& match expected_extension {
                    Some(e) => res.expected_extension matches Some(x) && x@ == e@,
                    None => res.expected_extension is None,
                }
            }),
    {
        let detection = self.detect_file_type(path, data);
        let actual_extension = match extension(path) {
            Some(x) => Some(to_lower(x.as_str())),
            None => None,
        };
        let type_match = match expected_extension {
            Some(e) => self.extension_matches_type(e, detection.detected_type.as_str()),
            None => match &actual_extension {
                Some(a) => self.extension_matches_type(a.as_str(), detection.detected_type.as_str()),
                None => true,
            },
        };
        let ghost t = detected_type_spec(path@, data@);
        let ghost actual = match extension_of(path@) {
            Some(x) => Some(lowercase(x)),
            None => None::<Seq<char>>,
        };
        proof {
            assert(actual_extension matches Some(a) ==> actual == Some(a@));
            assert(actual_extension is None ==> actual is None);
        }
        let ghost conf = confidence_spec(t);
        let ghost w1: Seq<Seq<char>> = if !type_match && f64_ge(conf, self.spec_min_confidence()) {
            seq!["File type mismatch: extension suggests "@ + debug_option(actual) + ", but detected as "@ + t]
        } else {
            Seq::empty()
        };
        let ghost w2: Seq<Seq<char>> = if f64_lt(conf, self.spec_min_confidence()) {
            seq![
                "Low confidence detection: "@ + (if conf == HIGH_CONFIDENCE_BITS {
                    "0.95"@
                } else {
                    "0.10"@
                }),
            ]
        } else {
            Seq::empty()
        };
        let mut warnings: Vec<String> = Vec::new();
        let mut is_suspicious = false;
        if !type_match && detection.is_high_confidence {
            let shown = match &actual_extension {
                Some(a) => concat3("Some(", debug_str(a.as_str()).as_str(), ")"),
                None => owned("None"),
            };
            let m = concat3(
                "File type mismatch: extension suggests ",
                shown.as_str(),
                concat2(", but detected as ", detection.detected_type.as_str()).as_str(),
            );
            assert(m@ =~= "File type mismatch: extension suggests "@ + debug_option(actual) + ", but detected as "@ + t);
            warnings.push(m);
            is_suspicious = true;
        }
        assert(warnings@.map_values(|m: String| m@) =~= w1);
        let ghost before = warnings@;
        if lt(detection.confidence_bits, self.min_confidence_bits) {
            let shown = if detection.confidence_bits == HIGH_CONFIDENCE_BITS { "0.95" } else { "0.10" };
            warnings.push(concat2("Low confidence detection: ", shown));
        }
        assert(warnings@.map_values(|m: String| m@) =~= w1 + w2) by {
            assert(before.map_values(|m: String| m@) =~= w1);
        }
        let is_safe = !is_suspicious || !self.strict_mode;
        let expected = match expected_extension {
            Some(e) => Some(owned(e)),
            None => None,
        };
        SecurityValidation {
            is_safe,
            type_match,
            expected_extension: expected,
            detected_type: detection.detected_type,
            warnings,
            is_suspicious,
        }
    }

    /// The MIME type of the file's contents, where `infer` recognises them.
    pub fn detect_mime_type(&self, path: &str, data: &[u8]) -> (res: Option<String>)
        ensures
            match inferred_kind(data@) {
                Some((_, m)) => res matches Some(t) && t@ == m,
                None => res is None,
            },
    {
        self.detect_file_type(path, data).mime_type
    }

    /// Whether the file is detected as an image.
    pub fn is_image_file(&self, path: &str, data: &[u8]) -> (res: bool)
        ensures
            res == is_image_type(detected_type_spec(path@, data@)),
    {
        let d = self.detect_file_type(path, data);
        let t = d.detected_type.as_str();
        str_eq(t, "jpg") || str_eq(t, "jpeg") || str_eq(t, "png") || str_eq(t, "gif") || str_eq(t, "webp")
            || str_eq(t, "avif") || str_eq(t, "jxl") || str_eq(t, "bmp") || str_eq(t, "tiff") || str_eq(t, "heic")
            || str_eq(t, "heif")
    }

    /// Whether the file is detected as a video.
    pub fn is_video_file(&self, path: &str, data: &[u8]) -> (res: bool)
        ensures
            res == is_video_type(detected_type_spec(path@, data@)),
    {
        let d = self.detect_file_type(path, data);
        let t = d.detected_type.as_str();
        str_eq(t, "mp4") || str_eq(t, "mov") || str_eq(t, "avi") || str_eq(t, "mkv") || str_eq(t, "webm")
            || str_eq(t, "flv") || str_eq(t, "wmv")
    }
}

impl Default for FileDetector {
    /// The detector of `with_defaults`.
    fn default() -> (res: Self)
        ensures
            res.spec_min_confidence() == DEFAULT_THRESHOLD_BITS,
            !res.spec_strict(),
    {
        Self::with_defaults()
    }
}


/// No type counts both as an image and as a video.
pub proof fn law_images_are_not_videos(t: Seq<char>)
    ensures
        !(is_image_type(t) && is_video_type(t)),
{
    reveal_strlit("jpg");
    reveal_strlit("jpeg");
    reveal_strlit("png");
    reveal_strlit("gif");
    reveal_strlit("webp");
    reveal_strlit("avif");
    reveal_strlit("jxl");
    reveal_strlit("bmp");
    reveal_strlit("tiff");
    reveal_strlit("heic");
    reveal_strlit("heif");
    reveal_strlit("mp4");
    reveal_strlit("mov");
    reveal_strlit("avi");
    reveal_strlit("mkv");
    reveal_strlit("webm");
    reveal_strlit("flv");
    reveal_strlit("wmv");
    reveal_strlit("tif");
    reveal_strlit("jpegxl");
    if t == "mp4"@ {
        assert(t.len() == 3 && t[0] == 'm' && t[1] == 'p' && t[2] == '4');
        assert(!is_image_type(t));
    } else if t == "mov"@ {
        assert(t.len() == 3 && t[0] == 'm' && t[1] == 'o' && t[2] == 'v');
        assert(!is_image_type(t));
    } else if t == "avi"@ {
        assert(t.len() == 3 && t[0] == 'a' && t[1] == 'v' && t[2] == 'i');
        assert(!is_image_type(t));
    } else if t == "mkv"@ {
        assert(t.len() == 3 && t[0] == 'm' && t[1] == 'k' && t[2] == 'v');
        assert(!is_image_type(t));
    } else if t == "webm"@ {
        assert(t.len() == 4 && t[0] == 'w' && t[1] == 'e' && t[2] == 'b' && t[3] == 'm');
        assert(!is_image_type(t));
    } else if t == "flv"@ {
        assert(t.len() == 3 && t[0] == 'f' && t[1] == 'l' && t[2] == 'v');
        assert(!is_image_type(t));
    } else if t == "wmv"@ {
        assert(t.len() == 3 && t[0] == 'w' && t[1] == 'm' && t[2] == 'v');
        assert(!is_image_type(t));
    }
}

/// Every format of the supported-format table is detected as an image
/// (and not as a video).
pub proof fn law_supported_formats_are_images(f: SupportedFormat)
    ensures
        is_image_type(f.ext_spec()),
        !is_video_type(f.ext_spec()),
{
    law_images_are_not_videos(f.ext_spec());
}

/// Every format the converter can write (by its canonical name) is
/// detected as an image.
pub proof fn law_conversion_targets_are_images(t: Seq<char>)
    requires
        strategy_spec(t) is Some,
    ensures
        is_image_type(canonical_format(t)),
{
    reveal_strlit("jpg");
    reveal_strlit("jpeg");
    reveal_strlit("png");
    reveal_strlit("gif");
    reveal_strlit("webp");
    reveal_strlit("avif");
    reveal_strlit("jxl");
    reveal_strlit("bmp");
    reveal_strlit("tiff");
    reveal_strlit("heic");
    reveal_strlit("heif");
    reveal_strlit("mp4");
    reveal_strlit("mov");
    reveal_strlit("avi");
    reveal_strlit("mkv");
    reveal_strlit("webm");
    reveal_strlit("flv");
    reveal_strlit("wmv");
    reveal_strlit("tif");
    reveal_strlit("jpegxl");
    if t == "jpg"@ {
    } else if t == "tif"@ {
    } else if t == "jpegxl"@ {
    } else {
        assert(canonical_format(t) == t);
    }
}

/// Every target format that validation accepts is detected as an image.
pub proof fn law_accepted_targets_are_images(t: Seq<char>)
    requires
        is_valid_target(t),
    ensures
        is_image_type(t),
{
}


/// The detector's video types are the media analyser's video extensions,
/// but for `m4v`, which only the analyser knows.
pub proof fn law_video_types_match_analyser(t: Seq<char>)
    ensures
        is_video_type(t) <==> (is_video_ext(t) && t != "m4v"@),
{
    reveal_strlit("m4v");
    reveal_strlit("mp4");
    reveal_strlit("mov");
    reveal_strlit("avi");
    reveal_strlit("mkv");
    reveal_strlit("webm");
    reveal_strlit("flv");
    reveal_strlit("wmv");
    if t == "m4v"@ {
        assert(t.len() == 3 && t[0] == 'm' && t[1] == '4');
    }
}

} // verus!
