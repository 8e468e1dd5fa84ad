//! The image formats the converter supports, their names, extensions, MIME
//! types and capabilities, and their detection from a name or a path.

use vstd::prelude::*;
use vstd::string::*;
use crate::text::{lowercase, to_lower, str_eq, owned};
use crate::paths::{extension, extension_of};

verus! {

/// A supported image format.
#[derive(Debug, Clone, Copy, PartialEq, Eq, Hash, Structural)]
pub enum SupportedFormat {
    Jpeg,
    Png,
    WebP,
    Avif,
    Jxl,
    Gif,
}

/// Settings for writing one format.
#[derive(Debug, Clone)]
pub struct FormatConfig {
    pub format: SupportedFormat,
    pub quality: Option<u8>,
    pub compression: Option<u8>,
    pub lossless: bool,
}

/// A description of one format.
#[derive(Debug, Clone)]
pub struct FormatInfo {
    pub name: String,
    pub extensions: Vec<String>,
    pub mime_type: String,
    pub supported: bool,
    pub lossless_capable: bool,
    pub animation_capable: bool,
    pub alpha_capable: bool,
}

/// The formats in their canonical order.
pub open spec fn all_formats() -> Seq<SupportedFormat> {
    seq![
        SupportedFormat::Jpeg,
        SupportedFormat::Png,
        SupportedFormat::WebP,
        SupportedFormat::Avif,
        SupportedFormat::Jxl,
        SupportedFormat::Gif,
    ]
}

/// The format named by an already lower-cased name.
pub open spec fn format_named(s: Seq<char>) -> Option<SupportedFormat> {
    if s == "jpg"@ || s == "jpeg"@ {
        Some(SupportedFormat::Jpeg)
    } else if s == "png"@ {
        Some(SupportedFormat::Png)
    } else if s == "webp"@ {
        Some(SupportedFormat::WebP)
    } else if s == "avif"@ {
        Some(SupportedFormat::Avif)
    } else if s == "jxl"@ || s == "jpegxl"@ {
        Some(SupportedFormat::Jxl)
    } else if s == "gif"@ {
        Some(SupportedFormat::Gif)
    } else {
        None
    }
}

impl SupportedFormat {
    pub open spec fn ext_spec(self) -> Seq<char> {
        match self {
            SupportedFormat::Jpeg => "jpg"@,
            SupportedFormat::Png => "png"@,
            SupportedFormat::WebP => "webp"@,
            SupportedFormat::Avif => "avif"@,
            SupportedFormat::Jxl => "jxl"@,
            SupportedFormat::Gif => "gif"@,
        }
    }

    pub open spec fn mime_spec(self) -> Seq<char> {
        match self {
            SupportedFormat::Jpeg => "image/jpeg"@,
            SupportedFormat::Png => "image/png"@,
            SupportedFormat::WebP => "image/webp"@,
            SupportedFormat::Avif => "image/avif"@,
            SupportedFormat::Jxl => "image/jxl"@,
            SupportedFormat::Gif => "image/gif"@,
        }
    }

    pub open spec fn display_spec(self) -> Seq<char> {
        match self {
            SupportedFormat::Jpeg => "JPEG"@,
            SupportedFormat::Png => "PNG"@,
            SupportedFormat::WebP => "WebP"@,
            SupportedFormat::Avif => "AVIF"@,
            SupportedFormat::Jxl => "JPEG XL"@,
            SupportedFormat::Gif => "GIF"@,
        }
    }

    pub open spec fn lossless_spec(self) -> bool {
        self is Png || self is WebP || self is Avif || self is Jxl
    }

    pub open spec fn animation_spec(self) -> bool {
        self is Gif || self is WebP || self is Avif || self is Jxl
    }

    pub open spec fn alpha_spec(self) -> bool {
        !(self is Jpeg)
    }

    /// Every supported format, in canonical order.
    pub fn all() -> (res: Vec<Self>)
        ensures
            res@ == all_formats(),
    {
        let v = vec![
            SupportedFormat::Jpeg,
            SupportedFormat::Png,
            SupportedFormat::WebP,
            SupportedFormat::Avif,
            SupportedFormat::Jxl,
            SupportedFormat::Gif,
        ];
        assert(v@ =~= all_formats());
        v
    }

    /// The format named by a lower-case name (`jpg`, `jpeg`, `png`, `webp`,
    /// `avif`, `jxl`, `jpegxl`, `gif`).
    pub fn from_lowercase_name(s: &str) -> (res: Option<Self>)
        ensures
            res == format_named(s@),
    {
        if str_eq(s, "jpg") || str_eq(s, "jpeg") {
            Some(SupportedFormat::Jpeg)
        } else if str_eq(s, "png") {
            Some(SupportedFormat::Png)
        } else if str_eq(s, "webp") {
            Some(SupportedFormat::WebP)
        } else if str_eq(s, "avif") {
            Some(SupportedFormat::Avif)
        } else if str_eq(s, "jxl") || str_eq(s, "jpegxl") {
            Some(SupportedFormat::Jxl)
        } else if str_eq(s, "gif") {
            Some(SupportedFormat::Gif)
        } else {
            None
        }
    }

    /// The format named by `s`, in any letter case.
    pub fn parse_format(s: &str) -> (res: Option<Self>)
        ensures
            res == format_named(lowercase(s@)),
    {
        let lower = to_lower(s);
        Self::from_lowercase_name(lower.as_str())
    }

    /// The usual file extension.
    pub fn extension(self) -> (res: &'static str)
        ensures
            res@ == self.ext_spec(),
    {
        match self {
            SupportedFormat::Jpeg => "jpg",
            SupportedFormat::Png => "png",
            SupportedFormat::WebP => "webp",
            SupportedFormat::Avif => "avif",
            SupportedFormat::Jxl => "jxl",
            SupportedFormat::Gif => "gif",
        }
    }

    /// The MIME type.
    pub fn mime_type(self) -> (res: &'static str)
        ensures
            res@ == self.mime_spec(),
    {
        match self {
            SupportedFormat::Jpeg => "image/jpeg",
            SupportedFormat::Png => "image/png",
            SupportedFormat::WebP => "image/webp",
            SupportedFormat::Avif => "image/avif",
            SupportedFormat::Jxl => "image/jxl",
            SupportedFormat::Gif => "image/gif",
        }
    }

    /// The display name (`JPEG`, `PNG`, `WebP`, `AVIF`, `JPEG XL`, `GIF`).
    pub fn to_string(self) -> (res: String)
        ensures
            res@ == self.display_spec(),
    {
        match self {
            SupportedFormat::Jpeg => owned("JPEG"),
            SupportedFormat::Png => owned("PNG"),
            SupportedFormat::WebP => owned("WebP"),
            SupportedFormat::Avif => owned("AVIF"),
            SupportedFormat::Jxl => owned("JPEG XL"),
            SupportedFormat::Gif => owned("GIF"),
        }
    }

    /// The format can store images without loss.
    pub fn supports_lossless(self) -> (res: bool)
        ensures
            res == self.lossless_spec(),
    {
        matches!(self, SupportedFormat::Png | SupportedFormat::WebP | SupportedFormat::Avif | SupportedFormat::Jxl)
    }

    /// The format can store animations.
    pub fn supports_animation(self) -> (res: bool)
        ensures
            res == self.animation_spec(),
    {
        matches!(self, SupportedFormat::Gif | SupportedFormat::WebP | SupportedFormat::Avif | SupportedFormat::Jxl)
    }

    /// The format can store an alpha channel.
    pub fn supports_alpha(self) -> (res: bool)
        ensures
            res == self.alpha_spec(),
    {
        matches!(
            self,
            SupportedFormat::Png | SupportedFormat::WebP | SupportedFormat::Avif | SupportedFormat::Jxl
                | SupportedFormat::Gif
        )
    }

    /// The description of this format.
    pub fn info(self) -> (res: FormatInfo)
        ensures
            res.describes(self),
    {
        let mut extensions: Vec<String> = Vec::new();
        extensions.push(owned(self.extension()));
        FormatInfo {
            name: self.to_string(),
            extensions,
            mime_type: owned(self.mime_type()),
            supported: true,
            lossless_capable: self.supports_lossless(),
            animation_capable: self.supports_animation(),
            alpha_capable: self.supports_alpha(),
        }
    }
}

impl FormatInfo {
    /// This value is the description of `f`.
    pub open spec fn describes(self, f: SupportedFormat) -> bool {
        &&& self.name@ == f.display_spec()
        &&& self.extensions@.len() == 1
        &&& self.extensions@[0]@ == f.ext_spec()
        &&& self.mime_type@ == f.mime_spec()
        &&& self.supported
        &&& self.lossless_capable == f.lossless_spec()
        &&& self.animation_capable == f.animation_spec()
        &&& self.alpha_capable == f.alpha_spec()
    }
}

impl Default for FormatConfig {
    fn default() -> (res: Self)
        ensures
            res.format == SupportedFormat::Jpeg,
            res.quality == Some(85u8),
            res.compression.is_none(),
            !res.lossless,
    {
        FormatConfig { format: SupportedFormat::Jpeg, quality: Some(85), compression: None, lossless: false }
    }
}

/// The descriptions of all supported formats, in canonical order.
pub fn get_supported_formats() -> (res: Vec<FormatInfo>)
    ensures
        res@.len() == all_formats().len(),
        forall|i: int| 0 <= i < res@.len() ==> #[trigger] res@[i].describes(all_formats()[i]),
{
    let formats = SupportedFormat::all();
    let mut out: Vec<FormatInfo> = Vec::new();
    let mut i: usize = 0;
    while i < formats.len()
        invariant
            formats@ == all_formats(),
            i <= formats@.len(),
            out@.len() == i,
            forall|j: int| 0 <= j < i ==> #[trigger] out@[j].describes(all_formats()[j]),
        decreases formats@.len() - i,
    {
        out.push(formats[i].info());
        i = i + 1;
    }
    out
}

/// The format of a file, from the extension of its path in any letter case.
pub fn detect_format_from_extension(path: &str) -> (res: Option<SupportedFormat>)
    ensures
        match extension_of(path@) {
            None => res.is_none(),
            Some(ext) => res == format_named(lowercase(ext)),
        },
{
    match extension(path) {
        None => None,
        Some(ext) => SupportedFormat::parse_format(ext.as_str()),
    }
}

/// A format's own extension names it: reading the extension back gives
/// the same format.
pub proof fn law_extension_names_format(f: SupportedFormat)
    ensures
        format_named(f.ext_spec()) == Some(f),
{
    reveal_strlit("jpg");
    reveal_strlit("jpeg");
    reveal_strlit("png");
    reveal_strlit("webp");
    reveal_strlit("avif");
    reveal_strlit("jxl");
    reveal_strlit("jpegxl");
    reveal_strlit("gif");
    let e = f.ext_spec();
    match f {
        SupportedFormat::Jpeg => {},
        SupportedFormat::Png => {
            assert(e[0] != "jpg"@[0] && e.len() != "jpeg"@.len());
        },
        SupportedFormat::WebP => {
            assert(e.len() != "jpg"@.len() && e[0] != "jpeg"@[0] && e.len() != "png"@.len());
        },
        SupportedFormat::Avif => {
            assert(e.len() != "jpg"@.len() && e[0] != "jpeg"@[0] && e.len() != "png"@.len() && e[0] != "webp"@[0]);
        },
        SupportedFormat::Jxl => {
            assert(e[1] != "jpg"@[1] && e.len() != "jpeg"@.len() && e[0] != "png"@[0] && e.len() != "webp"@.len()
                && e.len() != "avif"@.len());
        },
        SupportedFormat::Gif => {
            assert(e[0] != "jpg"@[0] && e.len() != "jpeg"@.len() && e[0] != "png"@[0] && e.len() != "webp"@.len()
                && e.len() != "avif"@.len() && e[0] != "jxl"@[0] && e.len() != "jpegxl"@.len());
        },
    }
}

} // verus!
