//! The image converter's settings and its choice of encoder by target
//! format. Running the encoders is the caller's.

use vstd::prelude::*;
use crate::text::{concat2, lowercase, str_eq, to_lower};

verus! {

/// Settings of a conversion.
#[derive(Debug, Clone, Copy, PartialEq, Eq, Structural)]
pub struct ConversionConfig {
    pub quality: u8,
    pub speed: u8,
    pub preserve_metadata: bool,
    pub keep_animated: bool,
}

impl Default for ConversionConfig {
    /// Quality 75, speed 4, metadata and animation kept.
    fn default() -> (res: Self)
        ensures
            res == (ConversionConfig { quality: 75, speed: 4, preserve_metadata: true, keep_animated: true }),
    {
        ConversionConfig { quality: 75, speed: 4, preserve_metadata: true, keep_animated: true }
    }
}

/// The encoder a target format is converted with.
#[derive(Debug, Clone, Copy, PartialEq, Eq, Structural)]
pub enum TargetEncoder {
    Jpeg,
    Png,
    Webp,
    Avif,
    Jxl,
    Gif,
}

/// The encoder for a target format named without regard to case, if the
/// format is supported.
pub open spec fn encoder_spec(format: Seq<char>) -> Option<TargetEncoder> {
    let f = lowercase(format);
    if f == "jpeg"@ || f == "jpg"@ {
        Some(TargetEncoder::Jpeg)
    } else if f == "png"@ {
        Some(TargetEncoder::Png)
    } else if f == "webp"@ {
        Some(TargetEncoder::Webp)
    } else if f == "avif"@ {
        Some(TargetEncoder::Avif)
    } else if f == "jxl"@ {
        Some(TargetEncoder::Jxl)
    } else if f == "gif"@ {
        Some(TargetEncoder::Gif)
    } else {
        None
    }
}

/// Converts images.
#[derive(Debug, Clone, Copy)]
pub struct ImageConverter {
    config: ConversionConfig,
}

impl ImageConverter {
    /// The settings.
    pub closed spec fn spec_config(&self) -> ConversionConfig {
        self.config
    }

    /// A converter with the given settings.
    pub fn new(config: ConversionConfig) -> (res: Self)
        ensures
            res.spec_config() == config,
    {
        ImageConverter { config }
    }

    /// The settings.
    pub fn config(&self) -> (res: ConversionConfig)
        ensures
            res == self.spec_config(),
    {
        self.config
    }

    /// The encoder for a target format, or the message "Unsupported
    /// format: <format>".
    pub fn encoder_for(&self, format: &str) -> (res: Result<TargetEncoder, String>)
        ensures
            match encoder_spec(format@) {
                Some(e) => res == Ok::<TargetEncoder, String>(e),
                None => res matches Err(m) && m@ == "Unsupported format: "@ + format@,
            },
    {
        let f = to_lower(format);
        let s = f.as_str();
        if str_eq(s, "jpeg") || str_eq(s, "jpg") {
            Ok(TargetEncoder::Jpeg)
        } else if str_eq(s, "png") {
            Ok(TargetEncoder::Png)
        } else if str_eq(s, "webp") {
            Ok(TargetEncoder::Webp)
        } else if str_eq(s, "avif") {
            Ok(TargetEncoder::Avif)
        } else if str_eq(s, "jxl") {
            Ok(TargetEncoder::Jxl)
        } else if str_eq(s, "gif") {
            Ok(TargetEncoder::Gif)
        } else {
            Err(concat2("Unsupported format: ", format))
        }
    }

    /// The places a tool is looked for, in order, before the search path.
    pub fn tool_search_paths(tool_name: &str) -> (res: Vec<String>)
        ensures
            res@.map_values(|s: String| s@) == seq![
                "/opt/homebrew/bin/"@ + tool_name@,
                "/usr/local/bin/"@ + tool_name@,
                "/opt/local/bin/"@ + tool_name@,
                "/usr/bin/"@ + tool_name@,
            ],
    {
        let v = vec![
            concat2("/opt/homebrew/bin/", tool_name),
            concat2("/usr/local/bin/", tool_name),
            concat2("/opt/local/bin/", tool_name),
            concat2("/usr/bin/", tool_name),
        ];
        assert(v@.map_values(|s: String| s@) =~= seq![
            "/opt/homebrew/bin/"@ + tool_name@,
            "/usr/local/bin/"@ + tool_name@,
            "/opt/local/bin/"@ + tool_name@,
            "/usr/bin/"@ + tool_name@,
        ]);
        v
    }
}

} // verus!
