//! The basic image processor: its configuration and its checks, and the
//! choice of encoder for a target format.

use vstd::prelude::*;
use vstd::string::*;
use crate::text::{lowercase, to_lower, str_eq, owned, concat2, dec, prefixed_number};

verus! {

/// Settings of the processor.
#[derive(Debug, Clone)]
pub struct ProcessingConfig {
    pub quality: u8,
    pub speed: u8,
    pub preserve_metadata: bool,
    pub enable_profiling: bool,
}

/// Why processing failed.
#[derive(Debug, Clone)]
pub enum ProcessingError {
    UnsupportedFormat { format: String },
    Io { message: String },
    Processing { message: String },
    InvalidConfig { message: String },
}

/// The text of a processing error.
pub open spec fn processing_error_text(e: ProcessingError) -> Seq<char> {
    match e {
        ProcessingError::UnsupportedFormat { format } => "Unsupported format: "@ + format@,
        ProcessingError::Io { message } => "IO error: "@ + message@,
        ProcessingError::Processing { message } => "Image processing error: "@ + message@,
        ProcessingError::InvalidConfig { message } => "Invalid configuration: "@ + message@,
    }
}

impl ProcessingError {
    /// The error's message.
    pub fn to_string(&self) -> (res: String)
        ensures
            res@ == processing_error_text(*self),
    {
        match self {
            ProcessingError::UnsupportedFormat { format } => concat2("Unsupported format: ", format.as_str()),
            ProcessingError::Io { message } => concat2("IO error: ", message.as_str()),
            ProcessingError::Processing { message } => concat2("Image processing error: ", message.as_str()),
            ProcessingError::InvalidConfig { message } => concat2("Invalid configuration: ", message.as_str()),
        }
    }
}

/// The first invalid setting of a configuration, as its message.
pub open spec fn config_problem(c: ProcessingConfig) -> Option<Seq<char>> {
    if c.quality == 0 || c.quality > 100 {
        Some("Quality must be 1-100, got "@ + dec(c.quality as nat))
    } else if c.speed == 0 || c.speed > 10 {
        Some("Speed must be 1-10, got "@ + dec(c.speed as nat))
    } else {
        None
    }
}

impl Default for ProcessingConfig {
    fn default() -> (res: Self)
        ensures
            res.quality == 85,
            res.speed == 5,
            res.preserve_metadata,
            !res.enable_profiling,
    {
        ProcessingConfig { quality: 85, speed: 5, preserve_metadata: true, enable_profiling: false }
    }
}

impl ProcessingConfig {
    /// Quality must lie in 1-100 and speed in 1-10.
    pub fn validate(&self) -> (res: Result<(), ProcessingError>)
        ensures
            match res {
                Ok(()) => config_problem(*self) is None,
                Err(e) => config_problem(*self) matches Some(m) && e matches ProcessingError::InvalidConfig {
                    message,
                } && message@ == m,
            },
    {
        if self.quality == 0 || self.quality > 100 {
            return Err(
                ProcessingError::InvalidConfig {
                    message: prefixed_number("Quality must be 1-100, got ", self.quality as u64),
                },
            );
        }
        if self.speed == 0 || self.speed > 10 {
            return Err(
                ProcessingError::InvalidConfig { message: prefixed_number("Speed must be 1-10, got ", self.speed as u64) },
            );
        }
        Ok(())
    }
}

/// The encoder used for a target format.
#[derive(Debug, Clone, Copy, PartialEq, Eq, Structural)]
pub enum EncoderChoice {
    Jpeg { quality: u8 },
    Png,
    WebP,
    Gif,
}

/// The encoder for an already lower-cased target format.
pub open spec fn encoder_for(format: Seq<char>, quality: u8) -> Option<EncoderChoice> {
    if format == "jpg"@ || format == "jpeg"@ {
        Some(EncoderChoice::Jpeg { quality })
    } else if format == "png"@ {
        Some(EncoderChoice::Png)
    } else if format == "webp"@ {
        Some(EncoderChoice::WebP)
    } else if format == "gif"@ {
        Some(EncoderChoice::Gif)
    } else {
        None
    }
}

/// The image processor.
#[derive(Debug)]
pub struct ImageProcessor {
    config: ProcessingConfig,
}

impl ImageProcessor {
    pub closed spec fn spec_config(&self) -> ProcessingConfig {
        self.config
    }

    /// A processor with the given configuration, which must be valid.
    pub fn new(config: ProcessingConfig) -> (res: Result<Self, ProcessingError>)
        ensures
            match res {
                Ok(p) => config_problem(config) is None && p.spec_config() == config,
                Err(e) => config_problem(config) matches Some(m) && e matches ProcessingError::InvalidConfig {
                    message,
                } && message@ == m,
            },
    {
        match config.validate() {
            Ok(()) => Ok(ImageProcessor { config }),
            Err(e) => Err(e),
        }
    }

    /// A processor with the default configuration.
    pub fn with_defaults() -> (res: Self)
        ensures
            res.spec_config().quality == 85,
            res.spec_config().speed == 5,
            res.spec_config().preserve_metadata,
            !res.spec_config().enable_profiling,
    {
        ImageProcessor { config: ProcessingConfig::default() }
    }

    /// The configuration.
    pub fn config(&self) -> (res: &ProcessingConfig)
        ensures
            *res == self.spec_config(),
    {
        &self.config
    }

    /// The encoder for a target format in any letter case: JPEG at the
    /// configured quality, PNG, WebP or GIF; other formats are unsupported.
    pub fn select_encoder(&self, output_format: &str) -> (res: Result<EncoderChoice, ProcessingError>)
        ensures
            match res {
                Ok(c) => encoder_for(lowercase(output_format@), self.spec_config().quality) == Some(c),
                Err(e) => encoder_for(lowercase(output_format@), self.spec_config().quality) is None && (
                e matches ProcessingError::UnsupportedFormat { format } && format@ == output_format@),
            },
    {
        let lower = to_lower(output_format);
        let f = lower.as_str();
        if str_eq(f, "jpg") || str_eq(f, "jpeg") {
            Ok(EncoderChoice::Jpeg { quality: self.config.quality })
        } else if str_eq(f, "png") {
            Ok(EncoderChoice::Png)
        } else if str_eq(f, "webp") {
            Ok(EncoderChoice::WebP)
        } else if str_eq(f, "gif") {
            Ok(EncoderChoice::Gif)
        } else {
            Err(ProcessingError::UnsupportedFormat { format: owned(output_format) })
        }
    }
}

/// What is known of an image without converting it.
#[derive(Debug, Clone)]
pub struct ImageInfo {
    pub width: u32,
    pub height: u32,
    pub file_size: u64,
    pub format: String,
    pub color_type: String,
}

} // verus!
