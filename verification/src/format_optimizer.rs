//! Same-format optimisation (PNG with `oxipng`/`optipng`, JPEG with
//! `cjpegli`/`jpegtran`, WebP with `cwebp`): which tool serves a format,
//! and the arguments each tool is run with. Which tools are installed is
//! given as a [`ToolSet`].

use vstd::prelude::*;
use vstd::string::*;
use crate::text::{str_eq, owned, concat2, dec, decimal, prefixed_number, views, push_msg};

verus! {

/// Settings of the optimiser.
#[derive(Debug, Clone, Copy, PartialEq, Eq, Structural)]
pub struct OptimizerConfig {
    pub quality: u8,
    pub lossless: bool,
    pub strip_metadata: bool,
    pub optimization_level: u8,
}

impl Default for OptimizerConfig {
    fn default() -> (res: Self)
        ensures
            res == (OptimizerConfig { quality: 85, lossless: false, strip_metadata: true, optimization_level: 3 }),
    {
        OptimizerConfig { quality: 85, lossless: false, strip_metadata: true, optimization_level: 3 }
    }
}

/// Which optimisation tools are installed.
#[derive(Debug, Clone, Copy, PartialEq, Eq, Structural)]
pub struct ToolSet {
    pub oxipng: bool,
    pub optipng: bool,
    pub cjpegli: bool,
    pub jpegtran: bool,
    pub cwebp: bool,
}

/// The tool for a (lower-case) format, or the refusal.
pub open spec fn tool_for(format: Seq<char>, t: ToolSet) -> Result<Seq<char>, Seq<char>> {
    if format == "png"@ {
        if t.oxipng {
            Ok("oxipng"@)
        } else if t.optipng {
            Ok("optipng"@)
        } else {
            Err("PNG optimizer not found (oxipng/optipng)"@)
        }
    } else if format == "jpg"@ || format == "jpeg"@ {
        if t.cjpegli {
            Ok("cjpegli"@)
        } else if t.jpegtran {
            Ok("jpegtran"@)
        } else {
            Err("JPEG optimizer not found (cjpegli/jpegtran)"@)
        }
    } else if format == "webp"@ {
        if t.cwebp {
            Ok("cwebp"@)
        } else {
            Err("WebP optimizer not found (cwebp)"@)
        }
    } else {
        Err("Unsupported format: "@ + format)
    }
}

/// The formats that some installed tool serves.
pub open spec fn supported_spec(t: ToolSet) -> Seq<Seq<char>> {
    (if t.oxipng || t.optipng { seq!["png"@] } else { seq![] }) + (if t.cjpegli || t.jpegtran {
        seq!["jpg"@, "jpeg"@]
    } else {
        seq![]
    }) + if t.cwebp {
        seq!["webp"@]
    } else {
        seq![]
    }
}

/// The same-format optimiser.
pub struct FormatOptimizer {
    config: OptimizerConfig,
}

impl FormatOptimizer {
    pub closed spec fn spec_config(&self) -> OptimizerConfig {
        self.config
    }

    /// An optimiser with the given settings.
    pub fn new(config: OptimizerConfig) -> (res: Self)
        ensures
            res.spec_config() == config,
    {
        FormatOptimizer { config }
    }

    /// An optimiser with the default settings.
    pub fn with_defaults() -> (res: Self)
        ensures
            res.spec_config() == (OptimizerConfig {
                quality: 85,
                lossless: false,
                strip_metadata: true,
                optimization_level: 3,
            }),
    {
        Self::new(OptimizerConfig::default())
    }

    /// The settings.
    pub fn config(&self) -> (res: &OptimizerConfig)
        ensures
            *res == self.spec_config(),
    {
        &self.config
    }

    /// The tool that optimises a (lower-case) format: the first installed
    /// of the preferred and the fallback tool.
    pub fn check_tools_for_format(format: &str, tools: &ToolSet) -> (res: Result<String, String>)
        ensures
            match res {
                Ok(t) => tool_for(format@, *tools) == Ok::<Seq<char>, Seq<char>>(t@),
                Err(m) => tool_for(format@, *tools) == Err::<Seq<char>, Seq<char>>(m@),
            },
    {
        if str_eq(format, "png") {
            if tools.oxipng {
                Ok(owned("oxipng"))
            } else if tools.optipng {
                Ok(owned("optipng"))
            } else {
                Err(owned("PNG optimizer not found (oxipng/optipng)"))
            }
        } else if str_eq(format, "jpg") || str_eq(format, "jpeg") {
            if tools.cjpegli {
                Ok(owned("cjpegli"))
            } else if tools.jpegtran {
                Ok(owned("jpegtran"))
            } else {
                Err(owned("JPEG optimizer not found (cjpegli/jpegtran)"))
            }
        } else if str_eq(format, "webp") {
            if tools.cwebp {
                Ok(owned("cwebp"))
            } else {
                Err(owned("WebP optimizer not found (cwebp)"))
            }
        } else {
            Err(concat2("Unsupported format: ", format))
        }
    }

    /// Some installed tool optimises the (lower-case) format.
    pub fn is_available_for_format(format: &str, tools: &ToolSet) -> (res: bool)
        ensures
            res == (tool_for(format@, *tools) is Ok),
    {
        Self::check_tools_for_format(format, tools).is_ok()
    }

    /// The formats the installed tools serve: `png`, then `jpg` and `jpeg`,
    /// then `webp`.
    pub fn supported_formats(tools: &ToolSet) -> (res: Vec<String>)
        ensures
            views(res@) == supported_spec(*tools),
    {
        let mut v: Vec<String> = Vec::new();
        if tools.oxipng || tools.optipng {
            push_msg(&mut v, owned("png"));
        }
        if tools.cjpegli || tools.jpegtran {
            push_msg(&mut v, owned("jpg"));
            push_msg(&mut v, owned("jpeg"));
        }
        if tools.cwebp {
            push_msg(&mut v, owned("webp"));
        }
        assert(views(v@) =~= supported_spec(*tools));
        v
    }

    /// The arguments of a PNG tool, or the refusal of an unknown tool.
    pub fn png_args(&self, tool: &str, input: &str, output: &str) -> (res: Result<Vec<String>, String>)
        ensures
            match res {
                Ok(v) => (tool@ == "oxipng"@ && views(v@) == seq![
                    "-o"@ + dec(self.spec_config().optimization_level as nat),
                    "--strip"@,
                    "safe"@,
                    input@,
                    "-out"@,
                    output@,
                ]) || (tool@ == "optipng"@ && tool@ != "oxipng"@ && views(v@) == seq![
                    "-o"@ + dec(self.spec_config().optimization_level as nat),
                    "-preserve"@,
                    "-out"@,
                    output@,
                    input@,
                ]),
                Err(m) => tool@ != "oxipng"@ && tool@ != "optipng"@ && m@ == "Unknown PNG tool: "@ + tool@,
            },
    {
        let level = prefixed_number("-o", self.config.optimization_level as u64);
        let mut v: Vec<String> = Vec::new();
        assert(views(v@) =~= seq![]);
        if str_eq(tool, "oxipng") {
            push_msg(&mut v, level);
            push_msg(&mut v, owned("--strip"));
            push_msg(&mut v, owned("safe"));
            push_msg(&mut v, owned(input));
            push_msg(&mut v, owned("-out"));
            push_msg(&mut v, owned(output));
            Ok(v)
        } else if str_eq(tool, "optipng") {
            push_msg(&mut v, level);
            push_msg(&mut v, owned("-preserve"));
            push_msg(&mut v, owned("-out"));
            push_msg(&mut v, owned(output));
            push_msg(&mut v, owned(input));
            Ok(v)
        } else {
            Err(concat2("Unknown PNG tool: ", tool))
        }
    }

    /// The arguments of a JPEG tool, or the refusal of an unknown tool.
    pub fn jpeg_args(&self, tool: &str, input: &str, output: &str) -> (res: Result<Vec<String>, String>)
        ensures
            match res {
                Ok(v) => (tool@ == "cjpegli"@ && views(v@) == seq![
                    input@,
                    output@,
                    "--quality"@,
                    dec(self.spec_config().quality as nat),
                    "--progressive"@,
                ]) || (tool@ == "jpegtran"@ && tool@ != "cjpegli"@ && views(v@) == seq![
                    "-copy"@,
                    "all"@,
                    "-optimize"@,
                    "-progressive"@,
                    "-outfile"@,
                    output@,
                    input@,
                ]),
                Err(m) => tool@ != "cjpegli"@ && tool@ != "jpegtran"@ && m@ == "Unknown JPEG tool: "@ + tool@,
            },
    {
        let mut v: Vec<String> = Vec::new();
        assert(views(v@) =~= seq![]);
        if str_eq(tool, "cjpegli") {
            push_msg(&mut v, owned(input));
            push_msg(&mut v, owned(output));
            push_msg(&mut v, owned("--quality"));
            push_msg(&mut v, decimal(self.config.quality as u64));
            push_msg(&mut v, owned("--progressive"));
            Ok(v)
        } else if str_eq(tool, "jpegtran") {
            push_msg(&mut v, owned("-copy"));
            push_msg(&mut v, owned("all"));
            push_msg(&mut v, owned("-optimize"));
            push_msg(&mut v, owned("-progressive"));
            push_msg(&mut v, owned("-outfile"));
            push_msg(&mut v, owned(output));
            push_msg(&mut v, owned(input));
            Ok(v)
        } else {
            Err(concat2("Unknown JPEG tool: ", tool))
        }
    }

    /// The `cwebp` arguments of a WebP re-compression.
    pub fn webp_args(&self, input: &str, output: &str) -> (res: Vec<String>)
        ensures
            views(res@) == seq![
                input@,
                "-o"@,
                output@,
                "-q"@,
                dec(self.spec_config().quality as nat),
                "-m"@,
                "6"@,
                "-mt"@,
            ],
    {
        let mut v: Vec<String> = Vec::new();
        assert(views(v@) =~= seq![]);
        push_msg(&mut v, owned(input));
        push_msg(&mut v, owned("-o"));
        push_msg(&mut v, owned(output));
        push_msg(&mut v, owned("-q"));
        push_msg(&mut v, decimal(self.config.quality as u64));
        push_msg(&mut v, owned("-m"));
        push_msg(&mut v, owned("6"));
        push_msg(&mut v, owned("-mt"));
        v
    }
}

impl Default for FormatOptimizer {
    fn default() -> (res: Self)
        ensures
            res.spec_config() == (OptimizerConfig {
                quality: 85,
                lossless: false,
                strip_metadata: true,
                optimization_level: 3,
            }),
    {
        Self::with_defaults()
    }
}

} // verus!
