//! Multi-level validation of a conversion request: the input files
//! (level 1), the conversion parameters (level 2) and the consistency of
//! the mode with the parameters (level 3).
//!
//! What the file system says of each input (whether it exists, whether its
//! metadata can be read) comes in as a [`FileProbe`] per file.

use vstd::prelude::*;
use vstd::string::*;
use crate::text::{
    lowercase, to_lower, str_eq, owned, concat2, dec, push_decimal, push_fixed2, fixed2, views,
    push_msg, append_msgs, contains_char,
};
use crate::formats::{SupportedFormat, format_named};

verus! {

/// Outcome of one validation level.
#[derive(Debug, Clone)]
pub struct ValidationResult {
    pub valid: bool,
    pub level: u8,
    pub errors: Vec<String>,
    pub warnings: Vec<String>,
}

/// The meaning of a [`ValidationResult`]: its flag, level and message texts.
pub struct Outcome {
    pub valid: bool,
    pub level: u8,
    pub errors: Seq<Seq<char>>,
    pub warnings: Seq<Seq<char>>,
}

impl View for ValidationResult {
    type V = Outcome;

    open spec fn view(&self) -> Outcome {
        Outcome {
            valid: self.valid,
            level: self.level,
            errors: views(self.errors@),
            warnings: views(self.warnings@),
        }
    }
}

impl ValidationResult {
    /// A passed level with no messages.
    pub fn success(level: u8) -> (res: Self)
        ensures
            res@ == (Outcome { valid: true, level, errors: seq![], warnings: seq![] }),
    {
        let res = ValidationResult { valid: true, level, errors: Vec::new(), warnings: Vec::new() };
        assert(res@.errors =~= seq![]);
        assert(res@.warnings =~= seq![]);
        res
    }

    /// A failed level with the given errors.
    pub fn failure(level: u8, errors: Vec<String>) -> (res: Self)
        ensures
            res@ == (Outcome { valid: false, level, errors: views(errors@), warnings: seq![] }),
    {
        let res = ValidationResult { valid: false, level, errors, warnings: Vec::new() };
        assert(res@.warnings =~= seq![]);
        res
    }

    /// The same result with its warnings replaced.
    pub fn with_warnings(self, warnings: Vec<String>) -> (res: Self)
        ensures
            res@ == (Outcome { warnings: views(warnings@), ..self@ }),
    {
        let mut r = self;
        r.warnings = warnings;
        r
    }
}

/// One input file of a conversion.
#[derive(Debug, Clone)]
pub struct InputFile {
    pub file_path: String,
    pub name: String,
    pub ext: String,
    pub size: u64,
    pub is_animated: bool,
}

/// What the file system reports of an input file.
#[derive(Debug, Clone)]
pub struct FileProbe {
    /// The path exists.
    pub exists: bool,
    /// The error text of reading its metadata, when that failed.
    pub metadata_error: Option<String>,
}

/// The requested conversion.
#[derive(Debug, Clone)]
pub struct ConversionConfig {
    pub format: String,
    pub quality: Option<u32>,
    pub speed: Option<u32>,
    pub lossless: bool,
}

/// The meaning of a [`ConversionConfig`].
pub struct ConfigView {
    pub format: Seq<char>,
    pub quality: Option<u32>,
    pub speed: Option<u32>,
    pub lossless: bool,
}

impl View for ConversionConfig {
    type V = ConfigView;

    open spec fn view(&self) -> ConfigView {
        ConfigView { format: self.format@, quality: self.quality, speed: self.speed, lossless: self.lossless }
    }
}

/// How the conversion parameters were chosen.
#[derive(Debug, Clone, Copy, PartialEq, Eq, Structural)]
pub enum ConversionMode {
    Manual,
    Smart,
    AI,
}

/// The validator of conversion requests.
pub struct ConversionValidator;

// ───────────────────────── level 1 ─────────────────────────

/// `mark File #n (name): `
pub open spec fn file_tag(mark: Seq<char>, n: nat, name: Seq<char>) -> Seq<char> {
    mark + " File #"@ + dec(n) + " ("@ + name + "): "@
}

/// The file name holds a character that file systems refuse.
pub open spec fn has_illegal_char(name: Seq<char>) -> bool {
    exists|i: int|
        0 <= i < name.len() && (name[i] == '<' || name[i] == '>' || name[i] == ':' || name[i] == '"'
            || name[i] == '|' || name[i] == '?' || name[i] == '*')
}

/// The errors found for the file at position `i`.
pub open spec fn file_errors(i: int, f: InputFile, p: FileProbe) -> Seq<Seq<char>> {
    let n = (i + 1) as nat;
    let e1: Seq<Seq<char>> = if f.file_path@.len() == 0 {
        seq!["❌ File #"@ + dec(n) + ": Invalid file path"@]
    } else {
        seq![]
    };
    let e2: Seq<Seq<char>> = if f.ext@.len() == 0 {
        seq![file_tag("❌"@, n, f.name@) + "Missing file extension"@]
    } else {
        seq![]
    };
    let e3: Seq<Seq<char>> = if !p.exists {
        seq![file_tag("❌"@, n, f.name@) + "File does not exist"@]
    } else {
        seq![]
    };
    let e4: Seq<Seq<char>> = match p.metadata_error {
        Some(e) if p.exists => seq![file_tag("❌"@, n, f.name@) + "Cannot read file metadata: "@ + e@],
        _ => seq![],
    };
    e1 + e2 + e3 + e4
}

/// The warnings found for the file at position `i`.
pub open spec fn file_warnings(i: int, f: InputFile) -> Seq<Seq<char>> {
    let n = (i + 1) as nat;
    let w1: Seq<Seq<char>> = if f.size == 0 {
        seq![file_tag("⚠️"@, n, f.name@) + "File size is 0"@]
    } else if f.size > 1073741824 {
        seq![file_tag("⚠️"@, n, f.name@) + "File too large ("@ + fixed2(f.size as nat, 1073741824) + " GB)"@]
    } else {
        seq![]
    };
    let w2: Seq<Seq<char>> = if has_illegal_char(f.name@) {
        seq![file_tag("⚠️"@, n, f.name@) + "Filename contains illegal characters"@]
    } else {
        seq![]
    };
    w1 + w2
}

/// The errors of the first `k` files.
pub open spec fn input_errors(files: Seq<InputFile>, probes: Seq<FileProbe>, k: int) -> Seq<Seq<char>>
    decreases k,
{
    if k <= 0 {
        seq![]
    } else {
        input_errors(files, probes, k - 1) + file_errors(k - 1, files[k - 1], probes[k - 1])
    }
}

/// The warnings of the first `k` files.
pub open spec fn input_warnings(files: Seq<InputFile>, k: int) -> Seq<Seq<char>>
    decreases k,
{
    if k <= 0 {
        seq![]
    } else {
        input_warnings(files, k - 1) + file_warnings(k - 1, files[k - 1])
    }
}

/// The result of level 1 on the given files.
pub open spec fn input_outcome(files: Seq<InputFile>, probes: Seq<FileProbe>) -> Outcome {
    if files.len() == 0 {
        Outcome { valid: false, level: 1, errors: seq!["❌ No files selected"@], warnings: seq![] }
    } else {
        let errors = input_errors(files, probes, files.len() as int);
        Outcome {
            valid: errors.len() == 0,
            level: 1,
            errors,
            warnings: input_warnings(files, files.len() as int),
        }
    }
}

// ───────────────────────── level 2 ─────────────────────────

/// The target formats level 2 accepts (lower-case).
pub open spec fn is_valid_target(f: Seq<char>) -> bool {
    f == "jxl"@ || f == "avif"@ || f == "webp"@ || f == "heic"@ || f == "png"@ || f == "jpg"@
        || f == "jpeg"@
}

/// Some input (by its lower-cased extension) may carry transparency.
pub open spec fn any_transparent(files: Seq<InputFile>) -> bool {
    exists|i: int|
        0 <= i < files.len() && {
            let e = lowercase(#[trigger] files[i].ext@);
            e == ".png"@ || e == ".gif"@ || e == ".webp"@
        }
}

/// Some input is animated.
pub open spec fn any_animated(files: Seq<InputFile>) -> bool {
    exists|i: int| 0 <= i < files.len() && (#[trigger] files[i]).is_animated
}

/// The errors of level 2.
pub open spec fn parameter_errors(c: ConfigView) -> Seq<Seq<char>> {
    let fl = lowercase(c.format);
    let e1: Seq<Seq<char>> = if !is_valid_target(fl) {
        seq!["❌ Invalid target format: "@ + c.format]
    } else {
        seq![]
    };
    let e2: Seq<Seq<char>> = match c.quality {
        Some(q) if q < 1 || q > 100 => seq![
            "❌ Invalid quality parameter: "@ + dec(q as nat) + " (should be 1-100)"@,
        ],
        _ => seq![],
    };
    let e3: Seq<Seq<char>> = match c.speed {
        Some(s) if s > 10 => seq!["❌ Invalid speed parameter: "@ + dec(s as nat) + " (should be 0-10)"@],
        _ => seq![],
    };
    let e4: Seq<Seq<char>> = if c.lossless && (fl == "jpg"@ || fl == "jpeg"@) {
        seq!["❌ JPEG format does not support lossless mode"@]
    } else {
        seq![]
    };
    e1 + e2 + e3 + e4
}

/// The warnings of level 2.
pub open spec fn parameter_warnings(c: ConfigView, files: Seq<InputFile>) -> Seq<Seq<char>> {
    let fl = lowercase(c.format);
    let w1: Seq<Seq<char>> = if fl == "heic"@ && any_transparent(files) {
        seq!["⚠️ HEIC does not support transparency, transparent backgrounds may change color"@]
    } else {
        seq![]
    };
    let w2: Seq<Seq<char>> = if fl == "heic"@ && any_animated(files) {
        seq!["⚠️ HEIC does not support animation, animation effects will be lost"@]
    } else {
        seq![]
    };
    let w3: Seq<Seq<char>> = if fl == "avif"@ && any_animated(files) {
        seq!["⚠️ AVIF animation support is limited, may require special encoder"@]
    } else {
        seq![]
    };
    let w4: Seq<Seq<char>> = match c.quality {
        Some(q) if (fl == "jxl"@ || fl == "jpegxl"@) && q < 60 => seq![
            "⚠️ JXL quality parameter is low ("@ + dec(q as nat) + "), may affect visual quality"@,
        ],
        _ => seq![],
    };
    w1 + w2 + w3 + w4
}

/// The result of level 2.
pub open spec fn parameter_outcome(c: ConfigView, files: Seq<InputFile>) -> Outcome {
    let errors = parameter_errors(c);
    Outcome { valid: errors.len() == 0, level: 2, errors, warnings: parameter_warnings(c, files) }
}

// ───────────────────────── level 3 ─────────────────────────

/// The result of level 3.
pub open spec fn mode_outcome(mode: ConversionMode, c: ConfigView) -> Outcome {
    match mode {
        ConversionMode::Manual => {
            let errors: Seq<Seq<char>> = if c.format.len() == 0 {
                seq!["❌ Target format must be specified in manual mode"@]
            } else {
                seq![]
            };
            let warnings: Seq<Seq<char>> = if c.quality.is_none() {
                seq!["⚠️ Quality parameter not set in manual mode, will use default value"@]
            } else {
                seq![]
            };
            Outcome { valid: errors.len() == 0, level: 3, errors, warnings }
        },
        _ => Outcome {
            valid: true,
            level: 3,
            errors: seq![],
            warnings: seq!["⚠️ Smart mode will use AI predicted parameters"@],
        },
    }
}

/// The result of the whole validation: the first failing level, carrying
/// the warnings of the levels before it, or a pass at level 3 with all
/// warnings.
pub open spec fn full_outcome(
    files: Seq<InputFile>,
    probes: Seq<FileProbe>,
    c: ConfigView,
    mode: ConversionMode,
) -> Outcome {
    let i = input_outcome(files, probes);
    let p = parameter_outcome(c, files);
    let m = mode_outcome(mode, c);
    if !i.valid {
        i
    } else if !p.valid {
        Outcome { warnings: p.warnings + i.warnings, ..p }
    } else if !m.valid {
        Outcome { warnings: m.warnings + i.warnings + p.warnings, ..m }
    } else {
        Outcome { valid: true, level: 3, errors: seq![], warnings: i.warnings + p.warnings + m.warnings }
    }
}

/// Builds `mark File #n (name): `.
fn make_file_tag(mark: &str, n: u64, name: &str) -> (res: String)
    ensures
        res@ == file_tag(mark@, n as nat, name@),
{
    let mut s = owned(mark);
    s.append(" File #");
    push_decimal(&mut s, n);
    s.append(" (");
    s.append(name);
    s.append("): ");
    s
}

fn illegal_name(name: &str) -> (res: bool)
    ensures
        res == has_illegal_char(name@),
{
    let r = contains_char(name, '<') || contains_char(name, '>') || contains_char(name, ':')
        || contains_char(name, '"') || contains_char(name, '|') || contains_char(name, '?')
        || contains_char(name, '*');
    proof {
        if has_illegal_char(name@) {
            let i = choose|i: int|
                0 <= i < name@.len() && (name@[i] == '<' || name@[i] == '>' || name@[i] == ':'
                    || name@[i] == '"' || name@[i] == '|' || name@[i] == '?' || name@[i] == '*');
            assert(name@.contains(name@[i]));
        }
    }
    r
}

fn check_file(i: usize, f: &InputFile, p: &FileProbe, errors: &mut Vec<String>, warnings: &mut Vec<String>)
    requires
        i < usize::MAX,
    ensures
        views(final(errors)@) == views(old(errors)@) + file_errors(i as int, *f, *p),
        views(final(warnings)@) == views(old(warnings)@) + file_warnings(i as int, *f),
{
    let n: u64 = (i + 1) as u64;
    let ghost e0 = views(errors@);
    let ghost w0 = views(warnings@);
    if f.file_path.unicode_len() == 0 {
        let mut m = owned("❌ File #");
        push_decimal(&mut m, n);
        m.append(": Invalid file path");
        push_msg(errors, m);
    }
    let ghost e1 = views(errors@);
    if f.ext.unicode_len() == 0 {
        let mut m = make_file_tag("❌", n, f.name.as_str());
        m.append("Missing file extension");
        push_msg(errors, m);
    }
    let ghost e2 = views(errors@);
    if f.size == 0 {
        let mut m = make_file_tag("⚠️", n, f.name.as_str());
        m.append("File size is 0");
        push_msg(warnings, m);
    } else if f.size > 1073741824 {
        let mut m = make_file_tag("⚠️", n, f.name.as_str());
        m.append("File too large (");
        push_fixed2(&mut m, f.size, 1073741824);
        m.append(" GB)");
        push_msg(warnings, m);
    }
    let ghost w1 = views(warnings@);
    if illegal_name(f.name.as_str()) {
        let mut m = make_file_tag("⚠️", n, f.name.as_str());
        m.append("Filename contains illegal characters");
        push_msg(warnings, m);
    }
    if !p.exists {
        let mut m = make_file_tag("❌", n, f.name.as_str());
        m.append("File does not exist");
        push_msg(errors, m);
    }
    let ghost e3 = views(errors@);
    if p.exists {
        match &p.metadata_error {
            Some(e) => {
                let mut m = make_file_tag("❌", n, f.name.as_str());
                m.append("Cannot read file metadata: ");
                m.append(e.as_str());
                push_msg(errors, m);
            },
            None => {},
        }
    }
    proof {
        let fe = file_errors(i as int, *f, *p);
        assert(views(errors@) =~= e0 + fe);
        assert(views(warnings@) =~= w0 + file_warnings(i as int, *f));
    }
}

fn any_transparent_exec(files: &[InputFile]) -> (res: bool)
    ensures
        res == any_transparent(files@),
{
    let mut i: usize = 0;
    while i < files.len()
        invariant
            i <= files@.len(),
            forall|j: int|
                0 <= j < i ==> {
                    let e = lowercase(#[trigger] files@[j].ext@);
                    !(e == ".png"@ || e == ".gif"@ || e == ".webp"@)
                },
        decreases files@.len() - i,
    {
        let e = to_lower(files[i].ext.as_str());
        if str_eq(e.as_str(), ".png") || str_eq(e.as_str(), ".gif") || str_eq(e.as_str(), ".webp") {
            assert(files@[i as int] == files[i as int]);
            return true;
        }
        i = i + 1;
    }
    false
}

fn any_animated_exec(files: &[InputFile]) -> (res: bool)
    ensures
        res == any_animated(files@),
{
    let mut i: usize = 0;
    while i < files.len()
        invariant
            i <= files@.len(),
            forall|j: int| 0 <= j < i ==> !(#[trigger] files@[j]).is_animated,
        decreases files@.len() - i,
    {
        if files[i].is_animated {
            return true;
        }
        i = i + 1;
    }
    false
}

fn parameter_error_list(config: &ConversionConfig, fl: &str) -> (errors: Vec<String>)
    requires
        fl@ == lowercase(config.format@),
    ensures
        views(errors@) == parameter_errors(config@),
{
    let mut errors: Vec<String> = Vec::new();
    let valid = str_eq(fl, "jxl") || str_eq(fl, "avif") || str_eq(fl, "webp") || str_eq(fl, "heic")
        || str_eq(fl, "png") || str_eq(fl, "jpg") || str_eq(fl, "jpeg");
    if !valid {
        push_msg(&mut errors, concat2("❌ Invalid target format: ", config.format.as_str()));
    }
    match config.quality {
        Some(q) => {
            if q < 1 || q > 100 {
                let mut m = owned("❌ Invalid quality parameter: ");
                push_decimal(&mut m, q as u64);
                m.append(" (should be 1-100)");
                push_msg(&mut errors, m);
            }
        },
        None => {},
    }
    match config.speed {
        Some(s) => {
            if s > 10 {
                let mut m = owned("❌ Invalid speed parameter: ");
                push_decimal(&mut m, s as u64);
                m.append(" (should be 0-10)");
                push_msg(&mut errors, m);
            }
        },
        None => {},
    }
    if config.lossless && (str_eq(fl, "jpg") || str_eq(fl, "jpeg")) {
        push_msg(&mut errors, owned("❌ JPEG format does not support lossless mode"));
    }
    assert(views(errors@) =~= parameter_errors(config@));
    errors
}

fn parameter_warning_list(config: &ConversionConfig, fl: &str, files: &[InputFile]) -> (warnings: Vec<String>)
    requires
        fl@ == lowercase(config.format@),
    ensures
        views(warnings@) == parameter_warnings(config@, files@),
{
    let mut warnings: Vec<String> = Vec::new();
    if str_eq(fl, "heic") {
        if any_transparent_exec(files) {
            push_msg(
                &mut warnings,
                owned("⚠️ HEIC does not support transparency, transparent backgrounds may change color"),
            );
        }
        if any_animated_exec(files) {
            push_msg(&mut warnings, owned("⚠️ HEIC does not support animation, animation effects will be lost"));
        }
    }
    if str_eq(fl, "avif") {
        if any_animated_exec(files) {
            push_msg(&mut warnings, owned("⚠️ AVIF animation support is limited, may require special encoder"));
        }
    }
    if str_eq(fl, "jxl") || str_eq(fl, "jpegxl") {
        match config.quality {
            Some(q) => {
                if q < 60 {
                    let mut m = owned("⚠️ JXL quality parameter is low (");
                    push_decimal(&mut m, q as u64);
                    m.append("), may affect visual quality");
                    push_msg(&mut warnings, m);
                }
            },
            None => {},
        }
    }
    assert(views(warnings@) =~= parameter_warnings(config@, files@));
    warnings
}

impl ConversionValidator {
    /// Level 1: every input file has a path, an extension and a readable
    /// entry in the file system; empty, huge and oddly named files are
    /// warned about.
    pub fn validate_input_files(files: &[InputFile], probes: &[FileProbe]) -> (res: ValidationResult)
        requires
            probes@.len() == files@.len(),
        ensures
            res@ == input_outcome(files@, probes@),
    {
        if files.len() == 0 {
            let mut errors: Vec<String> = Vec::new();
            push_msg(&mut errors, owned("❌ No files selected"));
            let r = ValidationResult::failure(1, errors);
            assert(r@.errors =~= seq!["❌ No files selected"@]);
            return r;
        }
        let mut errors: Vec<String> = Vec::new();
        let mut warnings: Vec<String> = Vec::new();
        let mut i: usize = 0;
        assert(views(errors@) =~= seq![]);
        assert(views(warnings@) =~= seq![]);
        while i < files.len()
            invariant
                i <= files@.len(),
                probes@.len() == files@.len(),
                files@.len() <= usize::MAX,
                views(errors@) == input_errors(files@, probes@, i as int),
                views(warnings@) == input_warnings(files@, i as int),
            decreases files@.len() - i,
        {
            check_file(i, &files[i], &probes[i], &mut errors, &mut warnings);
            i = i + 1;
        }
        if errors.len() == 0 {
            ValidationResult::success(1).with_warnings(warnings)
        } else {
            ValidationResult::failure(1, errors).with_warnings(warnings)
        }
    }

    /// Level 2: the target format, quality and speed are valid and fit the
    /// inputs.
    pub fn validate_parameters(config: &ConversionConfig, files: &[InputFile]) -> (res: ValidationResult)
        ensures
            res@ == parameter_outcome(config@, files@),
    {
        let lower = to_lower(config.format.as_str());
        let errors = parameter_error_list(config, lower.as_str());
        let warnings = parameter_warning_list(config, lower.as_str(), files);
        if errors.len() == 0 {
            ValidationResult::success(2).with_warnings(warnings)
        } else {
            ValidationResult::failure(2, errors).with_warnings(warnings)
        }
    }

    /// Level 3: the parameters fit the mode in which they were chosen.
    pub fn validate_mode_consistency(mode: ConversionMode, config: &ConversionConfig) -> (res: ValidationResult)
        ensures
            res@ == mode_outcome(mode, config@),
    {
        let mut errors: Vec<String> = Vec::new();
        let mut warnings: Vec<String> = Vec::new();
        match mode {
            ConversionMode::Manual => {
                if config.quality.is_none() {
                    push_msg(
                        &mut warnings,
                        owned("⚠️ Quality parameter not set in manual mode, will use default value"),
                    );
                }
                if config.format.unicode_len() == 0 {
                    push_msg(&mut errors, owned("❌ Target format must be specified in manual mode"));
                }
            },
            _ => {
                push_msg(&mut warnings, owned("⚠️ Smart mode will use AI predicted parameters"));
            },
        }
        proof {
            assert(views(errors@) =~= mode_outcome(mode, config@).errors);
            assert(views(warnings@) =~= mode_outcome(mode, config@).warnings);
        }
        if errors.len() == 0 {
            ValidationResult::success(3).with_warnings(warnings)
        } else {
            ValidationResult::failure(3, errors).with_warnings(warnings)
        }
    }

    /// Levels 1 to 3 in turn; stops at the first level that fails.
    pub fn validate_full_conversion(
        files: &[InputFile],
        probes: &[FileProbe],
        config: &ConversionConfig,
        mode: ConversionMode,
    ) -> (res: ValidationResult)
        requires
            probes@.len() == files@.len(),
        ensures
            res@ == full_outcome(files@, probes@, config@, mode),
    {
        let input = Self::validate_input_files(files, probes);
        if !input.valid {
            return input;
        }
        let params = Self::validate_parameters(config, files);
        if !params.valid {
            let mut result = params;
            append_msgs(&mut result.warnings, input.warnings);
            return result;
        }
        let mode_check = Self::validate_mode_consistency(mode, config);
        if !mode_check.valid {
            let mut result = mode_check;
            append_msgs(&mut result.warnings, input.warnings);
            append_msgs(&mut result.warnings, params.warnings);
            return result;
        }
        let mut all = input.warnings;
        append_msgs(&mut all, params.warnings);
        append_msgs(&mut all, mode_check.warnings);
        ValidationResult::success(3).with_warnings(all)
    }
}


/// Every still-image format of the supported-format table is a target that
/// level 2 accepts, under any of its names but `jpegxl`: with a quality of
/// 1-100 or none, a speed of at most 10 or none, and no lossless JPEG, the
/// parameters pass with no error.
pub proof fn law_supported_targets_pass_parameters(c: ConfigView, files: Seq<InputFile>)
    requires
        format_named(lowercase(c.format)) is Some,
        format_named(lowercase(c.format)) != Some(SupportedFormat::Gif),
        lowercase(c.format) != "jpegxl"@,
        match c.quality {
            Some(q) => 1 <= q <= 100,
            None => true,
        },
        match c.speed {
            Some(s) => s <= 10,
            None => true,
        },
        !(c.lossless && format_named(lowercase(c.format)) == Some(SupportedFormat::Jpeg)),
    ensures
        parameter_outcome(c, files).valid,
        parameter_outcome(c, files).errors.len() == 0,
{
    reveal_strlit("jpg");
    reveal_strlit("jpeg");
    reveal_strlit("png");
    reveal_strlit("webp");
    reveal_strlit("avif");
    reveal_strlit("jxl");
    reveal_strlit("jpegxl");
    reveal_strlit("gif");
    reveal_strlit("heic");
    let fl = lowercase(c.format);
    assert(is_valid_target(fl));
    assert(parameter_errors(c) =~= Seq::<Seq<char>>::empty());
}

/// Every target that level 2 accepts is named by the supported-format table
/// or is HEIC.
pub proof fn law_accepted_targets_are_known(f: Seq<char>)
    requires
        is_valid_target(f),
    ensures
        format_named(f) is Some || f == "heic"@,
{
}


/// A lossless conversion to a format of the supported-format table that
/// cannot store losslessly is refused at level 2.
pub proof fn law_lossless_needs_lossless_format(c: ConfigView, files: Seq<InputFile>, f: SupportedFormat)
    requires
        format_named(lowercase(c.format)) == Some(f),
        !f.lossless_spec(),
        c.lossless,
    ensures
        !parameter_outcome(c, files).valid,
{
    reveal_strlit("jpg");
    reveal_strlit("jpeg");
    reveal_strlit("gif");
    reveal_strlit("png");
    reveal_strlit("webp");
    reveal_strlit("avif");
    reveal_strlit("jxl");
    reveal_strlit("jpegxl");
    reveal_strlit("heic");
    let fl = lowercase(c.format);
    if f is Jpeg {
        assert(fl == "jpg"@ || fl == "jpeg"@);
        assert(parameter_errors(c).len() > 0);
    } else {
        assert(fl == "gif"@);
        assert(!is_valid_target(fl)) by {
            assert(fl.len() == 3 && fl[0] == 'g');
        }
        assert(parameter_errors(c).len() > 0);
    }
}

} // verus!
