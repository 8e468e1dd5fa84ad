//! Validation as the conversion flow uses it: the report lines shown for a
//! result, the validation of a batch one file at a time, and the warnings
//! specific to each target format.

use vstd::prelude::*;
use vstd::string::*;
use crate::text::{
    lowercase, to_lower, str_eq, owned, concat2, dec, push_decimal, push_fixed2, fixed2, views,
    push_msg,
};
use crate::text::{trim, trim_str};
use crate::preprocessing::{parse_u32, u32_text};
use crate::conversion_validator::{
    ValidationResult, Outcome, InputFile, FileProbe, ConversionConfig, ConfigView, ConversionMode,
    ConversionValidator, full_outcome,
};

verus! {

/// How loud a report line is.
#[derive(Debug, Clone, Copy, PartialEq, Eq, Structural)]
pub enum Severity {
    Info,
    Warn,
    Error,
}

/// One line of a validation report.
#[derive(Debug, Clone)]
pub struct ReportLine {
    pub severity: Severity,
    pub text: String,
}

/// The severities and texts of a list of report lines.
pub open spec fn lines_view(v: Seq<ReportLine>) -> Seq<(Severity, Seq<char>)> {
    v.map_values(|l: ReportLine| (l.severity, l.text@))
}

/// Each message as its own line, indented by one space.
pub open spec fn indented(sev: Severity, msgs: Seq<Seq<char>>) -> Seq<(Severity, Seq<char>)> {
    msgs.map_values(|m: Seq<char>| (sev, " "@ + m))
}

/// Each message as its own line, numbered from 1.
pub open spec fn numbered(msgs: Seq<Seq<char>>) -> Seq<(Severity, Seq<char>)> {
    msgs.map(|i: int, m: Seq<char>| (Severity::Info, " "@ + dec((i + 1) as nat) + ". "@ + m))
}

/// A line of `n` double rules.
pub open spec fn rule(n: nat) -> Seq<char> {
    Seq::new(n, |i: int| '═')
}

/// The lines shown for a result.
pub open spec fn result_lines(r: Outcome) -> Seq<(Severity, Seq<char>)> {
    if r.valid {
        seq![
            (Severity::Info, "✅ Validation passed"@),
            (Severity::Info, " Validation level: Level "@ + dec(r.level as nat)),
        ] + if r.warnings.len() > 0 {
            seq![(Severity::Info, "\n⚠️ Warnings:"@)] + indented(Severity::Info, r.warnings)
        } else {
            seq![]
        }
    } else {
        seq![
            (Severity::Error, "❌ Validation failed"@),
            (Severity::Error, " Failed at level: Level "@ + dec(r.level as nat)),
        ] + (if r.errors.len() > 0 {
            seq![(Severity::Error, "\nErrors:"@)] + indented(Severity::Error, r.errors)
        } else {
            seq![]
        }) + if r.warnings.len() > 0 {
            seq![(Severity::Warn, "\nWarnings:"@)] + indented(Severity::Warn, r.warnings)
        } else {
            seq![]
        }
    }
}

/// The lines of the detailed report of a result.
pub open spec fn report_lines(r: Outcome) -> Seq<(Severity, Seq<char>)> {
    seq![
        (Severity::Info, "\n"@ + rule(60)),
        (Severity::Info, " Validation Report"@),
        (Severity::Info, rule(60)),
        (Severity::Info, "Status: "@ + if r.valid { "Passed ✅"@ } else { "Failed ❌"@ }),
        (Severity::Info, "Level: Level "@ + dec(r.level as nat)),
    ] + (if r.errors.len() > 0 {
        seq![(Severity::Info, "\nError List:"@)] + numbered(r.errors)
    } else {
        seq![]
    }) + (if r.warnings.len() > 0 {
        seq![(Severity::Info, "\nWarning List:"@)] + numbered(r.warnings)
    } else {
        seq![]
    }) + seq![(Severity::Info, rule(60))]
}

/// The one-line summary of a result.
pub open spec fn summary_line(r: Outcome) -> Seq<char> {
    (if r.valid { "✅ "@ } else { "❌ "@ }) + (if r.warnings.len() > 0 {
        "⚠️ "@ + dec(r.warnings.len()) + " warnings "@
    } else {
        seq![]
    }) + if r.errors.len() > 0 {
        "❌ "@ + dec(r.errors.len()) + " errors "@
    } else {
        seq![]
    }
}

fn push_line(v: &mut Vec<ReportLine>, severity: Severity, text: String)
    ensures
        lines_view(final(v)@) == lines_view(old(v)@).push((severity, text@)),
{
    v.push(ReportLine { severity, text });
    assert(lines_view(final(v)@) =~= lines_view(old(v)@).push((severity, text@)));
}

fn push_indented(v: &mut Vec<ReportLine>, severity: Severity, msgs: &Vec<String>)
    ensures
        lines_view(final(v)@) == lines_view(old(v)@) + indented(severity, views(msgs@)),
{
    let ghost start = lines_view(v@);
    let mut i: usize = 0;
    while i < msgs.len()
        invariant
            i <= msgs@.len(),
            lines_view(v@) == start + indented(severity, views(msgs@.subrange(0, i as int))),
        decreases msgs@.len() - i,
    {
        push_line(v, severity, concat2(" ", msgs[i].as_str()));
        i = i + 1;
        assert(indented(severity, views(msgs@.subrange(0, i as int))) =~= indented(
            severity,
            views(msgs@.subrange(0, i - 1)),
        ).push((severity, " "@ + msgs@[i - 1]@)));
        assert(lines_view(v@) =~= start + indented(severity, views(msgs@.subrange(0, i as int))));
    }
    assert(msgs@.subrange(0, msgs@.len() as int) =~= msgs@);
}

fn push_numbered(v: &mut Vec<ReportLine>, msgs: &Vec<String>)
    ensures
        lines_view(final(v)@) == lines_view(old(v)@) + numbered(views(msgs@)),
{
    let ghost start = lines_view(v@);
    let mut i: usize = 0;
    while i < msgs.len()
        invariant
            i <= msgs.len(),
            lines_view(v@) == start + numbered(views(msgs@.subrange(0, i as int))),
        decreases msgs@.len() - i,
    {
        let mut t = owned(" ");
        push_decimal(&mut t, (i + 1) as u64);
        t.append(". ");
        t.append(msgs[i].as_str());
        push_line(v, Severity::Info, t);
        i = i + 1;
        assert(numbered(views(msgs@.subrange(0, i as int))) =~= numbered(views(msgs@.subrange(0, i - 1))).push(
            (Severity::Info, " "@ + dec(i as nat) + ". "@ + msgs@[i - 1]@),
        ));
        assert(lines_view(v@) =~= start + numbered(views(msgs@.subrange(0, i as int))));
    }
    assert(msgs@.subrange(0, msgs@.len() as int) =~= msgs@);
}

fn make_rule(n: usize) -> (res: String)
    ensures
        res@ == rule(n as nat),
{
    let mut s = String::new();
    let mut i: usize = 0;
    while i < n
        invariant
            i <= n,
            s@ == rule(i as nat),
        decreases n - i,
    {
        crate::text::push_char(&mut s, '═');
        i = i + 1;
        assert(s@ =~= rule(i as nat));
    }
    s
}

/// The report lines of validation results.
pub struct ValidationDisplay;

impl ValidationDisplay {
    /// The lines that show a result: its verdict and level, then its errors
    /// and warnings, one per line.
    pub fn display_result(result: &ValidationResult) -> (res: Vec<ReportLine>)
        ensures
            lines_view(res@) == result_lines(result@),
    {
        let mut out: Vec<ReportLine> = Vec::new();
        if result.valid {
            push_line(&mut out, Severity::Info, owned("✅ Validation passed"));
            let mut t = owned(" Validation level: Level ");
            push_decimal(&mut t, result.level as u64);
            push_line(&mut out, Severity::Info, t);
            if result.warnings.len() > 0 {
                push_line(&mut out, Severity::Info, owned("\n⚠️ Warnings:"));
                push_indented(&mut out, Severity::Info, &result.warnings);
            }
        } else {
            push_line(&mut out, Severity::Error, owned("❌ Validation failed"));
            let mut t = owned(" Failed at level: Level ");
            push_decimal(&mut t, result.level as u64);
            push_line(&mut out, Severity::Error, t);
            if result.errors.len() > 0 {
                push_line(&mut out, Severity::Error, owned("\nErrors:"));
                push_indented(&mut out, Severity::Error, &result.errors);
            }
            if result.warnings.len() > 0 {
                push_line(&mut out, Severity::Warn, owned("\nWarnings:"));
                push_indented(&mut out, Severity::Warn, &result.warnings);
            }
        }
        assert(lines_view(out@) =~= result_lines(result@));
        out
    }

    /// The one-line summary: the verdict, then the counts of warnings and
    /// errors when there are any.
    pub fn display_summary(result: &ValidationResult) -> (res: String)
        ensures
            res@ == summary_line(result@),
    {
        let mut s = if result.valid { owned("✅ ") } else { owned("❌ ") };
        if result.warnings.len() > 0 {
            s.append("⚠️ ");
            push_decimal(&mut s, result.warnings.len() as u64);
            s.append(" warnings ");
        }
        if result.errors.len() > 0 {
            s.append("❌ ");
            push_decimal(&mut s, result.errors.len() as u64);
            s.append(" errors ");
        }
        assert(s@ =~= summary_line(result@));
        s
    }

    /// The detailed report: a framed header, the status and level, then the
    /// numbered errors and warnings.
    pub fn display_detailed_report(result: &ValidationResult) -> (res: Vec<ReportLine>)
        ensures
            lines_view(res@) == report_lines(result@),
    {
        let mut out: Vec<ReportLine> = Vec::new();
        push_line(&mut out, Severity::Info, concat2("\n", make_rule(60).as_str()));
        push_line(&mut out, Severity::Info, owned(" Validation Report"));
        push_line(&mut out, Severity::Info, make_rule(60));
        let status = if result.valid { "Passed ✅" } else { "Failed ❌" };
        push_line(&mut out, Severity::Info, concat2("Status: ", status));
        let mut t = owned("Level: Level ");
        push_decimal(&mut t, result.level as u64);
        push_line(&mut out, Severity::Info, t);
        if result.errors.len() > 0 {
            push_line(&mut out, Severity::Info, owned("\nError List:"));
            push_numbered(&mut out, &result.errors);
        }
        if result.warnings.len() > 0 {
            push_line(&mut out, Severity::Info, owned("\nWarning List:"));
            push_numbered(&mut out, &result.warnings);
        }
        push_line(&mut out, Severity::Info, make_rule(60));
        assert(lines_view(out@) =~= report_lines(result@));
        out
    }
}

fn copy_input(f: &InputFile) -> (r: InputFile)
    ensures
        r == *f,
{
    InputFile {
        file_path: f.file_path.clone(),
        name: f.name.clone(),
        ext: f.ext.clone(),
        size: f.size,
        is_animated: f.is_animated,
    }
}

fn copy_probe(p: &FileProbe) -> (r: FileProbe)
    ensures
        r == *p,
{
    let metadata_error = match &p.metadata_error {
        Some(e) => Some(e.clone()),
        None => None,
    };
    FileProbe { exists: p.exists, metadata_error }
}

/// Whether an input is animated: more than one frame where ffprobe
/// counted its frames (its output, trimmed, is a number), else by its
/// extension (with the dot), lower-cased: GIF, APNG or WebP.
pub open spec fn animated_spec(frames_output: Option<Seq<char>>, ext: Seq<char>) -> bool {
    match frames_output {
        Some(o) if u32_text(trim(o)) is Some => u32_text(trim(o))->0 > 1,
        _ => {
            let e = lowercase(ext);
            e == ".gif"@ || e == ".apng"@ || e == ".webp"@
        },
    }
}

/// Validation steps of the conversion flow.
pub struct ConversionFlowValidator;

/// The configuration a batch validation uses for every file.
pub open spec fn batch_config(target_format: Seq<char>, quality: Option<u32>, speed: Option<u32>, lossless: bool) -> ConfigView {
    ConfigView { format: target_format, quality, speed, lossless }
}

impl ConversionFlowValidator {
    /// Whether an input is animated, from the frame count ffprobe printed
    /// (where it ran successfully and printed text) and its extension.
    pub fn detect_animation_heuristic(frames_output: Option<&str>, ext: &str) -> (res: bool)
        ensures
            res == animated_spec(
                match frames_output {
                    Some(o) => Some(o@),
                    None => None,
                },
                ext@,
            ),
    {
        if let Some(o) = frames_output {
            let t = trim_str(o);
            if let Some(frames) = parse_u32(t.as_str()) {
                return frames > 1;
            }
        }
        let e = to_lower(ext);
        str_eq(e.as_str(), ".gif") || str_eq(e.as_str(), ".apng") || str_eq(e.as_str(), ".webp")
    }

    /// Validates each file on its own, in manual mode, against the same
    /// target settings. `files[i]` is the input read from `input_paths[i]`,
    /// or `None` where its metadata could not be read; the first such path
    /// fails the whole batch with `Cannot read file: <path>`.
    pub fn validate_batch(
        input_paths: &[String],
        files: &[Option<InputFile>],
        probes: &[FileProbe],
        target_format: &str,
        quality: Option<u32>,
        speed: Option<u32>,
        lossless: bool,
    ) -> (res: Result<Vec<ValidationResult>, String>)
        requires
            files@.len() == input_paths@.len(),
            probes@.len() == input_paths@.len(),
        ensures
            match res {
                Err(m) => exists|i: int|
                    0 <= i < files@.len() && files@[i] is None && (forall|j: int| 0 <= j < i ==> #[trigger] files@[j] is Some)
                        && m@ == "Cannot read file: "@ + input_paths@[i]@,
                Ok(v) => {
                    &&& forall|i: int| 0 <= i < files@.len() ==> #[trigger] files@[i] is Some
                    &&& v@.len() == files@.len()
                    &&& forall|i: int|
                        0 <= i < files@.len() ==> (#[trigger] v@[i])@ == full_outcome(
                            seq![files@[i].unwrap()],
                            seq![probes@[i]],
                            batch_config(target_format@, quality, speed, lossless),
                            ConversionMode::Manual,
                        )
                },
            },
    {
        let config = ConversionConfig { format: owned(target_format), quality, speed, lossless };
        let mut out: Vec<ValidationResult> = Vec::new();
        let mut i: usize = 0;
        while i < files.len()
            invariant
                i <= files@.len(),
                files@.len() == input_paths@.len(),
                probes@.len() == files@.len(),
                config@ == batch_config(target_format@, quality, speed, lossless),
                out@.len() == i,
                forall|j: int| 0 <= j < i ==> #[trigger] files@[j] is Some,
                forall|j: int|
                    0 <= j < i ==> (#[trigger] out@[j])@ == full_outcome(
                        seq![files@[j].unwrap()],
                        seq![probes@[j]],
                        batch_config(target_format@, quality, speed, lossless),
                        ConversionMode::Manual,
                    ),
            decreases files@.len() - i,
        {
            match &files[i] {
                None => {
                    return Err(concat2("Cannot read file: ", input_paths[i].as_str()));
                },
                Some(f) => {
                    let one = vec![copy_input(f)];
                    let probe = vec![copy_probe(&probes[i])];
                    assert(one@ =~= seq![files@[i as int].unwrap()]);
                    assert(probe@ =~= seq![probes@[i as int]]);
                    let r = ConversionValidator::validate_full_conversion(
                        one.as_slice(),
                        probe.as_slice(),
                        &config,
                        ConversionMode::Manual,
                    );
                    out.push(r);
                },
            }
            i = i + 1;
        }
        Ok(out)
    }
}

// ───────────────────────── format-specific checks ─────────────────────────

/// `⚠️ File name is large (x.xx MB), tail` for each file over `limit` bytes,
/// among the first `k` files.
pub open spec fn large_file_warnings(files: Seq<InputFile>, k: int, limit: nat, tail: Seq<char>) -> Seq<Seq<char>>
    decreases k,
{
    if k <= 0 {
        seq![]
    } else {
        let f = files[k - 1];
        large_file_warnings(files, k - 1, limit, tail) + if f.size > limit {
            seq!["⚠️ File "@ + f.name@ + " is large ("@ + fixed2(f.size as nat, 1048576) + " MB), "@ + tail]
        } else {
            seq![]
        }
    }
}

/// The resolution warnings of AVIF for the first `k` files.
pub open spec fn avif_resolution_warnings(files: Seq<InputFile>, k: int) -> Seq<Seq<char>>
    decreases k,
{
    if k <= 0 {
        seq![]
    } else {
        let f = files[k - 1];
        avif_resolution_warnings(files, k - 1) + if f.size / 3 > 16000000 {
            seq!["⚠️ File "@ + f.name@ + " has high resolution, AVIF encoding may take longer"@]
        } else {
            seq![]
        }
    }
}

/// Some input is a JPEG by its lower-cased extension.
pub open spec fn any_jpeg(files: Seq<InputFile>) -> bool {
    exists|i: int|
        0 <= i < files.len() && {
            let e = lowercase(#[trigger] files[i].ext@);
            e == ".jpg"@ || e == ".jpeg"@
        }
}

pub open spec fn webp_warnings(files: Seq<InputFile>, c: ConfigView) -> Seq<Seq<char>> {
    large_file_warnings(files, files.len() as int, 16777216, "WebP encoding may be slow"@) + match c.quality {
        Some(q) if q < 70 => seq![
            "⚠️ WebP quality setting is low ("@ + dec(q as nat) + "), may show visible compression artifacts"@,
        ],
        _ => seq![],
    }
}

pub open spec fn avif_warnings(files: Seq<InputFile>, c: ConfigView) -> Seq<Seq<char>> {
    (if exists|i: int| 0 <= i < files.len() && (#[trigger] files[i]).is_animated {
        seq!["⚠️ AVIF animation support is limited, recommend using WebP or GIF"@]
    } else {
        seq![]
    }) + (match c.speed {
        Some(s) if s > 6 => seq![
            "⚠️ AVIF speed setting is high ("@ + dec(s as nat) + "), may affect compression efficiency"@,
        ],
        _ => seq![],
    }) + avif_resolution_warnings(files, files.len() as int)
}

pub open spec fn jxl_warnings(files: Seq<InputFile>, c: ConfigView) -> Seq<Seq<char>> {
    (if any_jpeg(files) && !c.lossless {
        seq!["💡 Tip: JPEG → JXL recommend using lossless mode to utilize JPEG repackaging"@]
    } else {
        seq![]
    }) + match c.quality {
        Some(q) if q < 60 => seq![
            "⚠️ JXL quality setting is low ("@ + dec(q as nat) + "), may not be better than WebP or AVIF"@,
        ],
        _ => seq![],
    }
}

pub open spec fn png_warnings(files: Seq<InputFile>) -> Seq<Seq<char>> {
    large_file_warnings(files, files.len() as int, 10485760, "PNG compression may take longer"@)
}

/// The checks of the configured target format.
pub open spec fn all_format_warnings(files: Seq<InputFile>, c: ConfigView) -> Seq<Seq<char>> {
    let f = lowercase(c.format);
    if f == "webp"@ {
        webp_warnings(files, c)
    } else if f == "avif"@ {
        avif_warnings(files, c)
    } else if f == "jxl"@ || f == "jpegxl"@ {
        jxl_warnings(files, c)
    } else if f == "png"@ {
        png_warnings(files)
    } else {
        seq![]
    }
}

fn push_large_file_warnings(out: &mut Vec<String>, files: &[InputFile], limit: u64, tail: &str)
    ensures
        views(final(out)@) == views(old(out)@) + large_file_warnings(files@, files@.len() as int, limit as nat, tail@),
{
    let ghost start = views(out@);
    let mut i: usize = 0;
    while i < files.len()
        invariant
            i <= files@.len(),
            views(out@) == start + large_file_warnings(files@, i as int, limit as nat, tail@),
        decreases files@.len() - i,
    {
        let f = &files[i];
        if f.size > limit {
            let mut m = concat2("⚠️ File ", f.name.as_str());
            m.append(" is large (");
            push_fixed2(&mut m, f.size, 1048576);
            m.append(" MB), ");
            m.append(tail);
            push_msg(out, m);
        }
        i = i + 1;
        assert(views(out@) =~= start + large_file_warnings(files@, i as int, limit as nat, tail@));
    }
}

/// Warnings specific to each target format.
pub struct FormatSpecificChecks;

impl FormatSpecificChecks {
    /// WebP: large inputs and low quality.
    pub fn check_webp(files: &[InputFile], config: &ConversionConfig) -> (res: Vec<String>)
        ensures
            views(res@) == webp_warnings(files@, config@),
    {
        let mut out: Vec<String> = Vec::new();
        assert(views(out@) =~= seq![]);
        push_large_file_warnings(&mut out, files, 16777216, "WebP encoding may be slow");
        match config.quality {
            Some(q) => {
                if q < 70 {
                    let mut m = owned("⚠️ WebP quality setting is low (");
                    push_decimal(&mut m, q as u64);
                    m.append("), may show visible compression artifacts");
                    push_msg(&mut out, m);
                }
            },
            None => {},
        }
        assert(views(out@) =~= webp_warnings(files@, config@));
        out
    }

    /// AVIF: animation, high speed and high resolution.
    pub fn check_avif(files: &[InputFile], config: &ConversionConfig) -> (res: Vec<String>)
        ensures
            views(res@) == avif_warnings(files@, config@),
    {
        let mut out: Vec<String> = Vec::new();
        let mut animated = false;
        let mut i: usize = 0;
        while i < files.len()
            invariant
                i <= files@.len(),
                animated == exists|j: int| 0 <= j < i && (#[trigger] files@[j]).is_animated,
            decreases files@.len() - i,
        {
            if files[i].is_animated {
                animated = true;
            }
            i = i + 1;
        }
        if animated {
            push_msg(&mut out, owned("⚠️ AVIF animation support is limited, recommend using WebP or GIF"));
        }
        match config.speed {
            Some(s) => {
                if s > 6 {
                    let mut m = owned("⚠️ AVIF speed setting is high (");
                    push_decimal(&mut m, s as u64);
                    m.append("), may affect compression efficiency");
                    push_msg(&mut out, m);
                }
            },
            None => {},
        }
        let ghost mid = views(out@);
        let mut k: usize = 0;
        while k < files.len()
            invariant
                k <= files@.len(),
                views(out@) == mid + avif_resolution_warnings(files@, k as int),
            decreases files@.len() - k,
        {
            let f = &files[k];
            if f.size / 3 > 16000000 {
                let mut m = concat2("⚠️ File ", f.name.as_str());
                m.append(" has high resolution, AVIF encoding may take longer");
                push_msg(&mut out, m);
            }
            k = k + 1;
            assert(views(out@) =~= mid + avif_resolution_warnings(files@, k as int));
        }
        assert(views(out@) =~= avif_warnings(files@, config@));
        out
    }

    /// JPEG XL: JPEG inputs that lossless recompression would suit, and low quality.
    pub fn check_jxl(files: &[InputFile], config: &ConversionConfig) -> (res: Vec<String>)
        ensures
            views(res@) == jxl_warnings(files@, config@),
    {
        let mut out: Vec<String> = Vec::new();
        let mut has_jpeg = false;
        let mut i: usize = 0;
        while i < files.len()
            invariant
                i <= files@.len(),
                has_jpeg == exists|j: int|
                    0 <= j < i && {
                        let e = lowercase(#[trigger] files@[j].ext@);
                        e == ".jpg"@ || e == ".jpeg"@
                    },
            decreases files@.len() - i,
        {
            let e = to_lower(files[i].ext.as_str());
            if str_eq(e.as_str(), ".jpg") || str_eq(e.as_str(), ".jpeg") {
                has_jpeg = true;
            }
            i = i + 1;
        }
        if has_jpeg && !config.lossless {
            push_msg(&mut out, owned("💡 Tip: JPEG → JXL recommend using lossless mode to utilize JPEG repackaging"));
        }
        match config.quality {
            Some(q) => {
                if q < 60 {
                    let mut m = owned("⚠️ JXL quality setting is low (");
                    push_decimal(&mut m, q as u64);
                    m.append("), may not be better than WebP or AVIF");
                    push_msg(&mut out, m);
                }
            },
            None => {},
        }
        assert(views(out@) =~= jxl_warnings(files@, config@));
        out
    }

    /// PNG: large inputs.
    pub fn check_png(files: &[InputFile], _config: &ConversionConfig) -> (res: Vec<String>)
        ensures
            views(res@) == png_warnings(files@),
    {
        let mut out: Vec<String> = Vec::new();
        assert(views(out@) =~= seq![]);
        push_large_file_warnings(&mut out, files, 10485760, "PNG compression may take longer");
        assert(views(out@) =~= png_warnings(files@));
        out
    }

    /// The checks of the configured target format; none for other formats.
    pub fn check_all(files: &[InputFile], config: &ConversionConfig) -> (res: Vec<String>)
        ensures
            views(res@) == all_format_warnings(files@, config@),
    {
        let lower = to_lower(config.format.as_str());
        let f = lower.as_str();
        if str_eq(f, "webp") {
            Self::check_webp(files, config)
        } else if str_eq(f, "avif") {
            Self::check_avif(files, config)
        } else if str_eq(f, "jxl") || str_eq(f, "jpegxl") {
            Self::check_jxl(files, config)
        } else if str_eq(f, "png") {
            Self::check_png(files, config)
        } else {
            let out: Vec<String> = Vec::new();
            assert(views(out@) =~= seq![]);
            out
        }
    }
}

} // verus!
