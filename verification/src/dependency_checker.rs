//! The external tools the converter relies on (exiftool, ffmpeg, ffprobe,
//! the JPEG XL and AVIF command-line tools): which are required, where to
//! look for them, how to read their version, and what a check of them all
//! concludes. Running the tools and looking at the file system is the
//! caller's; it hands the outcomes in as plain values.

use vstd::prelude::*;
use crate::text::{
    contains_str, first_line, first_line_of, first_line_trimmed, first_line_trimmed_of, has_sub, owned,
    concat2, str_eq,
};

verus! {

/// An external tool.
#[derive(Debug, Clone)]
pub struct Dependency {
    pub name: &'static str,
    pub required: bool,
    pub description: &'static str,
    pub install_hint: &'static str,
}

/// What a check of one tool found.
#[derive(Debug)]
pub struct CheckResult {
    pub name: &'static str,
    pub available: bool,
    pub version: Option<String>,
}

/// What the caller found out about one tool before it is judged.
///
/// `located` says whether the tool's dedicated search found it (for ffmpeg
/// and exiftool their own search; for ffprobe, a copy beside the ffmpeg
/// that was found), and `located_version` is what that copy printed for
/// its version. `on_path` says whether `<name> --version` ran successfully
/// from the search path, and `path_version` is the first line it printed.
#[derive(Debug, Clone)]
pub struct ToolLookup {
    pub located: bool,
    pub located_version: Option<String>,
    pub on_path: bool,
    pub path_version: Option<String>,
}

/// The installation hint for a tool on an operating system (named as
/// `std::env::consts::OS` names it).
pub open spec fn install_hint_spec(os: Seq<char>, tool: Seq<char>) -> Seq<char> {
    if os == "macos"@ {
        if tool == "exiftool"@ {
            "macOS: brew install exiftool"@
        } else if tool == "ffmpeg"@ {
            "macOS: brew install ffmpeg"@
        } else if tool == "cjxl"@ {
            "macOS: brew install jpeg-xl"@
        } else if tool == "avifenc"@ {
            "macOS: brew install libavif"@
        } else {
            "请查看官方文档"@
        }
    } else if os == "windows"@ {
        if tool == "exiftool"@ {
            "Windows: 下载 https://exiftool.org/"@
        } else if tool == "ffmpeg"@ {
            "Windows: 下载 https://ffmpeg.org/"@
        } else if tool == "cjxl"@ {
            "Windows: 下载 https://github.com/libjxl/libjxl/releases"@
        } else if tool == "avifenc"@ {
            "Windows: 下载 https://github.com/AOMediaCodec/libavif/releases"@
        } else {
            "请查看官方文档"@
        }
    } else if os == "linux"@ {
        if tool == "exiftool"@ {
            "Linux: sudo apt install libimage-exiftool-perl"@
        } else if tool == "ffmpeg"@ {
            "Linux: sudo apt install ffmpeg"@
        } else if tool == "cjxl"@ {
            "Linux: sudo apt install libjxl-tools"@
        } else if tool == "avifenc"@ {
            "Linux: sudo apt install libavif-bin"@
        } else {
            "请查看官方文档"@
        }
    } else {
        "请查看官方文档"@
    }
}

/// The installation hint for a tool on an operating system.
pub fn get_install_hint(os: &str, tool: &str) -> (res: &'static str)
    ensures
        res@ == install_hint_spec(os@, tool@),
{
    if str_eq(os, "macos") {
        if str_eq(tool, "exiftool") {
            "macOS: brew install exiftool"
        } else if str_eq(tool, "ffmpeg") {
            "macOS: brew install ffmpeg"
        } else if str_eq(tool, "cjxl") {
            "macOS: brew install jpeg-xl"
        } else if str_eq(tool, "avifenc") {
            "macOS: brew install libavif"
        } else {
            "请查看官方文档"
        }
    } else if str_eq(os, "windows") {
        if str_eq(tool, "exiftool") {
            "Windows: 下载 https://exiftool.org/"
        } else if str_eq(tool, "ffmpeg") {
            "Windows: 下载 https://ffmpeg.org/"
        } else if str_eq(tool, "cjxl") {
            "Windows: 下载 https://github.com/libjxl/libjxl/releases"
        } else if str_eq(tool, "avifenc") {
            "Windows: 下载 https://github.com/AOMediaCodec/libavif/releases"
        } else {
            "请查看官方文档"
        }
    } else if str_eq(os, "linux") {
        if str_eq(tool, "exiftool") {
            "Linux: sudo apt install libimage-exiftool-perl"
        } else if str_eq(tool, "ffmpeg") {
            "Linux: sudo apt install ffmpeg"
        } else if str_eq(tool, "cjxl") {
            "Linux: sudo apt install libjxl-tools"
        } else if str_eq(tool, "avifenc") {
            "Linux: sudo apt install libavif-bin"
        } else {
            "请查看官方文档"
        }
    } else {
        "请查看官方文档"
    }
}

/// The entry of the tool list at `i`: its name, whether it is required,
/// its description, and the tool whose installation hint it shows.
pub open spec fn dependency_entry(i: int) -> (Seq<char>, bool, Seq<char>, Seq<char>) {
    if i == 0 {
        ("exiftool"@, true, "元数据处理（EXIF/XMP/ICC）"@, "exiftool"@)
    } else if i == 1 {
        ("ffmpeg"@, false, "视频转换和GIF分析"@, "ffmpeg"@)
    } else if i == 2 {
        ("ffprobe"@, false, "视频信息获取"@, "ffmpeg"@)
    } else if i == 3 {
        ("cjxl"@, false, "JPEG XL编码"@, "cjxl"@)
    } else if i == 4 {
        ("djxl"@, false, "JPEG XL解码"@, "cjxl"@)
    } else if i == 5 {
        ("avifenc"@, false, "AVIF编码"@, "avifenc"@)
    } else {
        ("avifdec"@, false, "AVIF解码"@, "avifenc"@)
    }
}

/// `d` is the entry of the tool list at `i` on operating system `os`.
pub open spec fn is_entry(d: Dependency, os: Seq<char>, i: int) -> bool {
    let (name, required, description, hint_tool) = dependency_entry(i);
    &&& d.name@ == name
    &&& d.required == required
    &&& d.description@ == description
    &&& d.install_hint@ == install_hint_spec(os, hint_tool)
}

/// The tools, in the order they are checked and reported: exiftool
/// (required), then ffmpeg, ffprobe, cjxl, djxl, avifenc and avifdec
/// (optional), with the installation hints for `os`.
pub fn get_dependencies(os: &str) -> (res: Vec<Dependency>)
    ensures
        res@.len() == 7,
        forall|i: int| 0 <= i < 7 ==> is_entry(#[trigger] res@[i], os@, i),
{
    let v = vec![
        Dependency {
            name: "exiftool",
            required: true,
            description: "元数据处理（EXIF/XMP/ICC）",
            install_hint: get_install_hint(os, "exiftool"),
        },
        Dependency {
            name: "ffmpeg",
            required: false,
            description: "视频转换和GIF分析",
            install_hint: get_install_hint(os, "ffmpeg"),
        },
        Dependency {
            name: "ffprobe",
            required: false,
            description: "视频信息获取",
            install_hint: get_install_hint(os, "ffmpeg"),
        },
        Dependency {
            name: "cjxl",
            required: false,
            description: "JPEG XL编码",
            install_hint: get_install_hint(os, "cjxl"),
        },
        Dependency {
            name: "djxl",
            required: false,
            description: "JPEG XL解码",
            install_hint: get_install_hint(os, "cjxl"),
        },
        Dependency {
            name: "avifenc",
            required: false,
            description: "AVIF编码",
            install_hint: get_install_hint(os, "avifenc"),
        },
        Dependency {
            name: "avifdec",
            required: false,
            description: "AVIF解码",
            install_hint: get_install_hint(os, "avifenc"),
        },
    ];
    assert(is_entry(v@[0], os@, 0));
    assert(is_entry(v@[1], os@, 1));
    assert(is_entry(v@[2], os@, 2));
    assert(is_entry(v@[3], os@, 3));
    assert(is_entry(v@[4], os@, 4));
    assert(is_entry(v@[5], os@, 5));
    assert(is_entry(v@[6], os@, 6));
    v
}

/// Whether a tool is judged available, and with which version text.
///
/// ffmpeg and exiftool count only where their own search found them;
/// ffprobe counts where it lies beside the ffmpeg that was found, and else
/// where it runs from the search path; any other tool counts where it runs
/// from the search path. A version read from the search path is kept only
/// where the tool ran successfully there (a failed run prints none).
pub open spec fn check_spec(name: Seq<char>, l: ToolLookup) -> (bool, Option<String>) {
    if name == "ffmpeg"@ || name == "exiftool"@ {
        if l.located {
            (true, l.located_version)
        } else {
            (false, None)
        }
    } else if name == "ffprobe"@ {
        if l.located {
            (true, l.located_version)
        } else {
            (l.on_path, if l.on_path { l.path_version } else { None })
        }
    } else {
        (l.on_path, if l.on_path { l.path_version } else { None })
    }
}

fn copy_text(v: &Option<String>) -> (res: Option<String>)
    ensures
        res == *v,
{
    match v {
        Some(s) => Some(s.clone()),
        None => None,
    }
}

impl Dependency {
    /// Judges this tool from what was found out about it.
    pub fn check(&self, lookup: &ToolLookup) -> (res: CheckResult)
        ensures
            res.name == self.name,
            (res.available, res.version) == check_spec(self.name@, *lookup),
            res.version is Some ==> res.available,
    {
        let (available, version) = if str_eq(self.name, "ffmpeg") || str_eq(self.name, "exiftool") {
            if lookup.located {
                (true, copy_text(&lookup.located_version))
            } else {
                (false, None)
            }
        } else if str_eq(self.name, "ffprobe") {
            if lookup.located {
                (true, copy_text(&lookup.located_version))
            } else {
                let version = if lookup.on_path { copy_text(&lookup.path_version) } else { None };
                (lookup.on_path, version)
            }
        } else {
            let available = lookup.on_path;
            let version = if available { copy_text(&lookup.path_version) } else { None };
            (available, version)
        };
        CheckResult { name: self.name, available, version }
    }
}

/// Judges every tool, each from its own lookup.
pub fn check_all_dependencies(deps: &[Dependency], lookups: &[ToolLookup]) -> (res: Vec<CheckResult>)
    requires
        deps@.len() == lookups@.len(),
    ensures
        res@.len() == deps@.len(),
        forall|i: int|
            0 <= i < deps@.len() ==> (#[trigger] res@[i]).name == deps@[i].name && (res@[i].available, res@[i].version)
                == check_spec(deps@[i].name@, lookups@[i]) && (res@[i].version is Some ==> res@[i].available),
{
    let mut out: Vec<CheckResult> = Vec::new();
    let mut i: usize = 0;
    while i < deps.len()
        invariant
            i <= deps@.len(),
            deps@.len() == lookups@.len(),
            out@.len() == i,
            forall|j: int|
                0 <= j < i ==> (#[trigger] out@[j]).name == deps@[j].name && (out@[j].available, out@[j].version)
                    == check_spec(deps@[j].name@, lookups@[j]),
        decreases deps@.len() - i,
    {
        let r = deps[i].check(&lookups[i]);
        out.push(r);
        i = i + 1;
    }
    out
}

/// Every required tool is available.
pub open spec fn required_all_available(deps: Seq<Dependency>, available: Seq<bool>) -> bool {
    forall|i: int| 0 <= i < deps.len() && (#[trigger] deps[i]).required ==> available[i]
}

/// Whether every required tool is available, where `available[i]` says
/// whether tool `i` runs from the search path.
pub fn check_required_dependencies_quiet(deps: &[Dependency], available: &[bool]) -> (res: bool)
    requires
        deps@.len() == available@.len(),
    ensures
        res == required_all_available(deps@, available@),
{
    let mut i: usize = 0;
    while i < deps.len()
        invariant
            i <= deps@.len(),
            deps@.len() == available@.len(),
            forall|j: int| 0 <= j < i && (#[trigger] deps@[j]).required ==> available@[j],
        decreases deps@.len() - i,
    {
        if deps[i].required && !available[i] {
            return false;
        }
        i = i + 1;
    }
    true
}

/// What a check of all tools concludes: whether every required tool is
/// available, and the names of the optional tools that are missing, in
/// order.
pub fn summarize_checks(deps: &[Dependency], results: &[CheckResult]) -> (res: (bool, Vec<&'static str>))
    requires
        deps@.len() == results@.len(),
    ensures
        res.0 == (forall|i: int| 0 <= i < deps@.len() && (#[trigger] deps@[i]).required ==> results@[i].available),
        res.1@ == missing_optional(deps@, results@, deps@.len() as int),
{
    let mut ok = true;
    let mut missing: Vec<&'static str> = Vec::new();
    let mut i: usize = 0;
    while i < deps.len()
        invariant
            i <= deps@.len(),
            deps@.len() == results@.len(),
            ok == (forall|j: int| 0 <= j < i && (#[trigger] deps@[j]).required ==> results@[j].available),
            missing@ == missing_optional(deps@, results@, i as int),
        decreases deps@.len() - i,
    {
        if !results[i].available {
            if deps[i].required {
                ok = false;
            } else {
                missing.push(results[i].name);
            }
        }
        i = i + 1;
    }
    (ok, missing)
}

/// The names of the optional tools among the first `k` that were not found.
pub open spec fn missing_optional(deps: Seq<Dependency>, results: Seq<CheckResult>, k: int) -> Seq<&'static str>
    decreases k,
{
    if k <= 0 {
        Seq::empty()
    } else {
        let prev = missing_optional(deps, results, k - 1);
        if !results[k - 1].available && !deps[k - 1].required {
            prev.push(results[k - 1].name)
        } else {
            prev
        }
    }
}

/// The arguments that make a tool print its version, chosen by its path:
/// `-ver` for exiftool, `-version` for ffmpeg and ffprobe, else `--version`.
pub open spec fn version_flag(path: Seq<char>) -> Seq<char> {
    if has_sub(path, "exiftool"@) {
        "-ver"@
    } else if has_sub(path, "ffmpeg"@) || has_sub(path, "ffprobe"@) {
        "-version"@
    } else {
        "--version"@
    }
}

/// The argument that makes the tool at `path` print its version.
pub fn version_args(path: &str) -> (res: &'static str)
    ensures
        res@ == version_flag(path@),
{
    if contains_str(path, "exiftool") {
        "-ver"
    } else if contains_str(path, "ffmpeg") || contains_str(path, "ffprobe") {
        "-version"
    } else {
        "--version"
    }
}

/// The version text read from what the tool at `path` printed, given as
/// text where it was valid UTF-8: the first line of its output, trimmed
/// (exiftool prints a bare number, which is labelled "ExifTool "); where
/// that is empty, the first line of its error output; else nothing.
pub open spec fn version_from_output_spec(
    path: Seq<char>,
    stdout: Option<Seq<char>>,
    stderr: Option<Seq<char>>,
) -> Option<Seq<char>> {
    let out_line = match stdout {
        Some(o) => first_line_trimmed(o),
        None => Seq::empty(),
    };
    let err_line = match stderr {
        Some(e) => first_line_trimmed(e),
        None => Seq::empty(),
    };
    if out_line.len() > 0 {
        if has_sub(path, "exiftool"@) && !has_sub(out_line, "exiftool"@) {
            Some("ExifTool "@ + out_line)
        } else {
            Some(out_line)
        }
    } else if err_line.len() > 0 {
        Some(err_line)
    } else {
        None
    }
}

/// The text of an optional string slice.
pub open spec fn opt_view(o: Option<&str>) -> Option<Seq<char>> {
    match o {
        Some(t) => Some(t@),
        None => None,
    }
}

/// The version text from what the tool at `path` printed.
pub fn version_from_output(path: &str, stdout: Option<&str>, stderr: Option<&str>) -> (res: Option<String>)
    ensures
        res matches Some(v) ==> version_from_output_spec(path@, opt_view(stdout), opt_view(stderr)) == Some(v@),
        res is None ==> version_from_output_spec(path@, opt_view(stdout), opt_view(stderr))
            is None,
{
    if let Some(o) = stdout {
        let line = first_line_trimmed_of(o);
        if line.unicode_len() > 0 {
            if contains_str(path, "exiftool") && !contains_str(line.as_str(), "exiftool") {
                return Some(concat2("ExifTool ", line.as_str()));
            }
            return Some(line);
        }
    }
    if let Some(e) = stderr {
        let line = first_line_trimmed_of(e);
        if line.unicode_len() > 0 {
            return Some(line);
        }
    }
    None
}

/// The version text from a successful `<name> --version` run whose output
/// was valid UTF-8: its first line as `str::lines` gives it.
pub fn version_from_path_output(stdout: &str) -> (res: Option<String>)
    ensures
        res matches Some(v) ==> first_line(stdout@) == Some(v@),
        res is None ==> first_line(stdout@) is None,
{
    first_line_of(stdout)
}

/// Where to look for ffmpeg on an operating system, in order, before the
/// search path; on Windows one place depends on the user's profile folder.
pub open spec fn ffmpeg_search_spec(os: Seq<char>, userprofile: Option<Seq<char>>) -> Seq<Seq<char>> {
    if os == "macos"@ {
        seq!["/opt/homebrew/bin/ffmpeg"@, "/usr/local/bin/ffmpeg"@, "/opt/local/bin/ffmpeg"@]
    } else if os == "windows"@ {
        let base = seq!["C:\\Program Files\\FFmpeg\\bin\\ffmpeg.exe"@, "C:\\ffmpeg\\bin\\ffmpeg.exe"@];
        match userprofile {
            Some(u) => base.push(u + "\\ffmpeg\\bin\\ffmpeg.exe"@),
            None => base,
        }
    } else if os == "linux"@ {
        seq!["/usr/bin/ffmpeg"@, "/usr/local/bin/ffmpeg"@, "/opt/ffmpeg/bin/ffmpeg"@, "/snap/bin/ffmpeg"@]
    } else {
        Seq::empty()
    }
}

/// Where to look for exiftool on an operating system, in order, before the
/// search path.
pub open spec fn exiftool_search_spec(os: Seq<char>, userprofile: Option<Seq<char>>) -> Seq<Seq<char>> {
    if os == "macos"@ {
        seq!["/opt/homebrew/bin/exiftool"@, "/usr/local/bin/exiftool"@]
    } else if os == "windows"@ {
        let base = seq!["C:\\exiftool\\exiftool.exe"@];
        match userprofile {
            Some(u) => base.push(u + "\\exiftool\\exiftool.exe"@),
            None => base,
        }
    } else if os == "linux"@ {
        seq!["/usr/bin/exiftool"@, "/usr/local/bin/exiftool"@]
    } else {
        Seq::empty()
    }
}

/// The places to look for ffmpeg on an operating system, in order.
pub fn ffmpeg_search_paths(os: &str, userprofile: Option<&str>) -> (res: Vec<String>)
    ensures
        res@.map_values(|s: String| s@) == ffmpeg_search_spec(os@, opt_view(userprofile)),
{
    let mut v: Vec<String> = Vec::new();
    if str_eq(os, "macos") {
        v.push(owned("/opt/homebrew/bin/ffmpeg"));
        v.push(owned("/usr/local/bin/ffmpeg"));
        v.push(owned("/opt/local/bin/ffmpeg"));
    } else if str_eq(os, "windows") {
        v.push(owned("C:\\Program Files\\FFmpeg\\bin\\ffmpeg.exe"));
        v.push(owned("C:\\ffmpeg\\bin\\ffmpeg.exe"));
        if let Some(u) = userprofile {
            v.push(concat2(u, "\\ffmpeg\\bin\\ffmpeg.exe"));
        }
    } else if str_eq(os, "linux") {
        v.push(owned("/usr/bin/ffmpeg"));
        v.push(owned("/usr/local/bin/ffmpeg"));
        v.push(owned("/opt/ffmpeg/bin/ffmpeg"));
        v.push(owned("/snap/bin/ffmpeg"));
    }
    assert(v@.map_values(|s: String| s@) =~= ffmpeg_search_spec(os@, opt_view(userprofile)));
    v
}

/// The places to look for exiftool on an operating system, in order.
pub fn exiftool_search_paths(os: &str, userprofile: Option<&str>) -> (res: Vec<String>)
    ensures
        res@.map_values(|s: String| s@) == exiftool_search_spec(os@, opt_view(userprofile)),
{
    let mut v: Vec<String> = Vec::new();
    if str_eq(os, "macos") {
        v.push(owned("/opt/homebrew/bin/exiftool"));
        v.push(owned("/usr/local/bin/exiftool"));
    } else if str_eq(os, "windows") {
        v.push(owned("C:\\exiftool\\exiftool.exe"));
        if let Some(u) = userprofile {
            v.push(concat2(u, "\\exiftool\\exiftool.exe"));
        }
    } else if str_eq(os, "linux") {
        v.push(owned("/usr/bin/exiftool"));
        v.push(owned("/usr/local/bin/exiftool"));
    }
    assert(v@.map_values(|s: String| s@) =~= exiftool_search_spec(os@, opt_view(userprofile)));
    v
}

} // verus!
