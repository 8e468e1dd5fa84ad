use pixly_kernel::dependency_checker::{
    check_all_dependencies, check_required_dependencies_quiet, exiftool_search_paths, ffmpeg_search_paths,
    get_dependencies, get_install_hint, summarize_checks, version_args, version_from_output,
    version_from_path_output, ToolLookup,
};

fn lookup(located: bool, lv: Option<&str>, on_path: bool, pv: Option<&str>) -> ToolLookup {
    ToolLookup {
        located,
        located_version: lv.map(|s| s.to_string()),
        on_path,
        path_version: pv.map(|s| s.to_string()),
    }
}

#[test]
fn dependency_list_and_hints() {
    let deps = get_dependencies("linux");
    let names: Vec<&str> = deps.iter().map(|d| d.name).collect();
    assert_eq!(names, vec!["exiftool", "ffmpeg", "ffprobe", "cjxl", "djxl", "avifenc", "avifdec"]);
    assert!(deps[0].required);
    assert!(deps[1..].iter().all(|d| !d.required));
    assert_eq!(deps[0].install_hint, "Linux: sudo apt install libimage-exiftool-perl");
    assert_eq!(deps[2].install_hint, "Linux: sudo apt install ffmpeg");
    assert_eq!(deps[4].install_hint, "Linux: sudo apt install libjxl-tools");
    assert_eq!(deps[6].install_hint, "Linux: sudo apt install libavif-bin");
    assert_eq!(get_install_hint("macos", "cjxl"), "macOS: brew install jpeg-xl");
    assert_eq!(get_install_hint("windows", "ffmpeg"), "Windows: 下载 https://ffmpeg.org/");
    assert_eq!(get_install_hint("freebsd", "ffmpeg"), "请查看官方文档");
    assert_eq!(get_install_hint("linux", "gifsicle"), "请查看官方文档");
}

#[test]
fn dependency_check_rules() {
    let deps = get_dependencies("linux");
    let lookups = vec![
        lookup(false, None, true, Some("12.40")),          // exiftool: only its own search counts
        lookup(true, Some("ffmpeg version 6"), false, None), // ffmpeg found
        lookup(false, None, true, Some("ffprobe 6")),       // ffprobe from the search path
        lookup(false, None, true, Some("cjxl v0.9")),
        lookup(false, None, false, Some("ignored")),        // djxl absent: version not read
        lookup(true, None, false, None),                    // avifenc: not located on the path
        lookup(false, None, false, None),
    ];
    let r = check_all_dependencies(&deps, &lookups);
    assert_eq!(r.len(), 7);
    assert!(!r[0].available);
    assert_eq!(r[0].version, None);
    assert!(r[1].available);
    assert_eq!(r[1].version.as_deref(), Some("ffmpeg version 6"));
    assert!(r[2].available);
    assert_eq!(r[2].version.as_deref(), Some("ffprobe 6"));
    assert!(r[3].available);
    assert!(!r[4].available);
    assert_eq!(r[4].version, None);
    assert!(!r[5].available);
    for c in r.iter() {
        assert!(c.version.is_none() || c.available, "{}", c.name);
    }
    let ffprobe_failed = vec![lookup(false, None, false, Some("stray text"))];
    let r2 = check_all_dependencies(&deps[2..3], &ffprobe_failed);
    assert!(!r2[0].available);
    assert_eq!(r2[0].version, None);
    let (ok, missing) = summarize_checks(&deps, &r);
    assert!(!ok);
    assert_eq!(missing, vec!["djxl", "avifenc", "avifdec"]);
}

#[test]
fn dependency_required_quiet() {
    let deps = get_dependencies("macos");
    assert!(check_required_dependencies_quiet(&deps, &[true, false, false, false, false, false, false]));
    assert!(!check_required_dependencies_quiet(&deps, &[false, true, true, true, true, true, true]));
}

#[test]
fn dependency_version_reading() {
    assert_eq!(version_args("/usr/bin/exiftool"), "-ver");
    assert_eq!(version_args("/usr/bin/ffprobe"), "-version");
    assert_eq!(version_args("/usr/bin/cjxl"), "--version");
    assert_eq!(
        version_from_output("/usr/bin/exiftool", Some("  12.76\n"), Some("")),
        Some("ExifTool 12.76".to_string())
    );
    assert_eq!(
        version_from_output("/usr/bin/ffmpeg", Some("ffmpeg version 6.1 Copyright\r\nmore"), None),
        Some("ffmpeg version 6.1 Copyright".to_string())
    );
    assert_eq!(version_from_output("/x/cjxl", Some(""), Some("\n  JPEG XL encoder v0.10 \n")), None);
    assert_eq!(
        version_from_output("/x/cjxl", Some("   \n"), Some("JPEG XL encoder v0.10 \nusage")),
        Some("JPEG XL encoder v0.10".to_string())
    );
    assert_eq!(version_from_output("/x/cjxl", None, None), None);
    assert_eq!(version_from_path_output("avifenc 1.0\r\nx"), Some("avifenc 1.0".to_string()));
    assert_eq!(version_from_path_output(""), None);
    assert_eq!(version_from_path_output("v\r"), Some("v\r".to_string()));
}

#[test]
fn dependency_lines_match_std() {
    for s in ["", "\n", "a", "a\nb", "a\r\nb", "a\r", "\r\n", " x \t\n", "\u{3000}y\u{85}\nz", "abc\r\r\n"].iter() {
        let expect = s.lines().next().map(|l| l.to_string());
        assert_eq!(version_from_path_output(s), expect, "for {:?}", s);
    }
}

#[test]
fn dependency_search_paths() {
    assert_eq!(
        ffmpeg_search_paths("linux", None),
        vec!["/usr/bin/ffmpeg", "/usr/local/bin/ffmpeg", "/opt/ffmpeg/bin/ffmpeg", "/snap/bin/ffmpeg"]
    );
    assert_eq!(
        ffmpeg_search_paths("windows", Some("C:\\Users\\me")),
        vec![
            "C:\\Program Files\\FFmpeg\\bin\\ffmpeg.exe",
            "C:\\ffmpeg\\bin\\ffmpeg.exe",
            "C:\\Users\\me\\ffmpeg\\bin\\ffmpeg.exe"
        ]
    );
    assert_eq!(exiftool_search_paths("macos", None), vec!["/opt/homebrew/bin/exiftool", "/usr/local/bin/exiftool"]);
    assert!(exiftool_search_paths("haiku", None).is_empty());
}
