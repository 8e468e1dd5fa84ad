use pixly_kernel::filename_normalizer::{join_text, parent_text, FilenameNormalizer};
use pixly_kernel::paths::file_name;

fn name_of(p: &str) -> String {
    file_name(p).unwrap()
}

#[test]
fn test_normalize_simple() {
    let mut normalizer = FilenameNormalizer::new();
    let result = normalizer.normalize("test file.jpg", None).unwrap();
    assert_eq!(name_of(&result), "test_file.jpg");
}

#[test]
fn test_normalize_dangerous_chars() {
    let mut normalizer = FilenameNormalizer::new();
    let result = normalizer.normalize("test<>:file?.jpg", None).unwrap();
    let filename = name_of(&result);
    assert!(!filename.contains('<'));
    assert!(!filename.contains('>'));
    assert!(!filename.contains(':'));
    assert!(!filename.contains('?'));
    assert_eq!(filename, "test_file.jpg");
}

#[test]
fn test_normalize_multiple_spaces() {
    let mut normalizer = FilenameNormalizer::new();
    let result = normalizer.normalize("test   multiple   spaces.jpg", None).unwrap();
    assert_eq!(name_of(&result), "test_multiple_spaces.jpg");
}

#[test]
fn test_normalize_long_filename() {
    let mut normalizer = FilenameNormalizer::new();
    normalizer.set_max_length(50);
    let long_name = "a".repeat(100);
    let path = format!("{}.jpg", long_name);
    let result = normalizer.normalize(&path, None).unwrap();
    let filename = name_of(&result);
    assert!(filename.len() <= 50);
    assert!(filename.ends_with(".jpg"));
    let hash = format!("{:x}", md5::compute(&long_name));
    assert_eq!(filename, format!("{}_{}.jpg", "a".repeat(37), &hash[..8]));
}

#[test]
fn test_restore() {
    let mut normalizer = FilenameNormalizer::new();
    let normalized = normalizer.normalize("test file.jpg", None).unwrap();
    let restored = normalizer.restore(&normalized).unwrap();
    assert_eq!(name_of(&restored), "test file.jpg");
}

#[test]
fn test_export_import_mappings() {
    let mut normalizer1 = FilenameNormalizer::new();
    normalizer1.normalize("test1.jpg", None).unwrap();
    normalizer1.normalize("test2.jpg", None).unwrap();
    let mappings = normalizer1.export_mappings();
    assert_eq!(mappings.len(), 2);
    let mut normalizer2 = FilenameNormalizer::new();
    normalizer2.import_mappings(mappings);
    assert_eq!(normalizer2.mapping_count(), 2);
}

#[test]
fn test_clear_mappings() {
    let mut normalizer = FilenameNormalizer::new();
    normalizer.normalize("test.jpg", None).unwrap();
    assert_eq!(normalizer.mapping_count(), 1);
    normalizer.clear();
    assert_eq!(normalizer.mapping_count(), 0);
}

#[test]
fn restore_in_directory_and_errors() {
    let mut n = FilenameNormalizer::new();
    let t = n.normalize("/data/in/My  Photo (1)?.PNG", None).unwrap();
    assert_eq!(t, "/data/in/My_Photo_(1).PNG");
    assert_eq!(n.restore(&t).unwrap(), "/data/in/My  Photo (1)?.PNG");
    assert_eq!(n.get_original_path("My_Photo_(1).PNG").map(|s| s.as_str()), Some("/data/in/My  Photo (1)?.PNG"));
    assert!(n.has_mapping("My  Photo (1)?.PNG"));
    assert_eq!(n.restore("/x/unknown.png"), Err("No mapping found for temp file: unknown.png".to_string()));
    assert_eq!(n.restore("/"), Err("Invalid temp path".to_string()));
    assert_eq!(n.normalize("..", None), Err("Invalid file path".to_string()));
}

#[test]
fn detection_corrects_extension() {
    let mut n = FilenameNormalizer::new();
    assert_eq!(n.normalize("pic.JPG", Some("png")).unwrap(), "pic.png");
    assert_eq!(n.normalize("pic2.JPG", Some("jpg")).unwrap(), "pic2.JPG");
    assert_eq!(n.normalize("noext", Some("gif")).unwrap(), "noext.gif");
    n.set_use_magika(false);
    assert_eq!(n.normalize("noext2", Some("gif")).unwrap(), "noext2");
    assert_eq!(n.mapping_count(), 4);
    n.normalize("pic.JPG", None).unwrap();
    assert_eq!(n.mapping_count(), 4);
}

#[test]
fn whitespace_and_underscores_collapse() {
    let mut n = FilenameNormalizer::new();
    assert_eq!(n.normalize("__a\u{3000}\t b__c__.txt", None).unwrap(), "a_b_c.txt");
}

#[test]
fn parent_and_join_follow_std_path() {
    for p in ["a/b.jpg", "b.jpg", "/b.jpg", "a/b/", "a//b", "./a", "a/.", "a/..", "..", "/", "", "//a"].iter() {
        let expected = std::path::Path::new(p).parent().map(|q| q.to_str().unwrap().to_string()).unwrap_or_default();
        assert_eq!(parent_text(p), expected, "parent of {:?}", p);
    }
    for (d, x) in [("a", "b"), ("", "b"), ("/", "b"), ("a/", "b")].iter() {
        let expected = std::path::Path::new(d).join(x).to_str().unwrap().to_string();
        assert_eq!(join_text(d, x), expected);
    }
}

#[test]
fn import_of_export_reproduces_mappings() {
    let mut first = FilenameNormalizer::new();
    first.normalize("dir/a file.jpg", None).unwrap();
    first.normalize("dir/b.png", None).unwrap();
    let exported = first.export_mappings();
    let mut second = FilenameNormalizer::new();
    second.import_mappings(first.export_mappings());
    let again = second.export_mappings();
    assert_eq!(again.len(), exported.len());
    for (x, y) in exported.iter().zip(again.iter()) {
        assert_eq!(x.original, y.original);
        assert_eq!(x.normalized, y.normalized);
        assert_eq!(x.original_path, y.original_path);
        assert_eq!(x.temp_path, y.temp_path);
    }
}

#[test]
fn cjk_name_truncates_on_char_boundary() {
    let mut normalizer = FilenameNormalizer::new();
    normalizer.set_use_magika(false);
    normalizer.set_max_length(20);
    let base = "照片".repeat(8);
    let result = normalizer.normalize(&format!("{}.jpg", base), None).unwrap();
    let filename = name_of(&result);
    assert!(filename.len() <= 20);
    assert!(filename.ends_with(".jpg"));
    let hash = format!("{:x}", md5::compute(&base));
    assert_eq!(filename, format!("照片_{}.jpg", &hash[..8]));
}
