use pixly_kernel::file_collector::{CollectError, FileCollector, FsEntry};

fn file(p: &str) -> FsEntry {
    FsEntry { path: p.to_string(), is_symlink: false, is_file: true, is_dir: false, children: Vec::new() }
}

fn dir(p: &str, children: Vec<FsEntry>) -> FsEntry {
    FsEntry { path: p.to_string(), is_symlink: false, is_file: false, is_dir: true, children }
}

fn link_to_file(p: &str) -> FsEntry {
    FsEntry { path: p.to_string(), is_symlink: true, is_file: true, is_dir: false, children: Vec::new() }
}

#[test]
fn test_collect_single_file() {
    let f = file("/tmp/x/test.jpg");
    let collector = FileCollector::new(vec!["jpg".to_string()]);
    let files = collector.collect(&f, true).unwrap();
    assert_eq!(files.len(), 1);
    assert_eq!(files[0], "/tmp/x/test.jpg");
}

#[test]
fn test_collect_directory_flat() {
    let root = dir("/t", vec![file("/t/test1.jpg"), file("/t/test2.png"), file("/t/test3.txt")]);
    let collector = FileCollector::new(vec!["jpg".to_string(), "png".to_string()]);
    let files = collector.collect(&root, true).unwrap();
    assert_eq!(files.len(), 2);
}

#[test]
fn test_collect_directory_recursive() {
    let root = dir("/t", vec![file("/t/test1.jpg"), dir("/t/subdir", vec![file("/t/subdir/test2.jpg")])]);
    let collector = FileCollector::new(vec!["jpg".to_string()]).recursive(true);
    let files = collector.collect(&root, true).unwrap();
    assert_eq!(files.len(), 2);
}

#[test]
fn test_collect_with_max_depth() {
    let root = dir(
        "/t",
        vec![
            file("/t/test0.jpg"),
            dir("/t/sub1", vec![file("/t/sub1/test1.jpg"), dir("/t/sub1/sub2", vec![file("/t/sub1/sub2/test2.jpg")])]),
        ],
    );
    let collector = FileCollector::new(vec!["jpg".to_string()]).recursive(true).max_depth(1);
    let files = collector.collect(&root, true).unwrap();
    assert_eq!(files.len(), 1);
}

#[test]
fn test_extension_filtering() {
    let root = dir("/t", vec![file("/t/test1.jpg"), file("/t/test2.JPG"), file("/t/test3.png")]);
    let collector = FileCollector::new(vec!["jpg".to_string()]);
    let files = collector.collect(&root, true).unwrap();
    assert_eq!(files.len(), 2);
}

#[test]
fn collector_defaults() {
    let c = FileCollector::default();
    assert!(c.extensions.is_empty());
    assert!(!c.recursive);
    assert_eq!(c.max_depth, None);
    assert!(!c.follow_symlinks);
    assert!(c.matches_extension("anything"));
}

#[test]
fn collector_without_recursion_skips_subdirectories() {
    let root = dir("/t", vec![dir("/t/s", vec![file("/t/s/a.jpg")]), file("/t/b.jpg")]);
    let c = FileCollector::new(vec![]);
    assert_eq!(c.collect(&root, true).unwrap(), vec!["/t/b.jpg".to_string()]);
}

#[test]
fn collector_keeps_listing_order_depth_first() {
    let root = dir("/t", vec![file("/t/z.jpg"), dir("/t/s", vec![file("/t/s/a.jpg")]), file("/t/b.jpg")]);
    let c = FileCollector::new(vec![]).recursive(true);
    assert_eq!(
        c.collect(&root, true).unwrap(),
        vec!["/t/z.jpg".to_string(), "/t/s/a.jpg".to_string(), "/t/b.jpg".to_string()]
    );
}

#[test]
fn collector_skips_links_unless_followed() {
    let root = dir("/t", vec![link_to_file("/t/l.jpg"), file("/t/r.jpg")]);
    let mut c = FileCollector::new(vec!["jpg".to_string()]);
    assert_eq!(c.collect(&root, true).unwrap(), vec!["/t/r.jpg".to_string()]);
    c.follow_symlinks = true;
    assert_eq!(c.collect(&root, true).unwrap().len(), 2);
}

#[test]
fn collector_max_depth_zero_reads_nothing() {
    let root = dir("/t", vec![file("/t/a.jpg")]);
    let c = FileCollector::new(vec![]).max_depth(0);
    assert!(!c.descends_into(0));
    assert!(c.collect(&root, true).unwrap().is_empty());
}

#[test]
fn collector_errors() {
    let c = FileCollector::new(vec![]);
    let missing = file("/nope.jpg");
    let e = c.collect(&missing, false).unwrap_err();
    assert_eq!(e, CollectError::NotFound("/nope.jpg".to_string()));
    assert_eq!(e.message(), "Path does not exist: /nope.jpg");
    let odd = FsEntry { path: "/dev/x".to_string(), is_symlink: false, is_file: false, is_dir: false, children: vec![] };
    let e = c.collect(&odd, true).unwrap_err();
    assert_eq!(e.message(), "Path is neither file nor directory: /dev/x");
}

#[test]
fn collector_single_file_filtered_out() {
    let c = FileCollector::new(vec!["png".to_string()]);
    assert!(c.collect(&file("a.jpg"), true).unwrap().is_empty());
    assert!(!c.matches_extension("noext"));
    assert!(c.matches_extension("x.PNG"));
}

#[test]
fn collector_multiple_sorts_and_dedups() {
    let c = FileCollector::new(vec!["jpg".to_string()]);
    let roots = vec![(file("b.jpg"), true), (file("a.jpg"), true), (file("b.jpg"), true)];
    assert_eq!(c.collect_multiple(&roots).unwrap(), vec!["a.jpg".to_string(), "b.jpg".to_string()]);
    let roots = vec![(file("a/b"), true), (file("a-b"), true)];
    let c = FileCollector::new(vec![]);
    // paths order by components: "a" < "a-b"
    assert_eq!(c.collect_multiple(&roots).unwrap(), vec!["a/b".to_string(), "a-b".to_string()]);
    let roots = vec![(file("a.jpg"), true), (file("gone.jpg"), false)];
    assert_eq!(c.collect_multiple(&roots).unwrap_err(), CollectError::NotFound("gone.jpg".to_string()));
}

#[test]
fn collector_multiple_keeps_one_of_equal_paths() {
    let c = FileCollector::new(vec!["jpg".to_string()]);
    let roots = vec![(file("a/b.jpg"), true), (file("c.jpg"), true), (file("a//b.jpg"), true)];
    assert_eq!(c.collect_multiple(&roots).unwrap(), vec!["a/b.jpg".to_string(), "c.jpg".to_string()]);
}
