use pixly_kernel::eagle_adapter::{
    find_original_entry, is_auxiliary_file, is_preview_file, is_xmp_resource_for, plan_single_image,
    renamed_metadata_name, should_generate_thumbnail, tally, thumbnail_file_name, EagleAdapter, InfoEntry,
    OptimizeResult, SingleImagePlan,
};

fn entry(name: &str, is_file: bool) -> InfoEntry {
    InfoEntry { name: name.to_string(), is_file }
}

#[test]
fn eagle_original_file_choice() {
    let entries = vec![
        entry("metadata.json", true),
        entry("photo_thumbnail.png", true),
        entry("sub", false),
        entry(".DS_Store", true),
        entry("_pixly_viewer_1.png", true),
        entry("photo.jpg", true),
        entry("other.png", true),
    ];
    assert_eq!(find_original_entry(&entries), Some(5));
    assert_eq!(find_original_entry(&entries[..5]), None);
    assert!(is_auxiliary_file("a_thumbnail.png"));
    assert!(!is_auxiliary_file("a.png"));
}

#[test]
fn eagle_names_and_thumbnails() {
    let a = EagleAdapter::new("/lib/My.library");
    assert_eq!(a.get_library_path(), "/lib/My.library");
    assert_eq!(thumbnail_file_name("photo.jpg"), "photo_thumbnail.png");
    assert_eq!(thumbnail_file_name(""), "thumbnail_thumbnail.png");
    assert!(should_generate_thumbnail(Some("psd"), None));
    assert!(should_generate_thumbnail(Some("png"), Some((2001, 10))));
    assert!(!should_generate_thumbnail(Some("png"), Some((2000, 2000))));
    assert!(!should_generate_thumbnail(None, None));
    assert!(is_preview_file("_pixly_viewer_123.png"));
    assert!(!is_preview_file("_pixly_viewer_123.jpg"));
    assert!(is_xmp_resource_for("xmp", "photo", "photo"));
    assert!(!is_xmp_resource_for("jpg", "photo", "photo"));
}

#[test]
fn eagle_single_image_plan() {
    assert_eq!(plan_single_image("webp", "webp", false), SingleImagePlan::AlreadyInFormat);
    assert_eq!(plan_single_image("png", "webp", true), SingleImagePlan::DryRun);
    assert_eq!(plan_single_image("png", "webp", false), SingleImagePlan::Convert);
    assert_eq!(renamed_metadata_name("photo.png", "png", "webp"), "photo.webp");
    assert_eq!(renamed_metadata_name("photo", "png", "webp"), "photo");
    assert_eq!(OptimizeResult::converted(100, 150).saved_bytes, 0);
    assert_eq!(OptimizeResult::converted(150, 100).saved_bytes, 50);
    assert!(OptimizeResult::unchanged(7).skipped);
    assert_eq!(OptimizeResult::dry_run(7).optimized_size, 0);
}

#[test]
fn eagle_batch_tally() {
    let results = vec![
        Ok(OptimizeResult::converted(1000, 400)),
        Err("broken".to_string()),
        Ok(OptimizeResult::unchanged(300)),
        Ok(OptimizeResult::converted(100, 200)),
    ];
    let t = tally(&results);
    assert_eq!(t.processed, 3);
    assert_eq!(t.skipped, 1);
    assert_eq!(t.failed, 1);
    assert_eq!(t.total_original_size, 1400);
    assert_eq!(t.total_optimized_size, 900);
    assert_eq!(t.saved_bytes, 600);
}

#[test]
fn eagle_thumbnail_path_in_info_dir() {
    let a = EagleAdapter::new("/lib/My.library");
    assert_eq!(a.get_thumbnail_path("/lib/My.library/images/X1.info", "photo.jpg"), "/lib/My.library/images/X1.info/photo_thumbnail.png");
    assert_eq!(a.get_thumbnail_path("/lib/X2.info/", "noext"), "/lib/X2.info/noext_thumbnail.png");
    assert_eq!(a.get_thumbnail_path("", ".hidden"), ".hidden_thumbnail.png");
}

#[test]
fn eagle_library_membership() {
    let a = EagleAdapter::new("/lib/My.library");
    assert!(a.is_path_in_library("/lib/My.library/images/X1.info/a.jpg"));
    assert!(a.is_path_in_library("/lib/My.library"));
    assert!(a.is_path_in_library("/lib//My.library/./images"));
    assert!(!a.is_path_in_library("/lib/My.library2/images"));
    assert!(!a.is_path_in_library("lib/My.library/images"));
}

#[test]
fn library_membership_follows_path_starts_with() {
    let cases = [
        ("/a/b", "/a"), ("/a/b", "/a/"), ("/a/./b", "/a/b"), ("./a/b", "a"), ("./a/b", "./a"), ("a/b", "./a"),
        ("a//b/", "a/b"), ("/", "/"), ("", ""), ("a", ""), ("/ab", "/a"), ("../x", ".."), (".", "."), ("a/.", "a"),
        ("/a/b", "/a/b/c"), ("x", "/"), ("/x", "x"),
    ];
    for (p, base) in cases.iter() {
        let a = EagleAdapter::new(base);
        assert_eq!(
            a.is_path_in_library(p),
            std::path::Path::new(p).starts_with(base),
            "{:?} in {:?}",
            p,
            base
        );
    }
}
