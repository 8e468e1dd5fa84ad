//! Working with an Eagle image library: which file of an item's `.info`
//! directory is the original, which files are previews, when a thumbnail is
//! needed and what it is called, what optimising one item does, and how
//! the results of a batch add up.
//!
//! Reading directories, decoding images and running tools is the caller's.

use vstd::prelude::*;
use crate::paths::{file_stem, path_starts_with, path_starts_with_exec, stem_of};
use crate::filename_normalizer::{join_path, join_text};
use crate::text::{concat2, contains_str, ends_with, has_prefix, has_sub, has_suffix, owned,
    starts_with, str_eq};

verus! {

/// An Eagle library.
#[derive(Debug, Clone)]
pub struct EagleAdapter {
    library_path: String,
}

impl EagleAdapter {
    /// The library's folder.
    pub closed spec fn spec_path(&self) -> Seq<char> {
        self.library_path@
    }

    /// An adapter for the library in a folder.
    pub fn new(library_path: &str) -> (res: Self)
        ensures
            res.spec_path() == library_path@,
    {
        EagleAdapter { library_path: owned(library_path) }
    }

    /// The library's folder.
    pub fn get_library_path(&self) -> (res: &str)
        ensures
            res@ == self.spec_path(),
    {
        self.library_path.as_str()
    }

    /// Whether a path lies inside the library: the library's folder is made
    /// of its first components.
    pub fn is_path_in_library(&self, path: &str) -> (res: bool)
        ensures
            res == path_starts_with(path@, self.spec_path()),
    {
        path_starts_with_exec(path, self.library_path.as_str())
    }

    /// The path of an item's thumbnail: the thumbnail's file name in the
    /// item's `.info` directory.
    pub fn get_thumbnail_path(&self, info_dir: &str, original_name: &str) -> (res: String)
        ensures
            res@ == join_path(info_dir@, thumbnail_name_spec(original_name@)),
    {
        let name = thumbnail_file_name(original_name);
        join_text(info_dir, name.as_str())
    }
}

/// A file of an `.info` directory that is not the original: a thumbnail,
/// a viewer preview, the metadata, or a Finder file.
pub open spec fn is_auxiliary_name(name: Seq<char>) -> bool {
    has_sub(name, "_thumbnail."@) || has_sub(name, "_pixly_viewer_"@) || has_sub(name, "metadata.json"@) || has_sub(
        name,
        ".DS_Store"@,
    )
}

/// Whether a file of an `.info` directory is not the original.
pub fn is_auxiliary_file(name: &str) -> (res: bool)
    ensures
        res == is_auxiliary_name(name@),
{
    contains_str(name, "_thumbnail.") || contains_str(name, "_pixly_viewer_") || contains_str(name, "metadata.json")
        || contains_str(name, ".DS_Store")
}

/// An entry of an `.info` directory: its file name and whether it is a file.
#[derive(Debug, Clone)]
pub struct InfoEntry {
    pub name: String,
    pub is_file: bool,
}

/// The entry is the original: a file that is not auxiliary.
pub open spec fn is_original(e: InfoEntry) -> bool {
    e.is_file && !is_auxiliary_name(e.name@)
}

/// The original of an item: the first entry, in listing order, that is a
/// file and not auxiliary.
pub fn find_original_entry(entries: &[InfoEntry]) -> (res: Option<usize>)
    ensures
        match res {
            Some(i) => i < entries@.len() && is_original(entries@[i as int]) && forall|j: int|
                0 <= j < i ==> !is_original(#[trigger] entries@[j]),
            None => forall|j: int| 0 <= j < entries@.len() ==> !is_original(#[trigger] entries@[j]),
        },
{
    let mut i: usize = 0;
    while i < entries.len()
        invariant
            i <= entries@.len(),
            forall|j: int| 0 <= j < i ==> !is_original(#[trigger] entries@[j]),
        decreases entries@.len() - i,
    {
        if entries[i].is_file && !is_auxiliary_file(entries[i].name.as_str()) {
            return Some(i);
        }
        i = i + 1;
    }
    None
}

/// The file name of an item's thumbnail: the original's stem (or
/// "thumbnail" when it has none) followed by `_thumbnail.png`.
pub open spec fn thumbnail_name_spec(original_name: Seq<char>) -> Seq<char> {
    match stem_of(original_name) {
        Some(s) => s + "_thumbnail.png"@,
        None => "thumbnail"@ + "_thumbnail.png"@,
    }
}

/// The file name of an item's thumbnail.
pub fn thumbnail_file_name(original_name: &str) -> (res: String)
    ensures
        res@ == thumbnail_name_spec(original_name@),
{
    match file_stem(original_name) {
        Some(s) => concat2(s.as_str(), "_thumbnail.png"),
        None => concat2("thumbnail", "_thumbnail.png"),
    }
}

/// An image needs a thumbnail when its format always does (PSD,
/// Illustrator, SVG, PDF; by lower-cased extension) or when either side is
/// longer than 2000 pixels.
pub open spec fn needs_thumbnail_spec(ext_lower: Option<Seq<char>>, dims: Option<(u32, u32)>) -> bool {
    (ext_lower matches Some(e) && (e == "psd"@ || e == "ai"@ || e == "svg"@ || e == "pdf"@)) || (dims matches Some(
        (w, h),
    ) && (w > 2000 || h > 2000))
}

/// Whether an image needs a thumbnail, from its lower-cased extension and
/// its dimensions where it could be decoded.
pub fn should_generate_thumbnail(ext_lower: Option<&str>, dims: Option<(u32, u32)>) -> (res: bool)
    ensures
        res == needs_thumbnail_spec(
            match ext_lower {
                Some(e) => Some(e@),
                None => None,
            },
            dims,
        ),
{
    if let Some(e) = ext_lower {
        if str_eq(e, "psd") || str_eq(e, "ai") || str_eq(e, "svg") || str_eq(e, "pdf") {
            return true;
        }
    }
    match dims {
        Some((w, h)) => w > 2000 || h > 2000,
        None => false,
    }
}

/// Whether a file of an `.info` directory is a viewer preview.
pub fn is_preview_file(name: &str) -> (res: bool)
    ensures
        res == (has_prefix(name@, "_pixly_viewer_"@) && has_suffix(name@, ".png"@)),
{
    starts_with(name, "_pixly_viewer_") && ends_with(name, ".png")
}

/// Whether an item is the XMP resource of an image: its extension is `xmp`
/// and its name is the image's name.
pub fn is_xmp_resource_for(ext: &str, name: &str, image_name: &str) -> (res: bool)
    ensures
        res == (ext@ == "xmp"@ && name@ == image_name@),
{
    str_eq(ext, "xmp") && str_eq(name, image_name)
}

/// What optimising one item comes to.
#[derive(Debug, Clone, Copy, PartialEq, Eq, Structural)]
pub enum SingleImagePlan {
    /// The original is already in the target format.
    AlreadyInFormat,
    /// Nothing is converted in a dry run.
    DryRun,
    /// The original is converted.
    Convert,
}

/// The plan for one item, from its lower-cased extension, the target
/// format (compared as given) and whether this is a dry run.
pub fn plan_single_image(current_format: &str, format: &str, dry_run: bool) -> (res: SingleImagePlan)
    ensures
        res == if current_format@ == format@ {
            SingleImagePlan::AlreadyInFormat
        } else if dry_run {
            SingleImagePlan::DryRun
        } else {
            SingleImagePlan::Convert
        },
{
    if str_eq(current_format, format) {
        SingleImagePlan::AlreadyInFormat
    } else if dry_run {
        SingleImagePlan::DryRun
    } else {
        SingleImagePlan::Convert
    }
}

/// The item's name after conversion: a name ending in `.<current>` gets
/// `.<format>` in its place; any other name is kept.
pub open spec fn renamed_spec(name: Seq<char>, current: Seq<char>, format: Seq<char>) -> Seq<char> {
    let suffix = seq!['.'] + current;
    if has_suffix(name, suffix) {
        name.subrange(0, name.len() - suffix.len()) + seq!['.'] + format
    } else {
        name
    }
}

/// The item's name after conversion.
pub fn renamed_metadata_name(name: &str, current: &str, format: &str) -> (res: String)
    ensures
        res@ == renamed_spec(name@, current@, format@),
{
    let mut suffix = String::new();
    crate::text::push_char(&mut suffix, '.');
    suffix.append(current);
    assert(suffix@ =~= seq!['.'] + current@);
    if ends_with(name, suffix.as_str()) {
        let v = crate::text::chars_of(name);
        let keep = crate::paths::vec_slice(&v, 0, v.len() - suffix.unicode_len());
        let mut out = crate::text::string_from_chars(keep.as_slice());
        crate::text::push_char(&mut out, '.');
        out.append(format);
        assert(out@ =~= name@.subrange(0, name@.len() - suffix@.len()) + seq!['.'] + format@);
        out
    } else {
        owned(name)
    }
}

/// The outcome of optimising one item.
#[derive(Debug, Clone, Copy, PartialEq, Eq, Structural)]
pub struct OptimizeResult {
    pub original_size: u64,
    pub optimized_size: u64,
    pub saved_bytes: u64,
    pub skipped: bool,
}

impl OptimizeResult {
    /// An item left as it was: its size stays, nothing is saved.
    pub fn unchanged(original_size: u64) -> (res: Self)
        ensures
            res == (OptimizeResult { original_size, optimized_size: original_size, saved_bytes: 0, skipped: true }),
    {
        OptimizeResult { original_size, optimized_size: original_size, saved_bytes: 0, skipped: true }
    }

    /// An item a dry run would convert: no output size, nothing saved.
    pub fn dry_run(original_size: u64) -> (res: Self)
        ensures
            res == (OptimizeResult { original_size, optimized_size: 0, saved_bytes: 0, skipped: false }),
    {
        OptimizeResult { original_size, optimized_size: 0, saved_bytes: 0, skipped: false }
    }

    /// A converted item: the bytes saved, or 0 where the output grew.
    pub fn converted(original_size: u64, optimized_size: u64) -> (res: Self)
        ensures
            res.original_size == original_size,
            res.optimized_size == optimized_size,
            res.saved_bytes == if original_size > optimized_size { original_size - optimized_size } else { 0 },
            !res.skipped,
    {
        let saved = if original_size > optimized_size { original_size - optimized_size } else { 0 };
        OptimizeResult { original_size, optimized_size, saved_bytes: saved, skipped: false }
    }
}

/// The totals of a batch.
#[derive(Debug, Clone, Copy, PartialEq, Eq, Structural)]
pub struct BatchTally {
    pub processed: usize,
    pub skipped: usize,
    pub failed: usize,
    pub total_original_size: u64,
    pub total_optimized_size: u64,
    pub saved_bytes: u64,
}

/// The totals of the first `k` outcomes (a failure carries its message).
pub open spec fn tally_spec(r: Seq<Result<OptimizeResult, String>>, k: int) -> (nat, nat, nat, int, int, int)
    decreases k,
{
    if k <= 0 {
        (0, 0, 0, 0, 0, 0)
    } else {
        let p = tally_spec(r, k - 1);
        match r[k - 1] {
            Ok(o) => (
                p.0 + 1,
                p.1 + if o.skipped { 1nat } else { 0nat },
                p.2,
                p.3 + o.original_size,
                p.4 + o.optimized_size,
                p.5 + o.saved_bytes,
            ),
            Err(_) => (p.0, p.1, p.2 + 1, p.3, p.4, p.5),
        }
    }
}

proof fn lemma_tally_monotone(r: Seq<Result<OptimizeResult, String>>, j: int, k: int)
    requires
        0 <= j <= k <= r.len(),
    ensures
        tally_spec(r, j).0 + tally_spec(r, j).2 == j,
        tally_spec(r, j).1 <= tally_spec(r, j).0,
        tally_spec(r, j).3 <= tally_spec(r, k).3,
        tally_spec(r, j).4 <= tally_spec(r, k).4,
        tally_spec(r, j).5 <= tally_spec(r, k).5,
        tally_spec(r, j).3 >= 0 && tally_spec(r, j).4 >= 0 && tally_spec(r, j).5 >= 0,
    decreases k,
{
    if k > j {
        lemma_tally_monotone(r, j, k - 1);
    } else if j > 0 {
        lemma_tally_monotone(r, j - 1, j - 1);
    }
}

/// No item saves more bytes than it had (as every constructor of
/// `OptimizeResult` ensures).
pub open spec fn saves_within(r: Seq<Result<OptimizeResult, String>>) -> bool {
    forall|i: int| 0 <= i < r.len() ==> match #[trigger] r[i] {
        Ok(o) => o.saved_bytes <= o.original_size,
        Err(_) => true,
    }
}

proof fn lemma_tally_saved(r: Seq<Result<OptimizeResult, String>>, k: int)
    requires
        0 <= k <= r.len(),
        saves_within(r),
    ensures
        tally_spec(r, k).5 <= tally_spec(r, k).3,
    decreases k,
{
    if k > 0 {
        lemma_tally_saved(r, k - 1);
        let _ = r[k - 1];
    }
}

/// Adds up the outcomes of a batch: the items processed (and of them the
/// ones skipped), the failures, and the byte totals of the processed items.
pub fn tally(results: &[Result<OptimizeResult, String>]) -> (res: BatchTally)
    requires
        tally_spec(results@, results@.len() as int).3 <= u64::MAX,
        tally_spec(results@, results@.len() as int).4 <= u64::MAX,
        tally_spec(results@, results@.len() as int).5 <= u64::MAX,
    ensures
        ({
            let t = tally_spec(results@, results@.len() as int);
            &&& res.processed == t.0
            &&& res.skipped == t.1
            &&& res.failed == t.2
            &&& res.total_original_size == t.3
            &&& res.total_optimized_size == t.4
            &&& res.saved_bytes == t.5
            &&& res.processed + res.failed == results@.len()
            &&& res.skipped <= res.processed
            &&& saves_within(results@) ==> res.saved_bytes <= res.total_original_size
        }),
{
    let n = results.len();
    let mut t = BatchTally {
        processed: 0,
        skipped: 0,
        failed: 0,
        total_original_size: 0,
        total_optimized_size: 0,
        saved_bytes: 0,
    };
    let mut i: usize = 0;
    while i < n
        invariant
            n == results@.len(),
            i <= n,
            tally_spec(results@, n as int).3 <= u64::MAX,
            tally_spec(results@, n as int).4 <= u64::MAX,
            tally_spec(results@, n as int).5 <= u64::MAX,
            ({
                let s = tally_spec(results@, i as int);
                t.processed == s.0 && t.skipped == s.1 && t.failed == s.2 && t.total_original_size == s.3
                    && t.total_optimized_size == s.4 && t.saved_bytes == s.5
            }),
        decreases n - i,
    {
        proof {
            lemma_tally_monotone(results@, i as int + 1, n as int);
            lemma_tally_monotone(results@, i as int, i as int);
        }
        match &results[i] {
            Ok(o) => {
                t.processed = t.processed + 1;
                if o.skipped {
                    t.skipped = t.skipped + 1;
                }
                t.total_original_size = t.total_original_size + o.original_size;
                t.total_optimized_size = t.total_optimized_size + o.optimized_size;
                t.saved_bytes = t.saved_bytes + o.saved_bytes;
            },
            Err(_) => {
                t.failed = t.failed + 1;
            },
        }
        i = i + 1;
    }
    proof {
        lemma_tally_monotone(results@, n as int, n as int);
        if saves_within(results@) {
            lemma_tally_saved(results@, n as int);
        }
    }
    t
}

} // verus!
