//! Collecting the files to convert from paths given on the command line,
//! filtered by extension, with optional recursion into directories.
//!
//! The file system is handed in as a tree of entries, each with what the
//! caller found out about it (a file, a directory, a symbolic link) and, for
//! a directory, its entries in the order the system listed them. Which
//! directories are read, and which files are taken, is decided here.

use vstd::prelude::*;
use crate::paths::{extension, extension_of};
use crate::text::{lowercase, str_eq, to_lower};

verus! {

/// One entry of the file system, as the caller found it.
#[derive(Debug)]
pub struct FsEntry {
    pub path: String,
    pub is_symlink: bool,
    pub is_file: bool,
    pub is_dir: bool,
    /// The entries of a directory in listing order; read only for a
    /// directory that the collector descends into (see `descends_into`).
    pub children: Vec<FsEntry>,
}

/// Why a path could not be collected.
#[derive(Debug, Clone, PartialEq, Eq)]
pub enum CollectError {
    /// "Path does not exist: {}".
    NotFound(String),
    /// "Path is neither file nor directory: {}".
    NotFileOrDir(String),
}

impl CollectError {
    /// The message, as the error is displayed.
    pub fn message(&self) -> (res: String)
        ensures
            res@ == match self {
                CollectError::NotFound(p) => "Path does not exist: "@ + p@,
                CollectError::NotFileOrDir(p) => "Path is neither file nor directory: "@ + p@,
            },
    {
        match self {
            CollectError::NotFound(p) => crate::text::concat2("Path does not exist: ", p.as_str()),
            CollectError::NotFileOrDir(p) => crate::text::concat2("Path is neither file nor directory: ", p.as_str()),
        }
    }
}

/// Collects files, filtered by extension.
#[derive(Debug, Clone)]
pub struct FileCollector {
    /// The extensions to take (compared without regard to case); all
    /// files are taken when it is empty.
    pub extensions: Vec<String>,
    /// Whether directories found inside a directory are entered.
    pub recursive: bool,
    /// How many directory levels are read (`None`: no limit).
    pub max_depth: Option<usize>,
    /// Whether symbolic links inside a directory are followed.
    pub follow_symlinks: bool,
}

impl Default for FileCollector {
    /// No extension filter, no recursion, no depth limit, links not followed.
    fn default() -> (res: Self)
        ensures
            res.extensions@.len() == 0,
            !res.recursive,
            res.max_depth is None,
            !res.follow_symlinks,
    {
        FileCollector { extensions: Vec::new(), recursive: false, max_depth: None, follow_symlinks: false }
    }
}

/// Whether a file with path `p` passes the extension filter `exts`.
pub open spec fn ext_matches(exts: Seq<String>, p: Seq<char>) -> bool {
    exts.len() == 0 || match extension_of(p) {
        Some(x) => exists|i: int| 0 <= i < exts.len() && lowercase(#[trigger] exts[i]@) == lowercase(x),
        None => false,
    }
}

/// Whether a directory at level `depth` is read.
pub open spec fn reads_level(c: FileCollector, depth: int) -> bool {
    match c.max_depth {
        Some(max) => depth < max,
        None => true,
    }
}

/// The level below `depth` (levels only matter against a limit, so the
/// count stops at the largest `usize`).
pub open spec fn next_level(depth: int) -> int {
    if depth < usize::MAX {
        depth + 1
    } else {
        depth
    }
}

/// The files taken from the first `k` entries of a directory at level
/// `depth`: a file that passes the filter is taken; a directory is entered
/// when the collector is recursive and its level is read; a symbolic link
/// is passed over unless links are followed.
pub open spec fn gathered(c: FileCollector, entries: Seq<FsEntry>, depth: int, k: int) -> Seq<Seq<char>>
    decreases entries, k,
{
    if k <= 0 || k > entries.len() {
        Seq::empty()
    } else {
        let prev = gathered(c, entries, depth, k - 1);
        let e = entries[k - 1];
        if !c.follow_symlinks && e.is_symlink {
            prev
        } else if e.is_file {
            if ext_matches(c.extensions@, e.path@) {
                prev.push(e.path@)
            } else {
                prev
            }
        } else if e.is_dir && c.recursive {
            let d = next_level(depth);
            if reads_level(c, d) {
                proof {
                    assert(decreases_to!(entries => entries[k - 1]));
                }
                prev + gathered(c, e.children@, d, e.children@.len() as int)
            } else {
                prev
            }
        } else {
            prev
        }
    }
}

/// The files taken from a directory at level `depth` with these entries.
pub open spec fn from_dir(c: FileCollector, entries: Seq<FsEntry>, depth: int) -> Seq<Seq<char>> {
    if reads_level(c, depth) {
        gathered(c, entries, depth, entries.len() as int)
    } else {
        Seq::empty()
    }
}

/// What collecting from one given path gives: the path itself where it is
/// a file that passes the filter, the files of the directory where it is a
/// directory, an error where it does not exist or is neither.
pub open spec fn collect_spec(c: FileCollector, root: FsEntry, exists: bool) -> Result<Seq<Seq<char>>, CollectError> {
    if !exists {
        Err(CollectError::NotFound(root.path))
    } else if root.is_file {
        if ext_matches(c.extensions@, root.path@) {
            Ok(seq![root.path@])
        } else {
            Ok(Seq::empty())
        }
    } else if root.is_dir {
        Ok(from_dir(c, root.children@, 0))
    } else {
        Err(CollectError::NotFileOrDir(root.path))
    }
}

/// The order in which `Vec<PathBuf>::sort` leaves paths (paths compare by
/// their components).
pub uninterp spec fn sorted_by_components(v: Seq<Seq<char>>) -> Seq<Seq<char>>;

/// What `Vec<PathBuf>::dedup` leaves of paths (paths are equal where their
/// components are).
pub uninterp spec fn dedup_by_components(v: Seq<Seq<char>>) -> Seq<Seq<char>>;

/// Whether the path `a` comes at or before the path `b` in the order of
/// `PathBuf` (`<=`).
pub uninterp spec fn path_le(a: Seq<char>, b: Seq<char>) -> bool;

/// Whether `a` and `b` are the same path (`==` on `PathBuf`, which may hold
/// of different texts, as of `a/b` and `a//b`).
pub uninterp spec fn same_path(a: Seq<char>, b: Seq<char>) -> bool;

/// Sorts paths with `sort` on `Vec<PathBuf>`. The result is a
/// rearrangement of the argument in ascending order of `PathBuf`; the
/// result itself and that order are named, not written out.
#[verifier::external_body]
fn sort_paths(v: Vec<String>) -> (res: Vec<String>)
    ensures
        texts(res@) == sorted_by_components(texts(v@)),
        texts(res@).to_multiset() == texts(v@).to_multiset(),
        forall|i: int, j: int|
            #![trigger texts(res@)[i], texts(res@)[j]]
            0 <= i < j < res@.len() ==> path_le(texts(res@)[i], texts(res@)[j]),
{
    let mut p: Vec<std::path::PathBuf> = v.into_iter().map(std::path::PathBuf::from).collect();
    p.sort();
    p.into_iter().map(|x| x.to_string_lossy().into_owned()).collect()
}

/// Removes consecutive repeats with `dedup` on `Vec<PathBuf>`; what is left
/// is named. It keeps the first path of each run of equal paths, in order,
/// so what is left comes from the argument, starts with its first path,
/// holds no two equal texts side by side, and holds a path equal to each
/// path of the argument. From a sorted argument it removes every repeat, so
/// what is left is sorted with no two paths equal.
#[verifier::external_body]
fn dedup_paths(v: Vec<String>) -> (res: Vec<String>)
    ensures
        texts(res@) == dedup_by_components(texts(v@)),
        res@.len() <= v@.len(),
        forall|i: int| 0 <= i < res@.len() ==> texts(v@).contains(#[trigger] texts(res@)[i]),
        forall|i: int| 0 <= i < res@.len() - 1 ==> #[trigger] texts(res@)[i] != texts(res@)[i + 1],
        v@.len() > 0 ==> res@.len() > 0 && texts(res@)[0] == texts(v@)[0],
        forall|i: int|
            0 <= i < v@.len() ==> exists|j: int| 0 <= j < res@.len() && same_path(#[trigger] texts(v@)[i], texts(res@)[j]),
        (forall|i: int, j: int|
            #![trigger texts(v@)[i], texts(v@)[j]]
            0 <= i < j < v@.len() ==> path_le(texts(v@)[i], texts(v@)[j])) ==> forall|i: int, j: int|
            #![trigger texts(res@)[i], texts(res@)[j]]
            0 <= i < j < res@.len() ==> path_le(texts(res@)[i], texts(res@)[j]) && !same_path(
                texts(res@)[i],
                texts(res@)[j],
            ),
{
    let mut p: Vec<std::path::PathBuf> = v.into_iter().map(std::path::PathBuf::from).collect();
    p.dedup();
    p.into_iter().map(|x| x.to_string_lossy().into_owned()).collect()
}

/// The files of all given paths, one after the other, or the first error.
pub open spec fn collect_all_spec(c: FileCollector, roots: Seq<(FsEntry, bool)>, k: int) -> Result<Seq<Seq<char>>, CollectError>
    decreases k,
{
    if k <= 0 {
        Ok(Seq::empty())
    } else {
        match collect_all_spec(c, roots, k - 1) {
            Err(e) => Err(e),
            Ok(prev) => match collect_spec(c, roots[k - 1].0, roots[k - 1].1) {
                Err(e) => Err(e),
                Ok(w) => Ok(prev + w),
            },
        }
    }
}

proof fn lemma_error_stays(c: FileCollector, roots: Seq<(FsEntry, bool)>, k: int, m: int)
    requires
        0 <= k <= m,
        collect_all_spec(c, roots, k) is Err,
    ensures
        collect_all_spec(c, roots, m) == collect_all_spec(c, roots, k),
    decreases m - k,
{
    if m > k {
        lemma_error_stays(c, roots, k, m - 1);
    }
}

/// The text of each string.
pub open spec fn texts(v: Seq<String>) -> Seq<Seq<char>> {
    v.map_values(|s: String| s@)
}

impl FileCollector {
    /// A collector for the given extensions, otherwise as `default`.
    pub fn new(extensions: Vec<String>) -> (res: Self)
        ensures
            res.extensions@ == extensions@,
            !res.recursive,
            res.max_depth is None,
            !res.follow_symlinks,
    {
        FileCollector { extensions, recursive: false, max_depth: None, follow_symlinks: false }
    }

    /// The same collector with recursion switched on or off.
    pub fn recursive(self, enabled: bool) -> (res: Self)
        ensures
            res.recursive == enabled,
            res.extensions@ == self.extensions@,
            res.max_depth == self.max_depth,
            res.follow_symlinks == self.follow_symlinks,
    {
        FileCollector { recursive: enabled, ..self }
    }

    /// The same collector reading at most `depth` directory levels.
    pub fn max_depth(self, depth: usize) -> (res: Self)
        ensures
            res.max_depth == Some(depth),
            res.extensions@ == self.extensions@,
            res.recursive == self.recursive,
            res.follow_symlinks == self.follow_symlinks,
    {
        FileCollector { max_depth: Some(depth), ..self }
    }

    /// Whether a file passes the extension filter.
    pub fn matches_extension(&self, path: &str) -> (res: bool)
        ensures
            res == ext_matches(self.extensions@, path@),
    {
        if self.extensions.len() == 0 {
            return true;
        }
        match extension(path) {
            None => false,
            Some(ext) => {
                let ext_l = to_lower(ext.as_str());
                let mut i: usize = 0;
                while i < self.extensions.len()
                    invariant
                        i <= self.extensions@.len(),
                        ext_l@ == lowercase(ext@),
                        extension_of(path@) == Some(ext@),
                        forall|j: int| 0 <= j < i ==> lowercase(#[trigger] self.extensions@[j]@) != lowercase(ext@),
                    decreases self.extensions@.len() - i,
                {
                    let e = to_lower(self.extensions[i].as_str());
                    if str_eq(e.as_str(), ext_l.as_str()) {
                        return true;
                    }
                    i = i + 1;
                }
                false
            },
        }
    }

    /// Whether a directory at level `depth` is read; the caller lists a
    /// directory's entries only where this holds.
    pub fn descends_into(&self, depth: usize) -> (res: bool)
        ensures
            res == reads_level(*self, depth as int),
    {
        match self.max_depth {
            Some(max) => depth < max,
            None => true,
        }
    }

    /// Whether an entry of a directory at level `depth` is entered, so
    /// that the caller lists its entries (at the level `next_depth(depth)`).
    pub fn enters_entry(&self, is_symlink: bool, is_file: bool, is_dir: bool, depth: usize) -> (res: bool)
        ensures
            res == (!(!self.follow_symlinks && is_symlink) && !is_file && is_dir && self.recursive && reads_level(
                *self,
                next_level(depth as int),
            )),
    {
        let d = Self::next_depth(depth);
        !(!self.follow_symlinks && is_symlink) && !is_file && is_dir && self.recursive && self.descends_into(d)
    }

    /// The level below `depth`.
    pub fn next_depth(depth: usize) -> (res: usize)
        ensures
            res == next_level(depth as int),
    {
        if depth < usize::MAX { depth + 1 } else { depth }
    }

    fn gather(&self, entries: &Vec<FsEntry>, depth: usize) -> (res: Vec<String>)
        ensures
            texts(res@) == gathered(*self, entries@, depth as int, entries@.len() as int),
        decreases entries@,
    {
        let mut out: Vec<String> = Vec::new();
        let mut i: usize = 0;
        while i < entries.len()
            invariant
                i <= entries@.len(),
                texts(out@) == gathered(*self, entries@, depth as int, i as int),
            decreases entries@.len() - i,
        {
            let e = &entries[i];
            let ghost before = out@;
            if !self.follow_symlinks && e.is_symlink {
            } else if e.is_file {
                if self.matches_extension(e.path.as_str()) {
                    out.push(e.path.clone());
                    assert(texts(out@) =~= texts(before).push(e.path@));
                }
            } else if e.is_dir && self.recursive {
                let d = if depth < usize::MAX { depth + 1 } else { depth };
                if self.descends_into(d) {
                    proof {
                        assert(decreases_to!(entries@ => entries@[i as int]));
                    }
                    let mut sub = self.gather(&e.children, d);
                    let ghost subv = sub@;
                    out.append(&mut sub);
                    assert(texts(out@) =~= texts(before) + texts(subv));
                }
            }
            i = i + 1;
        }
        out
    }

    /// The files of a directory at level `depth`, in listing order.
    pub fn collect_from_dir(&self, entries: &Vec<FsEntry>, depth: usize) -> (res: Vec<String>)
        ensures
            texts(res@) == from_dir(*self, entries@, depth as int),
    {
        if !self.descends_into(depth) {
            return Vec::new();
        }
        self.gather(entries, depth)
    }

    /// The files to take from one path that was given.
    pub fn collect(&self, root: &FsEntry, exists: bool) -> (res: Result<Vec<String>, CollectError>)
        ensures
            match (res, collect_spec(*self, *root, exists)) {
                (Ok(v), Ok(w)) => texts(v@) == w,
                (Err(e), Err(f)) => e == f,
                _ => false,
            },
    {
        if !exists {
            return Err(CollectError::NotFound(root.path.clone()));
        }
        if root.is_file {
            if self.matches_extension(root.path.as_str()) {
                let v = vec![root.path.clone()];
                assert(texts(v@) =~= seq![root.path@]);
                Ok(v)
            } else {
                Ok(Vec::new())
            }
        } else if root.is_dir {
            Ok(self.collect_from_dir(&root.children, 0))
        } else {
            Err(CollectError::NotFileOrDir(root.path.clone()))
        }
    }

    /// The files of several given paths (each with whether it exists),
    /// sorted and without repeats; the first error stops the collection.
    pub fn collect_multiple(&self, roots: &[(FsEntry, bool)]) -> (res: Result<Vec<String>, CollectError>)
        ensures
            match (res, collect_all_spec(*self, roots@, roots@.len() as int)) {
                (Ok(v), Ok(w)) => {
                    &&& texts(v@) == dedup_by_components(sorted_by_components(w))
                    &&& forall|i: int| 0 <= i < v@.len() ==> w.contains(#[trigger] texts(v@)[i])
                    &&& forall|i: int| 0 <= i < v@.len() - 1 ==> #[trigger] texts(v@)[i] != texts(v@)[i + 1]
                    &&& (v@.len() == 0 <==> w.len() == 0)
                    &&& forall|i: int, j: int|
                        #![trigger texts(v@)[i], texts(v@)[j]]
                        0 <= i < j < v@.len() ==> path_le(texts(v@)[i], texts(v@)[j]) && !same_path(
                            texts(v@)[i],
                            texts(v@)[j],
                        )
                    &&& forall|i: int|
                        0 <= i < w.len() ==> exists|j: int| 0 <= j < v@.len() && same_path(#[trigger] w[i], texts(v@)[j])
                },
                (Err(e), Err(f)) => e == f,
                _ => false,
            },
    {
        let mut all: Vec<String> = Vec::new();
        let mut i: usize = 0;
        assert(texts(all@) =~= Seq::empty());
        while i < roots.len()
            invariant
                i <= roots@.len(),
                collect_all_spec(*self, roots@, i as int) == Ok::<Seq<Seq<char>>, CollectError>(texts(all@)),
            decreases roots@.len() - i,
        {
            match self.collect(&roots[i].0, roots[i].1) {
                Err(e) => {
                    proof {
                        lemma_error_stays(*self, roots@, i as int + 1, roots@.len() as int);
                    }
                    return Err(e);
                },
                Ok(mut files) => {
                    let ghost before = all@;
                    let ghost fv = files@;
                    all.append(&mut files);
                    assert(texts(all@) =~= texts(before) + texts(fv));
                },
            }
            i = i + 1;
        }
        let ghost w = texts(all@);
        let sorted = sort_paths(all);
        let out = dedup_paths(sorted);
        proof {
            broadcast use vstd::seq_lib::group_to_multiset_ensures;

            let sv = texts(sorted@);
            assert(sv.len() == w.len()) by {
                assert(sv.to_multiset().len() == w.to_multiset().len());
            }
            assert forall|i: int| 0 <= i < w.len() implies exists|j: int|
                0 <= j < out@.len() && same_path(#[trigger] w[i], texts(out@)[j]) by {
                let x = w[i];
                assert(w.contains(x));
                assert(w.to_multiset().count(x) > 0);
                assert(sv.to_multiset().count(x) > 0);
                assert(sv.contains(x));
                let k = choose|k: int| 0 <= k < sv.len() && sv[k] == x;
                assert(exists|j: int| 0 <= j < out@.len() && same_path(sv[k], texts(out@)[j]));
            }
            assert forall|i: int| 0 <= i < out@.len() implies w.contains(#[trigger] texts(out@)[i]) by {
                let x = texts(out@)[i];
                assert(sv.contains(x));
                assert(sv.to_multiset().count(x) > 0);
                assert(w.to_multiset().count(x) > 0);
            }
        }
        Ok(out)
    }
}

} // verus!
