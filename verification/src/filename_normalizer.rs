//! File names made safe for intermediate processing, and their restoration.
//!
//! A name is normalised by replacing characters that file systems refuse
//! and runs of white space with `_`, collapsing runs of `_`, trimming `_`
//! at both ends, and, when the result is too long, truncating it and
//! appending eight hexadecimal digits of its MD5 digest. The normaliser
//! remembers each original name with its normalised form, so that a
//! processed file can be renamed back.
//!
//! The extension detector is an outside service: its verdict for a file
//! (the detected extension, or `None` when detection failed) is passed in.

use vstd::prelude::*;
use vstd::string::*;
use vstd::utf8::encode_utf8;
use crate::text::{lowercase, to_lower, str_eq, owned, concat2, push_char, chars_of, string_from_chars};
use crate::paths::{file_name, file_name_of, extension, extension_of, file_stem, stem_of, vec_slice, trim_tail, after_last_slash};

verus! {

// ───────────────────────── character classes ─────────────────────────

/// Characters that file systems refuse in names: `<>:"/\|?*` and controls.
pub open spec fn is_dangerous(c: char) -> bool {
    c == '<' || c == '>' || c == ':' || c == '"' || c == '/' || c == '\\' || c == '|' || c == '?' || c == '*'
        || (c as u32) < 0x20
}

/// Unicode white space, as the regular-expression class `\s` matches it.
pub open spec fn is_space(c: char) -> bool {
    let u = c as u32;
    (0x09 <= u <= 0x0D) || u == 0x20 || u == 0x85 || u == 0xA0 || u == 0x1680 || (0x2000 <= u <= 0x200A)
        || u == 0x2028 || u == 0x2029 || u == 0x202F || u == 0x205F || u == 0x3000
}

/// Each dangerous character replaced by `_`.
pub open spec fn replace_dangerous(s: Seq<char>) -> Seq<char> {
    s.map_values(|c: char| if is_dangerous(c) { '_' } else { c })
}

/// Each maximal run of white space replaced by one `_`.
pub open spec fn collapse_spaces(s: Seq<char>) -> Seq<char>
    decreases s.len(),
{
    if s.len() == 0 {
        s
    } else if is_space(s.last()) {
        if s.len() >= 2 && is_space(s[s.len() - 2]) {
            collapse_spaces(s.drop_last())
        } else {
            collapse_spaces(s.drop_last()).push('_')
        }
    } else {
        collapse_spaces(s.drop_last()).push(s.last())
    }
}

/// Each maximal run of `_` replaced by one `_`.
pub open spec fn collapse_underscores(s: Seq<char>) -> Seq<char>
    decreases s.len(),
{
    if s.len() == 0 {
        s
    } else if s.last() == '_' && s.len() >= 2 && s[s.len() - 2] == '_' {
        collapse_underscores(s.drop_last())
    } else {
        collapse_underscores(s.drop_last()).push(s.last())
    }
}

/// Replaces every match of `[<>:"/\\|?*\x00-\x1F]` by `_` with
/// `regex::Regex::replace_all`. The pattern matches single characters, so
/// the result is the input with each matched character replaced.
#[verifier::external_body]
fn regex_replace_dangerous(s: &str) -> (res: String)
    ensures
        res@ == replace_dangerous(s@),
{
    regex::Regex::new(r#"[<>:"/\\|?*\x00-\x1F]"#).unwrap().replace_all(s, "_").into_owned()
}

/// Replaces every match of `\s+` by `_` with `regex::Regex::replace_all`.
/// `\s` is Unicode white space; a greedy `+` matches each maximal run, so
/// each run becomes one `_`.
#[verifier::external_body]
fn regex_collapse_spaces(s: &str) -> (res: String)
    ensures
        res@ == collapse_spaces(s@),
{
    regex::Regex::new(r"\s+").unwrap().replace_all(s, "_").into_owned()
}

/// Replaces every match of `_{2,}` by `_` with `regex::Regex::replace_all`:
/// each maximal run of two or more `_` becomes one `_`.
#[verifier::external_body]
fn regex_collapse_underscores(s: &str) -> (res: String)
    ensures
        res@ == collapse_underscores(s@),
{
    regex::Regex::new(r"_{2,}").unwrap().replace_all(s, "_").into_owned()
}

/// The MD5 digest of a byte string.
pub uninterp spec fn md5_digest(data: Seq<u8>) -> Seq<u8>;

/// Computes `md5::compute` and gives its 16 bytes.
#[verifier::external_body]
fn md5_bytes(data: &[u8]) -> (res: Vec<u8>)
    ensures
        res@ == md5_digest(data@),
        res@.len() == 16,
{
    md5::compute(data).0.to_vec()
}

// ───────────────────────── lengths and text ─────────────────────────

/// The number of UTF-8 bytes of a character.
pub open spec fn char_width(c: char) -> nat {
    let u = c as u32;
    if u < 0x80 {
        1
    } else if u < 0x800 {
        2
    } else if u < 0x10000 {
        3
    } else {
        4
    }
}

/// The number of UTF-8 bytes of a text (what `str::len` counts).
pub open spec fn byte_len(s: Seq<char>) -> nat {
    encode_utf8(s).len()
}

/// The UTF-8 length of a text is the sum of the widths of its characters.
/// `s` with `_` removed from both ends.
pub open spec fn trim_underscores(s: Seq<char>) -> Seq<char>
    decreases s.len(),
{
    if s.len() > 0 && s[0] == '_' {
        trim_underscores(s.drop_first())
    } else if s.len() > 0 && s.last() == '_' {
        trim_underscores(s.drop_last())
    } else {
        s
    }
}

/// A lower-case hexadecimal digit.
pub open spec fn hex_digit(n: nat) -> char {
    if n < 10 {
        ((n + 48) as u32) as char
    } else {
        ((n + 87) as u32) as char
    }
}

/// The first eight hexadecimal digits of a digest (its first four bytes, `{:02x}` each).
pub open spec fn hex8(d: Seq<u8>) -> Seq<char> {
    Seq::new(8, |i: int| hex_digit(if i % 2 == 0 { (d[i / 2] / 16) as nat } else { (d[i / 2] % 16) as nat }))
}

/// The base name cleaned by the three replacements and trimmed.
pub open spec fn cleaned(base: Seq<char>) -> Seq<char> {
    trim_underscores(collapse_underscores(collapse_spaces(replace_dangerous(base))))
}

/// A base name fitted to `max_base` bytes: unchanged when it fits, else its
/// first `max_base - 9` bytes (0 when smaller), `_` and eight digits of its MD5.
pub open spec fn fitted(n: Seq<char>, max_base: nat) -> Seq<char> {
    if byte_len(n) <= max_base {
        n
    } else {
        byte_prefix(n, keep_of(max_base)) + seq!['_'] + hex8(md5_digest(encode_utf8(n)))
    }
}

/// The longest prefix of `s` of at most `n` bytes.
pub open spec fn byte_prefix(s: Seq<char>, n: nat) -> Seq<char> {
    s.subrange(0, prefix_chars(s, n))
}

/// The number of characters of the longest prefix of `s` of at most `n` bytes.
pub open spec fn prefix_chars(s: Seq<char>, n: nat) -> int
    decreases s.len(),
{
    if s.len() == 0 || char_width(s[0]) > n {
        0
    } else {
        1 + prefix_chars(s.drop_first(), (n - char_width(s[0])) as nat)
    }
}

// ───────────────────────── paths ─────────────────────────

/// The parent of a path as `Path::parent` gives it (empty for a bare name,
/// the root, or an empty path).
pub open spec fn parent_of(p: Seq<char>) -> Seq<char> {
    let t = trim_tail(p);
    let head = t.subrange(0, after_last_slash(t));
    let stripped = strip_slashes(head);
    if stripped.len() == 0 && head.len() > 0 && t.len() > head.len() {
        seq!['/']
    } else {
        stripped
    }
}

/// `s` without trailing `/`.
pub open spec fn strip_slashes(s: Seq<char>) -> Seq<char>
    decreases s.len(),
{
    if s.len() > 0 && s.last() == '/' {
        strip_slashes(s.drop_last())
    } else {
        s
    }
}

/// `name` joined to the directory `dir` as `Path::join` does for a relative name.
pub open spec fn join_path(dir: Seq<char>, name: Seq<char>) -> Seq<char> {
    if dir.len() == 0 {
        name
    } else if dir.last() == '/' {
        dir + name
    } else {
        dir + seq!['/'] + name
    }
}

// ───────────────────────── the normaliser ─────────────────────────

/// A remembered original name with its normalised form.
#[derive(Debug, Clone)]
pub struct FilenameMapping {
    pub original: String,
    pub normalized: String,
    pub original_path: String,
    pub temp_path: String,
}

/// The meaning of a mapping.
pub struct MappingView {
    pub original: Seq<char>,
    pub normalized: Seq<char>,
    pub original_path: Seq<char>,
    pub temp_path: Seq<char>,
}

impl View for FilenameMapping {
    type V = MappingView;

    open spec fn view(&self) -> MappingView {
        MappingView {
            original: self.original@,
            normalized: self.normalized@,
            original_path: self.original_path@,
            temp_path: self.temp_path@,
        }
    }
}

/// The meanings of a list of mappings.
pub open spec fn mapping_views(v: Seq<FilenameMapping>) -> Seq<MappingView> {
    v.map_values(|m: FilenameMapping| m@)
}

/// No original name is remembered twice.
pub open spec fn unique_originals(v: Seq<MappingView>) -> bool {
    forall|i: int, j: int| 0 <= i < v.len() && 0 <= j < v.len() && i != j ==> v[i].original != v[j].original
}

/// The mappings after remembering `m`: it replaces the mapping of the same
/// original name in place, or is added at the end.
pub open spec fn insert_mapping(v: Seq<MappingView>, m: MappingView) -> Seq<MappingView> {
    if exists|i: int| 0 <= i < v.len() && v[i].original == m.original {
        v.update(choose|i: int| 0 <= i < v.len() && v[i].original == m.original, m)
    } else {
        v.push(m)
    }
}

/// The extension the detector's verdict leads to, for a file with extension `ext`.
pub open spec fn corrected_ext(ext: Seq<char>, detected: Option<Seq<char>>) -> Seq<char> {
    match detected {
        Some(d) => if d != lowercase(ext) { d } else { ext },
        None => ext,
    }
}

/// The settings of a normaliser.
pub struct NormalizerSettings {
    pub max_length: nat,
    pub preserve_extension: bool,
    pub use_magika: bool,
}

/// The base name and extension a path is normalised from.
pub open spec fn split_name(p: Seq<char>, st: NormalizerSettings, detected: Option<Seq<char>>) -> (Seq<char>, Option<Seq<char>>) {
    let name = file_name_of(p)->0;
    if st.preserve_extension {
        match extension_of(p) {
            Some(e) => (stem_of(p)->0, Some(if st.use_magika { corrected_ext(e, detected) } else { e })),
            None => (name, if st.use_magika { detected } else { None }),
        }
    } else {
        (name, None)
    }
}

/// The text of an optional string.
pub open spec fn opt_view(o: Option<String>) -> Option<Seq<char>> {
    match o {
        Some(s) => Some(s@),
        None => None,
    }
}

/// The bytes reserved for the extension and its dot.
pub open spec fn ext_len_of(ext: Option<Seq<char>>) -> nat {
    match ext {
        Some(e) => byte_len(e) + 1,
        None => 0,
    }
}

/// The texts involved fit in memory: their UTF-8 sizes are `usize` values.
pub open spec fn sizes_fit(p: Seq<char>, st: NormalizerSettings, detected: Option<Seq<char>>) -> bool {
    let (base, ext) = split_name(p, st, detected);
    &&& byte_len(cleaned(base)) <= usize::MAX
    &&& match ext {
        Some(e) => byte_len(e) < usize::MAX,
        None => true,
    }
}

/// The bytes left for the base name.
pub open spec fn max_base_of(st: NormalizerSettings, ext: Option<Seq<char>>) -> nat {
    if st.max_length >= ext_len_of(ext) { (st.max_length - ext_len_of(ext)) as nat } else { 0 }
}

/// The bytes of the base name kept before the hash when it is too long.
pub open spec fn keep_of(max_base: nat) -> nat {
    if max_base >= 9 { (max_base - 9) as nat } else { 0nat }
}

/// The normalised file name of a path.
pub open spec fn normalized_name(p: Seq<char>, st: NormalizerSettings, detected: Option<Seq<char>>) -> Seq<char> {
    let (base, ext) = split_name(p, st, detected);
    let n = fitted(cleaned(base), max_base_of(st, ext));
    match ext {
        Some(e) => n + seq!['.'] + e,
        None => n,
    }
}

/// The normaliser.
pub struct FilenameNormalizer {
    mappings: Vec<FilenameMapping>,
    max_length: usize,
    preserve_extension: bool,
    use_magika: bool,
}

// ───────────────────────── verified pieces ─────────────────────────

fn char_width_of(c: char) -> (res: usize)
    ensures
        res == char_width(c),
{
    let u = c as u32;
    if u < 0x80 {
        1
    } else if u < 0x800 {
        2
    } else if u < 0x10000 {
        3
    } else {
        4
    }
}

fn trim_underscores_exec(s: &str) -> (res: String)
    ensures
        res@ == trim_underscores(s@),
{
    let v = chars_of(s);
    let mut a: usize = 0;
    let mut b: usize = v.len();
    assert(v@.subrange(0, b as int) =~= s@);
    while a < b && v[a] == '_'
        invariant
            v@ == s@,
            a <= b == v@.len(),
            trim_underscores(s@) == trim_underscores(v@.subrange(a as int, b as int)),
        decreases b - a,
    {
        assert(v@.subrange(a as int, b as int).drop_first() =~= v@.subrange(a + 1, b as int));
        a = a + 1;
    }
    while a < b && v[b - 1] == '_'
        invariant
            v@ == s@,
            a <= b <= v@.len(),
            a < b ==> v@[a as int] != '_',
            trim_underscores(s@) == trim_underscores(v@.subrange(a as int, b as int)),
        decreases b - a,
    {
        assert(v@.subrange(a as int, b as int).drop_last() =~= v@.subrange(a as int, b - 1));
        b = b - 1;
    }
    let part = vec_slice(&v, a, b);
    string_from_chars(part.as_slice())
}

fn hex_char(n: u8) -> (res: char)
    requires
        n < 16,
    ensures
        res == hex_digit(n as nat),
{
    if n < 10 {
        (n + 48) as char
    } else {
        (n + 87) as char
    }
}

fn hex8_exec(d: &Vec<u8>) -> (res: String)
    requires
        d@.len() >= 4,
    ensures
        res@ == hex8(d@),
{
    let mut s = String::new();
    let mut i: usize = 0;
    while i < 4
        invariant
            i <= 4,
            d@.len() >= 4,
            s@ == hex8(d@).subrange(0, 2 * i as int),
        decreases 4 - i,
    {
        let b = d[i];
        push_char(&mut s, hex_char(b / 16));
        push_char(&mut s, hex_char(b % 16));
        i = i + 1;
        assert(s@ =~= hex8(d@).subrange(0, 2 * i as int));
    }
    assert(hex8(d@).subrange(0, 8) =~= hex8(d@));
    s
}

/// The first characters of `s` making up `n` bytes.
fn take_bytes(s: &str, n: usize) -> (res: String)
    ensures
        res@ == byte_prefix(s@, n as nat),
{
    let v = chars_of(s);
    let mut i: usize = 0;
    let mut left: usize = n;
    assert(v@.subrange(0, v@.len() as int) =~= s@);
    while i < v.len() && char_width_of(v[i]) <= left
        invariant
            v@ == s@,
            i <= v@.len(),
            left <= n,
            prefix_chars(s@, n as nat) == i + prefix_chars(v@.subrange(i as int, v@.len() as int), left as nat),
        decreases v@.len() - i,
    {
        assert(v@.subrange(i as int, v@.len() as int).drop_first() =~= v@.subrange(i + 1, v@.len() as int));
        left = left - char_width_of(v[i]);
        i = i + 1;
    }
    proof {
        lemma_prefix_chars_bound(s@, n as nat);
    }
    let part = vec_slice(&v, 0, i);
    string_from_chars(part.as_slice())
}

proof fn lemma_prefix_chars_bound(s: Seq<char>, n: nat)
    ensures
        0 <= prefix_chars(s, n) <= s.len(),
    decreases s.len(),
{
    if s.len() > 0 && char_width(s[0]) <= n {
        lemma_prefix_chars_bound(s.drop_first(), (n - char_width(s[0])) as nat);
    }
}

/// The parent of a path (`Path::parent`, empty when there is none).
pub fn parent_text(path: &str) -> (res: String)
    ensures
        res@ == parent_of(path@),
{
    let v = chars_of(path);
    let end = crate::paths::trimmed_end(&v);
    let start = crate::paths::component_start(&v, end);
    let ghost t = v@.subrange(0, end as int);
    proof {
        assert(t.subrange(0, start as int) =~= v@.subrange(0, start as int));
    }
    let mut k: usize = start;
    while k > 0 && v[k - 1] == '/'
        invariant
            k <= start <= end <= v@.len(),
            strip_slashes(v@.subrange(0, start as int)) == strip_slashes(v@.subrange(0, k as int)),
        decreases k,
    {
        assert(v@.subrange(0, k as int).drop_last() =~= v@.subrange(0, k - 1));
        k = k - 1;
    }
    if k == 0 && start > 0 && end > start {
        let mut s = String::new();
        push_char(&mut s, '/');
        assert(s@ =~= seq!['/']);
        s
    } else {
        let part = vec_slice(&v, 0, k);
        string_from_chars(part.as_slice())
    }
}

/// `name` joined to the directory `dir` (`Path::join` with a relative name).
pub fn join_text(dir: &str, name: &str) -> (res: String)
    ensures
        res@ == join_path(dir@, name@),
{
    let n = dir.unicode_len();
    if n == 0 {
        owned(name)
    } else if dir.get_char(n - 1) == '/' {
        concat2(dir, name)
    } else {
        let mut s = owned(dir);
        push_char(&mut s, '/');
        s.append(name);
        s
    }
}

fn copy_mapping(m: &FilenameMapping) -> (r: FilenameMapping)
    ensures
        r == *m,
{
    FilenameMapping {
        original: m.original.clone(),
        normalized: m.normalized.clone(),
        original_path: m.original_path.clone(),
        temp_path: m.temp_path.clone(),
    }
}

impl FilenameNormalizer {
    pub closed spec fn settings(&self) -> NormalizerSettings {
        NormalizerSettings {
            max_length: self.max_length as nat,
            preserve_extension: self.preserve_extension,
            use_magika: self.use_magika,
        }
    }

    /// The remembered mappings, in the order they were first remembered.
    pub closed spec fn mappings_view(&self) -> Seq<MappingView> {
        mapping_views(self.mappings@)
    }

    /// No two remembered mappings share an original name.
    pub open spec fn wf(&self) -> bool {
        unique_originals(self.mappings_view())
    }

    /// A normaliser with no mappings, names of at most 200 bytes, extensions
    /// kept, and extension detection on.
    pub fn new() -> (res: Self)
        ensures
            res.wf(),
            res.mappings_view().len() == 0,
            res.settings() == (NormalizerSettings { max_length: 200, preserve_extension: true, use_magika: true }),
    {
        let res = FilenameNormalizer {
            mappings: Vec::new(),
            max_length: 200,
            preserve_extension: true,
            use_magika: true,
        };
        assert(mapping_views(res.mappings@) =~= seq![]);
        res
    }

    /// Turns extension detection on or off.
    pub fn set_use_magika(&mut self, enabled: bool)
        ensures
            final(self).mappings_view() == old(self).mappings_view(),
            final(self).wf() == old(self).wf(),
            final(self).settings() == (NormalizerSettings { use_magika: enabled, ..old(self).settings() }),
    {
        self.use_magika = enabled;
    }

    /// Sets the largest normalised file name, in bytes.
    pub fn set_max_length(&mut self, length: usize)
        ensures
            final(self).mappings_view() == old(self).mappings_view(),
            final(self).wf() == old(self).wf(),
            final(self).settings() == (NormalizerSettings { max_length: length as nat, ..old(self).settings() }),
    {
        self.max_length = length;
    }

    /// Remembers a mapping: it replaces the mapping of the same original
    /// name, or is added.
    fn remember(&mut self, m: FilenameMapping)
        requires
            old(self).wf(),
        ensures
            final(self).wf(),
            final(self).settings() == old(self).settings(),
            final(self).mappings_view() == insert_mapping(old(self).mappings_view(), m@),
    {
        let ghost before = mapping_views(self.mappings@);
        let mut i: usize = 0;
        while i < self.mappings.len()
            invariant
                self.mappings@ == old(self).mappings@,
                self.max_length == old(self).max_length,
                self.preserve_extension == old(self).preserve_extension,
                self.use_magika == old(self).use_magika,
                unique_originals(before),
                before == mapping_views(self.mappings@),
                i <= self.mappings@.len(),
                forall|j: int| 0 <= j < i ==> before[j].original != m@.original,
            decreases self.mappings@.len() - i,
        {
            if str_eq(self.mappings[i].original.as_str(), m.original.as_str()) {
                proof {
                    assert(before[i as int].original == m@.original);
                    let k = choose|k: int| 0 <= k < before.len() && before[k].original == m@.original;
                    assert(k == i) by {
                        if k != i {
                            assert(unique_originals(before));
                        }
                    }
                }
                self.mappings.set(i, m);
                proof {
                    assert(mapping_views(self.mappings@) =~= before.update(i as int, m@));
                    assert(unique_originals(mapping_views(self.mappings@))) by {
                        let v = mapping_views(self.mappings@);
                        assert forall|a: int, b: int|
                            0 <= a < v.len() && 0 <= b < v.len() && a != b implies v[a].original != v[b].original by {
                            if a != i && b != i {
                                assert(v[a] == before[a] && v[b] == before[b]);
                            }
                        }
                    }
                }
                return;
            }
            i = i + 1;
        }
        self.mappings.push(m);
        proof {
            assert(mapping_views(self.mappings@) =~= before.push(m@));
        }
    }

    /// Normalises a file's name and remembers the mapping. `detected` is the
    /// extension detector's verdict for the file (used when detection is on).
    /// The result is the normalised path: the parent directory joined with
    /// the normalised name. A path without a file name is refused.
    pub fn normalize(&mut self, path: &str, detected: Option<&str>) -> (res: Result<String, String>)
        requires
            old(self).wf(),
            sizes_fit(path@, old(self).settings(), match detected { Some(d) => Some(d@), None => None }),
        ensures
            final(self).wf(),
            final(self).settings() == old(self).settings(),
            match res {
                Err(m) => file_name_of(path@) is None && m@ == "Invalid file path"@ && final(self).mappings_view()
                    == old(self).mappings_view(),
                Ok(t) => {
                    let det = match detected { Some(d) => Some(d@), None => None };
                    let name = normalized_name(path@, old(self).settings(), det);
                    &&& file_name_of(path@) is Some
                    &&& t@ == join_path(parent_of(path@), name)
                    &&& final(self).mappings_view() == insert_mapping(
                        old(self).mappings_view(),
                        MappingView {
                            original: file_name_of(path@)->0,
                            normalized: name,
                            original_path: path@,
                            temp_path: t@,
                        },
                    )
                },
            },
    {
        let original_name = match file_name(path) {
            Some(n) => n,
            None => return Err(owned("Invalid file path")),
        };
        let ghost det = match detected { Some(d) => Some(d@), None => None };
        let (base, ext): (String, Option<String>) = if self.preserve_extension {
            match extension(path) {
                Some(e) => {
                    let stem = match file_stem(path) {
                        Some(s) => s,
                        None => original_name.clone(),
                    };
                    let chosen = if self.use_magika {
                        match detected {
                            Some(d) => {
                                let lower = to_lower(e.as_str());
                                if !str_eq(d, lower.as_str()) {
                                    owned(d)
                                } else {
                                    e
                                }
                            },
                            None => e,
                        }
                    } else {
                        e
                    };
                    (stem, Some(chosen))
                },
                None => {
                    let d = if self.use_magika {
                        match detected {
                            Some(d) => Some(owned(d)),
                            None => None,
                        }
                    } else {
                        None
                    };
                    (original_name.clone(), d)
                },
            }
        } else {
            (original_name.clone(), None)
        };
        assert((base@, opt_view(ext)) == split_name(path@, self.settings(), det));
        let n1 = regex_replace_dangerous(base.as_str());
        let n2 = regex_collapse_spaces(n1.as_str());
        let n3 = regex_collapse_underscores(n2.as_str());
        let n4 = trim_underscores_exec(n3.as_str());
        let ghost ext_v = opt_view(ext);
        let ext_len: usize = match &ext {
            Some(e) => {
                let l = e.as_str().len();
                assert(l == byte_len(e@));
                let r = l + 1;
                assert(r == ext_len_of(Some(e@)));
                r
            },
            None => 0,
        };
        assert(ext_len == ext_len_of(ext_v));
        let max_base = self.max_length.saturating_sub(ext_len);
        assert(max_base == max_base_of(self.settings(), ext_v));
        assert(n4@ == cleaned(base@));
        let fitted_name = if n4.as_str().len() > max_base {
            let bytes = n4.as_str().as_bytes();
            assert(bytes@ == encode_utf8(n4@));
            let digest = md5_bytes(bytes);
            let hash = hex8_exec(&digest);
            let keep = max_base.saturating_sub(9);
            assert(keep == keep_of(max_base as nat));
            let mut t = take_bytes(n4.as_str(), keep);
            push_char(&mut t, '_');
            t.append(hash.as_str());
            assert(t@ =~= byte_prefix(n4@, keep_of(max_base as nat)) + seq!['_'] + hex8(md5_digest(encode_utf8(n4@))));
            t
        } else {
            n4
        };
        assert(fitted_name@ == fitted(cleaned(base@), max_base as nat));
        let final_name = match &ext {
            Some(e) => {
                let mut f = fitted_name;
                push_char(&mut f, '.');
                f.append(e.as_str());
                f
            },
            None => fitted_name,
        };
        assert(final_name@ == normalized_name(path@, self.settings(), det));
        let parent = parent_text(path);
        let temp_path = join_text(parent.as_str(), final_name.as_str());
        let mapping = FilenameMapping {
            original: original_name,
            normalized: final_name,
            original_path: owned(path),
            temp_path: temp_path.clone(),
        };
        self.remember(mapping);
        Ok(temp_path)
    }

    /// The original path of a file, found by its normalised name: the first
    /// remembered mapping with that normalised name.
    pub fn restore(&self, temp_path: &str) -> (res: Result<String, String>)
        requires
            self.wf(),
        ensures
            match res {
                Ok(r) => restored_from(self.mappings_view(), temp_path@, r@),
                Err(m) => match file_name_of(temp_path@) {
                    None => m@ == "Invalid temp path"@,
                    Some(n) => m@ == "No mapping found for temp file: "@ + n && forall|i: int|
                        0 <= i < self.mappings_view().len() ==> self.mappings_view()[i].normalized != n,
                },
            },
    {
        let temp_name = match file_name(temp_path) {
            Some(n) => n,
            None => return Err(owned("Invalid temp path")),
        };
        let mut i: usize = 0;
        while i < self.mappings.len()
            invariant
                i <= self.mappings@.len(),
                file_name_of(temp_path@) is Some,
                temp_name@ == file_name_of(temp_path@)->0,
                forall|j: int| 0 <= j < i ==> mapping_views(self.mappings@)[j].normalized != temp_name@,
            decreases self.mappings@.len() - i,
        {
            if str_eq(self.mappings[i].normalized.as_str(), temp_name.as_str()) {
                let parent = parent_text(temp_path);
                let r = join_text(parent.as_str(), self.mappings[i].original.as_str());
                assert(self.mappings_view()[i as int] == self.mappings@[i as int]@);
                assert(self.mappings_view()[i as int].normalized == file_name_of(temp_path@)->0
                    && r@ == join_path(parent_of(temp_path@), self.mappings_view()[i as int].original));
                return Ok(r);
            }
            i = i + 1;
        }
        Err(concat2("No mapping found for temp file: ", temp_name.as_str()))
    }

    /// The original path remembered for a normalised name, if any.
    pub fn get_original_path(&self, normalized_name: &str) -> (res: Option<&String>)
        ensures
            match res {
                Some(p) => exists|i: int|
                    0 <= i < self.mappings_view().len() && self.mappings_view()[i].normalized == normalized_name@
                        && p@ == self.mappings_view()[i].original_path,
                None => forall|i: int|
                    0 <= i < self.mappings_view().len() ==> self.mappings_view()[i].normalized != normalized_name@,
            },
    {
        let mut i: usize = 0;
        while i < self.mappings.len()
            invariant
                i <= self.mappings@.len(),
                forall|j: int| 0 <= j < i ==> mapping_views(self.mappings@)[j].normalized != normalized_name@,
            decreases self.mappings@.len() - i,
        {
            if str_eq(self.mappings[i].normalized.as_str(), normalized_name) {
                assert(self.mappings_view()[i as int] == self.mappings@[i as int]@);
                assert(self.mappings_view()[i as int].normalized == normalized_name@
                    && self.mappings[i as int].original_path@ == self.mappings_view()[i as int].original_path);
                return Some(&self.mappings[i].original_path);
            }
            i = i + 1;
        }
        None
    }

    /// Forgets all mappings.
    pub fn clear(&mut self)
        ensures
            final(self).wf(),
            final(self).settings() == old(self).settings(),
            final(self).mappings_view().len() == 0,
    {
        self.mappings.clear();
        assert(mapping_views(self.mappings@) =~= seq![]);
    }

    /// A copy of every mapping.
    pub fn export_mappings(&self) -> (res: Vec<FilenameMapping>)
        ensures
            mapping_views(res@) == self.mappings_view(),
            self.wf() ==> unique_originals(mapping_views(res@)),
    {
        let mut out: Vec<FilenameMapping> = Vec::new();
        let mut i: usize = 0;
        while i < self.mappings.len()
            invariant
                i <= self.mappings@.len(),
                out@ == self.mappings@.subrange(0, i as int),
            decreases self.mappings@.len() - i,
        {
            out.push(copy_mapping(&self.mappings[i]));
            i = i + 1;
            assert(out@ =~= self.mappings@.subrange(0, i as int));
        }
        assert(self.mappings@.subrange(0, self.mappings@.len() as int) =~= self.mappings@);
        out
    }

    /// Remembers each given mapping in turn (replacing one of the same
    /// original name).
    pub fn import_mappings(&mut self, mappings: Vec<FilenameMapping>)
        requires
            old(self).wf(),
        ensures
            final(self).wf(),
            final(self).settings() == old(self).settings(),
            final(self).mappings_view() == import_all(old(self).mappings_view(), mapping_views(mappings@)),
    {
        let mut i: usize = 0;
        let ghost start = self.mappings_view();
        while i < mappings.len()
            invariant
                self.wf(),
                self.settings() == old(self).settings(),
                start == old(self).mappings_view(),
                i <= mappings@.len(),
                self.mappings_view() == import_all(start, mapping_views(mappings@.subrange(0, i as int))),
            decreases mappings@.len() - i,
        {
            let m = copy_mapping(&mappings[i]);
            self.remember(m);
            proof {
                let prefix = mapping_views(mappings@.subrange(0, i + 1));
                assert(prefix.drop_last() =~= mapping_views(mappings@.subrange(0, i as int)));
                assert(prefix.last() == mappings@[i as int]@);
            }
            i = i + 1;
        }
        assert(mappings@.subrange(0, mappings@.len() as int) =~= mappings@);
    }

    /// The number of remembered mappings.
    pub fn mapping_count(&self) -> (res: usize)
        ensures
            res == self.mappings_view().len(),
    {
        self.mappings.len()
    }

    /// A mapping is remembered for this original name.
    pub fn has_mapping(&self, original_name: &str) -> (res: bool)
        ensures
            res == exists|i: int|
                0 <= i < self.mappings_view().len() && self.mappings_view()[i].original == original_name@,
    {
        let mut i: usize = 0;
        while i < self.mappings.len()
            invariant
                i <= self.mappings@.len(),
                forall|j: int| 0 <= j < i ==> mapping_views(self.mappings@)[j].original != original_name@,
            decreases self.mappings@.len() - i,
        {
            if str_eq(self.mappings[i].original.as_str(), original_name) {
                assert(self.mappings_view()[i as int].original == original_name@);
                return true;
            }
            i = i + 1;
        }
        false
    }
}

/// `r` is what restoring `temp` can give: the directory of `temp` joined
/// with the original name of a mapping whose normalised name is the file
/// name of `temp`.
pub open spec fn restored_from(v: Seq<MappingView>, temp: Seq<char>, r: Seq<char>) -> bool {
    file_name_of(temp) is Some && exists|i: int|
        0 <= i < v.len() && v[i].normalized == file_name_of(temp)->0 && r == join_path(parent_of(temp), v[i].original)
}

/// An ordinary file name: not empty, not `.` or `..`, without `/`.
pub open spec fn plain_name(x: Seq<char>) -> bool {
    x.len() > 0 && x != seq!['.'] && x != seq!['.', '.'] && !x.contains('/')
}

/// Every mapping with normalised name `n` belongs to the original name `o`.
pub open spec fn only_claimant(v: Seq<MappingView>, n: Seq<char>, o: Seq<char>) -> bool {
    forall|i: int| 0 <= i < v.len() && v[i].normalized == n ==> v[i].original == o
}

proof fn lemma_strip_slashes(s: Seq<char>)
    ensures
        strip_slashes(s).len() == 0 || strip_slashes(s).last() != '/',
        strip_slashes(s).len() <= s.len(),
        strip_slashes(s) == s.subrange(0, strip_slashes(s).len() as int),
    decreases s.len(),
{
    if s.len() > 0 && s.last() == '/' {
        lemma_strip_slashes(s.drop_last());
    } else {
        assert(s.subrange(0, s.len() as int) =~= s);
    }
}

/// A parent is empty, the root, or ends with something else than `/`.
proof fn lemma_parent_shape(p: Seq<char>)
    ensures
        parent_of(p).len() == 0 || parent_of(p) == seq!['/'] || parent_of(p).last() != '/',
{
    let t = trim_tail(p);
    let head = t.subrange(0, after_last_slash(t));
    lemma_strip_slashes(head);
}

proof fn lemma_als_no_slash_suffix(pre: Seq<char>, x: Seq<char>)
    requires
        !x.contains('/'),
    ensures
        after_last_slash(pre + x) == after_last_slash(pre),
    decreases x.len(),
{
    if x.len() > 0 {
        assert((pre + x).drop_last() =~= pre + x.drop_last());
        assert((pre + x).last() == x.last());
        assert(x.contains(x.last()));
        assert(!x.drop_last().contains('/')) by {
            if x.drop_last().contains('/') {
                let k = choose|k: int| 0 <= k < x.drop_last().len() && x.drop_last()[k] == '/';
                assert(x[k] == '/');
            }
        }
        lemma_als_no_slash_suffix(pre, x.drop_last());
    } else {
        assert(pre + x =~= pre);
    }
}

/// Joining a plain name to a parent directory and taking the parent and
/// the file name back gives the two parts.
proof fn lemma_join_split(q: Seq<char>, x: Seq<char>)
    requires
        plain_name(x),
        q.len() == 0 || q == seq!['/'] || q.last() != '/',
    ensures
        file_name_of(join_path(q, x)) == Some(x),
        parent_of(join_path(q, x)) == q,
{
    let j = join_path(q, x);
    let pre = if q.len() == 0 { q } else if q.last() == '/' { q } else { q + seq!['/'] };
    assert(j =~= pre + x);
    // the path does not end with a separator or a `.` component
    assert(x.contains(x.last()));
    assert(j.last() == x.last());
    if x.len() >= 2 {
        assert(j[j.len() - 2] == x[x.len() - 2]);
        assert(x.contains(x[x.len() - 2]));
    } else {
        assert(x =~= seq![x[0]]);
    }
    assert(trim_tail(j) == j);
    lemma_als_no_slash_suffix(pre, x);
    if pre.len() > 0 {
        assert(pre.last() == '/');
        assert(pre.drop_last() + seq!['/'] =~= pre);
    }
    assert(after_last_slash(pre) == pre.len());
    assert(j.subrange(after_last_slash(j), j.len() as int) =~= x);
    let head = j.subrange(0, after_last_slash(j));
    assert(head =~= pre);
    if q.len() == 0 {
        assert(strip_slashes(head) =~= q);
    } else if q == seq!['/'] {
        assert(strip_slashes(head.drop_last()) == strip_slashes(head));
        assert(head.drop_last().len() == 0);
    } else {
        assert(head.drop_last() =~= q);
        assert(strip_slashes(head) == strip_slashes(q));
    }
}

/// Restoring the path that normalising a file produced gives back the
/// file's original name in its directory, when the normalised name is an
/// ordinary file name that no other remembered file shares.
pub proof fn law_restore_after_normalize(
    v: Seq<MappingView>,
    p: Seq<char>,
    st: NormalizerSettings,
    detected: Option<Seq<char>>,
    r: Seq<char>,
)
    requires
        file_name_of(p) is Some,
        plain_name(normalized_name(p, st, detected)),
        only_claimant(v, normalized_name(p, st, detected), file_name_of(p)->0),
        restored_from(v, join_path(parent_of(p), normalized_name(p, st, detected)), r),
    ensures
        r == join_path(parent_of(p), file_name_of(p)->0),
{
    lemma_parent_shape(p);
    lemma_join_split(parent_of(p), normalized_name(p, st, detected));
}

/// After normalising a file, a mapping for its normalised name is
/// remembered, so restoring the normalised path finds one.
pub proof fn law_normalize_remembers(v: Seq<MappingView>, m: MappingView)
    ensures
        exists|i: int|
            0 <= i < insert_mapping(v, m).len() && insert_mapping(v, m)[i] == m,
{
    if exists|i: int| 0 <= i < v.len() && v[i].original == m.original {
        let k = choose|i: int| 0 <= i < v.len() && v[i].original == m.original;
        assert(insert_mapping(v, m)[k] == m);
    } else {
        assert(insert_mapping(v, m)[v.len() as int] == m);
    }
}

/// The mappings after importing `ms` one by one.
pub open spec fn import_all(v: Seq<MappingView>, ms: Seq<MappingView>) -> Seq<MappingView>
    decreases ms.len(),
{
    if ms.len() == 0 {
        v
    } else {
        insert_mapping(import_all(v, ms.drop_last()), ms.last())
    }
}

/// Importing the mappings a normaliser exports into one without mappings
/// reproduces them exactly, in the same order.
pub proof fn law_import_reproduces_export(v: Seq<MappingView>)
    requires
        unique_originals(v),
    ensures
        import_all(Seq::empty(), v) == v,
    decreases v.len(),
{
    if v.len() > 0 {
        let d = v.drop_last();
        assert(unique_originals(d)) by {
            assert forall|i: int, j: int| 0 <= i < d.len() && 0 <= j < d.len() && i != j implies d[i].original
                != d[j].original by {
                assert(d[i] == v[i] && d[j] == v[j]);
            }
        }
        law_import_reproduces_export(d);
        assert forall|i: int| 0 <= i < d.len() implies d[i].original != v.last().original by {
            assert(d[i] == v[i]);
        }
        assert(d.push(v.last()) =~= v);
    }
}

proof fn lemma_encode_concat(a: Seq<char>, b: Seq<char>)
    ensures
        encode_utf8(a + b) == encode_utf8(a) + encode_utf8(b),
    decreases a.len(),
{
    if a.len() == 0 {
        assert(a + b =~= b);
        assert(encode_utf8(a) + encode_utf8(b) =~= encode_utf8(b));
    } else {
        assert((a + b).drop_first() =~= a.drop_first() + b);
        lemma_encode_concat(a.drop_first(), b);
        assert(encode_utf8(a + b) =~= encode_utf8(a) + encode_utf8(b));
    }
}

proof fn lemma_scalar_width(c: char)
    ensures
        vstd::utf8::encode_scalar(c as u32).len() == char_width(c),
{
    vstd::utf8::char_is_scalar(c);
}

proof fn lemma_prefix_bytes(s: Seq<char>, n: nat)
    ensures
        byte_len(byte_prefix(s, n)) <= n,
    decreases s.len(),
{
    if s.len() == 0 || char_width(s[0]) > n {
        assert(byte_prefix(s, n) =~= Seq::<char>::empty());
    } else {
        let m = (n - char_width(s[0])) as nat;
        let r = s.drop_first();
        lemma_prefix_chars_bound(r, m);
        lemma_prefix_bytes(r, m);
        let p = byte_prefix(s, n);
        assert(p.drop_first() =~= byte_prefix(r, m));
        assert(p[0] == s[0]);
        lemma_scalar_width(s[0]);
    }
}

proof fn lemma_ascii_bytes(s: Seq<char>)
    requires
        forall|i: int| 0 <= i < s.len() ==> (#[trigger] s[i] as u32) < 0x80,
    ensures
        byte_len(s) == s.len(),
    decreases s.len(),
{
    if s.len() > 0 {
        assert forall|i: int| 0 <= i < s.drop_first().len() implies (#[trigger] s.drop_first()[i] as u32) < 0x80 by {
            assert(s.drop_first()[i] == s[i + 1]);
        }
        lemma_ascii_bytes(s.drop_first());
        assert((s[0] as u32) < 0x80);
        lemma_scalar_width(s[0]);
    }
}

/// A base name fitted to a room of at least nine bytes takes at most that
/// room: either it fitted already, or its kept prefix, the `_` and the
/// eight digits together fill no more.
pub proof fn law_fitted_within_limit(n: Seq<char>, max_base: nat)
    requires
        max_base >= 9,
    ensures
        byte_len(fitted(n, max_base)) <= max_base,
{
    if byte_len(n) > max_base {
        let p = byte_prefix(n, keep_of(max_base));
        let h = hex8(md5_digest(encode_utf8(n)));
        lemma_prefix_bytes(n, keep_of(max_base));
        assert forall|i: int| 0 <= i < h.len() implies (#[trigger] h[i] as u32) < 0x80 by {
            let d = md5_digest(encode_utf8(n));
            let k: nat = if i % 2 == 0 { (d[i / 2] / 16) as nat } else { (d[i / 2] % 16) as nat };
            assert(k < 16);
        }
        lemma_ascii_bytes(h);
        lemma_ascii_bytes(seq!['_']);
        lemma_encode_concat(p, seq!['_']);
        lemma_encode_concat(p + seq!['_'], h);
    }
}

/// The normalised name of a file keeps within the length limit whenever the
/// limit leaves at least nine bytes beside the extension (and its dot).
pub proof fn law_normalized_within_limit(p: Seq<char>, st: NormalizerSettings, detected: Option<Seq<char>>)
    requires
        max_base_of(st, split_name(p, st, detected).1) >= 9,
    ensures
        byte_len(normalized_name(p, st, detected)) <= st.max_length,
{
    let (base, ext) = split_name(p, st, detected);
    let n = fitted(cleaned(base), max_base_of(st, ext));
    law_fitted_within_limit(cleaned(base), max_base_of(st, ext));
    match ext {
        Some(e) => {
            lemma_ascii_bytes(seq!['.']);
            lemma_encode_concat(n, seq!['.']);
            lemma_encode_concat(n + seq!['.'], e);
        },
        None => {},
    }
}

impl Default for FilenameNormalizer {
    fn default() -> (res: Self)
        ensures
            res.wf(),
            res.mappings_view().len() == 0,
            res.settings() == (NormalizerSettings { max_length: 200, preserve_extension: true, use_magika: true }),
    {
        Self::new()
    }
}

} // verus!
