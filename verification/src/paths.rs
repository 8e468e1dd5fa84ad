//! Path text handling on `/`-separated paths: the final component, its
//! extension and its stem, with the conventions of `std::path::Path`
//! (trailing separators and `.` components are ignored, `..` has no name,
//! a leading dot does not start an extension).

use vstd::prelude::*;
use vstd::string::*;
use crate::text::{chars_of, string_from_chars};

verus! {

/// The path without trailing `/` separators and trailing `/.` components.
pub open spec fn trim_tail(p: Seq<char>) -> Seq<char>
    decreases p.len(),
{
    if p.len() > 0 && p.last() == '/' {
        trim_tail(p.drop_last())
    } else if p.len() >= 2 && p.last() == '.' && p[p.len() - 2] == '/' {
        trim_tail(p.subrange(0, p.len() - 2))
    } else {
        p
    }
}

/// Index just after the last `/` of `p` (0 when there is none).
pub open spec fn after_last_slash(p: Seq<char>) -> int
    decreases p.len(),
{
    if p.len() == 0 {
        0
    } else if p.last() == '/' {
        p.len() as int
    } else {
        after_last_slash(p.drop_last())
    }
}

/// Index of the last `.` of `p`, or -1 when there is none.
pub open spec fn last_dot(p: Seq<char>) -> int
    decreases p.len(),
{
    if p.len() == 0 {
        -1
    } else if p.last() == '.' {
        p.len() - 1
    } else {
        last_dot(p.drop_last())
    }
}

/// The final component of the path, as `Path::file_name` gives it.
pub open spec fn file_name_of(p: Seq<char>) -> Option<Seq<char>> {
    let t = trim_tail(p);
    let name = t.subrange(after_last_slash(t), t.len() as int);
    if name.len() == 0 || name == seq!['.'] || name == seq!['.', '.'] {
        None
    } else {
        Some(name)
    }
}

/// The extension of the path, as `Path::extension` gives it: what follows
/// the last dot of the file name, unless that dot is its first character.
pub open spec fn extension_of(p: Seq<char>) -> Option<Seq<char>> {
    match file_name_of(p) {
        None => None,
        Some(name) => {
            let k = last_dot(name);
            if k <= 0 {
                None
            } else {
                Some(name.subrange(k + 1, name.len() as int))
            }
        },
    }
}

/// The file name without its extension, as `Path::file_stem` gives it.
pub open spec fn stem_of(p: Seq<char>) -> Option<Seq<char>> {
    match file_name_of(p) {
        None => None,
        Some(name) => {
            let k = last_dot(name);
            if k <= 0 {
                Some(name)
            } else {
                Some(name.subrange(0, k))
            }
        },
    }
}

pub proof fn lemma_after_last_slash_bounds(p: Seq<char>)
    ensures
        0 <= after_last_slash(p) <= p.len(),
    decreases p.len(),
{
    if p.len() > 0 && p.last() != '/' {
        lemma_after_last_slash_bounds(p.drop_last());
    }
}

pub proof fn lemma_last_dot_bounds(p: Seq<char>)
    ensures
        -1 <= last_dot(p) < p.len(),
        last_dot(p) >= 0 ==> p[last_dot(p)] == '.',
        forall|i: int| last_dot(p) < i < p.len() ==> p[i] != '.',
    decreases p.len(),
{
    if p.len() > 0 && p.last() != '.' {
        lemma_last_dot_bounds(p.drop_last());
        assert forall|i: int| last_dot(p) < i < p.len() implies p[i] != '.' by {
            if i < p.len() - 1 {
                assert(p.drop_last()[i] == p[i]);
            }
        }
    }
}

/// End of the trimmed path: the length of `trim_tail(p)`, which is a prefix of `p`.
pub(crate) fn trimmed_end(v: &Vec<char>) -> (end: usize)
    ensures
        end <= v@.len(),
        trim_tail(v@) == v@.subrange(0, end as int),
{
    let mut end: usize = v.len();
    assert(v@.subrange(0, end as int) =~= v@);
    loop
        invariant
            end <= v@.len(),
            trim_tail(v@) == trim_tail(v@.subrange(0, end as int)),
        decreases end,
    {
        let ghost cur = v@.subrange(0, end as int);
        if end > 0 && v[end - 1] == '/' {
            assert(cur.drop_last() =~= v@.subrange(0, end - 1));
            end = end - 1;
        } else if end >= 2 && v[end - 1] == '.' && v[end - 2] == '/' {
            assert(cur.subrange(0, cur.len() - 2) =~= v@.subrange(0, end - 2));
            end = end - 2;
        } else {
            return end;
        }
    }
}

/// Start of the last component of `v[..end]`.
pub(crate) fn component_start(v: &Vec<char>, end: usize) -> (start: usize)
    requires
        end <= v@.len(),
    ensures
        start <= end,
        start == after_last_slash(v@.subrange(0, end as int)),
{
    let mut j: usize = end;
    while j > 0 && v[j - 1] != '/'
        invariant
            j <= end <= v@.len(),
            after_last_slash(v@.subrange(0, end as int)) == after_last_slash(v@.subrange(0, j as int)),
        decreases j,
    {
        assert(v@.subrange(0, j as int).drop_last() =~= v@.subrange(0, j - 1));
        j = j - 1;
    }
    j
}

/// Position of the last `.` within `v[start..end]`, relative to `start`.
fn dot_in(v: &Vec<char>, start: usize, end: usize) -> (k: Option<usize>)
    requires
        start <= end <= v@.len(),
    ensures
        match k {
            None => last_dot(v@.subrange(start as int, end as int)) == -1,
            Some(d) => d == last_dot(v@.subrange(start as int, end as int)),
        },
{
    let ghost name = v@.subrange(start as int, end as int);
    let mut j: usize = end;
    while j > start && v[j - 1] != '.'
        invariant
            start <= j <= end <= v@.len(),
            last_dot(name) == last_dot(v@.subrange(start as int, j as int)),
        decreases j,
    {
        assert(v@.subrange(start as int, j as int).drop_last() =~= v@.subrange(start as int, j - 1));
        j = j - 1;
    }
    if j == start {
        assert(v@.subrange(start as int, j as int).len() == 0);
        None
    } else {
        Some(j - 1 - start)
    }
}

/// Finds the file name of a path: `Some((start, end))` with the name at
/// `v[start..end]`, or `None` when the path has no file name.
fn name_bounds(v: &Vec<char>) -> (res: Option<(usize, usize)>)
    ensures
        match res {
            None => file_name_of(v@) is None,
            Some((s, e)) => s <= e <= v@.len() && file_name_of(v@) == Some(
                v@.subrange(s as int, e as int),
            ),
        },
{
    let end = trimmed_end(v);
    let start = component_start(v, end);
    let ghost t = v@.subrange(0, end as int);
    proof {
        assert(t.subrange(start as int, end as int) =~= v@.subrange(start as int, end as int));
    }
    let len = end - start;
    if len == 0 {
        return None;
    }
    if len == 1 && v[start] == '.' {
        assert(v@.subrange(start as int, end as int) =~= seq!['.']);
        return None;
    }
    if len == 2 && v[start] == '.' && v[start + 1] == '.' {
        assert(v@.subrange(start as int, end as int) =~= seq!['.', '.']);
        return None;
    }
    proof {
        let name = v@.subrange(start as int, end as int);
        if len == 1 {
            assert(name[0] != '.');
            assert(name != seq!['.']);
        }
        if len == 2 {
            assert(name[0] != '.' || name[1] != '.');
            assert(name != seq!['.', '.']);
        }
    }
    Some((start, end))
}

/// The file name of a path (`Path::file_name`).
pub fn file_name(path: &str) -> (res: Option<String>)
    ensures
        match res {
            None => file_name_of(path@) is None,
            Some(n) => file_name_of(path@) == Some(n@),
        },
{
    let v = chars_of(path);
    match name_bounds(&v) {
        None => None,
        Some((s, e)) => {
            let slice = vec_slice(&v, s, e);
            Some(string_from_chars(slice.as_slice()))
        },
    }
}

/// The characters `v[s..e]` as a new vector.
pub fn vec_slice(v: &Vec<char>, s: usize, e: usize) -> (res: Vec<char>)
    requires
        s <= e <= v@.len(),
    ensures
        res@ == v@.subrange(s as int, e as int),
{
    let mut out: Vec<char> = Vec::new();
    let mut i: usize = s;
    while i < e
        invariant
            s <= i <= e <= v@.len(),
            out@ == v@.subrange(s as int, i as int),
        decreases e - i,
    {
        out.push(v[i]);
        i = i + 1;
        assert(out@ =~= v@.subrange(s as int, i as int));
    }
    out
}

/// The extension of a path (`Path::extension`).
pub fn extension(path: &str) -> (res: Option<String>)
    ensures
        match res {
            None => extension_of(path@) is None,
            Some(x) => extension_of(path@) == Some(x@),
        },
{
    let v = chars_of(path);
    match name_bounds(&v) {
        None => None,
        Some((s, e)) => {
            let k = dot_in(&v, s, e);
            let ghost name = v@.subrange(s as int, e as int);
            proof {
                lemma_last_dot_bounds(name);
            }
            match k {
                Some(ku) if ku > 0 => {
                    let x = vec_slice(&v, s + ku + 1, e);
                    assert(x@ =~= name.subrange(ku + 1, name.len() as int));
                    Some(string_from_chars(x.as_slice()))
                },
                _ => None,
            }
        },
    }
}

/// The file stem of a path (`Path::file_stem`).
pub fn file_stem(path: &str) -> (res: Option<String>)
    ensures
        match res {
            None => stem_of(path@) is None,
            Some(x) => stem_of(path@) == Some(x@),
        },
{
    let v = chars_of(path);
    match name_bounds(&v) {
        None => None,
        Some((s, e)) => {
            let k = dot_in(&v, s, e);
            let ghost name = v@.subrange(s as int, e as int);
            proof {
                lemma_last_dot_bounds(name);
            }
            match k {
                Some(ku) if ku > 0 => {
                    let x = vec_slice(&v, s, s + ku);
                    assert(x@ =~= name.subrange(0, ku as int));
                    Some(string_from_chars(x.as_slice()))
                },
                _ => {
                    let x = vec_slice(&v, s, e);
                    Some(string_from_chars(x.as_slice()))
                },
            }
        },
    }
}


// ───────────────────────── components ─────────────────────────

/// The pieces of `p` between `/` separators, empty where two separators
/// meet or at an end that is a separator.
pub open spec fn pieces(p: Seq<char>) -> Seq<Seq<char>>
    decreases p.len(),
{
    if p.len() == 0 {
        seq![Seq::empty()]
    } else {
        let r = pieces(p.drop_last());
        if p.last() == '/' {
            r.push(Seq::empty())
        } else {
            r.update(r.len() - 1, r.last().push(p.last()))
        }
    }
}

/// A piece that names a component: neither empty nor `.`.
pub open spec fn normal_piece(x: Seq<char>) -> bool {
    x.len() > 0 && x != seq!['.']
}

/// The components of a path as `Path::components` gives them: the root as
/// `/`, a leading `.` of a relative path as `.`, then every other piece
/// but the empty ones and `.`.
pub open spec fn components_of(p: Seq<char>) -> Seq<Seq<char>> {
    let ps = pieces(p);
    if p.len() > 0 && p[0] == '/' {
        seq![seq!['/']] + ps.filter(|x: Seq<char>| normal_piece(x))
    } else if ps[0] == seq!['.'] {
        seq![seq!['.']] + ps.drop_first().filter(|x: Seq<char>| normal_piece(x))
    } else {
        ps.filter(|x: Seq<char>| normal_piece(x))
    }
}

/// `base` is made of the first components of `p` (`Path::starts_with`).
pub open spec fn path_starts_with(p: Seq<char>, base: Seq<char>) -> bool {
    let a = components_of(p);
    let b = components_of(base);
    b.len() <= a.len() && a.subrange(0, b.len() as int) == b
}

/// The views of a list of character vectors.
pub open spec fn char_views(v: Seq<Vec<char>>) -> Seq<Seq<char>> {
    v.map_values(|c: Vec<char>| c@)
}

proof fn lemma_pieces_nonempty(p: Seq<char>)
    ensures
        pieces(p).len() >= 1,
    decreases p.len(),
{
    if p.len() > 0 {
        lemma_pieces_nonempty(p.drop_last());
    }
}

/// The pieces of a path, in order.
fn pieces_exec(v: &Vec<char>) -> (res: Vec<Vec<char>>)
    ensures
        char_views(res@) == pieces(v@),
{
    let mut done: Vec<Vec<char>> = Vec::new();
    let mut cur: Vec<char> = Vec::new();
    let mut i: usize = 0;
    assert(v@.subrange(0, 0) =~= Seq::<char>::empty());
    assert(char_views(done@).push(cur@) =~= pieces(v@.subrange(0, 0)));
    while i < v.len()
        invariant
            i <= v@.len(),
            char_views(done@).push(cur@) == pieces(v@.subrange(0, i as int)),
        decreases v@.len() - i,
    {
        let ghost before = pieces(v@.subrange(0, i as int));
        assert(v@.subrange(0, i + 1).drop_last() =~= v@.subrange(0, i as int));
        if v[i] == '/' {
            let c = cur;
            done.push(c);
            cur = Vec::new();
            assert(char_views(done@).push(cur@) =~= before.push(Seq::empty()));
        } else {
            cur.push(v[i]);
            assert(char_views(done@).push(cur@) =~= before.update(before.len() - 1, before.last().push(v@[i as int])));
        }
        i = i + 1;
    }
    assert(v@.subrange(0, v@.len() as int) =~= v@);
    done.push(cur);
    assert(char_views(done@) =~= pieces(v@));
    done
}

/// Whether two character vectors hold the same characters.
fn chars_equal(a: &Vec<char>, b: &Vec<char>) -> (res: bool)
    ensures
        res == (a@ == b@),
{
    if a.len() != b.len() {
        return false;
    }
    let mut i: usize = 0;
    while i < a.len()
        invariant
            a@.len() == b@.len(),
            i <= a@.len(),
            forall|j: int| 0 <= j < i ==> a@[j] == b@[j],
        decreases a@.len() - i,
    {
        if a[i] != b[i] {
            return false;
        }
        i = i + 1;
    }
    assert(a@ =~= b@);
    true
}

/// The components of a path (`Path::components`), each as its characters.
pub fn components(path: &str) -> (res: Vec<Vec<char>>)
    ensures
        char_views(res@) == components_of(path@),
{
    let v = chars_of(path);
    let ps = pieces_exec(&v);
    let ghost pv = char_views(ps@);
    proof {
        lemma_pieces_nonempty(v@);
    }
    let mut out: Vec<Vec<char>> = Vec::new();
    let mut start: usize = 0;
    let dot = vec!['.'];
    assert(dot@ =~= seq!['.']);
    if v.len() > 0 && v[0] == '/' {
        let root = vec!['/'];
        assert(root@ =~= seq!['/']);
        out.push(root);
        assert(char_views(out@) =~= seq![seq!['/']]);
    } else if chars_equal(&ps[0], &dot) {
        out.push(dot);
        start = 1;
        assert(char_views(out@) =~= seq![seq!['.']]);
    }
    let ghost head = char_views(out@);
    assert(pv.subrange(start as int, start as int) =~= Seq::<Seq<char>>::empty());
    assert(char_views(out@) =~= head + pv.subrange(start as int, start as int).filter(|x: Seq<char>| normal_piece(x)));
    let mut j: usize = start;
    while j < ps.len()
        invariant
            pv == char_views(ps@),
            start <= j <= ps@.len(),
            char_views(out@) == head + pv.subrange(start as int, j as int).filter(|x: Seq<char>| normal_piece(x)),
        decreases ps@.len() - j,
    {
        let piece = &ps[j];
        let one_dot = vec!['.'];
        assert(one_dot@ =~= seq!['.']);
        let keep = piece.len() > 0 && !chars_equal(piece, &one_dot);
        let ghost old_out = char_views(out@);
        assert(keep == normal_piece(piece@));
        if keep {
            let copy = vec_slice(piece, 0, piece.len());
            assert(piece@.subrange(0, piece@.len() as int) =~= piece@);
            out.push(copy);
            assert(char_views(out@) =~= old_out.push(piece@));
        }
        proof {
            let f = |x: Seq<char>| normal_piece(x);
            let s = pv.subrange(start as int, j + 1);
            assert(s.drop_last() =~= pv.subrange(start as int, j as int));
            assert(s.last() == piece@);
            reveal(Seq::filter);
            assert(s.filter(f) == s.drop_last().filter(f) + (if f(s.last()) { seq![s.last()] } else { Seq::empty() }));
        }
        assert(char_views(out@) =~= head + pv.subrange(start as int, j + 1).filter(|x: Seq<char>| normal_piece(x)));
        j = j + 1;
    }
    proof {
        assert(pv.subrange(start as int, pv.len() as int) =~= if start == 0 { pv } else { pv.drop_first() });
        if v@.len() > 0 && v@[0] == '/' {
            assert(start == 0);
        }
    }
    out
}

/// Whether `path` begins with the components of `base`
/// (`Path::starts_with`).
pub fn path_starts_with_exec(path: &str, base: &str) -> (res: bool)
    ensures
        res == path_starts_with(path@, base@),
{
    let a = components(path);
    let b = components(base);
    let ghost av = char_views(a@);
    let ghost bv = char_views(b@);
    assert(av.len() == a@.len() && bv.len() == b@.len());
    if b.len() > a.len() {
        return false;
    }
    let mut k: usize = 0;
    while k < b.len()
        invariant
            av == char_views(a@),
            bv == char_views(b@),
            av == components_of(path@),
            bv == components_of(base@),
            b@.len() <= a@.len(),
            k <= b@.len(),
            forall|j: int| 0 <= j < k ==> av[j] == bv[j],
        decreases b@.len() - k,
    {
        if !chars_equal(&a[k], &b[k]) {
            assert(av[k as int] != bv[k as int]);
            assert(av.subrange(0, bv.len() as int)[k as int] != bv[k as int]);
            return false;
        }
        k = k + 1;
    }
    assert(av.subrange(0, bv.len() as int) =~= bv);
    true
}

} // verus!
