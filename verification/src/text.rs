//! Character and string helpers shared by the other modules: comparison,
//! substring search, lower-casing, and the decimal rendering of numbers.

use vstd::prelude::*;
use vstd::string::*;

verus! {

// ───────────────────────── lower-casing ─────────────────────────

/// What `str::to_lowercase` returns for a string (Unicode lower-case mapping).
pub uninterp spec fn lowercase(s: Seq<char>) -> Seq<char>;

/// ASCII lower-case mapping of one character.
pub open spec fn ascii_lower(c: char) -> char {
    if 'A' <= c && c <= 'Z' {
        ((c as u32) + 32) as char
    } else {
        c
    }
}

/// Every character of the sequence is ASCII.
pub open spec fn all_ascii(s: Seq<char>) -> bool {
    forall|i: int| 0 <= i < s.len() ==> (s[i] as u32) < 128
}

/// Calls `str::to_lowercase`. The result is the Unicode lower-case form of
/// the argument; on ASCII text that mapping only turns `A`..`Z` into
/// `a`..`z`, which is what the second clause says. Nothing else is stated
/// of non-ASCII text.
#[verifier::external_body]
pub(crate) fn to_lower(s: &str) -> (res: String)
    ensures
        res@ == lowercase(s@),
        all_ascii(s@) ==> res@ == s@.map_values(|c: char| ascii_lower(c)),
{
    s.to_lowercase()
}

/// Calls `String::push`: appends one character.
#[verifier::external_body]
pub(crate) fn push_char(s: &mut String, c: char)
    ensures
        final(s)@ == old(s)@.push(c),
{
    s.push(c);
}

// ───────────────────────── comparison ─────────────────────────

/// Two string slices hold the same characters.
pub fn str_eq(a: &str, b: &str) -> (res: bool)
    ensures
        res == (a@ == b@),
{
    let n = a.unicode_len();
    let m = b.unicode_len();
    if n != m {
        return false;
    }
    let mut i: usize = 0;
    while i < n
        invariant
            n == a@.len(),
            m == b@.len(),
            n == m,
            i <= n,
            forall|j: int| 0 <= j < i ==> a@[j] == b@[j],
        decreases n - i,
    {
        if a.get_char(i) != b.get_char(i) {
            return false;
        }
        i = i + 1;
    }
    assert(a@ =~= b@);
    true
}

/// The characters of a string slice, one by one.
pub fn chars_of(s: &str) -> (res: Vec<char>)
    ensures
        res@ == s@,
{
    let n = s.unicode_len();
    let mut out: Vec<char> = Vec::new();
    let mut i: usize = 0;
    while i < n
        invariant
            n == s@.len(),
            i <= n,
            out@ == s@.subrange(0, i as int),
        decreases n - i,
    {
        out.push(s.get_char(i));
        i = i + 1;
        assert(out@ =~= s@.subrange(0, i as int));
    }
    assert(s@.subrange(0, n as int) =~= s@);
    out
}

/// A string holding the given characters.
pub fn string_from_chars(cs: &[char]) -> (res: String)
    ensures
        res@ == cs@,
{
    let mut out = String::new();
    let mut i: usize = 0;
    while i < cs.len()
        invariant
            i <= cs@.len(),
            out@ == cs@.subrange(0, i as int),
        decreases cs@.len() - i,
    {
        push_char(&mut out, cs[i]);
        i = i + 1;
        assert(out@ =~= cs@.subrange(0, i as int));
    }
    assert(cs@.subrange(0, cs@.len() as int) =~= cs@);
    out
}

/// A fresh `String` with the characters of a slice.
pub fn owned(s: &str) -> (res: String)
    ensures
        res@ == s@,
{
    String::from_str(s)
}

/// `a` followed by `b`.
pub fn concat2(a: &str, b: &str) -> (res: String)
    ensures
        res@ == a@ + b@,
{
    let mut out = String::from_str(a);
    out.append(b);
    out
}

/// `a`, then `b`, then `c`.
pub fn concat3(a: &str, b: &str, c: &str) -> (res: String)
    ensures
        res@ == a@ + b@ + c@,
{
    let mut out = String::from_str(a);
    out.append(b);
    out.append(c);
    out
}

// ───────────────────────── substrings ─────────────────────────

/// `p` occurs in `s` starting at position `i`.
pub open spec fn occurs_at(s: Seq<char>, p: Seq<char>, i: int) -> bool {
    0 <= i && i + p.len() <= s.len() && s.subrange(i, i + p.len()) == p
}

/// `p` occurs somewhere in `s`.
pub open spec fn has_sub(s: Seq<char>, p: Seq<char>) -> bool {
    exists|i: int| occurs_at(s, p, i)
}

/// `p` is a prefix of `s`.
pub open spec fn has_prefix(s: Seq<char>, p: Seq<char>) -> bool {
    p.len() <= s.len() && s.subrange(0, p.len() as int) == p
}

/// `p` is a suffix of `s`.
pub open spec fn has_suffix(s: Seq<char>, p: Seq<char>) -> bool {
    p.len() <= s.len() && s.subrange(s.len() - p.len(), s.len() as int) == p
}

fn matches_at(s: &Vec<char>, p: &Vec<char>, i: usize) -> (res: bool)
    requires
        i + p@.len() <= s@.len(),
    ensures
        res == occurs_at(s@, p@, i as int),
{
    let n = s.len();
    let mut j: usize = 0;
    while j < p.len()
        invariant
            n == s@.len(),
            i + p@.len() <= s@.len(),
            j <= p@.len(),
            forall|k: int| 0 <= k < j ==> s@[i + k] == p@[k],
        decreases p@.len() - j,
    {
        if s[i + j] != p[j] {
            assert(s@.subrange(i as int, i + p@.len())[j as int] != p@[j as int]);
            return false;
        }
        j = j + 1;
    }
    assert(s@.subrange(i as int, i + p@.len()) =~= p@);
    true
}

/// `pat` occurs in `s` (the behaviour of `str::contains` with a string pattern).
pub fn contains_str(s: &str, pat: &str) -> (res: bool)
    ensures
        res == has_sub(s@, pat@),
{
    let sv = chars_of(s);
    let pv = chars_of(pat);
    if pv.len() == 0 {
        assert(s@.subrange(0, 0) =~= pat@);
        assert(occurs_at(s@, pat@, 0));
        return true;
    }
    if pv.len() > sv.len() {
        assert forall|i: int| !occurs_at(s@, pat@, i) by {}
        return false;
    }
    let n = sv.len();
    let last = n - pv.len();
    let mut i: usize = 0;
    while i <= last
        invariant
            n == sv@.len(),
            pv@.len() > 0,
            sv@ == s@,
            pv@ == pat@,
            last + pv@.len() == sv@.len(),
            forall|k: int| 0 <= k < i ==> !occurs_at(s@, pat@, k),
        decreases last + 1 - i,
    {
        if matches_at(&sv, &pv, i) {
            return true;
        }
        i = i + 1;
    }
    assert forall|k: int| !occurs_at(s@, pat@, k) by {
        if 0 <= k && k < i {
        }
    }
    false
}

/// `c` occurs in `s`.
pub fn contains_char(s: &str, c: char) -> (res: bool)
    ensures
        res == s@.contains(c),
{
    let n = s.unicode_len();
    let mut i: usize = 0;
    while i < n
        invariant
            n == s@.len(),
            i <= n,
            forall|j: int| 0 <= j < i ==> s@[j] != c,
        decreases n - i,
    {
        if s.get_char(i) == c {
            return true;
        }
        i = i + 1;
    }
    false
}

/// `p` is a prefix of `s`.
pub fn starts_with(s: &str, p: &str) -> (res: bool)
    ensures
        res == has_prefix(s@, p@),
{
    let sv = chars_of(s);
    let pv = chars_of(p);
    if pv.len() > sv.len() {
        return false;
    }
    let r = matches_at(&sv, &pv, 0);
    r
}

/// `p` is a suffix of `s`.
pub fn ends_with(s: &str, p: &str) -> (res: bool)
    ensures
        res == has_suffix(s@, p@),
{
    let sv = chars_of(s);
    let pv = chars_of(p);
    if pv.len() > sv.len() {
        return false;
    }
    let r = matches_at(&sv, &pv, sv.len() - pv.len());
    r
}

// ───────────────────────── lines and whitespace ─────────────────────────

/// The Unicode `White_Space` characters, which `char::is_whitespace` accepts.
pub open spec fn is_ws(c: char) -> bool {
    ||| c == '\t'
    ||| c == '\n'
    ||| c == '\u{0B}'
    ||| c == '\u{0C}'
    ||| c == '\r'
    ||| c == ' '
    ||| c == '\u{85}'
    ||| c == '\u{A0}'
    ||| c == '\u{1680}'
    ||| ('\u{2000}' <= c && c <= '\u{200A}')
    ||| c == '\u{2028}'
    ||| c == '\u{2029}'
    ||| c == '\u{202F}'
    ||| c == '\u{205F}'
    ||| c == '\u{3000}'
}

fn ws(c: char) -> (res: bool)
    ensures
        res == is_ws(c),
{
    c == '\t' || c == '\n' || c == '\u{0B}' || c == '\u{0C}' || c == '\r' || c == ' ' || c == '\u{85}'
        || c == '\u{A0}' || c == '\u{1680}' || ('\u{2000}' <= c && c <= '\u{200A}') || c == '\u{2028}'
        || c == '\u{2029}' || c == '\u{202F}' || c == '\u{205F}' || c == '\u{3000}'
}

/// `s` without its leading whitespace.
pub open spec fn trim_start(s: Seq<char>) -> Seq<char>
    decreases s.len(),
{
    if s.len() > 0 && is_ws(s[0]) {
        trim_start(s.drop_first())
    } else {
        s
    }
}

/// `s` without its trailing whitespace.
pub open spec fn trim_end(s: Seq<char>) -> Seq<char>
    decreases s.len(),
{
    if s.len() > 0 && is_ws(s.last()) {
        trim_end(s.drop_last())
    } else {
        s
    }
}

/// `s` without leading and trailing whitespace, as `str::trim` gives it.
pub open spec fn trim(s: Seq<char>) -> Seq<char> {
    trim_end(trim_start(s))
}

/// The position of the first line feed in `s`, or its length if it has none.
pub open spec fn line_end(s: Seq<char>) -> int
    decreases s.len(),
{
    if s.len() == 0 {
        0
    } else if s[0] == '\n' {
        0
    } else {
        1 + line_end(s.drop_first())
    }
}

/// The first line of `s` as `str::lines` yields it: `None` for an empty
/// string, else the text before the first line feed, without a carriage
/// return just before that line feed.
pub open spec fn first_line(s: Seq<char>) -> Option<Seq<char>> {
    if s.len() == 0 {
        None
    } else {
        let k = line_end(s);
        if k < s.len() && k > 0 && s[k - 1] == '\r' {
            Some(s.take(k - 1))
        } else {
            Some(s.take(k))
        }
    }
}

/// The first line of `s`, trimmed; empty when `s` is empty.
pub open spec fn first_line_trimmed(s: Seq<char>) -> Seq<char> {
    match first_line(s) {
        Some(l) => trim(l),
        None => Seq::empty(),
    }
}

proof fn lemma_line_end(s: Seq<char>, i: int)
    requires
        0 <= i <= s.len(),
        forall|j: int| 0 <= j < i ==> s[j] != '\n',
    ensures
        i < s.len() && s[i] == '\n' ==> line_end(s) == i,
        i == s.len() ==> line_end(s) == i,
        0 <= line_end(s) <= s.len(),
    decreases s.len(),
{
    if s.len() > 0 && s[0] != '\n' {
        if i > 0 {
            assert forall|j: int| 0 <= j < i - 1 implies s.drop_first()[j] != '\n' by {
                assert(s.drop_first()[j] == s[j + 1]);
            }
            lemma_line_end(s.drop_first(), i - 1);
        } else {
            lemma_line_end(s.drop_first(), 0);
        }
    }
}

/// The first line of a string, as `s.lines().next()` gives it.
pub fn first_line_of(s: &str) -> (res: Option<String>)
    ensures
        res matches Some(l) ==> first_line(s@) == Some(l@),
        res is None ==> first_line(s@) is None,
{
    let v = chars_of(s);
    let n = v.len();
    if n == 0 {
        return None;
    }
    let mut k: usize = 0;
    while k < n && v[k] != '\n'
        invariant
            n == v@.len(),
            v@ == s@,
            k <= n,
            forall|j: int| 0 <= j < k ==> s@[j] != '\n',
        decreases n - k,
    {
        k = k + 1;
    }
    proof {
        lemma_line_end(s@, k as int);
    }
    let e = if k < n && k > 0 && v[k - 1] == '\r' { k - 1 } else { k };
    let w = vec_prefix(&v, e);
    Some(string_from_chars(w.as_slice()))
}

fn vec_prefix(v: &Vec<char>, e: usize) -> (res: Vec<char>)
    requires
        e <= v@.len(),
    ensures
        res@ == v@.take(e as int),
{
    let mut out: Vec<char> = Vec::new();
    let mut i: usize = 0;
    while i < e
        invariant
            i <= e,
            e <= v@.len(),
            out@ == v@.take(i as int),
        decreases e - i,
    {
        out.push(v[i]);
        i = i + 1;
        assert(out@ =~= v@.take(i as int));
    }
    out
}

proof fn lemma_trim_start_step(s: Seq<char>, i: int, e: int)
    requires
        0 <= i < e <= s.len(),
        is_ws(s[i]),
    ensures
        trim_start(s.subrange(i, e)) == trim_start(s.subrange(i + 1, e)),
{
    assert(s.subrange(i, e).drop_first() =~= s.subrange(i + 1, e));
}

proof fn lemma_trim_end_step(s: Seq<char>, i: int, j: int)
    requires
        0 <= i < j <= s.len(),
        is_ws(s[j - 1]),
    ensures
        trim_end(s.subrange(i, j)) == trim_end(s.subrange(i, j - 1)),
{
    assert(s.subrange(i, j).drop_last() =~= s.subrange(i, j - 1));
}

/// A string without leading and trailing whitespace, as `str::trim` gives it.
pub fn trim_str(s: &str) -> (res: String)
    ensures
        res@ == trim(s@),
{
    let v = chars_of(s);
    let n = v.len();
    let mut i: usize = 0;
    assert(s@.subrange(0, n as int) =~= s@);
    while i < n && ws(v[i])
        invariant
            n == v@.len(),
            v@ == s@,
            i <= n,
            trim_start(s@) == trim_start(s@.subrange(i as int, n as int)),
        decreases n - i,
    {
        proof {
            lemma_trim_start_step(s@, i as int, n as int);
        }
        i = i + 1;
    }
    assert(trim_start(s@) == s@.subrange(i as int, n as int));
    let mut j: usize = n;
    while j > i && ws(v[j - 1])
        invariant
            n == v@.len(),
            v@ == s@,
            i <= j <= n,
            trim(s@) == trim_end(s@.subrange(i as int, j as int)),
        decreases j,
    {
        proof {
            lemma_trim_end_step(s@, i as int, j as int);
        }
        j = j - 1;
    }
    let mut out: Vec<char> = Vec::new();
    let mut k: usize = i;
    while k < j
        invariant
            i <= k <= j,
            j <= n,
            n == v@.len(),
            out@ == v@.subrange(i as int, k as int),
        decreases j - k,
    {
        out.push(v[k]);
        k = k + 1;
        assert(out@ =~= v@.subrange(i as int, k as int));
    }
    string_from_chars(out.as_slice())
}

/// The first line of a string, trimmed, as
/// `s.lines().next().unwrap_or("").trim()` gives it.
pub fn first_line_trimmed_of(s: &str) -> (res: String)
    ensures
        res@ == first_line_trimmed(s@),
{
    match first_line_of(s) {
        Some(l) => trim_str(l.as_str()),
        None => String::new(),
    }
}

// ───────────────────────── numbers ─────────────────────────

/// The character of a decimal digit.
pub open spec fn digit_char(d: nat) -> char {
    ((d + 48) as u32) as char
}

/// The decimal rendering of a natural number, as `{}` prints it.
pub open spec fn dec(n: nat) -> Seq<char>
    decreases n,
{
    if n < 10 {
        seq![digit_char(n)]
    } else {
        dec(n / 10).push(digit_char(n % 10))
    }
}

/// Appends the decimal rendering of `n` to `out`.
pub fn push_decimal(out: &mut String, n: u64)
    ensures
        final(out)@ == old(out)@ + dec(n as nat),
    decreases n,
{
    if n >= 10 {
        push_decimal(out, n / 10);
    }
    let d: u8 = (n % 10) as u8;
    let c: char = (d + 48) as char;
    assert(c == digit_char((n % 10) as nat));
    push_char(out, c);
    assert(final(out)@ =~= old(out)@ + dec(n as nat));
}

/// The decimal rendering of `n`.
pub fn decimal(n: u64) -> (res: String)
    ensures
        res@ == dec(n as nat),
{
    let mut s = String::new();
    push_decimal(&mut s, n);
    assert(s@ =~= dec(n as nat));
    s
}

/// `prefix` followed by the decimal rendering of `n`.
pub fn prefixed_number(prefix: &str, n: u64) -> (res: String)
    ensures
        res@ == prefix@ + dec(n as nat),
{
    let mut s = String::from_str(prefix);
    push_decimal(&mut s, n);
    s
}

/// `prefix`, then the decimal rendering of `n`, then `suffix`.
pub fn with_number(prefix: &str, n: u64, suffix: &str) -> (res: String)
    ensures
        res@ == prefix@ + dec(n as nat) + suffix@,
{
    let mut s = String::from_str(prefix);
    push_decimal(&mut s, n);
    s.append(suffix);
    s
}

// ───────────────────────── message lists ─────────────────────────

/// The texts of a list of strings.
pub open spec fn views(v: Seq<String>) -> Seq<Seq<char>> {
    v.map_values(|s: String| s@)
}

/// Appends a string to a list, keeping the texts in step.
pub fn push_msg(v: &mut Vec<String>, m: String)
    ensures
        views(final(v)@) == views(old(v)@).push(m@),
{
    v.push(m);
    assert(views(final(v)@) =~= views(old(v)@).push(m@));
}

/// Appends all strings of `w` to `v`.
pub fn append_msgs(v: &mut Vec<String>, w: Vec<String>)
    ensures
        views(final(v)@) == views(old(v)@) + views(w@),
{
    let mut i: usize = 0;
    let ghost start = views(v@);
    while i < w.len()
        invariant
            i <= w@.len(),
            views(v@) == start + views(w@.subrange(0, i as int)),
        decreases w@.len() - i,
    {
        let m = w[i].clone();
        push_msg(v, m);
        i = i + 1;
        assert(views(w@.subrange(0, i as int)) =~= views(w@.subrange(0, i - 1)).push(w@[i - 1]@));
        assert(views(v@) =~= start + views(w@.subrange(0, i as int)));
    }
    assert(w@.subrange(0, w@.len() as int) =~= w@);
}

// ───────────────────────── fixed-point rendering ─────────────────────────

/// `num / den` rounded to the nearest integer, ties to the even one.
pub open spec fn round_half_even(num: nat, den: nat) -> nat
    recommends
        den > 0,
{
    let q = num / den;
    let r = num % den;
    if 2 * r < den {
        q
    } else if 2 * r > den {
        q + 1
    } else if q % 2 == 0 {
        q
    } else {
        q + 1
    }
}

/// `num / den` with two decimals, as `{:.2}` prints the exact quotient.
pub open spec fn fixed2(num: nat, den: nat) -> Seq<char> {
    let h = round_half_even(num * 100, den);
    dec(h / 100) + seq!['.', digit_char((h % 100) / 10), digit_char(h % 10)]
}

/// Appends `n / den` with two decimals.
pub fn push_fixed2(out: &mut String, n: u64, den: u64)
    requires
        den >= 1024,
    ensures
        final(out)@ == old(out)@ + fixed2(n as nat, den as nat),
{
    let num: u128 = (n as u128) * 100;
    let d: u128 = den as u128;
    let q: u128 = num / d;
    let r: u128 = num % d;
    proof {
        assert(q <= num / 1024) by (nonlinear_arith)
            requires
                q == num / d,
                d >= 1024,
                num >= 0,
        ;
    }
    let h: u128 = if 2 * r < d {
        q
    } else if 2 * r > d {
        q + 1
    } else if q % 2 == 0 {
        q
    } else {
        q + 1
    };
    assert(h == round_half_even(num as nat, d as nat));
    let whole: u64 = (h / 100) as u64;
    let frac: u64 = (h % 100) as u64;
    push_decimal(out, whole);
    push_char(out, '.');
    let d1: u8 = (frac / 10) as u8;
    let d2: u8 = (frac % 10) as u8;
    let c1: char = (d1 + 48) as char;
    let c2: char = (d2 + 48) as char;
    assert(c1 == digit_char(((h % 100) / 10) as nat));
    assert(c2 == digit_char((h % 10) as nat));
    push_char(out, c1);
    push_char(out, c2);
    assert(final(out)@ =~= old(out)@ + fixed2(n as nat, den as nat));
}

/// `num / den` with one decimal, as `{:.1}` prints the exact quotient.
pub open spec fn fixed1(num: nat, den: nat) -> Seq<char> {
    let h = round_half_even(num * 10, den);
    dec(h / 10) + seq!['.', digit_char(h % 10)]
}

/// Appends `n / den` with one decimal.
pub fn push_fixed1(out: &mut String, n: u64, den: u64)
    requires
        den >= 1024,
    ensures
        final(out)@ == old(out)@ + fixed1(n as nat, den as nat),
{
    let num: u128 = (n as u128) * 10;
    let d: u128 = den as u128;
    let q: u128 = num / d;
    let r: u128 = num % d;
    proof {
        assert(q <= num / 1024) by (nonlinear_arith)
            requires
                q == num / d,
                d >= 1024,
                num >= 0,
        ;
    }
    let h: u128 = if 2 * r < d {
        q
    } else if 2 * r > d {
        q + 1
    } else if q % 2 == 0 {
        q
    } else {
        q + 1
    };
    assert(h == round_half_even(num as nat, d as nat));
    let whole: u64 = (h / 10) as u64;
    let frac: u8 = (h % 10) as u8;
    push_decimal(out, whole);
    push_char(out, '.');
    let c1: char = (frac + 48) as char;
    assert(c1 == digit_char((h % 10) as nat));
    push_char(out, c1);
    assert(final(out)@ =~= old(out)@ + fixed1(n as nat, den as nat));
}

} // verus!
