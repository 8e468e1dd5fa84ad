//! Preprocessing helpers: resize filters, the `WxH` resize argument, and
//! colour quantisation (sampling, palette, nearest palette colour).

use vstd::prelude::*;
use vstd::string::*;
use crate::text::{lowercase, to_lower, str_eq, chars_of};
use crate::floatbits::{f64_ge, f64_key, ge};

verus! {

/// A resize filter.
#[derive(Debug, Clone, Copy, PartialEq, Eq, Structural)]
pub enum FilterType {
    Nearest,
    Triangle,
    CatmullRom,
    Gaussian,
    Lanczos3,
}

/// The filter named by a lower-case name.
pub open spec fn filter_named(s: Seq<char>) -> Option<FilterType> {
    if s == "nearest"@ {
        Some(FilterType::Nearest)
    } else if s == "triangle"@ || s == "linear"@ {
        Some(FilterType::Triangle)
    } else if s == "catmullrom"@ || s == "catmull-rom"@ {
        Some(FilterType::CatmullRom)
    } else if s == "gaussian"@ {
        Some(FilterType::Gaussian)
    } else if s == "lanczos3"@ || s == "lanczos"@ {
        Some(FilterType::Lanczos3)
    } else {
        None
    }
}

impl FilterType {
    /// The filter named by `s` in any letter case.
    pub fn parse_filter(s: &str) -> (res: Option<Self>)
        ensures
            res == filter_named(lowercase(s@)),
    {
        let lower = to_lower(s);
        let f = lower.as_str();
        if str_eq(f, "nearest") {
            Some(FilterType::Nearest)
        } else if str_eq(f, "triangle") || str_eq(f, "linear") {
            Some(FilterType::Triangle)
        } else if str_eq(f, "catmullrom") || str_eq(f, "catmull-rom") {
            Some(FilterType::CatmullRom)
        } else if str_eq(f, "gaussian") {
            Some(FilterType::Gaussian)
        } else if str_eq(f, "lanczos3") || str_eq(f, "lanczos") {
            Some(FilterType::Lanczos3)
        } else {
            None
        }
    }
}

// ───────────────────────── the WxH argument ─────────────────────────

pub open spec fn is_digit(c: char) -> bool {
    '0' <= c && c <= '9'
}

/// The value of a string of decimal digits.
pub open spec fn digits_value(s: Seq<char>) -> nat
    decreases s.len(),
{
    if s.len() == 0 {
        0
    } else {
        digits_value(s.drop_last()) * 10 + ((s.last() as u32) - 48) as nat
    }
}

/// What `str::parse::<u32>` gives: an optional `+`, then one or more
/// digits whose value fits in 32 bits.
pub open spec fn u32_text(s: Seq<char>) -> Option<u32> {
    let d = if s.len() > 0 && s[0] == '+' { s.drop_first() } else { s };
    if d.len() > 0 && all_digits(d) && digits_value(d) <= u32::MAX {
        Some(digits_value(d) as u32)
    } else {
        None
    }
}

/// Every character is a decimal digit.
pub open spec fn all_digits(d: Seq<char>) -> bool {
    forall|i: int| 0 <= i < d.len() ==> is_digit(#[trigger] d[i])
}

/// The number of times `c` occurs in `s`.
pub open spec fn count_char(s: Seq<char>, c: char) -> nat
    decreases s.len(),
{
    if s.len() == 0 {
        0
    } else {
        count_char(s.drop_last(), c) + if s.last() == c { 1nat } else { 0nat }
    }
}

/// The index of the first `c` in `s`, or `s.len()`.
pub open spec fn first_index(s: Seq<char>, c: char) -> int
    decreases s.len(),
{
    if s.len() == 0 {
        0
    } else if s[0] == c {
        0
    } else {
        1 + first_index(s.drop_first(), c)
    }
}

/// A part of the argument: empty means 0, otherwise a `u32` number.
pub open spec fn dim_part(s: Seq<char>) -> Option<u32> {
    if s.len() == 0 {
        Some(0)
    } else {
        u32_text(s)
    }
}

/// The `WxH` form: exactly one `x` between two parts, each empty (0) or a number.
pub open spec fn dimensions_of(s: Seq<char>) -> Option<(u32, u32)> {
    if count_char(s, 'x') != 1 {
        None
    } else {
        let k = first_index(s, 'x');
        match (dim_part(s.subrange(0, k)), dim_part(s.subrange(k + 1, s.len() as int))) {
            (Some(w), Some(h)) => Some((w, h)),
            _ => None,
        }
    }
}

proof fn lemma_digits_step(s: Seq<char>, i: int)
    requires
        0 <= i < s.len(),
    ensures
        digits_value(s.subrange(0, i + 1)) == digits_value(s.subrange(0, i)) * 10 + ((s[i] as u32) - 48) as nat,
{
    assert(s.subrange(0, i + 1).drop_last() =~= s.subrange(0, i));
}

/// Parses `v[start..end]` as `str::parse::<u32>` does.
fn parse_u32_range(v: &Vec<char>, start: usize, end: usize) -> (res: Option<u32>)
    requires
        start <= end <= v@.len(),
    ensures
        res == u32_text(v@.subrange(start as int, end as int)),
{
    let ghost s = v@.subrange(start as int, end as int);
    let mut i = start;
    if i < end && v[i] == '+' {
        i = i + 1;
    }
    let ghost d = v@.subrange(i as int, end as int);
    proof {
        if s.len() > 0 && s[0] == '+' {
            assert(s.drop_first() =~= d);
        } else {
            assert(s =~= d);
        }
    }
    if i == end {
        return None;
    }
    let first = i;
    let mut acc: u64 = 0;
    let mut big = false;
    while i < end
        invariant
            first <= i <= end <= v@.len(),
            d == v@.subrange(first as int, end as int),
            s == v@.subrange(start as int, end as int),
            d == if s.len() > 0 && s[0] == '+' { s.drop_first() } else { s },
            forall|j: int| 0 <= j < i - first ==> is_digit(#[trigger] d[j]),
            !big ==> acc == digits_value(d.subrange(0, i - first)) && acc <= u32::MAX,
            big ==> digits_value(d.subrange(0, i - first)) > u32::MAX,
        decreases end - i,
    {
        let c = v[i];
        if !('0' <= c && c <= '9') {
            assert(!is_digit(d[i - first]));
            assert(!all_digits(d));
            return None;
        }
        proof {
            lemma_digits_step(d, i - first);
        }
        if !big {
            let digit: u64 = ((c as u32) - 48) as u64;
            acc = acc * 10 + digit;
            if acc > 4294967295 {
                big = true;
            }
        }
        i = i + 1;
    }
    assert(d.subrange(0, d.len() as int) =~= d);
    assert(all_digits(d));
    if big {
        return None;
    }
    Some(acc as u32)
}

/// Parses a whole text as `str::parse::<u32>` does.
pub fn parse_u32(s: &str) -> (res: Option<u32>)
    ensures
        res == u32_text(s@),
{
    let v = chars_of(s);
    assert(v@.subrange(0, v@.len() as int) =~= s@);
    parse_u32_range(&v, 0, v.len())
}

/// Parses a resize argument of the form `WxH`, where either part may be
/// empty (meaning 0): `1920x1080`, `1920x`, `x1080`.
pub fn parse_dimensions(s: &str) -> (res: Option<(u32, u32)>)
    ensures
        res == dimensions_of(s@),
{
    let v = chars_of(s);
    let n = v.len();
    let mut count: usize = 0;
    let mut pos: usize = n;
    let mut i: usize = 0;
    while i < n
        invariant
            v@ == s@,
            n == v@.len(),
            i <= n,
            count == count_char(v@.subrange(0, i as int), 'x'),
            count <= i,
            count == 0 ==> pos == n,
            count > 0 ==> pos < i && v@[pos as int] == 'x' && pos == first_index(v@, 'x')
                && count_char(v@.subrange(0, pos as int), 'x') == 0,
            count == 0 ==> forall|j: int| 0 <= j < i ==> v@[j] != 'x',
        decreases n - i,
    {
        assert(v@.subrange(0, i + 1).drop_last() =~= v@.subrange(0, i as int));
        if v[i] == 'x' {
            if count == 0 {
                pos = i;
                proof {
                    lemma_first_index_at(v@, 'x', i as int);
                    assert(v@.subrange(0, i as int) =~= v@.subrange(0, pos as int));
                }
            }
            count = count + 1;
        }
        i = i + 1;
    }
    assert(v@.subrange(0, n as int) =~= v@);
    if count != 1 {
        return None;
    }
    let w = if pos == 0 {
        0
    } else {
        match parse_u32_range(&v, 0, pos) {
            Some(x) => x,
            None => return None,
        }
    };
    let h = if pos + 1 == n {
        0
    } else {
        match parse_u32_range(&v, pos + 1, n) {
            Some(x) => x,
            None => return None,
        }
    };
    Some((w, h))
}

proof fn lemma_first_index_at(s: Seq<char>, c: char, i: int)
    requires
        0 <= i < s.len(),
        s[i] == c,
        forall|j: int| 0 <= j < i ==> s[j] != c,
    ensures
        first_index(s, c) == i,
    decreases i,
{
    if i > 0 {
        assert forall|j: int| 0 <= j < i - 1 implies s.drop_first()[j] != c by {
            assert(s.drop_first()[j] == s[j + 1]);
        }
        lemma_first_index_at(s.drop_first(), c, i - 1);
    }
}

/// The bit pattern of `200.0`, the largest percentage.
pub const TWO_HUNDRED_BITS: u64 = 0x4069_0000_0000_0000u64;

/// The text without all its trailing `%` signs.
pub open spec fn without_percent(s: Seq<char>) -> Seq<char>
    decreases s.len(),
{
    if s.len() > 0 && s.last() == '%' {
        without_percent(s.drop_last())
    } else {
        s
    }
}

/// A resize argument, sorted by its form.
#[derive(Debug, Clone, PartialEq, Eq)]
pub enum ResizeArg {
    /// A percentage: the number's text, without the `%` signs, for the
    /// caller to read as a binary64 number (see `percent_resize`).
    Percent(String),
    /// `WxH`, read (see `dimensions_of`), or not a valid argument.
    Size(Option<(u32, u32)>),
}

/// Sorts a resize argument: one ending in `%` is a percentage, anything
/// else is read as `WxH`.
pub fn classify_resize_param(s: &str) -> (res: ResizeArg)
    ensures
        s@.len() > 0 && s@.last() == '%' ==> (res matches ResizeArg::Percent(t) && t@ == without_percent(s@)),
        !(s@.len() > 0 && s@.last() == '%') ==> res == ResizeArg::Size(dimensions_of(s@)),
{
    let v = chars_of(s);
    let n = v.len();
    if n > 0 && v[n - 1] == '%' {
        let mut k = n;
        assert(v@.subrange(0, n as int) =~= s@);
        while k > 0 && v[k - 1] == '%'
            invariant
                k <= n,
                n == v@.len(),
                v@ == s@,
                without_percent(s@) == without_percent(v@.subrange(0, k as int)),
            decreases k,
        {
            assert(v@.subrange(0, k as int).drop_last() =~= v@.subrange(0, k - 1));
            k = k - 1;
        }
        assert(without_percent(s@) == v@.subrange(0, k as int));
        ResizeArg::Percent(crate::text::string_from_chars(crate::paths::vec_slice(&v, 0, k).as_slice()))
    } else {
        ResizeArg::Size(parse_dimensions(s))
    }
}

/// The whole part of a binary64 value in 0..=200 given by its bits: the
/// significand with its hidden bit, shifted right by what the exponent
/// leaves of its 52 fraction bits; 0 for values below 1.
pub open spec fn whole_part(b: u64) -> u32 {
    let e = (b >> 52u64) & 0x7FFu64;
    let m = b & 0xF_FFFF_FFFF_FFFFu64;
    if e < 1023 {
        0
    } else {
        ((0x10_0000_0000_0000u64 | m) >> ((1075 - e) as u64)) as u32
    }
}

/// The resize of a percentage, given the bits of the number read from its
/// text (`None` where it did not read as a number): a number from 0 to 200
/// gives its whole part as the width and 0 as the height; anything else is
/// refused.
pub open spec fn percent_resize_spec(parsed_bits: Option<u64>) -> Option<(u32, u32)> {
    match parsed_bits {
        Some(b) => if f64_ge(b, 0) && f64_ge(TWO_HUNDRED_BITS, b) {
            Some((whole_part(b), 0))
        } else {
            None
        },
        None => None,
    }
}

/// The resize of a percentage, given the bits of the number read from its text.
pub fn percent_resize(parsed_bits: Option<u64>) -> (res: Option<(u32, u32)>)
    ensures
        res == percent_resize_spec(parsed_bits),
{
    match parsed_bits {
        Some(b) => {
            if ge(b, 0) && ge(TWO_HUNDRED_BITS, b) {
                let e = (b >> 52u64) & 0x7FFu64;
                let m = b & 0xF_FFFF_FFFF_FFFFu64;
                let w: u32 = if e < 1023 {
                    0
                } else {
                    assert(e <= 1075) by {
                        assert(b < 0x8000_0000_0000_0000u64 ==> b <= TWO_HUNDRED_BITS);
                        assert(b <= TWO_HUNDRED_BITS ==> (b >> 52u64) & 0x7FFu64 <= 1030) by (bit_vector);
                        assert(b >= 0x8000_0000_0000_0000u64 ==> f64_key(b) <= 0);
                        assert(b >= 0x8000_0000_0000_0000u64 ==> b == 0x8000_0000_0000_0000u64);
                        assert(b == 0x8000_0000_0000_0000u64 ==> (b >> 52u64) & 0x7FFu64 == 0) by (bit_vector);
                    }
                    ((0x10_0000_0000_0000u64 | m) >> (1075 - e)) as u32
                };
                Some((w, 0))
            } else {
                None
            }
        },
        None => None,
    }
}

// ───────────────────────── quantisation ─────────────────────────

/// The squared distance between two colours.
pub open spec fn dist_spec(a: [u8; 3], b: [u8; 3]) -> int {
    (a[0] - b[0]) * (a[0] - b[0]) + (a[1] - b[1]) * (a[1] - b[1]) + (a[2] - b[2]) * (a[2] - b[2])
}

/// The squared distance between two colours.
pub fn color_distance(c1: [u8; 3], c2: [u8; 3]) -> (res: u32)
    ensures
        res == dist_spec(c1, c2),
{
    let dr: i32 = c1[0] as i32 - c2[0] as i32;
    let dg: i32 = c1[1] as i32 - c2[1] as i32;
    let db: i32 = c1[2] as i32 - c2[2] as i32;
    assert(dr * dr <= 65025 && dg * dg <= 65025 && db * db <= 65025) by (nonlinear_arith)
        requires
            -255 <= dr <= 255,
            -255 <= dg <= 255,
            -255 <= db <= 255,
    ;
    assert(dr * dr >= 0 && dg * dg >= 0 && db * db >= 0) by (nonlinear_arith);
    ((dr * dr) as u32) + ((dg * dg) as u32) + ((db * db) as u32)
}

/// The first palette colour nearest to `c`, or black for an empty palette.
pub open spec fn is_first_nearest(c: [u8; 3], palette: Seq<[u8; 3]>, res: [u8; 3]) -> bool {
    if palette.len() == 0 {
        res == [0u8, 0u8, 0u8]
    } else {
        exists|k: int|
            0 <= k < palette.len() && palette[k] == res && (forall|j: int|
                0 <= j < palette.len() ==> dist_spec(c, res) <= dist_spec(c, #[trigger] palette[j])) && (
            forall|j: int| 0 <= j < k ==> dist_spec(c, res) < dist_spec(c, #[trigger] palette[j]))
    }
}

/// The first palette colour nearest to `color` (black for an empty palette).
pub fn find_closest_color(color: [u8; 3], palette: &[[u8; 3]]) -> (res: [u8; 3])
    ensures
        is_first_nearest(color, palette@, res),
{
    let mut min_dist: u32 = u32::MAX;
    let mut closest: [u8; 3] = [0, 0, 0];
    let mut best: usize = 0;
    let mut i: usize = 0;
    while i < palette.len()
        invariant
            i <= palette@.len(),
            i == 0 ==> closest == [0u8, 0u8, 0u8] && min_dist == u32::MAX,
            i > 0 ==> best < i && closest == palette@[best as int] && min_dist == dist_spec(color, closest),
            forall|j: int| 0 <= j < i ==> min_dist <= dist_spec(color, #[trigger] palette@[j]),
            i > 0 ==> forall|j: int| 0 <= j < best ==> min_dist < dist_spec(color, #[trigger] palette@[j]),
        decreases palette@.len() - i,
    {
        let p = palette[i];
        let d = color_distance(color, p);
        assert(d < u32::MAX) by (nonlinear_arith)
            requires
                d == dist_spec(color, p),
        {
        }
        if d < min_dist {
            min_dist = d;
            closest = p;
            best = i;
        }
        i = i + 1;
    }
    proof {
        if palette@.len() > 0 {
            assert(palette@[best as int] == closest);
        }
    }
    closest
}

/// The palette: `size` colours taken at an even step through the samples
/// (black when there are no samples).
pub open spec fn palette_spec(colors: Seq<[u8; 3]>, size: nat) -> Seq<[u8; 3]> {
    if colors.len() == 0 {
        Seq::new(size, |i: int| [0u8, 0u8, 0u8])
    } else {
        let step = colors.len() / if size < colors.len() { size } else { colors.len() };
        Seq::new(
            size,
            |i: int|
                colors[if i * step < colors.len() - 1 { i * step } else { colors.len() - 1 }],
        )
    }
}

/// A palette of `palette_size` colours from sampled colours.
pub fn generate_palette(colors: &[[u8; 3]], palette_size: usize) -> (res: Vec<[u8; 3]>)
    requires
        colors@.len() > 0 ==> palette_size > 0,
    ensures
        res@ == palette_spec(colors@, palette_size as nat),
{
    let n = colors.len();
    let mut palette: Vec<[u8; 3]> = Vec::new();
    if n == 0 {
        let mut i: usize = 0;
        while i < palette_size
            invariant
                i <= palette_size,
                n == 0,
                palette@ =~= Seq::new(i as nat, |k: int| [0u8, 0u8, 0u8]),
            decreases palette_size - i,
        {
            palette.push([0, 0, 0]);
            i = i + 1;
        }
        return palette;
    }
    let m = if palette_size < n { palette_size } else { n };
    let step = n / m;
    proof {
        assert(step <= n) by (nonlinear_arith)
            requires
                step == n / m,
                m >= 1,
        ;
        if palette_size < n {
            assert(palette_size * step <= n) by (nonlinear_arith)
                requires
                    step == n as int / palette_size as int,
                    palette_size >= 1,
            ;
        } else {
            assert(step == 1) by (nonlinear_arith)
                requires
                    step == n as int / n as int,
                    n >= 1,
            ;
        }
    }
    let mut i: usize = 0;
    while i < palette_size
        invariant
            n == colors@.len(),
            n > 0,
            m == if palette_size < n { palette_size } else { n },
            step == n as int / m as int,
            step <= n,
            palette_size < n ==> palette_size * step <= n,
            palette_size >= n ==> step == 1,
            i <= palette_size,
            palette@ =~= Seq::new(
                i as nat,
                |k: int| colors@[if k * step < n - 1 { k * step } else { n - 1 }],
            ),
        decreases palette_size - i,
    {
        assert(i * step <= if palette_size < n { n as int } else { palette_size as int }) by (nonlinear_arith)
            requires
                i < palette_size,
                palette_size < n ==> palette_size * step <= n,
                palette_size >= n ==> step == 1,
        ;
        let at = i * step;
        let idx = if at < n - 1 { at } else { n - 1 };
        palette.push(colors[idx]);
        i = i + 1;
    }
    palette
}

/// The sampling step for `n` pixels: one pixel in `n / min(n, 10000)`, at least 1.
pub open spec fn sample_step(n: nat) -> nat {
    let size = if n < 10000 { n } else { 10000 };
    let s = n / size;
    if s < 1 { 1 } else { s }
}

/// Every `step`-th pixel, starting with the first.
pub open spec fn sampled(pixels: Seq<[u8; 3]>, step: nat) -> Seq<[u8; 3]>
    recommends
        step > 0,
{
    Seq::new(((pixels.len() + step - 1) / step as int) as nat, |k: int| pixels[k * step])
}

/// The colours sampled from an image's pixels for building a palette.
pub fn sample_colors(pixels: &[[u8; 3]]) -> (res: Vec<[u8; 3]>)
    requires
        pixels@.len() > 0,
    ensures
        res@ == sampled(pixels@, sample_step(pixels@.len())),
{
    let n = pixels.len();
    let size = if n < 10000 { n } else { 10000 };
    let s = n / size;
    let step = if s < 1 { 1 } else { s };
    let ghost stp = sample_step(n as nat);
    assert(step == stp);
    let mut out: Vec<[u8; 3]> = Vec::new();
    let mut i: usize = 0;
    while i < n
        invariant
            n == pixels@.len(),
            n > 0,
            step == stp,
            step >= 1,
            i <= n,
            i < n ==> i as int == out@.len() * (step as int),
            i == n ==> out@.len() == (n + step - 1) as int / (step as int),
            forall|k: int| 0 <= k < out@.len() ==> #[trigger] out@[k] == pixels@[k * step],
        decreases n - i,
    {
        let ghost len0 = out@.len() as int;
        out.push(pixels[i]);
        if n - i <= step {
            proof {
                let st = step as int;
                assert((n + st - 1) / st == len0 + 1) by (nonlinear_arith)
                    requires
                        i as int == len0 * st,
                        n <= i + st,
                        n > i,
                        st >= 1,
                ;
            }
            i = n;
        } else {
            i = i + step;
            proof {
                assert(i as int == (len0 + 1) * (step as int)) by (nonlinear_arith)
                    requires
                        i as int == len0 * (step as int) + step as int,
                ;
            }
        }
    }
    assert(out@ =~= sampled(pixels@, stp));
    out
}

/// Maps every pixel to its nearest palette colour.
pub fn quantize_pixels(pixels: &[[u8; 3]], palette: &[[u8; 3]]) -> (res: Vec<[u8; 3]>)
    ensures
        res@.len() == pixels@.len(),
        forall|i: int| 0 <= i < pixels@.len() ==> is_first_nearest(pixels@[i], palette@, #[trigger] res@[i]),
{
    let mut out: Vec<[u8; 3]> = Vec::new();
    let mut i: usize = 0;
    while i < pixels.len()
        invariant
            i <= pixels@.len(),
            out@.len() == i,
            forall|j: int| 0 <= j < i ==> is_first_nearest(pixels@[j], palette@, #[trigger] out@[j]),
        decreases pixels@.len() - i,
    {
        let c = find_closest_color(pixels[i], palette);
        out.push(c);
        i = i + 1;
    }
    out
}


/// One step of a preprocessing pipeline.
#[derive(Debug, Clone, Copy, PartialEq, Eq, Structural)]
pub enum PreprocessStep {
    /// Resize to `width` by `height`; a side of 0 follows the other's scale.
    Resize { width: u32, height: u32, filter: FilterType },
    /// Reduce to a palette of `colors` colours (255 keeps the image).
    Quantization { colors: u8, dithering: bool },
    /// Sharpen by `amount`, an `f32` carried as its bits.
    Sharpen { amount_bits: u32 },
    /// Choose the enhancement from the image itself.
    Auto,
}

/// Steps applied to an image in order.
#[derive(Debug, Clone)]
pub struct PreprocessPipeline {
    steps: Vec<PreprocessStep>,
}

impl PreprocessPipeline {
    pub closed spec fn spec_steps(&self) -> Seq<PreprocessStep> {
        self.steps@
    }

    /// A pipeline with no steps.
    pub fn new() -> (res: Self)
        ensures
            res.spec_steps().len() == 0,
    {
        PreprocessPipeline { steps: Vec::new() }
    }

    /// The pipeline with one more step at the end.
    pub fn add_step(self, step: PreprocessStep) -> (res: Self)
        ensures
            res.spec_steps() == self.spec_steps().push(step),
    {
        let mut p = self;
        p.steps.push(step);
        p
    }

    /// The steps, in the order they are applied.
    pub fn steps(&self) -> (res: &[PreprocessStep])
        ensures
            res@ == self.spec_steps(),
    {
        self.steps.as_slice()
    }
}

impl Default for PreprocessPipeline {
    /// A pipeline with no steps.
    fn default() -> (res: Self)
        ensures
            res.spec_steps().len() == 0,
    {
        PreprocessPipeline::new()
    }
}

} // verus!
