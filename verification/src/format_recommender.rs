//! Which target formats are worth trying for an image, from what is known
//! of it: animation, transparency, resolution and visual complexity.

use vstd::prelude::*;
use crate::floatbits::{f64_lt, lt};
use crate::text::owned;

verus! {

/// The bit pattern of `0.3f64`.
pub const LOW_COMPLEXITY_BITS: u64 = 0x3FD3_3333_3333_3333u64;
/// The bit pattern of `0.7f64`.
pub const HIGH_COMPLEXITY_BITS: u64 = 0x3FE6_6666_6666_6666u64;

/// What is known of an image.
#[derive(Debug, Clone)]
pub struct ImageFeatures {
    pub width: u32,
    pub height: u32,
    pub file_size: u64,
    pub format: String,
    pub has_alpha: bool,
    pub is_animated: bool,
    /// The visual complexity in 0..1, as the bits of an `f64`.
    pub complexity_bits: u64,
}

/// Recommends target formats.
#[derive(Debug, Clone, Copy)]
pub struct AIFormatRecommender {}

/// The candidate formats for an image, best first: animated and
/// transparent images get formats that keep both; animated ones animated
/// formats; transparent ones formats with alpha; images beyond 4K the
/// formats that do best on large pictures; simple graphics (complexity
/// under 0.3) formats for flat colour; complex photos (over 0.7) the
/// strongest photo codecs; anything else a general list.
pub open spec fn candidates_spec(f: ImageFeatures) -> Seq<Seq<char>> {
    if f.is_animated && f.has_alpha {
        seq!["webp"@, "avif"@, "png"@]
    } else if f.is_animated {
        seq!["webp"@, "avif"@, "gif"@]
    } else if f.has_alpha {
        seq!["avif"@, "webp"@, "jxl"@, "png"@]
    } else if f.width > 3840 || f.height > 2160 {
        seq!["jxl"@, "avif"@, "webp"@]
    } else if f64_lt(f.complexity_bits, LOW_COMPLEXITY_BITS) {
        seq!["webp"@, "png"@, "avif"@]
    } else if f64_lt(HIGH_COMPLEXITY_BITS, f.complexity_bits) {
        seq!["jxl"@, "avif"@, "webp"@, "jpeg"@]
    } else {
        seq!["avif"@, "webp"@, "jxl"@, "jpeg"@]
    }
}

fn strings(names: &[&str]) -> (res: Vec<String>)
    ensures
        res@.map_values(|s: String| s@) == names@.map_values(|n: &str| n@),
{
    let mut out: Vec<String> = Vec::new();
    let mut i: usize = 0;
    while i < names.len()
        invariant
            i <= names@.len(),
            out@.len() == i,
            forall|j: int| 0 <= j < i ==> (#[trigger] out@[j])@ == names@[j]@,
        decreases names@.len() - i,
    {
        out.push(owned(names[i]));
        i = i + 1;
    }
    assert(out@.map_values(|s: String| s@) =~= names@.map_values(|n: &str| n@));
    out
}

impl AIFormatRecommender {
    /// A recommender.
    pub fn new() -> (res: Self) {
        AIFormatRecommender {}
    }

    /// The candidate formats for an image, best first.
    pub fn get_candidate_formats(&self, features: &ImageFeatures) -> (res: Vec<String>)
        ensures
            res@.map_values(|s: String| s@) == candidates_spec(*features),
    {
        let names: Vec<&str> = if features.is_animated && features.has_alpha {
            vec!["webp", "avif", "png"]
        } else if features.is_animated {
            vec!["webp", "avif", "gif"]
        } else if features.has_alpha {
            vec!["avif", "webp", "jxl", "png"]
        } else if features.width > 3840 || features.height > 2160 {
            vec!["jxl", "avif", "webp"]
        } else if lt(features.complexity_bits, LOW_COMPLEXITY_BITS) {
            vec!["webp", "png", "avif"]
        } else if lt(HIGH_COMPLEXITY_BITS, features.complexity_bits) {
            vec!["jxl", "avif", "webp", "jpeg"]
        } else {
            vec!["avif", "webp", "jxl", "jpeg"]
        };
        let out = strings(names.as_slice());
        assert(names@.map_values(|n: &str| n@) =~= candidates_spec(*features));
        out
    }
}

} // verus!
