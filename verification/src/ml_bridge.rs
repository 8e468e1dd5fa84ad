//! The 128-value feature vector exchanged with the training side: its
//! seven groups, their order in the flat vector, and the checks made on it.
//!
//! The values are `f64` in the interface, carried as their bit patterns.

use vstd::prelude::*;
use crate::floatbits::{is_inf_bits, is_infinite, is_nan, is_nan_bits};
use crate::text::{owned, with_number, dec};

verus! {

/// The feature vector in its groups.
#[derive(Debug, Clone, Copy)]
pub struct StandardFeatures {
    /// Basic properties of the image (16 values).
    pub basic: [u64; 16],
    /// Colour distribution (16 values).
    pub color: [u64; 16],
    /// Edges and texture (16 values).
    pub texture: [u64; 16],
    /// Geometry and structure (16 values).
    pub shape: [u64; 16],
    /// Noise and sharpness (16 values).
    pub quality: [u64; 16],
    /// EXIF and file properties (32 values).
    pub metadata: [u64; 32],
    /// Processing context (16 values).
    pub context: [u64; 16],
}

/// The flat vector: the groups in order, basic to context.
pub open spec fn flat(f: StandardFeatures) -> Seq<u64> {
    f.basic@ + f.color@ + f.texture@ + f.shape@ + f.quality@ + f.metadata@ + f.context@
}

/// Splitting the flat vector of a feature set gives back that set: two
/// sets with the same flat vector are the same.
pub proof fn law_vector_round_trip(f: StandardFeatures, g: StandardFeatures)
    requires
        flat(g) == flat(f),
    ensures
        g == f,
{
    broadcast use vstd::array::group_array_axioms;

    let v = flat(f);
    assert(f.basic@ =~= v.subrange(0, 16) && g.basic@ =~= v.subrange(0, 16));
    assert(f.color@ =~= v.subrange(16, 32) && g.color@ =~= v.subrange(16, 32));
    assert(f.texture@ =~= v.subrange(32, 48) && g.texture@ =~= v.subrange(32, 48));
    assert(f.shape@ =~= v.subrange(48, 64) && g.shape@ =~= v.subrange(48, 64));
    assert(f.quality@ =~= v.subrange(64, 80) && g.quality@ =~= v.subrange(64, 80));
    assert(f.metadata@ =~= v.subrange(80, 112) && g.metadata@ =~= v.subrange(80, 112));
    assert(f.context@ =~= v.subrange(112, 128) && g.context@ =~= v.subrange(112, 128));
    assert(g.basic =~= f.basic);
    assert(g.color =~= f.color);
    assert(g.texture =~= f.texture);
    assert(g.shape =~= f.shape);
    assert(g.quality =~= f.quality);
    assert(g.metadata =~= f.metadata);
    assert(g.context =~= f.context);
}

/// What is wrong with a feature vector, if anything: a NaN, else an infinity.
pub open spec fn features_problem(v: Seq<u64>) -> Option<Seq<char>> {
    if exists|i: int| 0 <= i < v.len() && is_nan_bits(#[trigger] v[i]) {
        Some("Features contain NaN"@)
    } else if exists|i: int| 0 <= i < v.len() && is_inf_bits(#[trigger] v[i]) {
        Some("Features contain Inf"@)
    } else {
        None
    }
}

fn push_all(out: &mut Vec<u64>, a: &[u64])
    ensures
        final(out)@ == old(out)@ + a@,
{
    let mut i: usize = 0;
    while i < a.len()
        invariant
            i <= a@.len(),
            out@ == old(out)@ + a@.subrange(0, i as int),
        decreases a@.len() - i,
    {
        out.push(a[i]);
        i = i + 1;
        assert(out@ =~= old(out)@ + a@.subrange(0, i as int));
    }
    assert(a@.subrange(0, a@.len() as int) =~= a@);
}

fn take16(v: &[u64], off: usize) -> (res: [u64; 16])
    requires
        off + 16 <= v@.len(),
    ensures
        res@ == v@.subrange(off as int, off + 16),
{
    let mut a: [u64; 16] = [0u64; 16];
    let mut i: usize = 0;
    while i < 16
        invariant
            i <= 16,
            off + 16 <= v.len(),
            a@.len() == 16,
            forall|k: int| 0 <= k < i ==> a@[k] == v@[off + k],
        decreases 16 - i,
    {
        a[i] = v[off + i];
        i = i + 1;
    }
    assert(a@ =~= v@.subrange(off as int, off + 16));
    a
}

fn take32(v: &[u64], off: usize) -> (res: [u64; 32])
    requires
        off + 32 <= v@.len(),
    ensures
        res@ == v@.subrange(off as int, off + 32),
{
    let mut a: [u64; 32] = [0u64; 32];
    let mut i: usize = 0;
    while i < 32
        invariant
            i <= 32,
            off + 32 <= v.len(),
            a@.len() == 32,
            forall|k: int| 0 <= k < i ==> a@[k] == v@[off + k],
        decreases 32 - i,
    {
        a[i] = v[off + i];
        i = i + 1;
    }
    assert(a@ =~= v@.subrange(off as int, off + 32));
    a
}

impl StandardFeatures {
    /// The flat 128-value vector.
    pub fn to_vector(&self) -> (res: Vec<u64>)
        ensures
            res@ == flat(*self),
            res@.len() == 128,
    {
        let mut v: Vec<u64> = Vec::new();
        push_all(&mut v, self.basic.as_slice());
        push_all(&mut v, self.color.as_slice());
        push_all(&mut v, self.texture.as_slice());
        push_all(&mut v, self.shape.as_slice());
        push_all(&mut v, self.quality.as_slice());
        push_all(&mut v, self.metadata.as_slice());
        push_all(&mut v, self.context.as_slice());
        v
    }

    /// The groups of a flat vector of exactly 128 values; any other length
    /// is refused with "Invalid feature vector length: <n> (expected 128)".
    pub fn from_vector(v: &[u64]) -> (res: Result<Self, String>)
        ensures
            match res {
                Ok(f) => v@.len() == 128 && flat(f) == v@,
                Err(m) => v@.len() != 128 && m@ == "Invalid feature vector length: "@ + dec(v@.len())
                    + " (expected 128)"@,
            },
    {
        if v.len() != 128 {
            return Err(with_number("Invalid feature vector length: ", v.len() as u64, " (expected 128)"));
        }
        let f = StandardFeatures {
            basic: take16(v, 0),
            color: take16(v, 16),
            texture: take16(v, 32),
            shape: take16(v, 48),
            quality: take16(v, 64),
            metadata: take32(v, 80),
            context: take16(v, 112),
        };
        assert(flat(f) =~= v@);
        Ok(f)
    }
}

/// Checks a feature vector: no NaN, then no infinity.
pub fn validate_features(features: &StandardFeatures) -> (res: Result<(), String>)
    ensures
        match res {
            Ok(()) => features_problem(flat(*features)) is None,
            Err(m) => features_problem(flat(*features)) == Some(m@),
        },
{
    let v = features.to_vector();
    let mut i: usize = 0;
    while i < v.len()
        invariant
            i <= v@.len(),
            v@ == flat(*features),
            forall|k: int| 0 <= k < i ==> !is_nan_bits(#[trigger] v@[k]),
        decreases v@.len() - i,
    {
        if is_nan(v[i]) {
            assert(is_nan_bits(flat(*features)[i as int]));
            return Err(owned("Features contain NaN"));
        }
        i = i + 1;
    }
    let mut j: usize = 0;
    while j < v.len()
        invariant
            j <= v@.len(),
            v@ == flat(*features),
            forall|k: int| 0 <= k < v@.len() ==> !is_nan_bits(#[trigger] v@[k]),
            forall|k: int| 0 <= k < j ==> !is_inf_bits(#[trigger] v@[k]),
        decreases v@.len() - j,
    {
        if is_infinite(v[j]) {
            assert(is_inf_bits(flat(*features)[j as int]));
            return Err(owned("Features contain Inf"));
        }
        j = j + 1;
    }
    Ok(())
}

} // verus!
