//! Feature toggles of the conversion kernel, their presets and checks, and
//! a manager that lets single toggles be overridden at run time.
//!
//! The AI confidence threshold is a single-precision float held as its
//! IEEE-754 bit pattern; the range check reads that pattern exactly.

use vstd::prelude::*;
use vstd::string::*;
use crate::text::{owned, str_eq, views, push_msg};

verus! {

/// Bit pattern of `0.7f32`.
pub const F32_POINT_SEVEN_BITS: u32 = 0x3F33_3333;

/// The float with this bit pattern compares below 0.0 or above 1.0 (NaN
/// does neither): negative values other than `-0.0`, and values above 1.
pub open spec fn confidence_out_of_range(bits: u32) -> bool {
    (0x3F80_0000 < bits <= 0x7F80_0000) || (0x8000_0000 < bits <= 0xFF80_0000)
}

/// The kernel's feature toggles.
#[derive(Debug, Clone)]
pub struct FeatureToggles {
    pub enable_ai_prediction: bool,
    pub enable_smart_quality: bool,
    pub enable_auto_optimize: bool,
    pub enable_ssim_validation: bool,
    pub enable_video_for_animation: bool,
    pub enable_ppo: bool,
    pub expected_format: Option<String>,
    pub ai_prediction_timeout_secs: u64,
    /// The minimum confidence (0.0-1.0), as the bit pattern of an `f32`.
    pub ai_min_confidence_bits: u32,
    pub ai_fallback_to_defaults: bool,
    pub enable_validation: bool,
    pub enable_file_validation: bool,
    pub enable_quality_validation: bool,
    pub abort_on_validation_failure: bool,
    pub preserve_metadata: bool,
    pub merge_xmp_sidecar: bool,
    pub keep_animated: bool,
    pub normalize_filenames: bool,
    pub enable_simd: bool,
    pub enable_cache: bool,
    pub enable_parallel: bool,
    pub max_concurrent_conversions: usize,
    pub allow_manual_override: bool,
    pub enable_advanced_params: bool,
    pub enable_experimental: bool,
}

/// The default toggles, except for the fields a preset changes.
pub open spec fn is_default_except(t: FeatureToggles, ai: bool, file_validation: bool) -> bool {
    &&& t.enable_ai_prediction == ai
    &&& t.enable_smart_quality
    &&& t.enable_auto_optimize
    &&& t.enable_ssim_validation
    &&& !t.enable_video_for_animation
    &&& t.enable_ppo
    &&& t.expected_format is None
    &&& t.ai_prediction_timeout_secs == 30
    &&& t.ai_min_confidence_bits == F32_POINT_SEVEN_BITS
    &&& t.ai_fallback_to_defaults
    &&& t.enable_validation
    &&& t.enable_file_validation == file_validation
    &&& t.enable_quality_validation
    &&& !t.abort_on_validation_failure
    &&& t.preserve_metadata
    &&& !t.merge_xmp_sidecar
    &&& t.keep_animated
    &&& !t.normalize_filenames
    &&& t.enable_simd
    &&& t.enable_cache
    &&& t.enable_parallel
    &&& t.max_concurrent_conversions == 4
    &&& t.allow_manual_override
    &&& t.enable_advanced_params
    &&& !t.enable_experimental
}

/// The first invalid setting, as its message.
pub open spec fn toggles_problem(t: FeatureToggles) -> Option<Seq<char>> {
    if confidence_out_of_range(t.ai_min_confidence_bits) {
        Some("AI confidence threshold must be between 0.0-1.0"@)
    } else if t.ai_prediction_timeout_secs == 0 {
        Some("AI prediction timeout must be greater than 0"@)
    } else if t.max_concurrent_conversions == 0 {
        Some("Maximum concurrent conversions must be greater than 0"@)
    } else {
        None
    }
}

pub open spec fn bool_text(b: bool) -> Seq<char> {
    if b { "true"@ } else { "false"@ }
}

/// The one-line summary of the main toggles.
pub open spec fn summary_text(t: FeatureToggles) -> Seq<char> {
    "FeatureToggles { AI: "@ + bool_text(t.enable_ai_prediction) + ", Validation: "@ + bool_text(
        t.enable_validation,
    ) + ", Metadata: "@ + bool_text(t.preserve_metadata) + ", SIMD: "@ + bool_text(t.enable_simd)
        + ", Cache: "@ + bool_text(t.enable_cache) + " }"@
}

fn bool_str(b: bool) -> (res: &'static str)
    ensures
        res@ == bool_text(b),
{
    if b { "true" } else { "false" }
}

fn preset(ai: bool, file_validation: bool) -> (res: FeatureToggles)
    ensures
        is_default_except(res, ai, file_validation),
{
    FeatureToggles {
        enable_ai_prediction: ai,
        enable_smart_quality: true,
        enable_auto_optimize: true,
        enable_ssim_validation: true,
        enable_video_for_animation: false,
        enable_ppo: true,
        expected_format: None,
        ai_prediction_timeout_secs: 30,
        ai_min_confidence_bits: F32_POINT_SEVEN_BITS,
        ai_fallback_to_defaults: true,
        enable_validation: true,
        enable_file_validation: file_validation,
        enable_quality_validation: true,
        abort_on_validation_failure: false,
        preserve_metadata: true,
        merge_xmp_sidecar: false,
        keep_animated: true,
        normalize_filenames: false,
        enable_simd: true,
        enable_cache: true,
        enable_parallel: true,
        max_concurrent_conversions: 4,
        allow_manual_override: true,
        enable_advanced_params: true,
        enable_experimental: false,
    }
}

impl Default for FeatureToggles {
    fn default() -> (res: Self)
        ensures
            is_default_except(res, true, false),
    {
        preset(true, false)
    }
}

impl FeatureToggles {
    /// The default toggles.
    pub fn new() -> (res: Self)
        ensures
            is_default_except(res, true, false),
    {
        preset(true, false)
    }

    /// The settings must be in range: the confidence within 0.0-1.0, a
    /// positive timeout and a positive number of concurrent conversions.
    pub fn validate(&self) -> (res: Result<(), String>)
        ensures
            match res {
                Ok(()) => toggles_problem(*self) is None,
                Err(m) => toggles_problem(*self) == Some(m@),
            },
    {
        let b = self.ai_min_confidence_bits;
        if (0x3F80_0000 < b && b <= 0x7F80_0000) || (0x8000_0000 < b && b <= 0xFF80_0000) {
            return Err(owned("AI confidence threshold must be between 0.0-1.0"));
        }
        if self.ai_prediction_timeout_secs == 0 {
            return Err(owned("AI prediction timeout must be greater than 0"));
        }
        if self.max_concurrent_conversions == 0 {
            return Err(owned("Maximum concurrent conversions must be greater than 0"));
        }
        Ok(())
    }

    /// `FeatureToggles { AI: .., Validation: .., Metadata: .., SIMD: .., Cache: .. }`
    pub fn summary(&self) -> (res: String)
        ensures
            res@ == summary_text(*self),
    {
        let mut s = owned("FeatureToggles { AI: ");
        s.append(bool_str(self.enable_ai_prediction));
        s.append(", Validation: ");
        s.append(bool_str(self.enable_validation));
        s.append(", Metadata: ");
        s.append(bool_str(self.preserve_metadata));
        s.append(", SIMD: ");
        s.append(bool_str(self.enable_simd));
        s.append(", Cache: ");
        s.append(bool_str(self.enable_cache));
        s.append(" }");
        s
    }

    /// AI mode: the defaults with file validation on.
    pub fn ai_mode() -> (res: Self)
        ensures
            is_default_except(res, true, true),
    {
        preset(true, true)
    }

    /// Manual mode: the defaults with AI prediction off and file validation on.
    pub fn manual_mode() -> (res: Self)
        ensures
            is_default_except(res, false, true),
    {
        preset(false, true)
    }
}

/// The toggle of a feature name, before overrides.
pub open spec fn named_toggle(t: FeatureToggles, f: Seq<char>) -> bool {
    if f == "ai_prediction"@ {
        t.enable_ai_prediction
    } else if f == "validation"@ {
        t.enable_validation
    } else if f == "file_validation"@ {
        t.enable_file_validation
    } else if f == "quality_validation"@ {
        t.enable_quality_validation
    } else if f == "preserve_metadata"@ {
        t.preserve_metadata
    } else if f == "merge_xmp_sidecar"@ {
        t.merge_xmp_sidecar
    } else if f == "keep_animated"@ {
        t.keep_animated
    } else if f == "normalize_filenames"@ {
        t.normalize_filenames
    } else if f == "simd"@ {
        t.enable_simd
    } else if f == "cache"@ {
        t.enable_cache
    } else if f == "parallel"@ {
        t.enable_parallel
    } else if f == "manual_override"@ {
        t.allow_manual_override
    } else if f == "advanced_params"@ {
        t.enable_advanced_params
    } else if f == "experimental"@ {
        t.enable_experimental
    } else {
        false
    }
}

/// The feature names in the order they are listed, with their toggles.
pub open spec fn feature_list(t: FeatureToggles) -> Seq<(Seq<char>, bool)> {
    seq![
        ("ai_prediction"@, t.enable_ai_prediction),
        ("validation"@, t.enable_validation),
        ("file_validation"@, t.enable_file_validation),
        ("quality_validation"@, t.enable_quality_validation),
        ("preserve_metadata"@, t.preserve_metadata),
        ("merge_xmp_sidecar"@, t.merge_xmp_sidecar),
        ("keep_animated"@, t.keep_animated),
        ("normalize_filenames"@, t.normalize_filenames),
        ("simd"@, t.enable_simd),
        ("cache"@, t.enable_cache),
        ("parallel"@, t.enable_parallel),
        ("manual_override"@, t.allow_manual_override),
        ("advanced_params"@, t.enable_advanced_params),
        ("experimental"@, t.enable_experimental),
    ]
}

/// The names of the enabled features among the first `k` listed.
pub open spec fn enabled_names(l: Seq<(Seq<char>, bool)>, k: int) -> Seq<Seq<char>>
    decreases k,
{
    if k <= 0 {
        seq![]
    } else {
        enabled_names(l, k - 1) + if l[k - 1].1 { seq![l[k - 1].0] } else { seq![] }
    }
}

/// The runtime override of a feature, if one is set.
pub open spec fn override_of(o: Seq<(Seq<char>, bool)>, f: Seq<char>) -> Option<bool> {
    if exists|i: int| 0 <= i < o.len() && o[i].0 == f {
        Some(o[choose|i: int| 0 <= i < o.len() && o[i].0 == f].1)
    } else {
        None
    }
}

/// Whether a feature is on under some overrides: its override when one is
/// set, else its stored toggle.
pub open spec fn feature_on(o: Seq<(Seq<char>, bool)>, t: FeatureToggles, f: Seq<char>) -> bool {
    match override_of(o, f) {
        Some(v) => v,
        None => named_toggle(t, f),
    }
}

/// An override decides whether its feature is on, whatever the stored
/// toggle says.
pub proof fn law_override_decides(o: Seq<(Seq<char>, bool)>, t: FeatureToggles, key: Seq<char>, value: bool)
    requires
        override_of(o, key) == Some(value),
    ensures
        feature_on(o, t, key) == value,
{
}

/// With the overrides cleared, every feature is as its stored toggle says.
pub proof fn law_cleared_overrides_fall_back(o: Seq<(Seq<char>, bool)>, t: FeatureToggles, f: Seq<char>)
    requires
        o.len() == 0,
    ensures
        feature_on(o, t, f) == named_toggle(t, f),
{
}

/// No feature is overridden twice.
pub open spec fn unique_keys(o: Seq<(Seq<char>, bool)>) -> bool {
    forall|i: int, j: int| 0 <= i < o.len() && 0 <= j < o.len() && i != j ==> o[i].0 != o[j].0
}

/// The toggles with runtime overrides.
pub struct FeatureToggleManager {
    toggles: FeatureToggles,
    runtime_overrides: Vec<(String, bool)>,
}

impl FeatureToggleManager {
    pub closed spec fn spec_toggles(&self) -> FeatureToggles {
        self.toggles
    }

    /// The overrides as (feature, value) pairs.
    pub closed spec fn overrides(&self) -> Seq<(Seq<char>, bool)> {
        self.runtime_overrides@.map_values(|p: (String, bool)| (p.0@, p.1))
    }

    pub closed spec fn wf(&self) -> bool {
        unique_keys(self.overrides())
    }

    /// A manager for valid toggles, with no overrides.
    pub fn new(toggles: FeatureToggles) -> (res: Result<Self, String>)
        ensures
            match res {
                Ok(m) => toggles_problem(toggles) is None && m.wf() && m.spec_toggles() == toggles
                    && m.overrides().len() == 0,
                Err(e) => toggles_problem(toggles) == Some(e@),
            },
    {
        match toggles.validate() {
            Ok(()) => {
                let m = FeatureToggleManager { toggles, runtime_overrides: Vec::new() };
                assert(m.overrides() =~= seq![]);
                Ok(m)
            },
            Err(e) => Err(e),
        }
    }

    /// The toggles.
    pub fn toggles(&self) -> (res: &FeatureToggles)
        ensures
            *res == self.spec_toggles(),
    {
        &self.toggles
    }

    /// Replaces the toggles when they are valid; otherwise nothing changes.
    pub fn update_toggles(&mut self, toggles: FeatureToggles) -> (res: Result<(), String>)
        ensures
            final(self).overrides() == old(self).overrides(),
            final(self).wf() == old(self).wf(),
            match res {
                Ok(()) => toggles_problem(toggles) is None && final(self).spec_toggles() == toggles,
                Err(e) => toggles_problem(toggles) == Some(e@) && final(self).spec_toggles() == old(
                    self,
                ).spec_toggles(),
            },
    {
        match toggles.validate() {
            Ok(()) => {
                self.toggles = toggles;
                Ok(())
            },
            Err(e) => Err(e),
        }
    }

    /// Overrides one feature at run time.
    pub fn override_toggle(&mut self, key: &str, value: bool)
        requires
            old(self).wf(),
        ensures
            final(self).wf(),
            final(self).spec_toggles() == old(self).spec_toggles(),
            override_of(final(self).overrides(), key@) == Some(value),
            forall|f: Seq<char>|
                f != key@ ==> override_of(final(self).overrides(), f) == override_of(old(self).overrides(), f),
    {
        let ghost before = self.overrides();
        let mut i: usize = 0;
        while i < self.runtime_overrides.len()
            invariant
                self.runtime_overrides@ == old(self).runtime_overrides@,
                self.toggles == old(self).toggles,
                before == self.overrides(),
                unique_keys(before),
                i <= self.runtime_overrides@.len(),
                forall|j: int| 0 <= j < i ==> before[j].0 != key@,
            decreases self.runtime_overrides@.len() - i,
        {
            if str_eq(self.runtime_overrides[i].0.as_str(), key) {
                self.runtime_overrides.set(i, (owned(key), value));
                proof {
                    let after = self.overrides();
                    assert(after =~= before.update(i as int, (key@, value)));
                    assert(unique_keys(after)) by {
                        assert forall|a: int, b: int|
                            0 <= a < after.len() && 0 <= b < after.len() && a != b implies after[a].0 != after[b].0 by {
                            if a != i && b != i {
                                assert(after[a] == before[a] && after[b] == before[b]);
                            } else if a == i {
                                assert(before[i as int].0 == key@);
                            } else {
                                assert(before[i as int].0 == key@);
                            }
                        }
                    }
                    assert(after[i as int].0 == key@);
                    let k = choose|k: int| 0 <= k < after.len() && after[k].0 == key@;
                    assert(k == i);
                    assert forall|f: Seq<char>| f != key@ implies override_of(after, f) == override_of(before, f) by {
                        if exists|j: int| 0 <= j < before.len() && before[j].0 == f {
                            let j = choose|j: int| 0 <= j < before.len() && before[j].0 == f;
                            assert(after[j].0 == f);
                            let ja = choose|j: int| 0 <= j < after.len() && after[j].0 == f;
                            assert(ja == j);
                        } else {
                            assert forall|j: int| 0 <= j < after.len() implies after[j].0 != f by {
                                if j != i {
                                    assert(after[j] == before[j]);
                                }
                            }
                        }
                    }
                }
                return;
            }
            i = i + 1;
        }
        self.runtime_overrides.push((owned(key), value));
        proof {
            let after = self.overrides();
            assert(after =~= before.push((key@, value)));
            assert(after[before.len() as int].0 == key@);
            let k = choose|k: int| 0 <= k < after.len() && after[k].0 == key@;
            assert(k == before.len());
            assert forall|f: Seq<char>| f != key@ implies override_of(after, f) == override_of(before, f) by {
                if exists|j: int| 0 <= j < before.len() && before[j].0 == f {
                    let j = choose|j: int| 0 <= j < before.len() && before[j].0 == f;
                    assert(after[j].0 == f);
                    let ja = choose|j: int| 0 <= j < after.len() && after[j].0 == f;
                    assert(ja == j);
                } else {
                    assert forall|j: int| 0 <= j < after.len() implies after[j].0 != f by {
                        if j < before.len() {
                            assert(after[j] == before[j]);
                        }
                    }
                }
            }
        }
    }

    /// Removes every override.
    pub fn clear_overrides(&mut self)
        ensures
            final(self).wf(),
            final(self).spec_toggles() == old(self).spec_toggles(),
            final(self).overrides().len() == 0,
    {
        self.runtime_overrides.clear();
        assert(self.overrides() =~= seq![]);
    }

    /// Whether a feature is on: its override when one is set, else its toggle.
    pub fn is_enabled(&self, feature: &str) -> (res: bool)
        requires
            self.wf(),
        ensures
            res == feature_on(self.overrides(), self.spec_toggles(), feature@),
    {
        let mut i: usize = 0;
        while i < self.runtime_overrides.len()
            invariant
                i <= self.runtime_overrides@.len(),
                unique_keys(self.overrides()),
                forall|j: int| 0 <= j < i ==> self.overrides()[j].0 != feature@,
            decreases self.runtime_overrides@.len() - i,
        {
            if str_eq(self.runtime_overrides[i].0.as_str(), feature) {
                proof {
                    assert(self.overrides()[i as int].0 == feature@);
                    let k = choose|k: int| 0 <= k < self.overrides().len() && self.overrides()[k].0 == feature@;
                    assert(k == i);
                }
                return self.runtime_overrides[i].1;
            }
            i = i + 1;
        }
        let t = &self.toggles;
        if str_eq(feature, "ai_prediction") {
            t.enable_ai_prediction
        } else if str_eq(feature, "validation") {
            t.enable_validation
        } else if str_eq(feature, "file_validation") {
            t.enable_file_validation
        } else if str_eq(feature, "quality_validation") {
            t.enable_quality_validation
        } else if str_eq(feature, "preserve_metadata") {
            t.preserve_metadata
        } else if str_eq(feature, "merge_xmp_sidecar") {
            t.merge_xmp_sidecar
        } else if str_eq(feature, "keep_animated") {
            t.keep_animated
        } else if str_eq(feature, "normalize_filenames") {
            t.normalize_filenames
        } else if str_eq(feature, "simd") {
            t.enable_simd
        } else if str_eq(feature, "cache") {
            t.enable_cache
        } else if str_eq(feature, "parallel") {
            t.enable_parallel
        } else if str_eq(feature, "manual_override") {
            t.allow_manual_override
        } else if str_eq(feature, "advanced_params") {
            t.enable_advanced_params
        } else if str_eq(feature, "experimental") {
            t.enable_experimental
        } else {
            false
        }
    }

    /// The names of the enabled features (toggles only, not overrides), in
    /// their listed order.
    pub fn enabled_features(&self) -> (res: Vec<String>)
        ensures
            views(res@) == enabled_names(feature_list(self.spec_toggles()), 14),
    {
        let t = &self.toggles;
        let names: [&str; 14] = [
            "ai_prediction",
            "validation",
            "file_validation",
            "quality_validation",
            "preserve_metadata",
            "merge_xmp_sidecar",
            "keep_animated",
            "normalize_filenames",
            "simd",
            "cache",
            "parallel",
            "manual_override",
            "advanced_params",
            "experimental",
        ];
        let flags: [bool; 14] = [
            t.enable_ai_prediction,
            t.enable_validation,
            t.enable_file_validation,
            t.enable_quality_validation,
            t.preserve_metadata,
            t.merge_xmp_sidecar,
            t.keep_animated,
            t.normalize_filenames,
            t.enable_simd,
            t.enable_cache,
            t.enable_parallel,
            t.allow_manual_override,
            t.enable_advanced_params,
            t.enable_experimental,
        ];
        let ghost l = feature_list(self.spec_toggles());
        assert(forall|i: int| 0 <= i < 14 ==> l[i].0 == names@[i]@ && l[i].1 == flags@[i]);
        let mut out: Vec<String> = Vec::new();
        assert(views(out@) =~= seq![]);
        let mut i: usize = 0;
        while i < 14
            invariant
                i <= 14,
                l == feature_list(self.spec_toggles()),
                forall|k: int| 0 <= k < 14 ==> l[k].0 == names@[k]@ && l[k].1 == flags@[k],
                views(out@) == enabled_names(l, i as int),
            decreases 14 - i,
        {
            if flags[i] {
                push_msg(&mut out, owned(names[i]));
            }
            i = i + 1;
        }
        out
    }
}

} // verus!
