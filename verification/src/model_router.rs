//! Prediction model versions and the router that picks one of them for a
//! request: the most accurate, the fastest, one drawn by weight, each in
//! turn, or a named one.
//!
//! Accuracies, latencies and weights are `f64` values in the interface,
//! carried as their bit patterns.

use vstd::prelude::*;
use crate::floatbits::{f64_key, is_nan_bits, is_nan, lt};
use crate::text::str_eq;

verus! {

/// The kind of a model.
#[derive(Debug, Clone, Copy, PartialEq, Eq, Structural)]
pub enum ModelType {
    LightGBM,
    PPO,
    LinearRegression,
    BayesianOptimizer,
}

/// How a model version is chosen.
#[derive(Debug, Clone)]
pub enum RoutingStrategy {
    /// The most accurate model.
    BestAccuracy,
    /// The model with the lowest latency.
    FastestResponse,
    /// A model drawn by weight.
    ABTesting,
    /// The models in turn.
    RoundRobin,
    /// The model with this id.
    Specific(String),
}

/// A registered model version.
#[derive(Debug, Clone)]
pub struct ModelVersion {
    pub id: String,
    pub name: String,
    pub version: String,
    pub model_type: ModelType,
    pub path: String,
    /// The accuracy, an `f64` carried as its bits.
    pub accuracy_bits: u64,
    /// The latency in milliseconds, an `f64` carried as its bits.
    pub latency_ms_bits: u64,
    pub enabled: bool,
    /// The weight in A/B draws, an `f64` carried as its bits.
    pub weight_bits: u64,
}

/// The enabled models, in order.
pub open spec fn enabled_of(v: Seq<ModelVersion>) -> Seq<ModelVersion> {
    v.filter(|m: ModelVersion| m.enabled)
}

/// No two models share an id.
pub open spec fn unique_ids(v: Seq<ModelVersion>) -> bool {
    forall|i: int, j: int| 0 <= i < v.len() && 0 <= j < v.len() && i != j ==> v[i].id@ != v[j].id@
}

/// The position of the model with this id, if there is one.
pub open spec fn position_of(v: Seq<ModelVersion>, id: Seq<char>) -> Option<int> {
    if exists|i: int| 0 <= i < v.len() && v[i].id@ == id {
        Some(choose|i: int| 0 <= i < v.len() && v[i].id@ == id)
    } else {
        None
    }
}

/// The models after registering `m`: it replaces the model of the same id
/// in place, or is added at the end.
pub open spec fn registered(v: Seq<ModelVersion>, m: ModelVersion) -> Seq<ModelVersion> {
    match position_of(v, m.id@) {
        Some(i) => v.update(i, m),
        None => v.push(m),
    }
}

proof fn lemma_position_unique(v: Seq<ModelVersion>, id: Seq<char>, i: int)
    requires
        unique_ids(v),
        0 <= i < v.len(),
        v[i].id@ == id,
    ensures
        position_of(v, id) == Some(i),
{
    let c = choose|k: int| 0 <= k < v.len() && v[k].id@ == id;
    assert(0 <= c < v.len() && v[c].id@ == id);
}

/// When two or more models are enabled, none has a NaN accuracy (the
/// comparison of a NaN has no order).
pub open spec fn no_nan_pairs_accuracy(e: Seq<ModelVersion>) -> bool {
    e.len() >= 2 ==> forall|j: int| 0 <= j < e.len() ==> !is_nan_bits(#[trigger] e[j].accuracy_bits)
}

/// When two or more models are enabled, none has a NaN latency.
pub open spec fn no_nan_pairs_latency(e: Seq<ModelVersion>) -> bool {
    e.len() >= 2 ==> forall|j: int| 0 <= j < e.len() ==> !is_nan_bits(#[trigger] e[j].latency_ms_bits)
}

/// `e[r]` is the most accurate model, the last of several equally accurate.
pub open spec fn is_most_accurate(e: Seq<ModelVersion>, r: int) -> bool {
    &&& 0 <= r < e.len()
    &&& forall|j: int| 0 <= j < e.len() ==> f64_key(#[trigger] e[j].accuracy_bits) <= f64_key(e[r].accuracy_bits)
    &&& forall|j: int| r < j < e.len() ==> f64_key(#[trigger] e[j].accuracy_bits) < f64_key(e[r].accuracy_bits)
}

/// `e[r]` is the fastest model, the first of several equally fast.
pub open spec fn is_fastest(e: Seq<ModelVersion>, r: int) -> bool {
    &&& 0 <= r < e.len()
    &&& forall|j: int| 0 <= j < e.len() ==> f64_key(e[r].latency_ms_bits) <= f64_key(#[trigger] e[j].latency_ms_bits)
    &&& forall|j: int| 0 <= j < r ==> f64_key(e[r].latency_ms_bits) < f64_key(#[trigger] e[j].latency_ms_bits)
}

/// What a selection needs: comparable figures for the strategies that
/// compare them, and room to count another round-robin turn.
pub open spec fn selectable(v: Seq<ModelVersion>, s: RoutingStrategy, turn: usize) -> bool {
    let e = enabled_of(v);
    &&& s is BestAccuracy ==> no_nan_pairs_accuracy(e)
    &&& s is FastestResponse ==> no_nan_pairs_latency(e)
    &&& (s is RoundRobin && e.len() > 0) ==> turn < usize::MAX
}

/// No model is chosen: none is enabled, or the named one is missing or
/// disabled.
pub open spec fn nothing_selected(v: Seq<ModelVersion>, s: RoutingStrategy) -> bool {
    enabled_of(v).len() == 0 || match s {
        RoutingStrategy::Specific(id) => match position_of(v, id@) {
            Some(p) => !v[p].enabled,
            None => true,
        },
        _ => false,
    }
}

/// `m` is the model the strategy chooses.
pub open spec fn selected(v: Seq<ModelVersion>, s: RoutingStrategy, turn: usize, pick: Option<usize>, m: ModelVersion) -> bool {
    let e = enabled_of(v);
    match s {
        RoutingStrategy::BestAccuracy => exists|r: int| is_most_accurate(e, r) && m == e[r],
        RoutingStrategy::FastestResponse => exists|r: int| is_fastest(e, r) && m == e[r],
        RoutingStrategy::ABTesting => m == e[match pick {
            Some(k) => if k < e.len() { k as int } else { 0 },
            None => 0,
        }],
        RoutingStrategy::RoundRobin => m == e[(turn as int) % (e.len() as int)],
        RoutingStrategy::Specific(id) => position_of(v, id@) matches Some(p) && m == v[p],
    }
}

/// The enabled models of a list, in order.
fn enabled_in(models: &Vec<ModelVersion>) -> (res: Vec<&ModelVersion>)
    ensures
        res@.map_values(|m: &ModelVersion| *m) == enabled_of(models@),
{
    let mut out: Vec<&ModelVersion> = Vec::new();
    let mut i: usize = 0;
    while i < models.len()
        invariant
            i <= models@.len(),
            out@.map_values(|m: &ModelVersion| *m) == enabled_of(models@.subrange(0, i as int)),
        decreases models@.len() - i,
    {
        if models[i].enabled {
            out.push(&models[i]);
        }
        proof {
            let s = models@.subrange(0, i as int + 1);
            assert(s.drop_last() =~= models@.subrange(0, i as int));
            reveal(Seq::filter);
        }
        assert(out@.map_values(|m: &ModelVersion| *m) =~= enabled_of(models@.subrange(0, i as int + 1)));
        i = i + 1;
    }
    assert(models@.subrange(0, models@.len() as int) =~= models@);
    out
}

proof fn lemma_update_keeps_ids(v: Seq<ModelVersion>, p: int, m: ModelVersion)
    requires
        unique_ids(v),
        0 <= p < v.len(),
        m.id@ == v[p].id@,
    ensures
        unique_ids(v.update(p, m)),
{
    let w = v.update(p, m);
    assert forall|a: int, b: int| 0 <= a < w.len() && 0 <= b < w.len() && a != b implies w[a].id@ != w[b].id@ by {
        assert(w[a].id@ == v[a].id@ && w[b].id@ == v[b].id@);
    }
}

/// After registering a model, looking up its id finds exactly that model,
/// and the ids stay unique.
pub proof fn law_register_then_lookup(v: Seq<ModelVersion>, m: ModelVersion)
    requires
        unique_ids(v),
    ensures
        unique_ids(registered(v, m)),
        position_of(registered(v, m), m.id@) matches Some(p) && registered(v, m)[p] == m,
{
    match position_of(v, m.id@) {
        Some(i) => {
            let c = choose|k: int| 0 <= k < v.len() && v[k].id@ == m.id@;
            assert(0 <= c < v.len() && v[c].id@ == m.id@);
            lemma_update_keeps_ids(v, i, m);
            lemma_position_unique(v.update(i, m), m.id@, i);
        },
        None => {
            let w = v.push(m);
            assert forall|a: int, b: int| 0 <= a < w.len() && 0 <= b < w.len() && a != b implies w[a].id@
                != w[b].id@ by {
                if a < v.len() && b < v.len() {
                    assert(w[a] == v[a] && w[b] == v[b]);
                } else if a == v.len() {
                    assert(w[b] == v[b]);
                    assert(!(0 <= b < v.len() && v[b].id@ == m.id@));
                } else {
                    assert(w[a] == v[a]);
                    assert(!(0 <= a < v.len() && v[a].id@ == m.id@));
                }
            }
            lemma_position_unique(w, m.id@, v.len() as int);
        },
    }
}

/// Routes requests to model versions.
pub struct ModelRouter {
    models: Vec<ModelVersion>,
    strategy: RoutingStrategy,
    current_index: usize,
}

impl ModelRouter {
    /// The registered models, in registration order.
    pub closed spec fn models_view(&self) -> Seq<ModelVersion> {
        self.models@
    }

    pub closed spec fn spec_strategy(&self) -> RoutingStrategy {
        self.strategy
    }

    /// How many turns the round-robin strategy has taken.
    pub closed spec fn spec_turn(&self) -> usize {
        self.current_index
    }

    pub closed spec fn wf(&self) -> bool {
        unique_ids(self.models@)
    }

    /// A router with no models.
    pub fn new(strategy: RoutingStrategy) -> (res: Self)
        ensures
            res.wf(),
            res.models_view().len() == 0,
            res.spec_strategy() == strategy,
            res.spec_turn() == 0,
    {
        ModelRouter { models: Vec::new(), strategy, current_index: 0 }
    }

    /// The routing strategy.
    pub fn strategy(&self) -> (res: &RoutingStrategy)
        ensures
            *res == self.spec_strategy(),
    {
        &self.strategy
    }

    /// How many round-robin turns have been taken.
    pub fn turn(&self) -> (res: usize)
        ensures
            res == self.spec_turn(),
    {
        self.current_index
    }

    fn find(&self, id: &str) -> (res: Option<usize>)
        requires
            self.wf(),
        ensures
            match res {
                Some(i) => position_of(self.models@, id@) == Some(i as int),
                None => position_of(self.models@, id@) is None,
            },
    {
        let mut i: usize = 0;
        while i < self.models.len()
            invariant
                i <= self.models@.len(),
                unique_ids(self.models@),
                forall|j: int| 0 <= j < i ==> self.models@[j].id@ != id@,
            decreases self.models@.len() - i,
        {
            if str_eq(self.models[i].id.as_str(), id) {
                proof {
                    lemma_position_unique(self.models@, id@, i as int);
                }
                return Some(i);
            }
            i = i + 1;
        }
        None
    }

    /// Registers a model, replacing the one of the same id.
    pub fn register_model(&mut self, model: ModelVersion)
        requires
            old(self).wf(),
        ensures
            final(self).wf(),
            final(self).models_view() == registered(old(self).models_view(), model),
            final(self).spec_strategy() == old(self).spec_strategy(),
            final(self).spec_turn() == old(self).spec_turn(),
    {
        let ghost before = self.models@;
        let ghost m = model;
        proof {
            law_register_then_lookup(before, m);
        }
        match self.find(model.id.as_str()) {
            Some(i) => {
                self.models.set(i, model);
            },
            None => {
                self.models.push(model);
            },
        }
        assert(self.models@ == registered(before, m));
    }

    /// Every registered model, in registration order.
    pub fn list_models(&self) -> (res: Vec<&ModelVersion>)
        ensures
            res@.len() == self.models_view().len(),
            forall|i: int| 0 <= i < res@.len() ==> *(#[trigger] res@[i]) == self.models_view()[i],
    {
        let mut out: Vec<&ModelVersion> = Vec::new();
        let mut i: usize = 0;
        while i < self.models.len()
            invariant
                i <= self.models@.len(),
                out@.len() == i,
                forall|j: int| 0 <= j < i ==> *(#[trigger] out@[j]) == self.models@[j],
            decreases self.models@.len() - i,
        {
            out.push(&self.models[i]);
            i = i + 1;
        }
        out
    }

    /// The enabled models, in registration order.
    pub fn enabled_models(&self) -> (res: Vec<&ModelVersion>)
        ensures
            res@.map_values(|m: &ModelVersion| *m) == enabled_of(self.models_view()),
    {
        enabled_in(&self.models)
    }

    /// Picks the model for a request. `ab_pick` is the position, among the
    /// enabled models, of the one drawn by weight for an A/B test; when it
    /// is missing or out of range the first enabled model is taken.
    pub fn select_model(&mut self, ab_pick: Option<usize>) -> (res: Option<&ModelVersion>)
        requires
            old(self).wf(),
            selectable(old(self).models_view(), old(self).spec_strategy(), old(self).spec_turn()),
        ensures
            final(self).wf(),
            final(self).models_view() == old(self).models_view(),
            final(self).spec_strategy() == old(self).spec_strategy(),
            final(self).spec_turn() == if old(self).spec_strategy() is RoundRobin && enabled_of(
                old(self).models_view(),
            ).len() > 0 {
                (old(self).spec_turn() + 1) as usize
            } else {
                old(self).spec_turn()
            },
            match res {
                None => nothing_selected(old(self).models_view(), old(self).spec_strategy()),
                Some(m) => !nothing_selected(old(self).models_view(), old(self).spec_strategy()) && selected(
                    old(self).models_view(),
                    old(self).spec_strategy(),
                    old(self).spec_turn(),
                    ab_pick,
                    *m,
                ),
            },
    {
        let enabled = enabled_in(&self.models);
        let ghost e = enabled_of(self.models@);
        assert(enabled@.len() == e.len());
        assert forall|k: int| 0 <= k < e.len() implies *enabled@[k] == e[k] by {
            assert(enabled@.map_values(|m: &ModelVersion| *m)[k] == *enabled@[k]);
        }
        if enabled.len() == 0 {
            return None;
        }
        match &self.strategy {
            RoutingStrategy::BestAccuracy => {
                let mut best: usize = 0;
                let mut i: usize = 1;
                while i < enabled.len()
                    invariant
                        1 <= i <= enabled@.len(),
                        enabled@.len() == e.len(),
                        forall|k: int| 0 <= k < e.len() ==> *enabled@[k] == e[k],
                        no_nan_pairs_accuracy(e),
                        is_most_accurate(e.subrange(0, i as int), best as int),
                    decreases enabled@.len() - i,
                {
                    proof {
                        assert(e.subrange(0, i as int).len() == i);
                        assert(!is_nan_bits(e[best as int].accuracy_bits) && !is_nan_bits(e[i as int].accuracy_bits));
                    }
                    if !lt(enabled[i].accuracy_bits, enabled[best].accuracy_bits) {
                        best = i;
                    }
                    i = i + 1;
                    assert forall|j: int| 0 <= j < i implies #[trigger] e.subrange(0, i as int)[j] == e[j] by {}
                }
                assert(e.subrange(0, e.len() as int) =~= e);
                Some(enabled[best])
            },
            RoutingStrategy::FastestResponse => {
                let mut best: usize = 0;
                let mut i: usize = 1;
                while i < enabled.len()
                    invariant
                        1 <= i <= enabled@.len(),
                        enabled@.len() == e.len(),
                        forall|k: int| 0 <= k < e.len() ==> *enabled@[k] == e[k],
                        no_nan_pairs_latency(e),
                        is_fastest(e.subrange(0, i as int), best as int),
                    decreases enabled@.len() - i,
                {
                    proof {
                        assert(e.subrange(0, i as int).len() == i);
                        assert(!is_nan_bits(e[best as int].latency_ms_bits) && !is_nan_bits(e[i as int].latency_ms_bits));
                    }
                    if lt(enabled[i].latency_ms_bits, enabled[best].latency_ms_bits) {
                        best = i;
                    }
                    i = i + 1;
                    assert forall|j: int| 0 <= j < i implies #[trigger] e.subrange(0, i as int)[j] == e[j] by {}
                }
                assert(e.subrange(0, e.len() as int) =~= e);
                Some(enabled[best])
            },
            RoutingStrategy::ABTesting => {
                let k = match ab_pick {
                    Some(k) => if k < enabled.len() { k } else { 0 },
                    None => 0,
                };
                Some(enabled[k])
            },
            RoutingStrategy::RoundRobin => {
                let k = self.current_index % enabled.len();
                self.current_index = self.current_index + 1;
                Some(enabled[k])
            },
            RoutingStrategy::Specific(id) => {
                match self.find(id.as_str()) {
                    Some(p) => if self.models[p].enabled { Some(&self.models[p]) } else { None },
                    None => None,
                }
            },
        }
    }

    /// Records new figures for the model with this id; nothing changes
    /// when no model has it.
    pub fn update_model_stats(&mut self, model_id: &str, accuracy_bits: u64, latency_ms_bits: u64)
        requires
            old(self).wf(),
        ensures
            final(self).wf(),
            final(self).spec_strategy() == old(self).spec_strategy(),
            final(self).spec_turn() == old(self).spec_turn(),
            final(self).models_view() == match position_of(old(self).models_view(), model_id@) {
                Some(p) => old(self).models_view().update(
                    p,
                    ModelVersion { accuracy_bits, latency_ms_bits, ..old(self).models_view()[p] },
                ),
                None => old(self).models_view(),
            },
    {
        if let Some(p) = self.find(model_id) {
            let mut m = self.models.remove(p);
            m.accuracy_bits = accuracy_bits;
            m.latency_ms_bits = latency_ms_bits;
            self.models.insert(p, m);
            proof {
                assert(self.models@ =~= old(self).models@.update(
                    p as int,
                    ModelVersion { accuracy_bits, latency_ms_bits, ..old(self).models@[p as int] },
                ));
                lemma_update_keeps_ids(old(self).models@, p as int, self.models@[p as int]);
            }
        }
    }

    /// Enables or disables the model with this id; nothing changes when no
    /// model has it.
    pub fn set_model_enabled(&mut self, model_id: &str, enabled: bool)
        requires
            old(self).wf(),
        ensures
            final(self).wf(),
            final(self).spec_strategy() == old(self).spec_strategy(),
            final(self).spec_turn() == old(self).spec_turn(),
            final(self).models_view() == match position_of(old(self).models_view(), model_id@) {
                Some(p) => old(self).models_view().update(p, ModelVersion { enabled, ..old(self).models_view()[p] }),
                None => old(self).models_view(),
            },
    {
        if let Some(p) = self.find(model_id) {
            let mut m = self.models.remove(p);
            m.enabled = enabled;
            self.models.insert(p, m);
            proof {
                assert(self.models@ =~= old(self).models@.update(
                    p as int,
                    ModelVersion { enabled, ..old(self).models@[p as int] },
                ));
                lemma_update_keeps_ids(old(self).models@, p as int, self.models@[p as int]);
            }
        }
    }
}

impl Default for ModelRouter {
    /// A router choosing the most accurate model.
    fn default() -> (res: Self)
        ensures
            res.wf(),
            res.models_view().len() == 0,
            res.spec_strategy() == RoutingStrategy::BestAccuracy,
            res.spec_turn() == 0,
    {
        ModelRouter::new(RoutingStrategy::BestAccuracy)
    }
}

} // verus!
