//! Grouping of declared test cases into iterations.
//!
//! Startup configuration can only be applied once per backend instance, so
//! every declared test case sharing one grouping key (disabled features as a
//! set, warp slot) must run against one freshly configured backend. The
//! builder walks the declarations in order and merges each case into the
//! iteration of the first-declared configuration with a matching key,
//! opening a new iteration when none matches.

use vstd::prelude::*;

use crate::trial::{
    trial_group_eq,
    trial_groups_with,
    DeclaredTrial,
    TrialConfig,
    TrialConfigV,
    TrialV,
};

verus! {

/// One iteration: a startup configuration and the declared test cases that
/// share it.
pub struct Iteration {
    config: TrialConfig,
    trials: Vec<DeclaredTrial>,
}

/// The mathematical value of an [`Iteration`].
#[verifier::ext_equal]
pub ghost struct IterationV {
    pub config: TrialConfigV,
    pub trials: Seq<TrialV>,
}

impl View for Iteration {
    type V = IterationV;

    closed spec fn view(&self) -> IterationV {
        IterationV {
            config: self.config@,
            trials: self.trials@.map_values(|t: DeclaredTrial| t@),
        }
    }
}

/// The mathematical values of a declaration list.
pub open spec fn decl_views(declared: Seq<(TrialConfig, DeclaredTrial)>) -> Seq<
    (TrialConfigV, TrialV),
> {
    declared.map_values(|d: (TrialConfig, DeclaredTrial)| (d.0@, d.1@))
}

/// The configurations of a declaration list, in declaration order.
pub open spec fn configs_of(decls: Seq<(TrialConfigV, TrialV)>) -> Seq<TrialConfigV> {
    decls.map_values(|d: (TrialConfigV, TrialV)| d.0)
}

/// Holds when `cs` contains a configuration sharing `c`'s grouping key.
pub open spec fn has_group(cs: Seq<TrialConfigV>, c: TrialConfigV) -> bool {
    exists|k: int| 0 <= k < cs.len() && trial_group_eq(#[trigger] cs[k], c)
}

/// The configurations that open iterations: each declared configuration in
/// order, skipping those whose grouping key was already seen. The
/// first-declared configuration of a key represents its whole bucket.
pub open spec fn distinct_group_configs(cs: Seq<TrialConfigV>) -> Seq<TrialConfigV>
    decreases cs.len(),
{
    if cs.len() == 0 {
        Seq::empty()
    } else {
        let prefix = distinct_group_configs(cs.drop_last());
        if has_group(prefix, cs.last()) {
            prefix
        } else {
            prefix.push(cs.last())
        }
    }
}

/// The test cases of all declarations whose configuration shares `c`'s
/// grouping key, in declaration order.
pub open spec fn bucket(decls: Seq<(TrialConfigV, TrialV)>, c: TrialConfigV) -> Seq<TrialV> {
    decls.filter(|d: (TrialConfigV, TrialV)| trial_group_eq(d.0, c)).map_values(
        |d: (TrialConfigV, TrialV)| d.1,
    )
}

/// Reports whether `configs` holds a configuration sharing `c`'s grouping
/// key.
fn holds_group(configs: &Vec<TrialConfig>, c: &TrialConfig) -> (r: bool)
    ensures
        r == has_group(configs@.map_values(|x: TrialConfig| x@), c@),
{
    let ghost cvs = configs@.map_values(|x: TrialConfig| x@);
    let mut j: usize = 0;
    let mut found = false;
    while j < configs.len()
        invariant
            j <= configs.len(),
            cvs == configs@.map_values(|x: TrialConfig| x@),
            found == exists|k: int| 0 <= k < j && trial_group_eq(#[trigger] cvs[k], c@),
        decreases configs.len() - j,
    {
        if trial_groups_with(&configs[j], c) {
            found = true;
            proof {
                assert(cvs[j as int] == configs@[j as int]@);
            }
        }
        j += 1;
    }
    proof {
        if found {
            let k = choose|k: int| 0 <= k < j && trial_group_eq(#[trigger] cvs[k], c@);
            assert(has_group(cvs, c@));
        }
        if has_group(cvs, c@) {
            let k = choose|k: int| 0 <= k < cvs.len() && trial_group_eq(#[trigger] cvs[k], c@);
            assert(found);
        }
    }
    found
}

impl Iteration {
    /// The declared test cases of this iteration.
    pub fn trials(&self) -> (r: &Vec<DeclaredTrial>)
        ensures
            r@.map_values(|t: DeclaredTrial| t@) == self@.trials,
    {
        &self.trials
    }

    /// The startup configuration this iteration's test cases share.
    pub fn config(&self) -> (r: &TrialConfig)
        ensures
            r@ == self@.config,
    {
        &self.config
    }

    /// Groups the declared test cases into iterations: one iteration per
    /// distinct grouping key, holding, in declaration order, every test case
    /// whose configuration shares that key. Insertion order is preserved and
    /// the first-declared configuration of a key wins its bucket.
    pub fn group_trials(declared: &Vec<(TrialConfig, DeclaredTrial)>) -> (r: Vec<Iteration>)
        ensures
            r@.map_values(|it: Iteration| it@.config) == distinct_group_configs(
                configs_of(decl_views(declared@)),
            ),
            forall|k: int|
                0 <= k < r@.len() ==> (#[trigger] r@[k])@.trials == bucket(
                    decl_views(declared@),
                    r@[k]@.config,
                ),
    {
        let mut configs: Vec<TrialConfig> = Vec::new();
        let mut i: usize = 0;
        while i < declared.len()
            invariant
                i <= declared.len(),
                configs@.map_values(|x: TrialConfig| x@) == distinct_group_configs(
                    configs_of(decl_views(declared@.take(i as int))),
                ),
            decreases declared.len() - i,
        {
            let ghost pre = configs@.map_values(|x: TrialConfig| x@);
            if !holds_group(&configs, &declared[i].0) {
                configs.push(declared[i].0.clone());
                proof {
                    assert(configs@.map_values(|x: TrialConfig| x@) =~= pre.push(
                        declared@[i as int].0@,
                    ));
                }
            }
            proof {
                let dv1 = configs_of(decl_views(declared@.take(i + 1)));
                assert(dv1.drop_last() =~= configs_of(decl_views(declared@.take(i as int))));
                assert(dv1.last() == declared@[i as int].0@);
                assert(configs@.map_values(|x: TrialConfig| x@) =~= distinct_group_configs(dv1));
            }
            i += 1;
        }
        proof {
            assert(declared@.take(declared@.len() as int) =~= declared@);
        }
        let mut r: Vec<Iteration> = Vec::new();
        let mut k: usize = 0;
        while k < configs.len()
            invariant
                k <= configs.len(),
                r@.len() == k,
                configs@.map_values(|x: TrialConfig| x@) == distinct_group_configs(
                    configs_of(decl_views(declared@)),
                ),
                forall|m: int| 0 <= m < k ==> (#[trigger] r@[m])@.config == configs@[m]@,
                forall|m: int|
                    0 <= m < k ==> (#[trigger] r@[m])@.trials == bucket(
                        decl_views(declared@),
                        configs@[m]@,
                    ),
            decreases configs.len() - k,
        {
            let mut trials: Vec<DeclaredTrial> = Vec::new();
            let mut i: usize = 0;
            while i < declared.len()
                invariant
                    i <= declared.len(),
                    k < configs.len(),
                    trials@.map_values(|t: DeclaredTrial| t@) == bucket(
                        decl_views(declared@.take(i as int)),
                        configs@[k as int]@,
                    ),
                decreases declared.len() - i,
            {
                let ghost pre = trials@.map_values(|t: DeclaredTrial| t@);
                let ghost c = configs@[k as int]@;
                let ghost dvi = decl_views(declared@.take(i as int));
                let ghost pred = |d: (TrialConfigV, TrialV)| trial_group_eq(d.0, c);
                if trial_groups_with(&declared[i].0, &configs[k]) {
                    trials.push(declared[i].1.clone());
                    proof {
                        assert(trials@.map_values(|t: DeclaredTrial| t@) =~= pre.push(
                            declared@[i as int].1@,
                        ));
                    }
                }
                proof {
                    reveal(Seq::filter);
                    let dv1 = decl_views(declared@.take(i + 1));
                    assert(dv1.drop_last() =~= dvi);
                    assert(dv1.last() == (declared@[i as int].0@, declared@[i as int].1@));
                    assert(dv1.filter(pred) == if pred(dv1.last()) {
                        dvi.filter(pred).push(dv1.last())
                    } else {
                        dvi.filter(pred)
                    });
                    if pred(dv1.last()) {
                        assert(bucket(dv1, c) =~= bucket(dvi, c).push(declared@[i as int].1@));
                    } else {
                        assert(bucket(dv1, c) =~= bucket(dvi, c));
                    }
                    assert(trials@.map_values(|t: DeclaredTrial| t@) == bucket(dv1, c));
                }
                i += 1;
            }
            proof {
                assert(declared@.take(declared@.len() as int) =~= declared@);
            }
            let it = Iteration { config: configs[k].clone(), trials };
            r.push(it);
            k += 1;
        }
        proof {
            assert(r@.map_values(|it: Iteration| it@.config) =~= configs@.map_values(
                |x: TrialConfig| x@,
            ));
        }
        r
    }
}

/// Every declared configuration has a representative among the opened
/// iterations' configurations.
pub proof fn lemma_distinct_complete(cs: Seq<TrialConfigV>, k: int)
    requires
        0 <= k < cs.len(),
    ensures
        has_group(distinct_group_configs(cs), cs[k]),
    decreases cs.len(),
{
    let prefix = distinct_group_configs(cs.drop_last());
    if k == cs.len() - 1 {
        if has_group(prefix, cs.last()) {
            let m = choose|m: int|
                0 <= m < prefix.len() && trial_group_eq(#[trigger] prefix[m], cs.last());
            assert(distinct_group_configs(cs)[m] == prefix[m]);
            assert(has_group(distinct_group_configs(cs), cs[k]));
        } else {
            let d = distinct_group_configs(cs);
            assert(d.last() == cs.last());
            assert(trial_group_eq(d[d.len() - 1], cs[k]));
        }
    } else {
        lemma_distinct_complete(cs.drop_last(), k);
        let m = choose|m: int|
            0 <= m < prefix.len() && trial_group_eq(#[trigger] prefix[m], cs.drop_last()[k]);
        assert(cs.drop_last()[k] == cs[k]);
        assert(distinct_group_configs(cs)[m] == prefix[m]);
        assert(has_group(distinct_group_configs(cs), cs[k]));
    }
}

/// No two opened iterations share a grouping key.
pub proof fn lemma_distinct_pairwise(cs: Seq<TrialConfigV>, a: int, b: int)
    requires
        0 <= a < distinct_group_configs(cs).len(),
        0 <= b < distinct_group_configs(cs).len(),
        a != b,
    ensures
        !trial_group_eq(distinct_group_configs(cs)[a], distinct_group_configs(cs)[b]),
    decreases cs.len(),
{
    let d = distinct_group_configs(cs);
    let prefix = distinct_group_configs(cs.drop_last());
    if cs.len() == 0 {
    } else if has_group(prefix, cs.last()) {
        lemma_distinct_pairwise(cs.drop_last(), a, b);
    } else {
        if a < prefix.len() && b < prefix.len() {
            lemma_distinct_pairwise(cs.drop_last(), a, b);
        } else if a == prefix.len() {
            assert(d[a] == cs.last());
            assert(d[b] == prefix[b]);
            if trial_group_eq(d[a], d[b]) {
                assert(trial_group_eq(prefix[b], cs.last()));
                assert(has_group(prefix, cs.last()));
            }
        } else {
            assert(b == prefix.len());
            assert(d[b] == cs.last());
            assert(d[a] == prefix[a]);
            if trial_group_eq(d[a], d[b]) {
                assert(trial_group_eq(prefix[a], cs.last()));
                assert(has_group(prefix, cs.last()));
            }
        }
    }
}

/// Two declared test cases land in the same iteration exactly when their
/// configurations share a grouping key: given the iterations `ki` and `kj`
/// whose configurations match declarations `i` and `j`, the keys match
/// exactly when `ki` and `kj` are the same iteration.
pub proof fn lemma_same_key_same_iteration(
    decls: Seq<(TrialConfigV, TrialV)>,
    i: int,
    j: int,
    ki: int,
    kj: int,
)
    requires
        0 <= i < decls.len(),
        0 <= j < decls.len(),
        0 <= ki < distinct_group_configs(configs_of(decls)).len(),
        0 <= kj < distinct_group_configs(configs_of(decls)).len(),
        trial_group_eq(distinct_group_configs(configs_of(decls))[ki], decls[i].0),
        trial_group_eq(distinct_group_configs(configs_of(decls))[kj], decls[j].0),
    ensures
        trial_group_eq(decls[i].0, decls[j].0) <==> ki == kj,
{
    let d = distinct_group_configs(configs_of(decls));
    if trial_group_eq(decls[i].0, decls[j].0) {
        assert(trial_group_eq(d[ki], d[kj]));
        if ki != kj {
            lemma_distinct_pairwise(configs_of(decls), ki, kj);
        }
    }
    if ki == kj {
        assert(trial_group_eq(decls[i].0, decls[j].0));
    }
}

/// The test case of declaration `i` appears in the bucket of every
/// configuration sharing its grouping key.
pub proof fn lemma_trial_in_bucket(decls: Seq<(TrialConfigV, TrialV)>, i: int, c: TrialConfigV)
    requires
        0 <= i < decls.len(),
        trial_group_eq(decls[i].0, c),
    ensures
        bucket(decls, c).contains(decls[i].1),
{
    let pred = |d: (TrialConfigV, TrialV)| trial_group_eq(d.0, c);
    decls.lemma_filter_contains(pred, i);
    let filtered = decls.filter(pred);
    let m = choose|m: int| 0 <= m < filtered.len() && filtered[m] == decls[i];
    assert(bucket(decls, c)[m] == decls[i].1);
    assert(bucket(decls, c).contains(decls[i].1));
}

} // verus!
