//! Declaration-layer records for test cases.
//!
//! A declared test case carries the per-case startup knobs (which features
//! to disable, which slot to warp to) next to the test function it names.
//! The iteration builder groups declared cases by those knobs, so that every
//! case sharing one startup configuration runs against one freshly
//! configured backend instance.

use vstd::prelude::*;

use crate::address::Address;
use crate::config::same_group;

verus! {

/// A test-case declaration as the declarative front-end hands it over:
/// the startup knobs in their textual, unresolved form.
pub struct SolanaBoomerangTrial {
    pub deactivate_features: Vec<String>,
    pub warp_slot: u64,
}

impl SolanaBoomerangTrial {
    /// Records a declared test case's startup knobs.
    pub fn new(deactivate_features: Vec<String>, warp_slot: u64) -> (r: Self)
        ensures
            r.deactivate_features == deactivate_features,
            r.warp_slot == warp_slot,
    {
        SolanaBoomerangTrial { deactivate_features, warp_slot }
    }
}

/// A single declared test case: the full path of the test function and the
/// name generated for its runner.
pub struct DeclaredTrial {
    function_full_path: String,
    generated_trial_name: String,
}

/// The mathematical value of a [`DeclaredTrial`].
#[verifier::ext_equal]
pub ghost struct TrialV {
    pub function_full_path: Seq<char>,
    pub generated_trial_name: Seq<char>,
}

impl View for DeclaredTrial {
    type V = TrialV;

    closed spec fn view(&self) -> TrialV {
        TrialV {
            function_full_path: self.function_full_path@,
            generated_trial_name: self.generated_trial_name@,
        }
    }
}

impl DeclaredTrial {
    /// Records a test function under the name generated for its runner.
    pub fn new(function_full_path: String, generated_trial_name: String) -> (r: Self)
        ensures
            r@.function_full_path == function_full_path@,
            r@.generated_trial_name == generated_trial_name@,
    {
        DeclaredTrial { function_full_path, generated_trial_name }
    }

    /// The name generated for this test case's runner.
    pub fn generated_trial_name(&self) -> (r: &String)
        ensures
            r@ == self@.generated_trial_name,
    {
        &self.generated_trial_name
    }

    /// The full path of the test function.
    pub fn function_full_path(&self) -> (r: &String)
        ensures
            r@ == self@.function_full_path,
    {
        &self.function_full_path
    }
}

impl Clone for DeclaredTrial {
    fn clone(&self) -> (r: Self)
        ensures
            r@ == self@,
    {
        DeclaredTrial {
            function_full_path: self.function_full_path.clone(),
            generated_trial_name: self.generated_trial_name.clone(),
        }
    }
}

/// The startup knobs a declared test case asks of its backend, resolved to
/// feature addresses.
pub struct TrialConfig {
    pub features_disabled: Vec<Address>,
    pub warp_slot: u64,
}

/// The mathematical value of a [`TrialConfig`].
#[verifier::ext_equal]
pub ghost struct TrialConfigV {
    pub features_disabled: Seq<Seq<char>>,
    pub warp_slot: u64,
}

impl View for TrialConfig {
    type V = TrialConfigV;

    open spec fn view(&self) -> TrialConfigV {
        TrialConfigV {
            features_disabled: self.features_disabled@.map_values(|a: Address| a@),
            warp_slot: self.warp_slot,
        }
    }
}

/// Grouping equality over declared startup knobs: the disabled features as
/// an unordered set, together with the warp slot.
pub open spec fn trial_group_eq(a: TrialConfigV, b: TrialConfigV) -> bool {
    same_group(a.features_disabled, a.warp_slot, b.features_disabled, b.warp_slot)
}

impl Default for TrialConfig {
    /// The default knobs: nothing disabled, no warp.
    fn default() -> (r: Self)
        ensures
            r@.features_disabled =~= Seq::<Seq<char>>::empty(),
            r@.warp_slot == 0,
    {
        let r = TrialConfig { features_disabled: Vec::new(), warp_slot: 0 };
        proof {
            assert(r.features_disabled@.map_values(|a: Address| a@) =~= Seq::<Seq<char>>::empty());
        }
        r
    }
}

impl Clone for TrialConfig {
    fn clone(&self) -> (r: Self)
        ensures
            r@ =~= self@,
    {
        let mut features: Vec<Address> = Vec::new();
        let mut i: usize = 0;
        while i < self.features_disabled.len()
            invariant
                i <= self.features_disabled.len(),
                features@.len() == i,
                forall|k: int|
                    0 <= k < i ==> (#[trigger] features@[k])@ == self.features_disabled@[k]@,
            decreases self.features_disabled.len() - i,
        {
            features.push(self.features_disabled[i].clone());
            i += 1;
        }
        proof {
            assert(features@.map_values(|a: Address| a@) =~= self.features_disabled@.map_values(
                |a: Address| a@,
            ));
        }
        TrialConfig { features_disabled: features, warp_slot: self.warp_slot }
    }
}

/// Reports whether two declared knob sets share one grouping bucket.
pub fn trial_groups_with(a: &TrialConfig, b: &TrialConfig) -> (r: bool)
    ensures
        r == trial_group_eq(a@, b@),
{
    if a.warp_slot != b.warp_slot {
        return false;
    }
    crate::config::feature_sets_equal(&a.features_disabled, &b.features_disabled)
}

} // verus!
