//! Startup configuration for a test backend, and the grouping equality over
//! it.
//!
//! Two configurations direct a backend identically exactly when their
//! disabled-feature sets and their warp slots match: every other field is
//! stamped per program by the builder, or only tells the client where to
//! reach the backend. The grouping equality [`group_eq`] therefore compares
//! the disabled features as an unordered set together with the warp slot,
//! and nothing else.

use vstd::prelude::*;

use crate::address::{contains_address, holds_address, lemma_views_contains, Address};

verus! {

/// The commitment level an RPC client requires of the cluster before it
/// treats a transaction or account state as settled.
#[derive(Clone, Copy, PartialEq, Eq, Structural, Debug)]
pub enum Commitment {
    Processed,
    Confirmed,
    Finalized,
}

/// A client configuration file, as the validator's command-line tooling
/// expects to find it on disk.
pub struct ConfigFile {
    pub json_rpc_url: String,
    pub websocket_url: String,
    pub keypair_path: String,
    pub commitment: Commitment,
}

/// The startup configuration shared by every test in one chunk.
pub struct BoomerangTestClientConfig {
    /// Feature flags deactivated in the backend's genesis configuration.
    pub features_disabled: Vec<Address>,
    /// File name of the program binary under test.
    pub program_file: String,
    /// On-chain address the program under test occupies.
    pub program_id: Address,
    /// Commitment level for RPC queries.
    pub rpc_commitment: Commitment,
    /// Endpoint the RPC backend is reached at.
    pub rpc_endpoint: String,
    /// Number of slots in an epoch, for epoch polling.
    pub slots_per_epoch: u64,
    /// Slot injected into the backend's history at startup, so a recent slot
    /// is available without waiting in real time; zero means no warp.
    pub warp_slot: u64,
}

/// The mathematical value of a [`BoomerangTestClientConfig`].
#[verifier::ext_equal]
pub ghost struct ConfigV {
    pub features_disabled: Seq<Seq<char>>,
    pub program_file: Seq<char>,
    pub program_id: Seq<char>,
    pub rpc_commitment: Commitment,
    pub rpc_endpoint: Seq<char>,
    pub slots_per_epoch: u64,
    pub warp_slot: u64,
}

impl View for BoomerangTestClientConfig {
    type V = ConfigV;

    open spec fn view(&self) -> ConfigV {
        ConfigV {
            features_disabled: self.features_disabled@.map_values(|a: Address| a@),
            program_file: self.program_file@,
            program_id: self.program_id@,
            rpc_commitment: self.rpc_commitment,
            rpc_endpoint: self.rpc_endpoint@,
            slots_per_epoch: self.slots_per_epoch,
            warp_slot: self.warp_slot,
        }
    }
}

impl ConfigV {
    /// The disabled features, as an unordered set.
    pub open spec fn feature_set(self) -> Set<Seq<char>> {
        self.features_disabled.to_set()
    }
}

/// Grouping equality over startup knobs: the disabled features compared as
/// an unordered set, together with the warp slot.
pub open spec fn same_group(
    features_a: Seq<Seq<char>>,
    warp_a: u64,
    features_b: Seq<Seq<char>>,
    warp_b: u64,
) -> bool {
    features_a.to_set() =~= features_b.to_set() && warp_a == warp_b
}

/// Grouping equality: two configurations put their tests in the same chunk
/// exactly when their disabled-feature sets and warp slots match.
pub open spec fn group_eq(a: ConfigV, b: ConfigV) -> bool {
    same_group(a.features_disabled, a.warp_slot, b.features_disabled, b.warp_slot)
}

impl Clone for BoomerangTestClientConfig {
    fn clone(&self) -> (r: Self)
        ensures
            r@ =~= self@,
    {
        let mut features: Vec<Address> = Vec::new();
        let mut i: usize = 0;
        while i < self.features_disabled.len()
            invariant
                i <= self.features_disabled.len(),
                features@.len() == i,
                forall|k: int|
                    0 <= k < i ==> (#[trigger] features@[k])@ == self.features_disabled@[k]@,
            decreases self.features_disabled.len() - i,
        {
            features.push(self.features_disabled[i].clone());
            i += 1;
        }
        proof {
            assert(features@.map_values(|a: Address| a@) =~= self.features_disabled@.map_values(
                |a: Address| a@,
            ));
        }
        BoomerangTestClientConfig {
            features_disabled: features,
            program_file: self.program_file.clone(),
            program_id: self.program_id.clone(),
            rpc_commitment: self.rpc_commitment,
            rpc_endpoint: self.rpc_endpoint.clone(),
            slots_per_epoch: self.slots_per_epoch,
            warp_slot: self.warp_slot,
        }
    }
}

impl Default for BoomerangTestClientConfig {
    /// The default configuration: no features disabled, a placeholder
    /// program, the local RPC endpoint, a deliberately small epoch, and no
    /// warp.
    fn default() -> (r: Self)
        ensures
            r@.features_disabled =~= Seq::<Seq<char>>::empty(),
            r@.program_file == "program.so"@,
            r@.program_id == "program"@,
            r@.rpc_commitment == Commitment::Processed,
            r@.rpc_endpoint == "http://127.0.0.1:8899"@,
            r@.slots_per_epoch == 300,
            r@.warp_slot == 0,
    {
        let r = BoomerangTestClientConfig {
            features_disabled: Vec::new(),
            program_file: "program.so".to_owned(),
            program_id: Address::from_str("program"),
            rpc_commitment: Commitment::Processed,
            rpc_endpoint: "http://127.0.0.1:8899".to_owned(),
            slots_per_epoch: 300,
            warp_slot: 0,
        };
        proof {
            assert(r.features_disabled@.map_values(|a: Address| a@) =~= Seq::<Seq<char>>::empty());
        }
        r
    }
}

/// Overwrites the `program_file` and `program_id` fields of the given
/// `config` with the given values, leaving every other field as it was.
pub fn setup_config_for_test(
    config: &mut BoomerangTestClientConfig,
    program_file: &str,
    program_id: &Address,
)
    ensures
        final(config)@ =~= (ConfigV {
            program_file: program_file@,
            program_id: program_id@,
            ..old(config)@
        }),
{
    config.program_file = program_file.to_owned();
    config.program_id = program_id.clone();
}

/// Stamping a program into a configuration never moves its tests to another
/// chunk: the grouping key survives `setup_config_for_test` unchanged.
pub proof fn lemma_setup_preserves_group(before: ConfigV, file: Seq<char>, id: Seq<char>)
    ensures
        group_eq(before, ConfigV { program_file: file, program_id: id, ..before }),
{
}

/// Reports whether two feature lists hold the same set of addresses.
pub fn feature_sets_equal(a: &Vec<Address>, b: &Vec<Address>) -> (r: bool)
    ensures
        r == (a@.map_values(|x: Address| x@).to_set() =~= b@.map_values(|x: Address| x@).to_set()),
{
    let mut i: usize = 0;
    while i < a.len()
        invariant
            i <= a.len(),
            forall|k: int| 0 <= k < i ==> contains_address(b@, (#[trigger] a@[k])@),
        decreases a.len() - i,
    {
        if !holds_address(b, &a[i]) {
            proof {
                let f = a@[i as int]@;
                lemma_feature_set_neq(a@, b@, f);
            }
            return false;
        }
        i += 1;
    }
    let mut j: usize = 0;
    while j < b.len()
        invariant
            j <= b.len(),
            forall|k: int| 0 <= k < a@.len() ==> contains_address(b@, (#[trigger] a@[k])@),
            forall|k: int| 0 <= k < j ==> contains_address(a@, (#[trigger] b@[k])@),
        decreases b.len() - j,
    {
        if !holds_address(a, &b[j]) {
            proof {
                let f = b@[j as int]@;
                lemma_feature_set_neq(b@, a@, f);
            }
            return false;
        }
        j += 1;
    }
    proof {
        lemma_mutual_inclusion(a@, b@);
    }
    true
}

/// Reports whether two configurations share one chunk, comparing the
/// disabled features as an unordered set together with the warp slot.
pub fn groups_with(
    a: &BoomerangTestClientConfig,
    b: &BoomerangTestClientConfig,
) -> (r: bool)
    ensures
        r == group_eq(a@, b@),
{
    if a.warp_slot != b.warp_slot {
        return false;
    }
    feature_sets_equal(&a.features_disabled, &b.features_disabled)
}

/// A feature held by one side but not the other separates the feature sets.
proof fn lemma_feature_set_neq(a: Seq<Address>, b: Seq<Address>, f: Seq<char>)
    requires
        contains_address(a, f),
        !contains_address(b, f),
    ensures
        !(a.map_values(|x: Address| x@).to_set() =~= b.map_values(|x: Address| x@).to_set()),
{
    lemma_views_contains(a, f);
    lemma_views_contains(b, f);
    assert(a.map_values(|x: Address| x@).to_set().contains(f));
    assert(!b.map_values(|x: Address| x@).to_set().contains(f));
}

/// Mutual membership of the feature lists gives set equality of their views.
proof fn lemma_mutual_inclusion(a: Seq<Address>, b: Seq<Address>)
    requires
        forall|k: int| 0 <= k < a.len() ==> contains_address(b, (#[trigger] a[k])@),
        forall|k: int| 0 <= k < b.len() ==> contains_address(a, (#[trigger] b[k])@),
    ensures
        a.map_values(|x: Address| x@).to_set() =~= b.map_values(|x: Address| x@).to_set(),
{
    let va = a.map_values(|x: Address| x@);
    let vb = b.map_values(|x: Address| x@);
    assert forall|f: Seq<char>| va.to_set().contains(f) implies vb.to_set().contains(f) by {
        let k = choose|k: int| 0 <= k < va.len() && va[k] == f;
        assert(a[k]@ == f);
        assert(contains_address(b, f));
        lemma_views_contains(b, f);
    }
    assert forall|f: Seq<char>| vb.to_set().contains(f) implies va.to_set().contains(f) by {
        let k = choose|k: int| 0 <= k < vb.len() && vb[k] == f;
        assert(b[k]@ == f);
        assert(contains_address(a, f));
        lemma_views_contains(a, f);
    }
}

} // verus!
