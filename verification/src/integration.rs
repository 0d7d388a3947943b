//! Integration tests: every chunk runs against a locally spawned validator
//! process reached over RPC, one validator lifecycle at a time.
//!
//! The spawning itself is process work and stays with the caller; this
//! module builds the iterations and, for each chunk, the validator
//! controller whose commands bracket the chunk's run.

use vstd::prelude::*;

use crate::config::{BoomerangTestClientConfig, ConfigV};
use crate::dirs::spec_test_ledger_path;
use crate::program::{
    BoomerangProgramTest,
    BoomerangProgramTestChunk,
    BoomerangProgramTestIteration,
    BoomerangTest,
    TestCase,
};
use crate::validator::{spec_option_groups, BoomerangTestValidator};
use crate::validator_options::{spec_config_start_options, IntoTestValidatorStartOptions};

verus! {

/// The integration test runner: all iterations for the selected programs,
/// each chunk bracketed by a validator start and teardown.
pub struct BoomerangIntegrationTest {
    iterations: Vec<BoomerangProgramTestIteration>,
    solana_cli_alias: String,
    solana_test_validator_alias: String,
}

impl BoomerangIntegrationTest {
    /// The iterations this runner will execute.
    pub closed spec fn spec_iterations(&self) -> Seq<BoomerangProgramTestIteration> {
        self.iterations@
    }

    /// How the cluster tooling is invoked.
    pub closed spec fn spec_solana_cli_alias(&self) -> Seq<char> {
        self.solana_cli_alias@
    }

    /// How the validator binary is invoked.
    pub closed spec fn spec_solana_test_validator_alias(&self) -> Seq<char> {
        self.solana_test_validator_alias@
    }

    /// Builds the integration runner: one iteration per program, every
    /// chunk bound to the out-of-process backend.
    pub fn new<F: Fn(&TestCase, &BoomerangTestClientConfig, bool) -> libtest_mimic::Trial>(
        programs: &Vec<(String, String)>,
        tests: &Vec<BoomerangTest>,
        make_trial: &F,
    ) -> (r: Self)
        requires
            forall|t: &TestCase, c: &BoomerangTestClientConfig, b: bool|
                #[trigger] call_requires(*make_trial, (t, c, b)),
        ensures
            r.spec_iterations().len() == programs@.len(),
            forall|k: int|
                0 <= k < programs@.len() ==> (#[trigger] r.spec_iterations()[k])
                    .spec_program_file() == programs@[k].0@,
            forall|k: int|
                0 <= k < programs@.len() ==> (#[trigger] r.spec_iterations()[k]).spec_chunks()
                    .len() == tests@.len(),
            forall|k: int, j: int|
                0 <= k < programs@.len() && 0 <= j < tests@.len() ==> (
                #[trigger] r.spec_iterations()[k].spec_chunks()[j]).spec_config() == (ConfigV {
                    program_file: programs@[k].0@,
                    program_id: programs@[k].1@,
                    ..tests@[j].config@
                }),
            forall|k: int, j: int|
                0 <= k < programs@.len() && 0 <= j < tests@.len() ==> (
                #[trigger] r.spec_iterations()[k].spec_chunks()[j]).spec_num_trials()
                    == tests@[j].tests@.len(),
            r.spec_solana_cli_alias() == "solana"@,
            r.spec_solana_test_validator_alias() == "solana-test-validator"@,
    {
        BoomerangIntegrationTest {
            iterations: BoomerangProgramTest::build_program_test_iterations(
                programs,
                tests,
                false,
                make_trial,
            ),
            solana_cli_alias: "solana".to_owned(),
            solana_test_validator_alias: "solana-test-validator".to_owned(),
        }
    }

    /// The validator controller that brackets one chunk's run: the chunk's
    /// own startup options over the workspace's test ledger directory.
    pub fn chunk_test_validator(
        &self,
        chunk: &BoomerangProgramTestChunk,
        workspace_root: &str,
    ) -> (v: BoomerangTestValidator)
        ensures
            v@.ledger_path == spec_test_ledger_path(workspace_root@),
            v@.solana_cli_alias == self.spec_solana_cli_alias(),
            v@.solana_test_validator_alias == self.spec_solana_test_validator_alias(),
            v@.test_validator_start_options == spec_option_groups(
                seq![spec_config_start_options(chunk.spec_config(), workspace_root@)],
            ) + " --ledger "@ + spec_test_ledger_path(workspace_root@),
    {
        let options = chunk.config().to_test_validator_start_options(workspace_root);
        let mut groups: Vec<Vec<crate::options::BoomerangTestValidatorStartOptions>> = Vec::new();
        groups.push(options);
        let v = BoomerangTestValidator::new(
            crate::dirs::test_ledger_path(workspace_root),
            self.solana_cli_alias.clone(),
            self.solana_test_validator_alias.clone(),
            &groups,
        );
        proof {
            assert(crate::validator::group_views(groups@) =~= seq![spec_config_start_options(
                chunk.spec_config(),
                workspace_root@,
            )]);
        }
        v
    }

    /// Hands the iterations out for the serial run.
    pub fn iterations(self) -> (r: Vec<BoomerangProgramTestIteration>)
        ensures
            r@ == self.spec_iterations(),
    {
        self.iterations
    }

    /// Takes the iterations out while the runner stays usable for building
    /// each chunk's bracketing controller.
    pub fn take_iterations(&mut self) -> (r: Vec<BoomerangProgramTestIteration>)
        ensures
            r@ == old(self).spec_iterations(),
            final(self).spec_iterations() =~= Seq::<BoomerangProgramTestIteration>::empty(),
            final(self).spec_solana_cli_alias() == old(self).spec_solana_cli_alias(),
            final(self).spec_solana_test_validator_alias() == old(
                self,
            ).spec_solana_test_validator_alias(),
    {
        let mut taken: Vec<BoomerangProgramTestIteration> = Vec::new();
        std::mem::swap(&mut taken, &mut self.iterations);
        taken
    }
}

impl Default for BoomerangIntegrationTest {
    /// An empty integration runner with the default tool invocations.
    fn default() -> (r: Self)
        ensures
            r.spec_iterations() =~= Seq::<BoomerangProgramTestIteration>::empty(),
            r.spec_solana_cli_alias() == "solana"@,
            r.spec_solana_test_validator_alias() == "solana-test-validator"@,
    {
        BoomerangIntegrationTest {
            iterations: Vec::new(),
            solana_cli_alias: "solana".to_owned(),
            solana_test_validator_alias: "solana-test-validator".to_owned(),
        }
    }
}

} // verus!
