//! Migration tests: a custom program is validated as a drop-in replacement
//! for a native implementation. Each chunk boots a validator with the
//! native implementation's feature disabled and the program under test at
//! the native address, activates the feature at the running validator, and
//! polls until the activation is observed before the trials run.
//!
//! The checkout, build, keypair persistence and polling transport are the
//! caller's process work; the configuration surgery and the command and
//! polling decisions live here and in the validator and client modules.

use vstd::prelude::*;

use crate::address::Address;
use crate::config::{BoomerangTestClientConfig, ConfigV};
use crate::program::{BoomerangProgramTestIteration, BoomerangTest, TestCase};

verus! {

/// The epoch length migration chunks boot with, short enough that epoch
/// polling ends quickly.
pub const SLOTS_PER_EPOCH: u64 = 120;

/// The migration test runner: per migration, the iteration of the program
/// under test and the native target it replaces.
pub struct BoomerangMigrationTest {
    migrations: Vec<(BoomerangProgramTestIteration, String)>,
    solana_cli_alias: String,
    solana_test_validator_alias: String,
}

impl BoomerangMigrationTest {
    /// The migrations this runner will execute.
    pub closed spec fn spec_migrations(&self) -> Seq<(BoomerangProgramTestIteration, String)> {
        self.migrations@
    }

    /// How the cluster tooling is invoked.
    pub closed spec fn spec_solana_cli_alias(&self) -> Seq<char> {
        self.solana_cli_alias@
    }

    /// How the validator binary is invoked.
    pub closed spec fn spec_solana_test_validator_alias(&self) -> Seq<char> {
        self.solana_test_validator_alias@
    }

    /// Builds the migration runner: one out-of-process iteration per
    /// declared `(program_file, program_id, target_program)` triple, with
    /// the cluster tooling taken from the local checkout under the
    /// workspace root.
    pub fn new<F: Fn(&TestCase, &BoomerangTestClientConfig, bool) -> libtest_mimic::Trial>(
        migrations: &Vec<(String, String, String)>,
        tests: &Vec<BoomerangTest>,
        make_trial: &F,
        workspace_root: &str,
    ) -> (r: Self)
        requires
            forall|t: &TestCase, c: &BoomerangTestClientConfig, b: bool|
                #[trigger] call_requires(*make_trial, (t, c, b)),
        ensures
            r.spec_migrations().len() == migrations@.len(),
            forall|k: int|
                0 <= k < migrations@.len() ==> (#[trigger] r.spec_migrations()[k]).0
                    .spec_program_file() == migrations@[k].0@,
            forall|k: int|
                0 <= k < migrations@.len() ==> (#[trigger] r.spec_migrations()[k]).1@
                    == migrations@[k].2@,
            r.spec_solana_cli_alias() == crate::dirs::spec_solana_cli_path(workspace_root@),
            r.spec_solana_test_validator_alias() == crate::dirs::spec_solana_test_validator_path(
                workspace_root@,
            ),
    {
        let mut built: Vec<(BoomerangProgramTestIteration, String)> = Vec::new();
        let mut i: usize = 0;
        while i < migrations.len()
            invariant
                i <= migrations.len(),
                built@.len() == i,
                forall|t: &TestCase, c: &BoomerangTestClientConfig, b: bool|
                    #[trigger] call_requires(*make_trial, (t, c, b)),
                forall|k: int|
                    0 <= k < i ==> (#[trigger] built@[k]).0.spec_program_file()
                        == migrations@[k].0@,
                forall|k: int| 0 <= k < i ==> (#[trigger] built@[k]).1@ == migrations@[k].2@,
            decreases migrations.len() - i,
        {
            let program = (migrations[i].0.clone(), migrations[i].1.clone());
            let iteration = BoomerangProgramTestIteration::new(&program, tests, false, make_trial);
            built.push((iteration, migrations[i].2.clone()));
            i += 1;
        }
        BoomerangMigrationTest {
            migrations: built,
            solana_cli_alias: crate::dirs::solana_cli_path_string(workspace_root),
            solana_test_validator_alias: crate::dirs::solana_test_validator_path_string(
                workspace_root,
            ),
        }
    }

    /// Hands the migrations out for the serial run.
    pub fn migrations(self) -> (r: Vec<(BoomerangProgramTestIteration, String)>)
        ensures
            r@ == self.spec_migrations(),
    {
        self.migrations
    }
}

/// The configuration a migration chunk boots with: the ad-hoc feature id
/// appended to the disabled features, so the validator starts with the
/// native implementation disabled, and the short migration epoch length.
/// Every other field is the chunk's own.
pub fn prepare_migration_config(
    config: &BoomerangTestClientConfig,
    feature_id: &Address,
) -> (r: BoomerangTestClientConfig)
    ensures
        r@ =~= (ConfigV {
            features_disabled: config@.features_disabled.push(feature_id@),
            slots_per_epoch: SLOTS_PER_EPOCH,
            ..config@
        }),
{
    let mut r = config.clone();
    r.features_disabled.push(feature_id.clone());
    r.slots_per_epoch = SLOTS_PER_EPOCH;
    proof {
        assert(r.features_disabled@.map_values(|a: Address| a@) =~= config@.features_disabled.push(
            feature_id@,
        ));
    }
    r
}

} // verus!
