//! How a startup configuration becomes the validator's startup options: the
//! program under test as an upgradeable program at its address, one
//! deactivate-feature option per disabled feature, and the warp slot when
//! one is set.

use vstd::prelude::*;

use crate::config::{BoomerangTestClientConfig, ConfigV};
use crate::dirs::spec_program_so_path;
use crate::options::{
    option_views,
    AddressOrKeypair,
    AddressOrKeypairV,
    BoomerangTestValidatorStartOptions,
    StartOptionV,
};

verus! {

/// The options a configuration contributes to a validator start.
pub open spec fn spec_config_start_options(c: ConfigV, workspace_root: Seq<char>) -> Seq<
    StartOptionV,
> {
    seq![
        StartOptionV::UpgradeableProgram {
            address_or_keypair: AddressOrKeypairV::Address(c.program_id),
            so_file_path: spec_program_so_path(workspace_root, c.program_file),
            upgrade_authority: AddressOrKeypairV::Address(c.program_id),
        },
    ] + c.features_disabled.map_values(
        |f: Seq<char>| StartOptionV::DeactivateFeature { feature_pubkey: f },
    ) + if c.warp_slot > 0 {
        seq![StartOptionV::WarpSlot { warp_slot: c.warp_slot }]
    } else {
        Seq::empty()
    }
}

/// A value that can configure a validator start.
pub trait IntoTestValidatorStartOptions {
    /// The options this value contributes.
    spec fn spec_start_options(&self, workspace_root: Seq<char>) -> Seq<StartOptionV>;

    /// Serializes this value's startup options; the program binary is
    /// looked up under the given workspace root.
    fn to_test_validator_start_options(&self, workspace_root: &str) -> (r: Vec<
        BoomerangTestValidatorStartOptions,
    >)
        ensures
            option_views(r@) == self.spec_start_options(workspace_root@),
    ;
}

impl IntoTestValidatorStartOptions for BoomerangTestClientConfig {
    open spec fn spec_start_options(&self, workspace_root: Seq<char>) -> Seq<StartOptionV> {
        spec_config_start_options(self@, workspace_root)
    }

    fn to_test_validator_start_options(&self, workspace_root: &str) -> (r: Vec<
        BoomerangTestValidatorStartOptions,
    >)
        ensures
            option_views(r@) == self.spec_start_options(workspace_root@),
    {
        let mut options: Vec<BoomerangTestValidatorStartOptions> = Vec::new();
        options.push(
            BoomerangTestValidatorStartOptions::UpgradeableProgram {
                address_or_keypair: AddressOrKeypair::Address(self.program_id.clone()),
                so_file_path: crate::dirs::program_so_path(
                    workspace_root,
                    self.program_file.as_str(),
                ),
                upgrade_authority: AddressOrKeypair::Address(self.program_id.clone()),
            },
        );
        let ghost head = StartOptionV::UpgradeableProgram {
            address_or_keypair: AddressOrKeypairV::Address(self@.program_id),
            so_file_path: spec_program_so_path(workspace_root@, self@.program_file),
            upgrade_authority: AddressOrKeypairV::Address(self@.program_id),
        };
        let mut i: usize = 0;
        while i < self.features_disabled.len()
            invariant
                i <= self.features_disabled.len(),
                options@.len() == 1 + i,
                options@[0]@ == head,
                forall|k: int|
                    1 <= k < i + 1 ==> (#[trigger] options@[k])@
                        == (StartOptionV::DeactivateFeature {
                        feature_pubkey: self.features_disabled@[k - 1]@,
                    }),
            decreases self.features_disabled.len() - i,
        {
            options.push(
                BoomerangTestValidatorStartOptions::DeactivateFeature {
                    feature_pubkey: self.features_disabled[i].clone(),
                },
            );
            i += 1;
        }
        if self.warp_slot > 0 {
            options.push(
                BoomerangTestValidatorStartOptions::WarpSlot { warp_slot: self.warp_slot },
            );
        }
        proof {
            assert(option_views(options@) =~= spec_config_start_options(self@, workspace_root@));
        }
        options
    }
}

} // verus!
