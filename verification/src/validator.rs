//! The validator process controller's command assembly.
//!
//! A validator run is driven entirely through shell commands: one command
//! starts the process with its serialized startup options and the ledger
//! directory appended last, one activates a feature through the cluster
//! tooling, and one tears the ledger directory down. Assembling those
//! command strings is pure and lives here; spawning them is process work and
//! stays with the caller.

use vstd::prelude::*;

use crate::options::{option_views, spec_args_of, BoomerangTestValidatorStartOptions, StartOptionV};

verus! {

/// The number of times a failed teardown deletion is retried before the
/// failure is treated as fatal.
pub const TEARDOWN_NUM_RETRIES: u8 = 3;

/// The lifecycle of a validator process under the controller.
#[derive(Clone, Copy, PartialEq, Eq, Structural, Debug)]
pub enum ValidatorState {
    /// No process is live and the ledger directory is released.
    Idle,
    /// The start command was issued; the process is settling.
    Starting,
    /// The process accepts traffic; a chunk may run.
    Ready,
    /// The teardown command was issued; the ledger directory is being
    /// released.
    TearingDown,
}

/// What the controller observes of its process.
#[derive(Clone, Copy, PartialEq, Eq, Structural, Debug)]
pub enum ValidatorEvent {
    /// The start command was issued.
    StartIssued,
    /// The settle interval elapsed.
    BecameReady,
    /// The teardown command was issued.
    TeardownIssued,
    /// The ledger directory was fully released.
    TeardownFinished,
}

/// The controller's lifecycle transitions: idle processes start, settling
/// processes become ready, ready (or, defensively, idle) processes are torn
/// down, and a finished teardown releases the controller back to idle. Any
/// other event is refused, so a chunk can never run against a half-started
/// or half-released backend.
pub fn validator_lifecycle_next(state: ValidatorState, event: ValidatorEvent) -> (r: Option<
    ValidatorState,
>)
    ensures
        r == match (state, event) {
            (ValidatorState::Idle, ValidatorEvent::StartIssued) => Some(ValidatorState::Starting),
            (ValidatorState::Starting, ValidatorEvent::BecameReady) => Some(ValidatorState::Ready),
            (ValidatorState::Ready, ValidatorEvent::TeardownIssued) => Some(
                ValidatorState::TearingDown,
            ),
            (ValidatorState::Idle, ValidatorEvent::TeardownIssued) => Some(
                ValidatorState::TearingDown,
            ),
            (ValidatorState::TearingDown, ValidatorEvent::TeardownFinished) => Some(
                ValidatorState::Idle,
            ),
            _ => None::<ValidatorState>,
        },
{
    match (state, event) {
        (ValidatorState::Idle, ValidatorEvent::StartIssued) => Some(ValidatorState::Starting),
        (ValidatorState::Starting, ValidatorEvent::BecameReady) => Some(ValidatorState::Ready),
        (ValidatorState::Ready, ValidatorEvent::TeardownIssued) => Some(
            ValidatorState::TearingDown,
        ),
        (ValidatorState::Idle, ValidatorEvent::TeardownIssued) => Some(
            ValidatorState::TearingDown,
        ),
        (ValidatorState::TearingDown, ValidatorEvent::TeardownFinished) => Some(
            ValidatorState::Idle,
        ),
        _ => None,
    }
}

/// A validator process under this controller's care: where its ledger
/// lives, how the cluster tooling and the validator binary are invoked, and
/// the fully assembled startup option string.
pub struct BoomerangTestValidator {
    ledger_path: String,
    solana_cli_alias: String,
    solana_test_validator_alias: String,
    test_validator_start_options: String,
}

/// The mathematical value of a [`BoomerangTestValidator`].
#[verifier::ext_equal]
pub ghost struct ValidatorV {
    pub ledger_path: Seq<char>,
    pub solana_cli_alias: Seq<char>,
    pub solana_test_validator_alias: Seq<char>,
    pub test_validator_start_options: Seq<char>,
}

impl View for BoomerangTestValidator {
    type V = ValidatorV;

    closed spec fn view(&self) -> ValidatorV {
        ValidatorV {
            ledger_path: self.ledger_path@,
            solana_cli_alias: self.solana_cli_alias@,
            solana_test_validator_alias: self.solana_test_validator_alias@,
            test_validator_start_options: self.test_validator_start_options@,
        }
    }
}

/// The concatenation of the serialized option groups, each preceded by one
/// space.
pub open spec fn spec_option_groups(groups: Seq<Seq<StartOptionV>>) -> Seq<char>
    decreases groups.len(),
{
    if groups.len() == 0 {
        Seq::empty()
    } else {
        spec_option_groups(groups.drop_last()) + " "@ + spec_args_of(groups.last())
    }
}

/// The views of a list of option groups.
pub open spec fn group_views(groups: Seq<Vec<BoomerangTestValidatorStartOptions>>) -> Seq<
    Seq<StartOptionV>,
> {
    groups.map_values(|g: Vec<BoomerangTestValidatorStartOptions>| option_views(g@))
}

impl BoomerangTestValidator {
    /// Assembles a controller: the startup option string is every group's
    /// serialization in order, each preceded by one space, with the ledger
    /// directory flag appended last.
    pub fn new(
        ledger_path: String,
        solana_cli_alias: String,
        solana_test_validator_alias: String,
        start_options: &Vec<Vec<BoomerangTestValidatorStartOptions>>,
    ) -> (r: Self)
        ensures
            r@.ledger_path == ledger_path@,
            r@.solana_cli_alias == solana_cli_alias@,
            r@.solana_test_validator_alias == solana_test_validator_alias@,
            r@.test_validator_start_options == spec_option_groups(group_views(start_options@))
                + " --ledger "@ + ledger_path@,
    {
        let mut opts = String::new();
        let mut i: usize = 0;
        while i < start_options.len()
            invariant
                i <= start_options.len(),
                opts@ == spec_option_groups(group_views(start_options@.take(i as int))),
            decreases start_options.len() - i,
        {
            opts.append(" ");
            let args = BoomerangTestValidatorStartOptions::args_to_string(&start_options[i]);
            opts.append(args.as_str());
            proof {
                assert(group_views(start_options@.take(i + 1)).drop_last() =~= group_views(
                    start_options@.take(i as int),
                ));
                assert(group_views(start_options@.take(i + 1)).last() == option_views(
                    start_options@[i as int]@,
                ));
            }
            i += 1;
        }
        proof {
            assert(start_options@.take(start_options@.len() as int) =~= start_options@);
        }
        opts.append(" --ledger ");
        opts.append(ledger_path.as_str());
        BoomerangTestValidator {
            ledger_path,
            solana_cli_alias,
            solana_test_validator_alias,
            test_validator_start_options: opts,
        }
    }

    /// The ledger directory this controller owns.
    pub fn ledger_path(&self) -> (r: &String)
        ensures
            r@ == self@.ledger_path,
    {
        &self.ledger_path
    }

    /// The command that activates a feature at the running validator through
    /// the cluster tooling.
    pub fn solana_feature_activate_command(&self, feature_keypair_path: &str) -> (r: String)
        ensures
            r@ == self@.solana_cli_alias + " feature activate "@ + feature_keypair_path@
                + " development"@,
    {
        let mut s = self.solana_cli_alias.clone();
        s.append(" feature activate ");
        s.append(feature_keypair_path);
        s.append(" development");
        s
    }

    /// The command that starts the validator process with the assembled
    /// startup options.
    pub fn solana_test_validator_start_command(&self) -> (r: String)
        ensures
            r@ == self@.solana_test_validator_alias + " "@ + self@.test_validator_start_options,
    {
        let mut s = self.solana_test_validator_alias.clone();
        s.append(" ");
        s.append(self.test_validator_start_options.as_str());
        s
    }

    /// The command that deletes the ledger directory, releasing it for the
    /// next chunk.
    pub fn solana_test_validator_teardown_command(&self) -> (r: String)
        ensures
            r@ == "rm -rf "@ + self@.ledger_path,
    {
        let mut s = "rm -rf ".to_owned();
        s.append(self.ledger_path.as_str());
        s
    }
}

} // verus!
