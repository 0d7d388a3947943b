//! Serialization of startup options, validator commands, paths and
//! progress messages.

use boomerang::address::Address;
use boomerang::config::BoomerangTestClientConfig;
use boomerang::decimal::u64_to_decimal;
use boomerang::dirs;
use boomerang::options::{AddressOrKeypair, BoomerangTestValidatorStartOptions, UrlOrMoniker};
use boomerang::output;
use boomerang::validator::BoomerangTestValidator;
use boomerang::validator_options::IntoTestValidatorStartOptions;

fn addr(s: &str) -> Address {
    Address::from_str(s)
}

#[test]
fn decimal_rendering() {
    assert_eq!(u64_to_decimal(0), "0");
    assert_eq!(u64_to_decimal(7), "7");
    assert_eq!(u64_to_decimal(123), "123");
    assert_eq!(u64_to_decimal(300), "300");
    assert_eq!(u64_to_decimal(u64::MAX), "18446744073709551615");
}

#[test]
fn option_fragments() {
    let opt = BoomerangTestValidatorStartOptions::Account {
        address: addr("addr-1"),
        dump_path: "dump.json".to_string(),
    };
    assert_eq!(opt.to_string_arg(), "--account addr-1 dump.json");

    let opt = BoomerangTestValidatorStartOptions::AccountDir {
        directory: "accounts".to_string(),
    };
    assert_eq!(opt.to_string_arg(), "--account-dir accounts");

    let opt = BoomerangTestValidatorStartOptions::BpfProgram {
        address_or_keypair: AddressOrKeypair::Keypair("key.json".to_string()),
        so_file_path: "program.so".to_string(),
    };
    assert_eq!(opt.to_string_arg(), "--bpf-program key.json program.so");

    let opt = BoomerangTestValidatorStartOptions::CloneAccount { address: addr("addr-2") };
    assert_eq!(opt.to_string_arg(), "--clone addr-2");

    let opt = BoomerangTestValidatorStartOptions::CloneUpgradeableProgram {
        address: addr("addr-3"),
    };
    assert_eq!(opt.to_string_arg(), "--clone-upgradeable-program addr-3");

    let opt = BoomerangTestValidatorStartOptions::ConfigFile { path: "cfg.yml".to_string() };
    assert_eq!(opt.to_string_arg(), "--config cfg.yml");

    let opt = BoomerangTestValidatorStartOptions::DeactivateFeature {
        feature_pubkey: addr("feat-1"),
    };
    assert_eq!(opt.to_string_arg(), "--deactivate-feature feat-1");

    let opt = BoomerangTestValidatorStartOptions::Ledger { dir: "test-ledger".to_string() };
    assert_eq!(opt.to_string_arg(), "--ledger test-ledger");

    let opt = BoomerangTestValidatorStartOptions::MaybeClone { address: addr("addr-4") };
    assert_eq!(opt.to_string_arg(), "--maybe-clone addr-4");

    let opt = BoomerangTestValidatorStartOptions::Mint { address: addr("addr-5") };
    assert_eq!(opt.to_string_arg(), "--mint addr-5");

    let opt = BoomerangTestValidatorStartOptions::SlotsPerEpoch { slots: 300 };
    assert_eq!(opt.to_string_arg(), "--slots-per-epoch 300");

    let opt = BoomerangTestValidatorStartOptions::UpgradeableProgram {
        address_or_keypair: AddressOrKeypair::Address(addr("prog-1")),
        so_file_path: "program.so".to_string(),
        upgrade_authority: AddressOrKeypair::Address(addr("auth-1")),
    };
    assert_eq!(opt.to_string_arg(), "--upgradeable-program prog-1 program.so auth-1");

    let opt = BoomerangTestValidatorStartOptions::Url {
        url_or_moniker: UrlOrMoniker::Url("http://127.0.0.1:8899".to_string()),
    };
    assert_eq!(opt.to_string_arg(), "--url http://127.0.0.1:8899");
    let opt = BoomerangTestValidatorStartOptions::Url {
        url_or_moniker: UrlOrMoniker::Localnet,
    };
    assert_eq!(opt.to_string_arg(), "--ul");
    let opt = BoomerangTestValidatorStartOptions::Url { url_or_moniker: UrlOrMoniker::Devnet };
    assert_eq!(opt.to_string_arg(), "-ud");
    let opt = BoomerangTestValidatorStartOptions::Url { url_or_moniker: UrlOrMoniker::Testnet };
    assert_eq!(opt.to_string_arg(), "-ut");
    let opt = BoomerangTestValidatorStartOptions::Url {
        url_or_moniker: UrlOrMoniker::MainnetBeta,
    };
    assert_eq!(opt.to_string_arg(), "-um");

    let opt = BoomerangTestValidatorStartOptions::WarpSlot { warp_slot: 123 };
    assert_eq!(opt.to_string_arg(), "--warp-slot 123");
}

#[test]
fn args_join_in_insertion_order() {
    let args = vec![
        BoomerangTestValidatorStartOptions::WarpSlot { warp_slot: 123 },
        BoomerangTestValidatorStartOptions::Mint { address: addr("mint-1") },
    ];
    assert_eq!(
        BoomerangTestValidatorStartOptions::args_to_string(&args),
        "--warp-slot 123 --mint mint-1"
    );
    assert_eq!(BoomerangTestValidatorStartOptions::args_to_string(&vec![]), "");
}

#[test]
fn config_start_options_serialize_program_features_and_warp() {
    let mut config = BoomerangTestClientConfig::default();
    config.program_file = "my_program".to_string();
    config.program_id = addr("prog-1");
    config.features_disabled = vec![addr("feat-1"), addr("feat-2")];
    config.warp_slot = 123;
    let options = config.to_test_validator_start_options("/ws");
    let rendered = BoomerangTestValidatorStartOptions::args_to_string(&options);
    assert_eq!(
        rendered,
        "--upgradeable-program prog-1 /ws/target/deploy/my_program.so prog-1 \
         --deactivate-feature feat-1 --deactivate-feature feat-2 --warp-slot 123"
    );
}

#[test]
fn config_start_options_omit_zero_warp() {
    let mut config = BoomerangTestClientConfig::default();
    config.program_file = "my_program".to_string();
    config.program_id = addr("prog-1");
    let options = config.to_test_validator_start_options("/ws");
    assert_eq!(options.len(), 1);
}

#[test]
fn validator_commands() {
    let options = vec![vec![BoomerangTestValidatorStartOptions::WarpSlot { warp_slot: 5 }]];
    let validator = BoomerangTestValidator::new(
        "/ws/test-ledger".to_string(),
        "solana".to_string(),
        "solana-test-validator".to_string(),
        &options,
    );
    assert_eq!(
        validator.solana_test_validator_start_command(),
        "solana-test-validator  --warp-slot 5 --ledger /ws/test-ledger"
    );
    assert_eq!(validator.solana_test_validator_teardown_command(), "rm -rf /ws/test-ledger");
    assert_eq!(
        validator.solana_feature_activate_command("/ws/tmp/feature-keypair.json"),
        "solana feature activate /ws/tmp/feature-keypair.json development"
    );
}

#[test]
fn workspace_paths() {
    assert_eq!(dirs::program_so_path("/ws", "prog"), "/ws/target/deploy/prog.so");
    assert_eq!(dirs::solana_install_path("/ws"), "/ws/.solana");
    assert_eq!(dirs::solana_cli_path("/ws"), "/ws/.solana/target/debug/solana");
    assert_eq!(dirs::solana_cli_path_string("/ws"), "/ws/.solana/target/debug/solana");
    assert_eq!(
        dirs::solana_test_validator_path("/ws"),
        "/ws/.solana/target/debug/solana-test-validator"
    );
    assert_eq!(
        dirs::solana_test_validator_path_string("/ws"),
        "/ws/.solana/target/debug/solana-test-validator"
    );
    assert_eq!(dirs::temporary_directory_path("/ws"), "/ws/tmp");
    assert_eq!(dirs::test_ledger_path("/ws"), "/ws/test-ledger");
}

#[test]
fn progress_messages() {
    assert_eq!(output::no_tests_to_run(), "No tests to run");
    assert_eq!(output::starting_program_tests("alpha"), "Starting program tests for alpha");
    assert_eq!(
        output::starting_integration_tests("alpha"),
        "Starting integration tests for alpha"
    );
    assert_eq!(
        output::starting_migration_tests("alpha", "native"),
        "Starting migration tests for alpha against native"
    );
    assert_eq!(output::chunk(3, 10), "Round 3 of 10");
}
