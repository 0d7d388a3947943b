//! The chunk and iteration builders, the runner plumbing, and the
//! entrypoint's run planning.

use boomerang::address::Address;
use boomerang::config::BoomerangTestClientConfig;
use boomerang::entrypoint::{
    entrypoint,
    select_migration_tests,
    Entrypoint,
    SolanaBoomerangEntrypoint,
};
use boomerang::integration::BoomerangIntegrationTest;
use boomerang::migration::{prepare_migration_config, BoomerangMigrationTest, SLOTS_PER_EPOCH};
use boomerang::program::{
    any_failed,
    BoomerangProgramTest,
    BoomerangProgramTestChunk,
    BoomerangProgramTestIteration,
    BoomerangTest,
    TestCase,
};

fn addr(s: &str) -> Address {
    Address::from_str(s)
}

fn make_trial(
    case: &TestCase,
    _config: &BoomerangTestClientConfig,
    _use_banks: bool,
) -> libtest_mimic::Trial {
    libtest_mimic::Trial::test(case.name.clone(), || Ok(()))
}

fn table() -> Vec<BoomerangTest> {
    let mut row_one = BoomerangTestClientConfig::default();
    row_one.warp_slot = 123;
    let row_two = BoomerangTestClientConfig::default();
    vec![
        BoomerangTest {
            config: row_one,
            tests: vec![
                TestCase { name: "first_case".to_string() },
                TestCase { name: "second_case".to_string() },
            ],
        },
        BoomerangTest {
            config: row_two,
            tests: vec![TestCase { name: "third_case".to_string() }],
        },
    ]
}

fn programs() -> Vec<(String, String)> {
    vec![
        ("alpha".to_string(), "addr-alpha".to_string()),
        ("beta".to_string(), "addr-beta".to_string()),
    ]
}

#[test]
fn chunk_stamps_the_program_into_the_config() {
    let tests = table();
    let chunk = BoomerangProgramTestChunk::new(
        "alpha",
        &addr("addr-alpha"),
        &tests[0],
        true,
        &make_trial,
    );
    let config = chunk.config();
    assert_eq!(config.program_file, "alpha");
    assert_eq!(config.program_id, addr("addr-alpha"));
    // Caller-declared fields are preserved.
    assert_eq!(config.warp_slot, 123);
    assert_eq!(config.slots_per_epoch, 300);
}

#[test]
fn iteration_builds_one_chunk_per_row() {
    let tests = table();
    let iteration = BoomerangProgramTestIteration::new(
        &("alpha".to_string(), "addr-alpha".to_string()),
        &tests,
        true,
        &make_trial,
    );
    assert_eq!(iteration.program_file(), "alpha");
    let chunks = iteration.chunks();
    assert_eq!(chunks.len(), 2);
    assert_eq!(chunks[0].config().warp_slot, 123);
    assert_eq!(chunks[1].config().warp_slot, 0);
}

#[test]
fn program_test_runs_every_trial() {
    let test = BoomerangProgramTest::new(&programs(), &table(), &make_trial);
    let conclusions = test.run();
    assert_eq!(conclusions.len(), 2);
    for conclusion in &conclusions {
        assert_eq!(conclusion.num_failed, 0);
        assert_eq!(conclusion.num_passed, 3);
        assert_eq!(conclusion.num_filtered_out, 0);
        // Every trial of the iteration is accounted for.
        assert_eq!(
            conclusion.num_passed + conclusion.num_failed + conclusion.num_ignored
                + conclusion.num_measured,
            3
        );
    }
    assert!(!any_failed(&conclusions));
}

#[test]
fn failing_trials_set_the_exit_policy() {
    let failing = |case: &TestCase, _config: &BoomerangTestClientConfig, _use_banks: bool| {
        libtest_mimic::Trial::test(case.name.clone(), || {
            Err(libtest_mimic::Failed::from("expected mismatch"))
        })
    };
    let test = BoomerangProgramTest::new(&programs(), &table(), &failing);
    let conclusions = test.run();
    assert!(any_failed(&conclusions));
}

#[test]
fn chunk_run_reports_a_conclusion() {
    let tests = table();
    let chunk = BoomerangProgramTestChunk::new(
        "alpha",
        &addr("addr-alpha"),
        &tests[0],
        false,
        &make_trial,
    );
    let conclusion = chunk.run();
    assert_eq!(conclusion.num_passed, 2);
    assert_eq!(conclusion.num_failed, 0);
    assert_eq!(conclusion.num_filtered_out, 0);
    assert_eq!(
        conclusion.num_passed + conclusion.num_failed + conclusion.num_ignored
            + conclusion.num_measured,
        2
    );
}

#[test]
fn integration_test_builds_out_of_process_iterations() {
    let integration = BoomerangIntegrationTest::new(&programs(), &table(), &make_trial);
    let iterations = integration.iterations();
    assert_eq!(iterations.len(), 2);
}

#[test]
fn integration_chunk_validator_brackets_the_chunk() {
    let integration = BoomerangIntegrationTest::new(&programs(), &table(), &make_trial);
    let chunk = BoomerangProgramTestChunk::new(
        "alpha",
        &addr("addr-alpha"),
        &table()[0],
        false,
        &make_trial,
    );
    let validator = integration.chunk_test_validator(&chunk, "/ws");
    assert_eq!(validator.ledger_path(), "/ws/test-ledger");
    assert_eq!(validator.solana_test_validator_teardown_command(), "rm -rf /ws/test-ledger");
    assert_eq!(
        validator.solana_test_validator_start_command(),
        "solana-test-validator  --upgradeable-program addr-alpha \
         /ws/target/deploy/alpha.so addr-alpha --warp-slot 123 --ledger /ws/test-ledger"
    );
}

#[test]
fn migration_test_builds_iterations_and_tooling_paths() {
    let migrations = vec![(
        "alpha".to_string(),
        "addr-alpha".to_string(),
        "native-target".to_string(),
    )];
    let migration = BoomerangMigrationTest::new(&migrations, &table(), &make_trial, "/ws");
    let built = migration.migrations();
    assert_eq!(built.len(), 1);
    assert_eq!(built[0].0.program_file(), "alpha");
    assert_eq!(built[0].1, "native-target");
}

#[test]
fn migration_config_disables_the_feature_and_shortens_epochs() {
    let mut config = BoomerangTestClientConfig::default();
    config.features_disabled = vec![addr("feat-a")];
    let prepared = prepare_migration_config(&config, &addr("ad-hoc-feature"));
    let features: Vec<String> = prepared
        .features_disabled
        .iter()
        .map(|a| a.to_text())
        .collect();
    assert_eq!(features, vec!["feat-a".to_string(), "ad-hoc-feature".to_string()]);
    assert_eq!(prepared.slots_per_epoch, SLOTS_PER_EPOCH);
    assert_eq!(prepared.warp_slot, config.warp_slot);
}

#[test]
fn entrypoint_plans_nothing_without_selected_modes() {
    let plan = entrypoint(&programs(), &vec![], &vec![], &vec![], &table(), &make_trial);
    assert!(plan.no_tests);
    assert!(plan.program_test.is_none());
    assert!(plan.integration_test.is_none());
    assert!(plan.migrations.is_empty());
}

#[test]
fn entrypoint_resolves_the_migration_selection() {
    let migration_tests = vec![
        ("beta".to_string(), "native-target".to_string()),
        ("undeclared".to_string(), "other-target".to_string()),
    ];
    let plan = entrypoint(
        &programs(),
        &vec![],
        &vec![],
        &migration_tests,
        &table(),
        &make_trial,
    );
    assert!(!plan.no_tests);
    assert_eq!(
        plan.migrations,
        vec![("beta".to_string(), "addr-beta".to_string(), "native-target".to_string())]
    );
}

#[test]
fn migration_selection_takes_the_first_declared_address() {
    let programs = vec![
        ("alpha".to_string(), "addr-first".to_string()),
        ("alpha".to_string(), "addr-second".to_string()),
    ];
    let migration_tests = vec![("alpha".to_string(), "native-target".to_string())];
    let selected = select_migration_tests(&programs, &migration_tests);
    assert_eq!(
        selected,
        vec![("alpha".to_string(), "addr-first".to_string(), "native-target".to_string())]
    );
    assert!(select_migration_tests(&programs, &vec![]).is_empty());
}

#[test]
fn entrypoint_plans_each_selected_mode() {
    let plan = entrypoint(
        &programs(),
        &vec!["alpha".to_string()],
        &vec!["alpha".to_string(), "beta".to_string()],
        &vec![],
        &table(),
        &make_trial,
    );
    assert!(!plan.no_tests);
    let program_test = plan.program_test.unwrap();
    assert_eq!(program_test.iterations().len(), 1);
    let integration_test = plan.integration_test.unwrap();
    assert_eq!(integration_test.iterations().len(), 2);
}

#[test]
fn entrypoint_records_hold_their_declarations() {
    let e = Entrypoint::new(
        programs(),
        vec!["alpha".to_string()],
        vec!["beta".to_string()],
        vec![("alpha".to_string(), "native".to_string())],
    );
    assert_eq!(e.programs.len(), 2);
    assert_eq!(e.program_tests, vec!["alpha".to_string()]);
    assert_eq!(e.integration_tests, vec!["beta".to_string()]);
    assert_eq!(e.migration_tests.len(), 1);

    let s = SolanaBoomerangEntrypoint::new(programs(), true, false, vec![]);
    assert!(s.program_tests);
    assert!(!s.integration_tests);
    assert!(s.migration_tests.is_empty());
}
