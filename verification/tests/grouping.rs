//! Grouping of declared trials into iterations, and program selection.

use boomerang::address::Address;
use boomerang::config::{groups_with, BoomerangTestClientConfig};
use boomerang::iteration::Iteration;
use boomerang::select_test_programs;
use boomerang::trial::{trial_groups_with, DeclaredTrial, TrialConfig};

fn addr(s: &str) -> Address {
    Address::from_str(s)
}

fn declared(name: &str, features: &[&str], warp_slot: u64) -> (TrialConfig, DeclaredTrial) {
    let config = TrialConfig {
        features_disabled: features.iter().map(|f| addr(f)).collect(),
        warp_slot,
    };
    let trial = DeclaredTrial::new(format!("tests::{}", name), format!("boomerang_{}", name));
    (config, trial)
}

#[test]
fn equal_keys_share_one_iteration() {
    let decls = vec![
        declared("alpha", &["feat-a", "feat-b"], 123),
        declared("beta", &["feat-b", "feat-a"], 123),
    ];
    let iterations = Iteration::group_trials(&decls);
    assert_eq!(iterations.len(), 1);
    let names: Vec<String> = iterations[0]
        .trials()
        .iter()
        .map(|t| t.generated_trial_name().clone())
        .collect();
    assert_eq!(names, vec!["boomerang_alpha".to_string(), "boomerang_beta".to_string()]);
}

#[test]
fn differing_keys_open_separate_iterations() {
    let decls = vec![
        declared("alpha", &[], 0),
        declared("beta", &["feat-a"], 0),
        declared("gamma", &[], 123),
    ];
    let iterations = Iteration::group_trials(&decls);
    assert_eq!(iterations.len(), 3);
    for it in &iterations {
        assert_eq!(it.trials().len(), 1);
    }
}

#[test]
fn first_declared_config_wins_the_bucket() {
    let decls = vec![
        declared("alpha", &["feat-a", "feat-b"], 7),
        declared("beta", &[], 0),
        declared("gamma", &["feat-b", "feat-a"], 7),
    ];
    let iterations = Iteration::group_trials(&decls);
    assert_eq!(iterations.len(), 2);
    // The first iteration keeps the first-declared feature order.
    let first = iterations[0].config();
    let firsts: Vec<String> = first
        .features_disabled
        .iter()
        .map(|a| a.to_text())
        .collect();
    assert_eq!(firsts, vec!["feat-a".to_string(), "feat-b".to_string()]);
    assert_eq!(first.warp_slot, 7);
    let names: Vec<String> = iterations[0]
        .trials()
        .iter()
        .map(|t| t.generated_trial_name().clone())
        .collect();
    assert_eq!(names, vec!["boomerang_alpha".to_string(), "boomerang_gamma".to_string()]);
}

#[test]
fn trial_grouping_ignores_feature_order_but_not_warp_slot() {
    let (a, _) = declared("alpha", &["feat-a", "feat-b"], 5);
    let (b, _) = declared("beta", &["feat-b", "feat-a"], 5);
    let (c, _) = declared("gamma", &["feat-a", "feat-b"], 6);
    assert!(trial_groups_with(&a, &b));
    assert!(!trial_groups_with(&a, &c));
}

#[test]
fn config_grouping_compares_features_as_sets() {
    let mut a = BoomerangTestClientConfig::default();
    a.features_disabled = vec![addr("feat-a"), addr("feat-b"), addr("feat-a")];
    a.warp_slot = 123;
    let mut b = BoomerangTestClientConfig::default();
    b.features_disabled = vec![addr("feat-b"), addr("feat-a")];
    b.warp_slot = 123;
    // Other fields do not participate in grouping equality.
    b.program_file = "other.so".to_string();
    b.rpc_endpoint = "http://10.0.0.1:8899".to_string();
    assert!(groups_with(&a, &b));

    let mut c = BoomerangTestClientConfig::default();
    c.features_disabled = vec![addr("feat-a")];
    c.warp_slot = 123;
    assert!(!groups_with(&a, &c));

    let mut d = BoomerangTestClientConfig::default();
    d.features_disabled = vec![addr("feat-a"), addr("feat-b")];
    d.warp_slot = 0;
    assert!(!groups_with(&a, &d));
}

#[test]
fn select_test_programs_filters_by_name_in_order() {
    let programs = vec![
        ("alpha".to_string(), "addr-alpha".to_string()),
        ("beta".to_string(), "addr-beta".to_string()),
        ("gamma".to_string(), "addr-gamma".to_string()),
    ];
    let names = vec!["gamma".to_string(), "alpha".to_string()];
    let selected = select_test_programs(&programs, &names);
    assert_eq!(
        selected,
        vec![
            ("alpha".to_string(), "addr-alpha".to_string()),
            ("gamma".to_string(), "addr-gamma".to_string()),
        ]
    );
}

#[test]
fn select_test_programs_empty_selection() {
    let programs = vec![("alpha".to_string(), "addr-alpha".to_string())];
    let selected = select_test_programs(&programs, &vec![]);
    assert!(selected.is_empty());
}
