//! The harness entrypoint: mode selection and run planning.
//!
//! The entrypoint receives the declared programs, the per-mode program
//! selections and the test table, and materializes the runners for every
//! selected mode. Executing the plan (printing banners, spawning
//! validators, exiting the process) is the caller's work.

use vstd::prelude::*;

use crate::config::{BoomerangTestClientConfig, ConfigV};
use crate::integration::BoomerangIntegrationTest;
use crate::program::{BoomerangProgramTest, BoomerangTest, TestCase};
use crate::{name_selected, select_test_programs, spec_selected_programs};

verus! {

/// The address of the first declared program carrying `name`.
pub open spec fn spec_first_program_id(programs: Seq<(String, String)>, name: Seq<char>) -> Seq<
    char,
>
    decreases programs.len(),
{
    if programs.len() == 0 {
        Seq::empty()
    } else if programs[0].0@ == name {
        programs[0].1@
    } else {
        spec_first_program_id(programs.drop_first(), name)
    }
}

/// The views of a migration triple list.
pub open spec fn migration_views(v: Seq<(String, String, String)>) -> Seq<
    (Seq<char>, Seq<char>, Seq<char>),
> {
    v.map_values(|t: (String, String, String)| (t.0@, t.1@, t.2@))
}

/// The migration selection: per declared `(program_name, target)` pair whose
/// program is among the declared programs, the triple of the program's file
/// name, its address (the first declaration's), and the native target, in
/// declaration order.
pub open spec fn spec_selected_migrations(
    programs: Seq<(String, String)>,
    migration_tests: Seq<(String, String)>,
) -> Seq<(Seq<char>, Seq<char>, Seq<char>)> {
    migration_tests.filter(
        |m: (String, String)|
            name_selected(programs.map_values(|p: (String, String)| p.0), m.0@),
    ).map_values(
        |m: (String, String)| (m.0@, spec_first_program_id(programs, m.0@), m.1@),
    )
}

/// The first match determines the selected address.
proof fn lemma_first_program_id(programs: Seq<(String, String)>, name: Seq<char>, j: int)
    requires
        0 <= j < programs.len(),
        programs[j].0@ == name,
        forall|m: int| 0 <= m < j ==> (#[trigger] programs[m]).0@ != name,
    ensures
        spec_first_program_id(programs, name) == programs[j].1@,
    decreases j,
{
    if j > 0 {
        let rest = programs.drop_first();
        assert(programs[0].0@ != name);
        assert(rest[j - 1].0@ == name);
        assert(forall|m: int| 0 <= m < j - 1 ==> (#[trigger] rest[m]).0@ != name);
        lemma_first_program_id(rest, name, j - 1);
    }
}

/// Resolves the declared migrations: each `(program_name, target)` pair whose
/// program is declared becomes `(program_file, program_id, target)`, taking
/// the first declaration's address; undeclared names are dropped.
pub fn select_migration_tests(
    programs: &Vec<(String, String)>,
    migration_tests: &Vec<(String, String)>,
) -> (r: Vec<(String, String, String)>)
    ensures
        migration_views(r@) == spec_selected_migrations(programs@, migration_tests@),
{
    let mut r: Vec<(String, String, String)> = Vec::new();
    let mut i: usize = 0;
    while i < migration_tests.len()
        invariant
            i <= migration_tests.len(),
            migration_views(r@) == spec_selected_migrations(
                programs@,
                migration_tests@.take(i as int),
            ),
        decreases migration_tests.len() - i,
    {
        let ghost pre = migration_views(r@);
        let mut first: Option<usize> = None;
        let mut j: usize = 0;
        while j < programs.len()
            invariant
                j <= programs.len(),
                i < migration_tests.len(),
                match first {
                    Some(f) => f < j && programs@[f as int].0@ == migration_tests@[i as int].0@
                        && forall|m: int|
                        0 <= m < f ==> (#[trigger] programs@[m]).0@
                            != migration_tests@[i as int].0@,
                    None => forall|m: int|
                        0 <= m < j ==> (#[trigger] programs@[m]).0@
                            != migration_tests@[i as int].0@,
                },
            decreases programs.len() - j,
        {
            if first.is_none() && programs[j].0 == migration_tests[i].0 {
                first = Some(j);
            }
            j += 1;
        }
        let ghost names = programs@.map_values(|p: (String, String)| p.0);
        proof {
            match first {
                Some(f) => {
                    assert(names[f as int]@ == migration_tests@[i as int].0@);
                    assert(name_selected(names, migration_tests@[i as int].0@));
                    lemma_first_program_id(programs@, migration_tests@[i as int].0@, f as int);
                },
                None => {
                    if name_selected(names, migration_tests@[i as int].0@) {
                        let k = choose|k: int|
                            0 <= k < names.len() && (#[trigger] names[k])@
                                == migration_tests@[i as int].0@;
                        assert(programs@[k].0@ == migration_tests@[i as int].0@);
                        assert(false);
                    }
                },
            }
        }
        match first {
            Some(f) => {
                r.push(
                    (
                        migration_tests[i].0.clone(),
                        programs[f].1.clone(),
                        migration_tests[i].1.clone(),
                    ),
                );
                proof {
                    assert(migration_views(r@) =~= pre.push(
                        (
                            migration_tests@[i as int].0@,
                            spec_first_program_id(programs@, migration_tests@[i as int].0@),
                            migration_tests@[i as int].1@,
                        ),
                    ));
                }
            },
            None => {
            },
        }
        proof {
            reveal(Seq::filter);
            let pred = |m: (String, String)|
                name_selected(programs@.map_values(|p: (String, String)| p.0), m.0@);
            assert(migration_tests@.take(i + 1).drop_last() =~= migration_tests@.take(i as int));
            assert(migration_tests@.take(i + 1).last() == migration_tests@[i as int]);
            assert(pred(migration_tests@[i as int]) == first is Some);
            if first is Some {
                assert(migration_tests@.take(i + 1).filter(pred) == migration_tests@.take(
                    i as int,
                ).filter(pred).push(migration_tests@[i as int]));
                assert(migration_views(r@) =~= spec_selected_migrations(
                    programs@,
                    migration_tests@.take(i + 1),
                ));
            } else {
                assert(migration_tests@.take(i + 1).filter(pred) == migration_tests@.take(
                    i as int,
                ).filter(pred));
                assert(migration_views(r@) =~= spec_selected_migrations(
                    programs@,
                    migration_tests@.take(i + 1),
                ));
            }
        }
        i += 1;
    }
    proof {
        assert(migration_tests@.take(migration_tests@.len() as int) =~= migration_tests@);
    }
    r
}

/// The declarative entrypoint record: the declared programs and, per mode,
/// which of them to run.
pub struct Entrypoint {
    pub programs: Vec<(String, String)>,
    pub program_tests: Vec<String>,
    pub integration_tests: Vec<String>,
    pub migration_tests: Vec<(String, String)>,
}

impl Entrypoint {
    /// Records a declared entrypoint.
    pub fn new(
        programs: Vec<(String, String)>,
        program_tests: Vec<String>,
        integration_tests: Vec<String>,
        migration_tests: Vec<(String, String)>,
    ) -> (r: Self)
        ensures
            r.programs == programs,
            r.program_tests == program_tests,
            r.integration_tests == integration_tests,
            r.migration_tests == migration_tests,
    {
        Entrypoint { programs, program_tests, integration_tests, migration_tests }
    }
}

/// An earlier shape of the entrypoint record, where program and integration
/// tests are plain switches instead of per-program selections.
pub struct SolanaBoomerangEntrypoint {
    pub programs: Vec<(String, String)>,
    pub program_tests: bool,
    pub integration_tests: bool,
    pub migration_tests: Vec<(String, String)>,
}

impl SolanaBoomerangEntrypoint {
    /// Records a declared entrypoint.
    pub fn new(
        programs: Vec<(String, String)>,
        program_tests: bool,
        integration_tests: bool,
        migration_tests: Vec<(String, String)>,
    ) -> (r: Self)
        ensures
            r.programs == programs,
            r.program_tests == program_tests,
            r.integration_tests == integration_tests,
            r.migration_tests == migration_tests,
    {
        SolanaBoomerangEntrypoint { programs, program_tests, integration_tests, migration_tests }
    }
}

/// What one harness invocation will run: nothing at all, or the runners of
/// the selected modes. Each selected mode runs independently of the others'
/// outcome.
pub struct RunPlan {
    /// Set when no mode selected any test: the caller prints a notice and
    /// exits successfully without executing anything.
    pub no_tests: bool,
    /// The in-process program test runner, when program tests were selected.
    pub program_test: Option<BoomerangProgramTest>,
    /// The out-of-process integration test runner, when integration tests
    /// were selected.
    pub integration_test: Option<BoomerangIntegrationTest>,
    /// The resolved migration selection: one `(program_file, program_id,
    /// target)` triple per declared migration whose program is among the
    /// declared programs; empty when the migration mode selected nothing.
    pub migrations: Vec<(String, String, String)>,
}

/// Plans one harness invocation: selects, per mode, the declared programs
/// named by that mode's selection, and builds the mode's runner when the
/// selection is not empty.
pub fn entrypoint<F: Fn(&TestCase, &BoomerangTestClientConfig, bool) -> libtest_mimic::Trial>(
    programs: &Vec<(String, String)>,
    program_tests: &Vec<String>,
    integration_tests: &Vec<String>,
    migration_tests: &Vec<(String, String)>,
    tests: &Vec<BoomerangTest>,
    make_trial: &F,
) -> (r: RunPlan)
    requires
        forall|t: &TestCase, c: &BoomerangTestClientConfig, b: bool|
            #[trigger] call_requires(*make_trial, (t, c, b)),
    ensures
        r.no_tests == (program_tests@.len() == 0 && integration_tests@.len() == 0
            && migration_tests@.len() == 0),
        r.program_test is Some <==> program_tests@.len() > 0,
        r.program_test matches Some(pt) ==> pt.spec_iterations().len() == spec_selected_programs(
            programs@,
            program_tests@,
        ).len() && (forall|k: int|
            0 <= k < pt.spec_iterations().len() ==> (#[trigger] pt.spec_iterations()[k])
                .spec_program_file() == spec_selected_programs(programs@, program_tests@)[k].0@)
            && (forall|k: int, j: int|
            0 <= k < pt.spec_iterations().len() && 0 <= j < tests@.len() ==> (
            #[trigger] pt.spec_iterations()[k].spec_chunks()[j]).spec_config() == (ConfigV {
                program_file: spec_selected_programs(programs@, program_tests@)[k].0@,
                program_id: spec_selected_programs(programs@, program_tests@)[k].1@,
                ..tests@[j].config@
            }) && pt.spec_iterations()[k].spec_chunks()[j].spec_num_trials()
                == tests@[j].tests@.len()),
        r.integration_test is Some <==> integration_tests@.len() > 0,
        r.integration_test matches Some(it) ==> it.spec_iterations().len()
            == spec_selected_programs(programs@, integration_tests@).len() && (forall|k: int|
            0 <= k < it.spec_iterations().len() ==> (#[trigger] it.spec_iterations()[k])
                .spec_program_file() == spec_selected_programs(
                programs@,
                integration_tests@,
            )[k].0@) && (forall|k: int, j: int|
            0 <= k < it.spec_iterations().len() && 0 <= j < tests@.len() ==> (
            #[trigger] it.spec_iterations()[k].spec_chunks()[j]).spec_config() == (ConfigV {
                program_file: spec_selected_programs(programs@, integration_tests@)[k].0@,
                program_id: spec_selected_programs(programs@, integration_tests@)[k].1@,
                ..tests@[j].config@
            }) && it.spec_iterations()[k].spec_chunks()[j].spec_num_trials()
                == tests@[j].tests@.len()),
        migration_views(r.migrations@) == spec_selected_migrations(programs@, migration_tests@),
{
    let migrations = select_migration_tests(programs, migration_tests);
    if program_tests.len() == 0 && integration_tests.len() == 0 && migration_tests.len() == 0 {
        return RunPlan { no_tests: true, program_test: None, integration_test: None, migrations };
    }
    let program_test = if program_tests.len() > 0 {
        let selected = select_test_programs(programs, program_tests);
        Some(BoomerangProgramTest::new(&selected, tests, make_trial))
    } else {
        None
    };
    let integration_test = if integration_tests.len() > 0 {
        let selected = select_test_programs(programs, integration_tests);
        Some(BoomerangIntegrationTest::new(&selected, tests, make_trial))
    } else {
        None
    };
    RunPlan { no_tests: false, program_test, integration_test, migrations }
}

} // verus!
