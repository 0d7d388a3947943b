//! Program test chunks and iterations.
//!
//! Given the declared programs and the test table, the builder materializes
//! one iteration per program and, inside it, one chunk per table row: the
//! row's configuration with the program's binary and address stamped in,
//! and one runnable trial per test case. Trials are handed to a generic
//! test-running library; its types are opaque here, so a chunk's contract
//! speaks of its configuration and of how many trials it carries.

use vstd::prelude::*;

use crate::address::Address;
use crate::config::{setup_config_for_test, BoomerangTestClientConfig, ConfigV};

verus! {

/// Relies on libtest_mimic::Trial, one named runnable test; carried
/// opaquely.
#[verifier::external_type_specification]
#[verifier::external_body]
pub struct ExTrial(libtest_mimic::Trial);

/// Relies on libtest_mimic::Conclusion, the counts a harness run reports;
/// its public counter fields are visible to contracts.
#[verifier::external_type_specification]
pub struct ExConclusion(libtest_mimic::Conclusion);

/// The number of trials a conclusion accounts for, over all four outcomes.
pub open spec fn spec_conclusion_total(c: libtest_mimic::Conclusion) -> int {
    c.num_passed + c.num_failed + c.num_ignored + c.num_measured
}

/// Relies on libtest_mimic::run, invoked under
/// libtest_mimic::Arguments::default(): the default arguments select no
/// filter, no skip list and no list mode, so no trial is filtered out and
/// every trial is reported under exactly one of the passed, failed, ignored
/// and measured counters.
#[verifier::external_body]
fn run_trials(trials: Vec<libtest_mimic::Trial>) -> (c: libtest_mimic::Conclusion)
    ensures
        c.num_filtered_out == 0,
        spec_conclusion_total(c) == trials@.len(),
{
    libtest_mimic::run(&libtest_mimic::Arguments::default(), trials)
}

/// One test case of the table: the name the trial runs under.
pub struct TestCase {
    pub name: String,
}

impl Clone for TestCase {
    fn clone(&self) -> (r: Self)
        ensures
            r.name@ == self.name@,
    {
        TestCase { name: self.name.clone() }
    }
}

/// One row of the test table: a startup configuration and the test cases
/// declared to run under it.
pub struct BoomerangTest {
    pub config: BoomerangTestClientConfig,
    pub tests: Vec<TestCase>,
}

/// A chunk of tests for a single program: trials that share a common setup
/// configuration.
pub struct BoomerangProgramTestChunk {
    config: BoomerangTestClientConfig,
    trials: Vec<libtest_mimic::Trial>,
}

impl BoomerangProgramTestChunk {
    /// The configuration this chunk's trials share.
    pub closed spec fn spec_config(&self) -> ConfigV {
        self.config@
    }

    /// How many trials this chunk carries.
    pub closed spec fn spec_num_trials(&self) -> nat {
        self.trials@.len()
    }

    /// Builds one chunk: the row's configuration with the program stamped
    /// in, and one trial per declared test case, each built by `make_trial`
    /// from the case, the stamped configuration and the backend choice.
    pub fn new<F: Fn(&TestCase, &BoomerangTestClientConfig, bool) -> libtest_mimic::Trial>(
        program_file: &str,
        program_id: &Address,
        test_suite: &BoomerangTest,
        use_banks: bool,
        make_trial: &F,
    ) -> (r: Self)
        requires
            forall|t: &TestCase, c: &BoomerangTestClientConfig, b: bool|
                #[trigger] call_requires(*make_trial, (t, c, b)),
        ensures
            r.spec_config() == (ConfigV {
                program_file: program_file@,
                program_id: program_id@,
                ..test_suite.config@
            }),
            r.spec_num_trials() == test_suite.tests@.len(),
    {
        let mut config = test_suite.config.clone();
        setup_config_for_test(&mut config, program_file, program_id);
        let mut trials: Vec<libtest_mimic::Trial> = Vec::new();
        let mut i: usize = 0;
        while i < test_suite.tests.len()
            invariant
                i <= test_suite.tests.len(),
                trials@.len() == i,
                forall|t: &TestCase, c: &BoomerangTestClientConfig, b: bool|
                    #[trigger] call_requires(*make_trial, (t, c, b)),
            decreases test_suite.tests.len() - i,
        {
            let trial = make_trial(&test_suite.tests[i], &config, use_banks);
            trials.push(trial);
            i += 1;
        }
        BoomerangProgramTestChunk { config, trials }
    }

    /// The configuration this chunk's trials share.
    pub fn config(&self) -> (r: &BoomerangTestClientConfig)
        ensures
            r@ == self.spec_config(),
    {
        &self.config
    }

    /// Runs this chunk's trials and reports the conclusion, which accounts
    /// for every trial the chunk carried. Used for integration and migration
    /// tests, where chunks run serially, one validator lifecycle at a time.
    pub fn run(self) -> (c: libtest_mimic::Conclusion)
        ensures
            c.num_filtered_out == 0,
            spec_conclusion_total(c) == self.spec_num_trials(),
    {
        run_trials(self.trials)
    }
}

/// The trials all chunks of a list carry together.
pub open spec fn spec_total_trials(chunks: Seq<BoomerangProgramTestChunk>) -> int
    decreases chunks.len(),
{
    if chunks.len() == 0 {
        0
    } else {
        chunks[0].spec_num_trials() + spec_total_trials(chunks.drop_first())
    }
}

/// All test chunks for one program.
pub struct BoomerangProgramTestIteration {
    chunks: Vec<BoomerangProgramTestChunk>,
    program_file: String,
}

impl BoomerangProgramTestIteration {
    /// The program binary this iteration tests.
    pub closed spec fn spec_program_file(&self) -> Seq<char> {
        self.program_file@
    }

    /// The chunks of this iteration.
    pub closed spec fn spec_chunks(&self) -> Seq<BoomerangProgramTestChunk> {
        self.chunks@
    }

    /// Builds the iteration for one program: one chunk per table row, each
    /// with the program stamped into the row's configuration.
    pub fn new<F: Fn(&TestCase, &BoomerangTestClientConfig, bool) -> libtest_mimic::Trial>(
        program: &(String, String),
        tests: &Vec<BoomerangTest>,
        use_banks: bool,
        make_trial: &F,
    ) -> (r: Self)
        requires
            forall|t: &TestCase, c: &BoomerangTestClientConfig, b: bool|
                #[trigger] call_requires(*make_trial, (t, c, b)),
        ensures
            r.spec_program_file() == program.0@,
            r.spec_chunks().len() == tests@.len(),
            forall|k: int|
                0 <= k < tests@.len() ==> (#[trigger] r.spec_chunks()[k]).spec_config()
                    == (ConfigV {
                    program_file: program.0@,
                    program_id: program.1@,
                    ..tests@[k].config@
                }),
            forall|k: int|
                0 <= k < tests@.len() ==> (#[trigger] r.spec_chunks()[k]).spec_num_trials()
                    == tests@[k].tests@.len(),
    {
        let program_file = program.0.clone();
        let program_id = Address::from_str(program.1.as_str());
        let mut chunks: Vec<BoomerangProgramTestChunk> = Vec::new();
        let mut i: usize = 0;
        while i < tests.len()
            invariant
                i <= tests.len(),
                chunks@.len() == i,
                program_file@ == program.0@,
                program_id@ == program.1@,
                forall|t: &TestCase, c: &BoomerangTestClientConfig, b: bool|
                    #[trigger] call_requires(*make_trial, (t, c, b)),
                forall|k: int|
                    0 <= k < i ==> (#[trigger] chunks@[k]).spec_config() == (ConfigV {
                        program_file: program.0@,
                        program_id: program.1@,
                        ..tests@[k].config@
                    }),
                forall|k: int|
                    0 <= k < i ==> (#[trigger] chunks@[k]).spec_num_trials()
                        == tests@[k].tests@.len(),
            decreases tests.len() - i,
        {
            let chunk = BoomerangProgramTestChunk::new(
                program_file.as_str(),
                &program_id,
                &tests[i],
                use_banks,
                make_trial,
            );
            chunks.push(chunk);
            i += 1;
        }
        BoomerangProgramTestIteration { chunks, program_file }
    }

    /// Hands the chunks out for serial consumption.
    pub fn chunks(self) -> (r: Vec<BoomerangProgramTestChunk>)
        ensures
            r@ == self.spec_chunks(),
    {
        self.chunks
    }

    /// The program binary this iteration tests.
    pub fn program_file(&self) -> (r: &String)
        ensures
            r@ == self.spec_program_file(),
    {
        &self.program_file
    }

    /// Runs every trial of the iteration in one harness run: trials backed
    /// by independent in-process ledgers may run concurrently. The
    /// conclusion accounts for every trial of every chunk.
    pub fn parallel_run(self) -> (c: libtest_mimic::Conclusion)
        ensures
            c.num_filtered_out == 0,
            spec_conclusion_total(c) == spec_total_trials(self.spec_chunks()),
    {
        let mut chunks = self.chunks;
        let mut trials: Vec<libtest_mimic::Trial> = Vec::new();
        while chunks.len() > 0
            invariant
                trials@.len() + spec_total_trials(chunks@) == spec_total_trials(
                    self.spec_chunks(),
                ),
            decreases chunks@.len(),
        {
            let ghost pre = chunks@;
            let mut chunk = chunks.remove(0);
            proof {
                assert(pre.remove(0) =~= pre.drop_first());
                assert(pre[0] == chunk);
            }
            trials.append(&mut chunk.trials);
        }
        run_trials(trials)
    }
}

/// The program test runner: all iterations for the selected programs.
pub struct BoomerangProgramTest {
    iterations: Vec<BoomerangProgramTestIteration>,
}

impl BoomerangProgramTest {
    /// The iterations this runner will execute.
    pub closed spec fn spec_iterations(&self) -> Seq<BoomerangProgramTestIteration> {
        self.iterations@
    }

    /// Builds one iteration per program over the shared test table.
    pub fn build_program_test_iterations<
        F: Fn(&TestCase, &BoomerangTestClientConfig, bool) -> libtest_mimic::Trial,
    >(
        programs: &Vec<(String, String)>,
        tests: &Vec<BoomerangTest>,
        use_banks: bool,
        make_trial: &F,
    ) -> (r: Vec<BoomerangProgramTestIteration>)
        requires
            forall|t: &TestCase, c: &BoomerangTestClientConfig, b: bool|
                #[trigger] call_requires(*make_trial, (t, c, b)),
        ensures
            r@.len() == programs@.len(),
            forall|k: int|
                0 <= k < programs@.len() ==> (#[trigger] r@[k]).spec_program_file()
                    == programs@[k].0@,
            forall|k: int|
                0 <= k < programs@.len() ==> (#[trigger] r@[k]).spec_chunks().len()
                    == tests@.len(),
            forall|k: int, j: int|
                0 <= k < programs@.len() && 0 <= j < tests@.len() ==> (#[trigger] r@[k].spec_chunks()[j]).spec_config() == (ConfigV {
                    program_file: programs@[k].0@,
                    program_id: programs@[k].1@,
                    ..tests@[j].config@
                }),
            forall|k: int, j: int|
                0 <= k < programs@.len() && 0 <= j < tests@.len() ==> (#[trigger] r@[k].spec_chunks()[j]).spec_num_trials() == tests@[j].tests@.len(),
    {
        let mut iterations: Vec<BoomerangProgramTestIteration> = Vec::new();
        let mut i: usize = 0;
        while i < programs.len()
            invariant
                i <= programs.len(),
                iterations@.len() == i,
                forall|t: &TestCase, c: &BoomerangTestClientConfig, b: bool|
                    #[trigger] call_requires(*make_trial, (t, c, b)),
                forall|k: int|
                    0 <= k < i ==> (#[trigger] iterations@[k]).spec_program_file()
                        == programs@[k].0@,
                forall|k: int|
                    0 <= k < i ==> (#[trigger] iterations@[k]).spec_chunks().len()
                        == tests@.len(),
                forall|k: int, j: int|
                    0 <= k < i && 0 <= j < tests@.len() ==> (#[trigger] iterations@[k].spec_chunks()[j]).spec_config() == (ConfigV {
                        program_file: programs@[k].0@,
                        program_id: programs@[k].1@,
                        ..tests@[j].config@
                    }),
                forall|k: int, j: int|
                    0 <= k < i && 0 <= j < tests@.len() ==> (#[trigger] iterations@[k].spec_chunks()[j]).spec_num_trials() == tests@[j].tests@.len(),
            decreases programs.len() - i,
        {
            let iteration = BoomerangProgramTestIteration::new(
                &programs[i],
                tests,
                use_banks,
                make_trial,
            );
            iterations.push(iteration);
            i += 1;
        }
        iterations
    }

    /// Builds the program-test runner: every trial runs against its own
    /// in-process ledger.
    pub fn new<F: Fn(&TestCase, &BoomerangTestClientConfig, bool) -> libtest_mimic::Trial>(
        programs: &Vec<(String, String)>,
        tests: &Vec<BoomerangTest>,
        make_trial: &F,
    ) -> (r: Self)
        requires
            forall|t: &TestCase, c: &BoomerangTestClientConfig, b: bool|
                #[trigger] call_requires(*make_trial, (t, c, b)),
        ensures
            r.spec_iterations().len() == programs@.len(),
            forall|k: int|
                0 <= k < programs@.len() ==> (#[trigger] r.spec_iterations()[k])
                    .spec_program_file() == programs@[k].0@,
            forall|k: int|
                0 <= k < programs@.len() ==> (#[trigger] r.spec_iterations()[k]).spec_chunks()
                    .len() == tests@.len(),
            forall|k: int, j: int|
                0 <= k < programs@.len() && 0 <= j < tests@.len() ==> (
                #[trigger] r.spec_iterations()[k].spec_chunks()[j]).spec_config() == (ConfigV {
                    program_file: programs@[k].0@,
                    program_id: programs@[k].1@,
                    ..tests@[j].config@
                }),
            forall|k: int, j: int|
                0 <= k < programs@.len() && 0 <= j < tests@.len() ==> (
                #[trigger] r.spec_iterations()[k].spec_chunks()[j]).spec_num_trials()
                    == tests@[j].tests@.len(),
    {
        BoomerangProgramTest {
            iterations: Self::build_program_test_iterations(programs, tests, true, make_trial),
        }
    }

    /// Runs every iteration in parallel mode, collecting one conclusion per
    /// iteration; each conclusion accounts for every trial of its iteration.
    pub fn run(self) -> (r: Vec<libtest_mimic::Conclusion>)
        ensures
            r@.len() == self.spec_iterations().len(),
            forall|k: int|
                0 <= k < r@.len() ==> (#[trigger] r@[k]).num_filtered_out == 0
                    && spec_conclusion_total(r@[k]) == spec_total_trials(
                    self.spec_iterations()[k].spec_chunks(),
                ),
    {
        let mut conclusions: Vec<libtest_mimic::Conclusion> = Vec::new();
        let mut iterations = self.iterations;
        proof {
            assert(self.spec_iterations().skip(0) =~= self.spec_iterations());
        }
        while iterations.len() > 0
            invariant
                conclusions@.len() + iterations@.len() == self.spec_iterations().len(),
                iterations@ == self.spec_iterations().skip(conclusions@.len() as int),
                forall|k: int|
                    0 <= k < conclusions@.len() ==> (#[trigger] conclusions@[k]).num_filtered_out
                        == 0 && spec_conclusion_total(conclusions@[k]) == spec_total_trials(
                        self.spec_iterations()[k].spec_chunks(),
                    ),
            decreases iterations@.len(),
        {
            let ghost n = conclusions@.len() as int;
            let ghost pre = iterations@;
            let iteration = iterations.remove(0);
            proof {
                assert(pre[0] == self.spec_iterations()[n]);
                assert(pre.remove(0) =~= self.spec_iterations().skip(n + 1));
            }
            conclusions.push(iteration.parallel_run());
        }
        conclusions
    }

    /// Hands the iterations out.
    pub fn iterations(self) -> (r: Vec<BoomerangProgramTestIteration>)
        ensures
            r@ == self.spec_iterations(),
    {
        self.iterations
    }
}

/// The exit policy over a run's conclusions: the process fails exactly when
/// some trial failed.
pub fn any_failed(conclusions: &Vec<libtest_mimic::Conclusion>) -> (r: bool)
    ensures
        r == exists|k: int|
            0 <= k < conclusions@.len() && (#[trigger] conclusions@[k]).num_failed > 0,
{
    let mut i: usize = 0;
    let mut failed = false;
    while i < conclusions.len()
        invariant
            i <= conclusions.len(),
            failed == exists|k: int|
                0 <= k < i && (#[trigger] conclusions@[k]).num_failed > 0,
        decreases conclusions.len() - i,
    {
        if conclusions[i].num_failed > 0 {
            failed = true;
        }
        i += 1;
    }
    failed
}

} // verus!
