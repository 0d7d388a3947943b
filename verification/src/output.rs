//! The progress messages the harness reports, assembled here and printed by
//! the caller that owns the console.

use vstd::prelude::*;

use crate::decimal::{spec_decimal, u64_to_decimal};

verus! {

/// The notice printed when no test mode was selected.
pub fn no_tests_to_run() -> (r: String)
    ensures
        r@ == "No tests to run"@,
{
    "No tests to run".to_owned()
}

/// The banner for a program's in-process test run.
pub fn starting_program_tests(program: &str) -> (r: String)
    ensures
        r@ == "Starting program tests for "@ + program@,
{
    let mut s = "Starting program tests for ".to_owned();
    s.append(program);
    s
}

/// The banner for a program's integration test run.
pub fn starting_integration_tests(program: &str) -> (r: String)
    ensures
        r@ == "Starting integration tests for "@ + program@,
{
    let mut s = "Starting integration tests for ".to_owned();
    s.append(program);
    s
}

/// The banner for a program's migration test run against its native target.
pub fn starting_migration_tests(source_program: &str, target: &str) -> (r: String)
    ensures
        r@ == "Starting migration tests for "@ + source_program@ + " against "@ + target@,
{
    let mut s = "Starting migration tests for ".to_owned();
    s.append(source_program);
    s.append(" against ");
    s.append(target);
    s
}

/// The progress line for one chunk out of the total.
pub fn chunk(i: u64, total: u64) -> (r: String)
    ensures
        r@ == "Round "@ + spec_decimal(i as nat) + " of "@ + spec_decimal(total as nat),
{
    let mut s = "Round ".to_owned();
    let d = u64_to_decimal(i);
    s.append(d.as_str());
    s.append(" of ");
    let t = u64_to_decimal(total);
    s.append(t.as_str());
    s
}

} // verus!
