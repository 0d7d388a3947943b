//! Well-known paths under the workspace root.
//!
//! Discovering the workspace root itself is the caller's job (it queries
//! the build tooling); everything below it is plain path arithmetic over
//! that root.

use vstd::prelude::*;

verus! {

/// The path of a program binary under the workspace's deploy directory.
pub open spec fn spec_program_so_path(workspace_root: Seq<char>, program_name: Seq<char>) -> Seq<
    char,
> {
    workspace_root + "/target/deploy/"@ + program_name + ".so"@
}

/// The path of a program binary under the workspace's deploy directory.
pub fn program_so_path(workspace_root: &str, program_name: &str) -> (r: String)
    ensures
        r@ == spec_program_so_path(workspace_root@, program_name@),
{
    let mut s = workspace_root.to_owned();
    s.append("/target/deploy/");
    s.append(program_name);
    s.append(".so");
    s
}

/// The directory the reference cluster implementation is checked out to.
pub open spec fn spec_solana_install_path(workspace_root: Seq<char>) -> Seq<char> {
    workspace_root + "/.solana"@
}

/// The directory the reference cluster implementation is checked out to.
pub fn solana_install_path(workspace_root: &str) -> (r: String)
    ensures
        r@ == spec_solana_install_path(workspace_root@),
{
    let mut s = workspace_root.to_owned();
    s.append("/.solana");
    s
}

/// The path of the cluster tooling binary inside the checkout.
pub open spec fn spec_solana_cli_path(workspace_root: Seq<char>) -> Seq<char> {
    spec_solana_install_path(workspace_root) + "/target/debug/solana"@
}

/// The path of the cluster tooling binary inside the checkout.
pub fn solana_cli_path(workspace_root: &str) -> (r: String)
    ensures
        r@ == spec_solana_cli_path(workspace_root@),
{
    let mut s = solana_install_path(workspace_root);
    s.append("/target/debug/solana");
    s
}

/// The cluster tooling path as an owned string.
pub fn solana_cli_path_string(workspace_root: &str) -> (r: String)
    ensures
        r@ == spec_solana_cli_path(workspace_root@),
{
    solana_cli_path(workspace_root)
}

/// The path of the validator binary inside the checkout.
pub open spec fn spec_solana_test_validator_path(workspace_root: Seq<char>) -> Seq<char> {
    spec_solana_install_path(workspace_root) + "/target/debug/solana-test-validator"@
}

/// The path of the validator binary inside the checkout.
pub fn solana_test_validator_path(workspace_root: &str) -> (r: String)
    ensures
        r@ == spec_solana_test_validator_path(workspace_root@),
{
    let mut s = solana_install_path(workspace_root);
    s.append("/target/debug/solana-test-validator");
    s
}

/// The validator binary path as an owned string.
pub fn solana_test_validator_path_string(workspace_root: &str) -> (r: String)
    ensures
        r@ == spec_solana_test_validator_path(workspace_root@),
{
    solana_test_validator_path(workspace_root)
}

/// The scratch directory ad-hoc keypairs are persisted under.
pub open spec fn spec_temporary_directory_path(workspace_root: Seq<char>) -> Seq<char> {
    workspace_root + "/tmp"@
}

/// The scratch directory ad-hoc keypairs are persisted under.
pub fn temporary_directory_path(workspace_root: &str) -> (r: String)
    ensures
        r@ == spec_temporary_directory_path(workspace_root@),
{
    let mut s = workspace_root.to_owned();
    s.append("/tmp");
    s
}

/// The ledger directory a spawned validator runs on.
pub open spec fn spec_test_ledger_path(workspace_root: Seq<char>) -> Seq<char> {
    workspace_root + "/test-ledger"@
}

/// The ledger directory a spawned validator runs on.
pub fn test_ledger_path(workspace_root: &str) -> (r: String)
    ensures
        r@ == spec_test_ledger_path(workspace_root@),
{
    let mut s = workspace_root.to_owned();
    s.append("/test-ledger");
    s
}

} // verus!
