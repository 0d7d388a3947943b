//! A test-orchestration harness for validating interchangeable
//! implementations of the same on-chain program logic against multiple
//! execution backends: an in-process simulated ledger and a locally spawned
//! validator process reached over RPC.

pub mod address;
pub mod client;
pub mod codec;
pub mod commands;
pub mod config;
pub mod decimal;
pub mod entrypoint;
pub mod integration;
pub mod iteration;
pub mod dirs;
pub mod ledger;
pub mod migration;
pub mod options;
pub mod output;
pub mod program;
pub mod transaction;
pub mod trial;
pub mod validator;
pub mod validator_options;

use vstd::prelude::*;

verus! {

/// Holds when one of the declared `program_names` reads `name`.
pub open spec fn name_selected(program_names: Seq<String>, name: Seq<char>) -> bool {
    exists|k: int| 0 <= k < program_names.len() && (#[trigger] program_names[k])@ == name
}

/// The subset of `programs` whose names appear in `program_names`, in
/// declaration order.
pub open spec fn spec_selected_programs(
    programs: Seq<(String, String)>,
    program_names: Seq<String>,
) -> Seq<(String, String)> {
    programs.filter(|p: (String, String)| name_selected(program_names, p.0@))
}

/// Selects the subset of declared programs whose names appear in
/// `program_names`, preserving declaration order.
pub fn select_test_programs(
    programs: &Vec<(String, String)>,
    program_names: &Vec<String>,
) -> (selected: Vec<(String, String)>)
    ensures
        selected@ == spec_selected_programs(programs@, program_names@),
{
    let mut selected: Vec<(String, String)> = Vec::new();
    let mut i: usize = 0;
    while i < programs.len()
        invariant
            i <= programs.len(),
            selected@ == spec_selected_programs(programs@.take(i as int), program_names@),
        decreases programs.len() - i,
    {
        let mut found = false;
        let mut j: usize = 0;
        while j < program_names.len()
            invariant
                j <= program_names.len(),
                i < programs.len(),
                found == exists|k: int|
                    0 <= k < j && (#[trigger] program_names@[k])@ == programs@[i as int].0@,
            decreases program_names.len() - j,
        {
            if programs[i].0 == program_names[j] {
                found = true;
            }
            j += 1;
        }
        proof {
            let p = programs@[i as int];
            if found {
                let k = choose|k: int|
                    0 <= k < j && (#[trigger] program_names@[k])@ == programs@[i as int].0@;
                assert(name_selected(program_names@, p.0@));
            }
            if name_selected(program_names@, p.0@) {
                let k = choose|k: int|
                    0 <= k < program_names@.len() && (#[trigger] program_names@[k])@ == p.0@;
                assert(found);
            }
        }
        if found {
            selected.push((programs[i].0.clone(), programs[i].1.clone()));
        }
        proof {
            reveal(Seq::filter);
            let pred = |p: (String, String)| name_selected(program_names@, p.0@);
            assert(programs@.take(i + 1).drop_last() =~= programs@.take(i as int));
            assert(programs@.take(i + 1).last() == programs@[i as int]);
            assert(pred(programs@[i as int]) == found);
            assert(programs@.take(i + 1).filter(pred) == if found {
                programs@.take(i as int).filter(pred).push(programs@[i as int])
            } else {
                programs@.take(i as int).filter(pred)
            });
        }
        i += 1;
    }
    proof {
        assert(programs@.take(programs@.len() as int) =~= programs@);
    }
    selected
}

} // verus!
