//! The retry discipline for external commands.
//!
//! Running a command is process work and stays outside this library; what is
//! modelled here is the decision taken after each attempt: a command that
//! fails is retried a bounded number of times, and only when the whole
//! retry budget is exhausted is the failure treated as fatal. A success on
//! any attempt within the budget ends the run as a success.

use vstd::prelude::*;

verus! {

/// What the caller must do after one attempt at a retried command.
#[derive(Clone, Copy, PartialEq, Eq, Structural, Debug)]
pub enum RetryDecision {
    /// The attempt succeeded; the command is done.
    Done,
    /// The attempt failed but the retry budget allows another attempt.
    Retry,
    /// The attempt failed and the retry budget is exhausted; the failure is
    /// fatal.
    Fatal,
}

/// The running state of one retried command: the retry budget it started
/// with and the failures seen so far.
pub struct CommandRetryState {
    num_retries: u8,
    failures: u8,
}

impl CommandRetryState {
    /// The retry budget this run started with.
    pub closed spec fn spec_num_retries(&self) -> u8 {
        self.num_retries
    }

    /// The failed attempts seen so far.
    pub closed spec fn spec_failures(&self) -> u8 {
        self.failures
    }

    /// Starts a retried command with the given retry budget.
    pub fn new(num_retries: u8) -> (r: Self)
        ensures
            r.spec_num_retries() == num_retries,
            r.spec_failures() == 0,
    {
        CommandRetryState { num_retries, failures: 0 }
    }

    /// Decides what follows one attempt: success ends the run, a failure is
    /// retried until `num_retries` failures have already been seen, and the
    /// next failure after that is fatal.
    pub fn on_attempt(&mut self, success: bool) -> (d: RetryDecision)
        requires
            old(self).spec_failures() <= old(self).spec_num_retries(),
        ensures
            final(self).spec_num_retries() == old(self).spec_num_retries(),
            success ==> d == RetryDecision::Done && final(self).spec_failures() == old(
                self,
            ).spec_failures(),
            !success && old(self).spec_failures() < old(self).spec_num_retries() ==> d
                == RetryDecision::Retry && final(self).spec_failures() == old(self).spec_failures()
                + 1,
            !success && old(self).spec_failures() == old(self).spec_num_retries() ==> d
                == RetryDecision::Fatal && final(self).spec_failures() == old(self).spec_failures(),
    {
        if success {
            RetryDecision::Done
        } else if self.failures < self.num_retries {
            self.failures = self.failures + 1;
            RetryDecision::Retry
        } else {
            RetryDecision::Fatal
        }
    }
}

/// Evaluates a whole retried run from the attempt outcomes it would see:
/// the result is the first successful attempt within the budget of
/// `num_retries` retries after the first attempt, and `None` exactly when
/// the first `num_retries + 1` attempts all fail. In particular a run that
/// succeeds on any attempt within the budget is a success, never a failure.
pub fn evaluate_attempts(outcomes: &Vec<bool>, num_retries: u8) -> (r: Option<usize>)
    requires
        outcomes@.len() > num_retries as int,
    ensures
        match r {
            Some(k) => k <= num_retries as usize && outcomes@[k as int] && forall|m: int|
                0 <= m < k ==> !outcomes@[m],
            None => forall|m: int| 0 <= m <= num_retries as int ==> !outcomes@[m],
        },
{
    let mut i: usize = 0;
    while i <= num_retries as usize
        invariant
            outcomes@.len() > num_retries as int,
            i <= num_retries as usize + 1,
            forall|m: int| 0 <= m < i ==> !outcomes@[m],
        decreases num_retries as int + 1 - i,
    {
        if outcomes[i] {
            return Some(i);
        }
        i += 1;
    }
    None
}

} // verus!
