//! Self-test harness and exit reporting.
//!
//! A freestanding kernel under test has no host process to return an exit
//! status to, so the harness tallies the outcomes of the registered
//! self-tests and turns the tally into the closed two-valued exit code the
//! halt protocol reports through its side channel.
//!
//! Running a test is the caller's work (the recorded operation may touch
//! hardware); this module consumes the recorded outcomes, keeps running
//! counters, never stops early on a failure, and decides the exit code.

use vstd::prelude::*;

use crate::halt::ExitCode;

verus! {

/// How one self-test ended: a returned `false` and a propagated error both
/// count as a failure.
#[derive(Clone, Copy, Debug, PartialEq, Eq, Structural)]
pub enum TestOutcome {
    Passed,
    Failed,
}

/// One registered self-test, with the outcome of its single run.
#[derive(Clone, Debug, PartialEq, Eq)]
pub struct TestRecord {
    pub name: String,
    pub module: String,
    pub outcome: TestOutcome,
}

/// The final tally the harness reports before exiting.
#[derive(Clone, Copy, Debug, PartialEq, Eq, Structural)]
pub struct TestTally {
    pub passed: usize,
    pub failed: usize,
}

/// How many of the records passed.
pub open spec fn count_passed(s: Seq<TestRecord>) -> int
    decreases s.len(),
{
    if s.len() == 0 {
        0
    } else {
        count_passed(s.drop_last()) + if s.last().outcome is Passed {
            1int
        } else {
            0int
        }
    }
}

/// The passed count never exceeds the record count.
pub proof fn lemma_count_passed_bounds(s: Seq<TestRecord>)
    ensures
        0 <= count_passed(s) <= s.len(),
    decreases s.len(),
{
    if s.len() > 0 {
        lemma_count_passed_bounds(s.drop_last());
    }
}

/// A boolean test outcome: `true` passes, `false` fails.
pub fn outcome_of_bool(passed: bool) -> (r: TestOutcome)
    ensures
        r == (if passed {
            TestOutcome::Passed
        } else {
            TestOutcome::Failed
        }),
{
    if passed {
        TestOutcome::Passed
    } else {
        TestOutcome::Failed
    }
}

/// An error-carrying test outcome: any propagated error counts as a failure.
pub fn outcome_of_result<E>(result: &Result<(), E>) -> (r: TestOutcome)
    ensures
        r == (if result is Ok {
            TestOutcome::Passed
        } else {
            TestOutcome::Failed
        }),
{
    match result {
        Ok(()) => TestOutcome::Passed,
        Err(_) => TestOutcome::Failed,
    }
}

/// Tally the whole suite, in registration order, without stopping early:
/// with `N` records of which `K` failed, the tally is exactly
/// `(N - K) passed, K failed`.
pub fn tally_tests(records: &Vec<TestRecord>) -> (t: TestTally)
    ensures
        t.passed == count_passed(records@),
        t.passed + t.failed == records@.len(),
{
    let n = records.len();
    let mut i: usize = 0;
    let mut passed: usize = 0;
    let mut failed: usize = 0;
    while i < n
        invariant
            n == records@.len(),
            i <= n,
            passed == count_passed(records@.take(i as int)),
            passed + failed == i,
        decreases n - i,
    {
        proof {
            assert(records@.take(i + 1).drop_last() =~= records@.take(i as int));
            lemma_count_passed_bounds(records@.take(i as int));
        }
        match records[i].outcome {
            TestOutcome::Passed => {
                passed = passed + 1;
            },
            TestOutcome::Failed => {
                failed = failed + 1;
            },
        }
        i = i + 1;
    }
    proof {
        assert(records@.take(n as int) =~= records@);
    }
    TestTally { passed, failed }
}

/// The exit signal for a tally: `Success` only when nothing failed,
/// `Failed` whenever at least one test failed.
pub fn exit_code_for(tally: &TestTally) -> (c: ExitCode)
    ensures
        c == (if tally.failed == 0 {
            ExitCode::Success
        } else {
            ExitCode::Failed
        }),
{
    if tally.failed == 0 {
        ExitCode::Success
    } else {
        ExitCode::Failed
    }
}

} // verus!
