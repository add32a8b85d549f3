use mycelium_kernel::halt::ExitCode;
use mycelium_kernel::harness::{
    exit_code_for, outcome_of_bool, outcome_of_result, tally_tests, TestOutcome, TestRecord,
};

fn record(name: &str, outcome: TestOutcome) -> TestRecord {
    TestRecord { name: String::from(name), module: String::from("kernel_tests"), outcome }
}

#[test]
fn outcome_conversions() {
    assert_eq!(outcome_of_bool(true), TestOutcome::Passed);
    assert_eq!(outcome_of_bool(false), TestOutcome::Failed);
    let ok: Result<(), &str> = Ok(());
    let err: Result<(), &str> = Err("broken");
    assert_eq!(outcome_of_result(&ok), TestOutcome::Passed);
    assert_eq!(outcome_of_result(&err), TestOutcome::Failed);
}

#[test]
fn tally_counts_passes_and_failures() {
    // Five registered tests, two designed to fail.
    let records = vec![
        record("basic_alloc", TestOutcome::Passed),
        record("wasm_hello_world", TestOutcome::Failed),
        record("interrupts", TestOutcome::Passed),
        record("paging", TestOutcome::Failed),
        record("timer", TestOutcome::Passed),
    ];
    let tally = tally_tests(&records);
    assert_eq!(tally.passed, 3);
    assert_eq!(tally.failed, 2);
    assert_eq!(exit_code_for(&tally), ExitCode::Failed);
}

#[test]
fn all_passing_suite_exits_success() {
    let records = vec![
        record("basic_alloc", TestOutcome::Passed),
        record("wasm_hello_world", TestOutcome::Passed),
    ];
    let tally = tally_tests(&records);
    assert_eq!(tally.passed, 2);
    assert_eq!(tally.failed, 0);
    assert_eq!(exit_code_for(&tally), ExitCode::Success);
}

#[test]
fn single_failure_is_enough_to_fail() {
    let records = vec![record("only", TestOutcome::Failed)];
    let tally = tally_tests(&records);
    assert_eq!(tally.passed, 0);
    assert_eq!(tally.failed, 1);
    assert_eq!(exit_code_for(&tally), ExitCode::Failed);
}

#[test]
fn empty_suite_exits_success() {
    let records: Vec<TestRecord> = Vec::new();
    let tally = tally_tests(&records);
    assert_eq!(tally.passed, 0);
    assert_eq!(tally.failed, 0);
    assert_eq!(exit_code_for(&tally), ExitCode::Success);
}
