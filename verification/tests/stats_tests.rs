use brewhouse::coordinator::ScriptedRunner;
use brewhouse::outcome::OperationOutcome;
use brewhouse::stats::{count_of_outcome, snapshot, snapshot_from};

fn ok(text: &str) -> OperationOutcome {
    OperationOutcome::Success(text.to_string())
}

fn fail(detail: &str) -> OperationOutcome {
    OperationOutcome::Failure(detail.to_string())
}

#[test]
fn all_failing_queries_degrade_to_zero() {
    let mut runner = ScriptedRunner::new(vec![
        fail("a"),
        fail("b"),
        fail("c"),
        fail("d"),
        fail("e"),
        fail("f"),
    ]);
    let stats = snapshot(&mut runner);
    assert_eq!(stats.installed, 0);
    assert_eq!(stats.casks, 0);
    assert_eq!(stats.outdated, 0);
    assert_eq!(stats.formulae, 0);
    assert_eq!(stats.leaves, 0);
    assert_eq!(stats.taps, 0);
    assert_eq!(runner.calls, 6);
}

#[test]
fn each_field_counts_its_own_query() {
    let mut runner = ScriptedRunner::new(vec![
        ok("wget\njq\n"),
        ok("firefox\n"),
        fail("outdated unavailable"),
        ok("a\nb\nc\n\n"),
        ok(""),
        ok("homebrew/core\nhomebrew/cask\n"),
    ]);
    let stats = snapshot(&mut runner);
    assert_eq!(stats.installed, 2);
    assert_eq!(stats.casks, 1);
    assert_eq!(stats.outdated, 0);
    assert_eq!(stats.formulae, 3);
    assert_eq!(stats.leaves, 0);
    assert_eq!(stats.taps, 2);
}

#[test]
fn combining_outcomes_field_by_field() {
    let stats = snapshot_from(
        &ok("x\n"),
        &fail("no"),
        &ok("a\nb"),
        &ok("\n\n"),
        &ok("leaf"),
        &fail("no taps"),
    );
    assert_eq!(stats.installed, 1);
    assert_eq!(stats.casks, 0);
    assert_eq!(stats.outdated, 2);
    assert_eq!(stats.formulae, 0);
    assert_eq!(stats.leaves, 1);
    assert_eq!(stats.taps, 0);
}

#[test]
fn counting_ignores_blank_lines_and_failures() {
    assert_eq!(count_of_outcome(&ok("a\n\nb\n")), 2);
    assert_eq!(count_of_outcome(&ok("")), 0);
    assert_eq!(count_of_outcome(&fail("anything")), 0);
}
