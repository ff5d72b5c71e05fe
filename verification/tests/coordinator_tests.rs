use brewhouse::command::{
    info_command, install_command, list_installed_command, outdated_command, probe_command,
    search_command, stats_command, uninstall_command, update_command, upgrade_command, StatsQuery,
};
use brewhouse::coordinator::{
    install, remaining_after, uninstall, upgrade_all, upgrade_many, upgrade_one, OperationState,
    ScriptedRunner,
};
use brewhouse::outcome::OperationOutcome;

fn ok(text: &str) -> OperationOutcome {
    OperationOutcome::Success(text.to_string())
}

fn fail(detail: &str) -> OperationOutcome {
    OperationOutcome::Failure(detail.to_string())
}

fn names(list: &[&str]) -> Vec<String> {
    list.iter().map(|s| s.to_string()).collect()
}

#[test]
fn batch_records_every_outcome_and_partitions_them() {
    let mut runner = ScriptedRunner::new(vec![ok("a done"), fail("b broke"), ok("c done")]);
    let report = upgrade_many(&mut runner, &names(&["a", "b", "c"]));
    assert_eq!(report.len(), 3);
    assert_eq!(runner.calls, 3);
    let succeeded = report.succeeded();
    let failed = report.failed();
    assert_eq!(succeeded, names(&["a", "c"]));
    assert_eq!(failed, vec![("b".to_string(), "b broke".to_string())]);
    assert_eq!(succeeded.len() + failed.len(), 3);
    for (i, name) in ["a", "b", "c"].iter().enumerate() {
        assert_eq!(report.items[i].0, *name);
        let in_succeeded = succeeded.iter().filter(|n| n == name).count();
        let in_failed = failed.iter().filter(|(n, _)| n == name).count();
        assert_eq!(in_succeeded + in_failed, 1, "identity {name} appears once");
    }
}

#[test]
fn batch_emits_progress_in_submission_order() {
    let mut runner = ScriptedRunner::new(vec![ok(""), fail("x"), ok("")]);
    upgrade_many(&mut runner, &names(&["a", "b", "c"]));
    assert_eq!(
        runner.notices,
        vec![
            ("a".to_string(), 1, 3),
            ("b".to_string(), 2, 3),
            ("c".to_string(), 3, 3),
        ]
    );
}

#[test]
fn empty_batch_makes_no_invocation() {
    let mut runner = ScriptedRunner::new(Vec::new());
    let report = upgrade_many(&mut runner, &Vec::new());
    assert_eq!(report.len(), 0);
    assert!(report.succeeded().is_empty());
    assert!(report.failed().is_empty());
    assert_eq!(runner.calls, 0);
    assert!(runner.notices.is_empty());
}

#[test]
fn batch_never_aborts_early_on_failure() {
    let mut runner = ScriptedRunner::new(vec![fail("1"), fail("2"), fail("3")]);
    let report = upgrade_many(&mut runner, &names(&["a", "b", "c"]));
    assert_eq!(runner.calls, 3);
    assert_eq!(report.succeeded().len(), 0);
    assert_eq!(report.failed().len(), 3);
}

#[test]
fn remaining_is_submitted_minus_succeeded() {
    let all = names(&["a", "b", "c", "d"]);
    let succeeded = names(&["a", "c"]);
    assert_eq!(remaining_after(&all, &succeeded), names(&["b", "d"]));
    assert_eq!(remaining_after(&all, &Vec::new()), all);
    assert_eq!(remaining_after(&Vec::new(), &succeeded), Vec::<String>::new());
}

#[test]
fn single_operations_hand_back_the_executor_outcome() {
    let mut runner = ScriptedRunner::new(vec![ok("installed"), fail("nope"), ok("up"), ok("all")]);
    assert!(matches!(install(&mut runner, "jq"), OperationOutcome::Success(ref t) if t == "installed"));
    assert!(matches!(uninstall(&mut runner, "jq"), OperationOutcome::Failure(ref t) if t == "nope"));
    assert!(matches!(upgrade_one(&mut runner, "jq"), OperationOutcome::Success(ref t) if t == "up"));
    assert!(matches!(upgrade_all(&mut runner), OperationOutcome::Success(ref t) if t == "all"));
    assert_eq!(runner.calls, 4);
}

#[test]
fn commands_pass_discrete_tokens() {
    let c = list_installed_command();
    assert_eq!(c.program, "brew");
    assert_eq!(c.args, vec!["info", "--json=v2", "--installed"]);
    assert_eq!(info_command("jq").args, vec!["info", "--json=v2", "jq"]);
    assert_eq!(install_command("jq").args, vec!["install", "jq"]);
    assert_eq!(uninstall_command("jq").args, vec!["uninstall", "jq"]);
    assert_eq!(update_command().args, vec!["update"]);
    assert_eq!(upgrade_command(None).args, vec!["upgrade"]);
    assert_eq!(upgrade_command(Some("jq")).args, vec!["upgrade", "jq"]);
    assert_eq!(outdated_command().args, vec!["outdated", "--formula"]);
    assert_eq!(probe_command().args, vec!["--version"]);
}

#[test]
fn empty_search_is_the_unfiltered_listing() {
    let unfiltered = search_command("");
    assert_eq!(unfiltered.args, vec!["search", "--formula"]);
    let filtered = search_command("wget");
    assert_eq!(filtered.args, vec!["search", "--formula", "wget"]);
}

#[test]
fn stats_queries_cover_all_six_subcommands() {
    assert_eq!(
        stats_command(StatsQuery::InstalledFormulae).args,
        vec!["list", "--formula", "-1"]
    );
    assert_eq!(
        stats_command(StatsQuery::InstalledCasks).args,
        vec!["list", "--cask", "-1"]
    );
    assert_eq!(
        stats_command(StatsQuery::OutdatedFormulae).args,
        vec!["outdated", "--formula"]
    );
    assert_eq!(stats_command(StatsQuery::KnownFormulae).args, vec!["formulae"]);
    assert_eq!(stats_command(StatsQuery::Leaves).args, vec!["leaves"]);
    assert_eq!(stats_command(StatsQuery::Taps).args, vec!["tap"]);
}

#[test]
fn duplicate_identities_are_each_recorded() {
    let mut runner = ScriptedRunner::new(vec![ok("first"), fail("second")]);
    let report = upgrade_many(&mut runner, &names(&["a", "a"]));
    assert_eq!(report.len(), 2);
    assert_eq!(report.succeeded(), names(&["a"]));
    assert_eq!(report.failed(), vec![("a".to_string(), "second".to_string())]);
}

#[test]
fn operation_lifecycle_is_terminal_on_either_outcome() {
    let state = OperationState::Idle;
    assert!(!state.is_terminal());
    let running = state.begin();
    assert_eq!(running, OperationState::Running);
    assert!(!running.is_terminal());
    let done = running.complete(&ok("fine"));
    assert_eq!(done, OperationState::Succeeded);
    assert!(done.is_terminal());
    let failed = running.complete(&fail("broke"));
    assert_eq!(failed, OperationState::Failed);
    assert!(failed.is_terminal());
}

#[test]
fn exhausted_script_keeps_failing() {
    let mut runner = ScriptedRunner::new(vec![ok("one")]);
    let report = upgrade_many(&mut runner, &names(&["a", "b"]));
    assert_eq!(report.succeeded(), names(&["a"]));
    assert_eq!(report.failed().len(), 1);
}
