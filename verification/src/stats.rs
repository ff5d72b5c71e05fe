//! The status overview: six independent count-style queries combined into one
//! snapshot. A failed query degrades to zero for its field; the snapshot as a
//! whole never fails.

use vstd::prelude::*;

use crate::command::{stats_command, StatsQuery};
use crate::coordinator::BrewRunner;
use crate::outcome::OperationOutcome;
use crate::records::BrewStats;
use crate::text::{count_nonempty_lines, nonempty_count, split_lines};

verus! {

/// The count a query outcome contributes: the non-empty output lines of a
/// success, zero for any failure.
pub open spec fn spec_count_of(outcome: OperationOutcome) -> nat {
    match outcome {
        OperationOutcome::Success(text) => nonempty_count(split_lines(text@)),
        OperationOutcome::Failure(_) => 0,
    }
}

/// Counts the non-empty output lines of a successful query, degrading any
/// failure to zero.
pub fn count_of_outcome(outcome: &OperationOutcome) -> (r: usize)
    ensures
        r == spec_count_of(*outcome),
{
    match outcome {
        OperationOutcome::Success(text) => count_nonempty_lines(text.as_str()),
        OperationOutcome::Failure(_) => 0,
    }
}

/// Combines the six query outcomes into a snapshot, field by field: each
/// count is the non-empty line count of its own query's successful output,
/// and zero where that query failed.
pub fn snapshot_from(
    installed: &OperationOutcome,
    casks: &OperationOutcome,
    outdated: &OperationOutcome,
    formulae: &OperationOutcome,
    leaves: &OperationOutcome,
    taps: &OperationOutcome,
) -> (r: BrewStats)
    ensures
        r.installed == spec_count_of(*installed),
        r.casks == spec_count_of(*casks),
        r.outdated == spec_count_of(*outdated),
        r.formulae == spec_count_of(*formulae),
        r.leaves == spec_count_of(*leaves),
        r.taps == spec_count_of(*taps),
{
    BrewStats {
        installed: count_of_outcome(installed),
        casks: count_of_outcome(casks),
        outdated: count_of_outcome(outdated),
        formulae: count_of_outcome(formulae),
        leaves: count_of_outcome(leaves),
        taps: count_of_outcome(taps),
    }
}

/// When every underlying query fails, the snapshot degrades to all-zero
/// counts rather than surfacing an error.
pub proof fn lemma_snapshot_degrades(
    installed: OperationOutcome,
    casks: OperationOutcome,
    outdated: OperationOutcome,
    formulae: OperationOutcome,
    leaves: OperationOutcome,
    taps: OperationOutcome,
)
    requires
        installed is Failure,
        casks is Failure,
        outdated is Failure,
        formulae is Failure,
        leaves is Failure,
        taps is Failure,
    ensures
        spec_count_of(installed) == 0,
        spec_count_of(casks) == 0,
        spec_count_of(outdated) == 0,
        spec_count_of(formulae) == 0,
        spec_count_of(leaves) == 0,
        spec_count_of(taps) == 0,
{
}

/// Issues the six independent count-style queries and combines whatever came
/// back into one snapshot. Each query's outcome, whatever it is, contributes
/// exactly its count under `spec_count_of`; the snapshot itself never fails.
pub fn snapshot<R: BrewRunner>(runner: &mut R) -> BrewStats {
    let installed_cmd = stats_command(StatsQuery::InstalledFormulae);
    let installed = runner.run(&installed_cmd);
    let casks_cmd = stats_command(StatsQuery::InstalledCasks);
    let casks = runner.run(&casks_cmd);
    let outdated_cmd = stats_command(StatsQuery::OutdatedFormulae);
    let outdated = runner.run(&outdated_cmd);
    let formulae_cmd = stats_command(StatsQuery::KnownFormulae);
    let formulae = runner.run(&formulae_cmd);
    let leaves_cmd = stats_command(StatsQuery::Leaves);
    let leaves = runner.run(&leaves_cmd);
    let taps_cmd = stats_command(StatsQuery::Taps);
    let taps = runner.run(&taps_cmd);
    snapshot_from(&installed, &casks, &outdated, &formulae, &leaves, &taps)
}

} // verus!
