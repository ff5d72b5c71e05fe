//! Sequencing single and batch operations against the external tool. Batch
//! steps run strictly one after another, each item's outcome is recorded, and
//! a per-item failure never aborts the remainder of the batch.

use vstd::prelude::*;

use crate::command::{install_command, uninstall_command, upgrade_command, BrewCommand};
use crate::outcome::OperationOutcome;

verus! {

/// The capability of running one external tool invocation and of observing
/// batch progress. A real implementation spawns a process per call; a test
/// implementation hands back scripted outcomes. Nothing is assumed of the
/// outcomes such a runner produces.
pub trait BrewRunner {
    /// Runs one invocation to completion and hands back its outcome.
    fn run(&mut self, cmd: &BrewCommand) -> OperationOutcome;

    /// Observes that the batch item `name`, at 1-based `position` of `total`,
    /// has finished.
    fn progress(&mut self, name: &str, position: usize, total: usize);
}

/// The lifecycle of one single operation: it starts idle, runs once, and ends
/// in a terminal state on either outcome. No retry follows automatically;
/// retrying is a caller decision.
#[derive(Debug, Clone, Copy, PartialEq, Eq, Structural)]
pub enum OperationState {
    Idle,
    Running,
    Succeeded,
    Failed,
}

impl OperationState {
    /// Dispatches an idle operation.
    pub fn begin(&self) -> (r: OperationState)
        requires
            *self is Idle,
        ensures
            r is Running,
    {
        OperationState::Running
    }

    /// Ends a running operation: terminal on either outcome, succeeded
    /// exactly when the invocation succeeded.
    pub fn complete(&self, outcome: &OperationOutcome) -> (r: OperationState)
        requires
            *self is Running,
        ensures
            r is Succeeded <==> outcome is Success,
            r is Failed <==> outcome is Failure,
    {
        match outcome {
            OperationOutcome::Success(_) => OperationState::Succeeded,
            OperationOutcome::Failure(_) => OperationState::Failed,
        }
    }

    /// Whether the operation has ended, one way or the other.
    pub fn is_terminal(&self) -> (r: bool)
        ensures
            r == (*self is Succeeded || *self is Failed),
    {
        match self {
            OperationState::Succeeded => true,
            OperationState::Failed => true,
            _ => false,
        }
    }
}

/// The result of a batch operation: one `(identity, outcome)` pair per
/// submitted identity, in submission order.
pub struct BatchReport {
    pub items: Vec<(String, OperationOutcome)>,
}

/// The identities of the successful items, in order.
pub open spec fn spec_succeeded(items: Seq<(String, OperationOutcome)>) -> Seq<String>
    decreases items.len(),
{
    if items.len() == 0 {
        Seq::<String>::empty()
    } else {
        let rest = spec_succeeded(items.drop_first());
        if items.first().1 is Success {
            seq![items.first().0] + rest
        } else {
            rest
        }
    }
}

/// The identities of the failed items with their failure details, in order.
pub open spec fn spec_failed(items: Seq<(String, OperationOutcome)>) -> Seq<(String, String)>
    decreases items.len(),
{
    if items.len() == 0 {
        Seq::<(String, String)>::empty()
    } else {
        let rest = spec_failed(items.drop_first());
        match items.first().1 {
            OperationOutcome::Failure(detail) => seq![(items.first().0, detail)] + rest,
            OperationOutcome::Success(_) => rest,
        }
    }
}

/// Every recorded item lands in exactly one of the two derived lists: the
/// success and failure identities partition the submitted ones, and their
/// counts add up to the number of items.
pub proof fn lemma_batch_partition(items: Seq<(String, OperationOutcome)>)
    ensures
        spec_succeeded(items).len() + spec_failed(items).len() == items.len(),
        forall|i: int|
            0 <= i < items.len() && items[i].1 is Success ==> spec_succeeded(items).contains(
                items[i].0,
            ),
        forall|i: int|
            0 <= i < items.len() && items[i].1 is Failure ==> spec_failed(items).contains(
                (items[i].0, items[i].1->Failure_0),
            ),
        forall|n: String|
            spec_succeeded(items).contains(n) ==> exists|i: int|
                0 <= i < items.len() && items[i].0 == n && items[i].1 is Success,
        forall|p: (String, String)|
            spec_failed(items).contains(p) ==> exists|i: int|
                0 <= i < items.len() && items[i].0 == p.0 && items[i].1
                    == OperationOutcome::Failure(p.1),
    decreases items.len(),
{
    if items.len() > 0 {
        let rest = items.drop_first();
        lemma_batch_partition(rest);
        assert forall|i: int| 0 <= i < items.len() && items[i].1 is Success implies spec_succeeded(
            items,
        ).contains(items[i].0) by {
            if i == 0 {
                assert(spec_succeeded(items)[0] == items[0].0);
            } else {
                assert(rest[i - 1] == items[i]);
                let k = choose|k: int|
                    0 <= k < spec_succeeded(rest).len() && spec_succeeded(rest)[k] == items[i].0;
                if items[0].1 is Success {
                    assert(spec_succeeded(items)[k + 1] == items[i].0);
                } else {
                    assert(spec_succeeded(items)[k] == items[i].0);
                }
            }
        }
        assert forall|i: int|
            0 <= i < items.len() && items[i].1 is Failure implies spec_failed(items).contains(
            (items[i].0, items[i].1->Failure_0),
        ) by {
            if i == 0 {
                assert(spec_failed(items)[0] == (items[0].0, items[0].1->Failure_0));
            } else {
                assert(rest[i - 1] == items[i]);
                let d = items[i].1->Failure_0;
                let k = choose|k: int|
                    0 <= k < spec_failed(rest).len() && spec_failed(rest)[k] == (items[i].0, d);
                if items[0].1 is Failure {
                    assert(spec_failed(items)[k + 1] == (items[i].0, d));
                } else {
                    assert(spec_failed(items)[k] == (items[i].0, d));
                }
            }
        }
        assert forall|n: String| spec_succeeded(items).contains(n) implies exists|i: int|
            0 <= i < items.len() && items[i].0 == n && items[i].1 is Success by {
            let k = choose|k: int|
                0 <= k < spec_succeeded(items).len() && spec_succeeded(items)[k] == n;
            if items[0].1 is Success && k == 0 {
                assert(items[0].0 == n && items[0].1 is Success);
            } else {
                let kr = if items[0].1 is Success {
                    k - 1
                } else {
                    k
                };
                assert(spec_succeeded(rest)[kr] == n);
                assert(spec_succeeded(rest).contains(n));
                let j = choose|j: int|
                    0 <= j < rest.len() && rest[j].0 == n && rest[j].1 is Success;
                assert(items[j + 1] == rest[j]);
            }
        }
        assert forall|p: (String, String)| spec_failed(items).contains(p) implies exists|i: int|
            0 <= i < items.len() && items[i].0 == p.0 && items[i].1 == OperationOutcome::Failure(
                p.1,
            ) by {
            let k = choose|k: int| 0 <= k < spec_failed(items).len() && spec_failed(items)[k] == p;
            if items[0].1 is Failure && k == 0 {
                assert(items[0].0 == p.0 && items[0].1 == OperationOutcome::Failure(p.1));
            } else {
                let kr = if items[0].1 is Failure {
                    k - 1
                } else {
                    k
                };
                assert(spec_failed(rest)[kr] == p);
                assert(spec_failed(rest).contains(p));
                let j = choose|j: int|
                    0 <= j < rest.len() && rest[j].0 == p.0 && rest[j].1
                        == OperationOutcome::Failure(p.1);
                assert(items[j + 1] == rest[j]);
            }
        }
    }
}

impl BatchReport {
    /// An empty report.
    pub fn new() -> (r: BatchReport)
        ensures
            r.items@ == Seq::<(String, OperationOutcome)>::empty(),
    {
        BatchReport { items: Vec::new() }
    }

    /// The number of recorded items.
    pub fn len(&self) -> (r: usize)
        ensures
            r == self.items@.len(),
    {
        self.items.len()
    }

    /// The identities whose operation succeeded, in order.
    #[verifier::loop_isolation(false)]
    pub fn succeeded(&self) -> (r: Vec<String>)
        ensures
            r@ == spec_succeeded(self.items@),
    {
        let items = &self.items;
        let mut out: Vec<String> = Vec::new();
        let mut i: usize = 0;
        proof {
            assert(items@.skip(0) =~= items@);
            assert(out@ + spec_succeeded(items@) =~= spec_succeeded(items@));
        }
        while i < items.len()
            invariant
                0 <= i <= items@.len(),
                spec_succeeded(items@) == out@ + spec_succeeded(items@.skip(i as int)),
            decreases items@.len() - i,
        {
            proof {
                assert(items@.skip(i as int).first() == items@[i as int]);
                assert(items@.skip(i as int).drop_first() =~= items@.skip(i + 1));
            }
            match &items[i].1 {
                OperationOutcome::Success(_) => {
                    let ghost prev = out@;
                    out.push(items[i].0.clone());
                    proof {
                        assert(prev + (seq![items@[i as int].0] + spec_succeeded(
                            items@.skip(i + 1),
                        )) =~= out@ + spec_succeeded(items@.skip(i + 1)));
                    }
                },
                OperationOutcome::Failure(_) => {},
            }
            i += 1;
        }
        proof {
            assert(items@.skip(items@.len() as int) =~= Seq::<(String, OperationOutcome)>::empty());
            assert(out@ + Seq::<String>::empty() =~= out@);
        }
        out
    }

    /// The identities whose operation failed, each with its failure detail,
    /// in order.
    #[verifier::loop_isolation(false)]
    pub fn failed(&self) -> (r: Vec<(String, String)>)
        ensures
            r@ == spec_failed(self.items@),
    {
        let items = &self.items;
        let mut out: Vec<(String, String)> = Vec::new();
        let mut i: usize = 0;
        proof {
            assert(items@.skip(0) =~= items@);
            assert(out@ + spec_failed(items@) =~= spec_failed(items@));
        }
        while i < items.len()
            invariant
                0 <= i <= items@.len(),
                spec_failed(items@) == out@ + spec_failed(items@.skip(i as int)),
            decreases items@.len() - i,
        {
            proof {
                assert(items@.skip(i as int).first() == items@[i as int]);
                assert(items@.skip(i as int).drop_first() =~= items@.skip(i + 1));
            }
            match &items[i].1 {
                OperationOutcome::Failure(detail) => {
                    let ghost prev = out@;
                    out.push((items[i].0.clone(), detail.clone()));
                    proof {
                        assert(prev + (seq![
                            (items@[i as int].0, items@[i as int].1->Failure_0),
                        ] + spec_failed(items@.skip(i + 1))) =~= out@ + spec_failed(
                            items@.skip(i + 1),
                        ));
                    }
                },
                OperationOutcome::Success(_) => {},
            }
            i += 1;
        }
        proof {
            assert(items@.skip(items@.len() as int) =~= Seq::<(String, OperationOutcome)>::empty());
            assert(out@ + Seq::<(String, String)>::empty() =~= out@);
        }
        out
    }
}

/// Installs one named formula: a single executor invocation of the install
/// subcommand. Nothing is assumed of the outcome.
pub fn install<R: BrewRunner>(runner: &mut R, name: &str) -> OperationOutcome {
    let cmd = install_command(name);
    runner.run(&cmd)
}

/// Uninstalls one named formula: a single executor invocation.
pub fn uninstall<R: BrewRunner>(runner: &mut R, name: &str) -> OperationOutcome {
    let cmd = uninstall_command(name);
    runner.run(&cmd)
}

/// Upgrades one named formula: a single executor invocation.
pub fn upgrade_one<R: BrewRunner>(runner: &mut R, name: &str) -> OperationOutcome {
    let cmd = upgrade_command(Some(name));
    runner.run(&cmd)
}

/// Upgrades everything outdated in one executor invocation, with no identity
/// filter.
pub fn upgrade_all<R: BrewRunner>(runner: &mut R) -> OperationOutcome {
    let cmd = upgrade_command(None);
    runner.run(&cmd)
}

/// Upgrades the given identities strictly one after another, one invocation
/// per identity, recording every outcome: a failed item never aborts the
/// remainder. After each item the runner observes `(identity, position,
/// total)` progress. The report pairs each submitted identity, in order, with
/// its outcome; an empty submission yields an empty report with no
/// invocation.
#[verifier::loop_isolation(false)]
pub fn upgrade_many<R: BrewRunner>(runner: &mut R, names: &Vec<String>) -> (r: BatchReport)
    ensures
        r.items@.len() == names@.len(),
        forall|i: int| 0 <= i < names@.len() ==> #[trigger] r.items@[i].0 == names@[i],
{
    let total = names.len();
    let mut items: Vec<(String, OperationOutcome)> = Vec::new();
    let mut i: usize = 0;
    while i < total
        invariant
            0 <= i <= total,
            items@.len() == i,
            forall|j: int| 0 <= j < i ==> #[trigger] items@[j].0 == names@[j],
        decreases total - i,
    {
        let cmd = upgrade_command(Some(names[i].as_str()));
        let out = runner.run(&cmd);
        items.push((names[i].clone(), out));
        runner.progress(names[i].as_str(), i + 1, total);
        i += 1;
    }
    BatchReport { items }
}

/// Whether some string of `names` has the characters `name`.
pub open spec fn has_name(names: Seq<String>, name: Seq<char>) -> bool {
    exists|j: int| 0 <= j < names.len() && names[j]@ == name
}

/// The identities of `all` that did not succeed, in order: the set a caller
/// re-offers after a batch, since failed items stay outdated.
pub open spec fn spec_remaining(all: Seq<String>, succeeded: Seq<String>) -> Seq<String>
    decreases all.len(),
{
    if all.len() == 0 {
        Seq::<String>::empty()
    } else {
        let rest = spec_remaining(all.drop_first(), succeeded);
        if has_name(succeeded, all.first()@) {
            rest
        } else {
            seq![all.first()] + rest
        }
    }
}

/// Whether `names` holds a string with the characters of `name`.
fn contains_name(names: &Vec<String>, name: &str) -> (r: bool)
    ensures
        r == has_name(names@, name@),
{
    let mut j: usize = 0;
    while j < names.len()
        invariant
            0 <= j <= names@.len(),
            forall|k: int| 0 <= k < j ==> names@[k]@ != name@,
        decreases names@.len() - j,
    {
        if crate::json::str_eq(names[j].as_str(), name) {
            return true;
        }
        j += 1;
    }
    false
}

/// The submitted identities that are still outdated after a batch: those not
/// among the succeeded ones, in submission order.
#[verifier::loop_isolation(false)]
pub fn remaining_after(all: &Vec<String>, succeeded: &Vec<String>) -> (r: Vec<String>)
    ensures
        r@ == spec_remaining(all@, succeeded@),
{
    let mut out: Vec<String> = Vec::new();
    let mut i: usize = 0;
    proof {
        assert(all@.skip(0) =~= all@);
        assert(out@ + spec_remaining(all@, succeeded@) =~= spec_remaining(all@, succeeded@));
    }
    while i < all.len()
        invariant
            0 <= i <= all@.len(),
            spec_remaining(all@, succeeded@) == out@ + spec_remaining(
                all@.skip(i as int),
                succeeded@,
            ),
        decreases all@.len() - i,
    {
        proof {
            assert(all@.skip(i as int).first() == all@[i as int]);
            assert(all@.skip(i as int).drop_first() =~= all@.skip(i + 1));
        }
        if !contains_name(succeeded, all[i].as_str()) {
            let ghost prev = out@;
            out.push(all[i].clone());
            proof {
                assert(prev + (seq![all@[i as int]] + spec_remaining(
                    all@.skip(i + 1),
                    succeeded@,
                )) =~= out@ + spec_remaining(all@.skip(i + 1), succeeded@));
            }
        }
        i += 1;
    }
    proof {
        assert(all@.skip(all@.len() as int) =~= Seq::<String>::empty());
        assert(out@ + Seq::<String>::empty() =~= out@);
    }
    out
}

/// The identities of the failed items, in order.
pub open spec fn spec_failed_names(items: Seq<(String, OperationOutcome)>) -> Seq<String> {
    spec_failed(items).map_values(|p: (String, String)| p.0)
}

proof fn lemma_remaining_drop_succ(all: Seq<String>, x: String, succ: Seq<String>)
    requires
        forall|k: int| 0 <= k < all.len() ==> #[trigger] all[k]@ != x@,
    ensures
        spec_remaining(all, seq![x] + succ) == spec_remaining(all, succ),
    decreases all.len(),
{
    if all.len() > 0 {
        lemma_remaining_drop_succ(all.drop_first(), x, succ);
        let n = all.first()@;
        if has_name(succ, n) {
            let j = choose|j: int| 0 <= j < succ.len() && succ[j]@ == n;
            assert((seq![x] + succ)[j + 1]@ == n);
            assert(has_name(seq![x] + succ, n));
        }
        if has_name(seq![x] + succ, n) {
            let j = choose|j: int| 0 <= j < (seq![x] + succ).len() && (seq![x] + succ)[j]@ == n;
            assert(j != 0);
            assert(succ[j - 1]@ == n);
            assert(has_name(succ, n));
        }
    }
}

/// After a batch over pairwise-distinct identities, the still-outdated set,
/// submitted minus succeeded, is exactly the sequence of failed identities in
/// submission order: failed items remain outdated and are re-offered, never
/// silently dropped.
pub proof fn lemma_remaining_after_batch(items: Seq<(String, OperationOutcome)>)
    requires
        forall|i: int, j: int| 0 <= i < j < items.len() ==> items[i].0@ != items[j].0@,
    ensures
        spec_remaining(
            items.map_values(|p: (String, OperationOutcome)| p.0),
            spec_succeeded(items),
        ) == spec_failed_names(items),
    decreases items.len(),
{
    let all = items.map_values(|p: (String, OperationOutcome)| p.0);
    if items.len() == 0 {
        assert(all =~= Seq::<String>::empty());
        assert(spec_failed_names(items) =~= Seq::<String>::empty());
    } else {
        let x = items.first();
        let rest = items.drop_first();
        assert(forall|i: int| 0 <= i < rest.len() ==> #[trigger] rest[i] == items[i + 1]);
        assert forall|i: int, j: int| 0 <= i < j < rest.len() implies rest[i].0@ != rest[j].0@ by {
            assert(rest[i] == items[i + 1] && rest[j] == items[j + 1]);
        }
        lemma_remaining_after_batch(rest);
        lemma_batch_partition(rest);
        let all_rest = rest.map_values(|p: (String, OperationOutcome)| p.0);
        assert(all.first() == x.0);
        assert(all.drop_first() =~= all_rest);
        let succ_rest = spec_succeeded(rest);
        assert forall|j: int| 0 <= j < succ_rest.len() implies succ_rest[j]@ != x.0@ by {
            assert(succ_rest.contains(succ_rest[j]));
            let i = choose|i: int|
                0 <= i < rest.len() && rest[i].0 == succ_rest[j] && rest[i].1 is Success;
            assert(rest[i] == items[i + 1]);
            assert(items[0].0@ != items[i + 1].0@);
        }
        assert forall|k: int| 0 <= k < all_rest.len() implies #[trigger] all_rest[k]@ != x.0@ by {
            assert(all_rest[k] == rest[k].0);
            assert(rest[k] == items[k + 1]);
        }
        if x.1 is Success {
            assert(spec_succeeded(items) == seq![x.0] + succ_rest);
            assert((seq![x.0] + succ_rest)[0] == x.0);
            assert(has_name(seq![x.0] + succ_rest, x.0@));
            assert(spec_remaining(all, spec_succeeded(items)) == spec_remaining(
                all.drop_first(),
                spec_succeeded(items),
            ));
            lemma_remaining_drop_succ(all_rest, x.0, succ_rest);
            assert(spec_failed(items) == spec_failed(rest));
        } else {
            let d = x.1->Failure_0;
            assert(spec_succeeded(items) == succ_rest);
            assert(!has_name(succ_rest, x.0@)) by {
                if has_name(succ_rest, x.0@) {
                    let j = choose|j: int| 0 <= j < succ_rest.len() && succ_rest[j]@ == x.0@;
                    assert(succ_rest[j]@ != x.0@);
                }
            }
            assert(spec_remaining(all, succ_rest) == seq![x.0] + spec_remaining(
                all.drop_first(),
                succ_rest,
            ));
            assert(spec_failed(items) == seq![(x.0, d)] + spec_failed(rest));
            assert(spec_failed_names(items) =~= seq![x.0] + spec_failed_names(rest));
        }
    }
}

/// A runner that hands back scripted outcomes in order, for exercising the
/// coordinator without spawning processes. It counts its invocations and
/// records every progress notice; an exhausted script fails further calls.
pub struct ScriptedRunner {
    pub script: Vec<OperationOutcome>,
    pub next: usize,
    pub calls: usize,
    pub notices: Vec<(String, usize, usize)>,
}

impl ScriptedRunner {
    /// A runner that will hand back the given outcomes in order.
    pub fn new(script: Vec<OperationOutcome>) -> (r: ScriptedRunner)
        ensures
            r.script@ == script@,
            r.next == 0,
            r.calls == 0,
            r.notices@ == Seq::<(String, usize, usize)>::empty(),
    {
        ScriptedRunner { script, next: 0, calls: 0, notices: Vec::new() }
    }
}

impl BrewRunner for ScriptedRunner {
    fn run(&mut self, cmd: &BrewCommand) -> OperationOutcome {
        if self.calls < usize::MAX {
            self.calls = self.calls + 1;
        }
        if self.next < self.script.len() {
            let out = self.script[self.next].clone();
            self.next = self.next + 1;
            out
        } else {
            OperationOutcome::Failure("scripted outcomes exhausted".to_owned())
        }
    }

    fn progress(&mut self, name: &str, position: usize, total: usize) {
        self.notices.push((name.to_owned(), position, total));
    }
}

} // verus!
