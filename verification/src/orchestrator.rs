//! Fan-out over repositories and outcome aggregation.
//!
//! Every configured repository gets its own workflow run; one repository's
//! failure neither changes nor aborts any other repository's run. The
//! functions here are the deterministic core of that contract: one workflow
//! replayed per repository over that repository's own events, one outcome per
//! repository, and a summary counting successes and failures. The unverified
//! shell runs the workflows concurrently and joins them all before it hands
//! their event logs to this aggregation.

use vstd::prelude::*;

use crate::config::JSONPattern;
use crate::config::JSONPatternView;
use crate::config::JSONRepo;
use crate::config::JSONRepoView;
use crate::workflow::ClientEvent;
use crate::workflow::ClientEventView;
use crate::workflow::WorkflowError;
use crate::workflow::WorkflowErrorView;
use crate::workflow::WorkflowState;
use crate::workflow::WorkflowStateView;
use crate::workflow::drive_workflow;
use crate::workflow::spec_drive;

verus! {

/// The terminal record of one repository's workflow: which repository, did
/// it reach the successful terminal state, and on failure why.
pub struct WorkflowOutcome {
    pub repository: JSONRepo,
    pub success: bool,
    pub error_detail: Option<WorkflowError>,
}

/// A view of a [`WorkflowOutcome`].
pub struct WorkflowOutcomeView {
    pub repository: JSONRepoView,
    pub success: bool,
    pub error_detail: Option<WorkflowErrorView>,
}

impl View for WorkflowOutcome {
    type V = WorkflowOutcomeView;

    open spec fn view(&self) -> WorkflowOutcomeView {
        WorkflowOutcomeView {
            repository: self.repository@,
            success: self.success,
            error_detail: self.error_detail.deep_view(),
        }
    }
}

impl DeepView for WorkflowOutcome {
    type V = WorkflowOutcomeView;

    open spec fn deep_view(&self) -> WorkflowOutcomeView {
        self.view()
    }
}

/// The outcome a terminal (or abandoned) state yields: success exactly on
/// the successful terminal state, and the failure's reason when there is
/// one.
pub open spec fn spec_outcome(repo: JSONRepoView, state: WorkflowStateView) -> WorkflowOutcomeView {
    WorkflowOutcomeView {
        repository: repo,
        success: state is BranchCreated,
        error_detail: match state {
            WorkflowStateView::Failed { error } => Some(error),
            _ => None,
        },
    }
}

/// The outcome of one repository's whole workflow over its event sequence.
pub open spec fn spec_run_one(
    repo: JSONRepoView,
    intent: JSONPatternView,
    version: Seq<char>,
    events: Seq<ClientEventView>,
) -> WorkflowOutcomeView {
    spec_outcome(repo, spec_drive(WorkflowStateView::Start, events, repo, intent, version))
}

/// Turns the state a workflow ended in into that repository's outcome
/// record.
pub fn finish_workflow(repo: &JSONRepo, state: WorkflowState) -> (r: WorkflowOutcome)
    ensures
        r@ == spec_outcome(repo@, state@),
{
    match state {
        WorkflowState::BranchCreated => WorkflowOutcome {
            repository: repo.duplicate(),
            success: true,
            error_detail: None,
        },
        WorkflowState::Failed { error } => WorkflowOutcome {
            repository: repo.duplicate(),
            success: false,
            error_detail: Some(error),
        },
        _ => WorkflowOutcome { repository: repo.duplicate(), success: false, error_detail: None },
    }
}

/// One repository's workflow, replayed from start to finish over its own
/// events and turned into its outcome record.
pub fn run_workflow(
    repo: &JSONRepo,
    intent: &JSONPattern,
    version: &String,
    events: Vec<ClientEvent>,
) -> (r: WorkflowOutcome)
    ensures
        r@ == spec_run_one(repo@, intent@, version@, events.deep_view()),
{
    let ghost ev = events.deep_view();
    let state = drive_workflow(repo, intent, version, events);
    finish_workflow(repo, state)
}

/// One workflow per configured repository, each over its own event sequence:
/// exactly one outcome per repository, in the repositories' order, and every
/// repository's outcome a function of that repository's own events alone —
/// no repository's failure reaches any other's outcome.
pub fn run_all(
    repos: &Vec<JSONRepo>,
    intent: &JSONPattern,
    version: &String,
    scripts: Vec<Vec<ClientEvent>>,
) -> (outcomes: Vec<WorkflowOutcome>)
    requires
        scripts.len() == repos.len(),
    ensures
        outcomes.len() == repos.len(),
        forall|i: int|
            0 <= i < repos.len() ==> outcomes.deep_view()[i] == spec_run_one(
                repos.deep_view()[i],
                intent@,
                version@,
                scripts.deep_view()[i],
            ),
{
    let ghost all_scripts = scripts.deep_view();
    let mut remaining = scripts;
    let mut outcomes: Vec<WorkflowOutcome> = Vec::new();
    let mut i: usize = 0;
    while i < repos.len()
        invariant
            0 <= i <= repos.len(),
            remaining.len() == repos.len() - i,
            all_scripts.len() == repos.len(),
            remaining.deep_view() =~= all_scripts.skip(i as int),
            outcomes.len() == i,
            forall|k: int|
                0 <= k < i ==> outcomes.deep_view()[k] == spec_run_one(
                    repos.deep_view()[k],
                    intent@,
                    version@,
                    all_scripts[k],
                ),
        decreases repos.len() - i,
    {
        let ghost before = remaining.deep_view();
        let script = remaining.remove(0);
        assert(remaining.deep_view() =~= before.drop_first());
        assert(script.deep_view() == before[0]);
        assert(before[0] == all_scripts.skip(i as int)[0]);
        assert(script.deep_view() == all_scripts[i as int]);
        let outcome = run_workflow(&repos[i], intent, version, script);
        let ghost outcomes_before = outcomes.deep_view();
        outcomes.push(outcome);
        assert(outcomes.deep_view() =~= outcomes_before.push(outcome@));
        assert(remaining.deep_view() =~= all_scripts.skip(i + 1));
        i = i + 1;
    }
    outcomes
}

/// How many of the outcomes are successes.
pub open spec fn count_successes(outcomes: Seq<WorkflowOutcomeView>) -> int
    decreases outcomes.len(),
{
    if outcomes.len() == 0 {
        0
    } else {
        count_successes(outcomes.drop_last()) + if outcomes.last().success {
            1int
        } else {
            0int
        }
    }
}

/// The aggregate report of one invocation: how many repositories were
/// processed, how many reached full success, and how many failed.
pub struct RunSummary {
    pub total: usize,
    pub successes: usize,
    pub failures: usize,
}

/// Counts the outcomes: the total equals the number of outcomes, the
/// successes count exactly the successful ones, and every outcome is either
/// a success or a failure.
pub fn summarize(outcomes: &Vec<WorkflowOutcome>) -> (s: RunSummary)
    ensures
        s.total == outcomes.len(),
        s.successes == count_successes(outcomes.deep_view()),
        s.failures == s.total - s.successes,
{
    let ghost all = outcomes.deep_view();
    let mut successes: usize = 0;
    let mut i: usize = 0;
    while i < outcomes.len()
        invariant
            0 <= i <= outcomes.len(),
            all == outcomes.deep_view(),
            all.len() == outcomes.len(),
            successes <= i,
            successes == count_successes(all.take(i as int)),
        decreases outcomes.len() - i,
    {
        assert(all.take(i + 1).drop_last() =~= all.take(i as int));
        assert(all.take(i + 1).last() == all[i as int]);
        if outcomes[i].success {
            successes = successes + 1;
        }
        i = i + 1;
    }
    assert(all.take(outcomes.len() as int) =~= all);
    RunSummary {
        total: outcomes.len(),
        successes,
        failures: outcomes.len() - successes,
    }
}

/// When every outcome is a success, the success count is the whole count.
pub proof fn lemma_count_all_successes(outcomes: Seq<WorkflowOutcomeView>)
    requires
        forall|i: int| 0 <= i < outcomes.len() ==> outcomes[i].success,
    ensures
        count_successes(outcomes) == outcomes.len(),
    decreases outcomes.len(),
{
    if outcomes.len() > 0 {
        lemma_count_all_successes(outcomes.drop_last());
    }
}

/// Failure isolation over the outcome list: when exactly one repository's
/// outcome is a failure, the summary counts exactly one failure and every
/// other repository a success.
pub proof fn lemma_single_failure_count(outcomes: Seq<WorkflowOutcomeView>, k: int)
    requires
        0 <= k < outcomes.len(),
        forall|i: int| 0 <= i < outcomes.len() ==> (outcomes[i].success <==> i != k),
    ensures
        count_successes(outcomes) == outcomes.len() - 1,
    decreases outcomes.len(),
{
    let prefix = outcomes.drop_last();
    if k == outcomes.len() - 1 {
        lemma_count_all_successes(prefix);
    } else {
        lemma_single_failure_count(prefix, k);
    }
}

/// Failure isolation end to end: when one repository's own events lead its
/// workflow to failure and every other repository's events lead to the
/// successful terminal state, the outcomes hold exactly one failure — that
/// repository's — and a success for every other repository.
pub proof fn lemma_failure_isolation(
    repos: Seq<JSONRepoView>,
    intent: JSONPatternView,
    version: Seq<char>,
    scripts: Seq<Seq<ClientEventView>>,
    outcomes: Seq<WorkflowOutcomeView>,
    k: int,
)
    requires
        outcomes.len() == repos.len(),
        scripts.len() == repos.len(),
        forall|i: int|
            0 <= i < repos.len() ==> outcomes[i] == spec_run_one(
                repos[i],
                intent,
                version,
                scripts[i],
            ),
        0 <= k < repos.len(),
        forall|i: int|
            0 <= i < repos.len() && i != k ==> spec_drive(
                WorkflowStateView::Start,
                scripts[i],
                repos[i],
                intent,
                version,
            ) is BranchCreated,
        !(spec_drive(WorkflowStateView::Start, scripts[k], repos[k], intent, version)
            is BranchCreated),
    ensures
        count_successes(outcomes) == outcomes.len() - 1,
        forall|i: int| 0 <= i < repos.len() && i != k ==> outcomes[i].success,
        !outcomes[k].success,
{
    assert forall|i: int| 0 <= i < outcomes.len() implies (outcomes[i].success <==> i != k) by {
        assert(outcomes[i] == spec_run_one(repos[i], intent, version, scripts[i]));
    }
    lemma_single_failure_count(outcomes, k);
}

} // verus!
