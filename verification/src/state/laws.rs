//! What holds of the engine whatever it is given: proved of the model that
//! the engine's steps are stated over.

use crate::config::ConfigView;
use crate::error::ErrorView;
use crate::query::{IssueLabelView, RequestView, ResponseView, UpdatedIssueView};
use crate::repo_config::RepoConfigView;
use crate::state::model::{
    absorb_decision_issue, absorb_decision_issues, begin, complete, missing_loaders,
    plan_ensure_label, plan_file_decision, process_comment, PlanView, StateView,
};
use crate::state::rules::{has_bug_label, latest_update};
use crate::state::snapshot::{split_version, versioned, SnapshotView, VERSION_LINE_END};
use crate::state::task::TaskView;
use crate::text::{
    decimal, lemma_decimal_nat_digits, lemma_first_occurrence_unique, lemma_parse_decimal,
    lemma_text_le_reflexive, lemma_text_le_total, lemma_text_le_transitive, occurs_at, text_le,
};
use vstd::prelude::*;

verus! {

/// A finished state stays as it is: a step neither changes it nor asks for
/// anything, and an outcome handed in changes nothing. Only scheduling the
/// polls ends that.
pub proof fn lemma_finished_is_stable(
    state: StateView,
    outcome: Result<ResponseView, ErrorView>,
    config: ConfigView,
    policy: RepoConfigView,
)
    requires
        state.is_finished(),
    ensures
        begin(state, config, policy).0 == state,
        begin(state, config, policy).1 == Ok::<Option<RequestView>, ErrorView>(None),
        complete(state, outcome, config, policy).0 == state,
        !state.with_polls().is_finished(),
{
}

/// After a step that is over, the state is finished exactly if nothing
/// waits and nothing is staged; a step that asks for a call or fails leaves
/// a task in front.
pub proof fn lemma_unfinished_while_task_in_front(
    state: StateView,
    config: ConfigView,
    policy: RepoConfigView,
)
    ensures
        begin(state, config, policy).1 != Ok::<Option<RequestView>, ErrorView>(None)
            ==> !begin(state, config, policy).0.is_finished(),
{
}

/// A task that needs the labels and the id of the repository, and finds
/// one of them absent, makes no call: it stages the loader of the labels if
/// they are absent, then the loader of the id if it is absent, then itself,
/// behind what was staged before, and changes nothing else.
pub proof fn lemma_deferral_stages_every_missing_loader(
    rest: StateView,
    name: Seq<char>,
    color: Seq<char>,
    issue_number: int,
    issue_title: Seq<char>,
    labels: Seq<Seq<char>>,
    comment_url: Seq<char>,
    resolutions: Seq<Seq<char>>,
    config: ConfigView,
)
    requires
        rest.labels is None || rest.repo_id is None,
    ensures
        ({
            let label = TaskView::EnsureLabel { name, color };
            let decision = TaskView::FileDecisionIssue {
                issue_number,
                issue_title,
                labels,
                comment_url,
                resolutions,
            };
            let loaders = missing_loaders(rest);
            &&& plan_ensure_label(rest, name, color) == (PlanView::Done {
                after: StateView { staged: rest.staged + loaders.push(label), ..rest },
            })
            &&& plan_file_decision(
                rest,
                issue_number,
                issue_title,
                labels,
                comment_url,
                resolutions,
                config,
            ) == (PlanView::Done {
                after: StateView { staged: rest.staged + loaders.push(decision), ..rest },
            })
            &&& loaders.contains(TaskView::LoadDecisionLabels) <==> rest.labels is None
            &&& loaders.contains(TaskView::LoadDecisionsRepoId) <==> rest.repo_id is None
            &&& rest.labels is None && rest.repo_id is None ==> loaders
                == seq![TaskView::LoadDecisionLabels, TaskView::LoadDecisionsRepoId]
        }),
{
    let loaders = missing_loaders(rest);
    if rest.labels is None {
        assert(loaders[0] == TaskView::LoadDecisionLabels);
    }
    if rest.repo_id is None {
        assert(loaders[loaders.len() - 1] == TaskView::LoadDecisionsRepoId);
    }
}

/// A comment's resolutions are filed once. Looking at a comment whose
/// address is in the ledger changes nothing; and of two looks at comments
/// with one address, one after the other, at most one changes the state, so
/// at most one stages the filing of a decision.
pub proof fn lemma_comment_filed_once(
    state: StateView,
    url: Seq<char>,
    first_number: int,
    first_title: Seq<char>,
    first_labels: Seq<IssueLabelView>,
    first_body: Seq<char>,
    first_policy: RepoConfigView,
    second_number: int,
    second_title: Seq<char>,
    second_labels: Seq<IssueLabelView>,
    second_body: Seq<char>,
    second_policy: RepoConfigView,
)
    ensures
        ({
            let once = process_comment(
                state,
                first_number,
                first_title,
                first_labels,
                url,
                first_body,
                first_policy,
            );
            let twice = process_comment(
                once,
                second_number,
                second_title,
                second_labels,
                url,
                second_body,
                second_policy,
            );
            &&& state.handled_comments.contains(url) ==> once == state
            &&& once == state || twice == once
            &&& once != state ==> once.handled_comments.contains(url)
        }),
{
}

/// A bug is asked for a decision issue once. Of two looks at issues with
/// one number, one after the other, at most one changes the state.
pub proof fn lemma_decision_issue_filed_once(
    state: StateView,
    first: UpdatedIssueView,
    first_policy: RepoConfigView,
    second: UpdatedIssueView,
    second_policy: RepoConfigView,
)
    requires
        first.issue_number == second.issue_number,
    ensures
        ({
            let once = absorb_decision_issue(state, first, first_policy);
            let twice = absorb_decision_issue(once.0, second, second_policy);
            &&& state.handled_issues.contains(first.issue_number) ==> once.0 == state
            &&& once.0 == state || twice.0 == once.0
        }),
{
}

/// Looking at decision issues only adds to the ledger, and on success every
/// issue that asks for a bug is in it afterwards.
pub proof fn lemma_decision_issues_enter_ledger(
    state: StateView,
    issues: Seq<UpdatedIssueView>,
    policy: RepoConfigView,
)
    ensures
        state.handled_issues.subset_of(
            absorb_decision_issues(state, issues, policy).0.handled_issues,
        ),
        absorb_decision_issues(state, issues, policy).1 is None ==> forall|i: int|
            0 <= i < issues.len() && has_bug_label((#[trigger] issues[i]).issue_labels)
                ==> absorb_decision_issues(state, issues, policy).0.handled_issues.contains(
                issues[i].issue_number,
            ),
    decreases issues.len(),
{
    if issues.len() > 0 {
        let front = issues.drop_last();
        lemma_decision_issues_enter_ledger(state, front, policy);
        let before = absorb_decision_issues(state, front, policy);
        if before.1 is None {
            let after = absorb_decision_issue(before.0, issues.last(), policy);
            if after.1 is None {
                assert forall|i: int|
                    0 <= i < issues.len() && has_bug_label(
                        (#[trigger] issues[i]).issue_labels,
                    ) implies after.0.handled_issues.contains(issues[i].issue_number) by {
                    if i < front.len() {
                        assert(front[i] == issues[i]);
                    }
                }
            }
        }
    }
}

/// Decision issues that are all in the ledger, or do not ask for a bug,
/// change nothing.
pub proof fn lemma_handled_issues_change_nothing(
    state: StateView,
    issues: Seq<UpdatedIssueView>,
    policy: RepoConfigView,
)
    requires
        forall|i: int|
            0 <= i < issues.len() ==> state.handled_issues.contains(
                (#[trigger] issues[i]).issue_number,
            ) || !has_bug_label(issues[i].issue_labels),
    ensures
        absorb_decision_issues(state, issues, policy) == (state, None::<ErrorView>),
    decreases issues.len(),
{
    if issues.len() > 0 {
        let front = issues.drop_last();
        assert forall|i: int| 0 <= i < front.len() implies state.handled_issues.contains(
            (#[trigger] front[i]).issue_number,
        ) || !has_bug_label(front[i].issue_labels) by {}
        lemma_handled_issues_change_nothing(state, front, policy);
    }
}

/// A batch of decision issues that has been taken in stages nothing when it
/// comes in again: no bug is asked for twice, whatever the policy has
/// become.
pub proof fn lemma_decision_batch_filed_once(
    state: StateView,
    issues: Seq<UpdatedIssueView>,
    first_policy: RepoConfigView,
    second_policy: RepoConfigView,
)
    requires
        absorb_decision_issues(state, issues, first_policy).1 is None,
    ensures
        absorb_decision_issues(
            absorb_decision_issues(state, issues, first_policy).0,
            issues,
            second_policy,
        ) == (absorb_decision_issues(state, issues, first_policy).0, None::<ErrorView>),
{
    lemma_decision_issues_enter_ledger(state, issues, first_policy);
    lemma_handled_issues_change_nothing(
        absorb_decision_issues(state, issues, first_policy).0,
        issues,
        second_policy,
    );
}

/// The latest update is the greatest of the watermark and the times of the
/// issues: it is one of them, and none of them is later.
pub proof fn lemma_latest_update_is_greatest(watermark: Seq<char>, issues: Seq<UpdatedIssueView>)
    ensures
        text_le(watermark, latest_update(watermark, issues)),
        forall|i: int|
            0 <= i < issues.len() ==> text_le(
                (#[trigger] issues[i]).updated_at,
                latest_update(watermark, issues),
            ),
        latest_update(watermark, issues) == watermark || exists|i: int|
            0 <= i < issues.len() && latest_update(watermark, issues) == (
            #[trigger] issues[i]).updated_at,
    decreases issues.len(),
{
    if issues.len() == 0 {
        lemma_text_le_reflexive(watermark);
    } else {
        let front = issues.drop_last();
        let last = issues.last();
        let before = latest_update(watermark, front);
        let after = latest_update(watermark, issues);
        lemma_latest_update_is_greatest(watermark, front);
        lemma_text_le_total(before, last.updated_at);
        lemma_text_le_reflexive(before);
        lemma_text_le_reflexive(last.updated_at);
        lemma_text_le_transitive(watermark, before, after);
        assert forall|i: int| 0 <= i < issues.len() implies text_le(
            (#[trigger] issues[i]).updated_at,
            after,
        ) by {
            if i < front.len() {
                assert(front[i] == issues[i]);
                lemma_text_le_transitive(issues[i].updated_at, before, after);
            }
        }
    }
}

/// Looking at decision issues touches only the ledger of decision issues
/// and the staged tasks, and what was staged before stays in front of what
/// is staged now.
pub proof fn lemma_decision_issues_keep_the_rest(
    state: StateView,
    issues: Seq<UpdatedIssueView>,
    policy: RepoConfigView,
)
    ensures
        ({
            let after = absorb_decision_issues(state, issues, policy).0;
            &&& after.wg_watermark == state.wg_watermark
            &&& after.decisions_watermark == state.decisions_watermark
            &&& after.handled_comments == state.handled_comments
            &&& after.labels == state.labels
            &&& after.repo_id == state.repo_id
            &&& after.pending == state.pending
            &&& state.staged.is_prefix_of(after.staged)
        }),
    decreases issues.len(),
{
    if issues.len() > 0 {
        lemma_decision_issues_keep_the_rest(state, issues.drop_last(), policy);
    }
}

/// The ledgers only grow: what a step has entered stays entered, whatever
/// the steps after it are given.
pub proof fn lemma_ledgers_only_grow(
    state: StateView,
    outcome: Result<ResponseView, ErrorView>,
    config: ConfigView,
    policy: RepoConfigView,
)
    ensures
        state.handled_comments.subset_of(begin(state, config, policy).0.handled_comments),
        state.handled_issues.subset_of(begin(state, config, policy).0.handled_issues),
        state.handled_comments.subset_of(
            complete(state, outcome, config, policy).0.handled_comments,
        ),
        state.handled_issues.subset_of(complete(state, outcome, config, policy).0.handled_issues),
{
    if outcome is Ok && state.pending.len() > 0 {
        let task = state.pending[0];
        let response = outcome->Ok_0;
        match (task, response) {
            (TaskView::PollDecisionIssues { since }, ResponseView::UpdatedIssues { issues }) => {
                lemma_decision_issues_keep_the_rest(state.without_front(), issues, policy);
                lemma_decision_issues_enter_ledger(state.without_front(), issues, policy);
            },
            _ => {},
        }
    }
}

/// No step moves a watermark back: neither the beginning of a step nor its
/// end, whatever the outcome.
pub proof fn lemma_watermarks_never_decrease(
    state: StateView,
    outcome: Result<ResponseView, ErrorView>,
    config: ConfigView,
    policy: RepoConfigView,
)
    ensures
        begin(state, config, policy).0.wg_watermark == state.wg_watermark,
        begin(state, config, policy).0.decisions_watermark == state.decisions_watermark,
        text_le(state.wg_watermark, complete(state, outcome, config, policy).0.wg_watermark),
        text_le(
            state.decisions_watermark,
            complete(state, outcome, config, policy).0.decisions_watermark,
        ),
{
    lemma_text_le_reflexive(state.wg_watermark);
    lemma_text_le_reflexive(state.decisions_watermark);
    if outcome is Ok && state.pending.len() > 0 {
        let task = state.pending[0];
        let response = outcome->Ok_0;
        let rest = state.without_front();
        match (task, response) {
            (TaskView::PollWGIssues { since }, ResponseView::UpdatedIssues { issues }) => {
                lemma_latest_update_is_greatest(state.wg_watermark, issues);
            },
            (TaskView::PollDecisionIssues { since }, ResponseView::UpdatedIssues { issues }) => {
                lemma_decision_issues_keep_the_rest(rest, issues, policy);
                lemma_latest_update_is_greatest(state.decisions_watermark, issues);
            },
            _ => {},
        }
    }
}

/// After a poll of the working group's tracker has been taken in, the
/// watermark is the greatest of the old watermark and the times of the
/// issues that came in.
pub proof fn lemma_wg_watermark_is_latest(
    state: StateView,
    since: Seq<char>,
    issues: Seq<UpdatedIssueView>,
    config: ConfigView,
    policy: RepoConfigView,
)
    requires
        state.pending.len() > 0,
        state.pending[0] == (TaskView::PollWGIssues { since }),
    ensures
        complete(
            state,
            Ok(ResponseView::UpdatedIssues { issues }),
            config,
            policy,
        ).0.wg_watermark == latest_update(state.wg_watermark, issues),
{
}

/// After a poll of the decisions tracker has been taken in without
/// failure, the watermark is the greatest of the old watermark and the
/// times of the issues that came in; after a failure it is the old one.
pub proof fn lemma_decisions_watermark_is_latest(
    state: StateView,
    since: Seq<char>,
    issues: Seq<UpdatedIssueView>,
    config: ConfigView,
    policy: RepoConfigView,
)
    requires
        state.pending.len() > 0,
        state.pending[0] == (TaskView::PollDecisionIssues { since }),
    ensures
        ({
            let after = complete(
                state,
                Ok(ResponseView::UpdatedIssues { issues }),
                config,
                policy,
            );
            after.0.decisions_watermark == if after.1 is Ok {
                latest_update(state.decisions_watermark, issues)
            } else {
                state.decisions_watermark
            }
        }),
{
    lemma_decision_issues_keep_the_rest(state.without_front(), issues, policy);
}

/// What does not outlast a run is forgotten and nothing else: the state
/// restored from a snapshot of a state has that state's queue, staged
/// tasks, ledgers and watermarks, and has neither labels nor the id of the
/// repository.
pub proof fn lemma_snapshot_round_trip(state: StateView, snapshot: SnapshotView)
    requires
        snapshot.restored() == state.persisted(),
    ensures
        snapshot.restored().pending == state.pending,
        snapshot.restored().staged == state.staged,
        snapshot.restored().handled_comments == state.handled_comments,
        snapshot.restored().handled_issues == state.handled_issues,
        snapshot.restored().wg_watermark == state.wg_watermark,
        snapshot.restored().decisions_watermark == state.decisions_watermark,
        snapshot.restored().labels is None,
        snapshot.restored().repo_id is None,
        snapshot.restored().is_finished() == state.is_finished(),
{
}

/// A snapshot file gives back the version and the document that it was
/// written from.
pub proof fn lemma_versioned_round_trip(version: u32, document: Seq<char>)
    ensures
        split_version(versioned(version, document)) == Ok::<(u32, Seq<char>), ErrorView>(
            (version, document),
        ),
{
    reveal_strlit("\n");
    let number = decimal(version as int);
    let contents = versioned(version, document);
    let at = number.len() as int;
    lemma_decimal_nat_digits(version as nat);
    lemma_parse_decimal(version);
    assert(contents.subrange(at, at + 1) =~= VERSION_LINE_END@);
    assert forall|j: int| 0 <= j < at implies !occurs_at(contents, VERSION_LINE_END@, j) by {
        if occurs_at(contents, VERSION_LINE_END@, j) {
            assert(contents.subrange(j, j + 1)[0] == contents[j]);
        }
    }
    lemma_first_occurrence_unique(contents, VERSION_LINE_END@, at);
    assert(contents.take(at) =~= number);
    assert(contents.skip(at + 1) =~= document);
}

} // verus!
