//! The engine as mathematics: what a state is, what each task asks for when
//! its turn comes, and what each answer makes of the state.

use crate::config::ConfigView;
use crate::error::ErrorView;
use crate::query::{
    IssueCommentView, IssueLabelView, KnownLabelView, RequestView, ResponseView, UpdatedIssueView,
};
use crate::repo_config::RepoConfigView;
use crate::state::rules::{
    bug_description, bug_details, decision_request, desired_labels, has_bug_label, label_ids,
    latest_update, product_component, resolutions, spec_label_name, spec_name_of, BUG_LABEL,
};
use crate::state::task::TaskView;
use crate::text::text_le;
use crate::util::{escaped_each, escaped_markdown, extracted_urls};
use vstd::prelude::*;

verus! {

/// The engine's state.
#[verifier::ext_equal]
pub struct StateView {
    /// The tasks that wait, the next one first.
    pub pending: Seq<TaskView>,
    /// The tasks that the last steps produced, in the order in which they
    /// were produced.
    pub staged: Seq<TaskView>,
    /// The addresses of the comments whose resolutions have been filed.
    pub handled_comments: Set<Seq<char>>,
    /// The numbers of the decision issues for which a bug has been asked.
    pub handled_issues: Set<int>,
    /// The labels of the decisions repository, from name to id, once loaded.
    pub labels: Option<Map<Seq<char>, Seq<char>>>,
    /// The id of the decisions repository, once loaded.
    pub repo_id: Option<Seq<char>>,
    /// The latest update seen in the working group's tracker.
    pub wg_watermark: Seq<char>,
    /// The latest update seen in the decisions tracker.
    pub decisions_watermark: Seq<char>,
}

impl StateView {
    /// Nothing waits and nothing is staged.
    pub open spec fn is_finished(self) -> bool {
        self.pending.len() == 0 && self.staged.len() == 0
    }

    /// The state with the staged tasks moved in front of the waiting ones.
    pub open spec fn merged(self) -> StateView {
        StateView { pending: self.staged + self.pending, staged: Seq::empty(), ..self }
    }

    /// The state with `tasks` staged behind what is staged already.
    pub open spec fn stage(self, tasks: Seq<TaskView>) -> StateView {
        StateView { staged: self.staged + tasks, ..self }
    }

    /// The state without the task in front.
    pub open spec fn without_front(self) -> StateView {
        StateView { pending: self.pending.drop_first(), ..self }
    }

    /// The state with `task` put in front.
    pub open spec fn with_front(self, task: TaskView) -> StateView {
        StateView { pending: seq![task] + self.pending, ..self }
    }

    /// The state with two more tasks at the end of the queue, one that polls
    /// the working group's tracker and one that polls the decisions tracker,
    /// each from its watermark on.
    pub open spec fn with_polls(self) -> StateView {
        StateView {
            pending: self.pending.push(TaskView::PollWGIssues { since: self.wg_watermark }).push(
                TaskView::PollDecisionIssues { since: self.decisions_watermark },
            ),
            ..self
        }
    }
}

/// What a task asks for when its turn comes.
#[verifier::ext_equal]
pub enum PlanView {
    /// Nothing of the outside: the task has run, and this is the state after
    /// it.
    Done { after: StateView },
    /// A call. The task stays in front until the answer is in.
    Call { request: RequestView },
    /// The task cannot run. It stays in front.
    Fail { error: ErrorView },
}

/// The task that makes sure of the label that stands for `label`.
pub open spec fn ensure_label_for() -> spec_fn(IssueLabelView) -> TaskView {
    |label: IssueLabelView|
        TaskView::EnsureLabel { name: spec_label_name(label.name), color: label.color }
}

/// The state after a comment has been looked at. A comment without
/// resolutions, or one whose address is in the ledger, changes nothing.
/// Otherwise the address enters the ledger, and the tasks that make sure of
/// the labels and the one that files the decision are staged.
pub open spec fn process_comment(
    rest: StateView,
    issue_number: int,
    issue_title: Seq<char>,
    issue_labels: Seq<IssueLabelView>,
    url: Seq<char>,
    body_text: Seq<char>,
    policy: RepoConfigView,
) -> StateView {
    let found = resolutions(body_text);
    if found.len() == 0 || rest.handled_comments.contains(url) {
        rest
    } else {
        let desired = desired_labels(issue_labels, policy.labels);
        StateView {
            handled_comments: rest.handled_comments.insert(url),
            staged: rest.staged + desired.map_values(ensure_label_for()).push(
                TaskView::FileDecisionIssue {
                    issue_number,
                    issue_title,
                    labels: desired.map_values(spec_name_of()),
                    comment_url: url,
                    resolutions: found,
                },
            ),
            ..rest
        }
    }
}

/// The tasks that load what a state lacks of the labels and the id of the
/// decisions repository: the loader of the labels where they are absent,
/// then the loader of the id where it is absent.
pub open spec fn missing_loaders(state: StateView) -> Seq<TaskView> {
    (if state.labels is None {
        seq![TaskView::LoadDecisionLabels]
    } else {
        Seq::empty()
    }) + (if state.repo_id is None {
        seq![TaskView::LoadDecisionsRepoId]
    } else {
        Seq::empty()
    })
}

/// The state after a task that needs the labels and the id of the
/// repository has found one of them absent: every missing loader is staged,
/// and behind them the task again.
pub open spec fn deferred(rest: StateView, again: TaskView) -> StateView {
    rest.stage(missing_loaders(rest).push(again))
}

/// What making sure of a label asks for. Without the labels or the id of
/// the repository, the loaders of what is missing are staged and then the
/// task again. A label that is known asks for nothing. Any other is created.
pub open spec fn plan_ensure_label(rest: StateView, name: Seq<char>, color: Seq<char>) -> PlanView {
    let again = TaskView::EnsureLabel { name, color };
    if rest.labels is None || rest.repo_id is None {
        PlanView::Done { after: deferred(rest, again) }
    } else if rest.labels->Some_0.dom().contains(name) {
        PlanView::Done { after: rest }
    } else {
        PlanView::Call {
            request: RequestView::CreateLabel { repo_id: rest.repo_id->Some_0, name, color },
        }
    }
}

/// What filing a decision asks for. Without the labels or the id of the
/// repository, the loaders of what is missing are staged and then the task
/// again. Otherwise
/// the issue is created, with the escaped title and resolutions in its body
/// and with the ids of those of its labels that the repository knows.
pub open spec fn plan_file_decision(
    rest: StateView,
    issue_number: int,
    issue_title: Seq<char>,
    labels: Seq<Seq<char>>,
    comment_url: Seq<char>,
    resolutions: Seq<Seq<char>>,
    config: ConfigView,
) -> PlanView {
    let again = TaskView::FileDecisionIssue {
        issue_number,
        issue_title,
        labels,
        comment_url,
        resolutions,
    };
    if rest.labels is None || rest.repo_id is None {
        PlanView::Done { after: deferred(rest, again) }
    } else {
        match decision_request(
            rest.repo_id->Some_0,
            issue_number,
            issue_title,
            escaped_markdown(issue_title),
            escaped_each(resolutions),
            comment_url,
            label_ids(labels, rest.labels->Some_0),
            config,
        ) {
            Ok(request) => PlanView::Call { request },
            Err(error) => PlanView::Fail { error },
        }
    }
}

/// What taking the `bug` label off asks for. Without the labels, their
/// loading is staged and then the task again. Without a `bug` label among
/// them the task cannot run.
pub open spec fn plan_remove_bug_label(rest: StateView, issue_id: Seq<char>) -> PlanView {
    if rest.labels is None {
        PlanView::Done {
            after: rest.stage(
                seq![TaskView::LoadDecisionLabels, TaskView::RemoveBugLabel { issue_id }],
            ),
        }
    } else if !rest.labels->Some_0.dom().contains(BUG_LABEL@) {
        PlanView::Fail { error: ErrorView::MissingBugLabel }
    } else {
        PlanView::Call {
            request: RequestView::RemoveLabels {
                labelable: issue_id,
                labels: seq![rest.labels->Some_0[BUG_LABEL@]],
            },
        }
    }
}

/// What `task` asks for when its turn comes, where `rest` is the state
/// without it.
pub open spec fn plan(
    task: TaskView,
    rest: StateView,
    config: ConfigView,
    policy: RepoConfigView,
) -> PlanView {
    match task {
        TaskView::PollWGIssues { since } => PlanView::Call {
            request: RequestView::UpdatedIssues {
                repo_owner: config.wg_repo_owner,
                repo_name: config.wg_repo_name,
                since,
            },
        },
        TaskView::FetchIssueComments { number, .. } => PlanView::Call {
            request: RequestView::IssueComments {
                repo_owner: config.wg_repo_owner,
                repo_name: config.wg_repo_name,
                number,
            },
        },
        TaskView::ProcessComment {
            issue_number,
            issue_title,
            issue_labels,
            url,
            body_text,
        } => PlanView::Done {
            after: process_comment(
                rest,
                issue_number,
                issue_title,
                issue_labels,
                url,
                body_text,
                policy,
            ),
        },
        TaskView::PollDecisionIssues { since } => PlanView::Call {
            request: RequestView::UpdatedIssues {
                repo_owner: config.decisions_repo_owner,
                repo_name: config.decisions_repo_name,
                since,
            },
        },
        TaskView::LoadDecisionLabels => PlanView::Call {
            request: RequestView::KnownLabels {
                repo_owner: config.decisions_repo_owner,
                repo_name: config.decisions_repo_name,
            },
        },
        TaskView::EnsureLabel { name, color } => plan_ensure_label(rest, name, color),
        TaskView::FileDecisionIssue {
            issue_number,
            issue_title,
            labels,
            comment_url,
            resolutions,
        } => plan_file_decision(
            rest,
            issue_number,
            issue_title,
            labels,
            comment_url,
            resolutions,
            config,
        ),
        TaskView::LoadDecisionsRepoId => PlanView::Call {
            request: RequestView::RepoId {
                repo_owner: config.decisions_repo_owner,
                repo_name: config.decisions_repo_name,
            },
        },
        TaskView::FileBug { issue_number, .. } => PlanView::Call {
            request: RequestView::IssueTitleAndBody {
                repo_owner: config.decisions_repo_owner,
                repo_name: config.decisions_repo_name,
                number: issue_number,
            },
        },
        TaskView::FileBugWithDetails {
            product,
            component,
            summary,
            description,
            urls,
            ..
        } => PlanView::Call {
            request: RequestView::FileBug { product, component, summary, description, urls },
        },
        TaskView::RemoveBugLabel { issue_id } => plan_remove_bug_label(rest, issue_id),
        TaskView::CloseIssue { issue_id } => PlanView::Call {
            request: RequestView::CloseIssue { issue_id },
        },
        TaskView::AddIssueComment { issue_id, body } => PlanView::Call {
            request: RequestView::AddIssueComment { issue_id, body },
        },
    }
}

/// The beginning of a step: the staged tasks move to the front; then the
/// task in front, if there is one, either runs, or asks for a call, or
/// fails. `Ok(None)` says that the step is over.
pub open spec fn begin(state: StateView, config: ConfigView, policy: RepoConfigView) -> (
    StateView,
    Result<Option<RequestView>, ErrorView>,
) {
    let merged = state.merged();
    if merged.pending.len() == 0 {
        (merged, Ok(None))
    } else {
        match plan(merged.pending[0], merged.without_front(), config, policy) {
            PlanView::Done { after } => (after, Ok(None)),
            PlanView::Call { request } => (merged, Ok(Some(request))),
            PlanView::Fail { error } => (merged, Err(error)),
        }
    }
}

/// The task that fetches the comments of `issue`.
pub open spec fn fetch_comments_for(since: Seq<char>) -> spec_fn(UpdatedIssueView) -> TaskView {
    |issue: UpdatedIssueView|
        TaskView::FetchIssueComments {
            number: issue.issue_number,
            issue_title: issue.issue_title,
            issue_labels: issue.issue_labels,
            since,
        }
}

/// The state after the working group's issues have come in: one task for
/// each staged, and the watermark at the latest update seen.
pub open spec fn absorb_wg_issues(
    rest: StateView,
    since: Seq<char>,
    issues: Seq<UpdatedIssueView>,
) -> StateView {
    StateView {
        staged: rest.staged + issues.map_values(fetch_comments_for(since)),
        wg_watermark: latest_update(rest.wg_watermark, issues),
        ..rest
    }
}

/// Whether a comment was made at `since` or later.
pub open spec fn made_since(since: Seq<char>) -> spec_fn(IssueCommentView) -> bool {
    |comment: IssueCommentView| text_le(since, comment.created_at)
}

/// The task that looks at `comment`.
pub open spec fn process_comment_for(
    issue_number: int,
    issue_title: Seq<char>,
    issue_labels: Seq<IssueLabelView>,
) -> spec_fn(IssueCommentView) -> TaskView {
    |comment: IssueCommentView|
        TaskView::ProcessComment {
            issue_number,
            issue_title,
            issue_labels,
            url: comment.url,
            body_text: comment.body_text,
        }
}

/// The state after the comments of an issue have come in: one task staged
/// for each comment made at `since` or later.
pub open spec fn absorb_comments(
    rest: StateView,
    number: int,
    issue_title: Seq<char>,
    issue_labels: Seq<IssueLabelView>,
    since: Seq<char>,
    comments: Seq<IssueCommentView>,
) -> StateView {
    rest.stage(
        comments.filter(made_since(since)).map_values(
            process_comment_for(number, issue_title, issue_labels),
        ),
    )
}

/// The three tasks that turn a decision into a bug.
pub open spec fn bug_tasks(
    product: Seq<char>,
    component: Seq<char>,
    issue: UpdatedIssueView,
) -> Seq<TaskView> {
    seq![
        TaskView::FileBug {
            product,
            component,
            issue_number: issue.issue_number,
            issue_id: issue.id,
        },
        TaskView::RemoveBugLabel { issue_id: issue.id },
        TaskView::CloseIssue { issue_id: issue.id },
    ]
}

/// The state after one decision issue has been looked at, and the failure
/// if there was one. An issue in the ledger, or one without the `bug`
/// label, changes nothing. For any other the component is found; then the
/// number enters the ledger and the three tasks are staged. Where the
/// configured component cannot be read, nothing changes and the step fails.
pub open spec fn absorb_decision_issue(
    rest: StateView,
    issue: UpdatedIssueView,
    policy: RepoConfigView,
) -> (StateView, Option<ErrorView>) {
    if rest.handled_issues.contains(issue.issue_number) || !has_bug_label(issue.issue_labels) {
        (rest, None)
    } else {
        match product_component(issue.issue_labels, policy.components) {
            Ok(pair) => (
                StateView {
                    handled_issues: rest.handled_issues.insert(issue.issue_number),
                    staged: rest.staged + bug_tasks(pair.0, pair.1, issue),
                    ..rest
                },
                None,
            ),
            Err(text) => (rest, Some(ErrorView::InvalidComponent { text })),
        }
    }
}

/// The state after the decision issues have been looked at one after the
/// other, up to the first failure, and that failure.
pub open spec fn absorb_decision_issues(
    rest: StateView,
    issues: Seq<UpdatedIssueView>,
    policy: RepoConfigView,
) -> (StateView, Option<ErrorView>)
    decreases issues.len(),
{
    if issues.len() == 0 {
        (rest, None)
    } else {
        let before = absorb_decision_issues(rest, issues.drop_last(), policy);
        if before.1 is Some {
            before
        } else {
            absorb_decision_issue(before.0, issues.last(), policy)
        }
    }
}

/// The state after a poll of the decisions tracker, and the failure if
/// there was one. The watermark moves only when every issue has been looked
/// at.
pub open spec fn absorb_decisions_poll(
    rest: StateView,
    issues: Seq<UpdatedIssueView>,
    policy: RepoConfigView,
) -> (StateView, Option<ErrorView>) {
    let looked = absorb_decision_issues(rest, issues, policy);
    if looked.1 is Some {
        looked
    } else {
        (
            StateView {
                decisions_watermark: latest_update(rest.decisions_watermark, issues),
                ..looked.0
            },
            None,
        )
    }
}

/// `labels` with each of `known` added, a later one overriding an earlier
/// one of the same name.
pub open spec fn merged_labels(
    labels: Map<Seq<char>, Seq<char>>,
    known: Seq<KnownLabelView>,
) -> Map<Seq<char>, Seq<char>>
    decreases known.len(),
{
    if known.len() == 0 {
        labels
    } else {
        merged_labels(labels, known.drop_last()).insert(known.last().name, known.last().id)
    }
}

/// The state after the labels of the decisions repository have come in.
pub open spec fn absorb_labels(rest: StateView, known: Seq<KnownLabelView>) -> StateView {
    StateView {
        labels: Some(
            merged_labels(
                match rest.labels {
                    Some(labels) => labels,
                    None => Map::empty(),
                },
                known,
            ),
        ),
        ..rest
    }
}

/// The state after the title and the body of a decision have come in, and
/// the failure if there was one: the task that files the bug is staged,
/// with the body up to its separator as description and with the addresses
/// in it, followed by the decision's own.
pub open spec fn absorb_title_and_body(
    rest: StateView,
    product: Seq<char>,
    component: Seq<char>,
    issue_number: int,
    issue_id: Seq<char>,
    title: Seq<char>,
    body: Seq<char>,
    config: ConfigView,
) -> (StateView, Option<ErrorView>) {
    let description = bug_description(body);
    match bug_details(
        product,
        component,
        issue_number,
        issue_id,
        title,
        description,
        extracted_urls(description),
        config,
    ) {
        Ok(task) => (rest.stage(seq![task]), None),
        Err(error) => (rest, Some(error)),
    }
}

/// What an answer makes of the state, where `task` is the task that was in
/// front and `rest` the state without it, and the failure if there is one.
/// An answer that is not one to the task's request is a failure and changes
/// nothing.
pub open spec fn absorb(
    task: TaskView,
    response: ResponseView,
    rest: StateView,
    config: ConfigView,
    policy: RepoConfigView,
) -> (StateView, Option<ErrorView>) {
    match (task, response) {
        (TaskView::PollWGIssues { since }, ResponseView::UpdatedIssues { issues }) => (
            absorb_wg_issues(rest, since, issues),
            None,
        ),
        (
            TaskView::FetchIssueComments { number, issue_title, issue_labels, since },
            ResponseView::IssueComments { comments },
        ) => (absorb_comments(rest, number, issue_title, issue_labels, since, comments), None),
        (
            TaskView::PollDecisionIssues { since },
            ResponseView::UpdatedIssues { issues },
        ) => absorb_decisions_poll(rest, issues, policy),
        (TaskView::LoadDecisionLabels, ResponseView::KnownLabels { known }) => (
            absorb_labels(rest, known),
            None,
        ),
        (TaskView::LoadDecisionsRepoId, ResponseView::RepoId { found }) => match found {
            Some(id) => (StateView { repo_id: Some(id), ..rest }, None),
            None => (rest, Some(ErrorView::RepositoryNotFound)),
        },
        (TaskView::EnsureLabel { name, color }, ResponseView::LabelCreated { id }) => {
            if rest.labels is Some {
                (StateView { labels: Some(rest.labels->Some_0.insert(name, id)), ..rest }, None)
            } else {
                (rest, Some(ErrorView::UnexpectedResponse))
            }
        },
        (TaskView::FileDecisionIssue { .. }, ResponseView::IssueCreated { id }) => (rest, None),
        (
            TaskView::FileBug { product, component, issue_number, issue_id },
            ResponseView::IssueTitleAndBody { title, body },
        ) => absorb_title_and_body(
            rest,
            product,
            component,
            issue_number,
            issue_id,
            title,
            body,
            config,
        ),
        (TaskView::FileBugWithDetails { issue_id, .. }, ResponseView::BugFiled { url }) => (
            rest.stage(seq![TaskView::AddIssueComment { issue_id, body: url }]),
            None,
        ),
        (TaskView::RemoveBugLabel { .. }, ResponseView::LabelsRemoved) => (rest, None),
        (TaskView::CloseIssue { .. }, ResponseView::IssueClosed) => (rest, None),
        (TaskView::AddIssueComment { .. }, ResponseView::CommentAdded) => (rest, None),
        _ => (rest, Some(ErrorView::UnexpectedResponse)),
    }
}

/// The end of a step that asked for a call. A call that failed changes
/// nothing: the task stays in front. An answer is taken in; if that fails,
/// the task is put back in front of what the answer made of the state, else
/// the task is done.
pub open spec fn complete(
    state: StateView,
    outcome: Result<ResponseView, ErrorView>,
    config: ConfigView,
    policy: RepoConfigView,
) -> (StateView, Result<(), ErrorView>) {
    match outcome {
        Err(error) => (state, Err(error)),
        Ok(response) => {
            if state.pending.len() == 0 {
                (state, Err(ErrorView::UnexpectedResponse))
            } else {
                let task = state.pending[0];
                let taken = absorb(task, response, state.without_front(), config, policy);
                match taken.1 {
                    Some(error) => (taken.0.with_front(task), Err(error)),
                    None => (taken.0, Ok(())),
                }
            }
        },
    }
}

} // verus!
