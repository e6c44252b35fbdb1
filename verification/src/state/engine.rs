//! The engine's state as it is held in memory, and the steps that change
//! it. Every step is stated over the state's view.

use crate::config::Config;
use crate::error::{failure_view, Error, ErrorView};
use crate::query::{
    clone_labels, IssueComment, IssueLabel, KnownLabel, Request, RequestView, Response,
    ResponseView, UpdatedIssue, UpdatedIssueView,
};
use crate::repo_config::{RepoConfig, RepoConfigView};
use crate::seqs::{
    lemma_deep_view_push, lemma_filter_map_empty, lemma_filter_map_push, lemma_map_push,
    lemma_push_to_set, lemma_take_all, lemma_take_push,
};
use crate::state::ledger::IssueLedger;
use crate::state::model::{
    absorb, absorb_comments, absorb_decision_issue, absorb_decision_issues,
    absorb_decisions_poll, absorb_labels, absorb_title_and_body, absorb_wg_issues, begin,
    complete, deferred, ensure_label_for, fetch_comments_for, made_since, merged_labels,
    missing_loaders, plan, plan_ensure_label, plan_file_decision, plan_remove_bug_label,
    process_comment, process_comment_for, PlanView, StateView,
};
use crate::state::rules::{
    asks_for_bug, describe_bug, find_label_ids, find_latest_update, find_resolutions,
    make_bug_details, make_decision_request, resolve_component, select_desired_labels,
    spec_label, spec_name_of, BUG_LABEL,
};
use crate::state::snapshot::{check_version, version_failure, Snapshot};
use crate::state::task::{clone_tasks, Task};
use crate::text::{joined, text_at_most};
use crate::text_map::TextMap;
use crate::util::{escape_each, escape_markdown, extract_urls};
use std::collections::VecDeque;
use vstd::prelude::*;

verus! {

/// The time from which the decisions tracker is read when it is read for the
/// first time.
pub const FIRST_DECISIONS_TIME: &'static str = "2019-01-01T00:00:00Z";

/// What follows a date to make it the first moment of its day.
pub const START_OF_DAY: &'static str = "T00:00:00Z";

/// The engine's state.
#[derive(Debug)]
pub struct State {
    tasks: VecDeque<Task>,
    posted_tasks: Vec<Task>,
    handled_wg_comments: Vec<String>,
    handled_decisions_issues: IssueLedger,
    known_labels: Option<TextMap>,
    decisions_repo_id: Option<String>,
    last_time_wg: String,
    last_time_decisions: String,
}

impl View for State {
    type V = StateView;

    closed spec fn view(&self) -> StateView {
        StateView {
            pending: self.tasks.deep_view(),
            staged: self.posted_tasks.deep_view(),
            handled_comments: self.handled_wg_comments.deep_view().to_set(),
            handled_issues: self.handled_decisions_issues@,
            labels: match self.known_labels {
                Some(labels) => Some(labels@),
                None => None,
            },
            repo_id: match self.decisions_repo_id {
                Some(id) => Some(id@),
                None => None,
            },
            wg_watermark: self.last_time_wg@,
            decisions_watermark: self.last_time_decisions@,
        }
    }
}

/// The state of an engine that has not run yet and reads the working
/// group's tracker from the first moment of `date` on.
pub open spec fn initial_state(date: Seq<char>) -> StateView {
    StateView {
        pending: Seq::empty(),
        staged: Seq::empty(),
        handled_comments: Set::empty(),
        handled_issues: Set::empty(),
        labels: None,
        repo_id: None,
        wg_watermark: date + START_OF_DAY@,
        decisions_watermark: FIRST_DECISIONS_TIME@,
    }
}

impl State {
    /// The state of an engine that has not run yet.
    pub fn new(date: &str) -> (r: State)
        ensures
            r@ == initial_state(date@),
    {
        State {
            tasks: VecDeque::new(),
            posted_tasks: Vec::new(),
            handled_wg_comments: Vec::new(),
            handled_decisions_issues: IssueLedger::new(),
            known_labels: None,
            decisions_repo_id: None,
            last_time_wg: joined(date, START_OF_DAY),
            last_time_decisions: String::from_str(FIRST_DECISIONS_TIME),
        }
    }

    /// Whether nothing waits and nothing is staged.
    pub fn is_finished(&self) -> (r: bool)
        ensures
            r == self@.is_finished(),
    {
        self.tasks.len() == 0 && self.posted_tasks.len() == 0
    }

    /// Puts a poll of each tracker at the end of the queue, from the
    /// tracker's watermark on.
    pub fn check_for_updates(&mut self)
        ensures
            final(self)@ == old(self)@.with_polls(),
    {
        let first = Task::PollWGIssues { since: self.last_time_wg.clone() };
        let second = Task::PollDecisionIssues { since: self.last_time_decisions.clone() };
        self.tasks.push_back(first);
        self.tasks.push_back(second);
    }

    /// Stages a task behind what is staged already.
    fn post_task(&mut self, task: Task)
        ensures
            final(self)@ == old(self)@.stage(seq![task@]),
    {
        let ghost before = self.posted_tasks;
        self.posted_tasks.push(task);
        proof {
            lemma_deep_view_push(before@, self.posted_tasks, task);
        }
    }

    /// Puts a task in front of the waiting ones.
    fn put_back(&mut self, task: Task)
        ensures
            final(self)@ == old(self)@.with_front(task@),
    {
        self.tasks.push_front(task);
    }

    /// Moves the staged tasks in front of the waiting ones.
    fn merge_posted(&mut self)
        ensures
            final(self)@ == old(self)@.merged(),
    {
        let ghost staged = self.posted_tasks.deep_view();
        let ghost pending = self.tasks.deep_view();
        while self.posted_tasks.len() > 0
            invariant
                self.posted_tasks.deep_view() == staged.take(self.posted_tasks.len() as int),
                self.posted_tasks.len() <= staged.len(),
                self.tasks.deep_view() == staged.skip(self.posted_tasks.len() as int) + pending,
                self.handled_wg_comments == old(self).handled_wg_comments,
                self.handled_decisions_issues == old(self).handled_decisions_issues,
                self.known_labels == old(self).known_labels,
                self.decisions_repo_id == old(self).decisions_repo_id,
                self.last_time_wg == old(self).last_time_wg,
                self.last_time_decisions == old(self).last_time_decisions,
            decreases self.posted_tasks.len(),
        {
            let ghost posted = self.posted_tasks;
            let ghost waiting = self.tasks;
            let task = self.posted_tasks.pop().unwrap();
            self.tasks.push_front(task);
            proof {
                let n = self.posted_tasks.len() as int;
                assert(task@ == posted.deep_view()[n]);
                assert(self.tasks.deep_view() =~= seq![task@] + waiting.deep_view());
            }
        }
    }
}

impl State {
    /// Whether the resolutions of the comment at `url` have been filed.
    fn comment_handled(&self, url: &String) -> (r: bool)
        ensures
            r == self@.handled_comments.contains(url@),
    {
        let mut i: usize = 0;
        while i < self.handled_wg_comments.len()
            invariant
                i <= self.handled_wg_comments.len(),
                forall|j: int| 0 <= j < i ==> self.handled_wg_comments.deep_view()[j] != url@,
            decreases self.handled_wg_comments.len() - i,
        {
            if self.handled_wg_comments[i] == *url {
                assert(self.handled_wg_comments.deep_view()[i as int] == url@);
                return true;
            }
            i += 1;
        }
        false
    }

    /// Records that the resolutions of the comment at `url` have been filed.
    fn mark_comment(&mut self, url: String)
        ensures
            final(self)@ == (StateView {
                handled_comments: old(self)@.handled_comments.insert(url@),
                ..old(self)@
            }),
    {
        let ghost before = self.handled_wg_comments;
        self.handled_wg_comments.push(url);
        proof {
            lemma_deep_view_push(before@, self.handled_wg_comments, url);
            lemma_push_to_set(before.deep_view(), url@);
        }
    }

    /// Whether a bug has been asked for the decision issue `number`.
    fn issue_handled(&self, number: i64) -> (r: bool)
        ensures
            r == self@.handled_issues.contains(number as int),
    {
        self.handled_decisions_issues.contains(number)
    }

    /// Records that a bug has been asked for the decision issue `number`.
    fn mark_issue(&mut self, number: i64)
        ensures
            final(self)@ == (StateView {
                handled_issues: old(self)@.handled_issues.insert(number as int),
                ..old(self)@
            }),
    {
        self.handled_decisions_issues.insert(number);
    }

    /// Looks at one comment.
    fn run_process_comment(
        &mut self,
        issue_number: i64,
        issue_title: &String,
        issue_labels: &Vec<IssueLabel>,
        url: &String,
        body_text: &String,
        policy: &RepoConfig,
    )
        ensures
            final(self)@ == process_comment(
                old(self)@,
                issue_number as int,
                issue_title@,
                issue_labels.deep_view(),
                url@,
                body_text@,
                policy@,
            ),
    {
        let found = find_resolutions(body_text.as_str());
        if found.len() == 0 {
            return ;
        }
        if self.comment_handled(url) {
            return ;
        }
        self.mark_comment(url.clone());
        let ghost marked = self@;
        let desired = select_desired_labels(issue_labels, policy);
        let mut names: Vec<String> = Vec::new();
        let mut i: usize = 0;
        while i < desired.len()
            invariant
                i <= desired.len(),
                self@ == marked.stage(
                    desired.deep_view().take(i as int).map_values(ensure_label_for()),
                ),
                names.deep_view() == desired.deep_view().take(i as int).map_values(
                    spec_name_of(),
                ),
            decreases desired.len() - i,
        {
            let ghost before = names;
            let name = spec_label(&desired[i].name);
            let task = Task::EnsureLabel { name: name.clone(), color: desired[i].color.clone() };
            self.post_task(task);
            names.push(name);
            proof {
                let seen = desired.deep_view().take(i as int);
                let label = desired.deep_view()[i as int];
                lemma_take_push(desired.deep_view(), i as int);
                lemma_map_push(seen, label, ensure_label_for());
                lemma_map_push(seen, label, spec_name_of());
                lemma_deep_view_push(before@, names, name);
            }
            i += 1;
        }
        proof {
            lemma_take_all(desired.deep_view());
        }
        let task = Task::FileDecisionIssue {
            issue_number,
            issue_title: issue_title.clone(),
            labels: names,
            comment_url: url.clone(),
            resolutions: found,
        };
        self.post_task(task);
    }

    /// Looks at one decision issue.
    fn take_decision_issue(&mut self, issue: &UpdatedIssue, policy: &RepoConfig) -> (r: Option<
        Error,
    >)
        ensures
            final(self)@ == absorb_decision_issue(old(self)@, issue@, policy@).0,
            failure_view(r) == absorb_decision_issue(old(self)@, issue@, policy@).1,
    {
        if self.issue_handled(issue.issue_number) || !asks_for_bug(&issue.issue_labels) {
            return None;
        }
        match resolve_component(&issue.issue_labels, policy) {
            Err(text) => Some(Error::InvalidComponent { text }),
            Ok(pair) => {
                self.mark_issue(issue.issue_number);
                self.post_task(
                    Task::FileBug {
                        product: pair.0,
                        component: pair.1,
                        issue_number: issue.issue_number,
                        issue_id: issue.id.clone(),
                    },
                );
                self.post_task(Task::RemoveBugLabel { issue_id: issue.id.clone() });
                self.post_task(Task::CloseIssue { issue_id: issue.id.clone() });
                None
            },
        }
    }

    /// Looks at the decision issues one after the other, up to the first
    /// failure.
    fn take_decision_issues(&mut self, issues: &Vec<UpdatedIssue>, policy: &RepoConfig) -> (r:
        Option<Error>)
        ensures
            final(self)@ == absorb_decision_issues(old(self)@, issues.deep_view(), policy@).0,
            failure_view(r) == absorb_decision_issues(old(self)@, issues.deep_view(), policy@).1,
    {
        let mut i: usize = 0;
        while i < issues.len()
            invariant
                i <= issues.len(),
                self@ == absorb_decision_issues(
                    old(self)@,
                    issues.deep_view().take(i as int),
                    policy@,
                ).0,
                absorb_decision_issues(old(self)@, issues.deep_view().take(i as int), policy@).1
                    is None,
            decreases issues.len() - i,
        {
            proof {
                lemma_take_push(issues.deep_view(), i as int);
                assert(issues.deep_view().take(i + 1).drop_last() =~= issues.deep_view().take(
                    i as int,
                ));
            }
            let failure = self.take_decision_issue(&issues[i], policy);
            if failure.is_some() {
                proof {
                    lemma_decision_failure_stays(old(self)@, issues.deep_view(), i + 1, policy@);
                }
                return failure;
            }
            i += 1;
        }
        proof {
            lemma_take_all(issues.deep_view());
        }
        None
    }
}

/// What a task asked for when its turn came.
enum Plan {
    /// Nothing of the outside: the task has run.
    Done,
    /// A call.
    Call(Request),
    /// The task cannot run.
    Fail(Error),
}

/// Whether what a task asked for, and what that made of the state, is what
/// was planned.
spec fn plan_matches(r: Plan, before: StateView, after: StateView, planned: PlanView) -> bool {
    match r {
        Plan::Done => planned == (PlanView::Done { after }),
        Plan::Call(request) => planned == (PlanView::Call { request: request@ }) && after
            == before,
        Plan::Fail(error) => planned == (PlanView::Fail { error: error@ }) && after == before,
    }
}

impl State {
    /// Stages two tasks, one behind the other.
    fn post_pair(&mut self, first: Task, second: Task)
        ensures
            final(self)@ == old(self)@.stage(seq![first@, second@]),
    {
        self.post_task(first);
        self.post_task(second);
    }

    /// Stages the loaders of what is missing of the labels and the id of
    /// the repository, and behind them `again`.
    fn defer(&mut self, again: Task)
        ensures
            final(self)@ == deferred(old(self)@, again@),
    {
        if self.known_labels.is_none() {
            self.post_task(Task::LoadDecisionLabels);
        }
        if self.decisions_repo_id.is_none() {
            self.post_task(Task::LoadDecisionsRepoId);
        }
        self.post_task(again);
        proof {
            assert(self@.staged =~= old(self)@.staged + missing_loaders(old(self)@).push(again@));
        }
    }

    /// Makes sure of a label, as far as that takes no call.
    fn begin_ensure_label(&mut self, name: &String, color: &String) -> (r: Plan)
        ensures
            plan_matches(r, old(self)@, final(self)@, plan_ensure_label(old(self)@, name@, color@)),
    {
        if self.known_labels.is_none() || self.decisions_repo_id.is_none() {
            self.defer(Task::EnsureLabel { name: name.clone(), color: color.clone() });
            return Plan::Done;
        }
        let known = match &self.known_labels {
            Some(labels) => labels.contains_key(name),
            None => false,
        };
        if known {
            return Plan::Done;
        }
        let repo_id = match &self.decisions_repo_id {
            Some(id) => id.clone(),
            None => String::new(),
        };
        Plan::Call(Request::CreateLabel { repo_id, name: name.clone(), color: color.clone() })
    }

    /// Files a decision, as far as that takes no call.
    fn begin_file_decision(
        &mut self,
        issue_number: i64,
        issue_title: &String,
        labels: &Vec<String>,
        comment_url: &String,
        resolutions: &Vec<String>,
        config: &Config,
    ) -> (r: Plan)
        ensures
            plan_matches(
                r,
                old(self)@,
                final(self)@,
                plan_file_decision(
                    old(self)@,
                    issue_number as int,
                    issue_title@,
                    labels.deep_view(),
                    comment_url@,
                    resolutions.deep_view(),
                    config@,
                ),
            ),
    {
        if self.known_labels.is_none() || self.decisions_repo_id.is_none() {
            let again = Task::FileDecisionIssue {
                issue_number,
                issue_title: issue_title.clone(),
                labels: labels.clone(),
                comment_url: comment_url.clone(),
                resolutions: resolutions.clone(),
            };
            self.defer(again);
            return Plan::Done;
        }
        let ids = match &self.known_labels {
            Some(known) => find_label_ids(labels, known),
            None => Vec::new(),
        };
        let repo_id = match &self.decisions_repo_id {
            Some(id) => id.clone(),
            None => String::new(),
        };
        match make_decision_request(
            &repo_id,
            issue_number,
            issue_title,
            escape_markdown(issue_title.as_str()),
            escape_each(resolutions),
            comment_url,
            ids,
            config,
        ) {
            Ok(request) => Plan::Call(request),
            Err(error) => Plan::Fail(error),
        }
    }

    /// Takes the `bug` label off an issue, as far as that takes no call.
    fn begin_remove_bug_label(&mut self, issue_id: &String) -> (r: Plan)
        ensures
            plan_matches(r, old(self)@, final(self)@, plan_remove_bug_label(old(self)@, issue_id@)),
    {
        if self.known_labels.is_none() {
            self.post_pair(
                Task::LoadDecisionLabels,
                Task::RemoveBugLabel { issue_id: issue_id.clone() },
            );
            return Plan::Done;
        }
        let found = match &self.known_labels {
            Some(labels) => labels.get(&String::from_str(BUG_LABEL)),
            None => None,
        };
        match found {
            None => Plan::Fail(Error::MissingBugLabel),
            Some(id) => {
                let mut labels: Vec<String> = Vec::new();
                labels.push(id);
                proof {
                    assert(labels.deep_view() =~= seq![id@]);
                }
                Plan::Call(Request::RemoveLabels { labelable: issue_id.clone(), labels })
            },
        }
    }

    /// Does of `task` what takes no call, and says which call it takes.
    fn begin_task(&mut self, task: &Task, config: &Config, policy: &RepoConfig) -> (r: Plan)
        ensures
            plan_matches(r, old(self)@, final(self)@, plan(task@, old(self)@, config@, policy@)),
    {
        match task {
            Task::PollWGIssues { since } => Plan::Call(
                Request::UpdatedIssues {
                    repo_owner: config.wg_repo_owner.clone(),
                    repo_name: config.wg_repo_name.clone(),
                    since: since.clone(),
                },
            ),
            Task::FetchIssueComments { number, .. } => Plan::Call(
                Request::IssueComments {
                    repo_owner: config.wg_repo_owner.clone(),
                    repo_name: config.wg_repo_name.clone(),
                    number: *number,
                },
            ),
            Task::ProcessComment { issue_number, issue_title, issue_labels, url, body_text } => {
                self.run_process_comment(
                    *issue_number,
                    issue_title,
                    issue_labels,
                    url,
                    body_text,
                    policy,
                );
                Plan::Done
            },
            Task::PollDecisionIssues { since } => Plan::Call(
                Request::UpdatedIssues {
                    repo_owner: config.decisions_repo_owner.clone(),
                    repo_name: config.decisions_repo_name.clone(),
                    since: since.clone(),
                },
            ),
            Task::LoadDecisionLabels => Plan::Call(
                Request::KnownLabels {
                    repo_owner: config.decisions_repo_owner.clone(),
                    repo_name: config.decisions_repo_name.clone(),
                },
            ),
            Task::EnsureLabel { name, color } => self.begin_ensure_label(name, color),
            Task::FileDecisionIssue {
                issue_number,
                issue_title,
                labels,
                comment_url,
                resolutions,
            } => self.begin_file_decision(
                *issue_number,
                issue_title,
                labels,
                comment_url,
                resolutions,
                config,
            ),
            Task::LoadDecisionsRepoId => Plan::Call(
                Request::RepoId {
                    repo_owner: config.decisions_repo_owner.clone(),
                    repo_name: config.decisions_repo_name.clone(),
                },
            ),
            Task::FileBug { issue_number, .. } => Plan::Call(
                Request::IssueTitleAndBody {
                    repo_owner: config.decisions_repo_owner.clone(),
                    repo_name: config.decisions_repo_name.clone(),
                    number: *issue_number,
                },
            ),
            Task::FileBugWithDetails {
                product,
                component,
                summary,
                description,
                urls,
                ..
            } => Plan::Call(
                Request::FileBug {
                    product: product.clone(),
                    component: component.clone(),
                    summary: summary.clone(),
                    description: description.clone(),
                    urls: urls.clone(),
                },
            ),
            Task::RemoveBugLabel { issue_id } => self.begin_remove_bug_label(issue_id),
            Task::CloseIssue { issue_id } => Plan::Call(
                Request::CloseIssue { issue_id: issue_id.clone() },
            ),
            Task::AddIssueComment { issue_id, body } => Plan::Call(
                Request::AddIssueComment { issue_id: issue_id.clone(), body: body.clone() },
            ),
        }
    }
}

/// The view of what the beginning of a step hands back.
pub open spec fn begun_view(r: Result<Option<Request>, Error>) -> Result<
    Option<RequestView>,
    ErrorView,
> {
    match r {
        Ok(Some(request)) => Ok(Some(request@)),
        Ok(None) => Ok(None),
        Err(error) => Err(error@),
    }
}

impl State {
    /// Begins a step: moves the staged tasks to the front and lets the task
    /// in front run as far as it can without the outside. `Ok(None)` says
    /// that the step is over; `Ok(Some(request))` asks the caller to make a
    /// call and to hand its outcome to `complete`; `Err` says that the task
    /// cannot run. In the last two cases the task stays in front.
    pub fn iterate(&mut self, config: &Config, repo_config: &RepoConfig) -> (r: Result<
        Option<Request>,
        Error,
    >)
        ensures
            final(self)@ == begin(old(self)@, config@, repo_config@).0,
            begun_view(r) == begin(old(self)@, config@, repo_config@).1,
    {
        self.merge_posted();
        let task = match self.tasks.pop_front() {
            Some(task) => task,
            None => {
                return Ok(None);
            },
        };
        match self.begin_task(&task, config, repo_config) {
            Plan::Done => Ok(None),
            Plan::Call(request) => {
                self.put_back(task);
                Ok(Some(request))
            },
            Plan::Fail(error) => {
                self.put_back(task);
                Err(error)
            },
        }
    }
}

impl State {
    /// Takes in the issues of the working group.
    fn take_wg_issues(&mut self, since: &String, issues: &Vec<UpdatedIssue>)
        ensures
            final(self)@ == absorb_wg_issues(old(self)@, since@, issues.deep_view()),
    {
        let latest = find_latest_update(&self.last_time_wg, issues);
        let mut i: usize = 0;
        while i < issues.len()
            invariant
                i <= issues.len(),
                self@ == old(self)@.stage(
                    issues.deep_view().take(i as int).map_values(fetch_comments_for(since@)),
                ),
            decreases issues.len() - i,
        {
            let task = Task::FetchIssueComments {
                number: issues[i].issue_number,
                issue_title: issues[i].issue_title.clone(),
                issue_labels: clone_labels(&issues[i].issue_labels),
                since: since.clone(),
            };
            self.post_task(task);
            proof {
                let seen = issues.deep_view().take(i as int);
                lemma_take_push(issues.deep_view(), i as int);
                lemma_map_push(seen, issues.deep_view()[i as int], fetch_comments_for(since@));
            }
            i += 1;
        }
        proof {
            lemma_take_all(issues.deep_view());
        }
        self.last_time_wg = latest;
    }

    /// Takes in the comments of an issue.
    fn take_comments(
        &mut self,
        number: i64,
        issue_title: &String,
        issue_labels: &Vec<IssueLabel>,
        since: &String,
        comments: &Vec<IssueComment>,
    )
        ensures
            final(self)@ == absorb_comments(
                old(self)@,
                number as int,
                issue_title@,
                issue_labels.deep_view(),
                since@,
                comments.deep_view(),
            ),
    {
        let ghost keep = made_since(since@);
        let ghost make = process_comment_for(number as int, issue_title@, issue_labels.deep_view());
        let mut i: usize = 0;
        proof {
            lemma_filter_map_empty(keep, make);
        }
        while i < comments.len()
            invariant
                i <= comments.len(),
                keep == made_since(since@),
                make == process_comment_for(number as int, issue_title@, issue_labels.deep_view()),
                self@ == old(self)@.stage(
                    comments.deep_view().take(i as int).filter(keep).map_values(make),
                ),
            decreases comments.len() - i,
        {
            proof {
                lemma_take_push(comments.deep_view(), i as int);
                lemma_filter_map_push(
                    comments.deep_view().take(i as int),
                    comments.deep_view()[i as int],
                    keep,
                    make,
                );
            }
            if text_at_most(since.as_str(), comments[i].created_at.as_str()) {
                let task = Task::ProcessComment {
                    issue_number: number,
                    issue_title: issue_title.clone(),
                    issue_labels: clone_labels(issue_labels),
                    url: comments[i].url.clone(),
                    body_text: comments[i].body_text.clone(),
                };
                self.post_task(task);
            }
            i += 1;
        }
        proof {
            lemma_take_all(comments.deep_view());
        }
    }

    /// Takes in a poll of the decisions tracker.
    fn take_decisions_poll(&mut self, issues: &Vec<UpdatedIssue>, policy: &RepoConfig) -> (r:
        Option<Error>)
        ensures
            final(self)@ == absorb_decisions_poll(old(self)@, issues.deep_view(), policy@).0,
            failure_view(r) == absorb_decisions_poll(old(self)@, issues.deep_view(), policy@).1,
    {
        let latest = find_latest_update(&self.last_time_decisions, issues);
        let failure = self.take_decision_issues(issues, policy);
        if failure.is_some() {
            return failure;
        }
        self.last_time_decisions = latest;
        None
    }

    /// Takes in the labels of the decisions repository.
    fn take_labels(&mut self, known: &Vec<KnownLabel>)
        ensures
            final(self)@ == absorb_labels(old(self)@, known.deep_view()),
    {
        let mut labels = match self.known_labels.take() {
            Some(labels) => labels,
            None => TextMap::new(),
        };
        let ghost start = labels@;
        let mut i: usize = 0;
        while i < known.len()
            invariant
                i <= known.len(),
                labels@ == merged_labels(start, known.deep_view().take(i as int)),
            decreases known.len() - i,
        {
            proof {
                lemma_take_push(known.deep_view(), i as int);
                assert(known.deep_view().take(i + 1).drop_last() =~= known.deep_view().take(
                    i as int,
                ));
            }
            labels.insert(known[i].name.clone(), known[i].id.clone());
            i += 1;
        }
        proof {
            lemma_take_all(known.deep_view());
        }
        self.known_labels = Some(labels);
    }

    /// Takes in the title and the body of a decision.
    fn take_title_and_body(
        &mut self,
        product: &String,
        component: &String,
        issue_number: i64,
        issue_id: &String,
        title: &String,
        body: &String,
        config: &Config,
    ) -> (r: Option<Error>)
        ensures
            final(self)@ == absorb_title_and_body(
                old(self)@,
                product@,
                component@,
                issue_number as int,
                issue_id@,
                title@,
                body@,
                config@,
            ).0,
            failure_view(r) == absorb_title_and_body(
                old(self)@,
                product@,
                component@,
                issue_number as int,
                issue_id@,
                title@,
                body@,
                config@,
            ).1,
    {
        let description = describe_bug(body);
        let urls = extract_urls(description.as_str());
        match make_bug_details(
            product,
            component,
            issue_number,
            issue_id,
            title,
            description,
            urls,
            config,
        ) {
            Ok(task) => {
                self.post_task(task);
                None
            },
            Err(error) => Some(error),
        }
    }

    /// Takes in the id of a label that was created.
    fn take_label_created(&mut self, name: &String, id: &String) -> (r: Option<Error>)
        ensures
            old(self)@.labels is Some ==> r is None && final(self)@ == (StateView {
                labels: Some(old(self)@.labels->Some_0.insert(name@, id@)),
                ..old(self)@
            }),
            old(self)@.labels is None ==> r == Some(Error::UnexpectedResponse) && final(self)@
                == old(self)@,
    {
        match self.known_labels.take() {
            Some(labels) => {
                let mut labels = labels;
                labels.insert(name.clone(), id.clone());
                self.known_labels = Some(labels);
                None
            },
            None => Some(Error::UnexpectedResponse),
        }
    }

    /// Takes in an answer to the request of `task`.
    fn take_response(
        &mut self,
        task: &Task,
        response: &Response,
        config: &Config,
        policy: &RepoConfig,
    ) -> (r: Option<Error>)
        ensures
            final(self)@ == absorb(task@, response@, old(self)@, config@, policy@).0,
            failure_view(r) == absorb(task@, response@, old(self)@, config@, policy@).1,
    {
        match (task, response) {
            (Task::PollWGIssues { since }, Response::UpdatedIssues { issues }) => {
                self.take_wg_issues(since, issues);
                None
            },
            (
                Task::FetchIssueComments { number, issue_title, issue_labels, since },
                Response::IssueComments { comments },
            ) => {
                self.take_comments(*number, issue_title, issue_labels, since, comments);
                None
            },
            (
                Task::PollDecisionIssues { .. },
                Response::UpdatedIssues { issues },
            ) => self.take_decisions_poll(issues, policy),
            (Task::LoadDecisionLabels, Response::KnownLabels { known }) => {
                self.take_labels(known);
                None
            },
            (Task::LoadDecisionsRepoId, Response::RepoId { found }) => match found {
                Some(id) => {
                    self.decisions_repo_id = Some(id.clone());
                    None
                },
                None => Some(Error::RepositoryNotFound),
            },
            (
                Task::EnsureLabel { name, .. },
                Response::LabelCreated { id },
            ) => self.take_label_created(name, id),
            (Task::FileDecisionIssue { .. }, Response::IssueCreated { .. }) => None,
            (
                Task::FileBug { product, component, issue_number, issue_id },
                Response::IssueTitleAndBody { title, body },
            ) => self.take_title_and_body(
                product,
                component,
                *issue_number,
                issue_id,
                title,
                body,
                config,
            ),
            (Task::FileBugWithDetails { issue_id, .. }, Response::BugFiled { url }) => {
                self.post_task(Task::AddIssueComment { issue_id: issue_id.clone(), body: url.clone() });
                None
            },
            (Task::RemoveBugLabel { .. }, Response::LabelsRemoved) => None,
            (Task::CloseIssue { .. }, Response::IssueClosed) => None,
            (Task::AddIssueComment { .. }, Response::CommentAdded) => None,
            _ => Some(Error::UnexpectedResponse),
        }
    }
}

/// The view of the outcome of a call.
pub open spec fn outcome_view(outcome: Result<Response, Error>) -> Result<
    ResponseView,
    ErrorView,
> {
    match outcome {
        Ok(response) => Ok(response@),
        Err(error) => Err(error@),
    }
}

/// The view of what the end of a step hands back.
pub open spec fn completed_view(r: Result<(), Error>) -> Result<(), ErrorView> {
    match r {
        Ok(_) => Ok(()),
        Err(error) => Err(error@),
    }
}

impl State {
    /// Ends a step that asked for a call, with the call's outcome. A call
    /// that failed leaves the state as it is, with the task in front, and
    /// its failure is handed back. An answer is taken in and the task is
    /// done; where taking it in fails, the task stays in front.
    pub fn complete(
        &mut self,
        outcome: Result<Response, Error>,
        config: &Config,
        repo_config: &RepoConfig,
    ) -> (r: Result<(), Error>)
        ensures
            final(self)@ == complete(old(self)@, outcome_view(outcome), config@, repo_config@).0,
            completed_view(r) == complete(
                old(self)@,
                outcome_view(outcome),
                config@,
                repo_config@,
            ).1,
    {
        let response = match outcome {
            Ok(response) => response,
            Err(error) => {
                return Err(error);
            },
        };
        let task = match self.tasks.pop_front() {
            Some(task) => task,
            None => {
                return Err(Error::UnexpectedResponse);
            },
        };
        proof {
            assert(self@ =~= old(self)@.without_front());
        }
        match self.take_response(&task, &response, config, repo_config) {
            Some(error) => {
                self.put_back(task);
                Err(error)
            },
            None => Ok(()),
        }
    }
}

impl State {
    /// The part of the state that outlasts a run.
    pub fn snapshot(&self) -> (r: Snapshot)
        ensures
            r@.restored() == self@.persisted(),
    {
        let mut tasks: Vec<Task> = Vec::new();
        let mut i: usize = 0;
        while i < self.tasks.len()
            invariant
                i <= self.tasks.len(),
                tasks.deep_view() == self.tasks.deep_view().take(i as int),
            decreases self.tasks.len() - i,
        {
            let ghost before = tasks;
            let task = self.tasks[i].clone();
            tasks.push(task);
            proof {
                lemma_deep_view_push(before@, tasks, task);
                lemma_take_push(self.tasks.deep_view(), i as int);
            }
            i += 1;
        }
        proof {
            lemma_take_all(self.tasks.deep_view());
        }
        Snapshot {
            tasks,
            posted_tasks: clone_tasks(&self.posted_tasks),
            handled_wg_comments: self.handled_wg_comments.clone(),
            handled_decisions_issues: self.handled_decisions_issues.numbers(),
            last_time_wg: self.last_time_wg.clone(),
            last_time_decisions: self.last_time_decisions.clone(),
        }
    }

    /// The state that a run begins with when it finds `snapshot`.
    pub fn restore(snapshot: Snapshot) -> (r: State)
        ensures
            r@ == snapshot@.restored(),
    {
        let mut tasks: VecDeque<Task> = VecDeque::new();
        let mut i: usize = 0;
        while i < snapshot.tasks.len()
            invariant
                i <= snapshot.tasks.len(),
                tasks.deep_view() == snapshot.tasks.deep_view().take(i as int),
            decreases snapshot.tasks.len() - i,
        {
            let task = snapshot.tasks[i].clone();
            tasks.push_back(task);
            proof {
                lemma_take_push(snapshot.tasks.deep_view(), i as int);
            }
            i += 1;
        }
        proof {
            lemma_take_all(snapshot.tasks.deep_view());
        }
        let handled_decisions_issues = IssueLedger::from_numbers(
            &snapshot.handled_decisions_issues,
        );
        State {
            tasks,
            posted_tasks: snapshot.posted_tasks,
            handled_wg_comments: snapshot.handled_wg_comments,
            handled_decisions_issues,
            known_labels: None,
            decisions_repo_id: None,
            last_time_wg: snapshot.last_time_wg,
            last_time_decisions: snapshot.last_time_decisions,
        }
    }

    /// The state that a run begins with when it finds `snapshot` in a file
    /// of the version `version`.
    pub fn from_versioned_str(version: u32, snapshot: Snapshot) -> (r: Result<State, Error>)
        ensures
            match r {
                Ok(state) => version_failure(version) is None && state@ == snapshot@.restored(),
                Err(error) => version_failure(version) == Some(error@),
            },
    {
        check_version(version)?;
        Ok(State::restore(snapshot))
    }

    /// Whether the labels of the decisions repository have been loaded.
    pub fn labels_loaded(&self) -> (r: bool)
        ensures
            r == self@.labels is Some,
    {
        self.known_labels.is_some()
    }

    /// The id of a label of the decisions repository, where the labels have
    /// been loaded and hold the name.
    pub fn label_id(&self, name: &String) -> (r: Option<String>)
        ensures
            match r {
                Some(id) => self@.labels is Some && self@.labels->Some_0.dom().contains(name@)
                    && self@.labels->Some_0[name@] == id@,
                None => self@.labels is None || !self@.labels->Some_0.dom().contains(name@),
            },
    {
        match &self.known_labels {
            Some(labels) => labels.get(name),
            None => None,
        }
    }

    /// The id of the decisions repository, where it has been loaded.
    pub fn decisions_repo_id(&self) -> (r: Option<String>)
        ensures
            r.deep_view() == self@.repo_id,
    {
        match &self.decisions_repo_id {
            Some(id) => Some(id.clone()),
            None => None,
        }
    }
}

/// Where looking at a prefix of the issues fails, looking at all of them
/// fails in the same way and leaves the same state.
pub proof fn lemma_decision_failure_stays(
    rest: StateView,
    issues: Seq<UpdatedIssueView>,
    n: int,
    policy: RepoConfigView,
)
    requires
        0 <= n <= issues.len(),
        absorb_decision_issues(rest, issues.take(n), policy).1 is Some,
    ensures
        absorb_decision_issues(rest, issues, policy) == absorb_decision_issues(
            rest,
            issues.take(n),
            policy,
        ),
    decreases issues.len(),
{
    if n < issues.len() {
        assert(issues.drop_last().take(n) =~= issues.take(n));
        lemma_decision_failure_stays(rest, issues.drop_last(), n, policy);
    } else {
        assert(issues.take(n) =~= issues);
    }
}

} // verus!
