//! The units of work. A task is plain data: what it does when its turn
//! comes is decided by the engine.

use crate::query::{clone_labels, clone_texts, IssueLabel, IssueLabelView};
use crate::seqs::{lemma_deep_view_push, lemma_take_all, lemma_take_push};
use vstd::prelude::*;

verus! {

/// One unit of work in the queue.
#[derive(Debug, PartialEq, Eq)]
pub enum Task {
    /// Ask the working group's tracker for the issues updated since `since`.
    PollWGIssues { since: String },
    /// Ask for the comments on one issue of the working group.
    FetchIssueComments {
        number: i64,
        issue_title: String,
        issue_labels: Vec<IssueLabel>,
        since: String,
    },
    /// Look for resolutions in one comment.
    ProcessComment {
        issue_number: i64,
        issue_title: String,
        issue_labels: Vec<IssueLabel>,
        url: String,
        body_text: String,
    },
    /// Ask the decisions tracker for the issues updated since `since`.
    PollDecisionIssues { since: String },
    /// Load the labels that the decisions repository knows.
    LoadDecisionLabels,
    /// Make sure that the decisions repository has a label.
    EnsureLabel { name: String, color: String },
    /// File the resolutions of one comment as an issue.
    FileDecisionIssue {
        issue_number: i64,
        issue_title: String,
        labels: Vec<String>,
        comment_url: String,
        resolutions: Vec<String>,
    },
    /// Load the id of the decisions repository.
    LoadDecisionsRepoId,
    /// Read a decision issue and prepare a bug for it.
    FileBug { product: String, component: String, issue_number: i64, issue_id: String },
    /// File the prepared bug.
    FileBugWithDetails {
        product: String,
        component: String,
        summary: String,
        description: String,
        urls: Vec<String>,
        issue_number: i64,
        issue_id: String,
    },
    /// Take the `bug` label off a decision issue.
    RemoveBugLabel { issue_id: String },
    /// Close a decision issue.
    CloseIssue { issue_id: String },
    /// Comment on a decision issue.
    AddIssueComment { issue_id: String, body: String },
}

/// A task as mathematics.
#[verifier::ext_equal]
pub enum TaskView {
    PollWGIssues { since: Seq<char> },
    FetchIssueComments {
        number: int,
        issue_title: Seq<char>,
        issue_labels: Seq<IssueLabelView>,
        since: Seq<char>,
    },
    ProcessComment {
        issue_number: int,
        issue_title: Seq<char>,
        issue_labels: Seq<IssueLabelView>,
        url: Seq<char>,
        body_text: Seq<char>,
    },
    PollDecisionIssues { since: Seq<char> },
    LoadDecisionLabels,
    EnsureLabel { name: Seq<char>, color: Seq<char> },
    FileDecisionIssue {
        issue_number: int,
        issue_title: Seq<char>,
        labels: Seq<Seq<char>>,
        comment_url: Seq<char>,
        resolutions: Seq<Seq<char>>,
    },
    LoadDecisionsRepoId,
    FileBug { product: Seq<char>, component: Seq<char>, issue_number: int, issue_id: Seq<char> },
    FileBugWithDetails {
        product: Seq<char>,
        component: Seq<char>,
        summary: Seq<char>,
        description: Seq<char>,
        urls: Seq<Seq<char>>,
        issue_number: int,
        issue_id: Seq<char>,
    },
    RemoveBugLabel { issue_id: Seq<char> },
    CloseIssue { issue_id: Seq<char> },
    AddIssueComment { issue_id: Seq<char>, body: Seq<char> },
}

impl View for Task {
    type V = TaskView;

    open spec fn view(&self) -> TaskView {
        match self {
            Task::PollWGIssues { since } => TaskView::PollWGIssues { since: since@ },
            Task::FetchIssueComments {
                number,
                issue_title,
                issue_labels,
                since,
            } => TaskView::FetchIssueComments {
                number: *number as int,
                issue_title: issue_title@,
                issue_labels: issue_labels.deep_view(),
                since: since@,
            },
            Task::ProcessComment {
                issue_number,
                issue_title,
                issue_labels,
                url,
                body_text,
            } => TaskView::ProcessComment {
                issue_number: *issue_number as int,
                issue_title: issue_title@,
                issue_labels: issue_labels.deep_view(),
                url: url@,
                body_text: body_text@,
            },
            Task::PollDecisionIssues { since } => TaskView::PollDecisionIssues { since: since@ },
            Task::LoadDecisionLabels => TaskView::LoadDecisionLabels,
            Task::EnsureLabel { name, color } => TaskView::EnsureLabel {
                name: name@,
                color: color@,
            },
            Task::FileDecisionIssue {
                issue_number,
                issue_title,
                labels,
                comment_url,
                resolutions,
            } => TaskView::FileDecisionIssue {
                issue_number: *issue_number as int,
                issue_title: issue_title@,
                labels: labels.deep_view(),
                comment_url: comment_url@,
                resolutions: resolutions.deep_view(),
            },
            Task::LoadDecisionsRepoId => TaskView::LoadDecisionsRepoId,
            Task::FileBug { product, component, issue_number, issue_id } => TaskView::FileBug {
                product: product@,
                component: component@,
                issue_number: *issue_number as int,
                issue_id: issue_id@,
            },
            Task::FileBugWithDetails {
                product,
                component,
                summary,
                description,
                urls,
                issue_number,
                issue_id,
            } => TaskView::FileBugWithDetails {
                product: product@,
                component: component@,
                summary: summary@,
                description: description@,
                urls: urls.deep_view(),
                issue_number: *issue_number as int,
                issue_id: issue_id@,
            },
            Task::RemoveBugLabel { issue_id } => TaskView::RemoveBugLabel { issue_id: issue_id@ },
            Task::CloseIssue { issue_id } => TaskView::CloseIssue { issue_id: issue_id@ },
            Task::AddIssueComment { issue_id, body } => TaskView::AddIssueComment {
                issue_id: issue_id@,
                body: body@,
            },
        }
    }
}

impl DeepView for Task {
    type V = TaskView;

    open spec fn deep_view(&self) -> TaskView {
        self.view()
    }
}

impl Clone for Task {
    fn clone(&self) -> (r: Self)
        ensures
            r@ == self@,
    {
        match self {
            Task::PollWGIssues { since } => Task::PollWGIssues { since: since.clone() },
            Task::FetchIssueComments {
                number,
                issue_title,
                issue_labels,
                since,
            } => Task::FetchIssueComments {
                number: *number,
                issue_title: issue_title.clone(),
                issue_labels: clone_labels(issue_labels),
                since: since.clone(),
            },
            Task::ProcessComment {
                issue_number,
                issue_title,
                issue_labels,
                url,
                body_text,
            } => Task::ProcessComment {
                issue_number: *issue_number,
                issue_title: issue_title.clone(),
                issue_labels: clone_labels(issue_labels),
                url: url.clone(),
                body_text: body_text.clone(),
            },
            Task::PollDecisionIssues { since } => Task::PollDecisionIssues {
                since: since.clone(),
            },
            Task::LoadDecisionLabels => Task::LoadDecisionLabels,
            Task::EnsureLabel { name, color } => Task::EnsureLabel {
                name: name.clone(),
                color: color.clone(),
            },
            Task::FileDecisionIssue {
                issue_number,
                issue_title,
                labels,
                comment_url,
                resolutions,
            } => Task::FileDecisionIssue {
                issue_number: *issue_number,
                issue_title: issue_title.clone(),
                labels: clone_texts(labels),
                comment_url: comment_url.clone(),
                resolutions: clone_texts(resolutions),
            },
            Task::LoadDecisionsRepoId => Task::LoadDecisionsRepoId,
            Task::FileBug { product, component, issue_number, issue_id } => Task::FileBug {
                product: product.clone(),
                component: component.clone(),
                issue_number: *issue_number,
                issue_id: issue_id.clone(),
            },
            Task::FileBugWithDetails {
                product,
                component,
                summary,
                description,
                urls,
                issue_number,
                issue_id,
            } => Task::FileBugWithDetails {
                product: product.clone(),
                component: component.clone(),
                summary: summary.clone(),
                description: description.clone(),
                urls: clone_texts(urls),
                issue_number: *issue_number,
                issue_id: issue_id.clone(),
            },
            Task::RemoveBugLabel { issue_id } => Task::RemoveBugLabel {
                issue_id: issue_id.clone(),
            },
            Task::CloseIssue { issue_id } => Task::CloseIssue { issue_id: issue_id.clone() },
            Task::AddIssueComment { issue_id, body } => Task::AddIssueComment {
                issue_id: issue_id.clone(),
                body: body.clone(),
            },
        }
    }
}

/// Copies a list of tasks.
pub fn clone_tasks(tasks: &Vec<Task>) -> (r: Vec<Task>)
    ensures
        r.deep_view() == tasks.deep_view(),
{
    let mut r: Vec<Task> = Vec::new();
    let mut i: usize = 0;
    while i < tasks.len()
        invariant
            i <= tasks.len(),
            r.deep_view() == tasks.deep_view().take(i as int),
        decreases tasks.len() - i,
    {
        let ghost before = r;
        let task = tasks[i].clone();
        r.push(task);
        proof {
            lemma_deep_view_push(before@, r, task);
            lemma_take_push(tasks.deep_view(), i as int);
        }
        i += 1;
    }
    proof {
        lemma_take_all(tasks.deep_view());
    }
    r
}

} // verus!
