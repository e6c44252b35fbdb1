//! What the issue trackers are asked and what they answer, as plain data.
//! The calls themselves are made by the driver; the engine only names them.

use crate::seqs::{lemma_deep_view_push, lemma_take_all, lemma_take_push};
use vstd::prelude::*;

verus! {

/// A label on an issue of the working group's tracker.
#[derive(Debug, PartialEq, Eq)]
pub struct IssueLabel {
    pub name: String,
    pub color: String,
}

/// A label as mathematics.
#[verifier::ext_equal]
pub struct IssueLabelView {
    pub name: Seq<char>,
    pub color: Seq<char>,
}

impl View for IssueLabel {
    type V = IssueLabelView;

    open spec fn view(&self) -> IssueLabelView {
        IssueLabelView { name: self.name@, color: self.color@ }
    }
}

impl DeepView for IssueLabel {
    type V = IssueLabelView;

    open spec fn deep_view(&self) -> IssueLabelView {
        self.view()
    }
}

impl Clone for IssueLabel {
    fn clone(&self) -> (r: Self)
        ensures
            r@ == self@,
    {
        IssueLabel { name: self.name.clone(), color: self.color.clone() }
    }
}

/// An issue that changed since some time.
#[derive(Debug, PartialEq, Eq)]
pub struct UpdatedIssue {
    pub id: String,
    pub issue_number: i64,
    pub issue_title: String,
    pub updated_at: String,
    pub issue_labels: Vec<IssueLabel>,
}

/// An issue as mathematics.
#[verifier::ext_equal]
pub struct UpdatedIssueView {
    pub id: Seq<char>,
    pub issue_number: int,
    pub issue_title: Seq<char>,
    pub updated_at: Seq<char>,
    pub issue_labels: Seq<IssueLabelView>,
}

impl View for UpdatedIssue {
    type V = UpdatedIssueView;

    open spec fn view(&self) -> UpdatedIssueView {
        UpdatedIssueView {
            id: self.id@,
            issue_number: self.issue_number as int,
            issue_title: self.issue_title@,
            updated_at: self.updated_at@,
            issue_labels: self.issue_labels.deep_view(),
        }
    }
}

impl DeepView for UpdatedIssue {
    type V = UpdatedIssueView;

    open spec fn deep_view(&self) -> UpdatedIssueView {
        self.view()
    }
}

/// A comment on an issue.
#[derive(Debug, PartialEq, Eq)]
pub struct IssueComment {
    pub url: String,
    pub created_at: String,
    pub body_text: String,
}

/// A comment as mathematics.
#[verifier::ext_equal]
pub struct IssueCommentView {
    pub url: Seq<char>,
    pub created_at: Seq<char>,
    pub body_text: Seq<char>,
}

impl View for IssueComment {
    type V = IssueCommentView;

    open spec fn view(&self) -> IssueCommentView {
        IssueCommentView {
            url: self.url@,
            created_at: self.created_at@,
            body_text: self.body_text@,
        }
    }
}

impl DeepView for IssueComment {
    type V = IssueCommentView;

    open spec fn deep_view(&self) -> IssueCommentView {
        self.view()
    }
}

/// A label that the decisions repository knows, with its id.
#[derive(Debug, PartialEq, Eq)]
pub struct KnownLabel {
    pub id: String,
    pub name: String,
}

/// A known label as mathematics.
#[verifier::ext_equal]
pub struct KnownLabelView {
    pub id: Seq<char>,
    pub name: Seq<char>,
}

impl View for KnownLabel {
    type V = KnownLabelView;

    open spec fn view(&self) -> KnownLabelView {
        KnownLabelView { id: self.id@, name: self.name@ }
    }
}

impl DeepView for KnownLabel {
    type V = KnownLabelView;

    open spec fn deep_view(&self) -> KnownLabelView {
        self.view()
    }
}

/// A call that the driver makes for the engine. The keys that the remote
/// sides ask for are the driver's to add.
#[derive(Debug, PartialEq, Eq)]
pub enum Request {
    /// The issues of a repository that changed since `since`, with their
    /// labels.
    UpdatedIssues { repo_owner: String, repo_name: String, since: String },
    /// The comments on an issue.
    IssueComments { repo_owner: String, repo_name: String, number: i64 },
    /// The labels of a repository.
    KnownLabels { repo_owner: String, repo_name: String },
    /// The id of a repository.
    RepoId { repo_owner: String, repo_name: String },
    /// Create a label.
    CreateLabel { repo_id: String, name: String, color: String },
    /// Create an issue with these labels, given by id.
    CreateIssue { repo_id: String, title: String, body: String, labels: Vec<String> },
    /// Take labels, given by id, off an issue.
    RemoveLabels { labelable: String, labels: Vec<String> },
    /// Close an issue.
    CloseIssue { issue_id: String },
    /// Comment on an issue.
    AddIssueComment { issue_id: String, body: String },
    /// The title and the body of an issue.
    IssueTitleAndBody { repo_owner: String, repo_name: String, number: i64 },
    /// File a bug with the bug tracker.
    FileBug {
        product: String,
        component: String,
        summary: String,
        description: String,
        urls: Vec<String>,
    },
}

/// A call as mathematics.
#[verifier::ext_equal]
pub enum RequestView {
    UpdatedIssues { repo_owner: Seq<char>, repo_name: Seq<char>, since: Seq<char> },
    IssueComments { repo_owner: Seq<char>, repo_name: Seq<char>, number: int },
    KnownLabels { repo_owner: Seq<char>, repo_name: Seq<char> },
    RepoId { repo_owner: Seq<char>, repo_name: Seq<char> },
    CreateLabel { repo_id: Seq<char>, name: Seq<char>, color: Seq<char> },
    CreateIssue { repo_id: Seq<char>, title: Seq<char>, body: Seq<char>, labels: Seq<Seq<char>> },
    RemoveLabels { labelable: Seq<char>, labels: Seq<Seq<char>> },
    CloseIssue { issue_id: Seq<char> },
    AddIssueComment { issue_id: Seq<char>, body: Seq<char> },
    IssueTitleAndBody { repo_owner: Seq<char>, repo_name: Seq<char>, number: int },
    FileBug {
        product: Seq<char>,
        component: Seq<char>,
        summary: Seq<char>,
        description: Seq<char>,
        urls: Seq<Seq<char>>,
    },
}

impl View for Request {
    type V = RequestView;

    open spec fn view(&self) -> RequestView {
        match self {
            Request::UpdatedIssues { repo_owner, repo_name, since } => RequestView::UpdatedIssues {
                repo_owner: repo_owner@,
                repo_name: repo_name@,
                since: since@,
            },
            Request::IssueComments { repo_owner, repo_name, number } => RequestView::IssueComments {
                repo_owner: repo_owner@,
                repo_name: repo_name@,
                number: *number as int,
            },
            Request::KnownLabels { repo_owner, repo_name } => RequestView::KnownLabels {
                repo_owner: repo_owner@,
                repo_name: repo_name@,
            },
            Request::RepoId { repo_owner, repo_name } => RequestView::RepoId {
                repo_owner: repo_owner@,
                repo_name: repo_name@,
            },
            Request::CreateLabel { repo_id, name, color } => RequestView::CreateLabel {
                repo_id: repo_id@,
                name: name@,
                color: color@,
            },
            Request::CreateIssue { repo_id, title, body, labels } => RequestView::CreateIssue {
                repo_id: repo_id@,
                title: title@,
                body: body@,
                labels: labels.deep_view(),
            },
            Request::RemoveLabels { labelable, labels } => RequestView::RemoveLabels {
                labelable: labelable@,
                labels: labels.deep_view(),
            },
            Request::CloseIssue { issue_id } => RequestView::CloseIssue { issue_id: issue_id@ },
            Request::AddIssueComment { issue_id, body } => RequestView::AddIssueComment {
                issue_id: issue_id@,
                body: body@,
            },
            Request::IssueTitleAndBody {
                repo_owner,
                repo_name,
                number,
            } => RequestView::IssueTitleAndBody {
                repo_owner: repo_owner@,
                repo_name: repo_name@,
                number: *number as int,
            },
            Request::FileBug {
                product,
                component,
                summary,
                description,
                urls,
            } => RequestView::FileBug {
                product: product@,
                component: component@,
                summary: summary@,
                description: description@,
                urls: urls.deep_view(),
            },
        }
    }
}

/// What came back from a call.
#[derive(Debug, PartialEq, Eq)]
pub enum Response {
    /// All the issues asked for.
    UpdatedIssues { issues: Vec<UpdatedIssue> },
    /// All the comments asked for.
    IssueComments { comments: Vec<IssueComment> },
    /// All the labels asked for.
    KnownLabels { known: Vec<KnownLabel> },
    /// The id of the repository, if there is such a repository.
    RepoId { found: Option<String> },
    /// The id of the label that was created.
    LabelCreated { id: String },
    /// The id of the issue that was created.
    IssueCreated { id: String },
    /// The labels were taken off.
    LabelsRemoved,
    /// The issue was closed.
    IssueClosed,
    /// The comment was added.
    CommentAdded,
    /// The title and the body asked for.
    IssueTitleAndBody { title: String, body: String },
    /// The address of the bug that was filed.
    BugFiled { url: String },
}

/// What came back from a call, as mathematics.
#[verifier::ext_equal]
pub enum ResponseView {
    UpdatedIssues { issues: Seq<UpdatedIssueView> },
    IssueComments { comments: Seq<IssueCommentView> },
    KnownLabels { known: Seq<KnownLabelView> },
    RepoId { found: Option<Seq<char>> },
    LabelCreated { id: Seq<char> },
    IssueCreated { id: Seq<char> },
    LabelsRemoved,
    IssueClosed,
    CommentAdded,
    IssueTitleAndBody { title: Seq<char>, body: Seq<char> },
    BugFiled { url: Seq<char> },
}

impl View for Response {
    type V = ResponseView;

    open spec fn view(&self) -> ResponseView {
        match self {
            Response::UpdatedIssues { issues } => ResponseView::UpdatedIssues {
                issues: issues.deep_view(),
            },
            Response::IssueComments { comments } => ResponseView::IssueComments {
                comments: comments.deep_view(),
            },
            Response::KnownLabels { known } => ResponseView::KnownLabels {
                known: known.deep_view(),
            },
            Response::RepoId { found } => ResponseView::RepoId { found: found.deep_view() },
            Response::LabelCreated { id } => ResponseView::LabelCreated { id: id@ },
            Response::IssueCreated { id } => ResponseView::IssueCreated { id: id@ },
            Response::LabelsRemoved => ResponseView::LabelsRemoved,
            Response::IssueClosed => ResponseView::IssueClosed,
            Response::CommentAdded => ResponseView::CommentAdded,
            Response::IssueTitleAndBody { title, body } => ResponseView::IssueTitleAndBody {
                title: title@,
                body: body@,
            },
            Response::BugFiled { url } => ResponseView::BugFiled { url: url@ },
        }
    }
}

/// Copies a list of labels.
pub fn clone_labels(labels: &Vec<IssueLabel>) -> (r: Vec<IssueLabel>)
    ensures
        r.deep_view() == labels.deep_view(),
{
    let mut r: Vec<IssueLabel> = Vec::new();
    let mut i: usize = 0;
    while i < labels.len()
        invariant
            i <= labels.len(),
            r.deep_view() == labels.deep_view().take(i as int),
        decreases labels.len() - i,
    {
        let ghost before = r;
        let label = labels[i].clone();
        r.push(label);
        proof {
            lemma_deep_view_push(before@, r, label);
            lemma_take_push(labels.deep_view(), i as int);
        }
        i += 1;
    }
    proof {
        lemma_take_all(labels.deep_view());
    }
    r
}

/// Copies a list of texts.
pub fn clone_texts(texts: &Vec<String>) -> (r: Vec<String>)
    ensures
        r.deep_view() == texts.deep_view(),
{
    texts.clone()
}

} // verus!
