//! What can go wrong in a step, by kind.

use crate::text::{decimal, decimal_string, joined};
use vstd::prelude::*;

verus! {

/// The kinds of failure.
#[derive(Debug, Clone, Copy, PartialEq, Eq, Structural)]
pub enum ErrorKind {
    Config,
    Network,
    Response,
    NotFound,
    Parse,
    Policy,
}

/// A failure of one step. The variants with a `message` are raised by the
/// driver, which made the call that failed; the others by the engine.
#[derive(Debug, PartialEq, Eq)]
pub enum Error {
    /// The configuration could not be read.
    Config { message: String },
    /// A configuration value does not have the syntax that its key asks for.
    ConfigSyntax { key: String },
    /// The regex engine rejected a pattern.
    Pattern { pattern: String },
    /// A request did not reach the remote side, or its answer did not arrive.
    Network { message: String },
    /// The remote side answered with errors or without data.
    Response { message: String },
    /// The answer handed in is not one to the request of the task in front.
    UnexpectedResponse,
    /// The decisions repository does not exist.
    RepositoryNotFound,
    /// The snapshot has no first line.
    MissingVersion,
    /// The snapshot's first line is not a version number.
    InvalidVersion,
    /// The snapshot was written in a version that is not known.
    UnknownVersion { version: u32 },
    /// The snapshot's document could not be read.
    Parse { message: String },
    /// The decisions repository has no `bug` label.
    MissingBugLabel,
    /// A configured component is not a product and a component.
    InvalidComponent { text: String },
}

/// A failure as mathematics: each text as its sequence of characters.
pub enum ErrorView {
    Config { message: Seq<char> },
    ConfigSyntax { key: Seq<char> },
    Pattern { pattern: Seq<char> },
    Network { message: Seq<char> },
    Response { message: Seq<char> },
    UnexpectedResponse,
    RepositoryNotFound,
    MissingVersion,
    InvalidVersion,
    UnknownVersion { version: u32 },
    Parse { message: Seq<char> },
    MissingBugLabel,
    InvalidComponent { text: Seq<char> },
}

impl View for Error {
    type V = ErrorView;

    open spec fn view(&self) -> ErrorView {
        match self {
            Error::Config { message } => ErrorView::Config { message: message@ },
            Error::ConfigSyntax { key } => ErrorView::ConfigSyntax { key: key@ },
            Error::Pattern { pattern } => ErrorView::Pattern { pattern: pattern@ },
            Error::Network { message } => ErrorView::Network { message: message@ },
            Error::Response { message } => ErrorView::Response { message: message@ },
            Error::UnexpectedResponse => ErrorView::UnexpectedResponse,
            Error::RepositoryNotFound => ErrorView::RepositoryNotFound,
            Error::MissingVersion => ErrorView::MissingVersion,
            Error::InvalidVersion => ErrorView::InvalidVersion,
            Error::UnknownVersion { version } => ErrorView::UnknownVersion { version: *version },
            Error::Parse { message } => ErrorView::Parse { message: message@ },
            Error::MissingBugLabel => ErrorView::MissingBugLabel,
            Error::InvalidComponent { text } => ErrorView::InvalidComponent { text: text@ },
        }
    }
}

/// The view of a failure that may be there.
pub open spec fn failure_view(failure: Option<Error>) -> Option<ErrorView> {
    match failure {
        Some(error) => Some(error@),
        None => None,
    }
}

impl ErrorView {
    /// The kind that a failure belongs to.
    pub open spec fn kind(self) -> ErrorKind {
        match self {
            ErrorView::Config { .. } => ErrorKind::Config,
            ErrorView::ConfigSyntax { .. } => ErrorKind::Config,
            ErrorView::Pattern { .. } => ErrorKind::Config,
            ErrorView::Network { .. } => ErrorKind::Network,
            ErrorView::Response { .. } => ErrorKind::Response,
            ErrorView::UnexpectedResponse => ErrorKind::Response,
            ErrorView::RepositoryNotFound => ErrorKind::NotFound,
            ErrorView::MissingVersion => ErrorKind::Parse,
            ErrorView::InvalidVersion => ErrorKind::Parse,
            ErrorView::UnknownVersion { .. } => ErrorKind::Parse,
            ErrorView::Parse { .. } => ErrorKind::Parse,
            ErrorView::MissingBugLabel => ErrorKind::Policy,
            ErrorView::InvalidComponent { .. } => ErrorKind::Policy,
        }
    }

    /// The line that is printed when a run ends with this failure at the
    /// time `timestamp`.
    pub open spec fn report_line(self, timestamp: Seq<char>) -> Seq<char> {
        "["@ + timestamp + "] error: "@ + self.message()
    }

    /// The line that tells a person of the failure.
    pub open spec fn message(self) -> Seq<char> {
        match self {
            ErrorView::Config { message } => message,
            ErrorView::ConfigSyntax { key } => "config file "@ + key
                + " value has the wrong syntax"@,
            ErrorView::Pattern { pattern } => "could not compile pattern '"@ + pattern + "'"@,
            ErrorView::Network { message } => message,
            ErrorView::Response { message } => message,
            ErrorView::UnexpectedResponse => "unexpected response"@,
            ErrorView::RepositoryNotFound => "repository not found"@,
            ErrorView::MissingVersion => "could not find version number in state file"@,
            ErrorView::InvalidVersion => "could not parse version number in state file"@,
            ErrorView::UnknownVersion { version } => "unknown state file version number "@
                + decimal(version as int),
            ErrorView::Parse { message } => message,
            ErrorView::MissingBugLabel => "decisions repo missing 'bug' label"@,
            ErrorView::InvalidComponent { text } => "could not parse component '"@ + text + "'"@,
        }
    }
}

impl Error {
    /// The kind that this failure belongs to.
    pub fn kind(&self) -> (r: ErrorKind)
        ensures
            r == self@.kind(),
    {
        match self {
            Error::Config { .. } => ErrorKind::Config,
            Error::ConfigSyntax { .. } => ErrorKind::Config,
            Error::Pattern { .. } => ErrorKind::Config,
            Error::Network { .. } => ErrorKind::Network,
            Error::Response { .. } => ErrorKind::Response,
            Error::UnexpectedResponse => ErrorKind::Response,
            Error::RepositoryNotFound => ErrorKind::NotFound,
            Error::MissingVersion => ErrorKind::Parse,
            Error::InvalidVersion => ErrorKind::Parse,
            Error::UnknownVersion { .. } => ErrorKind::Parse,
            Error::Parse { .. } => ErrorKind::Parse,
            Error::MissingBugLabel => ErrorKind::Policy,
            Error::InvalidComponent { .. } => ErrorKind::Policy,
        }
    }

    /// The line that is printed when a run ends with this failure at the
    /// time `timestamp`.
    pub fn report_line(&self, timestamp: &str) -> (r: String)
        ensures
            r@ == self@.report_line(timestamp@),
    {
        let mut r = joined("[", timestamp);
        r.append("] error: ");
        r.append(self.message().as_str());
        r
    }

    /// The line that tells a person of this failure.
    pub fn message(&self) -> (r: String)
        ensures
            r@ == self@.message(),
    {
        match self {
            Error::Config { message } => message.clone(),
            Error::ConfigSyntax { key } => {
                let mut r = joined("config file ", key.as_str());
                r.append(" value has the wrong syntax");
                r
            },
            Error::Pattern { pattern } => {
                let mut r = joined("could not compile pattern '", pattern.as_str());
                r.append("'");
                r
            },
            Error::Network { message } => message.clone(),
            Error::Response { message } => message.clone(),
            Error::UnexpectedResponse => String::from_str("unexpected response"),
            Error::RepositoryNotFound => String::from_str("repository not found"),
            Error::MissingVersion => String::from_str(
                "could not find version number in state file",
            ),
            Error::InvalidVersion => String::from_str(
                "could not parse version number in state file",
            ),
            Error::UnknownVersion { version } => {
                let number = decimal_string(*version as i64);
                joined("unknown state file version number ", number.as_str())
            },
            Error::Parse { message } => message.clone(),
            Error::MissingBugLabel => String::from_str("decisions repo missing 'bug' label"),
            Error::InvalidComponent { text } => {
                let mut r = joined("could not parse component '", text.as_str());
                r.append("'");
                r
            },
        }
    }
}

} // verus!
