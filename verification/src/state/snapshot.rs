//! What of the state is written down between runs, and the file that holds
//! it: a line with the version, then the document.

use crate::error::{Error, ErrorView};
use crate::state::model::StateView;
use crate::state::task::{Task, TaskView};
use crate::text::{
    chars_of, contains_text, decimal, decimal_string, find_text, index_of_text, parse_u32,
    parsed_u32,
};
use vstd::prelude::*;

verus! {

/// The version in which snapshots are written.
pub const CURRENT_VERSION: u32 = 1;

/// What ends the line that holds the version.
pub const VERSION_LINE_END: &'static str = "\n";

/// The part of the state that outlasts a run.
#[derive(Debug, PartialEq, Eq)]
pub struct Snapshot {
    pub tasks: Vec<Task>,
    pub posted_tasks: Vec<Task>,
    pub handled_wg_comments: Vec<String>,
    pub handled_decisions_issues: Vec<i64>,
    pub last_time_wg: String,
    pub last_time_decisions: String,
}

/// A snapshot as mathematics: the queue, the staged tasks and the ledgers
/// as sequences, in the order in which they are written down.
#[verifier::ext_equal]
pub struct SnapshotView {
    pub tasks: Seq<TaskView>,
    pub posted_tasks: Seq<TaskView>,
    pub handled_wg_comments: Seq<Seq<char>>,
    pub handled_decisions_issues: Seq<int>,
    pub last_time_wg: Seq<char>,
    pub last_time_decisions: Seq<char>,
}

/// A number of an issue as an integer.
pub open spec fn as_int() -> spec_fn(i64) -> int {
    |n: i64| n as int
}

impl View for Snapshot {
    type V = SnapshotView;

    open spec fn view(&self) -> SnapshotView {
        SnapshotView {
            tasks: self.tasks.deep_view(),
            posted_tasks: self.posted_tasks.deep_view(),
            handled_wg_comments: self.handled_wg_comments.deep_view(),
            handled_decisions_issues: self.handled_decisions_issues@.map_values(as_int()),
            last_time_wg: self.last_time_wg@,
            last_time_decisions: self.last_time_decisions@,
        }
    }
}

impl SnapshotView {
    /// The state that a run begins with when it finds this snapshot: what
    /// was written down, and nothing loaded.
    pub open spec fn restored(self) -> StateView {
        StateView {
            pending: self.tasks,
            staged: self.posted_tasks,
            handled_comments: self.handled_wg_comments.to_set(),
            handled_issues: self.handled_decisions_issues.to_set(),
            labels: None,
            repo_id: None,
            wg_watermark: self.last_time_wg,
            decisions_watermark: self.last_time_decisions,
        }
    }
}

impl StateView {
    /// The state with what does not outlast a run forgotten.
    pub open spec fn persisted(self) -> StateView {
        StateView { labels: None, repo_id: None, ..self }
    }
}

/// The text of a snapshot file: the version in decimal, a line feed, and
/// the document.
pub open spec fn versioned(version: u32, document: Seq<char>) -> Seq<char> {
    decimal(version as int) + VERSION_LINE_END@ + document
}

/// The version and the document of a snapshot file. A text without a line
/// feed has no version; the first line must be a number of 32 bits in
/// decimal.
pub open spec fn split_version(contents: Seq<char>) -> Result<(u32, Seq<char>), ErrorView> {
    if !contains_text(contents, VERSION_LINE_END@) {
        Err(ErrorView::MissingVersion)
    } else {
        let at = index_of_text(contents, VERSION_LINE_END@);
        match parsed_u32(contents.take(at)) {
            Some(version) => Ok((version, contents.skip(at + VERSION_LINE_END@.len()))),
            None => Err(ErrorView::InvalidVersion),
        }
    }
}

/// The failure that a version asks for, if it is not the one that this
/// engine reads.
pub open spec fn version_failure(version: u32) -> Option<ErrorView> {
    if version == CURRENT_VERSION {
        None
    } else {
        Some(ErrorView::UnknownVersion { version })
    }
}

/// The text of a snapshot file in the current version.
pub fn render_versioned(document: &str) -> (r: String)
    ensures
        r@ == versioned(CURRENT_VERSION, document@),
{
    let mut r = decimal_string(CURRENT_VERSION as i64);
    r.append(VERSION_LINE_END);
    r.append(document);
    r
}

/// The version and the document of a snapshot file.
pub fn split_versioned(contents: &str) -> (r: Result<(u32, String), Error>)
    ensures
        match r {
            Ok(pair) => split_version(contents@) == Ok::<(u32, Seq<char>), ErrorView>(
                (pair.0, pair.1@),
            ),
            Err(error) => split_version(contents@) == Err::<(u32, Seq<char>), ErrorView>(error@),
        },
{
    let chars = chars_of(contents);
    let line_end = chars_of(VERSION_LINE_END);
    match find_text(&chars, &line_end) {
        None => Err(Error::MissingVersion),
        Some(at) => {
            assert(at + line_end.len() <= chars.len());
            let first = contents.substring_char(0, at);
            match parse_u32(first) {
                None => Err(Error::InvalidVersion),
                Some(version) => {
                    let from: usize = at + line_end.len();
                    let document = contents.substring_char(from, chars.len()).to_owned();
                    Ok((version, document))
                },
            }
        },
    }
}

/// Checks that a snapshot was written in the version that this engine
/// reads.
pub fn check_version(version: u32) -> (r: Result<(), Error>)
    ensures
        match r {
            Ok(_) => version_failure(version) is None,
            Err(error) => version_failure(version) == Some(error@),
        },
{
    if version == CURRENT_VERSION {
        Ok(())
    } else {
        Err(Error::UnknownVersion { version })
    }
}

} // verus!
