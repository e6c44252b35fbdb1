use wg_tracker::error::Error;
use wg_tracker::query::IssueLabel;
use wg_tracker::state::engine::State;
use wg_tracker::state::snapshot::{check_version, render_versioned, split_versioned, Snapshot};
use wg_tracker::state::task::Task;

fn full_snapshot() -> Snapshot {
    Snapshot {
        tasks: vec![
            Task::PollWGIssues { since: "2019-05-01T00:00:00Z".to_string() },
            Task::FetchIssueComments {
                number: 3,
                issue_title: "Three".to_string(),
                issue_labels: vec![IssueLabel { name: "a".to_string(), color: "b".to_string() }],
                since: "2019-05-01T00:00:00Z".to_string(),
            },
            Task::LoadDecisionLabels,
        ],
        posted_tasks: vec![Task::CloseIssue { issue_id: "X".to_string() }],
        handled_wg_comments: vec!["u1".to_string(), "u2".to_string()],
        handled_decisions_issues: vec![4, 9],
        last_time_wg: "2019-06-01T00:00:00Z".to_string(),
        last_time_decisions: "2019-02-01T00:00:00Z".to_string(),
    }
}

/// The snapshot with the numbers of its ledger in rising order: the ledger
/// is a set, and is written down in no particular order.
fn in_order(mut snapshot: Snapshot) -> Snapshot {
    snapshot.handled_decisions_issues.sort();
    snapshot
}

#[test]
fn restored_state_holds_what_was_written_and_nothing_loaded() {
    let state = State::restore(full_snapshot());
    assert!(!state.is_finished());
    assert!(!state.labels_loaded());
    assert_eq!(state.decisions_repo_id(), None);
    assert_eq!(in_order(state.snapshot()), full_snapshot());
    let again = State::restore(state.snapshot());
    assert_eq!(in_order(again.snapshot()), full_snapshot());
}

#[test]
fn restored_ledger_holds_each_number_once() {
    let mut written = full_snapshot();
    written.handled_decisions_issues = vec![9, 4, 9, 4, 4];
    let state = State::restore(written);
    assert_eq!(in_order(state.snapshot()).handled_decisions_issues, vec![4, 9]);
}

#[test]
fn only_the_current_version_is_read() {
    assert!(State::from_versioned_str(1, full_snapshot()).is_ok());
    assert_eq!(
        in_order(State::from_versioned_str(1, full_snapshot()).unwrap().snapshot()),
        full_snapshot()
    );
    assert_eq!(
        State::from_versioned_str(2, full_snapshot()).err(),
        Some(Error::UnknownVersion { version: 2 })
    );
    assert_eq!(
        State::from_versioned_str(0, full_snapshot()).err(),
        Some(Error::UnknownVersion { version: 0 })
    );
    assert_eq!(check_version(1), Ok(()));
    assert_eq!(check_version(7), Err(Error::UnknownVersion { version: 7 }));
}

#[test]
fn snapshot_file_begins_with_the_version_line() {
    assert_eq!(render_versioned("{\"tasks\": []}"), "1\n{\"tasks\": []}");
    assert_eq!(render_versioned(""), "1\n");
}

#[test]
fn snapshot_file_splits_into_version_and_document() {
    assert_eq!(split_versioned("1\n{}\n"), Ok((1, "{}\n".to_string())));
    assert_eq!(split_versioned("12\n"), Ok((12, String::new())));
    assert_eq!(split_versioned(&render_versioned("a\nb")), Ok((1, "a\nb".to_string())));
}

#[test]
fn snapshot_file_without_version_is_refused() {
    assert_eq!(split_versioned("1"), Err(Error::MissingVersion));
    assert_eq!(split_versioned(""), Err(Error::MissingVersion));
    assert_eq!(split_versioned("\n{}"), Err(Error::InvalidVersion));
    assert_eq!(split_versioned("one\n{}"), Err(Error::InvalidVersion));
    assert_eq!(split_versioned("1 \n{}"), Err(Error::InvalidVersion));
    assert_eq!(split_versioned("99999999999\n{}"), Err(Error::InvalidVersion));
}
