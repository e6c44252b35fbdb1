use wg_tracker::config::Config;
use wg_tracker::error::Error;
use wg_tracker::query::{IssueComment, IssueLabel, KnownLabel, Request, Response, UpdatedIssue};
use wg_tracker::repo_config::{RepoConfig, RepoConfigLabels};
use wg_tracker::state::engine::State;
use wg_tracker::state::snapshot::Snapshot;
use wg_tracker::state::task::Task;
use wg_tracker::text_map::TextMap;

fn config() -> Config {
    Config {
        github_key: "gh".to_string(),
        bugzilla_key: "bz".to_string(),
        wg_repo_owner: "wg".to_string(),
        wg_repo_name: "drafts".to_string(),
        decisions_repo_owner: "dec".to_string(),
        decisions_repo_name: "decisions".to_string(),
        state_directory: "/tmp/state".to_string(),
        start_date: "2019-05-01".to_string(),
    }
}

fn policy() -> RepoConfig {
    let mut components = TextMap::new();
    components.insert("widget".to_string(), "Widgets :: Core".to_string());
    RepoConfig {
        labels: Some(RepoConfigLabels {
            color: Some("c5def5".to_string()),
            prefixes: Some(vec!["css-".to_string()]),
        }),
        components: Some(components),
    }
}

fn label(name: &str, color: &str) -> IssueLabel {
    IssueLabel { name: name.to_string(), color: color.to_string() }
}

fn state_with(tasks: Vec<Task>) -> State {
    State::restore(Snapshot {
        tasks,
        posted_tasks: vec![],
        handled_wg_comments: vec![],
        handled_decisions_issues: vec![],
        last_time_wg: "2019-05-01T00:00:00Z".to_string(),
        last_time_decisions: "2019-01-01T00:00:00Z".to_string(),
    })
}

fn encoding_comment(url: &str) -> Task {
    Task::ProcessComment {
        issue_number: 42,
        issue_title: "Encoding".to_string(),
        issue_labels: vec![label("css-fonts-4", "ffffff"), label("Agenda+", "000000")],
        url: url.to_string(),
        body_text: "Some text\nRESOLVED: Use UTF-8\nRESOLVED: Reject nulls\n".to_string(),
    }
}

fn decision_issue(number: i64, labels: Vec<IssueLabel>, updated_at: &str) -> UpdatedIssue {
    UpdatedIssue {
        id: format!("ID{}", number),
        issue_number: number,
        issue_title: format!("Decision {}", number),
        updated_at: updated_at.to_string(),
        issue_labels: labels,
    }
}

fn remove_backslash_escapes(text: &str) -> String {
    let mut out = String::new();
    let mut chars = text.chars();
    while let Some(c) = chars.next() {
        if c == '\\' {
            if let Some(next) = chars.next() {
                out.push(next);
            }
        } else {
            out.push(c);
        }
    }
    out
}

/// Runs the state until it asks for a call or finishes, answering the two
/// loaders on the way.
fn run_to_call(state: &mut State, known: Vec<KnownLabel>) -> Option<Request> {
    for _ in 0..50 {
        match state.iterate(&config(), &policy()).unwrap() {
            None => {
                if state.is_finished() {
                    return None;
                }
            }
            Some(Request::KnownLabels { .. }) => {
                let known = known.iter().map(|l| KnownLabel { id: l.id.clone(), name: l.name.clone() }).collect();
                state.complete(Ok(Response::KnownLabels { known }), &config(), &policy()).unwrap();
            }
            Some(Request::RepoId { .. }) => {
                state
                    .complete(Ok(Response::RepoId { found: Some("REPO".to_string()) }), &config(), &policy())
                    .unwrap();
            }
            Some(other) => return Some(other),
        }
    }
    panic!("the state did not settle");
}

#[test]
fn new_state_is_finished_and_starts_at_the_given_date() {
    let state = State::new("2019-05-01");
    assert!(state.is_finished());
    let snapshot = state.snapshot();
    assert_eq!(snapshot.last_time_wg, "2019-05-01T00:00:00Z");
    assert_eq!(snapshot.last_time_decisions, "2019-01-01T00:00:00Z");
    assert_eq!(snapshot.tasks, vec![]);
    assert_eq!(snapshot.posted_tasks, vec![]);
    assert!(!state.labels_loaded());
    assert_eq!(state.decisions_repo_id(), None);
}

#[test]
fn finished_state_stays_finished_until_polls_are_scheduled() {
    let mut state = State::new("2019-05-01");
    assert_eq!(state.iterate(&config(), &policy()), Ok(None));
    assert!(state.is_finished());
    assert_eq!(
        state.complete(Ok(Response::IssueClosed), &config(), &policy()),
        Err(Error::UnexpectedResponse)
    );
    assert!(state.is_finished());
    state.check_for_updates();
    assert!(!state.is_finished());
    assert_eq!(
        state.snapshot().tasks,
        vec![
            Task::PollWGIssues { since: "2019-05-01T00:00:00Z".to_string() },
            Task::PollDecisionIssues { since: "2019-01-01T00:00:00Z".to_string() },
        ]
    );
}

#[test]
fn state_is_unfinished_while_tasks_are_staged() {
    let mut state = state_with(vec![encoding_comment("u1")]);
    assert!(!state.is_finished());
    assert_eq!(state.iterate(&config(), &policy()), Ok(None));
    assert_eq!(state.snapshot().tasks, vec![]);
    assert!(!state.is_finished());
}

#[test]
fn comment_with_resolutions_stages_labels_and_decision() {
    let mut state = state_with(vec![encoding_comment("https://github.com/wg/drafts/issues/42#c1")]);
    assert_eq!(state.iterate(&config(), &policy()), Ok(None));
    let snapshot = state.snapshot();
    assert_eq!(snapshot.handled_wg_comments, vec!["https://github.com/wg/drafts/issues/42#c1".to_string()]);
    assert_eq!(
        snapshot.posted_tasks,
        vec![
            Task::EnsureLabel { name: "[spec] css-fonts-4".to_string(), color: "ffffff".to_string() },
            Task::FileDecisionIssue {
                issue_number: 42,
                issue_title: "Encoding".to_string(),
                labels: vec!["[spec] css-fonts-4".to_string()],
                comment_url: "https://github.com/wg/drafts/issues/42#c1".to_string(),
                resolutions: vec!["Use UTF-8".to_string(), "Reject nulls".to_string()],
            },
        ]
    );
}

#[test]
fn decision_body_holds_the_resolutions_and_the_title() {
    let mut state = state_with(vec![encoding_comment("https://github.com/wg/drafts/issues/42#c1")]);
    let known = vec![KnownLabel { id: "L9".to_string(), name: "[spec] css-fonts-4".to_string() }];
    let request = run_to_call(&mut state, known).unwrap();
    match request {
        Request::CreateIssue { repo_id, title, body, labels } => {
            assert_eq!(repo_id, "REPO");
            assert_eq!(title, "Encoding");
            assert_eq!(labels, vec!["L9".to_string()]);
            assert!(body.starts_with(
                "Resolutions were made for [drafts/#42](https://github.com/wg/drafts/issues/42).\n\n**Encoding**\n\n"
            ));
            assert!(body.contains("\n* RESOLVED: Use UTF\\-8\n"));
            assert!(body.contains("\n* RESOLVED: Reject nulls\n"));
            assert!(body.contains("[Discussion.](https://github.com/wg/drafts/issues/42#c1)"));
            let shown = remove_backslash_escapes(&body);
            let lines: Vec<&str> = shown.lines().collect();
            assert!(lines.contains(&"* RESOLVED: Use UTF-8"));
            assert!(lines.contains(&"* RESOLVED: Reject nulls"));
            assert!(lines.contains(&"**Encoding**"));
        }
        other => panic!("unexpected request {:?}", other),
    }
    assert_eq!(
        state.complete(Ok(Response::IssueCreated { id: "NEW".to_string() }), &config(), &policy()),
        Ok(())
    );
    assert!(state.is_finished());
}

#[test]
fn comment_without_resolutions_changes_nothing() {
    let task = Task::ProcessComment {
        issue_number: 1,
        issue_title: "T".to_string(),
        issue_labels: vec![],
        url: "u".to_string(),
        body_text: "nothing was resolved: sorry".to_string(),
    };
    let mut state = state_with(vec![task]);
    assert_eq!(state.iterate(&config(), &policy()), Ok(None));
    assert!(state.is_finished());
    assert_eq!(state.snapshot().handled_wg_comments, Vec::<String>::new());
}

#[test]
fn same_comment_twice_stages_one_decision() {
    let mut state = state_with(vec![encoding_comment("u1"), encoding_comment("u1")]);
    assert_eq!(state.iterate(&config(), &policy()), Ok(None));
    let after_first = state.snapshot();
    assert_eq!(after_first.posted_tasks.len(), 2);
    // The second look comes after the staged tasks; put it in front again.
    let mut again = State::restore(Snapshot {
        tasks: vec![encoding_comment("u1")],
        posted_tasks: vec![],
        handled_wg_comments: after_first.handled_wg_comments,
        handled_decisions_issues: vec![],
        last_time_wg: after_first.last_time_wg,
        last_time_decisions: after_first.last_time_decisions,
    });
    assert_eq!(again.iterate(&config(), &policy()), Ok(None));
    assert_eq!(again.snapshot().posted_tasks, vec![]);
    assert!(again.is_finished());
    // And in one run: both looks leave one decision among all the tasks.
    let mut seen = 0;
    for _ in 0..20 {
        match state.iterate(&config(), &policy()).unwrap() {
            Some(Request::KnownLabels { .. }) => {
                state.complete(Ok(Response::KnownLabels { known: vec![] }), &config(), &policy()).unwrap();
            }
            Some(Request::RepoId { .. }) => {
                state
                    .complete(Ok(Response::RepoId { found: Some("R".to_string()) }), &config(), &policy())
                    .unwrap();
            }
            Some(Request::CreateLabel { .. }) => {
                state
                    .complete(Ok(Response::LabelCreated { id: "L".to_string() }), &config(), &policy())
                    .unwrap();
            }
            Some(Request::CreateIssue { .. }) => {
                seen += 1;
                state
                    .complete(Ok(Response::IssueCreated { id: "I".to_string() }), &config(), &policy())
                    .unwrap();
            }
            Some(other) => panic!("unexpected request {:?}", other),
            None => {}
        }
    }
    assert!(state.is_finished());
    assert_eq!(seen, 1);
}

#[test]
fn staged_tasks_run_before_older_ones_in_their_order() {
    let mut state = state_with(vec![
        encoding_comment("u1"),
        Task::CloseIssue { issue_id: "older".to_string() },
    ]);
    assert_eq!(state.iterate(&config(), &policy()), Ok(None));
    // The next step merges and runs the first staged task, which defers.
    assert_eq!(state.iterate(&config(), &policy()), Ok(None));
    let snapshot = state.snapshot();
    assert!(matches!(snapshot.tasks[0], Task::FileDecisionIssue { .. }));
    assert_eq!(snapshot.tasks[1], Task::CloseIssue { issue_id: "older".to_string() });
    assert_eq!(
        snapshot.posted_tasks,
        vec![
            Task::LoadDecisionLabels,
            Task::LoadDecisionsRepoId,
            Task::EnsureLabel { name: "[spec] css-fonts-4".to_string(), color: "ffffff".to_string() },
        ]
    );
}

#[test]
fn wg_poll_stages_a_fetch_for_each_issue_and_moves_the_watermark() {
    let mut state = State::new("2019-05-01");
    state.check_for_updates();
    let request = state.iterate(&config(), &policy()).unwrap();
    assert_eq!(
        request,
        Some(Request::UpdatedIssues {
            repo_owner: "wg".to_string(),
            repo_name: "drafts".to_string(),
            since: "2019-05-01T00:00:00Z".to_string(),
        })
    );
    let issues = vec![
        UpdatedIssue {
            id: "A".to_string(),
            issue_number: 1,
            issue_title: "One".to_string(),
            updated_at: "2019-06-02T00:00:00Z".to_string(),
            issue_labels: vec![label("css-fonts-4", "ffffff")],
        },
        UpdatedIssue {
            id: "B".to_string(),
            issue_number: 2,
            issue_title: "Two".to_string(),
            updated_at: "2019-06-01T00:00:00Z".to_string(),
            issue_labels: vec![],
        },
    ];
    assert_eq!(state.complete(Ok(Response::UpdatedIssues { issues }), &config(), &policy()), Ok(()));
    let snapshot = state.snapshot();
    assert_eq!(snapshot.last_time_wg, "2019-06-02T00:00:00Z");
    assert_eq!(snapshot.last_time_decisions, "2019-01-01T00:00:00Z");
    assert_eq!(snapshot.tasks, vec![Task::PollDecisionIssues { since: "2019-01-01T00:00:00Z".to_string() }]);
    assert_eq!(
        snapshot.posted_tasks,
        vec![
            Task::FetchIssueComments {
                number: 1,
                issue_title: "One".to_string(),
                issue_labels: vec![label("css-fonts-4", "ffffff")],
                since: "2019-05-01T00:00:00Z".to_string(),
            },
            Task::FetchIssueComments {
                number: 2,
                issue_title: "Two".to_string(),
                issue_labels: vec![],
                since: "2019-05-01T00:00:00Z".to_string(),
            },
        ]
    );
}

#[test]
fn watermark_never_moves_back() {
    let mut state = State::new("2019-05-01");
    state.check_for_updates();
    state.iterate(&config(), &policy()).unwrap();
    let issues = vec![decision_issue(1, vec![], "2018-01-01T00:00:00Z")];
    state.complete(Ok(Response::UpdatedIssues { issues }), &config(), &policy()).unwrap();
    assert_eq!(state.snapshot().last_time_wg, "2019-05-01T00:00:00Z");
    let mut empty = State::new("2019-05-01");
    empty.check_for_updates();
    empty.iterate(&config(), &policy()).unwrap();
    empty.complete(Ok(Response::UpdatedIssues { issues: vec![] }), &config(), &policy()).unwrap();
    assert_eq!(empty.snapshot().last_time_wg, "2019-05-01T00:00:00Z");
}

#[test]
fn comments_made_since_the_poll_are_looked_at() {
    let task = Task::FetchIssueComments {
        number: 5,
        issue_title: "Five".to_string(),
        issue_labels: vec![label("a", "b")],
        since: "2019-05-01T00:00:00Z".to_string(),
    };
    let mut state = state_with(vec![task]);
    assert_eq!(
        state.iterate(&config(), &policy()),
        Ok(Some(Request::IssueComments {
            repo_owner: "wg".to_string(),
            repo_name: "drafts".to_string(),
            number: 5,
        }))
    );
    let comments = vec![
        IssueComment { url: "old".to_string(), created_at: "2019-04-30T23:59:59Z".to_string(), body_text: "x".to_string() },
        IssueComment { url: "same".to_string(), created_at: "2019-05-01T00:00:00Z".to_string(), body_text: "y".to_string() },
        IssueComment { url: "new".to_string(), created_at: "2019-07-01T00:00:00Z".to_string(), body_text: "z".to_string() },
    ];
    assert_eq!(state.complete(Ok(Response::IssueComments { comments }), &config(), &policy()), Ok(()));
    assert_eq!(
        state.snapshot().posted_tasks,
        vec![
            Task::ProcessComment {
                issue_number: 5,
                issue_title: "Five".to_string(),
                issue_labels: vec![label("a", "b")],
                url: "same".to_string(),
                body_text: "y".to_string(),
            },
            Task::ProcessComment {
                issue_number: 5,
                issue_title: "Five".to_string(),
                issue_labels: vec![label("a", "b")],
                url: "new".to_string(),
                body_text: "z".to_string(),
            },
        ]
    );
}

#[test]
fn decision_labeled_bug_stages_the_three_bug_tasks() {
    let mut state = state_with(vec![Task::PollDecisionIssues { since: "2019-01-01T00:00:00Z".to_string() }]);
    assert_eq!(
        state.iterate(&config(), &policy()),
        Ok(Some(Request::UpdatedIssues {
            repo_owner: "dec".to_string(),
            repo_name: "decisions".to_string(),
            since: "2019-01-01T00:00:00Z".to_string(),
        }))
    );
    let issues = vec![
        decision_issue(7, vec![label("bug", "d73a4a"), label("[spec] widget-12", "ededed")], "2019-02-01T00:00:00Z"),
        decision_issue(8, vec![label("[spec] widget-12", "ededed")], "2019-03-01T00:00:00Z"),
    ];
    assert_eq!(state.complete(Ok(Response::UpdatedIssues { issues }), &config(), &policy()), Ok(()));
    let snapshot = state.snapshot();
    assert_eq!(snapshot.handled_decisions_issues, vec![7]);
    assert_eq!(snapshot.last_time_decisions, "2019-03-01T00:00:00Z");
    assert_eq!(
        snapshot.posted_tasks,
        vec![
            Task::FileBug {
                product: "Widgets".to_string(),
                component: "Core".to_string(),
                issue_number: 7,
                issue_id: "ID7".to_string(),
            },
            Task::RemoveBugLabel { issue_id: "ID7".to_string() },
            Task::CloseIssue { issue_id: "ID7".to_string() },
        ]
    );
}

#[test]
fn same_decision_twice_stages_no_second_bug() {
    let bug = || decision_issue(7, vec![label("bug", "d73a4a")], "2019-02-01T00:00:00Z");
    let poll = || Task::PollDecisionIssues { since: "2019-01-01T00:00:00Z".to_string() };
    let mut state = state_with(vec![poll(), poll()]);
    state.iterate(&config(), &policy()).unwrap();
    state
        .complete(Ok(Response::UpdatedIssues { issues: vec![bug(), bug()] }), &config(), &policy())
        .unwrap();
    assert_eq!(state.snapshot().posted_tasks.len(), 3);
    let first = state.snapshot();
    let mut again = State::restore(Snapshot {
        tasks: vec![poll()],
        posted_tasks: vec![],
        handled_wg_comments: vec![],
        handled_decisions_issues: first.handled_decisions_issues,
        last_time_wg: first.last_time_wg,
        last_time_decisions: first.last_time_decisions,
    });
    again.iterate(&config(), &policy()).unwrap();
    again.complete(Ok(Response::UpdatedIssues { issues: vec![bug()] }), &config(), &policy()).unwrap();
    assert_eq!(again.snapshot().posted_tasks, vec![]);
    assert!(again.is_finished());
}

#[test]
fn unreadable_component_fails_the_poll_and_keeps_what_was_staged() {
    let mut components = TextMap::new();
    components.insert("default".to_string(), "no separator".to_string());
    components.insert("widget".to_string(), "Widgets :: Core".to_string());
    let bad = RepoConfig { labels: None, components: Some(components) };
    let mut state = state_with(vec![Task::PollDecisionIssues { since: "2019-01-01T00:00:00Z".to_string() }]);
    state.iterate(&config(), &bad).unwrap();
    let issues = vec![
        decision_issue(1, vec![label("bug", "d73a4a"), label("[spec] widget-1", "e")], "2019-02-01T00:00:00Z"),
        decision_issue(2, vec![label("bug", "d73a4a")], "2019-03-01T00:00:00Z"),
        decision_issue(3, vec![label("bug", "d73a4a"), label("[spec] widget-1", "e")], "2019-04-01T00:00:00Z"),
    ];
    assert_eq!(
        state.complete(Ok(Response::UpdatedIssues { issues }), &config(), &bad),
        Err(Error::InvalidComponent { text: "no separator".to_string() })
    );
    let snapshot = state.snapshot();
    assert_eq!(snapshot.tasks, vec![Task::PollDecisionIssues { since: "2019-01-01T00:00:00Z".to_string() }]);
    assert_eq!(snapshot.handled_decisions_issues, vec![1]);
    assert_eq!(snapshot.posted_tasks.len(), 3);
    assert_eq!(snapshot.last_time_decisions, "2019-01-01T00:00:00Z");
}

#[test]
fn failed_call_keeps_the_task_in_front() {
    let mut state = state_with(vec![Task::CloseIssue { issue_id: "X".to_string() }]);
    assert_eq!(
        state.iterate(&config(), &policy()),
        Ok(Some(Request::CloseIssue { issue_id: "X".to_string() }))
    );
    assert_eq!(
        state.complete(Err(Error::Network { message: "down".to_string() }), &config(), &policy()),
        Err(Error::Network { message: "down".to_string() })
    );
    assert_eq!(state.snapshot().tasks, vec![Task::CloseIssue { issue_id: "X".to_string() }]);
    assert_eq!(
        state.iterate(&config(), &policy()),
        Ok(Some(Request::CloseIssue { issue_id: "X".to_string() }))
    );
    assert_eq!(state.complete(Ok(Response::IssueClosed), &config(), &policy()), Ok(()));
    assert!(state.is_finished());
}

#[test]
fn answer_to_another_request_is_refused() {
    let mut state = state_with(vec![Task::CloseIssue { issue_id: "X".to_string() }]);
    state.iterate(&config(), &policy()).unwrap();
    assert_eq!(
        state.complete(Ok(Response::CommentAdded), &config(), &policy()),
        Err(Error::UnexpectedResponse)
    );
    assert_eq!(state.snapshot().tasks, vec![Task::CloseIssue { issue_id: "X".to_string() }]);
    let mut label = state_with(vec![Task::EnsureLabel { name: "n".to_string(), color: "c".to_string() }]);
    assert_eq!(
        label.complete(Ok(Response::LabelCreated { id: "L".to_string() }), &config(), &policy()),
        Err(Error::UnexpectedResponse)
    );
    assert!(!label.labels_loaded());
}

#[test]
fn ensure_label_waits_for_labels_and_repository_then_creates() {
    let mut state = state_with(vec![Task::EnsureLabel { name: "[spec] x".to_string(), color: "ffffff".to_string() }]);
    assert_eq!(state.iterate(&config(), &policy()), Ok(None));
    assert_eq!(
        state.snapshot().posted_tasks,
        vec![
            Task::LoadDecisionLabels,
            Task::LoadDecisionsRepoId,
            Task::EnsureLabel { name: "[spec] x".to_string(), color: "ffffff".to_string() },
        ]
    );
    assert!(!state.labels_loaded());
    assert_eq!(state.decisions_repo_id(), None);
    assert_eq!(
        state.iterate(&config(), &policy()),
        Ok(Some(Request::KnownLabels { repo_owner: "dec".to_string(), repo_name: "decisions".to_string() }))
    );
    let known = vec![KnownLabel { id: "L1".to_string(), name: "bug".to_string() }];
    assert_eq!(state.complete(Ok(Response::KnownLabels { known }), &config(), &policy()), Ok(()));
    assert!(state.labels_loaded());
    assert_eq!(state.label_id(&"bug".to_string()), Some("L1".to_string()));
    assert_eq!(
        state.snapshot().tasks,
        vec![
            Task::LoadDecisionsRepoId,
            Task::EnsureLabel { name: "[spec] x".to_string(), color: "ffffff".to_string() },
        ]
    );
    assert_eq!(
        state.iterate(&config(), &policy()),
        Ok(Some(Request::RepoId { repo_owner: "dec".to_string(), repo_name: "decisions".to_string() }))
    );
    assert_eq!(
        state.complete(Ok(Response::RepoId { found: Some("REPO".to_string()) }), &config(), &policy()),
        Ok(())
    );
    assert_eq!(state.decisions_repo_id(), Some("REPO".to_string()));
    assert_eq!(
        state.iterate(&config(), &policy()),
        Ok(Some(Request::CreateLabel {
            repo_id: "REPO".to_string(),
            name: "[spec] x".to_string(),
            color: "ffffff".to_string(),
        }))
    );
    assert_eq!(
        state.complete(Ok(Response::LabelCreated { id: "L2".to_string() }), &config(), &policy()),
        Ok(())
    );
    assert_eq!(state.label_id(&"[spec] x".to_string()), Some("L2".to_string()));
    assert!(state.is_finished());
}

#[test]
fn interrupted_ensure_label_resumes_without_creating_a_known_label() {
    let mut state = state_with(vec![Task::EnsureLabel { name: "[spec] x".to_string(), color: "ffffff".to_string() }]);
    assert_eq!(state.iterate(&config(), &policy()), Ok(None));
    assert!(matches!(state.iterate(&config(), &policy()), Ok(Some(Request::KnownLabels { .. }))));
    assert_eq!(
        state.complete(Err(Error::Network { message: "down".to_string() }), &config(), &policy()),
        Err(Error::Network { message: "down".to_string() })
    );
    // What was written down at that point is all that the next run has.
    let written = state.snapshot();
    assert_eq!(
        written.tasks,
        vec![
            Task::LoadDecisionLabels,
            Task::LoadDecisionsRepoId,
            Task::EnsureLabel { name: "[spec] x".to_string(), color: "ffffff".to_string() },
        ]
    );
    let mut resumed = State::restore(written);
    assert!(!resumed.labels_loaded());
    assert_eq!(resumed.decisions_repo_id(), None);
    let known = vec![KnownLabel { id: "L7".to_string(), name: "[spec] x".to_string() }];
    assert_eq!(run_to_call(&mut resumed, known), None);
    assert!(resumed.is_finished());
    assert_eq!(resumed.label_id(&"[spec] x".to_string()), Some("L7".to_string()));
}

#[test]
fn missing_repository_is_a_failure() {
    let mut state = state_with(vec![Task::LoadDecisionsRepoId]);
    state.iterate(&config(), &policy()).unwrap();
    assert_eq!(
        state.complete(Ok(Response::RepoId { found: None }), &config(), &policy()),
        Err(Error::RepositoryNotFound)
    );
    assert_eq!(state.snapshot().tasks, vec![Task::LoadDecisionsRepoId]);
    assert_eq!(state.decisions_repo_id(), None);
}

#[test]
fn loading_labels_twice_merges_them() {
    let mut state = state_with(vec![Task::LoadDecisionLabels, Task::LoadDecisionLabels]);
    state.iterate(&config(), &policy()).unwrap();
    let first = vec![
        KnownLabel { id: "1".to_string(), name: "a".to_string() },
        KnownLabel { id: "2".to_string(), name: "b".to_string() },
    ];
    state.complete(Ok(Response::KnownLabels { known: first }), &config(), &policy()).unwrap();
    state.iterate(&config(), &policy()).unwrap();
    let second = vec![
        KnownLabel { id: "3".to_string(), name: "b".to_string() },
        KnownLabel { id: "4".to_string(), name: "c".to_string() },
    ];
    state.complete(Ok(Response::KnownLabels { known: second }), &config(), &policy()).unwrap();
    assert_eq!(state.label_id(&"a".to_string()), Some("1".to_string()));
    assert_eq!(state.label_id(&"b".to_string()), Some("3".to_string()));
    assert_eq!(state.label_id(&"c".to_string()), Some("4".to_string()));
    assert_eq!(state.label_id(&"d".to_string()), None);
}

#[test]
fn remove_bug_label_needs_the_bug_label() {
    let mut state = state_with(vec![Task::RemoveBugLabel { issue_id: "X".to_string() }]);
    assert_eq!(state.iterate(&config(), &policy()), Ok(None));
    assert!(matches!(state.iterate(&config(), &policy()), Ok(Some(Request::KnownLabels { .. }))));
    state.complete(Ok(Response::KnownLabels { known: vec![] }), &config(), &policy()).unwrap();
    assert_eq!(state.iterate(&config(), &policy()), Err(Error::MissingBugLabel));
    assert_eq!(state.snapshot().tasks, vec![Task::RemoveBugLabel { issue_id: "X".to_string() }]);

    let mut with_label = state_with(vec![Task::RemoveBugLabel { issue_id: "X".to_string() }]);
    let known = vec![KnownLabel { id: "BUG".to_string(), name: "bug".to_string() }];
    assert_eq!(
        run_to_call(&mut with_label, known),
        Some(Request::RemoveLabels { labelable: "X".to_string(), labels: vec!["BUG".to_string()] })
    );
    assert_eq!(with_label.complete(Ok(Response::LabelsRemoved), &config(), &policy()), Ok(()));
    assert!(with_label.is_finished());
}

#[test]
fn bug_is_prepared_from_the_decision_and_filed() {
    let mut state = state_with(vec![Task::FileBug {
        product: "Widgets".to_string(),
        component: "Core".to_string(),
        issue_number: 7,
        issue_id: "ID7".to_string(),
    }]);
    assert_eq!(
        state.iterate(&config(), &policy()),
        Ok(Some(Request::IssueTitleAndBody {
            repo_owner: "dec".to_string(),
            repo_name: "decisions".to_string(),
            number: 7,
        }))
    );
    let body = "Made for [drafts/#42](https://github.com/wg/drafts/issues/42).\n\n[Discussion.](https://github.com/wg/drafts/issues/42#c1)\n\n----\n\nTo file (https://later.example)".to_string();
    assert_eq!(
        state.complete(
            Ok(Response::IssueTitleAndBody { title: "Encoding".to_string(), body }),
            &config(),
            &policy()
        ),
        Ok(())
    );
    let details = Task::FileBugWithDetails {
        product: "Widgets".to_string(),
        component: "Core".to_string(),
        summary: "Encoding".to_string(),
        description: "Made for [drafts/#42](https://github.com/wg/drafts/issues/42).\n\n[Discussion.](https://github.com/wg/drafts/issues/42#c1)\n\n".to_string(),
        urls: vec![
            "https://github.com/wg/drafts/issues/42".to_string(),
            "https://github.com/wg/drafts/issues/42#c1".to_string(),
            "https://github.com/dec/decisions/issues/7".to_string(),
        ],
        issue_number: 7,
        issue_id: "ID7".to_string(),
    };
    assert_eq!(state.snapshot().posted_tasks, vec![details]);
    match state.iterate(&config(), &policy()).unwrap() {
        Some(Request::FileBug { product, component, summary, urls, .. }) => {
            assert_eq!(product, "Widgets");
            assert_eq!(component, "Core");
            assert_eq!(summary, "Encoding");
            assert_eq!(urls.len(), 3);
        }
        other => panic!("unexpected {:?}", other),
    }
    assert_eq!(
        state.complete(Ok(Response::BugFiled { url: "https://bugs.example/1".to_string() }), &config(), &policy()),
        Ok(())
    );
    assert_eq!(
        state.snapshot().posted_tasks,
        vec![Task::AddIssueComment { issue_id: "ID7".to_string(), body: "https://bugs.example/1".to_string() }]
    );
    assert_eq!(
        state.iterate(&config(), &policy()),
        Ok(Some(Request::AddIssueComment {
            issue_id: "ID7".to_string(),
            body: "https://bugs.example/1".to_string(),
        }))
    );
    assert_eq!(state.complete(Ok(Response::CommentAdded), &config(), &policy()), Ok(()));
    assert!(state.is_finished());
}

#[test]
fn ensure_label_stages_only_the_loader_that_is_missing() {
    let ensure = || Task::EnsureLabel { name: "[spec] x".to_string(), color: "ffffff".to_string() };
    // The labels are there, the id of the repository is not.
    let mut state = state_with(vec![Task::LoadDecisionLabels, ensure()]);
    state.iterate(&config(), &policy()).unwrap();
    state.complete(Ok(Response::KnownLabels { known: vec![] }), &config(), &policy()).unwrap();
    assert_eq!(state.iterate(&config(), &policy()), Ok(None));
    assert_eq!(state.snapshot().posted_tasks, vec![Task::LoadDecisionsRepoId, ensure()]);
    // The id of the repository is there, the labels are not.
    let mut state = state_with(vec![Task::LoadDecisionsRepoId, ensure()]);
    state.iterate(&config(), &policy()).unwrap();
    state
        .complete(Ok(Response::RepoId { found: Some("REPO".to_string()) }), &config(), &policy())
        .unwrap();
    assert_eq!(state.iterate(&config(), &policy()), Ok(None));
    assert_eq!(state.snapshot().posted_tasks, vec![Task::LoadDecisionLabels, ensure()]);
    assert_eq!(state.decisions_repo_id(), Some("REPO".to_string()));
    assert!(!state.labels_loaded());
}

#[test]
fn file_decision_stages_every_missing_loader_then_itself() {
    let file = || Task::FileDecisionIssue {
        issue_number: 42,
        issue_title: "Encoding".to_string(),
        labels: vec![],
        comment_url: "c".to_string(),
        resolutions: vec!["Use UTF-8".to_string()],
    };
    let mut state = state_with(vec![file()]);
    assert_eq!(state.iterate(&config(), &policy()), Ok(None));
    assert_eq!(
        state.snapshot().posted_tasks,
        vec![Task::LoadDecisionLabels, Task::LoadDecisionsRepoId, file()]
    );
    assert_eq!(state.snapshot().tasks, vec![]);
    let mut state = state_with(vec![Task::LoadDecisionLabels, file()]);
    state.iterate(&config(), &policy()).unwrap();
    state.complete(Ok(Response::KnownLabels { known: vec![] }), &config(), &policy()).unwrap();
    assert_eq!(state.iterate(&config(), &policy()), Ok(None));
    assert_eq!(state.snapshot().posted_tasks, vec![Task::LoadDecisionsRepoId, file()]);
    let mut state = state_with(vec![Task::LoadDecisionsRepoId, file()]);
    state.iterate(&config(), &policy()).unwrap();
    state
        .complete(Ok(Response::RepoId { found: Some("REPO".to_string()) }), &config(), &policy())
        .unwrap();
    assert_eq!(state.iterate(&config(), &policy()), Ok(None));
    assert_eq!(state.snapshot().posted_tasks, vec![Task::LoadDecisionLabels, file()]);
}
