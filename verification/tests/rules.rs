use wg_tracker::config::Config;
use wg_tracker::error::Error;
use wg_tracker::query::{IssueLabel, Request, UpdatedIssue};
use wg_tracker::repo_config::{RepoConfig, RepoConfigLabels};
use wg_tracker::state::rules::{
    asks_for_bug, describe_bug, find_label_ids, find_latest_update, find_resolutions,
    issue_url_of, make_bug_details, make_decision_request, parse_component, resolve_component,
    select_desired_labels, spec_label, specification_of, write_decision_body,
};
use wg_tracker::state::task::Task;
use wg_tracker::text_map::TextMap;

fn label(name: &str, color: &str) -> IssueLabel {
    IssueLabel { name: name.to_string(), color: color.to_string() }
}

fn components(pairs: &[(&str, &str)]) -> RepoConfig {
    let mut map = TextMap::new();
    for (key, value) in pairs {
        map.insert(key.to_string(), value.to_string());
    }
    RepoConfig { labels: None, components: Some(map) }
}

fn issue(number: i64, updated_at: &str) -> UpdatedIssue {
    UpdatedIssue {
        id: format!("I{}", number),
        issue_number: number,
        issue_title: format!("Issue {}", number),
        updated_at: updated_at.to_string(),
        issue_labels: vec![],
    }
}

#[test]
fn resolutions_are_the_marked_lines_without_the_marker() {
    assert_eq!(
        find_resolutions("Some text\nRESOLVED: Use UTF-8\nRESOLVED: Reject nulls\n"),
        vec!["Use UTF-8".to_string(), "Reject nulls".to_string()]
    );
}

#[test]
fn resolutions_need_the_marker_at_the_start_of_the_line() {
    assert_eq!(find_resolutions(" RESOLVED: no\nresolved: no\nRESOLVED:no\n"), Vec::<String>::new());
    assert_eq!(find_resolutions(""), Vec::<String>::new());
    assert_eq!(find_resolutions("\n\n"), Vec::<String>::new());
}

#[test]
fn resolutions_end_at_line_feed_or_carriage_return_and_line_feed() {
    assert_eq!(
        find_resolutions("RESOLVED: first\r\nRESOLVED: second"),
        vec!["first".to_string(), "second".to_string()]
    );
    assert_eq!(find_resolutions("RESOLVED: \n"), vec![String::new()]);
    assert_eq!(find_resolutions("RESOLVED: kept\r"), vec!["kept\r".to_string()]);
    assert_eq!(find_resolutions("RESOLVED: naïve — ok\n"), vec!["naïve — ok".to_string()]);
}

#[test]
fn desired_labels_match_by_color_or_prefix() {
    let labels = vec![
        label("css-fonts-4", "c5def5"),
        label("Agenda+", "ffffff"),
        label("svg-2", "ededed"),
        label("other", "000000"),
    ];
    let policy = RepoConfig {
        labels: Some(RepoConfigLabels {
            color: Some("c5def5".to_string()),
            prefixes: Some(vec!["svg".to_string(), "css-".to_string()]),
        }),
        components: None,
    };
    assert_eq!(
        select_desired_labels(&labels, &policy),
        vec![label("css-fonts-4", "c5def5"), label("svg-2", "ededed")]
    );
}

#[test]
fn desired_labels_are_none_without_a_policy() {
    let labels = vec![label("css-fonts-4", "c5def5")];
    assert_eq!(select_desired_labels(&labels, &RepoConfig::default()), vec![]);
    let empty = RepoConfig { labels: Some(RepoConfigLabels::default()), components: None };
    assert_eq!(select_desired_labels(&labels, &empty), vec![]);
}

#[test]
fn spec_label_prefixes_the_name() {
    assert_eq!(spec_label(&"css-fonts-4".to_string()), "[spec] css-fonts-4");
}

#[test]
fn specification_is_the_label_without_prefix_and_version() {
    assert_eq!(specification_of(&"[spec] widget-12".to_string()), Some("widget".to_string()));
    assert_eq!(specification_of(&"[spec] css-fonts-4".to_string()), Some("css-fonts".to_string()));
    assert_eq!(specification_of(&"[spec] 2024-1".to_string()), Some(String::new()));
    assert_eq!(specification_of(&"[spec] svg".to_string()), Some("svg".to_string()));
    assert_eq!(specification_of(&"[spec]widget".to_string()), None);
    assert_eq!(specification_of(&"bug".to_string()), None);
}

#[test]
fn component_is_a_product_and_a_component() {
    assert_eq!(
        parse_component(&"Widgets :: Core".to_string()),
        Some(("Widgets".to_string(), "Core".to_string()))
    );
    assert_eq!(parse_component(&" :: ".to_string()), Some((String::new(), String::new())));
    assert_eq!(parse_component(&"Widgets".to_string()), None);
    assert_eq!(parse_component(&"Widgets::Core".to_string()), None);
    assert_eq!(parse_component(&"A :: B :: C".to_string()), None);
    assert_eq!(
        parse_component(&"A :: :: B".to_string()),
        Some(("A".to_string(), ":: B".to_string()))
    );
}

#[test]
fn decision_labeled_with_one_known_specification_resolves_to_its_component() {
    let labels = vec![label("bug", "d73a4a"), label("[spec] widget-12", "ededed")];
    let policy = components(&[("widget", "Widgets :: Core")]);
    assert_eq!(
        resolve_component(&labels, &policy),
        Ok(("Widgets".to_string(), "Core".to_string()))
    );
}

#[test]
fn decision_without_exactly_one_known_specification_falls_back() {
    let policy = components(&[
        ("widget", "Widgets :: Core"),
        ("gadget", "Gadgets :: Core"),
        ("default", "Core :: Everything"),
    ]);
    let none = vec![label("bug", "d73a4a"), label("[spec] unknown-1", "ededed")];
    assert_eq!(
        resolve_component(&none, &policy),
        Ok(("Core".to_string(), "Everything".to_string()))
    );
    let two = vec![label("[spec] widget-1", "ededed"), label("[spec] gadget-2", "ededed")];
    assert_eq!(
        resolve_component(&two, &policy),
        Ok(("Core".to_string(), "Everything".to_string()))
    );
    let without_default = components(&[("widget", "Widgets :: Core")]);
    assert_eq!(
        resolve_component(&none, &without_default),
        Ok(("Invalid Bugs".to_string(), "General".to_string()))
    );
    assert_eq!(
        resolve_component(&none, &RepoConfig::default()),
        Ok(("Invalid Bugs".to_string(), "General".to_string()))
    );
}

#[test]
fn unreadable_component_is_reported_with_its_text() {
    let labels = vec![label("[spec] widget-12", "ededed")];
    let policy = components(&[("widget", "Widgets/Core")]);
    assert_eq!(resolve_component(&labels, &policy), Err("Widgets/Core".to_string()));
    let bad_default = components(&[("default", "nothing")]);
    assert_eq!(resolve_component(&vec![], &bad_default), Err("nothing".to_string()));
}

#[test]
fn bug_label_is_found_by_exact_name() {
    assert!(asks_for_bug(&vec![label("a", "1"), label("bug", "2")]));
    assert!(!asks_for_bug(&vec![label("Bug", "1"), label("bugs", "2")]));
    assert!(!asks_for_bug(&vec![]));
}

#[test]
fn issue_url_ends_with_the_number() {
    assert_eq!(
        issue_url_of(&"https://github.com/w3c/csswg-drafts".to_string(), 42),
        "https://github.com/w3c/csswg-drafts/issues/42"
    );
    assert_eq!(issue_url_of(&"u".to_string(), -7), "u/issues/-7");
    assert_eq!(issue_url_of(&"u".to_string(), 0), "u/issues/0");
    assert_eq!(
        issue_url_of(&"u".to_string(), i64::MIN),
        "u/issues/-9223372036854775808"
    );
    assert_eq!(issue_url_of(&"u".to_string(), i64::MAX), "u/issues/9223372036854775807");
}

#[test]
fn decision_body_for_one_resolution() {
    let body = write_decision_body(
        &"drafts".to_string(),
        7,
        &"https://github.com/wg/drafts/issues/7".to_string(),
        &"A title".to_string(),
        &vec!["Do it".to_string()],
        &"https://github.com/wg/drafts/issues/7#issuecomment-1".to_string(),
    );
    assert_eq!(
        body,
        "A resolution was made for [drafts/#7](https://github.com/wg/drafts/issues/7).\n\n\
         **A title**\n\n\
         * RESOLVED: Do it\n\
         \n\n\
         [Discussion.](https://github.com/wg/drafts/issues/7#issuecomment-1)\n\n\
         ----\n\n\
         To file a bug automatically for these resolutions, add the **bug** label to the issue.\n\n\
         If no bug is needed, the issue can be closed."
    );
}

#[test]
fn decision_body_for_several_resolutions() {
    let body = write_decision_body(
        &"drafts".to_string(),
        7,
        &"U".to_string(),
        &"T".to_string(),
        &vec!["one".to_string(), "two".to_string()],
        &"C".to_string(),
    );
    assert!(body.starts_with("Resolutions were made for [drafts/#7](U).\n\n**T**\n\n"));
    assert!(body.contains("\n* RESOLVED: one\n* RESOLVED: two\n\n\n[Discussion.](C)\n\n----\n\n"));
    let none = write_decision_body(
        &"drafts".to_string(),
        7,
        &"U".to_string(),
        &"T".to_string(),
        &vec![],
        &"C".to_string(),
    );
    assert!(none.starts_with("Resolutions were made for"));
    assert!(none.contains("**T**\n\n\n\n[Discussion.](C)"));
}

#[test]
fn bug_description_ends_at_the_separator() {
    assert_eq!(describe_bug(&"text\n\n----\n\nmore\n----\n".to_string()), "text\n\n");
    assert_eq!(describe_bug(&"no separator --- here".to_string()), "no separator --- here");
    assert_eq!(describe_bug(&"----".to_string()), "");
    assert_eq!(describe_bug(&"".to_string()), "");
}

#[test]
fn label_ids_skip_unknown_names() {
    let mut known = TextMap::new();
    known.insert("[spec] a".to_string(), "L1".to_string());
    known.insert("[spec] b".to_string(), "L2".to_string());
    let names = vec!["[spec] b".to_string(), "[spec] c".to_string(), "[spec] a".to_string()];
    assert_eq!(find_label_ids(&names, &known), vec!["L2".to_string(), "L1".to_string()]);
}

#[test]
fn latest_update_is_the_greatest_time() {
    let issues = vec![
        issue(1, "2020-03-01T10:00:00Z"),
        issue(2, "2020-05-01T10:00:00Z"),
        issue(3, "2020-04-01T10:00:00Z"),
    ];
    assert_eq!(find_latest_update(&"2020-01-01T00:00:00Z".to_string(), &issues), "2020-05-01T10:00:00Z");
    assert_eq!(find_latest_update(&"2021-01-01T00:00:00Z".to_string(), &issues), "2021-01-01T00:00:00Z");
    assert_eq!(find_latest_update(&"2020-01-01T00:00:00Z".to_string(), &vec![]), "2020-01-01T00:00:00Z");
}

fn config() -> Config {
    Config {
        github_key: "gh".to_string(),
        bugzilla_key: "bz".to_string(),
        wg_repo_owner: "wg".to_string(),
        wg_repo_name: "drafts".to_string(),
        decisions_repo_owner: "dec".to_string(),
        decisions_repo_name: "decisions".to_string(),
        state_directory: "/tmp/state".to_string(),
        start_date: "2019-05-01".to_string(),
    }
}

#[test]
fn decision_request_carries_the_body_and_the_labels() {
    let request = make_decision_request(
        &"REPO".to_string(),
        7,
        &"A *title*".to_string(),
        Some("A \\*title\\*".to_string()),
        Some(vec!["Do it".to_string()]),
        &"C".to_string(),
        vec!["L1".to_string()],
        &config(),
    );
    let body = write_decision_body(
        &"drafts".to_string(),
        7,
        &"https://github.com/wg/drafts/issues/7".to_string(),
        &"A \\*title\\*".to_string(),
        &vec!["Do it".to_string()],
        &"C".to_string(),
    );
    assert_eq!(
        request,
        Ok(Request::CreateIssue {
            repo_id: "REPO".to_string(),
            title: "A *title*".to_string(),
            body,
            labels: vec!["L1".to_string()],
        })
    );
}

#[test]
fn decision_request_fails_where_escaping_failed() {
    let pattern = wg_tracker::util::ESCAPE_MARKDOWN_PATTERN.to_string();
    assert_eq!(
        make_decision_request(
            &"REPO".to_string(),
            7,
            &"T".to_string(),
            None,
            Some(vec![]),
            &"C".to_string(),
            vec![],
            &config(),
        ),
        Err(Error::Pattern { pattern: pattern.clone() })
    );
    assert_eq!(
        make_decision_request(
            &"REPO".to_string(),
            7,
            &"T".to_string(),
            Some("T".to_string()),
            None,
            &"C".to_string(),
            vec![],
            &config(),
        ),
        Err(Error::Pattern { pattern })
    );
}

#[test]
fn bug_details_end_with_the_decision_address() {
    assert_eq!(
        make_bug_details(
            &"P".to_string(),
            &"C".to_string(),
            7,
            &"ID7".to_string(),
            &"Summary".to_string(),
            "Description".to_string(),
            Some(vec!["https://a.example".to_string()]),
            &config(),
        ),
        Ok(Task::FileBugWithDetails {
            product: "P".to_string(),
            component: "C".to_string(),
            summary: "Summary".to_string(),
            description: "Description".to_string(),
            urls: vec![
                "https://a.example".to_string(),
                "https://github.com/dec/decisions/issues/7".to_string(),
            ],
            issue_number: 7,
            issue_id: "ID7".to_string(),
        })
    );
    assert_eq!(
        make_bug_details(
            &"P".to_string(),
            &"C".to_string(),
            7,
            &"ID7".to_string(),
            &"Summary".to_string(),
            "Description".to_string(),
            None,
            &config(),
        ),
        Err(Error::Pattern { pattern: wg_tracker::util::MARKDOWN_URLS_PATTERN.to_string() })
    );
}
