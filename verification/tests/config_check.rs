use wg_tracker::config::{syntax_verdict, validate_syntax, Config, DATE_PATTERN, REPO_ID_PATTERN};
use wg_tracker::error::{Error, ErrorKind};

fn config() -> Config {
    Config {
        github_key: "gh".to_string(),
        bugzilla_key: "bz".to_string(),
        wg_repo_owner: "w3c".to_string(),
        wg_repo_name: "csswg-drafts".to_string(),
        decisions_repo_owner: "moz".to_string(),
        decisions_repo_name: "wg_decisions".to_string(),
        state_directory: "/var/lib/tracker".to_string(),
        start_date: "2019-05-01".to_string(),
    }
}

#[test]
fn repository_addresses() {
    let c = config();
    assert_eq!(c.wg_repo_url(), "https://github.com/w3c/csswg-drafts");
    assert_eq!(c.decisions_repo_url(), "https://github.com/moz/wg_decisions");
}

#[test]
fn policy_address() {
    assert_eq!(
        config().repo_config_url(),
        "https://raw.githubusercontent.com/moz/wg_decisions/master/config.toml"
    );
}

#[test]
fn report_line_holds_time_and_message() {
    assert_eq!(
        Error::RepositoryNotFound.report_line("2019-05-01T10:00:00+02:00"),
        "[2019-05-01T10:00:00+02:00] error: repository not found"
    );
}

#[test]
fn valid_configuration_passes() {
    assert_eq!(config().validate(), Ok(()));
}

#[test]
fn first_value_with_wrong_syntax_is_reported() {
    let mut c = config();
    c.wg_repo_name = "bad name".to_string();
    c.start_date = "yesterday".to_string();
    assert_eq!(c.validate(), Err(Error::ConfigSyntax { key: "wg_repo_name".to_string() }));
    let mut c = config();
    c.wg_repo_owner = String::new();
    assert_eq!(c.validate(), Err(Error::ConfigSyntax { key: "wg_repo_owner".to_string() }));
    let mut c = config();
    c.decisions_repo_owner = "a/b".to_string();
    assert_eq!(c.validate(), Err(Error::ConfigSyntax { key: "decisions_repo_owner".to_string() }));
    let mut c = config();
    c.decisions_repo_name = "a b".to_string();
    assert_eq!(c.validate(), Err(Error::ConfigSyntax { key: "decisions_repo_name".to_string() }));
    let mut c = config();
    c.start_date = "2019-5-1".to_string();
    assert_eq!(c.validate(), Err(Error::ConfigSyntax { key: "start_date".to_string() }));
    let mut c = config();
    c.start_date = "2019-05-01\n".to_string();
    assert_eq!(c.validate(), Err(Error::ConfigSyntax { key: "start_date".to_string() }));
}

#[test]
fn syntax_check_of_one_value() {
    assert_eq!(validate_syntax("k", "abc_DEF-123", REPO_ID_PATTERN), Ok(()));
    assert_eq!(validate_syntax("k", "2020-12-31", DATE_PATTERN), Ok(()));
    assert_eq!(
        validate_syntax("k", "2020-12-31T", DATE_PATTERN),
        Err(Error::ConfigSyntax { key: "k".to_string() })
    );
}

#[test]
fn verdict_follows_the_match() {
    assert_eq!(syntax_verdict("k", "p", Some(true)), Ok(()));
    assert_eq!(
        syntax_verdict("k", "p", Some(false)),
        Err(Error::ConfigSyntax { key: "k".to_string() })
    );
    assert_eq!(syntax_verdict("k", "p", None), Err(Error::Pattern { pattern: "p".to_string() }));
}

#[test]
fn pattern_that_does_not_compile_is_reported() {
    assert_eq!(
        validate_syntax("k", "v", "("),
        Err(Error::Pattern { pattern: "(".to_string() })
    );
}

#[test]
fn error_kinds_and_messages() {
    let cases = vec![
        (Error::Config { message: "m".to_string() }, ErrorKind::Config, "m"),
        (
            Error::ConfigSyntax { key: "start_date".to_string() },
            ErrorKind::Config,
            "config file start_date value has the wrong syntax",
        ),
        (
            Error::Pattern { pattern: "(".to_string() },
            ErrorKind::Config,
            "could not compile pattern '('",
        ),
        (Error::Network { message: "down".to_string() }, ErrorKind::Network, "down"),
        (Error::Response { message: "bad".to_string() }, ErrorKind::Response, "bad"),
        (Error::UnexpectedResponse, ErrorKind::Response, "unexpected response"),
        (Error::RepositoryNotFound, ErrorKind::NotFound, "repository not found"),
        (
            Error::MissingVersion,
            ErrorKind::Parse,
            "could not find version number in state file",
        ),
        (
            Error::InvalidVersion,
            ErrorKind::Parse,
            "could not parse version number in state file",
        ),
        (
            Error::UnknownVersion { version: 2 },
            ErrorKind::Parse,
            "unknown state file version number 2",
        ),
        (Error::Parse { message: "json".to_string() }, ErrorKind::Parse, "json"),
        (Error::MissingBugLabel, ErrorKind::Policy, "decisions repo missing 'bug' label"),
        (
            Error::InvalidComponent { text: "x".to_string() },
            ErrorKind::Policy,
            "could not parse component 'x'",
        ),
    ];
    for (error, kind, message) in cases {
        assert_eq!(error.kind(), kind);
        assert_eq!(error.message(), message);
    }
}
