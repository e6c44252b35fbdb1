//! The settings of one installation.

use crate::error::{Error, ErrorView};
use crate::text::joined;
use crate::util::{is_match, regex_is_match};
use vstd::prelude::*;

verus! {

/// What a repository's owner and name must look like.
pub const REPO_ID_PATTERN: &'static str = r"^[0-9A-Za-z_-]+$";

/// What the start date must look like.
pub const DATE_PATTERN: &'static str = r"^(\d\d\d\d)-(\d\d)-(\d\d)$";

/// The settings read from the configuration file.
#[derive(Debug, PartialEq, Eq)]
pub struct Config {
    pub github_key: String,
    pub bugzilla_key: String,
    pub wg_repo_owner: String,
    pub wg_repo_name: String,
    pub decisions_repo_owner: String,
    pub decisions_repo_name: String,
    pub state_directory: String,
    pub start_date: String,
}

/// The settings as mathematics: each text as its sequence of characters.
pub struct ConfigView {
    pub github_key: Seq<char>,
    pub bugzilla_key: Seq<char>,
    pub wg_repo_owner: Seq<char>,
    pub wg_repo_name: Seq<char>,
    pub decisions_repo_owner: Seq<char>,
    pub decisions_repo_name: Seq<char>,
    pub state_directory: Seq<char>,
    pub start_date: Seq<char>,
}

impl View for Config {
    type V = ConfigView;

    open spec fn view(&self) -> ConfigView {
        ConfigView {
            github_key: self.github_key@,
            bugzilla_key: self.bugzilla_key@,
            wg_repo_owner: self.wg_repo_owner@,
            wg_repo_name: self.wg_repo_name@,
            decisions_repo_owner: self.decisions_repo_owner@,
            decisions_repo_name: self.decisions_repo_name@,
            state_directory: self.state_directory@,
            start_date: self.start_date@,
        }
    }
}

/// The address of a repository's page.
pub open spec fn repo_url(owner: Seq<char>, name: Seq<char>) -> Seq<char> {
    "https://github.com/"@ + owner + "/"@ + name
}

/// What a match, or the lack of one, says of a value: nothing where the
/// pattern was found, else the failure. `None` stands for a pattern that did
/// not compile.
pub open spec fn match_failure(key: Seq<char>, pattern: Seq<char>, matched: Option<bool>) -> Option<
    ErrorView,
> {
    match matched {
        Some(true) => None,
        Some(false) => Some(ErrorView::ConfigSyntax { key }),
        None => Some(ErrorView::Pattern { pattern }),
    }
}

/// What the check of one value says: nothing where the value has the syntax
/// of `pattern`, else the failure.
pub open spec fn syntax_failure(key: Seq<char>, value: Seq<char>, pattern: Seq<char>) -> Option<
    ErrorView,
> {
    match_failure(key, pattern, regex_is_match(pattern, value))
}

impl ConfigView {
    /// The address at which the decisions repository publishes its policy.
    pub open spec fn repo_config_url(self) -> Seq<char> {
        "https://raw.githubusercontent.com/"@ + self.decisions_repo_owner + "/"@
            + self.decisions_repo_name + "/master/config.toml"@
    }

    /// The address of the working group's repository.
    pub open spec fn wg_repo_url(self) -> Seq<char> {
        repo_url(self.wg_repo_owner, self.wg_repo_name)
    }

    /// The address of the decisions repository.
    pub open spec fn decisions_repo_url(self) -> Seq<char> {
        repo_url(self.decisions_repo_owner, self.decisions_repo_name)
    }

    /// The first failure among the checked values, in the order in which
    /// they are checked.
    pub open spec fn first_failure(self) -> Option<ErrorView> {
        if syntax_failure("wg_repo_owner"@, self.wg_repo_owner, REPO_ID_PATTERN@) is Some {
            syntax_failure("wg_repo_owner"@, self.wg_repo_owner, REPO_ID_PATTERN@)
        } else if syntax_failure("wg_repo_name"@, self.wg_repo_name, REPO_ID_PATTERN@) is Some {
            syntax_failure("wg_repo_name"@, self.wg_repo_name, REPO_ID_PATTERN@)
        } else if syntax_failure(
            "decisions_repo_owner"@,
            self.decisions_repo_owner,
            REPO_ID_PATTERN@,
        ) is Some {
            syntax_failure("decisions_repo_owner"@, self.decisions_repo_owner, REPO_ID_PATTERN@)
        } else if syntax_failure(
            "decisions_repo_name"@,
            self.decisions_repo_name,
            REPO_ID_PATTERN@,
        ) is Some {
            syntax_failure("decisions_repo_name"@, self.decisions_repo_name, REPO_ID_PATTERN@)
        } else {
            syntax_failure("start_date"@, self.start_date, DATE_PATTERN@)
        }
    }
}

/// What a match, or the lack of one, says of the value under `key`.
pub fn syntax_verdict(key: &str, pattern: &str, matched: Option<bool>) -> (r: Result<(), Error>)
    ensures
        match r {
            Ok(_) => match_failure(key@, pattern@, matched) is None,
            Err(e) => match_failure(key@, pattern@, matched) == Some(e@),
        },
{
    match matched {
        Some(true) => Ok(()),
        Some(false) => Err(Error::ConfigSyntax { key: String::from_str(key) }),
        None => Err(Error::Pattern { pattern: String::from_str(pattern) }),
    }
}

/// Checks one value against the pattern for its key.
pub fn validate_syntax(key: &str, value: &str, pattern: &str) -> (r: Result<(), Error>)
    ensures
        match r {
            Ok(_) => syntax_failure(key@, value@, pattern@) is None,
            Err(e) => syntax_failure(key@, value@, pattern@) == Some(e@),
        },
{
    syntax_verdict(key, pattern, is_match(pattern, value))
}

fn repo_url_of(owner: &String, name: &String) -> (r: String)
    ensures
        r@ == repo_url(owner@, name@),
{
    let mut r = joined("https://github.com/", owner.as_str());
    r.append("/");
    r.append(name.as_str());
    r
}

impl Config {
    /// The address of the working group's repository.
    pub fn wg_repo_url(&self) -> (r: String)
        ensures
            r@ == self@.wg_repo_url(),
    {
        repo_url_of(&self.wg_repo_owner, &self.wg_repo_name)
    }

    /// The address of the decisions repository.
    pub fn decisions_repo_url(&self) -> (r: String)
        ensures
            r@ == self@.decisions_repo_url(),
    {
        repo_url_of(&self.decisions_repo_owner, &self.decisions_repo_name)
    }

    /// The address at which the decisions repository publishes its policy.
    pub fn repo_config_url(&self) -> (r: String)
        ensures
            r@ == self@.repo_config_url(),
    {
        let mut r = joined(
            "https://raw.githubusercontent.com/",
            self.decisions_repo_owner.as_str(),
        );
        r.append("/");
        r.append(self.decisions_repo_name.as_str());
        r.append("/master/config.toml");
        r
    }

    /// Checks the owners and names of the two repositories and the start
    /// date, in this order, and reports the first value that has the wrong
    /// syntax.
    pub fn validate(&self) -> (r: Result<(), Error>)
        ensures
            match r {
                Ok(_) => self@.first_failure() is None,
                Err(e) => self@.first_failure() == Some(e@),
            },
    {
        validate_syntax("wg_repo_owner", self.wg_repo_owner.as_str(), REPO_ID_PATTERN)?;
        validate_syntax("wg_repo_name", self.wg_repo_name.as_str(), REPO_ID_PATTERN)?;
        validate_syntax(
            "decisions_repo_owner",
            self.decisions_repo_owner.as_str(),
            REPO_ID_PATTERN,
        )?;
        validate_syntax("decisions_repo_name", self.decisions_repo_name.as_str(), REPO_ID_PATTERN)?;
        validate_syntax("start_date", self.start_date.as_str(), DATE_PATTERN)
    }
}

} // verus!
