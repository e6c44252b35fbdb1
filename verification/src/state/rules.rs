//! The rules by which a task reads its input: where a comment holds
//! resolutions, which labels carry over, which component a decision
//! belongs to, and what a filed decision says.

use crate::config::{Config, ConfigView};
use crate::error::{Error, ErrorView};
use crate::query::{
    IssueLabel, IssueLabelView, Request, RequestView, UpdatedIssue, UpdatedIssueView,
};
use crate::repo_config::{RepoConfig, RepoConfigLabels, RepoConfigLabelsView};
use crate::seqs::{
    lemma_deep_view_push, lemma_filter_map_empty, lemma_filter_map_push, lemma_take_all,
    lemma_take_push,
};
use crate::text::{
    chars_of, contains_text, decimal, decimal_string, find_text, index_of_text, joined,
    later_text, matches_at, starts_with, text_at_most,
};
use crate::state::task::{Task, TaskView};
use crate::text_map::TextMap;
use crate::util::{ESCAPE_MARKDOWN_PATTERN, MARKDOWN_URLS_PATTERN};
use vstd::prelude::*;

verus! {

/// What a line that records a resolution begins with.
pub const RESOLUTION_MARKER: &'static str = "RESOLVED: ";

/// What the name of a label begins with that stands for a specification.
pub const SPEC_LABEL_PREFIX: &'static str = "[spec] ";

/// A line without the carriage return that may end it.
pub open spec fn without_carriage_return(line: Seq<char>) -> Seq<char> {
    if line.len() > 0 && line.last() == '\r' {
        line.drop_last()
    } else {
        line
    }
}

/// The lines of `text` from position `pos` on, where the line that `pos` is
/// in began at `start`. A line ends with a line feed, or with a carriage
/// return and a line feed, neither of which belongs to it; the last line
/// ends with the text.
pub open spec fn lines_scan(text: Seq<char>, pos: int, start: int) -> Seq<Seq<char>>
    decreases text.len() - pos,
{
    if pos < 0 || pos >= text.len() {
        if 0 <= start < text.len() {
            seq![text.subrange(start, text.len() as int)]
        } else {
            Seq::empty()
        }
    } else if text[pos] == '\n' {
        seq![without_carriage_return(text.subrange(start, pos))] + lines_scan(
            text,
            pos + 1,
            pos + 1,
        )
    } else {
        lines_scan(text, pos + 1, start)
    }
}

/// The lines of `text`.
pub open spec fn lines(text: Seq<char>) -> Seq<Seq<char>> {
    lines_scan(text, 0, 0)
}

/// Whether a line records a resolution.
pub open spec fn is_resolution() -> spec_fn(Seq<char>) -> bool {
    |line: Seq<char>| RESOLUTION_MARKER@.is_prefix_of(line)
}

/// What a line that records a resolution says.
pub open spec fn resolution_text() -> spec_fn(Seq<char>) -> Seq<char> {
    |line: Seq<char>| line.skip(RESOLUTION_MARKER@.len() as int)
}

/// The resolutions that a comment records: its lines that begin with the
/// marker, in order, without the marker.
pub open spec fn resolutions(body: Seq<char>) -> Seq<Seq<char>> {
    lines(body).filter(is_resolution()).map_values(resolution_text())
}

/// The resolutions that a comment records.
pub fn find_resolutions(body: &str) -> (r: Vec<String>)
    ensures
        r.deep_view() == resolutions(body@),
{
    let text = chars_of(body);
    let marker = chars_of(RESOLUTION_MARKER);
    let mut r: Vec<String> = Vec::new();
    let ghost mut seen: Seq<Seq<char>> = Seq::empty();
    let mut start: usize = 0;
    let mut pos: usize = 0;
    proof {
        lemma_filter_map_empty(is_resolution(), resolution_text());
    }
    while pos < text.len()
        invariant
            start <= pos <= text.len(),
            text@ == body@,
            marker@ == RESOLUTION_MARKER@,
            lines(text@) == seen + lines_scan(text@, pos as int, start as int),
            r.deep_view() == seen.filter(is_resolution()).map_values(resolution_text()),
        decreases text.len() - pos,
    {
        if text[pos] == '\n' {
            let end: usize = if pos > start && text[pos - 1] == '\r' {
                (pos - 1) as usize
            } else {
                pos
            };
            let ghost line = text@.subrange(start as int, end as int);
            proof {
                assert(line =~= without_carriage_return(text@.subrange(start as int, pos as int)));
                lemma_filter_map_push(seen, line, is_resolution(), resolution_text());
            }
            take_resolution(body, &text, &marker, start, end, &mut r);
            proof {
                seen = seen.push(line);
            }
            start = pos + 1;
        }
        pos += 1;
    }
    if start < text.len() {
        let ghost line = text@.subrange(start as int, text@.len() as int);
        proof {
            lemma_filter_map_push(seen, line, is_resolution(), resolution_text());
            assert(seen.push(line) =~= lines(text@));
        }
        take_resolution(body, &text, &marker, start, text.len(), &mut r);
    }
    r
}

/// Adds to `found` what the line from `start` to `end` says, if it records a
/// resolution.
fn take_resolution(
    body: &str,
    text: &Vec<char>,
    marker: &Vec<char>,
    start: usize,
    end: usize,
    found: &mut Vec<String>,
)
    requires
        start <= end <= text.len(),
        text@ == body@,
        marker@ == RESOLUTION_MARKER@,
    ensures
        final(found).deep_view() == if is_resolution()(text@.subrange(start as int, end as int)) {
            old(found).deep_view().push(
                resolution_text()(text@.subrange(start as int, end as int)),
            )
        } else {
            old(found).deep_view()
        },
{
    let ghost line = text@.subrange(start as int, end as int);
    if marker.len() <= end - start && matches_at(text, marker, start) {
        let ghost before = *found;
        let from: usize = start + marker.len();
        let what = body.substring_char(from, end).to_owned();
        found.push(what);
        proof {
            assert(what@ =~= line.skip(marker@.len() as int));
            lemma_deep_view_push(before@, *found, what);
        }
    } else {
        proof {
            if marker@.len() <= line.len() {
                assert(line.subrange(0, marker@.len() as int) =~= text@.subrange(
                    start as int,
                    start + marker@.len(),
                ));
            }
        }
    }
}

/// Whether `name` begins with one of `prefixes`.
pub open spec fn has_any_prefix(name: Seq<char>, prefixes: Seq<Seq<char>>) -> bool {
    exists|i: int| 0 <= i < prefixes.len() && (#[trigger] prefixes[i]).is_prefix_of(name)
}

/// Whether a label carries over to the decision: it has the configured
/// colour, or its name begins with a configured prefix.
pub open spec fn label_wanted(label: IssueLabelView, policy: RepoConfigLabelsView) -> bool {
    ||| policy.color == Some(label.color)
    ||| policy.prefixes is Some && has_any_prefix(label.name, policy.prefixes->Some_0)
}

/// `label_wanted` as a predicate on labels.
pub open spec fn wanted_by(policy: RepoConfigLabelsView) -> spec_fn(IssueLabelView) -> bool {
    |label: IssueLabelView| label_wanted(label, policy)
}

/// The labels of an issue that carry over to the decision, in order.
pub open spec fn desired_labels(
    labels: Seq<IssueLabelView>,
    policy: Option<RepoConfigLabelsView>,
) -> Seq<IssueLabelView> {
    match policy {
        Some(policy) => labels.filter(wanted_by(policy)),
        None => Seq::empty(),
    }
}

/// The name under which a label of the working group is known in the
/// decisions repository.
pub open spec fn spec_label_name(name: Seq<char>) -> Seq<char> {
    SPEC_LABEL_PREFIX@ + name
}

/// `spec_label_name` of a label.
pub open spec fn spec_name_of() -> spec_fn(IssueLabelView) -> Seq<char> {
    |label: IssueLabelView| spec_label_name(label.name)
}

fn begins_with_any(name: &String, prefixes: &Vec<String>) -> (r: bool)
    ensures
        r == has_any_prefix(name@, prefixes.deep_view()),
{
    let text = chars_of(name.as_str());
    let mut i: usize = 0;
    while i < prefixes.len()
        invariant
            i <= prefixes.len(),
            text@ == name@,
            forall|j: int| 0 <= j < i ==> !(#[trigger] prefixes.deep_view()[j]).is_prefix_of(name@),
        decreases prefixes.len() - i,
    {
        let prefix = chars_of(prefixes[i].as_str());
        if starts_with(&text, &prefix) {
            assert(prefixes.deep_view()[i as int].is_prefix_of(name@));
            return true;
        }
        i += 1;
    }
    false
}

fn is_wanted(label: &IssueLabel, policy: &RepoConfigLabels) -> (r: bool)
    ensures
        r == label_wanted(label@, policy@),
{
    let by_color = match &policy.color {
        Some(color) => label.color == *color,
        None => false,
    };
    if by_color {
        return true;
    }
    match &policy.prefixes {
        Some(prefixes) => begins_with_any(&label.name, prefixes),
        None => false,
    }
}

/// The labels of an issue that carry over to the decision, in order.
pub fn select_desired_labels(labels: &Vec<IssueLabel>, policy: &RepoConfig) -> (r: Vec<
    IssueLabel,
>)
    ensures
        r.deep_view() == desired_labels(labels.deep_view(), policy@.labels),
{
    let mut r: Vec<IssueLabel> = Vec::new();
    match &policy.labels {
        None => {},
        Some(wanted) => {
            let ghost keep = wanted_by(wanted@);
            let ghost same = |label: IssueLabelView| label;
            let mut i: usize = 0;
            proof {
                lemma_filter_map_empty(keep, same);
            }
            while i < labels.len()
                invariant
                    i <= labels.len(),
                    keep == wanted_by(wanted@),
                    same == |label: IssueLabelView| label,
                    r.deep_view() == labels.deep_view().take(i as int).filter(keep).map_values(
                        same,
                    ),
                decreases labels.len() - i,
            {
                proof {
                    lemma_take_push(labels.deep_view(), i as int);
                    lemma_filter_map_push(
                        labels.deep_view().take(i as int),
                        labels.deep_view()[i as int],
                        keep,
                        same,
                    );
                }
                if is_wanted(&labels[i], wanted) {
                    let ghost before = r;
                    let label = labels[i].clone();
                    r.push(label);
                    proof {
                        lemma_deep_view_push(before@, r, label);
                    }
                }
                i += 1;
            }
            proof {
                lemma_take_all(labels.deep_view());
            }
        },
    }
    r
}

/// The name under which a label of the working group is known in the
/// decisions repository.
pub fn spec_label(name: &String) -> (r: String)
    ensures
        r@ == spec_label_name(name@),
{
    joined(SPEC_LABEL_PREFIX, name.as_str())
}

/// What stands between the product and the component.
pub const COMPONENT_SEPARATOR: &'static str = " :: ";

/// The key of the component that answers where no specification does.
pub const DEFAULT_COMPONENT_KEY: &'static str = "default";

/// The product that takes the bugs nobody answers for.
pub const FALLBACK_PRODUCT: &'static str = "Invalid Bugs";

/// The component that takes the bugs nobody answers for.
pub const FALLBACK_COMPONENT: &'static str = "General";

/// The name of the label that asks for a bug.
pub const BUG_LABEL: &'static str = "bug";

/// Whether a character belongs to the level or version that ends the name
/// of a specification: a decimal digit or a hyphen.
pub open spec fn is_version_char(c: char) -> bool {
    ('0' <= c && c <= '9') || c == '-'
}

/// A specification's name without the digits and hyphens that end it.
pub open spec fn without_version(id: Seq<char>) -> Seq<char>
    decreases id.len(),
{
    if id.len() > 0 && is_version_char(id.last()) {
        without_version(id.drop_last())
    } else {
        id
    }
}

/// Whether a label's name says that it stands for a specification.
pub open spec fn is_spec_label(name: Seq<char>) -> bool {
    SPEC_LABEL_PREFIX@.is_prefix_of(name)
}

/// The short name of the specification that a label stands for.
pub open spec fn spec_id(name: Seq<char>) -> Seq<char> {
    without_version(name.skip(SPEC_LABEL_PREFIX@.len() as int))
}

/// Whether a label stands for a specification that `components` knows.
pub open spec fn has_component(components: Map<Seq<char>, Seq<char>>) -> spec_fn(
    IssueLabelView,
) -> bool {
    |label: IssueLabelView|
        is_spec_label(label.name) && components.dom().contains(spec_id(label.name))
}

/// The component configured for the specification that a label stands for.
pub open spec fn component_of(components: Map<Seq<char>, Seq<char>>) -> spec_fn(
    IssueLabelView,
) -> Seq<char> {
    |label: IssueLabelView| components[spec_id(label.name)]
}

/// The components configured for the specifications that the labels of an
/// issue stand for, in the order of the labels.
pub open spec fn matched_components(
    labels: Seq<IssueLabelView>,
    components: Option<Map<Seq<char>, Seq<char>>>,
) -> Seq<Seq<char>> {
    match components {
        Some(components) => labels.filter(has_component(components)).map_values(
            component_of(components),
        ),
        None => Seq::empty(),
    }
}

/// A configured component as a product and a component: the two pieces
/// that the text falls into at its separators, where there are exactly two.
pub open spec fn parsed_component(text: Seq<char>) -> Option<(Seq<char>, Seq<char>)> {
    if !contains_text(text, COMPONENT_SEPARATOR@) {
        None
    } else {
        let at = index_of_text(text, COMPONENT_SEPARATOR@);
        let rest = text.skip(at + COMPONENT_SEPARATOR@.len());
        if contains_text(rest, COMPONENT_SEPARATOR@) {
            None
        } else {
            Some((text.take(at), rest))
        }
    }
}

/// The product and the component that answer for an issue with these
/// labels. Where exactly one label stands for a known specification, its
/// component; else the default component, where one is configured; else the
/// fallback. `Err` holds the configured text that is not a product and a
/// component.
pub open spec fn product_component(
    labels: Seq<IssueLabelView>,
    components: Option<Map<Seq<char>, Seq<char>>>,
) -> Result<(Seq<char>, Seq<char>), Seq<char>> {
    let found = matched_components(labels, components);
    if found.len() == 1 {
        match parsed_component(found[0]) {
            Some(pair) => Ok(pair),
            None => Err(found[0]),
        }
    } else if components is Some && components->Some_0.dom().contains(DEFAULT_COMPONENT_KEY@) {
        let text = components->Some_0[DEFAULT_COMPONENT_KEY@];
        match parsed_component(text) {
            Some(pair) => Ok(pair),
            None => Err(text),
        }
    } else {
        Ok((FALLBACK_PRODUCT@, FALLBACK_COMPONENT@))
    }
}

/// Whether one of the labels is the one that asks for a bug.
pub open spec fn has_bug_label(labels: Seq<IssueLabelView>) -> bool {
    exists|i: int| 0 <= i < labels.len() && (#[trigger] labels[i]).name == BUG_LABEL@
}

/// Whether one of the labels is the one that asks for a bug.
pub fn asks_for_bug(labels: &Vec<IssueLabel>) -> (r: bool)
    ensures
        r == has_bug_label(labels.deep_view()),
{
    let bug = String::from_str(BUG_LABEL);
    let mut i: usize = 0;
    while i < labels.len()
        invariant
            i <= labels.len(),
            bug@ == BUG_LABEL@,
            forall|j: int| 0 <= j < i ==> (#[trigger] labels.deep_view()[j]).name != BUG_LABEL@,
        decreases labels.len() - i,
    {
        if labels[i].name == bug {
            assert(labels.deep_view()[i as int].name == BUG_LABEL@);
            return true;
        }
        i += 1;
    }
    false
}

/// The short name of the specification that a label with this name stands
/// for, if the name says that it stands for one.
pub fn specification_of(name: &String) -> (r: Option<String>)
    ensures
        match r {
            Some(id) => is_spec_label(name@) && id@ == spec_id(name@),
            None => !is_spec_label(name@),
        },
{
    let text = chars_of(name.as_str());
    let prefix = chars_of(SPEC_LABEL_PREFIX);
    if !starts_with(&text, &prefix) {
        return None;
    }
    let from: usize = prefix.len();
    let mut end: usize = text.len();
    let ghost whole = text@.skip(from as int);
    while end > from && (('0' <= text[end - 1] && text[end - 1] <= '9') || text[end - 1] == '-')
        invariant
            from <= end <= text.len(),
            without_version(whole) == without_version(text@.subrange(from as int, end as int)),
        decreases end,
    {
        assert(text@.subrange(from as int, end as int).drop_last() =~= text@.subrange(
            from as int,
            end - 1,
        ));
        end -= 1;
    }
    Some(name.as_str().substring_char(from, end).to_owned())
}

/// A configured component as a product and a component.
pub fn parse_component(text: &String) -> (r: Option<(String, String)>)
    ensures
        r.deep_view() == parsed_component(text@),
{
    let chars = chars_of(text.as_str());
    let separator = chars_of(COMPONENT_SEPARATOR);
    match find_text(&chars, &separator) {
        None => None,
        Some(at) => {
            assert(at + separator.len() <= chars.len());
            let from: usize = at + separator.len();
            let rest = text.as_str().substring_char(from, chars.len());
            let rest_chars = chars_of(rest);
            if find_text(&rest_chars, &separator).is_some() {
                None
            } else {
                let product = text.as_str().substring_char(0, at).to_owned();
                Some((product, rest.to_owned()))
            }
        },
    }
}

/// The product and the component that answer for an issue with these
/// labels, or the configured text that is not a product and a component.
pub fn resolve_component(labels: &Vec<IssueLabel>, policy: &RepoConfig) -> (r: Result<
    (String, String),
    String,
>)
    ensures
        match r {
            Ok(pair) => product_component(labels.deep_view(), policy@.components) == Ok::<
                (Seq<char>, Seq<char>),
                Seq<char>,
            >(pair.deep_view()),
            Err(text) => product_component(labels.deep_view(), policy@.components) == Err::<
                (Seq<char>, Seq<char>),
                Seq<char>,
            >(text@),
        },
{
    let mut found: Vec<String> = Vec::new();
    match &policy.components {
        None => {},
        Some(components) => {
            let ghost keep = has_component(components@);
            let ghost component = component_of(components@);
            let mut i: usize = 0;
            proof {
                lemma_filter_map_empty(keep, component);
            }
            while i < labels.len()
                invariant
                    i <= labels.len(),
                    keep == has_component(components@),
                    component == component_of(components@),
                    found.deep_view() == labels.deep_view().take(i as int).filter(
                        keep,
                    ).map_values(component),
                decreases labels.len() - i,
            {
                proof {
                    lemma_take_push(labels.deep_view(), i as int);
                    lemma_filter_map_push(
                        labels.deep_view().take(i as int),
                        labels.deep_view()[i as int],
                        keep,
                        component,
                    );
                }
                match specification_of(&labels[i].name) {
                    None => {},
                    Some(id) => {
                        match components.get(&id) {
                            None => {},
                            Some(text) => {
                                let ghost before = found;
                                found.push(text);
                                proof {
                                    lemma_deep_view_push(before@, found, text);
                                }
                            },
                        }
                    },
                }
                i += 1;
            }
            proof {
                lemma_take_all(labels.deep_view());
            }
        },
    }
    let chosen: Option<String> = if found.len() == 1 {
        Some(found[0].clone())
    } else {
        match &policy.components {
            Some(components) => components.get(&String::from_str(DEFAULT_COMPONENT_KEY)),
            None => None,
        }
    };
    match chosen {
        Some(text) => match parse_component(&text) {
            Some(pair) => Ok(pair),
            None => Err(text),
        },
        None => Ok((String::from_str(FALLBACK_PRODUCT), String::from_str(FALLBACK_COMPONENT))),
    }
}

/// The address of an issue's page.
pub open spec fn issue_url(repo_url: Seq<char>, number: int) -> Seq<char> {
    repo_url + "/issues/"@ + decimal(number)
}

/// The address of an issue's page.
pub fn issue_url_of(repo_url: &String, number: i64) -> (r: String)
    ensures
        r@ == issue_url(repo_url@, number as int),
{
    let mut r = joined(repo_url.as_str(), "/issues/");
    r.append(decimal_string(number).as_str());
    r
}

/// One line for each resolution.
pub open spec fn resolution_lines(resolutions: Seq<Seq<char>>) -> Seq<char>
    decreases resolutions.len(),
{
    if resolutions.len() == 0 {
        Seq::empty()
    } else {
        resolution_lines(resolutions.drop_last()) + "* RESOLVED: "@ + resolutions.last() + "\n"@
    }
}

/// What the decision says first: of how many resolutions it speaks.
pub open spec fn decision_opening(count: nat) -> Seq<char> {
    if count == 1 {
        "A resolution was"@
    } else {
        "Resolutions were"@
    }
}

/// What every decision ends with.
pub const DECISION_TRAILER: &'static str =
    "To file a bug automatically for these resolutions, add the **bug** label to the issue.\n\nIf no bug is needed, the issue can be closed.";

/// The text of the issue that records a decision. `title` and `resolutions`
/// are taken as they are: the caller has escaped them.
pub open spec fn decision_body(
    repo_name: Seq<char>,
    issue_number: int,
    issue_url: Seq<char>,
    title: Seq<char>,
    resolutions: Seq<Seq<char>>,
    comment_url: Seq<char>,
) -> Seq<char> {
    decision_opening(resolutions.len()) + " made for ["@ + repo_name + "/#"@ + decimal(
        issue_number,
    ) + "]("@ + issue_url + ").\n\n**"@ + title + "**\n\n"@ + resolution_lines(resolutions)
        + "\n\n[Discussion.]("@ + comment_url + ")\n\n----\n\n"@ + DECISION_TRAILER@
}

/// The text of the issue that records a decision.
pub fn write_decision_body(
    repo_name: &String,
    issue_number: i64,
    issue_url: &String,
    title: &String,
    resolutions: &Vec<String>,
    comment_url: &String,
) -> (r: String)
    ensures
        r@ == decision_body(
            repo_name@,
            issue_number as int,
            issue_url@,
            title@,
            resolutions.deep_view(),
            comment_url@,
        ),
{
    let mut r = if resolutions.len() == 1 {
        String::from_str("A resolution was")
    } else {
        String::from_str("Resolutions were")
    };
    r.append(" made for [");
    r.append(repo_name.as_str());
    r.append("/#");
    r.append(decimal_string(issue_number).as_str());
    r.append("](");
    r.append(issue_url.as_str());
    r.append(").\n\n**");
    r.append(title.as_str());
    r.append("**\n\n");
    let ghost head = r@;
    let mut i: usize = 0;
    while i < resolutions.len()
        invariant
            i <= resolutions.len(),
            r@ == head + resolution_lines(resolutions.deep_view().take(i as int)),
        decreases resolutions.len() - i,
    {
        proof {
            lemma_take_push(resolutions.deep_view(), i as int);
            assert(resolutions.deep_view().take(i + 1).drop_last() =~= resolutions.deep_view().take(
                i as int,
            ));
        }
        r.append("* RESOLVED: ");
        r.append(resolutions[i].as_str());
        r.append("\n");
        i += 1;
    }
    proof {
        lemma_take_all(resolutions.deep_view());
    }
    r.append("\n\n[Discussion.](");
    r.append(comment_url.as_str());
    r.append(")\n\n----\n\n");
    r.append(DECISION_TRAILER);
    r
}

/// The request that files a decision, where `escaped_title` and
/// `escaped_resolutions` are the title and the resolutions after escaping,
/// or `None` where escaping failed, which fails the request.
pub open spec fn decision_request(
    repo_id: Seq<char>,
    issue_number: int,
    issue_title: Seq<char>,
    escaped_title: Option<Seq<char>>,
    escaped_resolutions: Option<Seq<Seq<char>>>,
    comment_url: Seq<char>,
    label_ids: Seq<Seq<char>>,
    config: ConfigView,
) -> Result<RequestView, ErrorView> {
    if escaped_title is None || escaped_resolutions is None {
        Err(ErrorView::Pattern { pattern: ESCAPE_MARKDOWN_PATTERN@ })
    } else {
        Ok(
            RequestView::CreateIssue {
                repo_id,
                title: issue_title,
                body: decision_body(
                    config.wg_repo_name,
                    issue_number,
                    issue_url(config.wg_repo_url(), issue_number),
                    escaped_title->Some_0,
                    escaped_resolutions->Some_0,
                    comment_url,
                ),
                labels: label_ids,
            },
        )
    }
}

/// The request that files a decision.
pub fn make_decision_request(
    repo_id: &String,
    issue_number: i64,
    issue_title: &String,
    escaped_title: Option<String>,
    escaped_resolutions: Option<Vec<String>>,
    comment_url: &String,
    label_ids: Vec<String>,
    config: &Config,
) -> (r: Result<Request, Error>)
    ensures
        match r {
            Ok(request) => decision_request(
                repo_id@,
                issue_number as int,
                issue_title@,
                escaped_title.deep_view(),
                escaped_resolutions.deep_view(),
                comment_url@,
                label_ids.deep_view(),
                config@,
            ) == Ok::<RequestView, ErrorView>(request@),
            Err(error) => decision_request(
                repo_id@,
                issue_number as int,
                issue_title@,
                escaped_title.deep_view(),
                escaped_resolutions.deep_view(),
                comment_url@,
                label_ids.deep_view(),
                config@,
            ) == Err::<RequestView, ErrorView>(error@),
        },
{
    match (escaped_title, escaped_resolutions) {
        (Some(title), Some(resolutions)) => {
            let address = issue_url_of(&config.wg_repo_url(), issue_number);
            let body = write_decision_body(
                &config.wg_repo_name,
                issue_number,
                &address,
                &title,
                &resolutions,
                comment_url,
            );
            Ok(
                Request::CreateIssue {
                    repo_id: repo_id.clone(),
                    title: issue_title.clone(),
                    body,
                    labels: label_ids,
                },
            )
        },
        _ => Err(Error::Pattern { pattern: String::from_str(ESCAPE_MARKDOWN_PATTERN) }),
    }
}

/// The task that files the bug for a decision, where `urls` are the
/// addresses found in the description, or `None` where the search for them
/// failed, which fails the task. The decision's own address follows the
/// addresses found.
pub open spec fn bug_details(
    product: Seq<char>,
    component: Seq<char>,
    issue_number: int,
    issue_id: Seq<char>,
    summary: Seq<char>,
    description: Seq<char>,
    urls: Option<Seq<Seq<char>>>,
    config: ConfigView,
) -> Result<TaskView, ErrorView> {
    match urls {
        Some(urls) => Ok(
            TaskView::FileBugWithDetails {
                product,
                component,
                summary,
                description,
                urls: urls.push(issue_url(config.decisions_repo_url(), issue_number)),
                issue_number,
                issue_id,
            },
        ),
        None => Err(ErrorView::Pattern { pattern: MARKDOWN_URLS_PATTERN@ }),
    }
}

/// The task that files the bug for a decision.
pub fn make_bug_details(
    product: &String,
    component: &String,
    issue_number: i64,
    issue_id: &String,
    summary: &String,
    description: String,
    urls: Option<Vec<String>>,
    config: &Config,
) -> (r: Result<Task, Error>)
    ensures
        match r {
            Ok(task) => bug_details(
                product@,
                component@,
                issue_number as int,
                issue_id@,
                summary@,
                description@,
                urls.deep_view(),
                config@,
            ) == Ok::<TaskView, ErrorView>(task@),
            Err(error) => bug_details(
                product@,
                component@,
                issue_number as int,
                issue_id@,
                summary@,
                description@,
                urls.deep_view(),
                config@,
            ) == Err::<TaskView, ErrorView>(error@),
        },
{
    match urls {
        Some(found) => {
            let mut urls = found;
            let ghost before = urls@;
            let own = issue_url_of(&config.decisions_repo_url(), issue_number);
            urls.push(own);
            proof {
                lemma_deep_view_push(before, urls, own);
            }
            Ok(
                Task::FileBugWithDetails {
                    product: product.clone(),
                    component: component.clone(),
                    summary: summary.clone(),
                    description,
                    urls,
                    issue_number,
                    issue_id: issue_id.clone(),
                },
            )
        },
        None => Err(Error::Pattern { pattern: String::from_str(MARKDOWN_URLS_PATTERN) }),
    }
}

/// What separates the decision's own text from what was added below it.
pub const DESCRIPTION_END: &'static str = "----";

/// The description of a bug: the body of the decision up to the separator,
/// or all of it where there is none.
pub open spec fn bug_description(body: Seq<char>) -> Seq<char> {
    if contains_text(body, DESCRIPTION_END@) {
        body.take(index_of_text(body, DESCRIPTION_END@))
    } else {
        body
    }
}

/// The description of a bug.
pub fn describe_bug(body: &String) -> (r: String)
    ensures
        r@ == bug_description(body@),
{
    let chars = chars_of(body.as_str());
    let separator = chars_of(DESCRIPTION_END);
    match find_text(&chars, &separator) {
        Some(at) => {
            let r = body.as_str().substring_char(0, at).to_owned();
            r
        },
        None => body.clone(),
    }
}

/// Whether `labels` knows a name.
pub open spec fn is_known(labels: Map<Seq<char>, Seq<char>>) -> spec_fn(Seq<char>) -> bool {
    |name: Seq<char>| labels.dom().contains(name)
}

/// The id under which `labels` knows a name.
pub open spec fn id_of(labels: Map<Seq<char>, Seq<char>>) -> spec_fn(Seq<char>) -> Seq<char> {
    |name: Seq<char>| labels[name]
}

/// The ids of the names that `labels` knows, in the order of the names.
pub open spec fn label_ids(names: Seq<Seq<char>>, labels: Map<Seq<char>, Seq<char>>) -> Seq<
    Seq<char>,
> {
    names.filter(is_known(labels)).map_values(id_of(labels))
}

/// The ids of the names that `labels` knows, in the order of the names.
pub fn find_label_ids(names: &Vec<String>, labels: &TextMap) -> (r: Vec<String>)
    ensures
        r.deep_view() == label_ids(names.deep_view(), labels@),
{
    let ghost keep = is_known(labels@);
    let ghost id = id_of(labels@);
    let mut r: Vec<String> = Vec::new();
    let mut i: usize = 0;
    proof {
        lemma_filter_map_empty(keep, id);
    }
    while i < names.len()
        invariant
            i <= names.len(),
            keep == is_known(labels@),
            id == id_of(labels@),
            r.deep_view() == names.deep_view().take(i as int).filter(keep).map_values(id),
        decreases names.len() - i,
    {
        proof {
            lemma_take_push(names.deep_view(), i as int);
            lemma_filter_map_push(
                names.deep_view().take(i as int),
                names.deep_view()[i as int],
                keep,
                id,
            );
        }
        match labels.get(&names[i]) {
            Some(found) => {
                let ghost before = r;
                r.push(found);
                proof {
                    lemma_deep_view_push(before@, r, found);
                }
            },
            None => {},
        }
        i += 1;
    }
    proof {
        lemma_take_all(names.deep_view());
    }
    r
}

/// The latest of a watermark and the times at which `issues` were updated.
pub open spec fn latest_update(watermark: Seq<char>, issues: Seq<UpdatedIssueView>) -> Seq<char>
    decreases issues.len(),
{
    if issues.len() == 0 {
        watermark
    } else {
        later_text(latest_update(watermark, issues.drop_last()), issues.last().updated_at)
    }
}

/// The latest of a watermark and the times at which `issues` were updated.
pub fn find_latest_update(watermark: &String, issues: &Vec<UpdatedIssue>) -> (r: String)
    ensures
        r@ == latest_update(watermark@, issues.deep_view()),
{
    let mut r = watermark.clone();
    let mut i: usize = 0;
    while i < issues.len()
        invariant
            i <= issues.len(),
            r@ == latest_update(watermark@, issues.deep_view().take(i as int)),
        decreases issues.len() - i,
    {
        proof {
            lemma_take_push(issues.deep_view(), i as int);
            assert(issues.deep_view().take(i + 1).drop_last() =~= issues.deep_view().take(i as int));
        }
        if text_at_most(r.as_str(), issues[i].updated_at.as_str()) {
            r = issues[i].updated_at.clone();
        }
        i += 1;
    }
    proof {
        lemma_take_all(issues.deep_view());
    }
    r
}

} // verus!
