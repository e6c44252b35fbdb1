//! Text helpers that rest on regular expressions.

use crate::seqs::{lemma_deep_view_push, lemma_take_all, lemma_take_push};
use crate::text::joined;
use vstd::prelude::*;

verus! {

/// The characters that Markdown gives a meaning to, as a character class.
pub const ESCAPE_MARKDOWN_PATTERN: &'static str = r#"[#&()*+<>\[\]\\_`|-]"#;

/// An opening bracket followed by an `https:` address, which is captured up
/// to the closing bracket.
pub const MARKDOWN_URLS_PATTERN: &'static str = r#"\((https:[^)]*)"#;

/// What takes the place of one matched piece of text: an entity for `&`, `<`,
/// `>` and `|`, and for any other first character that character behind a
/// backslash.
pub open spec fn escape_sequence_of(matched: Seq<char>) -> Seq<char> {
    if matched.len() == 0 {
        Seq::empty()
    } else if matched[0] == '\\' {
        "\\\\"@
    } else if matched[0] == '&' {
        "&amp;"@
    } else if matched[0] == '<' {
        "&lt;"@
    } else if matched[0] == '>' {
        "&gt;"@
    } else if matched[0] == '|' {
        "&124;"@
    } else {
        "\\"@ + matched.take(1)
    }
}

/// The replacement for one matched piece of text.
pub fn escape_sequence(matched: &str) -> (r: String)
    ensures
        r@ == escape_sequence_of(matched@),
{
    if matched.unicode_len() == 0 {
        return String::new();
    }
    let c: char = matched.get_char(0);
    if c == '\\' {
        String::from_str("\\\\")
    } else if c == '&' {
        String::from_str("&amp;")
    } else if c == '<' {
        String::from_str("&lt;")
    } else if c == '>' {
        String::from_str("&gt;")
    } else if c == '|' {
        String::from_str("&124;")
    } else {
        joined("\\", matched.substring_char(0, 1))
    }
}

/// The text that `regex::Regex::replace_all` makes of `haystack` for the
/// regular expression `pattern`, each match replaced by its escape sequence;
/// `None` where `regex::Regex::new` rejects the pattern.
pub uninterp spec fn regex_replace_all(pattern: Seq<char>, haystack: Seq<char>) -> Option<
    Seq<char>,
>;

/// Compiles `pattern` with `regex::Regex::new` and calls
/// `regex::Regex::replace_all` on `haystack`, handing each match to
/// `escape_sequence`. The contract only gives the result its name: the same
/// pattern and text give the same answer.
#[verifier::external_body]
fn replace_all_escaped(pattern: &str, haystack: &str) -> (r: Option<String>)
    ensures
        r.deep_view() == regex_replace_all(pattern@, haystack@),
{
    match regex::Regex::new(pattern) {
        Ok(re) => Some(
            re.replace_all(haystack, |caps: &regex::Captures| escape_sequence(&caps[0]))
                .into_owned(),
        ),
        Err(_) => None,
    }
}

/// For each match that `regex::Regex::captures_iter` finds in `haystack` for
/// the regular expression `pattern`, in order, the text of the first group,
/// or `None` where that group took no part in the match; `None` for the whole
/// where `regex::Regex::new` rejects the pattern.
pub uninterp spec fn regex_first_groups(pattern: Seq<char>, haystack: Seq<char>) -> Option<
    Seq<Option<Seq<char>>>,
>;

/// Compiles `pattern` with `regex::Regex::new`, walks
/// `regex::Regex::captures_iter` over `haystack` and takes from each match
/// the first group with `regex::Captures::get`. The contract only gives the
/// result its name.
#[verifier::external_body]
fn first_groups(pattern: &str, haystack: &str) -> (r: Option<Vec<Option<String>>>)
    ensures
        r.deep_view() == regex_first_groups(pattern@, haystack@),
{
    match regex::Regex::new(pattern) {
        Ok(re) => Some(
            re.captures_iter(haystack)
                .map(|caps| caps.get(1).map(|group| group.as_str().to_string()))
                .collect(),
        ),
        Err(_) => None,
    }
}

/// Whether `regex::Regex::is_match` finds the regular expression `pattern`
/// in `haystack`; `None` where `regex::Regex::new` rejects the pattern.
pub uninterp spec fn regex_is_match(pattern: Seq<char>, haystack: Seq<char>) -> Option<bool>;

/// Compiles `pattern` with `regex::Regex::new` and calls
/// `regex::Regex::is_match` on `haystack`. The contract only gives the result
/// its name.
#[verifier::external_body]
pub(crate) fn is_match(pattern: &str, haystack: &str) -> (r: Option<bool>)
    ensures
        r == regex_is_match(pattern@, haystack@),
{
    match regex::Regex::new(pattern) {
        Ok(re) => Some(re.is_match(haystack)),
        Err(_) => None,
    }
}

/// `s` with every character that Markdown gives a meaning to escaped, where
/// the pattern for those characters compiles.
pub open spec fn escaped_markdown(s: Seq<char>) -> Option<Seq<char>> {
    regex_replace_all(ESCAPE_MARKDOWN_PATTERN@, s)
}

/// Escapes the characters of `s` that Markdown gives a meaning to. `None`
/// means that the regex engine rejected the pattern.
pub fn escape_markdown(s: &str) -> (r: Option<String>)
    ensures
        r.deep_view() == escaped_markdown(s@),
{
    replace_all_escaped(ESCAPE_MARKDOWN_PATTERN, s)
}

/// Each of `texts` escaped, in order, where the pattern compiles for all of
/// them.
pub open spec fn escaped_each(texts: Seq<Seq<char>>) -> Option<Seq<Seq<char>>>
    decreases texts.len(),
{
    if texts.len() == 0 {
        Some(Seq::empty())
    } else {
        match (escaped_each(texts.drop_last()), escaped_markdown(texts.last())) {
            (Some(front), Some(last)) => Some(front.push(last)),
            _ => None,
        }
    }
}

/// Escapes each of `texts`. `None` means that the regex engine rejected the
/// pattern.
pub fn escape_each(texts: &Vec<String>) -> (r: Option<Vec<String>>)
    ensures
        r.deep_view() == escaped_each(texts.deep_view()),
{
    let mut r: Vec<String> = Vec::new();
    let mut i: usize = 0;
    while i < texts.len()
        invariant
            i <= texts.len(),
            escaped_each(texts.deep_view().take(i as int)) == Some(r.deep_view()),
        decreases texts.len() - i,
    {
        proof {
            lemma_take_push(texts.deep_view(), i as int);
            assert(texts.deep_view().take(i + 1).drop_last() =~= texts.deep_view().take(i as int));
        }
        match escape_markdown(texts[i].as_str()) {
            Some(escaped) => {
                let ghost before = r;
                r.push(escaped);
                proof {
                    lemma_deep_view_push(before@, r, escaped);
                }
            },
            None => {
                proof {
                    lemma_escaped_each_none(texts.deep_view(), i + 1);
                }
                return None;
            },
        }
        i += 1;
    }
    proof {
        lemma_take_all(texts.deep_view());
    }
    Some(r)
}

/// Where a prefix cannot be escaped, the whole cannot.
proof fn lemma_escaped_each_none(texts: Seq<Seq<char>>, n: int)
    requires
        0 <= n <= texts.len(),
        escaped_each(texts.take(n)) is None,
    ensures
        escaped_each(texts) is None,
    decreases texts.len(),
{
    if n < texts.len() {
        assert(texts.drop_last().take(n) =~= texts.take(n));
        lemma_escaped_each_none(texts.drop_last(), n);
    } else {
        assert(texts.take(n) =~= texts);
    }
}

/// The captures that are there, in order.
pub open spec fn present(captures: Seq<Option<Seq<char>>>) -> Seq<Seq<char>> {
    captures.filter(|c: Option<Seq<char>>| c is Some).map_values(
        |c: Option<Seq<char>>| c->Some_0,
    )
}

/// Drops the captures that took no part in their match.
pub fn present_captures(captures: Vec<Option<String>>) -> (r: Vec<String>)
    ensures
        r.deep_view() == present(captures.deep_view()),
{
    let ghost there = |c: Option<Seq<char>>| c is Some;
    let ghost text = |c: Option<Seq<char>>| c->Some_0;
    let mut r: Vec<String> = Vec::new();
    let mut i: usize = 0;
    proof {
        reveal(Seq::filter);
    }
    while i < captures.len()
        invariant
            i <= captures.len(),
            there == |c: Option<Seq<char>>| c is Some,
            text == |c: Option<Seq<char>>| c->Some_0,
            r.deep_view() == captures.deep_view().take(i as int).filter(there).map_values(text),
        decreases captures.len() - i,
    {
        let ghost before = r;
        let ghost seen = captures.deep_view().take(i as int);
        proof {
            reveal(Seq::filter);
            lemma_take_push(captures.deep_view(), i as int);
            assert(seen.push(captures.deep_view()[i as int]).drop_last() =~= seen);
        }
        match &captures[i] {
            Some(s) => {
                let copy = s.clone();
                r.push(copy);
                proof {
                    lemma_deep_view_push(before@, r, copy);
                }
            },
            None => {},
        }
        i += 1;
    }
    proof {
        lemma_take_all(captures.deep_view());
    }
    r
}

/// The `https:` addresses that stand in brackets in `s`, in order, where the
/// pattern for them compiles.
pub open spec fn extracted_urls(s: Seq<char>) -> Option<Seq<Seq<char>>> {
    match regex_first_groups(MARKDOWN_URLS_PATTERN@, s) {
        Some(captures) => Some(present(captures)),
        None => None,
    }
}

/// The link targets of `s`: every `https:` address that follows an opening
/// bracket. `None` means that the regex engine rejected the pattern.
pub fn extract_urls(s: &str) -> (r: Option<Vec<String>>)
    ensures
        r.deep_view() == extracted_urls(s@),
{
    match first_groups(MARKDOWN_URLS_PATTERN, s) {
        Some(captures) => Some(present_captures(captures)),
        None => None,
    }
}

} // verus!
