use wg_tracker::text::{chars_of, joined, decimal_string, find_text, matches_at, parse_u32, starts_with, text_at_most};
use wg_tracker::text_map::TextMap;
use wg_tracker::util::{escape_each, escape_markdown, escape_sequence, extract_urls, present_captures};

#[test]
fn escape_markdown_escapes_special_characters() {
    assert_eq!(
        escape_markdown("a*b_c & <d> | e\\f").unwrap(),
        "a\\*b\\_c &amp; &lt;d&gt; &124; e\\\\f"
    );
    assert_eq!(
        escape_markdown("#1 (x) [y] `z` 1+1 a-b").unwrap(),
        "\\#1 \\(x\\) \\[y\\] \\`z\\` 1\\+1 a\\-b"
    );
}

#[test]
fn escape_markdown_leaves_other_text_alone() {
    assert_eq!(escape_markdown("plain text, with: punctuation!").unwrap(), "plain text, with: punctuation!");
    assert_eq!(escape_markdown("").unwrap(), "");
}

#[test]
fn escape_sequence_for_each_kind_of_character() {
    assert_eq!(escape_sequence("\\"), "\\\\");
    assert_eq!(escape_sequence("&"), "&amp;");
    assert_eq!(escape_sequence("<"), "&lt;");
    assert_eq!(escape_sequence(">"), "&gt;");
    assert_eq!(escape_sequence("|"), "&124;");
    assert_eq!(escape_sequence("*"), "\\*");
    assert_eq!(escape_sequence("_rest"), "\\_");
    assert_eq!(escape_sequence(""), "");
}

#[test]
fn escape_each_escapes_every_text() {
    assert_eq!(
        escape_each(&vec!["a*".to_string(), "b".to_string()]),
        Some(vec!["a\\*".to_string(), "b".to_string()])
    );
    assert_eq!(escape_each(&vec![]), Some(vec![]));
}

#[test]
fn extract_urls_finds_bracketed_https_addresses() {
    assert_eq!(
        extract_urls("See [a](https://example.org/a) and (http://no) and [b](https://b.example/x?y=1).").unwrap(),
        vec!["https://example.org/a".to_string(), "https://b.example/x?y=1".to_string()]
    );
    assert_eq!(extract_urls("(https:unclosed").unwrap(), vec!["https:unclosed".to_string()]);
    assert_eq!(extract_urls("nothing here").unwrap(), Vec::<String>::new());
}

#[test]
fn present_captures_drops_the_missing() {
    assert_eq!(
        present_captures(vec![Some("a".to_string()), None, Some("b".to_string())]),
        vec!["a".to_string(), "b".to_string()]
    );
    assert_eq!(present_captures(vec![None]), Vec::<String>::new());
}

#[test]
fn chars_and_concat() {
    assert_eq!(chars_of("aé"), vec!['a', 'é']);
    assert_eq!(joined("ab", "cd"), "abcd");
}

#[test]
fn finding_text() {
    let text = chars_of("a :: b :: c");
    let pat = chars_of(" :: ");
    assert_eq!(find_text(&text, &pat), Some(1));
    assert_eq!(find_text(&chars_of("abc"), &pat), None);
    assert_eq!(find_text(&text, &chars_of("")), Some(0));
    assert_eq!(find_text(&chars_of(""), &chars_of("")), Some(0));
    assert!(matches_at(&text, &pat, 6));
    assert!(!matches_at(&text, &pat, 7));
    assert!(!matches_at(&text, &pat, 100));
    assert!(starts_with(&text, &chars_of("a ")));
    assert!(!starts_with(&chars_of("a"), &chars_of("a ")));
}

#[test]
fn text_order_is_lexicographic() {
    assert!(text_at_most("2019-01-01T00:00:00Z", "2019-01-01T00:00:00Z"));
    assert!(text_at_most("2019-01-01T00:00:00Z", "2019-01-02T00:00:00Z"));
    assert!(!text_at_most("2019-01-02T00:00:00Z", "2019-01-01T23:59:59Z"));
    assert!(text_at_most("", "a"));
    assert!(!text_at_most("a", ""));
    assert!(text_at_most("ab", "abc"));
    assert!(!text_at_most("b", "abc"));
    assert!(text_at_most("z", "é"));
}

#[test]
fn decimal_of_integers() {
    assert_eq!(decimal_string(0), "0");
    assert_eq!(decimal_string(7), "7");
    assert_eq!(decimal_string(10), "10");
    assert_eq!(decimal_string(1234567890), "1234567890");
    assert_eq!(decimal_string(-45), "-45");
    assert_eq!(decimal_string(i64::MIN), "-9223372036854775808");
}

#[test]
fn parsing_numbers() {
    assert_eq!(parse_u32("1"), Some(1));
    assert_eq!(parse_u32("+17"), Some(17));
    assert_eq!(parse_u32("007"), Some(7));
    assert_eq!(parse_u32("4294967295"), Some(u32::MAX));
    assert_eq!(parse_u32("4294967296"), None);
    assert_eq!(parse_u32("99999999999999999999999"), None);
    assert_eq!(parse_u32(""), None);
    assert_eq!(parse_u32("+"), None);
    assert_eq!(parse_u32("-1"), None);
    assert_eq!(parse_u32("1 "), None);
    assert_eq!(parse_u32("1a"), None);
    assert_eq!(parse_u32("++1"), None);
}

#[test]
fn text_map_keeps_the_last_value_of_a_key() {
    let mut map = TextMap::new();
    assert_eq!(map.get(&"a".to_string()), None);
    assert!(!map.contains_key(&"a".to_string()));
    map.insert("a".to_string(), "1".to_string());
    map.insert("b".to_string(), "2".to_string());
    map.insert("a".to_string(), "3".to_string());
    assert_eq!(map.get(&"a".to_string()), Some("3".to_string()));
    assert_eq!(map.get(&"b".to_string()), Some("2".to_string()));
    assert!(map.contains_key(&"b".to_string()));
    assert!(!map.contains_key(&"c".to_string()));
}
