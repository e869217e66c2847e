use regex::Regex;
use spark_regexp_extract::matching::select_group;
use spark_regexp_extract::regexp_extract_impl;

fn regex(pattern: &str) -> Regex {
    Regex::new(pattern).unwrap()
}

#[test]
fn test_basic_regex_matching() {
    // Test basic regex matching with capture groups
    assert_eq!(regexp_extract_impl("a b", &Regex::new("a (b)").unwrap(), 1), "b");
    assert_eq!(regexp_extract_impl("a123b", &Regex::new("(\\d+)").unwrap(), 1), "123");
    assert_eq!(
        regexp_extract_impl("test@a.com", &Regex::new("(.+)@(.+)\\.(.+)").unwrap(), 1),
        "test"
    );
    assert_eq!(
        regexp_extract_impl("test@a.com", &Regex::new("(.+)@(.+)\\.(.+)").unwrap(), 2),
        "a"
    );
    assert_eq!(
        regexp_extract_impl("test@a.com", &Regex::new("(.+)@(.+)\\.(.+)").unwrap(), 3),
        "com"
    );
}

#[test]
fn test_unicode_characters() {
    // Test with Unicode characters
    assert_eq!(
        regexp_extract_impl("こんにちは世界", &Regex::new("(こんにちは)(世界)").unwrap(), 1),
        "こんにちは"
    );
    assert_eq!(
        regexp_extract_impl("こんにちは世界", &Regex::new("(こんにちは)(世界)").unwrap(), 2),
        "世界"
    );
    assert_eq!(
        regexp_extract_impl("😀😃😄", &Regex::new("(😀)(😃)(😄)").unwrap(), 2),
        "😃"
    );
}

#[test]
fn test_special_regex_syntax() {
    // Test with non-capturing groups
    assert_eq!(
        regexp_extract_impl("abc123", &Regex::new("(a)(?:bc)(\\d+)").unwrap(), 1),
        "a"
    );
    assert_eq!(
        regexp_extract_impl("abc123", &Regex::new("(a)(?:bc)(\\d+)").unwrap(), 2),
        "123"
    );

    // Test with character classes
    assert_eq!(
        regexp_extract_impl("abc123", &Regex::new("([a-z]+)([0-9]+)").unwrap(), 1),
        "abc"
    );
    assert_eq!(
        regexp_extract_impl("abc123", &Regex::new("([a-z]+)([0-9]+)").unwrap(), 2),
        "123"
    );

    // Test with word boundaries
    assert_eq!(
        regexp_extract_impl("abc 123", &Regex::new("\\b([a-z]+)\\b").unwrap(), 1),
        "abc"
    );
    assert_eq!(
        regexp_extract_impl("abc 123", &Regex::new("\\b([0-9]+)\\b").unwrap(), 1),
        "123"
    );
}

#[test]
fn test_idx_zero_returns_entire_match() {
    // Test idx = 0 returns the entire match
    assert_eq!(
        regexp_extract_impl("hello world", &Regex::new("hello (world)").unwrap(), 0),
        "hello world"
    );
    assert_eq!(regexp_extract_impl("a123b", &Regex::new("(\\d+)").unwrap(), 0), "123");
    assert_eq!(
        regexp_extract_impl("test@example.com", &Regex::new("(.+)@(.+)\\.(.+)").unwrap(), 0),
        "test@example.com"
    );
}

#[test]
fn test_regex_no_match() {
    // Test regex doesn't match returns empty string
    assert_eq!(regexp_extract_impl("hello world", &Regex::new("xyz").unwrap(), 0), "");
    assert_eq!(regexp_extract_impl("hello world", &Regex::new("\\d+").unwrap(), 0), "");
}

#[test]
fn test_group_doesnt_exist() {
    assert_eq!(
        regexp_extract_impl("hello world", &Regex::new("hello (world)").unwrap(), 2),
        ""
    );
    assert_eq!(regexp_extract_impl("a123b", &Regex::new("(\\d+)").unwrap(), 2), "");
}

#[test]
fn test_empty_input() {
    // Test empty input string
    assert_eq!(regexp_extract_impl("", &Regex::new("(\\d+)").unwrap(), 0), "");
}

#[test]
fn test_complex_patterns() {
    // Test more complex regex patterns
    assert_eq!(
        regexp_extract_impl(
            "2025-08-04",
            &Regex::new("(\\d{4})-(\\d{2})-(\\d{2})").unwrap(),
            1
        ),
        "2025"
    );
    assert_eq!(
        regexp_extract_impl(
            "2025-08-04",
            &Regex::new("(\\d{4})-(\\d{2})-(\\d{2})").unwrap(),
            2
        ),
        "08"
    );
    assert_eq!(
        regexp_extract_impl(
            "2025-08-04",
            &Regex::new("(\\d{4})-(\\d{2})-(\\d{2})").unwrap(),
            3
        ),
        "04"
    );

    // Test with optional groups
    assert_eq!(regexp_extract_impl("abc", &Regex::new("(a)(b)?(c)").unwrap(), 2), "b");
    assert_eq!(regexp_extract_impl("ac", &Regex::new("(a)(b)?(c)").unwrap(), 2), "");
}

#[test]
fn only_the_first_match_counts() {
    assert_eq!(regexp_extract_impl("x1 y2", &regex("([a-z])(\\d)"), 1), "x");
    assert_eq!(regexp_extract_impl("x1 y2", &regex("([a-z])(\\d)"), 2), "1");
}

#[test]
fn last_round_of_a_repeated_group_counts() {
    assert_eq!(regexp_extract_impl("abc", &regex("(?:([a-z]))+"), 1), "c");
}

#[test]
fn extracted_text_is_part_of_the_input() {
    let input = "key=väl😀ue; other";
    let pattern = regex("(\\w+)=(\\S+?);");
    for idx in 0..4 {
        let text = regexp_extract_impl(input, &pattern, idx);
        assert!(input.contains(&text));
        assert!(text.len() <= input.len());
        assert!(regexp_extract_impl(input, &pattern, 0).contains(&text));
    }
    let nested = regex("(?:(a)|(b(c)?))+");
    let whole = regexp_extract_impl("xabcay", &nested, 0);
    assert_eq!(whole, "abca");
    for idx in 1..4 {
        assert!(whole.contains(&regexp_extract_impl("xabcay", &nested, idx)));
    }
    let empty = regex("(z*)(y?)");
    assert_eq!(regexp_extract_impl("xabcay", &empty, 0), "");
    assert_eq!(regexp_extract_impl("xabcay", &empty, 1), "");
    assert_eq!(regexp_extract_impl("xabcay", &empty, 2), "");
    assert_eq!(regexp_extract_impl(input, &pattern, 2), "väl😀ue");
}

#[test]
fn group_is_picked_out_of_a_match() {
    let groups = Some(vec![Some("ac"), Some("a"), None, Some("c")]);
    assert_eq!(select_group(&groups, 0), "ac");
    assert_eq!(select_group(&groups, 1), "a");
    assert_eq!(select_group(&groups, 2), "");
    assert_eq!(select_group(&groups, 3), "c");
    assert_eq!(select_group(&groups, 4), "");
    assert_eq!(select_group(&groups, usize::MAX), "");
    assert_eq!(select_group(&None, 0), "");
}
