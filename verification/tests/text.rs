use predicate_eval::classify::{is_integer, is_ipv4, is_number, is_uuid, parse_i64, parse_u16, parse_u64};
use predicate_eval::eq_ci;
use predicate_eval::paths::{command_candidates, expand_path};
use predicate_eval::pattern::{matches_regex, matches_regex_ci};
use predicate_eval::strutil::{ascii_only, contains, contains_ci, ends_with, ends_with_ci, quote_advice, starts_with, starts_with_ci};

#[test]
fn test_eq_ci() {
    assert!(eq_ci("hello", "HELLO"));
    assert!(eq_ci("Test", "test"));
    assert!(!eq_ci("hello", "world"));
}

#[test]
fn test_eq_ci_ascii_and_unicode() {
    assert!(eq_ci("A", "a"));
    assert!(eq_ci("na\u{ef}ve", "NA\u{cf}VE"));
    assert!(!eq_ci("a", "b"));
    assert!(eq_ci("", ""));
}

#[test]
fn test_expand_path_without_tilde() {
    assert_eq!(expand_path("/tmp/test"), "/tmp/test".to_string());
}

#[test]
fn test_expand_path_tilde_user_form_unchanged() {
    assert_eq!(
        expand_path("~no_such_user_xyz/file"),
        "~no_such_user_xyz/file".to_string()
    );
}

#[test]
fn test_contains_and_affixes() {
    assert!(contains("hello world", "lo wo"));
    assert!(contains("abc", ""));
    assert!(!contains("abc", "abcd"));
    assert!(starts_with("hello", "he"));
    assert!(!starts_with("hello", "el"));
    assert!(ends_with("hello", "llo"));
    assert!(!ends_with("hello", "hell"));
}

#[test]
fn test_case_insensitive_affixes() {
    assert!(contains_ci("HeLLo WoRLD", "world"));
    assert!(starts_with_ci("HELLO", "he"));
    assert!(ends_with_ci("HELLO", "llo"));
    assert!(!contains_ci("abc", "z"));
}

#[test]
fn test_ascii_only() {
    assert!(ascii_only("plain ascii 123"));
    assert!(!ascii_only("caf\u{e9}"));
    assert!(ascii_only(""));
}

#[test]
fn test_is_integer() {
    assert!(is_integer("123"));
    assert!(is_integer("-123"));
    assert!(is_integer("+5"));
    assert!(is_integer("-9223372036854775808"));
    assert!(is_integer("9223372036854775807"));
    assert!(!is_integer("9223372036854775808"));
    assert!(!is_integer(""));
    assert!(!is_integer("12x"));
    assert!(!is_integer("-"));
    assert!(!is_integer("1.5"));
}

#[test]
fn test_parse_integers() {
    assert_eq!(parse_i64("-42"), Some(-42));
    assert_eq!(parse_i64("0"), Some(0));
    assert_eq!(parse_u64("18446744073709551615"), Some(u64::MAX));
    assert_eq!(parse_u64("18446744073709551616"), None);
    assert_eq!(parse_u64("-1"), None);
    assert_eq!(parse_u16("65535"), Some(65535));
    assert_eq!(parse_u16("65536"), None);
}

#[test]
fn test_is_number() {
    assert!(is_number("1"));
    assert!(is_number("1.5"));
    assert!(is_number("-1.5e-3"));
    assert!(is_number(".5"));
    assert!(is_number("5."));
    assert!(is_number("1.e2"));
    assert!(is_number("inf"));
    assert!(is_number("-Infinity"));
    assert!(is_number("NaN"));
    assert!(!is_number("."));
    assert!(!is_number("1e"));
    assert!(!is_number(""));
    assert!(!is_number("abc"));
    assert!(!is_number("1.5x"));
}

#[test]
fn test_is_number_agrees_with_float_parse() {
    for s in [
        "1", "1.5", "-1.5e-3", ".5", "5.", "1.e2", "inf", "-Infinity", "NaN", ".", "1e", "",
        "abc", "1.5x", "+3e+4", "e5", "--1",
    ] {
        assert_eq!(is_number(s), s.parse::<f64>().is_ok(), "on {:?}", s);
    }
}

#[test]
fn test_is_uuid() {
    assert!(is_uuid("123e4567-e89b-12d3-a456-426614174000"));
    assert!(is_uuid("123E4567-E89B-12D3-A456-426614174000"));
    assert!(!is_uuid("not-a-uuid"));
    assert!(!is_uuid("123e4567-e89b-12d3-a456-42661417400"));
    assert!(!is_uuid("123e4567e89b-12d3-a456-4266141740000"));
    assert!(!is_uuid("123e4567-e89b-12d3-a456-42661417400g"));
}

#[test]
fn test_is_ipv4() {
    assert!(is_ipv4("127.0.0.1"));
    assert!(is_ipv4("0.0.0.0"));
    assert!(is_ipv4("255.255.255.255"));
    assert!(!is_ipv4("256.1.1.1"));
    assert!(!is_ipv4("01.2.3.4"));
    assert!(!is_ipv4("1.2.3"));
    assert!(!is_ipv4("1.2.3.4.5"));
    assert!(!is_ipv4("1.2.3.x"));
    assert!(!is_ipv4(""));
}

#[test]
fn test_matches_regex() {
    assert!(matches_regex("hello world", "wor"));
    assert!(matches_regex("hello world", "^hello"));
    assert!(!matches_regex("hello world", "^world"));
    assert!(!matches_regex("anything", "("));
}

#[test]
fn test_matches_regex_ci() {
    assert!(matches_regex_ci("HELLO WORLD", "hello"));
    assert!(matches_regex_ci("hello", "HE..O"));
    assert!(!matches_regex_ci("hello", "world"));
    assert!(!matches_regex_ci("anything", "("));
}

#[test]
fn test_quote_advice() {
    assert!(quote_advice("plain").is_none());
    let msg = quote_advice("-x").expect("leading hyphen needs advice");
    assert_eq!(
        msg,
        "Value '-x' may need quoting. Consider using \"$VAR\" in your shell."
    );
    assert!(quote_advice("").is_some());
    assert!(quote_advice("!").is_some());
    assert!(quote_advice("(").is_some());
    assert!(quote_advice(")").is_some());
    assert!(quote_advice("-a").is_some());
    assert!(quote_advice("bang!").is_none());
}

#[test]
fn test_command_candidates() {
    let got = command_candidates("ls", &Some("/bin:/usr/bin".to_string()));
    assert_eq!(got, vec!["/bin/ls".to_string(), "/usr/bin/ls".to_string()]);
    let direct = command_candidates("./x", &Some("/bin".to_string()));
    assert_eq!(direct, vec!["./x".to_string()]);
    let none = command_candidates("ls", &None);
    assert!(none.is_empty());
    let with_empty = command_candidates("ls", &Some(":/bin".to_string()));
    assert_eq!(with_empty, vec!["ls".to_string(), "/bin/ls".to_string()]);
}
