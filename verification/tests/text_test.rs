use devcont::text::{
    before_first, chars_of, decimal, find_from, join, lex_le_exec, lines_of, signed_decimal, starts_with,
    string_of, suffix_from, trim,
};

fn s(v: &str) -> String {
    v.to_string()
}

#[test]
fn trim_removes_unicode_white_space() {
    assert_eq!(trim("  a b \n"), "a b");
    assert_eq!(trim("\u{a0}\u{3000}x\u{2029}"), "x");
    assert_eq!(trim(" \t "), "");
}

#[test]
fn decimals() {
    assert_eq!(decimal(0), "0");
    assert_eq!(decimal(8080), "8080");
    assert_eq!(decimal(u64::MAX), "18446744073709551615");
    assert_eq!(signed_decimal(-1), "-1");
    assert_eq!(signed_decimal(i64::MIN), "-9223372036854775808");
    assert_eq!(signed_decimal(42), "42");
}

#[test]
fn join_and_lines() {
    assert_eq!(join(&vec![s("a"), s("b"), s("c")], ", "), "a, b, c");
    assert_eq!(join(&vec![], "-"), "");
    assert_eq!(lines_of("a\r\nb\n\nc"), vec!["a", "b", "", "c"]);
    assert_eq!(lines_of("x\n"), vec!["x"]);
    assert!(lines_of("").is_empty());
}

#[test]
fn prefixes_and_pieces() {
    assert!(starts_with("--env=A", "--env="));
    assert!(!starts_with("-e", "-e="));
    assert_eq!(suffix_from("--env=A=1", 6), "A=1");
    assert_eq!(before_first("K=V=W", '='), Some(s("K")));
    assert_eq!(before_first("KV", '='), None);
    let v = chars_of("héllo");
    assert_eq!(v.len(), 5);
    assert_eq!(string_of(&v, 1, 4), "éll");
    assert_eq!(find_from(&v, 2, 'l'), Some(2));
    assert_eq!(find_from(&v, 4, 'l'), None);
}

#[test]
fn lexicographic_order() {
    assert!(lex_le_exec("A", "AA"));
    assert!(lex_le_exec("AB", "B"));
    assert!(!lex_le_exec("b", "a"));
    assert!(lex_le_exec("same", "same"));
}
