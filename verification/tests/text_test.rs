use clau::text::{blank, chars_of, join, decimal_string, same_text, split_lines, text_of, trim_owned};

#[test]
fn trim_removes_white_space_at_both_ends() {
    assert_eq!(trim_owned("  hello world \n"), "hello world");
    assert_eq!(trim_owned("\t\r\n x \u{a0}\u{3000}"), "x");
    assert_eq!(trim_owned("no-space"), "no-space");
    assert_eq!(trim_owned(" a b "), "a b");
}

#[test]
fn trim_of_blank_text_is_empty() {
    assert_eq!(trim_owned(""), "");
    assert_eq!(trim_owned(" \n\t "), "");
}

#[test]
fn trim_agrees_with_the_standard_library() {
    for s in ["", " ", "a", " a", "a ", "\u{2028}a\u{85}", "é ", " 日本語 ", "\u{feff}x"] {
        assert_eq!(trim_owned(s), s.trim());
        assert_eq!(blank(s), s.trim().is_empty());
    }
}

#[test]
fn blank_lines() {
    assert!(blank(""));
    assert!(blank("  \t"));
    assert!(!blank(" x "));
}

#[test]
fn lines_split_at_line_feeds() {
    assert_eq!(split_lines("a\nb\nc"), vec!["a", "b", "c"]);
    assert_eq!(split_lines("a\nb\n"), vec!["a", "b"]);
    assert_eq!(split_lines(""), Vec::<String>::new());
    assert_eq!(split_lines("\n"), vec![""]);
    assert_eq!(split_lines("\n\n"), vec!["", ""]);
    assert_eq!(split_lines("one"), vec!["one"]);
}

#[test]
fn lines_drop_carriage_return_before_line_feed_only() {
    assert_eq!(split_lines("a\r\nb"), vec!["a", "b"]);
    assert_eq!(split_lines("a\r\n"), vec!["a"]);
    assert_eq!(split_lines("a\rb\n"), vec!["a\rb"]);
    assert_eq!(split_lines("a\r"), vec!["a\r"]);
    assert_eq!(split_lines("a\r\r\nb"), vec!["a\r", "b"]);
    assert_eq!(split_lines("\r\n"), vec![""]);
}

#[test]
fn lines_agree_with_the_standard_library() {
    for s in [
        "",
        "\n",
        "a",
        "a\n",
        "a\nb",
        "a\r\nb\r\n",
        "\r",
        "\r\r\n\r",
        "x\n\ny\n",
        "é\n日本\r\n",
    ] {
        let expected: Vec<String> = s.lines().map(|l| l.to_string()).collect();
        assert_eq!(split_lines(s), expected);
    }
}

#[test]
fn decimal_of_numbers() {
    assert_eq!(decimal_string(0), "0");
    assert_eq!(decimal_string(7), "7");
    assert_eq!(decimal_string(10), "10");
    assert_eq!(decimal_string(1000), "1000");
    assert_eq!(decimal_string(1234567890), "1234567890");
    assert_eq!(decimal_string(u64::MAX), "18446744073709551615");
}

#[test]
fn decimal_agrees_with_the_standard_library() {
    for n in [0u64, 1, 9, 10, 11, 99, 100, 101, 4294967295, 4294967296] {
        assert_eq!(decimal_string(n), n.to_string());
    }
}

#[test]
fn chars_and_back() {
    let v = chars_of("héllo");
    assert_eq!(v, vec!['h', 'é', 'l', 'l', 'o']);
    assert_eq!(text_of(&v, 1, 4), "éll");
    assert_eq!(text_of(&v, 2, 2), "");
    assert_eq!(text_of(&v, 0, 5), "héllo");
}

#[test]
fn join_and_compare() {
    assert_eq!(join("ab", "cd"), "abcd");
    assert_eq!(join("", ""), "");
    assert!(same_text("x", "x"));
    assert!(!same_text("x", "y"));
    assert!(!same_text("x", "xx"));
}
