use containerd_mcp::text::{
    char_is_white_space, chars_of, decimal_text, join, log_tail, split, split_lines,
    split_whitespace, starts_with, strip_prefix, text_of, trim,
};

fn owned(items: &[&str]) -> Vec<String> {
    items.iter().map(|s| s.to_string()).collect()
}

#[test]
fn chars_and_back() {
    let chars = chars_of("héllo");
    assert_eq!(chars, vec!['h', 'é', 'l', 'l', 'o']);
    assert_eq!(text_of(&chars, 1, 4), "éll");
    assert_eq!(text_of(&chars, 2, 2), "");
    assert_eq!(chars_of(""), Vec::<char>::new());
}

#[test]
fn white_space_is_what_std_calls_white_space() {
    for code in 0u32..0x11000 {
        if let Some(c) = char::from_u32(code) {
            assert_eq!(char_is_white_space(c), c.is_whitespace(), "U+{:04X}", code);
        }
    }
}

#[test]
fn trim_removes_white_space_at_both_ends() {
    assert_eq!(trim("  a b \t\n"), "a b");
    assert_eq!(trim("a"), "a");
    assert_eq!(trim(" \u{a0}\u{3000} "), "");
    assert_eq!(trim(""), "");
    for sample in ["  x", "x  ", " x y ", "\r\nexit\r\n", "\u{2003}z\u{2003}"] {
        assert_eq!(trim(sample), sample.trim());
    }
}

#[test]
fn prefixes() {
    assert!(starts_with("unix:///run/x.sock", "unix://"));
    assert!(!starts_with("unix:/", "unix://"));
    assert!(starts_with("abc", ""));
    assert_eq!(strip_prefix("unix:///run/x.sock", "unix://"), Some("/run/x.sock".to_string()));
    assert_eq!(strip_prefix("Tool:", "Tool:"), Some(String::new()));
    assert_eq!(strip_prefix("tcp://x", "unix://"), None);
}

#[test]
fn words_are_runs_without_white_space() {
    assert_eq!(split_whitespace("image  pull\tnginx:latest "), owned(&["image", "pull", "nginx:latest"]));
    assert_eq!(split_whitespace("   "), Vec::<String>::new());
    assert_eq!(split_whitespace(""), Vec::<String>::new());
    assert_eq!(split_whitespace("one"), owned(&["one"]));
    for sample in [" a  b ", "a\u{a0}b", "\n\nx\ny\n", "container list"] {
        let expected: Vec<String> = sample.split_whitespace().map(|s| s.to_string()).collect();
        assert_eq!(split_whitespace(sample), expected);
    }
}

#[test]
fn split_gives_one_piece_more_than_separators() {
    assert_eq!(split("a\nb\n", '\n'), owned(&["a", "b", ""]));
    assert_eq!(split("", '\n'), owned(&[""]));
    assert_eq!(split("abc", '\n'), owned(&["abc"]));
    assert_eq!(split("\n\n", '\n'), owned(&["", "", ""]));
    for sample in ["x,y,,z", ",", "no separator", ",,a"] {
        let expected: Vec<String> = sample.split(',').map(|s| s.to_string()).collect();
        assert_eq!(split(sample, ','), expected);
    }
}

#[test]
fn lines_end_with_line_feeds() {
    assert_eq!(split_lines("a\nb\n"), owned(&["a", "b"]));
    assert_eq!(split_lines("a\r\nb\r"), owned(&["a", "b\r"]));
    assert_eq!(split_lines(""), Vec::<String>::new());
    assert_eq!(split_lines("\n"), owned(&[""]));
    for sample in ["a\n\nb", "a\r\n\r\n", "\r", "x", "x\n\n", "a\r\r\nb"] {
        let expected: Vec<String> = sample.lines().map(|s| s.to_string()).collect();
        assert_eq!(split_lines(sample), expected, "{:?}", sample);
    }
}

#[test]
fn join_puts_the_separator_between_parts() {
    assert_eq!(join(&owned(&["a", "b", "c"]), ", "), "a, b, c");
    assert_eq!(join(&owned(&["a"]), ", "), "a");
    assert_eq!(join(&owned(&[]), ", "), "");
    assert_eq!(join(&owned(&["", ""]), "-"), "-");
}

#[test]
fn log_tail_keeps_the_last_lines() {
    let log = "one\ntwo\nthree\nfour\n";
    assert_eq!(log_tail(log, Some(2)), "three\nfour");
    assert_eq!(log_tail(log, Some(1)), "four");
    assert_eq!(log_tail(log, Some(3)), "two\nthree\nfour");
}

#[test]
fn log_tail_keeps_everything_otherwise() {
    let log = "one\ntwo\nthree\nfour\n";
    let all = "one\ntwo\nthree\nfour";
    assert_eq!(log_tail(log, None), all);
    assert_eq!(log_tail(log, Some(0)), all);
    assert_eq!(log_tail(log, Some(4)), all);
    assert_eq!(log_tail(log, Some(100)), all);
    assert_eq!(log_tail(log, Some(-1)), all);
    assert_eq!(log_tail(log, Some(i64::MIN)), all);
    assert_eq!(log_tail(log, Some(i64::MAX)), all);
    assert_eq!(log_tail("", Some(3)), "");
}

#[test]
fn decimal_text_matches_std() {
    for n in [0, 1, 9, 10, 11, 99, 100, 255, -1, -10, -128, 2147483647, -2147483648, 1000000] {
        assert_eq!(decimal_text(n), n.to_string());
    }
}
