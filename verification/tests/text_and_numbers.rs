use http_engine::decimal::{decimal_text, parse_usize_text, two_digit_text};
use http_engine::string_map::StringMap;
use http_engine::text::{
    chars_of, cut, end_without, find_in, pieces, same_text, start_without, strip_crlf, text_between,
    text_of,
};

fn chars(s: &str) -> Vec<char> {
    s.chars().collect()
}

fn split_like_library(s: &str, pat: &str) -> Vec<String> {
    pieces(&chars(s), &chars(pat)).iter().map(|p| p.iter().collect()).collect()
}

#[test]
fn chars_and_text_go_back_and_forth() {
    assert_eq!(chars_of("a\u{e9}\u{4e16}z"), vec!['a', '\u{e9}', '\u{4e16}', 'z']);
    assert_eq!(text_of(&['h', 'i']), "hi");
    assert_eq!(text_between(&chars("abcdef"), 2, 4), "cd");
    assert_eq!(text_between(&chars("abcdef"), 3, 3), "");
    assert!(same_text("abc", "abc"));
    assert!(!same_text("abc", "abd"));
    assert!(!same_text("abc", "ab"));
}

#[test]
fn find_gives_the_first_match() {
    assert_eq!(find_in(&chars("a: b: c"), &chars(": "), 0), Some(1));
    assert_eq!(find_in(&chars("a: b: c"), &chars(": "), 2), Some(4));
    assert_eq!(find_in(&chars("a: b: c"), &chars(": "), 5), None);
    assert_eq!(find_in(&chars("abc"), &chars("abcd"), 0), None);
    assert_eq!(find_in(&chars("aab"), &chars("ab"), 0), Some(1));
    assert_eq!(find_in(&chars("abc"), &chars("c"), 9), None);
}

#[test]
fn cut_agrees_with_split_once() {
    for (s, pat) in [
        ("Host: example.org", ": "),
        ("a=b=c", "="),
        ("novalue", "="),
        ("=x", "="),
        ("x=", "="),
        ("", "="),
        ("a:b: c", ": "),
    ] {
        let expected = s.split_once(pat).map(|(a, b)| (a.to_string(), b.to_string()));
        assert_eq!(cut(&chars(s), &chars(pat)), expected);
    }
}

#[test]
fn pieces_agree_with_split() {
    for (s, pat) in [
        ("GET / HTTP/1.1", " "),
        ("", " "),
        (" ", " "),
        ("a  b", " "),
        ("a=1; b=2; malformed; c=3", "; "),
        ("a;; b", "; "),
        ("; ; ", "; "),
        ("/p?x?y", "?"),
        ("trailing ", " "),
    ] {
        let expected: Vec<String> = s.split(pat).map(|p| p.to_string()).collect();
        assert_eq!(split_like_library(s, pat), expected);
    }
}

#[test]
fn strip_crlf_agrees_with_replace() {
    for s in ["GET / HTTP/1.1\r\n", "a\r\nb\r\n", "\r\n", "\n", "\r", "a\rb\n", "\r\r\n", ""] {
        let got: String = strip_crlf(&chars(s)).iter().collect();
        assert_eq!(got, s.replace("\r\n", ""));
    }
}

#[test]
fn trimming_agrees_with_trim_matches() {
    for s in ["/a/b/", "///", "", "a", "//a//b//", "/"] {
        let c = chars(s);
        let end = end_without(&c, '/');
        let start = start_without(&c, end, '/');
        let got: String = c[start..end].iter().collect();
        assert_eq!(got, s.trim_end_matches('/').trim_start_matches('/'));
    }
}

#[test]
fn numbers_are_written_in_base_ten() {
    assert_eq!(decimal_text(0), "0");
    assert_eq!(decimal_text(7), "7");
    assert_eq!(decimal_text(10), "10");
    assert_eq!(decimal_text(200), "200");
    assert_eq!(decimal_text(4463), "4463");
    assert_eq!(decimal_text(u64::MAX), "18446744073709551615");
    assert_eq!(two_digit_text(0), "00");
    assert_eq!(two_digit_text(9), "09");
    assert_eq!(two_digit_text(10), "10");
    assert_eq!(two_digit_text(123), "123");
    for n in [1u64, 19, 99, 100, 101, 999, 1000, 65535, 1 << 40] {
        assert_eq!(decimal_text(n), n.to_string());
    }
}

#[test]
fn numbers_are_read_as_the_standard_library_reads_them() {
    for s in [
        "0",
        "5",
        "005",
        "+5",
        "+",
        "",
        "-1",
        "-0",
        "5a",
        " 5",
        "5 ",
        "++5",
        "1_000",
        "18446744073709551615",
        "18446744073709551616",
        "99999999999999999999999",
        "٣",
        "4294967295",
        "4294967296",
    ] {
        assert_eq!(parse_usize_text(&chars(s)), s.parse::<usize>().ok(), "reading {:?}", s);
    }
    assert_eq!(parse_usize_text(&chars("42")), Some(42));
    assert_eq!(parse_usize_text(&chars("abc")), None);
}

#[test]
fn string_map_keeps_first_place_and_last_value() {
    let mut m = StringMap::new();
    assert!(m.is_empty());
    assert_eq!(m.len(), 0);
    m.insert("a".to_string(), "1".to_string());
    m.insert("b".to_string(), "2".to_string());
    m.insert("a".to_string(), "3".to_string());
    assert_eq!(m.len(), 2);
    assert!(!m.is_empty());
    assert_eq!(m.get("a"), Some(&"3".to_string()));
    assert_eq!(m.get("b"), Some(&"2".to_string()));
    assert_eq!(m.get("c"), None);
    assert!(m.contains_key("a"));
    assert!(!m.contains_key("A"));
    assert_eq!(m.entry(0), Some((&"a".to_string(), &"3".to_string())));
    assert_eq!(m.entry(1), Some((&"b".to_string(), &"2".to_string())));
    assert_eq!(m.entry(2), None);
}
