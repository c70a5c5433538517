use rocker::text::{
    chars_of, decimal_string, find_text, join, parse_decimal, signed_decimal_string, split_text,
    text_less,
};

#[test]
fn numbers_in_decimal() {
    assert_eq!(decimal_string(0), "0");
    assert_eq!(decimal_string(7), "7");
    assert_eq!(decimal_string(10), "10");
    assert_eq!(decimal_string(1024), "1024");
    assert_eq!(decimal_string(u64::MAX), "18446744073709551615");
    assert_eq!(signed_decimal_string(0), "0");
    assert_eq!(signed_decimal_string(-7), "-7");
    assert_eq!(signed_decimal_string(i32::MAX), "2147483647");
    assert_eq!(signed_decimal_string(i32::MIN), "-2147483648");
}

#[test]
fn numbers_are_read_back() {
    for n in [0u64, 1, 9, 10, 99, 1024, 123_456_789, u64::MAX] {
        assert_eq!(parse_decimal(&decimal_string(n)), Some(n));
    }
    assert_eq!(parse_decimal("+12"), Some(12));
    assert_eq!(parse_decimal("0012"), Some(12));
    assert_eq!(parse_decimal("18446744073709551616"), None);
    assert_eq!(parse_decimal(""), None);
    assert_eq!(parse_decimal("+"), None);
    assert_eq!(parse_decimal("++1"), None);
    assert_eq!(parse_decimal("-1"), None);
    assert_eq!(parse_decimal("1 "), None);
    assert_eq!(parse_decimal("1_000"), None);
}

#[test]
fn text_is_split_at_each_separator() {
    assert_eq!(split_text("a b c", ' '), vec!["a", "b", "c"]);
    assert_eq!(split_text("", ' '), vec![""]);
    assert_eq!(split_text(" ", ' '), vec!["", ""]);
    assert_eq!(split_text("a,,b,", ','), vec!["a", "", "b", ""]);
    assert_eq!(split_text("héllo wörld", ' '), vec!["héllo", "wörld"]);
    assert_eq!(chars_of("héllo"), vec!['h', 'é', 'l', 'l', 'o']);
}

#[test]
fn pieces_join_back_to_the_text() {
    for text in ["", "a", "a b", " a  b ", ",,", "no separator", "é è"] {
        for sep in [' ', ','] {
            let pieces = split_text(text, sep);
            assert!(pieces.iter().all(|p| !p.contains(sep)));
            assert_eq!(pieces.join(&sep.to_string()), text);
        }
    }
}

#[test]
fn text_is_found_and_ordered() {
    let hay = chars_of("a cgroup2 line");
    assert!(find_text(&hay, &chars_of("cgroup2")));
    assert!(find_text(&hay, &chars_of("")));
    assert!(find_text(&hay, &chars_of("line")));
    assert!(!find_text(&hay, &chars_of("cgroup3")));
    assert!(!find_text(&chars_of(""), &chars_of("x")));
    assert!(text_less(&chars_of("a"), &chars_of("b")));
    assert!(text_less(&chars_of(""), &chars_of("a")));
    assert!(text_less(&chars_of("ab"), &chars_of("abc")));
    assert!(!text_less(&chars_of("abc"), &chars_of("abc")));
    assert!(!text_less(&chars_of("b"), &chars_of("abc")));
}

#[test]
fn paths_are_joined() {
    assert_eq!(join("/a", "b"), "/a/b");
    assert_eq!(join("/a/", "b"), "/a/b");
    assert_eq!(join("/a", "/b"), "/b");
    assert_eq!(join("", "b"), "b");
    assert_eq!(join("/a", ""), "/a/");
    assert_eq!(join("/", "b"), "/b");
    for (base, rel) in [("/a", "b"), ("/a/", "b"), ("/a", "/b"), ("", "b"), ("/a", ""), ("a", "b/c")] {
        let expected = std::path::Path::new(base).join(rel);
        assert_eq!(join(base, rel), expected.to_str().unwrap());
    }
}
