use cokacdir::text::{
    append_chars, append_decimal, append_str, char_is_whitespace, chars_of, concat2, concat3,
    decimal_string, has_prefix, has_suffix, join_rows, parse_u64_chars, same_chars, split_lines,
    split_words, str_ends_with, str_eq, str_starts_with, string_of, subvec, trim_chars,
    trim_end_chars, trim_start_chars,
};

fn v(t: &str) -> Vec<char> {
    t.chars().collect()
}

#[test]
fn strings_and_characters_convert_both_ways() {
    assert_eq!(chars_of("a한😀"), vec!['a', '한', '😀']);
    assert_eq!(string_of(&v("a한😀")), "a한😀");
    assert_eq!(chars_of(""), Vec::<char>::new());
    let mut out = v("x");
    append_str(&mut out, "yz");
    append_chars(&mut out, &v("!"));
    append_decimal(&mut out, 1203);
    assert_eq!(string_of(&out), "xyz!1203");
    assert_eq!(subvec(&v("hello"), 1, 3), v("el"));
    assert_eq!(subvec(&v("hello"), 2, 2), v(""));
    assert_eq!(concat2("a", "b"), "ab");
    assert_eq!(concat3("a", "", "c"), "ac");
}

#[test]
fn prefixes_suffixes_and_equality() {
    assert!(same_chars(&v("ab"), &v("ab")));
    assert!(!same_chars(&v("ab"), &v("ac")));
    assert!(!same_chars(&v("ab"), &v("abc")));
    assert!(has_prefix(&v("hello"), &v("he")));
    assert!(has_prefix(&v("hello"), &v("")));
    assert!(!has_prefix(&v("he"), &v("hello")));
    assert!(has_suffix(&v("hello"), &v("llo")));
    assert!(!has_suffix(&v("hello"), &v("hell")));
    assert!(str_ends_with("a.tar.gz", ".gz"));
    assert!(str_starts_with("tar: x", "tar:"));
    assert!(str_eq("한", "한"));
    assert!(!str_eq("a", "A"));
}

#[test]
fn white_space_is_what_the_standard_library_says() {
    for n in 0..=0x3100u32 {
        if let Some(c) = char::from_u32(n) {
            assert_eq!(char_is_whitespace(c), c.is_whitespace(), "U+{:04X}", n);
        }
    }
    assert!(!char_is_whitespace('\u{200B}'));
    assert!(!char_is_whitespace('\u{FEFF}'));
}

#[test]
fn trimming() {
    assert_eq!(trim_chars(&v("  a b \t\n")), v("a b"));
    assert_eq!(trim_end_chars(&v("  a b \t\n")), v("  a b"));
    assert_eq!(trim_start_chars(&v("  a b \t\n")), v("a b \t\n"));
    assert_eq!(trim_chars(&v(" \u{3000} ")), v(""));
    assert_eq!(trim_chars(&v("")), v(""));
    assert_eq!(trim_chars(&v("x")), v("x"));
}

#[test]
fn decimal_writing_and_reading() {
    assert_eq!(decimal_string(0), "0");
    assert_eq!(decimal_string(7), "7");
    assert_eq!(decimal_string(10), "10");
    assert_eq!(decimal_string(u128::MAX), u128::MAX.to_string());
    for (text, want) in [
        ("0", Some(0u64)),
        ("42", Some(42)),
        ("+42", Some(42)),
        ("007", Some(7)),
        ("18446744073709551615", Some(u64::MAX)),
        ("18446744073709551616", None),
        ("99999999999999999999999", None),
        ("", None),
        ("+", None),
        ("-1", None),
        ("++1", None),
        ("1+", None),
        ("1 ", None),
        ("１", None),
        ("0x10", None),
    ] {
        assert_eq!(parse_u64_chars(&v(text)), want, "{:?}", text);
        assert_eq!(parse_u64_chars(&v(text)), text.parse::<u64>().ok(), "{:?}", text);
    }
}

fn rows(list: &[&str]) -> Vec<Vec<char>> {
    list.iter().map(|t| v(t)).collect()
}

#[test]
fn words_and_lines() {
    assert_eq!(split_words(&v("  a  bc\td\n")), rows(&["a", "bc", "d"]));
    assert_eq!(split_words(&v("")), rows(&[]));
    assert_eq!(split_words(&v(" \t ")), rows(&[]));
    assert_eq!(split_words(&v("one")), rows(&["one"]));
    for text in ["a\nb", "a\nb\n", "a\r\nb\r\n", "a\rb\n", "\n\n", "", "a\r", "\r\n", "x\n\r\ny", "a\n\nb"] {
        let want: Vec<Vec<char>> = text.lines().map(|l| l.chars().collect()).collect();
        assert_eq!(split_lines(&v(text)), want, "{:?}", text);
    }
    for text in ["  a  bc\td\n", "x", " \u{00a0}y\u{2003}z "] {
        let want: Vec<Vec<char>> = text.split_whitespace().map(|l| l.chars().collect()).collect();
        assert_eq!(split_words(&v(text)), want, "{:?}", text);
    }
    assert_eq!(join_rows(&rows(&["a", "b", "c"]), 0, ", "), v("a, b, c"));
    assert_eq!(join_rows(&rows(&["a", "b", "c"]), 1, " "), v("b c"));
    assert_eq!(join_rows(&rows(&["a", "b", "c"]), 3, " "), v(""));
    assert_eq!(join_rows(&rows(&["a"]), 0, "-"), v("a"));
}
