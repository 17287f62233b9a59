use cokacdir::message::{split_long_message, truncate_str};

fn sizes(chunks: &[String]) -> Vec<usize> {
    chunks.iter().map(|c| c.len()).collect()
}

#[test]
fn short_text_is_not_cut() {
    assert_eq!(truncate_str("hello", 5), "hello");
    assert_eq!(truncate_str("", 0), "");
    assert_eq!(truncate_str("a\nb", 3), "a\nb");
}

#[test]
fn long_text_is_cut_at_a_character_and_at_a_line() {
    assert_eq!(truncate_str("hello world", 5), "hello");
    assert_eq!(truncate_str("ab\ncd\nef", 7), "ab\ncd");
    assert_eq!(truncate_str("ab\ncd\nef", 3), "ab");
    assert_eq!(truncate_str("\nabc", 2), "");
    assert_eq!(truncate_str("한글", 4), "한");
    assert_eq!(truncate_str("한글", 2), "");
    assert_eq!(truncate_str("a한", 3), "a");
}

#[test]
fn a_message_that_fits_is_sent_whole() {
    assert_eq!(split_long_message("hi", true), vec!["hi".to_string()]);
    assert_eq!(split_long_message("", false), vec![String::new()]);
    let text = "a".repeat(4096);
    assert_eq!(split_long_message(&text, false), vec![text.clone()]);
}

#[test]
fn a_long_message_is_cut_at_the_limit_or_at_a_line() {
    let text = "a".repeat(5000);
    let chunks = split_long_message(&text, false);
    assert_eq!(sizes(&chunks), vec![4096, 904]);
    assert_eq!(chunks.concat(), text);

    let text = format!("{}\n{}", "x".repeat(3000), "y".repeat(3000));
    assert_eq!(split_long_message(&text, false), vec!["x".repeat(3000), "y".repeat(3000)]);

    let text = format!("{}\nb", "a".repeat(4096));
    assert_eq!(split_long_message(&text, false), vec!["a".repeat(4096), "b".to_string()]);
}

#[test]
fn a_long_message_is_cut_where_a_character_ends() {
    let text = "한".repeat(2000);
    let chunks = split_long_message(&text, false);
    assert_eq!(chunks, vec!["한".repeat(1365), "한".repeat(635)]);
}

#[test]
fn an_open_block_of_code_is_closed_and_opened_again() {
    let text = format!("<pre>{}</pre> tail {}", "line\n".repeat(2000), "z".repeat(5000));
    let chunks = split_long_message(&text, true);
    assert_eq!(sizes(&chunks), vec![4100, 4095, 1835, 4090, 927]);
    for chunk in &chunks[..3] {
        assert!(chunk.starts_with("<pre>line\n"));
        assert!(chunk.ends_with("\nline</pre>"));
    }
    assert!(chunks[3].starts_with("<pre></pre> tail zzz"));
    assert!(chunks[3].ends_with("zzz"));
    assert_eq!(chunks[4], "z".repeat(927));

    let plain = split_long_message(&text, false);
    assert_eq!(sizes(&plain), vec![4094, 4094, 1814, 4096, 916]);
    assert!(plain[1].starts_with("line\n"));
}

#[test]
fn a_line_feed_at_the_start_gives_an_empty_message() {
    let text = format!("\n{}", "a".repeat(5000));
    assert_eq!(sizes(&split_long_message(&text, true)), vec![0, 4096, 904]);
}

#[test]
fn a_phrase_is_found_wherever_it_stands() {
    let f = cokacdir::message::contains_phrase;
    assert!(f("abc", "abc"));
    assert!(f("xxabc", "abc"));
    assert!(f("abcxx", "abc"));
    assert!(f("ababc", "abc"));
    assert!(f("abc", ""));
    assert!(f("", ""));
    assert!(!f("", "a"));
    assert!(!f("ab", "abc"));
    assert!(!f("abxc", "abc"));
    assert!(f("한글 Connection refused", "Connection refused"));
    assert!(!f("connection refused", "Connection refused"));
}
