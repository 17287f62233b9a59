use cokacdir::format::{
    ceil_char_boundary, display_width_suffix, floor_char_boundary, format_permissions,
    format_permissions_short, format_size, pad_to_display_width, safe_prefix, safe_suffix,
    safe_truncate, truncate_to_display_width, truncate_with_ellipsis,
};

#[test]
fn test_format_size() {
    assert_eq!(format_size(0), "0 B");
    assert_eq!(format_size(512), "512 B");
    assert_eq!(format_size(1024), "1.0 KB");
    assert_eq!(format_size(1536), "1.5 KB");
    assert_eq!(format_size(1048576), "1.0 MB");
    assert_eq!(format_size(1073741824), "1.0 GB");
}

#[test]
fn test_format_permissions_short() {
    assert_eq!(format_permissions_short(0o755), "rwxr-xr-x");
    assert_eq!(format_permissions_short(0o644), "rw-r--r--");
    assert_eq!(format_permissions_short(0o777), "rwxrwxrwx");
    assert_eq!(format_permissions_short(0o000), "---------");
}

#[test]
fn test_truncate_to_display_width() {
    assert_eq!(truncate_to_display_width("abcdef", 4), "abcd");
    assert_eq!(truncate_to_display_width("한글t", 5), "한글t");
    assert_eq!(truncate_to_display_width("한글", 3), "한 ");
    assert_eq!(truncate_to_display_width("한글", 4), "한글");
    assert_eq!(truncate_to_display_width("", 5), "     ");
}

#[test]
fn test_pad_to_display_width() {
    assert_eq!(pad_to_display_width("abc", 6), "abc   ");
    assert_eq!(pad_to_display_width("한글", 6), "한글  ");
    assert_eq!(pad_to_display_width("abcdef", 4), "abcd");
}

#[test]
fn test_truncate_with_ellipsis() {
    assert_eq!(truncate_with_ellipsis("abc", 5), "abc");
    assert_eq!(truncate_with_ellipsis("abcdefgh", 6), "abc...");
    assert_eq!(truncate_with_ellipsis("한글테스트", 7), "한글...");
}

#[test]
fn format_size_rounds_halves_to_even() {
    // 1280 bytes are exactly 1.25 KB, 1792 + 128 = 1920 are 1.875 KB.
    assert_eq!(format_size(1280), format!("{:.1} KB", 1280f64 / 1024.0));
    assert_eq!(format_size(1280), "1.2 KB");
    assert_eq!(format_size(1408), "1.4 KB");
    assert_eq!(format_size(1920), "1.9 KB");
    assert_eq!(format_size(1023), "1023 B");
    assert_eq!(format_size(1048575), "1024.0 KB");
    assert_eq!(format_size(1073741823), "1024.0 MB");
}

#[test]
fn format_size_agrees_with_floating_point_on_large_sizes() {
    let gb = 1024.0 * 1024.0 * 1024.0;
    for bytes in [
        u64::MAX,
        u64::MAX - 1,
        (1u64 << 53) + 1,
        (1u64 << 53) + 3,
        (1u64 << 60) + 12345678901,
        9_007_199_254_740_993,
        123_456_789_012_345_678,
        5 * (1u64 << 29),
        25 * (1u64 << 27),
    ] {
        assert_eq!(format_size(bytes), format!("{:.1} GB", bytes as f64 / gb), "{}", bytes);
    }
}

#[test]
fn format_permissions_names_kind_and_octal() {
    assert_eq!(format_permissions(0o040755), "drwxr-xr-x (755)");
    assert_eq!(format_permissions(0o120777), "lrwxrwxrwx (777)");
    assert_eq!(format_permissions(0o100644), "-rw-r--r-- (644)");
    assert_eq!(format_permissions(0o100000), "---------- (0)");
    assert_eq!(format_permissions(0o104001), "---------x (1)");
}

#[test]
fn char_boundaries_move_to_character_starts() {
    let s = "a한b";
    // bytes: a(0) 한(1..4) b(4)
    assert_eq!(floor_char_boundary(s, 0), 0);
    assert_eq!(floor_char_boundary(s, 1), 1);
    assert_eq!(floor_char_boundary(s, 2), 1);
    assert_eq!(floor_char_boundary(s, 3), 1);
    assert_eq!(floor_char_boundary(s, 4), 4);
    assert_eq!(floor_char_boundary(s, 5), 5);
    assert_eq!(floor_char_boundary(s, 99), 5);
    assert_eq!(ceil_char_boundary(s, 2), 4);
    assert_eq!(ceil_char_boundary(s, 1), 1);
    assert_eq!(ceil_char_boundary(s, 99), 5);
}

#[test]
fn safe_cuts_never_split_a_character() {
    let s = "a한b";
    assert_eq!(safe_prefix(s, 10), "a한b");
    assert_eq!(safe_prefix(s, 3), "a");
    assert_eq!(safe_prefix(s, 4), "a한");
    assert_eq!(safe_prefix(s, 0), "");
    assert_eq!(safe_suffix(s, 10), "a한b");
    assert_eq!(safe_suffix(s, 3), "b");
    assert_eq!(safe_suffix(s, 4), "한b");
    assert_eq!(safe_suffix(s, 0), "");
    let mut t = String::from("a한b");
    safe_truncate(&mut t, 2);
    assert_eq!(t, "a");
    let mut u = String::from("a한b");
    safe_truncate(&mut u, 5);
    assert_eq!(u, "a한b");
}

#[test]
fn truncate_with_ellipsis_small_widths_are_dots() {
    assert_eq!(truncate_with_ellipsis("abcdefgh", 3), "...");
    assert_eq!(truncate_with_ellipsis("abcdefgh", 2), "..");
    assert_eq!(truncate_with_ellipsis("abcdefgh", 0), "");
    assert_eq!(truncate_with_ellipsis("ab cdefgh", 6), "ab...");
}

#[test]
fn test_display_width_suffix() {
    assert_eq!(display_width_suffix("abcdef", 3), "def");
    // the last columns of "한글test": "글" takes two and would make six
    assert_eq!(display_width_suffix("한글test", 5), "test");
}

#[test]
fn display_width_suffix_keeps_whole_text_when_it_fits() {
    assert_eq!(display_width_suffix("abc", 3), "abc");
    assert_eq!(display_width_suffix("abcdef", 3), "def");
    assert_eq!(display_width_suffix("한글test", 5), "test");
    assert_eq!(display_width_suffix("한글test", 6), "글test");
    assert_eq!(display_width_suffix("한글", 3), "글");
    assert_eq!(display_width_suffix("한글", 1), "");
}

#[test]
fn characters_below_u00a0_take_the_columns_the_library_says() {
    for code in 0u32..0xa0 {
        let c = char::from_u32(code).unwrap();
        let expected = if (0x20..0x7f).contains(&code) { Some(1) } else { None };
        assert_eq!(unicode_width::UnicodeWidthChar::width(c), expected, "U+{:04X}", code);
    }
    assert!(unicode_width::UnicodeWidthChar::width('\u{a0}').is_some());
    assert!(unicode_width::UnicodeWidthChar::width('\u{10ffff}').is_some());
}

#[test]
fn a_text_cut_to_a_width_is_exactly_that_wide() {
    assert_eq!(truncate_to_display_width("abcdef", 3), "abc");
    assert_eq!(truncate_to_display_width("ab", 5), "ab   ");
    assert_eq!(truncate_to_display_width("", 2), "  ");
    assert_eq!(truncate_to_display_width("abc", 0), "");
    // a control character counts as one column
    assert_eq!(truncate_to_display_width("a\tbc", 2), "a\t");
    assert_eq!(truncate_to_display_width("\u{7f}\u{9f}x", 2), "\u{7f}\u{9f}");
    // a wide character that would straddle the edge leaves a space
    assert_eq!(truncate_to_display_width("a한b", 2), "a ");
    assert_eq!(truncate_to_display_width("a한b", 3), "a한");
}
