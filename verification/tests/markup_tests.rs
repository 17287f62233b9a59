use cokacdir::markup::{
    convert_bold_italic, convert_inline, find_closing_marker, find_closing_single, html_escape,
    markdown_to_telegram_html, normalize_empty_lines, strip_heading,
};

fn chars(s: &str) -> Vec<char> {
    s.chars().collect()
}

#[test]
fn escaping_writes_out_three_characters() {
    assert_eq!(html_escape("a<b>&c"), "a&lt;b&gt;&amp;c");
    assert_eq!(html_escape("&amp;"), "&amp;amp;");
    assert_eq!(html_escape(""), "");
    assert_eq!(html_escape("한글 \"q\""), "한글 \"q\"");
}

#[test]
fn closing_markers_are_found_after_the_start() {
    let text = chars("ab**c**");
    assert_eq!(find_closing_marker(&text, 4, &['*', '*']), Some(5));
    assert_eq!(find_closing_marker(&text, 2, &['*', '*']), Some(5));
    assert_eq!(find_closing_marker(&text, 0, &['*', '*']), Some(2));
    assert_eq!(find_closing_marker(&text, 5, &['*', '*']), None);
    assert_eq!(find_closing_marker(&text, 99, &['*', '*']), None);
    assert_eq!(find_closing_marker(&chars("*"), 0, &['*', '*']), None);
    let text = chars("a*b**c*");
    assert_eq!(find_closing_single(&text, 0, '*'), Some(1));
    assert_eq!(find_closing_single(&text, 1, '*'), Some(4));
    assert_eq!(find_closing_single(&text, 2, '*'), Some(4));
    assert_eq!(find_closing_single(&text, 5, '*'), Some(6));
    assert_eq!(find_closing_single(&text, 6, '*'), None);
}

#[test]
fn bold_and_italic_spans() {
    assert_eq!(convert_bold_italic("**bold** and *it*"), "<b>bold</b> and <i>it</i>");
    assert_eq!(convert_bold_italic("a ** b"), "a ** b");
    assert_eq!(convert_bold_italic("a * b"), "a * b");
    assert_eq!(convert_bold_italic("****"), "<i>**</i>");
    assert_eq!(convert_bold_italic("2*3*4"), "2<i>3</i>4");
    assert_eq!(convert_bold_italic("**a*b**"), "<b>a*b</b>");
    assert_eq!(convert_bold_italic(""), "");
}

#[test]
fn code_spans_keep_what_is_in_them() {
    assert_eq!(convert_inline("a `x*y*` *z*"), "a <code>x*y*</code> <i>z</i>");
    assert_eq!(convert_inline("one ` only *i*"), "one ` only <i>i</i>");
    assert_eq!(convert_inline("`a``b`"), "<code>a</code><code>b</code>");
    assert_eq!(convert_inline("``"), "<code></code>");
    assert_eq!(convert_inline("*a `b* c` d*"), "*a <code>b* c</code> d*");
}

#[test]
fn headings_have_one_to_six_hashes_and_a_blank() {
    assert_eq!(strip_heading("## Title"), Some("Title".to_string()));
    assert_eq!(strip_heading("######   deep"), Some("deep".to_string()));
    assert_eq!(strip_heading("####### seven"), None);
    assert_eq!(strip_heading("#x"), None);
    assert_eq!(strip_heading("plain"), None);
    assert_eq!(strip_heading("# "), Some(String::new()));
    assert_eq!(strip_heading("#"), None);
}

#[test]
fn marked_down_text_becomes_markup() {
    let md = "# T\n- a\n  * b\n```rust\ncode <x>\n  more  \n```\ntext **b** & `c<d`";
    assert_eq!(
        markdown_to_telegram_html(md),
        "<b>T</b>\n\u{2022} a\n\u{2022} b\n<pre>code &lt;x&gt;\n  more</pre>\ntext <b>b</b> &amp; <code>c&lt;d</code>"
    );
}

#[test]
fn a_block_of_code_may_stay_open_or_hold_nothing() {
    assert_eq!(markdown_to_telegram_html("```\nabc"), "<pre>abc</pre>");
    assert_eq!(markdown_to_telegram_html("```\n```\nx"), "\nx");
    assert_eq!(markdown_to_telegram_html("a\n```"), "a");
    assert_eq!(markdown_to_telegram_html(""), "");
    assert_eq!(markdown_to_telegram_html("  indented\n\n"), "  indented");
    assert_eq!(markdown_to_telegram_html("**x"), "**x");
}

#[test]
fn runs_of_empty_lines_become_one() {
    assert_eq!(normalize_empty_lines("a\n\n\nb\n"), "a\n\nb");
    assert_eq!(normalize_empty_lines("\n\na"), "\n\na");
    assert_eq!(normalize_empty_lines("a\n\n"), "a\n");
    assert_eq!(normalize_empty_lines("a\n \nb"), "a\n \nb");
    assert_eq!(normalize_empty_lines(""), "");
}
