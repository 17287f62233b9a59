//! Marked-down text as the markup that a messenger shows: bold and italic
//! spans, code, headings and lists, with everything else escaped.

use vstd::prelude::*;
use crate::cli::first_index_of;
use crate::text::{
    append_chars, append_str, chars_of, has_prefix, joined, lines, rows, split_lines, starts_with,
    string_of, subvec, trim_end, trim_end_chars, trim_start, trim_start_chars,
};
use crate::transfer::{leading_count, strip_leading, without_leading};

verus! {

/// What stands for the character `c` in markup: `&`, `<` and `>` are
/// written out, every other character stands for itself.
pub open spec fn escaped_char(c: char) -> Seq<char> {
    if c == '&' {
        "&amp;"@
    } else if c == '<' {
        "&lt;"@
    } else if c == '>' {
        "&gt;"@
    } else {
        seq![c]
    }
}

/// `s` with each of its characters escaped.
pub open spec fn html_escaped(s: Seq<char>) -> Seq<char>
    decreases s.len(),
{
    if s.len() == 0 {
        Seq::empty()
    } else {
        html_escaped(s.drop_last()) + escaped_char(s.last())
    }
}

/// The characters `v` with each of them escaped.
pub fn escape_chars(v: &Vec<char>) -> (out: Vec<char>)
    ensures
        out@ == html_escaped(v@),
{
    let mut out: Vec<char> = Vec::new();
    let mut i: usize = 0;
    assert(v@.subrange(0, 0) =~= Seq::<char>::empty());
    while i < v.len()
        invariant
            i <= v.len(),
            out@ == html_escaped(v@.subrange(0, i as int)),
        decreases v.len() - i,
    {
        assert(v@.subrange(0, i + 1).drop_last() =~= v@.subrange(0, i as int));
        assert(v@.subrange(0, i + 1).last() == v@[i as int]);
        let c = v[i];
        if c == '&' {
            append_str(&mut out, "&amp;");
        } else if c == '<' {
            append_str(&mut out, "&lt;");
        } else if c == '>' {
            append_str(&mut out, "&gt;");
        } else {
            out.push(c);
        }
        i += 1;
    }
    assert(v@.subrange(0, v.len() as int) =~= v@);
    out
}

/// `s` with `&`, `<` and `>` written out, so that it is shown as it stands.
pub fn html_escape(s: &str) -> (out: String)
    ensures
        out@ == html_escaped(s@),
{
    string_of(&escape_chars(&chars_of(s)))
}

/// The first index from `i` on, and after `start`, at which `a` stands with
/// `b` behind it.
pub open spec fn closing_marker_from(s: Seq<char>, start: int, a: char, b: char, i: int) -> Option<
    int,
>
    decreases s.len() - i,
{
    if i < 0 || i + 1 >= s.len() {
        None
    } else if s[i] == a && s[i + 1] == b && i > start {
        Some(i)
    } else {
        closing_marker_from(s, start, a, b, i + 1)
    }
}

/// The first index from `i` on, and after `start`, at which `m` stands with
/// no other `m` behind it.
pub open spec fn closing_single_from(s: Seq<char>, start: int, m: char, i: int) -> Option<int>
    decreases s.len() - i,
{
    if i < 0 || i >= s.len() {
        None
    } else if s[i] == m && i > start && (i + 1 >= s.len() || s[i + 1] != m) {
        Some(i)
    } else {
        closing_single_from(s, start, m, i + 1)
    }
}

/// A closing pair of markers lies after `start`, at or after `i`, and
/// wholly inside the text.
pub proof fn lemma_closing_marker(s: Seq<char>, start: int, a: char, b: char, i: int)
    ensures
        closing_marker_from(s, start, a, b, i) matches Some(e) ==> e > start && e >= i && 0 <= e
            && e + 1 < s.len() && s[e] == a && s[e + 1] == b,
    decreases s.len() - i,
{
    if 0 <= i && i + 1 < s.len() && !(s[i] == a && s[i + 1] == b && i > start) {
        lemma_closing_marker(s, start, a, b, i + 1);
    }
}

/// A closing marker lies after `start`, at or after `i`, and inside the text.
pub proof fn lemma_closing_single(s: Seq<char>, start: int, m: char, i: int)
    ensures
        closing_single_from(s, start, m, i) matches Some(e) ==> e > start && e >= i && 0 <= e
            < s.len() && s[e] == m,
    decreases s.len() - i,
{
    if 0 <= i < s.len() && !(s[i] == m && i > start && (i + 1 >= s.len() || s[i + 1] != m)) {
        lemma_closing_single(s, start, m, i + 1);
    }
}

/// The index at which the pair of markers `marker` closes a span that
/// begins at `start`: the first one after `start`, so that the span is not
/// empty.
pub fn find_closing_marker(chars: &[char], start: usize, marker: &[char; 2]) -> (r: Option<usize>)
    ensures
        r is Some <==> closing_marker_from(chars@, start as int, marker@[0], marker@[1], start as int)
            is Some,
        r matches Some(e) ==> closing_marker_from(
            chars@,
            start as int,
            marker@[0],
            marker@[1],
            start as int,
        ) == Some(e as int),
{
    let len = chars.len();
    if len < 2 {
        return None;
    }
    let mut i: usize = start;
    while i < len - 1
        invariant
            len == chars@.len(),
            len >= 2,
            start <= i,
            closing_marker_from(chars@, start as int, marker@[0], marker@[1], start as int)
                == closing_marker_from(chars@, start as int, marker@[0], marker@[1], i as int),
        decreases len - i,
    {
        if chars[i] == marker[0] && chars[i + 1] == marker[1] && i > start {
            return Some(i);
        }
        i += 1;
    }
    None
}

/// The index at which the marker `marker` closes a span that begins at
/// `start`: the first one after `start` that has no other behind it.
pub fn find_closing_single(chars: &[char], start: usize, marker: char) -> (r: Option<usize>)
    ensures
        r is Some <==> closing_single_from(chars@, start as int, marker, start as int) is Some,
        r matches Some(e) ==> closing_single_from(chars@, start as int, marker, start as int)
            == Some(e as int),
{
    let len = chars.len();
    let mut i: usize = start;
    while i < len
        invariant
            len == chars@.len(),
            start <= i,
            closing_single_from(chars@, start as int, marker, start as int) == closing_single_from(
                chars@,
                start as int,
                marker,
                i as int,
            ),
        decreases len - i,
    {
        if chars[i] == marker && i > start && (i + 1 >= len || chars[i + 1] != marker) {
            return Some(i);
        }
        i += 1;
    }
    None
}

/// Where the bold span that begins at `i` with `**` closes, if one does.
pub open spec fn bold_end(s: Seq<char>, i: int) -> Option<int> {
    if 0 <= i && i + 1 < s.len() && s[i] == '*' && s[i + 1] == '*' {
        closing_marker_from(s, i + 2, '*', '*', i + 2)
    } else {
        None
    }
}

/// Where the italic span that begins at `i` with `*` closes, if one does.
pub open spec fn italic_end(s: Seq<char>, i: int) -> Option<int> {
    if 0 <= i < s.len() && s[i] == '*' {
        closing_single_from(s, i + 1, '*', i + 1)
    } else {
        None
    }
}

/// The text of `s` from `i` on with its bold and italic spans as markup. A
/// span is looked for at every character that no earlier span has taken,
/// bold before italic; a marker that opens no span stands for itself.
pub open spec fn styled_from(s: Seq<char>, i: int) -> Seq<char>
    decreases s.len() - i,
    via styled_from_decreases
{
    if i < 0 || i >= s.len() {
        Seq::empty()
    } else {
        match bold_end(s, i) {
            Some(e) => "<b>"@ + s.subrange(i + 2, e) + "</b>"@ + styled_from(s, e + 2),
            None => match italic_end(s, i) {
                Some(e) => "<i>"@ + s.subrange(i + 1, e) + "</i>"@ + styled_from(s, e + 1),
                None => seq![s[i]] + styled_from(s, i + 1),
            },
        }
    }
}

#[via_fn]
proof fn styled_from_decreases(s: Seq<char>, i: int) {
    lemma_closing_marker(s, i + 2, '*', '*', i + 2);
    lemma_closing_single(s, i + 1, '*', i + 1);
}

/// `s` with its bold and italic spans as markup.
pub open spec fn styled(s: Seq<char>) -> Seq<char> {
    styled_from(s, 0)
}

fn style_chars(chars: &Vec<char>) -> (out: Vec<char>)
    ensures
        out@ == styled(chars@),
{
    let mut out: Vec<char> = Vec::new();
    let len = chars.len();
    let mut i: usize = 0;
    let stars: [char; 2] = ['*', '*'];
    while i < len
        invariant
            len == chars@.len(),
            i <= len,
            stars@[0] == '*',
            stars@[1] == '*',
            styled(chars@) == out@ + styled_from(chars@, i as int),
        decreases len - i,
    {
        proof {
            lemma_closing_marker(chars@, i + 2, '*', '*', i + 2);
            lemma_closing_single(chars@, i + 1, '*', i + 1);
        }
        let ghost before = out@;
        if len - i >= 2 && chars[i] == '*' && chars[i + 1] == '*' {
            match find_closing_marker(chars.as_slice(), i + 2, &stars) {
                Some(end) => {
                    append_str(&mut out, "<b>");
                    append_chars(&mut out, &subvec(chars, i + 2, end));
                    append_str(&mut out, "</b>");
                    assert(out@ =~= before + ("<b>"@ + chars@.subrange(i + 2, end as int)
                        + "</b>"@));
                    i = end + 2;
                    continue;
                },
                None => {},
            }
        }
        if chars[i] == '*' {
            match find_closing_single(chars.as_slice(), i + 1, '*') {
                Some(end) => {
                    append_str(&mut out, "<i>");
                    append_chars(&mut out, &subvec(chars, i + 1, end));
                    append_str(&mut out, "</i>");
                    assert(out@ =~= before + ("<i>"@ + chars@.subrange(i + 1, end as int)
                        + "</i>"@));
                    i = end + 1;
                    continue;
                },
                None => {},
            }
        }
        out.push(chars[i]);
        assert(out@ =~= before + seq![chars@[i as int]]);
        i += 1;
    }
    assert(out@ =~= out@ + Seq::<char>::empty());
    out
}

/// `text` with its bold spans (`**...**`) and italic spans (`*...*`) as markup.
pub fn convert_bold_italic(text: &str) -> (out: String)
    ensures
        out@ == styled(text@),
{
    string_of(&style_chars(&chars_of(text)))
}

/// Where the first `c` of `s` from `from` on stands, it stands at or after
/// `from` and inside `s`.
pub proof fn lemma_first_index_of(s: Seq<char>, c: char, from: int)
    ensures
        first_index_of(s, c, from) matches Some(a) ==> from <= a && 0 <= a < s.len() && s[a] == c,
    decreases s.len() - from,
{
    if 0 <= from < s.len() && s[from] != c {
        lemma_first_index_of(s, c, from + 1);
    }
}

fn find_char(v: &Vec<char>, c: char, from: usize) -> (r: Option<usize>)
    ensures
        r is Some <==> first_index_of(v@, c, from as int) is Some,
        r matches Some(a) ==> first_index_of(v@, c, from as int) == Some(a as int),
{
    let mut i: usize = from;
    while i < v.len()
        invariant
            from <= i,
            first_index_of(v@, c, from as int) == first_index_of(v@, c, i as int),
        decreases v.len() - i,
    {
        if v[i] == c {
            return Some(i);
        }
        i += 1;
    }
    None
}

/// The first span of code of `s` from `i` on: where its opening and its
/// closing backtick stand.
pub open spec fn code_span(s: Seq<char>, i: int) -> Option<(int, int)> {
    match first_index_of(s, '`', i) {
        Some(a) => match first_index_of(s, '`', a + 1) {
            Some(b) => Some((a, b)),
            None => None,
        },
        None => None,
    }
}

/// The text of `s` from `i` on with its spans of code, and the bold and
/// italic spans of what lies between them, as markup. What stands in a span
/// of code is left as it is.
pub open spec fn inline_from(s: Seq<char>, i: int) -> Seq<char>
    decreases s.len() - i,
    via inline_from_decreases
{
    if i < 0 || i > s.len() {
        Seq::empty()
    } else {
        match code_span(s, i) {
            Some((a, b)) => styled(s.subrange(i, a)) + "<code>"@ + s.subrange(a + 1, b)
                + "</code>"@ + inline_from(s, b + 1),
            None => styled(s.subrange(i, s.len() as int)),
        }
    }
}

#[via_fn]
proof fn inline_from_decreases(s: Seq<char>, i: int) {
    lemma_first_index_of(s, '`', i);
    match first_index_of(s, '`', i) {
        Some(a) => lemma_first_index_of(s, '`', a + 1),
        None => {},
    }
}

/// `s` with its spans of code and its bold and italic spans as markup.
pub open spec fn inline(s: Seq<char>) -> Seq<char> {
    inline_from(s, 0)
}

fn inline_chars(v: &Vec<char>) -> (out: Vec<char>)
    ensures
        out@ == inline(v@),
{
    let mut out: Vec<char> = Vec::new();
    let mut i: usize = 0;
    loop
        invariant
            i <= v.len(),
            inline(v@) == out@ + inline_from(v@, i as int),
        decreases v.len() - i,
    {
        let ghost before = out@;
        proof {
            lemma_first_index_of(v@, '`', i as int);
        }
        match find_char(v, '`', i) {
            Some(a) => {
                proof {
                    lemma_first_index_of(v@, '`', a + 1);
                }
                match find_char(v, '`', a + 1) {
                    Some(b) => {
                        append_chars(&mut out, &style_chars(&subvec(v, i, a)));
                        append_str(&mut out, "<code>");
                        append_chars(&mut out, &subvec(v, a + 1, b));
                        append_str(&mut out, "</code>");
                        assert(out@ =~= before + (styled(v@.subrange(i as int, a as int))
                            + "<code>"@ + v@.subrange(a + 1, b as int) + "</code>"@));
                        i = b + 1;
                        continue;
                    },
                    None => {},
                }
            },
            None => {},
        }
        append_chars(&mut out, &style_chars(&subvec(v, i, v.len())));
        return out;
    }
}

/// `text`, in which `&`, `<` and `>` are escaped already, with its spans of
/// code (between backticks) and its bold and italic spans as markup.
pub fn convert_inline(text: &str) -> (out: String)
    ensures
        out@ == inline(text@),
{
    string_of(&inline_chars(&chars_of(text)))
}

/// The text of the heading that `line` is: what follows one to six `#` and
/// a blank, without the white space at its start. `None` where `line` is no
/// heading.
pub open spec fn heading_text(line: Seq<char>) -> Option<Seq<char>> {
    let hashes = leading_count(line, '#');
    let rest = without_leading(line, '#');
    if 1 <= hashes <= 6 && rest.len() > 0 && rest[0] == ' ' {
        Some(trim_start(rest))
    } else {
        None
    }
}

/// No more copies of a character stand at the start of a text than the
/// text has characters.
pub proof fn lemma_leading_count_bound(s: Seq<char>, c: char)
    ensures
        leading_count(s, c) <= s.len(),
    decreases s.len(),
{
    if s.len() > 0 && s[0] == c {
        lemma_leading_count_bound(s.drop_first(), c);
    }
}

fn heading_chars(line: &Vec<char>) -> (r: Option<Vec<char>>)
    ensures
        r is Some <==> heading_text(line@) is Some,
        r matches Some(t) ==> heading_text(line@) == Some(t@),
{
    proof {
        lemma_leading_count_bound(line@, '#');
    }
    let rest = strip_leading(line, '#');
    let hashes = line.len() - rest.len();
    if hashes >= 1 && hashes <= 6 && rest.len() > 0 && rest[0] == ' ' {
        Some(trim_start_chars(&rest))
    } else {
        None
    }
}

/// The text of the heading that `line` is: what follows one to six `#` and
/// a blank. `None` where `line` is no heading.
pub fn strip_heading(line: &str) -> (r: Option<String>)
    ensures
        r is Some <==> heading_text(line@) is Some,
        r matches Some(t) ==> heading_text(line@) == Some(t@),
{
    match heading_chars(&chars_of(line)) {
        Some(t) => Some(string_of(&t)),
        None => None,
    }
}

/// Whether `line` opens or closes a block of code: it starts, white space
/// aside, with three backticks.
pub open spec fn is_fence(line: Seq<char>) -> bool {
    starts_with(trim_start(line), "```"@)
}

/// The index of the first line from `i` on that closes a block of code; the
/// number of lines where none does.
pub open spec fn fence_end(ls: Seq<Seq<char>>, i: int) -> int
    decreases ls.len() - i,
{
    if i < 0 || i >= ls.len() {
        ls.len() as int
    } else if is_fence(ls[i]) {
        i
    } else {
        fence_end(ls, i + 1)
    }
}

/// A block of code ends at or after the line it is looked for from.
pub proof fn lemma_fence_end(ls: Seq<Seq<char>>, i: int)
    requires
        0 <= i <= ls.len(),
    ensures
        i <= fence_end(ls, i) <= ls.len(),
    decreases ls.len() - i,
{
    if i < ls.len() && !is_fence(ls[i]) {
        lemma_fence_end(ls, i + 1);
    }
}

/// The markup of a line outside a block of code. A heading is bold; an
/// item of a list, which begins with `- ` or `* `, gets a bullet; each is
/// taken without the white space at its start. Any other line stands as it
/// is. In each, the text is escaped and its spans are marked up.
pub open spec fn line_markup(line: Seq<char>) -> Seq<char> {
    let t = trim_start(line);
    match heading_text(t) {
        Some(rest) => "<b>"@ + inline(html_escaped(rest)) + "</b>"@,
        None => if starts_with(t, "- "@) || starts_with(t, "* "@) {
            "\u{2022} "@ + inline(html_escaped(t.subrange(2, t.len() as int)))
        } else {
            inline(html_escaped(line))
        },
    }
}

/// The markup of a block of code with the lines `code`: the lines joined,
/// without the white space at their end, and escaped. A block that holds
/// nothing gives nothing.
pub open spec fn block_markup(code: Seq<Seq<char>>) -> Seq<char> {
    let text = joined(code, "\n"@);
    if text.len() > 0 {
        "<pre>"@ + html_escaped(trim_end(text)) + "</pre>"@
    } else {
        Seq::empty()
    }
}

/// The markup of the lines `ls` from the line `i` on, a line feed after
/// each line and each block of code. A block of code reaches from the line
/// that opens it to the next that closes it, or to the end.
pub open spec fn html_from(ls: Seq<Seq<char>>, i: int) -> Seq<char>
    decreases ls.len() + 1 - i,
    via html_from_decreases
{
    if i < 0 || i >= ls.len() {
        Seq::empty()
    } else if is_fence(ls[i]) {
        let j = fence_end(ls, i + 1);
        block_markup(ls.subrange(i + 1, j)) + "\n"@ + html_from(ls, j + 1)
    } else {
        line_markup(ls[i]) + "\n"@ + html_from(ls, i + 1)
    }
}

#[via_fn]
proof fn html_from_decreases(ls: Seq<Seq<char>>, i: int) {
    if 0 <= i < ls.len() {
        lemma_fence_end(ls, i + 1);
    }
}

/// The marked-down text `md` as markup, without the white space at its end.
pub open spec fn markdown_html(md: Seq<char>) -> Seq<char> {
    trim_end(html_from(lines(md), 0))
}

fn line_is_fence(line: &Vec<char>) -> (r: bool)
    ensures
        r == is_fence(line@),
{
    has_prefix(&trim_start_chars(line), &chars_of("```"))
}

fn join_range(parts: &Vec<Vec<char>>, from: usize, to: usize, sep: &str) -> (out: Vec<char>)
    requires
        from <= to <= parts.len(),
    ensures
        out@ == joined(rows(parts@).subrange(from as int, to as int), sep@),
{
    let mut out: Vec<char> = Vec::new();
    let mut i: usize = from;
    let ghost all = rows(parts@);
    while i < to
        invariant
            from <= i <= to <= parts.len(),
            all == rows(parts@),
            out@ == joined(all.subrange(from as int, i as int), sep@),
        decreases to - i,
    {
        if i > from {
            append_str(&mut out, sep);
        }
        append_chars(&mut out, &parts[i]);
        assert(all.subrange(from as int, i + 1).drop_last() == all.subrange(from as int, i as int));
        assert(all.subrange(from as int, i + 1).last() == parts@[i as int]@);
        i += 1;
    }
    out
}

fn line_chars(line: &Vec<char>) -> (out: Vec<char>)
    ensures
        out@ == line_markup(line@),
{
    let t = trim_start_chars(line);
    let mut out: Vec<char> = Vec::new();
    proof {
        reveal_strlit("- ");
        reveal_strlit("* ");
    }
    match heading_chars(&t) {
        Some(rest) => {
            append_str(&mut out, "<b>");
            append_chars(&mut out, &inline_chars(&escape_chars(&rest)));
            append_str(&mut out, "</b>");
        },
        None => {
            if has_prefix(&t, &chars_of("- ")) || has_prefix(&t, &chars_of("* ")) {
                append_str(&mut out, "\u{2022} ");
                append_chars(&mut out, &inline_chars(&escape_chars(&subvec(&t, 2, t.len()))));
            } else {
                append_chars(&mut out, &inline_chars(&escape_chars(line)));
            }
        },
    }
    out
}

/// How the markup of the lines from a line on begins, where that line is
/// no part of a block of code.
pub proof fn lemma_html_from_line(ls: Seq<Seq<char>>, i: int)
    requires
        0 <= i < ls.len(),
        !is_fence(ls[i]),
    ensures
        html_from(ls, i) == (line_markup(ls[i]) + "\n"@) + html_from(ls, i + 1),
{
    assert(html_from(ls, i) =~= (line_markup(ls[i]) + "\n"@) + html_from(ls, i + 1));
}

/// The line after a block of code that begins at the line `i`: the one
/// after the line that closes it, or the end of the lines.
pub open spec fn after_block(ls: Seq<Seq<char>>, i: int) -> int {
    if fence_end(ls, i + 1) < ls.len() {
        fence_end(ls, i + 1) + 1
    } else {
        ls.len() as int
    }
}

/// How the markup of the lines from a line on begins, where that line
/// opens a block of code.
pub proof fn lemma_html_from_block(ls: Seq<Seq<char>>, i: int)
    requires
        0 <= i < ls.len(),
        is_fence(ls[i]),
    ensures
        html_from(ls, i) == (block_markup(ls.subrange(i + 1, fence_end(ls, i + 1))) + "\n"@)
            + html_from(ls, after_block(ls, i)),
{
    lemma_fence_end(ls, i + 1);
    let j = fence_end(ls, i + 1);
    assert(html_from(ls, i) =~= (block_markup(ls.subrange(i + 1, j)) + "\n"@) + html_from(
        ls,
        j + 1,
    ));
    if j == ls.len() {
        assert(html_from(ls, j + 1) =~= html_from(ls, j));
    }
}

fn block_end(ls: &Vec<Vec<char>>, i: usize) -> (j: usize)
    requires
        i < ls.len(),
    ensures
        j == fence_end(rows(ls@), i + 1),
        i < j <= ls.len(),
{
    let ghost all = rows(ls@);
    let mut j: usize = i + 1;
    while j < ls.len() && !line_is_fence(&ls[j])
        invariant
            i < j <= ls.len(),
            all == rows(ls@),
            all.len() == ls@.len(),
            fence_end(all, i + 1) == fence_end(all, j as int),
            j < ls.len() ==> all[j as int] == ls@[j as int]@,
        decreases ls.len() - j,
    {
        j += 1;
    }
    j
}

fn block_chars(ls: &Vec<Vec<char>>, from: usize, to: usize) -> (out: Vec<char>)
    requires
        from <= to <= ls.len(),
    ensures
        out@ == block_markup(rows(ls@).subrange(from as int, to as int)) + "\n"@,
{
    let mut out: Vec<char> = Vec::new();
    let code = join_range(ls, from, to, "\n");
    if code.len() > 0 {
        append_str(&mut out, "<pre>");
        append_chars(&mut out, &escape_chars(&trim_end_chars(&code)));
        append_str(&mut out, "</pre>");
    }
    append_str(&mut out, "\n");
    out
}

/// Turns the marked-down text `md` into markup: blocks of code between
/// lines of three backticks, headings, items of lists, and in each line
/// spans of code, bold and italic text. Everything else is escaped.
pub fn markdown_to_telegram_html(md: &str) -> (out: String)
    ensures
        out@ == markdown_html(md@),
{
    let ls = split_lines(&chars_of(md));
    let ghost all = rows(ls@);
    let mut out: Vec<char> = Vec::new();
    let mut i: usize = 0;
    while i < ls.len()
        invariant
            i <= ls.len(),
            all == rows(ls@),
            all.len() == ls@.len(),
            html_from(all, 0) == out@ + html_from(all, i as int),
        decreases ls.len() - i,
    {
        let ghost before = out@;
        let ghost rest = html_from(all, i as int);
        assert(all[i as int] == ls@[i as int]@);
        if line_is_fence(&ls[i]) {
            let j = block_end(&ls, i);
            let piece = block_chars(&ls, i + 1, j);
            append_chars(&mut out, &piece);
            proof {
                lemma_html_from_block(all, i as int);
                assert(before + (piece@ + html_from(all, after_block(all, i as int))) =~= (before
                    + piece@) + html_from(all, after_block(all, i as int)));
            }
            i = if j < ls.len() {
                j + 1
            } else {
                j
            };
        } else {
            let piece = line_chars(&ls[i]);
            append_chars(&mut out, &piece);
            append_str(&mut out, "\n");
            proof {
                lemma_html_from_line(all, i as int);
                assert(before + ((piece@ + "\n"@) + html_from(all, i + 1)) =~= ((before + piece@)
                    + "\n"@) + html_from(all, i + 1));
            }
            i += 1;
        }
    }
    assert(out@ =~= out@ + Seq::<char>::empty());
    string_of(&trim_end_chars(&out))
}

/// The first `n` of the lines `ls` put together, and whether the last of
/// them is empty. A line feed stands before each line that is not empty,
/// save at the very start, and one line feed stands for each run of empty
/// lines.
pub open spec fn squeezed_upto(ls: Seq<Seq<char>>, n: int) -> (Seq<char>, bool)
    decreases n,
{
    if n <= 0 || n > ls.len() {
        (Seq::empty(), false)
    } else {
        let (text, after_empty) = squeezed_upto(ls, n - 1);
        if ls[n - 1].len() == 0 {
            (
                if after_empty {
                    text
                } else {
                    text + "\n"@
                },
                true,
            )
        } else {
            (
                (if text.len() > 0 {
                    text + "\n"@
                } else {
                    text
                }) + ls[n - 1],
                false,
            )
        }
    }
}

/// `s` with each run of empty lines made into one, and without a line feed
/// at its end unless an empty line stands there.
pub fn normalize_empty_lines(s: &str) -> (out: String)
    ensures
        out@ == squeezed_upto(lines(s@), lines(s@).len() as int).0,
{
    let ls = split_lines(&chars_of(s));
    let ghost all = rows(ls@);
    let mut out: Vec<char> = Vec::new();
    let mut prev_was_empty = false;
    let mut i: usize = 0;
    while i < ls.len()
        invariant
            i <= ls.len(),
            all == rows(ls@),
            all.len() == ls@.len(),
            (out@, prev_was_empty) == squeezed_upto(all, i as int),
        decreases ls.len() - i,
    {
        assert(all[i as int] == ls@[i as int]@);
        if ls[i].len() == 0 {
            if !prev_was_empty {
                out.push('\n');
                assert(out@ =~= squeezed_upto(all, i as int).0 + "\n"@) by {
                    reveal_strlit("\n");
                }
            }
            prev_was_empty = true;
        } else {
            if out.len() > 0 {
                out.push('\n');
                assert(out@ =~= squeezed_upto(all, i as int).0 + "\n"@) by {
                    reveal_strlit("\n");
                }
            }
            append_chars(&mut out, &ls[i]);
            prev_was_empty = false;
        }
        i += 1;
    }
    string_of(&out)
}

} // verus!
