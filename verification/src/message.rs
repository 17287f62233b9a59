//! Texts for a messenger that takes no more than a number of bytes at a
//! time: cutting a text short, and cutting a long text into messages.

use vstd::prelude::*;
use vstd::utf8::encode_scalar;
use crate::cli::last_index_of;
use crate::format::bytes_of;
use crate::text::{append_chars, chars_of, string_of, subvec, texts};

verus! {

/// The most bytes that one message may hold.
pub const TELEGRAM_MSG_LIMIT: usize = 4096;

/// How many bytes the character `c` takes in UTF-8.
pub open spec fn utf8_len(c: char) -> nat {
    encode_scalar(c as u32).len()
}

/// A character takes one to four bytes.
pub proof fn lemma_utf8_len(c: char)
    ensures
        1 <= utf8_len(c) <= 4,
{
}

fn char_bytes(c: char) -> (n: usize)
    ensures
        n == utf8_len(c),
        1 <= n <= 4,
{
    broadcast use vstd::utf8::char_is_scalar;

    let v = c as u32;
    if v < 0x80 {
        1
    } else if v < 0x800 {
        2
    } else if v < 0x10000 {
        3
    } else {
        4
    }
}

/// How many characters the longest start of `s` has that takes no more
/// than `max` bytes.
pub open spec fn fitting_chars(s: Seq<char>, max: nat) -> nat
    decreases s.len(),
{
    if s.len() == 0 || utf8_len(s[0]) > max {
        0
    } else {
        1 + fitting_chars(s.drop_first(), (max - utf8_len(s[0])) as nat)
    }
}

/// The start that fits is a start of the text; all of the text fits just
/// when the text takes no more than `max` bytes.
pub proof fn lemma_fitting_chars(s: Seq<char>, max: nat)
    ensures
        fitting_chars(s, max) <= s.len(),
        fitting_chars(s, max) == s.len() <==> bytes_of(s).len() <= max,
    decreases s.len(),
{
    if s.len() > 0 {
        lemma_utf8_len(s[0]);
        assert(bytes_of(s) == encode_scalar(s[0] as u32) + bytes_of(s.drop_first()));
        if utf8_len(s[0]) <= max {
            lemma_fitting_chars(s.drop_first(), (max - utf8_len(s[0])) as nat);
        }
    }
}

fn fit_count(v: &Vec<char>, max: usize) -> (k: usize)
    ensures
        k == fitting_chars(v@, max as nat),
        k <= v.len(),
{
    let mut i: usize = 0;
    let mut left: usize = max;
    assert(v@.subrange(0, v.len() as int) =~= v@);
    while i < v.len() && char_bytes(v[i]) <= left
        invariant
            i <= v.len(),
            fitting_chars(v@, max as nat) == i + fitting_chars(
                v@.subrange(i as int, v.len() as int),
                left as nat,
            ),
        decreases v.len() - i,
    {
        assert(v@.subrange(i as int, v.len() as int).drop_first() =~= v@.subrange(
            i + 1,
            v.len() as int,
        ));
        left = left - char_bytes(v[i]);
        i += 1;
    }
    i
}

/// The index at which `s` is cut so that what stands before it takes no
/// more than `max` bytes: the last line feed of the start that fits, or,
/// without one, the end of that start.
pub open spec fn cut_of(s: Seq<char>, max: nat) -> int {
    let head = s.subrange(0, fitting_chars(s, max) as int);
    match last_index_of(head, '\n', head.len() as int) {
        Some(p) => p,
        None => head.len() as int,
    }
}

/// The last `c` among the first characters of a text lies among them.
pub proof fn lemma_last_index_of(s: Seq<char>, c: char, upto: int)
    ensures
        last_index_of(s, c, upto) matches Some(p) ==> 0 <= p < upto && p < s.len() && s[p] == c,
    decreases upto,
{
    if 0 < upto <= s.len() && s[upto - 1] != c {
        lemma_last_index_of(s, c, upto - 1);
    }
}

fn cut_index(v: &Vec<char>, max: usize) -> (cut: usize)
    ensures
        cut == cut_of(v@, max as nat),
        cut <= fitting_chars(v@, max as nat) <= v.len(),
        cut < fitting_chars(v@, max as nat) ==> v@[cut as int] == '\n',
{
    let k = fit_count(v, max);
    let ghost head = v@.subrange(0, k as int);
    let mut i: usize = k;
    while i > 0
        invariant
            i <= k <= v.len(),
            k == fitting_chars(v@, max as nat),
            head == v@.subrange(0, k as int),
            last_index_of(head, '\n', head.len() as int) == last_index_of(head, '\n', i as int),
        decreases i,
    {
        assert(head[i - 1] == v@[i - 1]);
        if v[i - 1] == '\n' {
            return i - 1;
        }
        i -= 1;
    }
    k
}

/// `s` cut down to no more than `max` bytes, and then to whole lines where
/// it holds a line feed. A text that takes no more bytes stands as it is.
pub open spec fn truncated(s: Seq<char>, max: nat) -> Seq<char> {
    if bytes_of(s).len() <= max {
        s
    } else {
        s.subrange(0, cut_of(s, max))
    }
}

/// Cuts `s` down to at most `max_len` bytes, ending where a character ends
/// and, where the rest holds a line feed, before the last of them.
pub fn truncate_str(s: &str, max_len: usize) -> (out: String)
    ensures
        out@ == truncated(s@, max_len as nat),
{
    let v = chars_of(s);
    proof {
        lemma_fitting_chars(v@, max_len as nat);
    }
    if fit_count(&v, max_len) == v.len() {
        return string_of(&v);
    }
    let cut = cut_index(&v, max_len);
    string_of(&subvec(&v, 0, cut))
}

/// The last index at or before `upto` at which `pattern` stands in `s`.
pub open spec fn last_occurrence(s: Seq<char>, pattern: Seq<char>, upto: int) -> Option<int>
    decreases upto + 1,
{
    if upto < 0 {
        None
    } else if upto + pattern.len() <= s.len() && s.subrange(upto, upto + pattern.len())
        == pattern {
        Some(upto)
    } else {
        last_occurrence(s, pattern, upto - 1)
    }
}

/// The last index at which `pattern` stands in `s`.
pub open spec fn last_of(s: Seq<char>, pattern: Seq<char>) -> Option<int> {
    last_occurrence(s, pattern, s.len() - pattern.len())
}

fn stands_at(v: &Vec<char>, pattern: &Vec<char>, at: usize) -> (r: bool)
    requires
        at + pattern.len() <= v.len(),
    ensures
        r == (v@.subrange(at as int, at + pattern.len()) == pattern@),
{
    let mut j: usize = 0;
    while j < pattern.len()
        invariant
            j <= pattern.len(),
            at + pattern.len() <= v.len(),
            v@.subrange(at as int, at + j) == pattern@.subrange(0, j as int),
        decreases pattern.len() - j,
    {
        if v[at + j] != pattern[j] {
            assert(v@.subrange(at as int, at + pattern.len())[j as int] != pattern@[j as int]);
            return false;
        }
        assert(v@.subrange(at as int, at + j + 1) =~= v@.subrange(at as int, at + j).push(
            v@[at + j],
        ));
        assert(pattern@.subrange(0, j + 1) =~= pattern@.subrange(0, j as int).push(
            pattern@[j as int],
        ));
        j += 1;
    }
    assert(pattern@.subrange(0, pattern.len() as int) =~= pattern@);
    true
}

fn find_last(v: &Vec<char>, pattern: &Vec<char>) -> (r: Option<usize>)
    ensures
        r is Some <==> last_of(v@, pattern@) is Some,
        r matches Some(at) ==> last_of(v@, pattern@) == Some(at as int),
{
    if pattern.len() > v.len() {
        return None;
    }
    let mut i: usize = v.len() - pattern.len();
    loop
        invariant
            pattern.len() <= v.len(),
            i <= v.len() - pattern.len(),
            last_of(v@, pattern@) == last_occurrence(v@, pattern@, i as int),
        decreases i,
    {
        if stands_at(v, pattern, i) {
            return Some(i);
        }
        if i == 0 {
            return None;
        }
        i -= 1;
    }
}

/// Whether `pattern` stands somewhere in `s`.
pub open spec fn holds_phrase(s: Seq<char>, pattern: Seq<char>) -> bool {
    last_of(s, pattern) is Some
}

/// Whether `pattern` stands somewhere in `s`.
pub fn contains_phrase(s: &str, pattern: &str) -> (r: bool)
    ensures
        r == holds_phrase(s@, pattern@),
{
    find_last(&chars_of(s), &chars_of(pattern)).is_some()
}

/// A text holds a phrase exactly where the phrase stands at one of its
/// places.
pub proof fn lemma_holds_phrase(s: Seq<char>, pattern: Seq<char>)
    ensures
        holds_phrase(s, pattern) <==> exists|at: int|
            0 <= at && at + pattern.len() <= s.len() && #[trigger] s.subrange(
                at,
                at + pattern.len(),
            ) == pattern,
{
    lemma_last_occurrence(s, pattern, s.len() - pattern.len());
}

/// `last_occurrence` finds a place at or below `upto` where there is one,
/// and only a place where the pattern stands.
proof fn lemma_last_occurrence(s: Seq<char>, pattern: Seq<char>, upto: int)
    requires
        upto + pattern.len() <= s.len(),
    ensures
        last_occurrence(s, pattern, upto) is Some <==> exists|at: int|
            0 <= at <= upto && #[trigger] s.subrange(at, at + pattern.len()) == pattern,
    decreases upto + 1,
{
    if upto >= 0 {
        lemma_last_occurrence(s, pattern, upto - 1);
        if s.subrange(upto, upto + pattern.len()) == pattern {
        } else {
            if last_occurrence(s, pattern, upto - 1) is Some {
                let at = choose|at: int|
                    0 <= at <= upto - 1 && #[trigger] s.subrange(at, at + pattern.len()) == pattern;
                assert(0 <= at <= upto);
            }
        }
    }
}

/// Whether a block of code is open at the end of `raw`, where `in_pre` says
/// whether one was open at its start: the last of its tags decides.
pub open spec fn pre_open_after(raw: Seq<char>, in_pre: bool) -> bool {
    match (last_of(raw, "<pre>"@), last_of(raw, "</pre>"@)) {
        (Some(opened), Some(closed)) => opened > closed,
        (Some(_), None) => true,
        (None, Some(_)) => false,
        (None, None) => in_pre,
    }
}

/// The most bytes of the text that a message takes: room is left for the
/// tags that open and close a block of code where one is open.
pub open spec fn chunk_limit(tagged: bool) -> nat {
    if tagged {
        4085
    } else {
        4096
    }
}

/// The tag that opens a block of code, where `tagged`.
pub open spec fn opening(tagged: bool) -> Seq<char> {
    if tagged {
        "<pre>"@
    } else {
        Seq::empty()
    }
}

/// The tag that closes a block of code, where `tagged`.
pub open spec fn closing(tagged: bool) -> Seq<char> {
    if tagged {
        "</pre>"@
    } else {
        Seq::empty()
    }
}

/// What is left of `s` after it was cut at `cut`: the line feed at the cut
/// is left out.
pub open spec fn after_cut(s: Seq<char>, cut: int) -> Seq<char> {
    let rest = s.subrange(cut, s.len() as int);
    if rest.len() > 0 && rest[0] == '\n' {
        rest.drop_first()
    } else {
        rest
    }
}

/// Something is left out or sent with every cut: what is left is shorter.
pub proof fn lemma_cut_shortens(s: Seq<char>, max: nat)
    requires
        s.len() > 0,
        max >= 4,
    ensures
        0 <= cut_of(s, max) <= s.len(),
        after_cut(s, cut_of(s, max)).len() < s.len(),
{
    lemma_fitting_chars(s, max);
    lemma_utf8_len(s[0]);
    let head = s.subrange(0, fitting_chars(s, max) as int);
    lemma_last_index_of(head, '\n', head.len() as int);
    assert(fitting_chars(s, max) >= 1);
}

/// The messages that the text `s` is cut into. `html` says whether the
/// text is markup, `in_pre` whether a block of code is open where `s`
/// begins. Each message but the last ends before a line feed, where the
/// part that fits holds one, and the line feed is left out. In markup, a
/// block of code that is open where a message ends is closed there and
/// opened again in the next.
pub open spec fn chunks_from(s: Seq<char>, html: bool, in_pre: bool) -> Seq<Seq<char>>
    decreases s.len(),
    via chunks_from_decreases
{
    let tagged = html && in_pre;
    if s.len() == 0 {
        Seq::empty()
    } else if bytes_of(s).len() <= chunk_limit(tagged) {
        seq![opening(tagged) + s]
    } else {
        let cut = cut_of(s, chunk_limit(tagged));
        let raw = s.subrange(0, cut);
        let open_after = if html {
            pre_open_after(raw, in_pre)
        } else {
            in_pre
        };
        seq![opening(tagged) + raw + closing(html && open_after)] + chunks_from(
            after_cut(s, cut),
            html,
            open_after,
        )
    }
}

#[via_fn]
proof fn chunks_from_decreases(s: Seq<char>, html: bool, in_pre: bool) {
    if s.len() > 0 {
        lemma_cut_shortens(s, chunk_limit(html && in_pre));
    }
}

/// The messages in which the text `s` is sent: the text itself where one
/// message takes it, else what it is cut into.
pub open spec fn message_chunks(s: Seq<char>, html: bool) -> Seq<Seq<char>> {
    if bytes_of(s).len() <= 4096 {
        seq![s]
    } else {
        chunks_from(s, html, false)
    }
}

/// Cuts `text` into the messages in which it is sent. Each takes at most
/// 4096 bytes of the text, and 11 bytes less where a block of code is open
/// at its start, for the tags that are then added. `is_html` says whether
/// the text is markup.
pub fn split_long_message(text: &str, is_html: bool) -> (out: Vec<String>)
    ensures
        texts(out@) == message_chunks(text@, is_html),
{
    let mut out: Vec<String> = Vec::new();
    let mut remaining = chars_of(text);
    proof {
        lemma_fitting_chars(remaining@, 4096);
    }
    if fit_count(&remaining, TELEGRAM_MSG_LIMIT) == remaining.len() {
        out.push(string_of(&remaining));
        assert(texts(out@) =~= seq![text@]);
        return out;
    }
    let open_tag = chars_of("<pre>");
    let close_tag = chars_of("</pre>");
    let mut in_pre = false;
    assert(texts(out@) =~= Seq::<Seq<char>>::empty());
    while remaining.len() > 0
        invariant
            open_tag@ == "<pre>"@,
            close_tag@ == "</pre>"@,
            !is_html ==> !in_pre,
            message_chunks(text@, is_html) == texts(out@) + chunks_from(
                remaining@,
                is_html,
                in_pre,
            ),
        decreases remaining.len(),
    {
        let ghost before = texts(out@);
        let ghost s = remaining@;
        let tagged = is_html && in_pre;
        let limit: usize = if tagged {
            TELEGRAM_MSG_LIMIT - 11
        } else {
            TELEGRAM_MSG_LIMIT
        };
        proof {
            lemma_fitting_chars(s, limit as nat);
            lemma_cut_shortens(s, limit as nat);
        }
        let mut chunk: Vec<char> = Vec::new();
        if tagged {
            append_chars(&mut chunk, &open_tag);
        }
        if fit_count(&remaining, limit) == remaining.len() {
            append_chars(&mut chunk, &remaining);
            out.push(string_of(&chunk));
            assert(texts(out@) =~= before + seq![opening(tagged) + s]);
            return out;
        }
        let cut = cut_index(&remaining, limit);
        let raw = subvec(&remaining, 0, cut);
        append_chars(&mut chunk, &raw);
        if is_html {
            in_pre = match (find_last(&raw, &open_tag), find_last(&raw, &close_tag)) {
                (Some(opened), Some(closed)) => opened > closed,
                (Some(_), None) => true,
                (None, Some(_)) => false,
                (None, None) => in_pre,
            };
            if in_pre {
                append_chars(&mut chunk, &close_tag);
            }
        }
        out.push(string_of(&chunk));
        let skip: usize = if cut < remaining.len() && remaining[cut] == '\n' {
            cut + 1
        } else {
            cut
        };
        let rest = subvec(&remaining, skip, remaining.len());
        proof {
            assert(rest@ =~= after_cut(s, cut as int));
            assert(chunk@ =~= opening(tagged) + raw@ + closing(is_html && in_pre));
            assert(texts(out@) =~= before + seq![chunk@]);
            assert(before + (seq![chunk@] + chunks_from(rest@, is_html, in_pre)) =~= (before
                + seq![chunk@]) + chunks_from(rest@, is_html, in_pre));
        }
        remaining = rest;
    }
    assert(texts(out@) + Seq::<Seq<char>>::empty() =~= texts(out@));
    out
}

} // verus!
