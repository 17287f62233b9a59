//! Character-level helpers shared by the rest of the crate.
//!
//! Strings are handled as sequences of `char`; every function here states its
//! result over the `Seq<char>` view of its arguments.

use vstd::prelude::*;

verus! {

/// Appends one character to a string.
///
/// Trusted: this is `String::push` of the standard library; the contract says
/// that the string grows by exactly that character at its end.
#[verifier::external_body]
pub(crate) fn push_char(s: &mut String, c: char)
    ensures
        final(s)@ == old(s)@.push(c),
{
    s.push(c)
}

/// The characters of `s`, in order.
pub fn chars_of(s: &str) -> (out: Vec<char>)
    ensures
        out@ == s@,
{
    let mut out: Vec<char> = Vec::new();
    for c in it: s.chars()
        invariant
            out@ == it.history(),
    {
        out.push(c);
    }
    out
}

/// The string made of the characters of `v`, in order.
pub fn string_of(v: &Vec<char>) -> (out: String)
    ensures
        out@ == v@,
{
    let mut out = String::new();
    let mut i: usize = 0;
    while i < v.len()
        invariant
            i <= v.len(),
            out@ == v@.subrange(0, i as int),
        decreases v.len() - i,
    {
        push_char(&mut out, v[i]);
        i += 1;
    }
    assert(v@.subrange(0, v.len() as int) == v@);
    out
}

/// Appends the characters of `s` to `out`.
pub fn append_str(out: &mut Vec<char>, s: &str)
    ensures
        final(out)@ == old(out)@ + s@,
{
    let ghost before = out@;
    for c in it: s.chars()
        invariant
            out@ == before + it.history(),
    {
        out.push(c);
    }
}

/// Appends the characters of `v` to `out`.
pub fn append_chars(out: &mut Vec<char>, v: &Vec<char>)
    ensures
        final(out)@ == old(out)@ + v@,
{
    let ghost before = out@;
    let mut i: usize = 0;
    while i < v.len()
        invariant
            i <= v.len(),
            out@ == before + v@.subrange(0, i as int),
        decreases v.len() - i,
    {
        out.push(v[i]);
        i += 1;
    }
    assert(v@.subrange(0, v.len() as int) == v@);
}

/// The characters of `v` from index `from` up to, not including, `to`.
pub fn subvec(v: &Vec<char>, from: usize, to: usize) -> (out: Vec<char>)
    requires
        from <= to <= v.len(),
    ensures
        out@ == v@.subrange(from as int, to as int),
{
    let mut out: Vec<char> = Vec::new();
    let mut i: usize = from;
    while i < to
        invariant
            from <= i <= to <= v.len(),
            out@ == v@.subrange(from as int, i as int),
        decreases to - i,
    {
        out.push(v[i]);
        i += 1;
    }
    out
}

/// Whether two character vectors hold the same characters.
pub fn same_chars(a: &Vec<char>, b: &Vec<char>) -> (r: bool)
    ensures
        r == (a@ == b@),
{
    if a.len() != b.len() {
        return false;
    }
    let mut i: usize = 0;
    while i < a.len()
        invariant
            i <= a.len(),
            a.len() == b.len(),
            a@.subrange(0, i as int) == b@.subrange(0, i as int),
        decreases a.len() - i,
    {
        if a[i] != b[i] {
            return false;
        }
        assert(a@.subrange(0, i + 1) == a@.subrange(0, i as int).push(a@[i as int]));
        assert(b@.subrange(0, i + 1) == b@.subrange(0, i as int).push(b@[i as int]));
        i += 1;
    }
    assert(a@.subrange(0, a.len() as int) == a@);
    assert(b@.subrange(0, b.len() as int) == b@);
    true
}

/// `p` is a prefix of `s`.
pub open spec fn starts_with(s: Seq<char>, p: Seq<char>) -> bool {
    p.len() <= s.len() && s.subrange(0, p.len() as int) == p
}

/// `p` is a suffix of `s`.
pub open spec fn ends_with(s: Seq<char>, p: Seq<char>) -> bool {
    p.len() <= s.len() && s.subrange(s.len() - p.len(), s.len() as int) == p
}

/// Whether `v` begins with the characters of `p`.
pub fn has_prefix(v: &Vec<char>, p: &Vec<char>) -> (r: bool)
    ensures
        r == starts_with(v@, p@),
{
    if p.len() > v.len() {
        return false;
    }
    let head = subvec(v, 0, p.len());
    same_chars(&head, p)
}

/// Whether `v` ends with the characters of `p`.
pub fn has_suffix(v: &Vec<char>, p: &Vec<char>) -> (r: bool)
    ensures
        r == ends_with(v@, p@),
{
    if p.len() > v.len() {
        return false;
    }
    let tail = subvec(v, v.len() - p.len(), v.len());
    same_chars(&tail, p)
}

/// The white-space characters of Unicode (the `White_Space` property).
pub open spec fn is_whitespace(c: char) -> bool {
    let n = c as u32;
    ||| 0x09 <= n <= 0x0D
    ||| n == 0x20
    ||| n == 0x85
    ||| n == 0xA0
    ||| n == 0x1680
    ||| 0x2000 <= n <= 0x200A
    ||| n == 0x2028
    ||| n == 0x2029
    ||| n == 0x202F
    ||| n == 0x205F
    ||| n == 0x3000
}

/// Whether `c` is a white-space character.
pub fn char_is_whitespace(c: char) -> (r: bool)
    ensures
        r == is_whitespace(c),
{
    let n: u32 = c as u32;
    (0x09 <= n && n <= 0x0D) || n == 0x20 || n == 0x85 || n == 0xA0 || n == 0x1680 || (0x2000 <= n
        && n <= 0x200A) || n == 0x2028 || n == 0x2029 || n == 0x202F || n == 0x205F || n == 0x3000
}

/// Every character of `s` is white space.
pub open spec fn all_whitespace(s: Seq<char>) -> bool {
    forall|i: int| 0 <= i < s.len() ==> is_whitespace(#[trigger] s[i])
}

/// The length of `s` once its trailing white space is cut off.
pub open spec fn trimmed_end_len(s: Seq<char>) -> nat
    decreases s.len(),
{
    if s.len() > 0 && is_whitespace(s.last()) {
        trimmed_end_len(s.drop_last())
    } else {
        s.len()
    }
}

/// The number of white-space characters at the start of `s`.
pub open spec fn leading_whitespace(s: Seq<char>) -> nat
    decreases s.len(),
{
    if s.len() > 0 && is_whitespace(s[0]) {
        1 + leading_whitespace(s.drop_first())
    } else {
        0
    }
}

/// `s` without its trailing white space.
pub open spec fn trim_end(s: Seq<char>) -> Seq<char> {
    s.subrange(0, trimmed_end_len(s) as int)
}

/// `s` without its leading white space.
pub open spec fn trim_start(s: Seq<char>) -> Seq<char> {
    s.subrange(leading_whitespace(s) as int, s.len() as int)
}

/// `s` without white space at either end.
pub open spec fn trim(s: Seq<char>) -> Seq<char> {
    trim_end(trim_start(s))
}

/// `v` without its trailing white space.
pub fn trim_end_chars(v: &Vec<char>) -> (out: Vec<char>)
    ensures
        out@ == trim_end(v@),
{
    let mut end: usize = v.len();
    assert(v@.subrange(0, v.len() as int) == v@);
    while end > 0 && char_is_whitespace(v[end - 1])
        invariant
            end <= v.len(),
            trimmed_end_len(v@) == trimmed_end_len(v@.subrange(0, end as int)),
        decreases end,
    {
        assert(v@.subrange(0, end as int).drop_last() == v@.subrange(0, end - 1));
        end -= 1;
    }
    subvec(v, 0, end)
}

/// `v` without its leading white space.
pub fn trim_start_chars(v: &Vec<char>) -> (out: Vec<char>)
    ensures
        out@ == trim_start(v@),
{
    let mut start: usize = 0;
    assert(v@.subrange(0, v.len() as int) == v@);
    while start < v.len() && char_is_whitespace(v[start])
        invariant
            start <= v.len(),
            leading_whitespace(v@) == start + leading_whitespace(
                v@.subrange(start as int, v.len() as int),
            ),
        decreases v.len() - start,
    {
        assert(v@.subrange(start as int, v.len() as int).drop_first() == v@.subrange(
            start + 1,
            v.len() as int,
        ));
        start += 1;
    }
    subvec(v, start, v.len())
}

/// `v` without white space at either end.
pub fn trim_chars(v: &Vec<char>) -> (out: Vec<char>)
    ensures
        out@ == trim(v@),
{
    let head = trim_start_chars(v);
    trim_end_chars(&head)
}


/// The character that writes the digit `d`.
pub open spec fn digit_char(d: nat) -> char {
    if d == 0 {
        '0'
    } else if d == 1 {
        '1'
    } else if d == 2 {
        '2'
    } else if d == 3 {
        '3'
    } else if d == 4 {
        '4'
    } else if d == 5 {
        '5'
    } else if d == 6 {
        '6'
    } else if d == 7 {
        '7'
    } else if d == 8 {
        '8'
    } else {
        '9'
    }
}

/// `n` written in decimal, without sign or leading zeros.
pub open spec fn decimal(n: nat) -> Seq<char>
    decreases n,
{
    if n < 10 {
        seq![digit_char(n)]
    } else {
        decimal(n / 10).push(digit_char(n % 10))
    }
}

fn digit_to_char(d: u128) -> (c: char)
    requires
        d < 10,
    ensures
        c == digit_char(d as nat),
{
    if d == 0 {
        '0'
    } else if d == 1 {
        '1'
    } else if d == 2 {
        '2'
    } else if d == 3 {
        '3'
    } else if d == 4 {
        '4'
    } else if d == 5 {
        '5'
    } else if d == 6 {
        '6'
    } else if d == 7 {
        '7'
    } else if d == 8 {
        '8'
    } else {
        '9'
    }
}

/// Appends `n` in decimal to `out`.
pub fn append_decimal(out: &mut Vec<char>, n: u128)
    ensures
        final(out)@ == old(out)@ + decimal(n as nat),
    decreases n,
{
    if n >= 10 {
        append_decimal(out, n / 10);
    }
    out.push(digit_to_char(n % 10));
}

/// `n` in decimal.
pub fn decimal_string(n: u128) -> (out: String)
    ensures
        out@ == decimal(n as nat),
{
    let mut buf: Vec<char> = Vec::new();
    append_decimal(&mut buf, n);
    string_of(&buf)
}

/// `c` is one of the ten ASCII digits.
pub open spec fn is_digit(c: char) -> bool {
    '0' <= c <= '9'
}

/// The number that the digit `c` stands for.
pub open spec fn digit_value(c: char) -> nat {
    (c as u32 - '0' as u32) as nat
}

/// The number that a run of digits stands for; 0 for the empty run.
pub open spec fn digits_value(s: Seq<char>) -> nat
    decreases s.len(),
{
    if s.len() == 0 {
        0
    } else {
        digits_value(s.drop_last()) * 10 + digit_value(s.last())
    }
}

/// Every character of `s` is an ASCII digit.
pub open spec fn all_digits(s: Seq<char>) -> bool {
    forall|i: int| 0 <= i < s.len() ==> is_digit(#[trigger] s[i])
}

/// `s` without one leading `+`, if it has one.
pub open spec fn without_plus(s: Seq<char>) -> Seq<char> {
    if s.len() > 0 && s[0] == '+' {
        s.drop_first()
    } else {
        s
    }
}

/// The unsigned 64-bit number that `s` writes: an optional `+`, then one or
/// more ASCII digits whose value fits; `None` for anything else.
pub open spec fn parse_u64(s: Seq<char>) -> Option<u64> {
    let body = without_plus(s);
    if body.len() > 0 && all_digits(body) && digits_value(body) <= u64::MAX {
        Some(digits_value(body) as u64)
    } else {
        None
    }
}

proof fn lemma_digits_value_prefix(s: Seq<char>, k: int)
    requires
        0 <= k <= s.len(),
    ensures
        digits_value(s.subrange(0, k)) <= digits_value(s),
    decreases s.len() - k,
{
    if k < s.len() {
        lemma_digits_value_prefix(s, k + 1);
        assert(s.subrange(0, k + 1).drop_last() == s.subrange(0, k));
    } else {
        assert(s.subrange(0, k) == s);
    }
}

/// Reads an unsigned 64-bit number from `v`.
pub fn parse_u64_chars(v: &Vec<char>) -> (r: Option<u64>)
    ensures
        r == parse_u64(v@),
{
    let start: usize = if v.len() > 0 && v[0] == '+' {
        1
    } else {
        0
    };
    let ghost body = without_plus(v@);
    assert(body == v@.subrange(start as int, v.len() as int));
    if start == v.len() {
        return None;
    }
    let mut acc: u64 = 0;
    let mut i: usize = start;
    while i < v.len()
        invariant
            start <= i <= v.len(),
            body == without_plus(v@),
            body == v@.subrange(start as int, v.len() as int),
            all_digits(body.subrange(0, i - start)),
            acc == digits_value(body.subrange(0, i - start)),
        decreases v.len() - i,
    {
        let c = v[i];
        assert(c == body[i - start]);
        if !(c >= '0' && c <= '9') {
            assert(!is_digit(body[i - start]));
            return None;
        }
        let d: u64 = (c as u32 - '0' as u32) as u64;
        assert(body.subrange(0, i - start + 1).drop_last() == body.subrange(0, i - start));
        assert(body.subrange(0, i - start + 1).last() == c);
        let ghost next = digits_value(body.subrange(0, i - start + 1));
        assert(next == acc * 10 + d);
        proof {
            lemma_digits_value_prefix(body, i - start + 1);
        }
        if acc > (u64::MAX - d) / 10 {
            assert(next > u64::MAX);
            return None;
        }
        acc = acc * 10 + d;
        assert forall|j: int| 0 <= j < i - start + 1 implies is_digit(
            #[trigger] body.subrange(0, i - start + 1)[j],
        ) by {
            if j < i - start {
                assert(body.subrange(0, i - start + 1)[j] == body.subrange(0, i - start)[j]);
            }
        }
        i += 1;
    }
    assert(body.subrange(0, body.len() as int) == body);
    Some(acc)
}


/// The views of a list of character vectors.
pub open spec fn rows(v: Seq<Vec<char>>) -> Seq<Seq<char>> {
    v.map_values(|r: Vec<char>| r@)
}

/// The views of a list of strings.
pub open spec fn texts(v: Seq<String>) -> Seq<Seq<char>> {
    v.map_values(|r: String| r@)
}

/// Whether `s` ends with `p`.
pub fn str_ends_with(s: &str, p: &str) -> (r: bool)
    ensures
        r == ends_with(s@, p@),
{
    let sv = chars_of(s);
    let pv = chars_of(p);
    has_suffix(&sv, &pv)
}

/// Whether `s` starts with `p`.
pub fn str_starts_with(s: &str, p: &str) -> (r: bool)
    ensures
        r == starts_with(s@, p@),
{
    let sv = chars_of(s);
    let pv = chars_of(p);
    has_prefix(&sv, &pv)
}

/// Whether `a` and `b` hold the same text.
pub fn str_eq(a: &str, b: &str) -> (r: bool)
    ensures
        r == (a@ == b@),
{
    String::from_str(a) == String::from_str(b)
}

/// The index at or after `i` where the run of characters that are not white
/// space ends.
pub open spec fn word_end(s: Seq<char>, i: nat) -> nat
    decreases s.len() - i,
{
    if i >= s.len() || is_whitespace(s[i as int]) {
        i
    } else {
        word_end(s, i + 1)
    }
}

/// The words of `s` from index `i` on: the maximal runs of characters that
/// are not white space, in order.
pub open spec fn words_from(s: Seq<char>, i: nat) -> Seq<Seq<char>>
    decreases s.len() - i,
{
    if i >= s.len() {
        Seq::empty()
    } else if is_whitespace(s[i as int]) {
        words_from(s, i + 1)
    } else {
        let e = word_end(s, i + 1);
        if i < e <= s.len() {
            seq![s.subrange(i as int, e as int)] + words_from(s, e)
        } else {
            Seq::empty()
        }
    }
}

/// The words of `s`: what is left of it when it is cut at white space.
pub open spec fn words(s: Seq<char>) -> Seq<Seq<char>> {
    words_from(s, 0)
}

/// A word ends at or after the place it is looked for from, and before the
/// next white space: `words_from` always finds its word longer than nothing.
pub proof fn lemma_word_end(s: Seq<char>, i: nat)
    requires
        i <= s.len(),
    ensures
        i <= word_end(s, i) <= s.len(),
        word_end(s, i) < s.len() ==> is_whitespace(s[word_end(s, i) as int]),
        forall|j: int| i <= j < word_end(s, i) ==> !is_whitespace(#[trigger] s[j]),
    decreases s.len() - i,
{
    if i < s.len() && !is_whitespace(s[i as int]) {
        lemma_word_end(s, i + 1);
    }
}

/// The words of `v`, in order.
pub fn split_words(v: &Vec<char>) -> (out: Vec<Vec<char>>)
    ensures
        rows(out@) == words(v@),
{
    let mut out: Vec<Vec<char>> = Vec::new();
    let mut i: usize = 0;
    while i < v.len()
        invariant
            i <= v.len(),
            words(v@) == rows(out@) + words_from(v@, i as nat),
        decreases v.len() - i,
    {
        if char_is_whitespace(v[i]) {
            i += 1;
        } else {
            let start = i;
            i += 1;
            while i < v.len() && !char_is_whitespace(v[i])
                invariant
                    start < i <= v.len(),
                    word_end(v@, (start + 1) as nat) == word_end(v@, i as nat),
                decreases v.len() - i,
            {
                i += 1;
            }
            let word = subvec(v, start, i);
            let ghost before = rows(out@);
            out.push(word);
            assert(rows(out@) == before + seq![v@.subrange(start as int, i as int)]);
        }
    }
    out
}

/// The texts of `parts` joined into one, with `sep` between neighbours.
pub open spec fn joined(parts: Seq<Seq<char>>, sep: Seq<char>) -> Seq<char>
    decreases parts.len(),
{
    if parts.len() == 0 {
        Seq::empty()
    } else if parts.len() == 1 {
        parts[0]
    } else {
        joined(parts.drop_last(), sep) + sep + parts.last()
    }
}

/// Joins the character vectors of `parts` from index `from` on, with `sep`
/// between neighbours.
pub fn join_rows(parts: &Vec<Vec<char>>, from: usize, sep: &str) -> (out: Vec<char>)
    requires
        from <= parts.len(),
    ensures
        out@ == joined(rows(parts@).subrange(from as int, parts.len() as int), sep@),
{
    let mut out: Vec<char> = Vec::new();
    let mut i: usize = from;
    let ghost all = rows(parts@);
    while i < parts.len()
        invariant
            from <= i <= parts.len(),
            all == rows(parts@),
            out@ == joined(all.subrange(from as int, i as int), sep@),
        decreases parts.len() - i,
    {
        if i > from {
            append_str(&mut out, sep);
        }
        append_chars(&mut out, &parts[i]);
        assert(all.subrange(from as int, i + 1).drop_last() == all.subrange(from as int, i as int));
        assert(all.subrange(from as int, i + 1).last() == parts@[i as int]@);
        i += 1;
    }
    out
}

/// The index at or after `i` of the next line feed of `s`; the length of `s`
/// where there is none.
pub open spec fn line_end(s: Seq<char>, i: nat) -> nat
    decreases s.len() - i,
{
    if i >= s.len() || s[i as int] == '\n' {
        i
    } else {
        line_end(s, i + 1)
    }
}

/// `s` without one carriage return at its end, if it has one.
pub open spec fn without_cr(s: Seq<char>) -> Seq<char> {
    if s.len() > 0 && s.last() == '\r' {
        s.drop_last()
    } else {
        s
    }
}

/// The lines of `s` from index `i` on. A line ends at a line feed, or at a
/// carriage return followed by one; the end of the text ends the last line,
/// which keeps a carriage return at its end.
pub open spec fn lines_from(s: Seq<char>, i: nat) -> Seq<Seq<char>>
    decreases s.len() - i,
{
    if i >= s.len() {
        Seq::empty()
    } else {
        let e = line_end(s, i);
        if e >= s.len() {
            seq![s.subrange(i as int, s.len() as int)]
        } else if e >= i {
            seq![without_cr(s.subrange(i as int, e as int))] + lines_from(s, e + 1)
        } else {
            Seq::empty()
        }
    }
}

/// A line ends at or after the place it is looked for from: `lines_from`
/// always finds its line.
pub proof fn lemma_line_end(s: Seq<char>, i: nat)
    requires
        i <= s.len(),
    ensures
        i <= line_end(s, i) <= s.len(),
        line_end(s, i) < s.len() ==> s[line_end(s, i) as int] == '\n',
        forall|j: int| i <= j < line_end(s, i) ==> #[trigger] s[j] != '\n',
    decreases s.len() - i,
{
    if i < s.len() && s[i as int] != '\n' {
        lemma_line_end(s, i + 1);
    }
}

/// The lines of `s`.
pub open spec fn lines(s: Seq<char>) -> Seq<Seq<char>> {
    lines_from(s, 0)
}

/// The lines of `v`, in order.
pub fn split_lines(v: &Vec<char>) -> (out: Vec<Vec<char>>)
    ensures
        rows(out@) == lines(v@),
{
    let mut out: Vec<Vec<char>> = Vec::new();
    let mut i: usize = 0;
    while i < v.len()
        invariant
            i <= v.len(),
            lines(v@) == rows(out@) + lines_from(v@, i as nat),
        decreases v.len() - i,
    {
        let start = i;
        while i < v.len() && v[i] != '\n'
            invariant
                start <= i <= v.len(),
                line_end(v@, start as nat) == line_end(v@, i as nat),
            decreases v.len() - i,
        {
            i += 1;
        }
        let ghost before = rows(out@);
        if i >= v.len() {
            let line = subvec(v, start, i);
            out.push(line);
            assert(rows(out@) == before + seq![v@.subrange(start as int, v.len() as int)]);
            assert(lines_from(v@, i as nat) == Seq::<Seq<char>>::empty());
        } else {
            let end = if i > start && v[i - 1] == '\r' {
                i - 1
            } else {
                i
            };
            let line = subvec(v, start, end);
            assert(line@ == without_cr(v@.subrange(start as int, i as int)));
            out.push(line);
            assert(rows(out@) == before + seq![without_cr(v@.subrange(start as int, i as int))]);
            i += 1;
        }
    }
    out
}


/// The lower-case form of a text, as the standard library computes it
/// (`str::to_lowercase`: Unicode's `Lowercase` mapping, which may change the
/// number of characters).
pub uninterp spec fn lowercase_of(s: Seq<char>) -> Seq<char>;

/// The lower-case form of `s`.
///
/// Trusted: this is `str::to_lowercase` of the standard library. The result
/// depends on the text alone; the contract gives it the name `lowercase_of`
/// and says nothing more of it.
#[verifier::external_body]
pub(crate) fn to_lowercase(s: &str) -> (r: String)
    ensures
        r@ == lowercase_of(s@),
{
    s.to_lowercase()
}

/// `a` followed by `b`.
pub fn concat2(a: &str, b: &str) -> (out: String)
    ensures
        out@ == a@ + b@,
{
    let mut buf: Vec<char> = Vec::new();
    append_str(&mut buf, a);
    append_str(&mut buf, b);
    string_of(&buf)
}

/// `a`, `b` and `c` in a row.
pub fn concat3(a: &str, b: &str, c: &str) -> (out: String)
    ensures
        out@ == a@ + b@ + c@,
{
    let mut buf: Vec<char> = Vec::new();
    append_str(&mut buf, a);
    append_str(&mut buf, b);
    append_str(&mut buf, c);
    string_of(&buf)
}

} // verus!
