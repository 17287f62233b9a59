//! Small readers and writers of text that the program's entry point needs:
//! version numbers, the arguments of the background helper, quoting for the
//! shell, and the squeezing of blank lines.

use vstd::prelude::*;
use crate::text::{
    all_digits, all_whitespace, append_chars, append_str, char_is_whitespace, chars_of,
    digits_value, has_prefix, is_digit, is_whitespace, join_rows, joined, lines, rows, split_lines,
    starts_with, str_eq, string_of, subvec, trim, trim_chars, without_plus,
};

verus! {

/// The lines `ls` with every run of blank lines made into one empty line.
/// `after_blank` says whether the line before `ls` was blank.
pub open spec fn squeezed(ls: Seq<Seq<char>>, after_blank: bool) -> Seq<Seq<char>>
    decreases ls.len(),
{
    if ls.len() == 0 {
        Seq::empty()
    } else if all_whitespace(ls[0]) {
        if after_blank {
            squeezed(ls.drop_first(), true)
        } else {
            seq![Seq::<char>::empty()] + squeezed(ls.drop_first(), true)
        }
    } else {
        seq![ls[0]] + squeezed(ls.drop_first(), false)
    }
}

fn is_blank(line: &Vec<char>) -> (r: bool)
    ensures
        r == all_whitespace(line@),
{
    let mut i: usize = 0;
    while i < line.len()
        invariant
            i <= line.len(),
            forall|j: int| 0 <= j < i ==> is_whitespace(#[trigger] line@[j]),
        decreases line.len() - i,
    {
        if !char_is_whitespace(line[i]) {
            return false;
        }
        i += 1;
    }
    true
}

/// `text` with every run of lines that hold nothing but white space made
/// into one empty line. The lines are joined by line feeds.
pub fn normalize_consecutive_empty_lines(text: &str) -> (out: String)
    ensures
        out@ == joined(squeezed(lines(text@), false), "\n"@),
{
    let ls = split_lines(&chars_of(text));
    let mut kept: Vec<Vec<char>> = Vec::new();
    let mut prev_was_empty = false;
    let mut i: usize = 0;
    let ghost all = rows(ls@);
    assert(all.subrange(0, all.len() as int) == all);
    assert(rows(kept@) =~= Seq::<Seq<char>>::empty());
    while i < ls.len()
        invariant
            i <= ls.len(),
            all == rows(ls@),
            squeezed(all, false) == rows(kept@) + squeezed(
                all.subrange(i as int, all.len() as int),
                prev_was_empty,
            ),
        decreases ls.len() - i,
    {
        let ghost rest = all.subrange(i as int, all.len() as int);
        assert(rest[0] == ls@[i as int]@);
        assert(rest.drop_first() == all.subrange(i + 1, all.len() as int));
        let ghost before = rows(kept@);
        if is_blank(&ls[i]) {
            if !prev_was_empty {
                kept.push(Vec::new());
                assert(rows(kept@) == before.push(Seq::<char>::empty()));
                assert(before + (seq![Seq::<char>::empty()] + squeezed(rest.drop_first(), true))
                    == rows(kept@) + squeezed(rest.drop_first(), true));
            }
            prev_was_empty = true;
        } else {
            kept.push(crate::text::subvec(&ls[i], 0, ls[i].len()));
            assert(ls@[i as int]@.subrange(0, ls@[i as int]@.len() as int) == ls@[i as int]@);
            assert(rows(kept@) == before.push(ls@[i as int]@));
            assert(before + (seq![rest[0]] + squeezed(rest.drop_first(), false)) == rows(kept@)
                + squeezed(rest.drop_first(), false));
            prev_was_empty = false;
        }
        i += 1;
    }
    assert(all.subrange(all.len() as int, all.len() as int).len() == 0);
    assert(rows(kept@) + Seq::<Seq<char>>::empty() == rows(kept@));
    let joined_chars = join_rows(&kept, 0, "\n");
    assert(rows(kept@).subrange(0, kept.len() as int) == rows(kept@));
    string_of(&joined_chars)
}

/// The index of the first `c` of `s`, from `from` on.
pub open spec fn first_index_of(s: Seq<char>, c: char, from: int) -> Option<int>
    decreases s.len() - from,
{
    if from < 0 || from >= s.len() {
        None
    } else if s[from] == c {
        Some(from)
    } else {
        first_index_of(s, c, from + 1)
    }
}

/// The index of the last `c` among the first `upto` characters of `s`.
pub open spec fn last_index_of(s: Seq<char>, c: char, upto: int) -> Option<int>
    decreases upto,
{
    if upto <= 0 || upto > s.len() {
        None
    } else if s[upto - 1] == c {
        Some(upto - 1)
    } else {
        last_index_of(s, c, upto - 1)
    }
}

/// The version that a line of a package file gives: the line, white space
/// at its ends aside, starts with `version`, and the version is what stands
/// between its first and its last double quote.
pub open spec fn version_of_line(line: Seq<char>) -> Option<Seq<char>> {
    let t = trim(line);
    if starts_with(t, "version"@) {
        match (first_index_of(t, '"', 0), last_index_of(t, '"', t.len() as int)) {
            (Some(a), Some(b)) => if a < b {
                Some(t.subrange(a + 1, b))
            } else {
                None
            },
            _ => None,
        }
    } else {
        None
    }
}

/// The version given by the first of the lines `ls` that gives one.
pub open spec fn version_of_lines(ls: Seq<Seq<char>>) -> Option<Seq<char>>
    decreases ls.len(),
{
    if ls.len() == 0 {
        None
    } else {
        match version_of_line(ls[0]) {
            Some(v) => Some(v),
            None => version_of_lines(ls.drop_first()),
        }
    }
}

fn find_first(v: &Vec<char>, c: char) -> (r: Option<usize>)
    ensures
        r matches Some(i) ==> first_index_of(v@, c, 0) == Some(i as int) && i < v.len(),
        r is None ==> first_index_of(v@, c, 0) is None,
{
    let mut i: usize = 0;
    while i < v.len()
        invariant
            i <= v.len(),
            first_index_of(v@, c, 0) == first_index_of(v@, c, i as int),
        decreases v.len() - i,
    {
        if v[i] == c {
            return Some(i);
        }
        i += 1;
    }
    None
}

fn find_last(v: &Vec<char>, c: char) -> (r: Option<usize>)
    ensures
        r matches Some(i) ==> last_index_of(v@, c, v@.len() as int) == Some(i as int) && i
            < v.len(),
        r is None ==> last_index_of(v@, c, v@.len() as int) is None,
{
    let mut i: usize = v.len();
    while i > 0
        invariant
            i <= v.len(),
            last_index_of(v@, c, v@.len() as int) == last_index_of(v@, c, i as int),
        decreases i,
    {
        if v[i - 1] == c {
            return Some(i - 1);
        }
        i -= 1;
    }
    None
}

/// Reads the version out of the text of a package file: the first line that
/// starts with `version` and has its value in double quotes gives it.
pub fn parse_version_from_cargo_toml(content: &str) -> (r: Option<String>)
    ensures
        crate::archive_job::opt_text(r) == version_of_lines(lines(content@)),
{
    let ls = split_lines(&chars_of(content));
    let key = chars_of("version");
    let ghost all = rows(ls@);
    let mut i: usize = 0;
    assert(all.subrange(0, all.len() as int) == all);
    while i < ls.len()
        invariant
            i <= ls.len(),
            all == rows(ls@),
            all == lines(content@),
            key@ == "version"@,
            version_of_lines(all) == version_of_lines(all.subrange(i as int, all.len() as int)),
        decreases ls.len() - i,
    {
        let ghost rest = all.subrange(i as int, all.len() as int);
        assert(rest[0] == ls@[i as int]@);
        assert(rest.drop_first() == all.subrange(i + 1, all.len() as int));
        let t = trim_chars(&ls[i]);
        if has_prefix(&t, &key) {
            match (find_first(&t, '"'), find_last(&t, '"')) {
                (Some(a), Some(b)) => {
                    if a < b {
                        return Some(string_of(&subvec(&t, a + 1, b)));
                    }
                },
                _ => {},
            }
        }
        i += 1;
    }
    assert(all.subrange(all.len() as int, all.len() as int).len() == 0);
    None
}

/// The parts of `s` between its full stops, from index `from` on, where
/// `start` is the index at which the part at hand began.
pub open spec fn dot_parts(s: Seq<char>, start: int, from: int) -> Seq<Seq<char>>
    decreases s.len() - from,
{
    if from < start || start < 0 {
        Seq::empty()
    } else if from >= s.len() {
        seq![s.subrange(start, s.len() as int)]
    } else if s[from] == '.' {
        seq![s.subrange(start, from)] + dot_parts(s, from + 1, from + 1)
    } else {
        dot_parts(s, start, from + 1)
    }
}

/// The number that `s` writes, as a 32-bit number: an optional `+`, then
/// one or more digits whose value fits.
pub open spec fn parse_u32(s: Seq<char>) -> Option<u32> {
    let body = without_plus(s);
    if body.len() > 0 && all_digits(body) && digits_value(body) <= u32::MAX {
        Some(digits_value(body) as u32)
    } else {
        None
    }
}

/// The numbers among `parts`, in order; a part that writes no number is
/// passed over.
pub open spec fn numbers_of(parts: Seq<Seq<char>>) -> Seq<u32>
    decreases parts.len(),
{
    if parts.len() == 0 {
        Seq::empty()
    } else {
        match parse_u32(parts.last()) {
            Some(n) => numbers_of(parts.drop_last()).push(n),
            None => numbers_of(parts.drop_last()),
        }
    }
}

/// The numbers of a version: those among its parts between full stops.
pub open spec fn version_numbers(v: Seq<char>) -> Seq<u32> {
    numbers_of(dot_parts(v, 0, 0))
}

/// The `i`-th number of a version; 0 where it has none.
pub open spec fn number_at(v: Seq<u32>, i: int) -> u32 {
    if 0 <= i < v.len() {
        v[i]
    } else {
        0
    }
}

/// Whether the version `a` is later than `b`, going by their numbers from
/// index `i` on: the first number that differs decides.
pub open spec fn later_from(a: Seq<u32>, b: Seq<u32>, i: int) -> bool
    decreases a.len() + b.len() - i,
{
    if i < 0 || (i >= a.len() && i >= b.len()) {
        false
    } else if number_at(a, i) > number_at(b, i) {
        true
    } else if number_at(a, i) < number_at(b, i) {
        false
    } else {
        later_from(a, b, i + 1)
    }
}

fn parse_u32_chars(v: &Vec<char>) -> (r: Option<u32>)
    ensures
        r == parse_u32(v@),
{
    match crate::text::parse_u64_chars(v) {
        Some(n) => {
            if n <= 0xFFFF_FFFF {
                Some(n as u32)
            } else {
                None
            }
        },
        None => {
            proof {
                let body = without_plus(v@);
                if body.len() > 0 && all_digits(body) {
                    assert(digits_value(body) > u64::MAX);
                }
            }
            None
        },
    }
}

fn numbers(version: &str) -> (out: Vec<u32>)
    ensures
        out@ == version_numbers(version@),
{
    let v = chars_of(version);
    let mut parts: Vec<Vec<char>> = Vec::new();
    let mut start: usize = 0;
    let mut i: usize = 0;
    assert(rows(parts@) =~= Seq::<Seq<char>>::empty());
    while i < v.len()
        invariant
            start <= i <= v.len(),
            dot_parts(v@, 0, 0) == rows(parts@) + dot_parts(v@, start as int, i as int),
        decreases v.len() - i,
    {
        if v[i] == '.' {
            let ghost before = rows(parts@);
            parts.push(subvec(&v, start, i));
            assert(rows(parts@) == before.push(v@.subrange(start as int, i as int)));
            assert(before + (seq![v@.subrange(start as int, i as int)] + dot_parts(
                v@,
                i + 1,
                i + 1,
            )) == rows(parts@) + dot_parts(v@, i + 1, i + 1));
            start = i + 1;
        }
        i += 1;
    }
    let ghost before = rows(parts@);
    parts.push(subvec(&v, start, v.len()));
    assert(rows(parts@) == before.push(v@.subrange(start as int, v.len() as int)));
    assert(rows(parts@) == dot_parts(v@, 0, 0));
    let mut out: Vec<u32> = Vec::new();
    let mut k: usize = 0;
    let ghost all = rows(parts@);
    assert(all.subrange(0, 0) =~= Seq::<Seq<char>>::empty());
    while k < parts.len()
        invariant
            k <= parts.len(),
            all == rows(parts@),
            out@ == numbers_of(all.subrange(0, k as int)),
        decreases parts.len() - k,
    {
        assert(all.subrange(0, k + 1).drop_last() == all.subrange(0, k as int));
        assert(all.subrange(0, k + 1).last() == parts@[k as int]@);
        match parse_u32_chars(&parts[k]) {
            Some(n) => {
                out.push(n);
            },
            None => {},
        }
        k += 1;
    }
    assert(all.subrange(0, parts.len() as int) == all);
    out
}

/// Whether the version `latest` is later than `current`. A version is a row
/// of numbers with full stops between them; a number that is missing counts
/// as 0, and what is no number is passed over.
pub fn is_newer_version(latest: &str, current: &str) -> (r: bool)
    ensures
        r == later_from(version_numbers(latest@), version_numbers(current@), 0),
{
    let a = numbers(latest);
    let b = numbers(current);
    let n = if a.len() >= b.len() {
        a.len()
    } else {
        b.len()
    };
    let mut i: usize = 0;
    while i < n
        invariant
            i <= n,
            n >= a.len(),
            n >= b.len(),
            n == a.len() || n == b.len(),
            a@ == version_numbers(latest@),
            b@ == version_numbers(current@),
            later_from(a@, b@, 0) == later_from(a@, b@, i as int),
        decreases n - i,
    {
        let x: u32 = if i < a.len() {
            a[i]
        } else {
            0
        };
        let y: u32 = if i < b.len() {
            b[i]
        } else {
            0
        };
        if x > y {
            return true;
        } else if x < y {
            return false;
        }
        i += 1;
    }
    false
}

/// The version to tell the user of: the one that the package file
/// `fetched` gives, where there is such a file, it gives one, and that one
/// is later than `current`.
pub open spec fn update_of(fetched: Option<Seq<char>>, current: Seq<char>) -> Option<Seq<char>> {
    match fetched {
        Some(content) => match version_of_lines(lines(content)) {
            Some(latest) => if later_from(version_numbers(latest), version_numbers(current), 0) {
                Some(latest)
            } else {
                None
            },
            None => None,
        },
        None => None,
    }
}

/// Decides whether the user is told of a new version: `fetched` is the
/// package file of the newest version, where it could be fetched, and
/// `current_version` the version that runs. Returns the version to tell of.
pub fn check_for_updates(fetched: Option<&str>, current_version: &str) -> (r: Option<String>)
    ensures
        crate::archive_job::opt_text(r) == update_of(
            match fetched {
                Some(c) => Some(c@),
                None => None,
            },
            current_version@,
        ),
{
    match fetched {
        Some(content) => match parse_version_from_cargo_toml(content) {
            Some(latest) => if is_newer_version(latest.as_str(), current_version) {
                Some(latest)
            } else {
                None
            },
            None => None,
        },
        None => None,
    }
}

/// `s` with every single quote written as `'\''`: the quote that ends the
/// quoted text, a quote with a backslash before it, and the quote that
/// takes the quoted text up again.
pub open spec fn quotes_escaped(s: Seq<char>) -> Seq<char>
    decreases s.len(),
{
    if s.len() == 0 {
        Seq::empty()
    } else if s.last() == '\'' {
        quotes_escaped(s.drop_last()) + "'\\''"@
    } else {
        quotes_escaped(s.drop_last()).push(s.last())
    }
}

/// `s` as one word for the shell: in single quotes, with every single quote
/// of its own written so that the shell reads it as a quote.
pub fn shell_escape(s: &str) -> (out: String)
    ensures
        out@ == "'"@ + quotes_escaped(s@) + "'"@,
{
    let v = chars_of(s);
    let mut body: Vec<char> = Vec::new();
    let mut i: usize = 0;
    assert(v@.subrange(0, 0) =~= Seq::<char>::empty());
    while i < v.len()
        invariant
            i <= v.len(),
            body@ == quotes_escaped(v@.subrange(0, i as int)),
        decreases v.len() - i,
    {
        assert(v@.subrange(0, i + 1).drop_last() == v@.subrange(0, i as int));
        assert(v@.subrange(0, i + 1).last() == v@[i as int]);
        if v[i] == '\'' {
            append_str(&mut body, "'\\''");
        } else {
            body.push(v[i]);
        }
        i += 1;
    }
    assert(v@.subrange(0, v.len() as int) == v@);
    let mut out: Vec<char> = Vec::new();
    append_str(&mut out, "'");
    append_chars(&mut out, &body);
    append_str(&mut out, "'");
    string_of(&out)
}

/// The whole number that `s` writes, as a signed 64-bit number: an optional
/// `+` or `-`, then one or more digits whose value fits.
pub open spec fn parse_i64(s: Seq<char>) -> Option<i64> {
    if s.len() > 0 && s[0] == '-' {
        let body = s.drop_first();
        if body.len() > 0 && all_digits(body) && digits_value(body) <= 0x8000_0000_0000_0000 {
            Some((-(digits_value(body) as int)) as i64)
        } else {
            None
        }
    } else {
        let body = without_plus(s);
        if body.len() > 0 && all_digits(body) && digits_value(body) <= i64::MAX {
            Some(digits_value(body) as i64)
        } else {
            None
        }
    }
}

fn parse_i64_chars(v: &Vec<char>) -> (r: Option<i64>)
    ensures
        r == parse_i64(v@),
{
    if v.len() > 0 && v[0] == '-' {
        let body = subvec(v, 1, v.len());
        assert(body@ == v@.drop_first());
        if body.len() > 0 && body[0] == '+' {
            assert(!is_digit(body@[0]));
            return None;
        }
        assert(without_plus(body@) == body@);
        match crate::text::parse_u64_chars(&body) {
            Some(n) => {
                if n <= 0x7FFF_FFFF_FFFF_FFFF {
                    Some(-(n as i64))
                } else if n == 0x8000_0000_0000_0000 {
                    Some(i64::MIN)
                } else {
                    None
                }
            },
            None => None,
        }
    } else {
        match crate::text::parse_u64_chars(v) {
            Some(n) => {
                if n <= 0x7FFF_FFFF_FFFF_FFFF {
                    Some(n as i64)
                } else {
                    None
                }
            },
            None => None,
        }
    }
}

/// What the background helper is told on its command line about the
/// schedule it has to fill in.
#[derive(Debug, Clone, PartialEq, Eq)]
pub struct CronContextArgs {
    pub id: String,
    pub session_id: String,
    pub prompt: String,
    pub current_path: String,
    pub chat_id: i64,
    pub hash_key: String,
    pub schedule: String,
    pub schedule_type: String,
    pub once: bool,
    pub created_at: String,
}

impl CronContextArgs {
    /// Reads the helper's arguments: ten words or more, in the order of the
    /// fields. The chat is 0 where its word is no number; `once` holds where
    /// its word is `1`. `None` for fewer than ten words.
    pub fn from_args(args: &[String]) -> (r: Option<CronContextArgs>)
        ensures
            r is Some <==> args@.len() >= 10,
            r matches Some(c) ==> {
                &&& c.id@ == args@[0]@
                &&& c.session_id@ == args@[1]@
                &&& c.prompt@ == args@[2]@
                &&& c.current_path@ == args@[3]@
                &&& c.chat_id == (match parse_i64(args@[4]@) {
                    Some(n) => n,
                    None => 0i64,
                })
                &&& c.hash_key@ == args@[5]@
                &&& c.schedule@ == args@[6]@
                &&& c.schedule_type@ == args@[7]@
                &&& c.once == (args@[8]@ == "1"@)
                &&& c.created_at@ == args@[9]@
            },
    {
        if args.len() < 10 {
            return None;
        }
        let chat_id = match parse_i64_chars(&chars_of(args[4].as_str())) {
            Some(n) => n,
            None => 0,
        };
        Some(
            CronContextArgs {
                id: args[0].clone(),
                session_id: args[1].clone(),
                prompt: args[2].clone(),
                current_path: args[3].clone(),
                chat_id,
                hash_key: args[5].clone(),
                schedule: args[6].clone(),
                schedule_type: args[7].clone(),
                once: str_eq(args[8].as_str(), "1"),
                created_at: args[9].clone(),
            },
        )
    }
}

} // verus!
