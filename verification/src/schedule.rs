//! What a request for a schedule asks for: a point in time or a recurring
//! schedule in the five fields of cron, and the name under which the
//! schedule is kept.

use vstd::prelude::*;
use crate::paste::contains_text;
use crate::text::{chars_of, concat2, split_words, string_of, texts, words};

verus! {

/// Whether the text `text` is a date with a time of day as the format
/// `format` of the `chrono` crate describes it.
pub uninterp spec fn is_time_in(text: Seq<char>, format: Seq<char>) -> bool;

/// Whether `text` is a date with a time of day in the format `format`.
///
/// Trusted: this is `chrono::NaiveDateTime::parse_from_str`, of which only
/// success or failure is kept. The contract names the result, which depends
/// on nothing but the two texts.
#[verifier::external_body]
fn reads_as_time(text: &str, format: &str) -> (r: bool)
    ensures
        r == is_time_in(text@, format@),
{
    chrono::NaiveDateTime::parse_from_str(text, format).is_ok()
}

/// The format in which a point in time is written: year, month and day,
/// then hour, minute and second.
pub open spec fn time_format() -> Seq<char> {
    "%Y-%m-%d %H:%M:%S"@
}

/// The kinds of schedule.
#[derive(Debug, Clone, Copy, PartialEq, Eq)]
pub enum ScheduleKind {
    /// Once, at a point in time.
    Absolute,
    /// Again and again, as five fields of cron say.
    Cron,
}

/// A schedule: its kind, and the point in time or the fields of cron.
#[derive(Debug, Clone, PartialEq, Eq)]
pub struct Schedule {
    pub kind: ScheduleKind,
    pub value: String,
}

/// What the request `at_value` asks for. `relative` is the point in time
/// that it stands for where it names a span of time from now; `readable`
/// says whether it reads as a point in time. A request of five words is a
/// schedule of cron. Nothing where the request is none of these.
pub open spec fn schedule_of(at_value: Seq<char>, relative: Option<Seq<char>>, readable: bool) -> Option<
    (ScheduleKind, Seq<char>),
> {
    match relative {
        Some(time) => Some((ScheduleKind::Absolute, time)),
        None => if words(at_value).len() == 5 {
            Some((ScheduleKind::Cron, at_value))
        } else if readable {
            Some((ScheduleKind::Absolute, at_value))
        } else {
            None
        },
    }
}

/// The kind and the value of an optional schedule.
pub open spec fn schedule_view(s: Option<Schedule>) -> Option<(ScheduleKind, Seq<char>)> {
    match s {
        Some(s) => Some((s.kind, s.value@)),
        None => None,
    }
}

/// Decides what the request `at_value` asks for, `readable` saying whether
/// it reads as a point in time.
pub fn classify_schedule(at_value: &str, relative: Option<String>, readable: bool) -> (r: Option<
    Schedule,
>)
    ensures
        schedule_view(r) == schedule_of(
            at_value@,
            match relative {
                Some(t) => Some(t@),
                None => None,
            },
            readable,
        ),
{
    match relative {
        Some(time) => Some(Schedule { kind: ScheduleKind::Absolute, value: time }),
        None => {
            let fields = split_words(&chars_of(at_value));
            assert(crate::text::rows(fields@).len() == fields@.len());
            if fields.len() == 5 {
                Some(Schedule { kind: ScheduleKind::Cron, value: String::from_str(at_value) })
            } else if readable {
                Some(Schedule { kind: ScheduleKind::Absolute, value: String::from_str(at_value) })
            } else {
                None
            }
        },
    }
}

/// Decides what the request `at_value` asks for: a point in time is
/// written as year, month and day, then hour, minute and second.
pub fn schedule_for(at_value: &str, relative: Option<String>) -> (r: Option<Schedule>)
    ensures
        schedule_view(r) == schedule_of(
            at_value@,
            match relative {
                Some(t) => Some(t@),
                None => None,
            },
            is_time_in(at_value@, time_format()),
        ),
{
    let readable = reads_as_time(at_value, "%Y-%m-%d %H:%M:%S");
    classify_schedule(at_value, relative, readable)
}

/// The word for the kind of schedule `kind`.
pub fn schedule_type_word(kind: ScheduleKind) -> (word: &'static str)
    ensures
        kind == ScheduleKind::Absolute ==> word@ == "absolute"@,
        kind == ScheduleKind::Cron ==> word@ == "cron"@,
{
    match kind {
        ScheduleKind::Absolute => "absolute",
        ScheduleKind::Cron => "cron",
    }
}

/// Whether a schedule runs once only, as far as that is said of it: it is
/// said of a schedule of cron alone.
pub fn once_of(kind: ScheduleKind, once: bool) -> (r: Option<bool>)
    ensures
        kind == ScheduleKind::Cron ==> r == Some(once),
        kind == ScheduleKind::Absolute ==> r is None,
{
    match kind {
        ScheduleKind::Cron => Some(once),
        ScheduleKind::Absolute => None,
    }
}

/// Whether a schedule runs once only after it was given the new kind
/// `kind`, `once` being what was said of it before: nothing is said of a
/// point in time; of a schedule of cron what was said before stands, and
/// where nothing was said it runs again and again.
pub fn once_after_update(kind: ScheduleKind, once: Option<bool>) -> (r: Option<bool>)
    ensures
        kind == ScheduleKind::Absolute ==> r is None,
        kind == ScheduleKind::Cron ==> r == Some(
            match once {
                Some(b) => b,
                None => false,
            },
        ),
{
    match kind {
        ScheduleKind::Absolute => None,
        ScheduleKind::Cron => match once {
            Some(b) => Some(b),
            None => Some(false),
        },
    }
}

/// What the user is told of a request that asks for nothing.
pub fn invalid_at_message(at_value: &str) -> (out: String)
    ensures
        out@ == "invalid --at value: "@ + at_value@,
{
    concat2("invalid --at value: ", at_value)
}

/// The hexadecimal digit of a number below 16, in upper case.
pub open spec fn upper_digit(n: nat) -> char {
    if n == 0 {
        '0'
    } else if n == 1 {
        '1'
    } else if n == 2 {
        '2'
    } else if n == 3 {
        '3'
    } else if n == 4 {
        '4'
    } else if n == 5 {
        '5'
    } else if n == 6 {
        '6'
    } else if n == 7 {
        '7'
    } else if n == 8 {
        '8'
    } else if n == 9 {
        '9'
    } else if n == 10 {
        'A'
    } else if n == 11 {
        'B'
    } else if n == 12 {
        'C'
    } else if n == 13 {
        'D'
    } else if n == 14 {
        'E'
    } else {
        'F'
    }
}

/// The last `digits` hexadecimal digits of `n`, in upper case.
pub open spec fn upper_hex(n: nat, digits: nat) -> Seq<char>
    decreases digits,
{
    if digits == 0 {
        Seq::empty()
    } else {
        upper_hex(n / 16, (digits - 1) as nat).push(upper_digit(n % 16))
    }
}

fn upper_digit_of(n: u32) -> (c: char)
    requires
        n < 16,
    ensures
        c == upper_digit(n as nat),
{
    if n == 0 {
        '0'
    } else if n == 1 {
        '1'
    } else if n == 2 {
        '2'
    } else if n == 3 {
        '3'
    } else if n == 4 {
        '4'
    } else if n == 5 {
        '5'
    } else if n == 6 {
        '6'
    } else if n == 7 {
        '7'
    } else if n == 8 {
        '8'
    } else if n == 9 {
        '9'
    } else if n == 10 {
        'A'
    } else if n == 11 {
        'B'
    } else if n == 12 {
        'C'
    } else if n == 13 {
        'D'
    } else if n == 14 {
        'E'
    } else {
        'F'
    }
}

fn append_upper_hex(out: &mut Vec<char>, n: u32, digits: u8)
    ensures
        final(out)@ == old(out)@ + upper_hex(n as nat, digits as nat),
    decreases digits,
{
    if digits == 0 {
        assert(out@ =~= old(out)@ + upper_hex(n as nat, 0));
    } else {
        append_upper_hex(out, n / 16, digits - 1);
        out.push(upper_digit_of(n % 16));
        assert(out@ =~= old(out)@ + upper_hex(n as nat, digits as nat));
    }
}

/// The digits of a number are as many as were asked for.
pub proof fn lemma_upper_hex_len(n: nat, digits: nat)
    ensures
        upper_hex(n, digits).len() == digits,
    decreases digits,
{
    if digits > 0 {
        lemma_upper_hex_len(n / 16, (digits - 1) as nat);
    }
}

/// The name of a schedule made from the number `n`: its eight hexadecimal
/// digits, in upper case.
pub fn schedule_id(n: u32) -> (id: String)
    ensures
        id@ == upper_hex(n as nat, 8),
        id@.len() == 8,
{
    let mut out: Vec<char> = Vec::new();
    append_upper_hex(&mut out, n, 8);
    proof {
        lemma_upper_hex_len(n as nat, 8);
        assert(out@ =~= upper_hex(n as nat, 8));
    }
    string_of(&out)
}

/// Whether no schedule of `existing` has the name `candidate`.
pub fn is_fresh_id(existing: &Vec<String>, candidate: &str) -> (r: bool)
    ensures
        r == !texts(existing@).contains(candidate@),
{
    !contains_text(existing, candidate)
}

} // verus!
