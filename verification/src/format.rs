//! Text for the panels: cutting strings where a character ends, sizes and
//! permissions in words, and cutting or filling a text to a number of
//! terminal columns.

use vstd::prelude::*;
use vstd::utf8::{encode_utf8, is_char_boundary};
use unicode_width::{UnicodeWidthChar, UnicodeWidthStr};
use crate::text::{
    append_decimal, append_str, chars_of, decimal, string_of, subvec, trim_end, trim_end_chars,
};

verus! {

/// The bytes of a text in UTF-8.
pub open spec fn bytes_of(s: Seq<char>) -> Seq<u8> {
    encode_utf8(s)
}

/// The last place at or before `index` where a character of `bytes` starts
/// or the text ends.
pub open spec fn floor_boundary(bytes: Seq<u8>, index: int) -> int
    decreases index,
{
    if index <= 0 {
        0
    } else if is_char_boundary(bytes, index) {
        index
    } else {
        floor_boundary(bytes, index - 1)
    }
}

/// The first place at or after `index` where a character of `bytes` starts
/// or the text ends.
pub open spec fn ceil_boundary(bytes: Seq<u8>, index: int) -> int
    decreases bytes.len() - index,
{
    if index >= bytes.len() {
        bytes.len() as int
    } else if is_char_boundary(bytes, index) {
        index
    } else {
        ceil_boundary(bytes, index + 1)
    }
}

/// The byte index `index` moved back to where a character starts; the
/// length of `s` in bytes where `index` is at or past the end.
pub fn floor_char_boundary(s: &str, index: usize) -> (r: usize)
    ensures
        index >= bytes_of(s@).len() ==> r == bytes_of(s@).len(),
        index < bytes_of(s@).len() ==> r == floor_boundary(bytes_of(s@), index as int),
        r <= bytes_of(s@).len(),
        is_char_boundary(bytes_of(s@), r as int),
{
    broadcast use vstd::utf8::group_utf8_lib;

    let n = s.as_bytes().len();
    if index >= n {
        return n;
    }
    let mut i: usize = index;
    while i > 0 && !s.is_char_boundary(i)
        invariant
            i <= index < bytes_of(s@).len(),
            floor_boundary(bytes_of(s@), index as int) == floor_boundary(bytes_of(s@), i as int),
        decreases i,
    {
        i -= 1;
    }
    i
}

/// The byte index `index` moved forward to where a character starts; the
/// length of `s` in bytes where `index` is at or past the end.
pub fn ceil_char_boundary(s: &str, index: usize) -> (r: usize)
    ensures
        r == ceil_boundary(bytes_of(s@), index as int),
        r <= bytes_of(s@).len(),
        is_char_boundary(bytes_of(s@), r as int),
{
    broadcast use vstd::utf8::group_utf8_lib;

    let n = s.as_bytes().len();
    if index >= n {
        return n;
    }
    let mut i: usize = index;
    while i < n && !s.is_char_boundary(i)
        invariant
            n == bytes_of(s@).len(),
            index <= i <= bytes_of(s@).len(),
            ceil_boundary(bytes_of(s@), index as int) == ceil_boundary(bytes_of(s@), i as int),
        decreases bytes_of(s@).len() - i,
    {
        i += 1;
    }
    i
}

/// The end of `s`: at most `max_bytes` bytes of it, starting where a
/// character starts. All of `s` where it is no longer than that.
pub fn safe_suffix(s: &str, max_bytes: usize) -> (r: &str)
    ensures
        bytes_of(s@).len() <= max_bytes ==> r@ == s@,
        bytes_of(s@).len() > max_bytes ==> bytes_of(r@) == bytes_of(s@).subrange(
            ceil_boundary(bytes_of(s@), bytes_of(s@).len() - max_bytes),
            bytes_of(s@).len() as int,
        ),
{
    let n = s.as_bytes().len();
    if n <= max_bytes {
        return s;
    }
    let start = n - max_bytes;
    let boundary = ceil_char_boundary(s, start);
    s.split_at(boundary).1
}

/// The start of `s`: at most `max_bytes` bytes of it, ending where a
/// character ends. All of `s` where it is no longer than that.
pub fn safe_prefix(s: &str, max_bytes: usize) -> (r: &str)
    ensures
        bytes_of(s@).len() <= max_bytes ==> r@ == s@,
        bytes_of(s@).len() > max_bytes ==> bytes_of(r@) == bytes_of(s@).subrange(
            0,
            floor_boundary(bytes_of(s@), max_bytes as int),
        ),
{
    if s.as_bytes().len() <= max_bytes {
        return s;
    }
    let boundary = floor_char_boundary(s, max_bytes);
    s.split_at(boundary).0
}

/// Cuts `s` down to at most `max_bytes` bytes, ending where a character
/// ends. Leaves `s` alone where it is no longer than that.
pub fn safe_truncate(s: &mut String, max_bytes: usize)
    ensures
        bytes_of(old(s)@).len() <= max_bytes ==> final(s)@ == old(s)@,
        bytes_of(old(s)@).len() > max_bytes ==> bytes_of(final(s)@) == bytes_of(old(s)@).subrange(
            0,
            floor_boundary(bytes_of(old(s)@), max_bytes as int),
        ),
{
    if s.as_str().as_bytes().len() > max_bytes {
        let boundary = floor_char_boundary(s.as_str(), max_bytes);
        let head = s.as_str().split_at(boundary).0.to_owned();
        *s = head;
    }
}


/// `num / den` rounded to the nearest whole number, halves to the even one.
pub open spec fn round_half_even(num: nat, den: nat) -> nat {
    let q = num / den;
    let r = num % den;
    if 2 * r > den || (2 * r == den && q % 2 == 1) {
        q + 1
    } else {
        q
    }
}

/// The smallest power of two, from `unit` on, that `n` divided by leaves
/// fewer than 54 binary digits.
pub open spec fn double_unit(n: nat, unit: nat) -> nat
    decreases n / unit,
{
    if unit == 0 || n / unit < 0x20_0000_0000_0000 {
        unit
    } else if n / (2 * unit) < n / unit {
        double_unit(n, 2 * unit)
    } else {
        unit
    }
}

/// `n` as a double-precision number holds it: `n` itself where it has at
/// most 53 binary digits, else the nearest number that has, halves to even.
pub open spec fn as_double(n: nat) -> nat {
    let unit = double_unit(n, 1);
    round_half_even(n, unit) * unit
}

/// `n / unit` with one digit behind the point, rounded halves to even.
pub open spec fn one_decimal(n: nat, unit: nat) -> Seq<char> {
    let tenths = round_half_even(as_double(n) * 10, unit);
    decimal(tenths / 10) + "."@ + decimal(tenths % 10)
}

/// A size in words: in bytes below 1024, else in the largest of KB, MB and
/// GB (each 1024 of the one before) that is not above it, with one digit
/// behind the point.
pub open spec fn size_text(bytes: u64) -> Seq<char> {
    if bytes < 1024 {
        decimal(bytes as nat) + " B"@
    } else if bytes < 1024 * 1024 {
        one_decimal(bytes as nat, 1024) + " KB"@
    } else if bytes < 1024 * 1024 * 1024 {
        one_decimal(bytes as nat, 1024 * 1024) + " MB"@
    } else {
        one_decimal(bytes as nat, 1024 * 1024 * 1024) + " GB"@
    }
}

fn rounded_div(num: u128, den: u128) -> (r: u128)
    requires
        den > 0,
        num <= 0xFFFF_FFFF_FFFF_FFFF_FFFF,
        den <= 0xFFFF_FFFF_FFFF,
    ensures
        r == round_half_even(num as nat, den as nat),
{
    let q = num / den;
    let r = num % den;
    if 2 * r > den || (2 * r == den && q % 2 == 1) {
        q + 1
    } else {
        q
    }
}

fn to_double(n: u64) -> (r: u128)
    ensures
        r == as_double(n as nat),
        r <= 0x4_0000_0000_0000_0000,
{
    let wide = n as u128;
    let mut unit: u128 = 1;
    while wide / unit >= 0x20_0000_0000_0000
        invariant
            1 <= unit <= 4096,
            wide == n,
            double_unit(n as nat, 1) == double_unit(n as nat, unit as nat),
        decreases 8192 - unit,
    {
        let ghost w = wide as int;
        let ghost u = unit as int;
        assert(w / (2 * u) < w / u && u < 2048) by (nonlinear_arith)
            requires
                w / u >= 0x20_0000_0000_0000,
                0 <= w <= 0xFFFF_FFFF_FFFF_FFFF,
                u >= 1,
        ;
        unit = unit * 2;
    }
    let q = rounded_div(wide, unit);
    let ghost w = wide as int;
    let ghost u = unit as int;
    assert(q * unit <= 0x4_0000_0000_0000_0000) by (nonlinear_arith)
        requires
            q <= w / u + 1,
            0 <= w <= 0xFFFF_FFFF_FFFF_FFFF,
            1 <= u <= 4096,
            u == unit,
            w / u < 0x20_0000_0000_0000,
    ;
    q * unit
}

/// Appends `bytes / unit` with one digit behind the point to `out`.
pub(crate) fn append_one_decimal(out: &mut Vec<char>, bytes: u64, unit: u128)
    requires
        0 < unit <= 0x4000_0000,
    ensures
        final(out)@ == old(out)@ + one_decimal(bytes as nat, unit as nat),
{
    let value = to_double(bytes);
    let tenths = rounded_div(value * 10, unit);
    append_decimal(out, tenths / 10);
    append_str(out, ".");
    append_decimal(out, tenths % 10);
}

/// A size in words, as a person reads it: `512 B`, `1.5 KB`, `1.0 GB`.
pub fn format_size(bytes: u64) -> (s: String)
    ensures
        s@ == size_text(bytes),
{
    let mut out: Vec<char> = Vec::new();
    if bytes < 1024 {
        append_decimal(&mut out, bytes as u128);
        append_str(&mut out, " B");
    } else if bytes < 1024 * 1024 {
        append_one_decimal(&mut out, bytes, 1024);
        append_str(&mut out, " KB");
    } else if bytes < 1024 * 1024 * 1024 {
        append_one_decimal(&mut out, bytes, 1024 * 1024);
        append_str(&mut out, " MB");
    } else {
        append_one_decimal(&mut out, bytes, 1024 * 1024 * 1024);
        append_str(&mut out, " GB");
    }
    string_of(&out)
}

/// The three letters for the rights that the three bits of `bits` grant:
/// read, write, execute, with `-` for a right not granted.
pub open spec fn rights_of(bits: nat) -> Seq<char> {
    seq![
        if (bits / 4) % 2 == 1 {
            'r'
        } else {
            '-'
        },
        if (bits / 2) % 2 == 1 {
            'w'
        } else {
            '-'
        },
        if bits % 2 == 1 {
            'x'
        } else {
            '-'
        },
    ]
}

/// The nine letters for the rights of owner, group and others in `mode`.
pub open spec fn permissions_of(mode: u32) -> Seq<char> {
    rights_of(((mode / 64) % 8) as nat) + rights_of(((mode / 8) % 8) as nat) + rights_of(
        (mode % 8) as nat,
    )
}

fn append_rights(out: &mut Vec<char>, bits: u32)
    ensures
        final(out)@ == old(out)@ + rights_of(bits as nat),
{
    let ghost before = out@;
    out.push(if (bits / 4) % 2 == 1 {
        'r'
    } else {
        '-'
    });
    out.push(if (bits / 2) % 2 == 1 {
        'w'
    } else {
        '-'
    });
    out.push(if bits % 2 == 1 {
        'x'
    } else {
        '-'
    });
    assert(out@ == before + rights_of(bits as nat));
}

/// The rights in `mode` as nine letters: `rwxr-xr-x` for 755 in octal.
pub fn format_permissions_short(mode: u32) -> (s: String)
    ensures
        s@ == permissions_of(mode),
{
    let mut out: Vec<char> = Vec::new();
    append_rights(&mut out, (mode / 64) % 8);
    append_rights(&mut out, (mode / 8) % 8);
    append_rights(&mut out, mode % 8);
    string_of(&out)
}

/// `n` written in octal, without sign or leading zeros.
pub open spec fn octal(n: nat) -> Seq<char>
    decreases n,
{
    if n < 8 {
        seq![crate::text::digit_char(n)]
    } else {
        octal(n / 8).push(crate::text::digit_char(n % 8))
    }
}

fn append_octal(out: &mut Vec<char>, n: u32)
    ensures
        final(out)@ == old(out)@ + octal(n as nat),
    decreases n,
{
    if n >= 8 {
        append_octal(out, n / 8);
    }
    let ghost before = out@;
    let mut digit: Vec<char> = Vec::new();
    append_decimal(&mut digit, (n % 8) as u128);
    assert(digit@ == seq![crate::text::digit_char((n % 8) as nat)]);
    out.push(digit[0]);
}

/// The letter for the kind of file in `mode`: `d` for a directory, `l` for
/// a link, `-` for anything else.
pub open spec fn kind_letter(mode: u32) -> char {
    if (mode / 4096) % 16 == 4 {
        'd'
    } else if (mode / 4096) % 16 == 10 {
        'l'
    } else {
        '-'
    }
}

/// The kind and the rights in `mode` as ten letters, then the rights in
/// octal in brackets: `drwxr-xr-x (755)`.
pub fn format_permissions(mode: u32) -> (s: String)
    ensures
        s@ == seq![kind_letter(mode)] + permissions_of(mode) + " ("@ + octal((mode % 512) as nat)
            + ")"@,
{
    let mut out: Vec<char> = Vec::new();
    let kind = (mode / 4096) % 16;
    out.push(if kind == 4 {
        'd'
    } else if kind == 10 {
        'l'
    } else {
        '-'
    });
    assert(out@ == seq![kind_letter(mode)]);
    append_rights(&mut out, (mode / 64) % 8);
    append_rights(&mut out, (mode / 8) % 8);
    append_rights(&mut out, mode % 8);
    append_str(&mut out, " (");
    append_octal(&mut out, mode % 512);
    append_str(&mut out, ")");
    string_of(&out)
}


/// The number of terminal columns that a character from U+00A0 on takes,
/// as the tables of the `unicode-width` crate tell it.
pub uninterp spec fn wide_width_of(c: char) -> usize;

/// The number of terminal columns that a character takes, as the
/// `unicode-width` crate tells it; `None` for a control character. The
/// characters from U+0020 to U+007E take one column; those below U+0020 and
/// from U+007F to U+009F are control characters; for every other character
/// the tables of the crate decide.
pub open spec fn char_width_of(c: char) -> Option<usize> {
    if (c as u32) < 0x20 {
        None
    } else if (c as u32) < 0x7f {
        Some(1usize)
    } else if (c as u32) < 0xa0 {
        None
    } else {
        Some(wide_width_of(c))
    }
}

/// The number of terminal columns that a text takes, as the `unicode-width`
/// crate tells it. This is not always the sum over its characters: some
/// sequences of characters are drawn as one.
pub uninterp spec fn str_width_of(s: Seq<char>) -> usize;

/// The number of terminal columns that `c` takes.
///
/// Trusted: this is `UnicodeWidthChar::width` of the `unicode-width` crate.
/// The contract says what the crate's source shows of it: one column for
/// the characters from U+0020 to U+007E, nothing for the control characters
/// below U+0020 and from U+007F to U+009F, and for every character from
/// U+00A0 on the width that the crate's tables hold, to which the contract
/// gives the name `wide_width_of` and of which it says nothing more.
#[verifier::external_body]
pub(crate) fn char_width(c: char) -> (w: Option<usize>)
    ensures
        w == char_width_of(c),
        (c as u32) >= 0xa0 ==> w == Some(wide_width_of(c)),
{
    c.width()
}

/// The number of terminal columns that `s` takes.
///
/// Trusted: this is `UnicodeWidthStr::width` of the `unicode-width` crate,
/// which depends on the text alone. The contract gives the result the name
/// `str_width_of` and says nothing more of it.
#[verifier::external_body]
pub(crate) fn str_width(s: &str) -> (w: usize)
    ensures
        w == str_width_of(s@),
{
    s.width()
}

/// The columns that `c` takes, with `default` for a control character.
pub open spec fn columns(c: char, default: nat) -> nat {
    match char_width_of(c) {
        Some(w) => w as nat,
        None => default,
    }
}

/// `n` spaces.
pub open spec fn spaces(n: nat) -> Seq<char> {
    Seq::new(n, |i: int| ' ')
}

/// How many characters from the start of `s` fit into `room` columns, a
/// control character counted as one column.
pub open spec fn fitting(s: Seq<char>, room: nat) -> nat
    decreases s.len(),
{
    if s.len() == 0 || columns(s[0], 1) > room {
        0
    } else {
        1 + fitting(s.drop_first(), (room - columns(s[0], 1)) as nat)
    }
}

/// The columns that the characters of `s` take in all, a control character
/// counted as one column.
pub open spec fn columns_sum(s: Seq<char>) -> nat
    decreases s.len(),
{
    if s.len() == 0 {
        0
    } else {
        columns(s[0], 1) + columns_sum(s.drop_first())
    }
}

/// `s` cut to `max_width` columns: the characters from its start that fit,
/// then spaces up to `max_width`.
pub open spec fn cut_to_width(s: Seq<char>, max_width: nat) -> Seq<char> {
    let head = s.subrange(0, fitting(s, max_width) as int);
    head + spaces((max_width - columns_sum(head)) as nat)
}

/// A character from U+0020 to U+007E takes one column, and so does, as the
/// library counts, a control character.
pub proof fn lemma_plain_characters_take_one_column(c: char)
    requires
        (c as u32) < 0xa0,
    ensures
        columns(c, 1) == 1,
{
}

/// Spaces take one column each.
pub proof fn lemma_columns_of_spaces(n: nat)
    ensures
        columns_sum(spaces(n)) == n,
    decreases n,
{
    if n > 0 {
        assert(spaces(n).drop_first() =~= spaces((n - 1) as nat));
        lemma_columns_of_spaces((n - 1) as nat);
    }
}

/// The columns of two texts, one after the other, add up.
pub proof fn lemma_columns_sum_add(a: Seq<char>, b: Seq<char>)
    ensures
        columns_sum(a + b) == columns_sum(a) + columns_sum(b),
    decreases a.len(),
{
    if a.len() == 0 {
        assert(a + b =~= b);
    } else {
        assert((a + b).drop_first() =~= a.drop_first() + b);
        lemma_columns_sum_add(a.drop_first(), b);
    }
}

/// A text cut to a width takes exactly that many columns, character by
/// character: what fits of it, and spaces for the rest.
pub proof fn lemma_cut_is_exactly_wide(s: Seq<char>, max_width: nat)
    ensures
        columns_sum(cut_to_width(s, max_width)) == max_width,
{
    lemma_fitting(s, max_width);
    let head = s.subrange(0, fitting(s, max_width) as int);
    lemma_columns_sum_add(head, spaces((max_width - columns_sum(head)) as nat));
    lemma_columns_of_spaces((max_width - columns_sum(head)) as nat);
}

/// A text of characters below U+00A0 takes as many columns, character by
/// character, as it has characters; so what is cut from it to a width is
/// its first characters up to that width, filled up with spaces.
pub proof fn lemma_plain_text_columns(s: Seq<char>, room: nat)
    requires
        forall|i: int| 0 <= i < s.len() ==> (#[trigger] s[i] as u32) < 0xa0,
    ensures
        columns_sum(s) == s.len(),
        fitting(s, room) == (if s.len() <= room {
            s.len()
        } else {
            room
        }),
    decreases s.len(),
{
    if s.len() > 0 {
        assert forall|i: int| 0 <= i < s.drop_first().len() implies (
        #[trigger] s.drop_first()[i] as u32) < 0xa0 by {
            assert(s.drop_first()[i] == s[i + 1]);
        }
        lemma_plain_text_columns(s.drop_first(), (room - 1) as nat);
    }
}

/// What fits is part of the text, and takes no more columns than there is
/// room: a text cut to a width is never wider than that.
pub proof fn lemma_fitting(s: Seq<char>, room: nat)
    ensures
        fitting(s, room) <= s.len(),
        columns_sum(s.subrange(0, fitting(s, room) as int)) <= room,
    decreases s.len(),
{
    if s.len() == 0 || columns(s[0], 1) > room {
        assert(s.subrange(0, 0).len() == 0);
    } else {
        let rest = s.drop_first();
        let room2 = (room - columns(s[0], 1)) as nat;
        lemma_fitting(rest, room2);
        let k = fitting(rest, room2);
        assert(s.subrange(0, k as int + 1).drop_first() == rest.subrange(0, k as int));
    }
}

fn append_spaces(out: &mut Vec<char>, n: usize)
    ensures
        final(out)@ == old(out)@ + spaces(n as nat),
{
    let ghost before = out@;
    let mut i: usize = 0;
    assert(out@ == before + spaces(0));
    while i < n
        invariant
            i <= n,
            out@ == before + spaces(i as nat),
        decreases n - i,
    {
        out.push(' ');
        i += 1;
        assert(out@ == before + spaces(i as nat));
    }
}

fn cut_chars(v: &Vec<char>, max_width: usize) -> (out: Vec<char>)
    ensures
        out@ == cut_to_width(v@, max_width as nat),
{
    let mut out: Vec<char> = Vec::new();
    let mut width: usize = 0;
    let mut i: usize = 0;
    let ghost s = v@;
    assert(s.subrange(0, s.len() as int) == s);
    assert(s.subrange(0, 0) == Seq::<char>::empty());
    let mut full = false;
    while i < v.len() && !full
        invariant
            i <= v.len(),
            s == v@,
            width <= max_width,
            out@ == s.subrange(0, i as int),
            width == columns_sum(s.subrange(0, i as int)),
            !full ==> fitting(s, max_width as nat) == i + fitting(
                s.subrange(i as int, s.len() as int),
                (max_width - width) as nat,
            ),
            full ==> fitting(s, max_width as nat) == i,
        decreases v.len() - i + (if full { 0int } else { 1 }),
    {
        let c = v[i];
        let cw: usize = match char_width(c) {
            Some(w) => w,
            None => 1,
        };
        let ghost rest = s.subrange(i as int, s.len() as int);
        assert(rest[0] == c);
        if cw > max_width - width {
            full = true;
        } else {
            assert(rest.drop_first() == s.subrange(i + 1, s.len() as int));
            proof {
                lemma_columns_sum_push(s.subrange(0, i as int), c);
                assert(s.subrange(0, i as int).push(c) == s.subrange(0, i + 1));
            }
            out.push(c);
            width += cw;
            i += 1;
        }
    }
    proof {
        if !full {
            assert(s.subrange(i as int, s.len() as int).len() == 0);
        }
    }
    append_spaces(&mut out, max_width - width);
    out
}

/// The columns of a text with one more character at its end.
pub proof fn lemma_columns_sum_push(s: Seq<char>, c: char)
    ensures
        columns_sum(s.push(c)) == columns_sum(s) + columns(c, 1),
    decreases s.len(),
{
    if s.len() == 0 {
        assert(s.push(c).drop_first() == Seq::<char>::empty());
        assert(s.push(c)[0] == c);
        assert(columns_sum(s.push(c).drop_first()) == 0);
    } else {
        assert(s.push(c).drop_first() == s.drop_first().push(c));
        assert(s.push(c)[0] == s[0]);
        lemma_columns_sum_push(s.drop_first(), c);
    }
}

/// Cuts `s` to `max_width` terminal columns: the characters that fit, then
/// spaces up to exactly `max_width`, so that a wide character that would
/// straddle the edge leaves a space in its place.
pub fn truncate_to_display_width(s: &str, max_width: usize) -> (out: String)
    ensures
        out@ == cut_to_width(s@, max_width as nat),
{
    let v = chars_of(s);
    string_of(&cut_chars(&v, max_width))
}

/// `s` filled with spaces on the right to `target_width` terminal columns;
/// cut to that width where it is as wide or wider.
pub fn pad_to_display_width(s: &str, target_width: usize) -> (out: String)
    ensures
        str_width_of(s@) >= target_width ==> out@ == cut_to_width(s@, target_width as nat),
        str_width_of(s@) < target_width ==> out@ == s@ + spaces(
            (target_width - str_width_of(s@)) as nat,
        ),
{
    let current = str_width(s);
    if current >= target_width {
        truncate_to_display_width(s, target_width)
    } else {
        let mut out = chars_of(s);
        append_spaces(&mut out, target_width - current);
        string_of(&out)
    }
}

/// `n` full stops.
pub open spec fn dots(n: nat) -> Seq<char> {
    Seq::new(n, |i: int| '.')
}

/// `s` where it takes no more than `max_width` terminal columns; else cut
/// so that it ends in `...` and takes no more than that: full stops alone
/// where `max_width` is 3 or less.
pub fn truncate_with_ellipsis(s: &str, max_width: usize) -> (out: String)
    ensures
        str_width_of(s@) <= max_width ==> out@ == s@,
        str_width_of(s@) > max_width && max_width <= 3 ==> out@ == dots(max_width as nat),
        str_width_of(s@) > max_width && max_width > 3 ==> out@ == trim_end(
            cut_to_width(s@, (max_width - 3) as nat),
        ) + "..."@,
{
    if str_width(s) <= max_width {
        return String::from_str(s);
    }
    if max_width <= 3 {
        let mut out: Vec<char> = Vec::new();
        let mut i: usize = 0;
        assert(out@ == dots(0));
        while i < max_width
            invariant
                i <= max_width,
                out@ == dots(i as nat),
            decreases max_width - i,
        {
            out.push('.');
            i += 1;
            assert(out@ == dots(i as nat));
        }
        return string_of(&out);
    }
    let v = chars_of(s);
    let cut = cut_chars(&v, max_width - 3);
    let mut out = trim_end_chars(&cut);
    append_str(&mut out, "...");
    string_of(&out)
}

/// How many characters from the end of `s` fit into `room` columns, a
/// control character counted as one column.
pub open spec fn fitting_back(s: Seq<char>, room: nat) -> nat
    decreases s.len(),
{
    if s.len() == 0 || columns(s.last(), 1) > room {
        0
    } else {
        1 + fitting_back(s.drop_last(), (room - columns(s.last(), 1)) as nat)
    }
}

/// The end of `s` that fits into `max_width` terminal columns: all of `s`
/// where it is no wider, else as many of its last characters as fit.
pub fn display_width_suffix(s: &str, max_width: usize) -> (out: String)
    ensures
        str_width_of(s@) <= max_width ==> out@ == s@,
        str_width_of(s@) > max_width ==> out@ == s@.subrange(
            s@.len() - fitting_back(s@, max_width as nat),
            s@.len() as int,
        ),
{
    if str_width(s) <= max_width {
        return String::from_str(s);
    }
    let v = chars_of(s);
    let mut width: usize = 0;
    let mut start: usize = v.len();
    let mut full = false;
    assert(v@.subrange(0, v.len() as int) == v@);
    while start > 0 && !full
        invariant
            start <= v.len(),
            width <= max_width,
            !full ==> fitting_back(v@, max_width as nat) == (v.len() - start) + fitting_back(
                v@.subrange(0, start as int),
                (max_width - width) as nat,
            ),
            full ==> fitting_back(v@, max_width as nat) == v.len() - start,
        decreases start + (if full { 0int } else { 1 }),
    {
        let c = v[start - 1];
        let cw: usize = match char_width(c) {
            Some(w) => w,
            None => 1,
        };
        assert(v@.subrange(0, start as int).last() == c);
        if cw > max_width - width {
            full = true;
        } else {
            assert(v@.subrange(0, start as int).drop_last() == v@.subrange(0, start - 1));
            width += cw;
            start -= 1;
        }
    }
    proof {
        if !full {
            assert(v@.subrange(0, 0).len() == 0);
        }
    }
    string_of(&subvec(&v, start, v.len()))
}

} // verus!
