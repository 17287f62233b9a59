//! How a line of the comparison of two files is written into the two
//! halves of the screen: the line number, the text cut or filled to its
//! columns, and, where a line differs, which of its characters do.

use vstd::prelude::*;
use crate::archive_job::opt_text;
use crate::diff::{
    expand_chars, expanded, fitted_and_filled, longer, truncate_or_pad, DiffLine, DiffLineStatus,
};
use crate::format::{char_width, columns, spaces};
use crate::text::{append_chars, append_decimal, append_str, decimal, string_of};

verus! {

/// A piece of a line that differs: some characters, and whether they
/// differ from those in the same place on the other side.
#[derive(Debug, Clone, PartialEq, Eq)]
pub struct InlineSpan {
    pub text: String,
    pub changed: bool,
}

/// An `InlineSpan` with its text as a character sequence.
pub struct InlineView {
    pub text: Seq<char>,
    pub changed: bool,
}

impl View for InlineSpan {
    type V = InlineView;

    open spec fn view(&self) -> InlineView {
        InlineView { text: self.text@, changed: self.changed }
    }
}

/// The views of a list of pieces.
pub open spec fn inline_views(spans: Seq<InlineSpan>) -> Seq<InlineView> {
    Seq::new(spans.len(), |i: int| spans[i]@)
}

/// The character at index `i` of `s`, where there is one.
pub open spec fn char_at(s: Seq<char>, i: int) -> Option<char> {
    if 0 <= i < s.len() {
        Some(s[i])
    } else {
        None
    }
}

/// The characters shown of the line `this` from index `i` on, of which
/// `used` columns are taken already, each with the mark whether it differs
/// from the character in its place in `other`. Where `this` has ended and
/// `other` has not, a blank is shown, which differs. The line ends where
/// the `width` columns are full or the next character does not fit.
pub open spec fn cells_from(this: Seq<char>, other: Seq<char>, width: nat, i: int, used: nat) -> Seq<
    (char, bool),
>
    decreases longer(this.len(), other.len()) - i,
{
    if i < 0 || i >= longer(this.len(), other.len()) || used >= width {
        Seq::empty()
    } else {
        let ch = match char_at(this, i) {
            Some(c) => c,
            None => ' ',
        };
        if used + columns(ch, 0) > width {
            Seq::empty()
        } else {
            seq![(ch, char_at(this, i) != char_at(other, i))] + cells_from(
                this,
                other,
                width,
                i + 1,
                used + columns(ch, 0),
            )
        }
    }
}

/// The columns that the characters `cells` take.
pub open spec fn cells_width(cells: Seq<(char, bool)>) -> nat
    decreases cells.len(),
{
    if cells.len() == 0 {
        0
    } else {
        cells_width(cells.drop_last()) + columns(cells.last().0, 0)
    }
}

/// The characters `cells` in pieces: neighbours with the same mark make
/// one piece.
pub open spec fn runs_of(cells: Seq<(char, bool)>) -> Seq<InlineView>
    decreases cells.len(),
{
    if cells.len() == 0 {
        Seq::empty()
    } else {
        let before = runs_of(cells.drop_last());
        let (ch, changed) = cells.last();
        if before.len() > 0 && before.last().changed == changed {
            before.drop_last().push(InlineView { text: before.last().text.push(ch), changed })
        } else {
            before.push(InlineView { text: seq![ch], changed })
        }
    }
}

/// The line `this` in pieces for a field of `width` columns, `other` being
/// the line in its place on the other side: the characters shown, and then
/// a piece of blanks that fills the field.
pub open spec fn inline_spans(this: Seq<char>, other: Seq<char>, width: nat) -> Seq<InlineView> {
    let cells = cells_from(this, other, width, 0, 0);
    let used = cells_width(cells);
    if used < width {
        runs_of(cells).push(InlineView { text: spaces((width - used) as nat), changed: false })
    } else {
        runs_of(cells)
    }
}

/// The piece that is being gathered, where it holds anything.
pub open spec fn gathered(buf: Seq<char>, changed: bool) -> Seq<InlineView> {
    if buf.len() > 0 {
        seq![InlineView { text: buf, changed }]
    } else {
        Seq::empty()
    }
}

fn blanks(n: usize) -> (out: Vec<char>)
    ensures
        out@ == spaces(n as nat),
{
    let mut out: Vec<char> = Vec::new();
    while out.len() < n
        invariant
            out.len() <= n,
            out@ == spaces(out.len() as nat),
        decreases n - out.len(),
    {
        out.push(' ');
        assert(out@ =~= spaces(out.len() as nat));
    }
    out
}

fn spans_of(this: &Vec<char>, other: &Vec<char>, width: usize) -> (spans: Vec<InlineSpan>)
    ensures
        inline_views(spans@) == inline_spans(this@, other@, width as nat),
{
    let mut spans: Vec<InlineSpan> = Vec::new();
    let mut buf: Vec<char> = Vec::new();
    let mut buf_is_diff = false;
    let mut used: usize = 0;
    let max_len = if this.len() >= other.len() {
        this.len()
    } else {
        other.len()
    };
    let ghost all = cells_from(this@, other@, width as nat, 0, 0);
    let ghost mut done: Seq<(char, bool)> = Seq::empty();
    let mut i: usize = 0;
    let mut full = false;
    assert(inline_views(spans@) =~= Seq::<InlineView>::empty());
    while i < max_len && !full
        invariant
            i <= max_len,
            max_len == longer(this@.len(), other@.len()),
            used <= width || full,
            all == cells_from(this@, other@, width as nat, 0, 0),
            !full ==> all == done + cells_from(this@, other@, width as nat, i as int, used as nat),
            full ==> all == done,
            cells_width(done) == used,
            buf@.len() == 0 ==> spans@.len() == 0,
            runs_of(done) == inline_views(spans@) + gathered(buf@, buf_is_diff),
        decreases max_len - i + (if full { 0int } else { 1 }),
    {
        if used >= width {
            full = true;
            assert(all =~= done);
        } else {
            let this_ch: Option<char> = if i < this.len() {
                Some(this[i])
            } else {
                None
            };
            let other_ch: Option<char> = if i < other.len() {
                Some(other[i])
            } else {
                None
            };
            let ch = match this_ch {
                Some(c) => c,
                None => ' ',
            };
            let ch_w = match char_width(ch) {
                Some(w) => w,
                None => 0,
            };
            if ch_w > width - used {
                full = true;
                assert(all =~= done);
            } else {
                let is_diff = this_ch != other_ch;
                let ghost views = inline_views(spans@);
                let ghost before = done;
                let ghost old_buf = buf@;
                let ghost old_flag = buf_is_diff;
                if is_diff != buf_is_diff && buf.len() > 0 {
                    spans.push(InlineSpan { text: string_of(&buf), changed: buf_is_diff });
                    assert(inline_views(spans@) =~= views.push(
                        InlineView { text: buf@, changed: buf_is_diff },
                    ));
                    buf = Vec::new();
                }
                buf_is_diff = is_diff;
                buf.push(ch);
                used += ch_w;
                proof {
                    done = done.push((ch, is_diff));
                    assert(done.drop_last() =~= before);
                    assert(before + (seq![(ch, is_diff)] + cells_from(
                        this@,
                        other@,
                        width as nat,
                        i + 1,
                        used as nat,
                    )) =~= done + cells_from(this@, other@, width as nat, i + 1, used as nat));
                    let prev = runs_of(before);
                    assert(prev == views + gathered(old_buf, old_flag));
                    if old_buf.len() == 0 {
                        assert(prev =~= Seq::<InlineView>::empty());
                        assert(buf@ =~= seq![ch]);
                    } else if is_diff == old_flag {
                        assert(prev.last() == InlineView { text: old_buf, changed: old_flag });
                        assert(prev.drop_last() =~= views);
                        assert(buf@ =~= old_buf.push(ch));
                    } else {
                        assert(inline_views(spans@) =~= prev);
                        assert(buf@ =~= seq![ch]);
                    }
                    assert(runs_of(done) =~= inline_views(spans@) + gathered(buf@, buf_is_diff));
                }
                i += 1;
            }
        }
    }
    assert(all =~= done);
    let ghost views = inline_views(spans@);
    if buf.len() > 0 {
        spans.push(InlineSpan { text: string_of(&buf), changed: buf_is_diff });
        assert(inline_views(spans@) =~= views + gathered(buf@, buf_is_diff));
    } else {
        assert(views + gathered(buf@, buf_is_diff) =~= views);
    }
    if used < width {
        let ghost shown = inline_views(spans@);
        spans.push(InlineSpan { text: string_of(&blanks(width - used)), changed: false });
        assert(inline_views(spans@) =~= shown.push(
            InlineView { text: spaces((width - used) as nat), changed: false },
        ));
    }
    spans
}

/// Cuts the line `this_content` into pieces for a field of `width`
/// columns, so that the characters that differ from those in their place
/// in `other_content` can be drawn apart. Tabs are written as spaces in
/// both lines first.
pub fn build_inline_spans(this_content: &str, other_content: &str, width: usize) -> (spans: Vec<
    InlineSpan,
>)
    ensures
        inline_views(spans@) == inline_spans(
            expanded(this_content@, 0),
            expanded(other_content@, 0),
            width as nat,
        ),
{
    let this_chars = expand_chars(this_content);
    let other_chars = expand_chars(other_content);
    spans_of(&this_chars, &other_chars, width)
}

/// The colours of a piece of the screen, named after the kind of line
/// they are for; `Empty` is for the side that has no line.
#[derive(Debug, Clone, Copy, PartialEq, Eq, Structural)]
pub enum DiffTone {
    Same,
    Modified,
    LeftOnly,
    RightOnly,
    Empty,
}

/// What a piece of the screen is, which decides how it is drawn.
#[derive(Debug, Clone, Copy, PartialEq, Eq, Structural)]
pub enum SpanRole {
    /// A line number, on the ground of the tone.
    LineNumber(DiffTone),
    /// Text in the colours of the tone.
    Text(DiffTone),
    /// Characters that differ from the other side.
    InlineChange,
}

/// A piece of the screen: its text and what it is.
#[derive(Debug, Clone, PartialEq, Eq)]
pub struct RenderedSpan {
    pub text: String,
    pub role: SpanRole,
}

/// A `RenderedSpan` with its text as a character sequence.
pub struct RenderedView {
    pub text: Seq<char>,
    pub role: SpanRole,
}

impl View for RenderedSpan {
    type V = RenderedView;

    open spec fn view(&self) -> RenderedView {
        RenderedView { text: self.text@, role: self.role }
    }
}

/// The views of a list of pieces of the screen.
pub open spec fn rendered_views(spans: Seq<RenderedSpan>) -> Seq<RenderedView> {
    Seq::new(spans.len(), |i: int| spans[i]@)
}

/// The tone of a line of the kind `status`.
pub open spec fn tone_of(status: DiffLineStatus) -> DiffTone {
    match status {
        DiffLineStatus::Same => DiffTone::Same,
        DiffLineStatus::Modified => DiffTone::Modified,
        DiffLineStatus::LeftOnly => DiffTone::LeftOnly,
        DiffLineStatus::RightOnly => DiffTone::RightOnly,
    }
}

/// The field of the line number: the mark of the change the cursor is on,
/// or a blank; the number, or nothing, to the right of `num_width`
/// columns; and a bar.
pub open spec fn gutter(marked: bool, number: Option<usize>, num_width: nat) -> Seq<char> {
    let digits = match number {
        Some(n) => decimal(n as nat),
        None => Seq::empty(),
    };
    let fill = if num_width > digits.len() {
        (num_width - digits.len()) as nat
    } else {
        0
    };
    (if marked {
        "\u{25B6}"@
    } else {
        " "@
    }) + spaces(fill) + digits + "\u{2502}"@
}

/// The columns left for the text of a side `side_width` columns wide beside
/// a field of line numbers `line_no_width` columns wide and its bar.
pub open spec fn content_columns(side_width: nat, line_no_width: nat) -> nat {
    if side_width > line_no_width + 1 {
        (side_width - line_no_width - 1) as nat
    } else {
        0
    }
}

/// The columns of the number in a field of line numbers `line_no_width`
/// columns wide: one column is the mark's.
pub open spec fn number_columns(line_no_width: nat) -> nat {
    if line_no_width > 0 {
        (line_no_width - 1) as nat
    } else {
        0
    }
}

/// The piece of the screen that a piece of a line that differs is.
pub open spec fn inline_role(changed: bool) -> SpanRole {
    if changed {
        SpanRole::InlineChange
    } else {
        SpanRole::Text(DiffTone::Modified)
    }
}

/// The pieces of a line that differs as pieces of the screen.
pub open spec fn inline_rendered(spans: Seq<InlineView>) -> Seq<RenderedView> {
    Seq::new(spans.len(), |i: int| RenderedView { text: spans[i].text, role: inline_role(spans[i].changed) })
}

/// One side of a line of the comparison as pieces of the screen. `number`
/// and `content` are the line on this side, `other` the line on the other
/// side, `absent` says that this side has no line. A side without a line
/// is an empty field; a line that differs is cut into the pieces that
/// differ and those that do not; any other line is cut or filled to its
/// columns.
pub open spec fn side_spans(
    number: Option<usize>,
    content: Option<Seq<char>>,
    other: Option<Seq<char>>,
    status: DiffLineStatus,
    absent: bool,
    line_no_width: nat,
    side_width: nat,
    marked: bool,
) -> Seq<RenderedView> {
    let num_width = number_columns(line_no_width);
    let width = content_columns(side_width, line_no_width);
    let text = match content {
        Some(t) => t,
        None => Seq::empty(),
    };
    let facing = match other {
        Some(t) => t,
        None => Seq::empty(),
    };
    if absent {
        seq![
            RenderedView {
                text: gutter(marked, None, num_width),
                role: SpanRole::LineNumber(DiffTone::Empty),
            },
            RenderedView { text: spaces(width), role: SpanRole::Text(DiffTone::Empty) },
        ]
    } else if status == DiffLineStatus::Modified {
        seq![
            RenderedView {
                text: gutter(marked, number, num_width),
                role: SpanRole::LineNumber(DiffTone::Modified),
            },
        ] + inline_rendered(inline_spans(expanded(text, 0), expanded(facing, 0), width))
    } else {
        seq![
            RenderedView {
                text: gutter(marked, number, num_width),
                role: SpanRole::LineNumber(tone_of(status)),
            },
            RenderedView {
                text: fitted_and_filled(text, width),
                role: SpanRole::Text(tone_of(status)),
            },
        ]
    }
}

fn tone(status: DiffLineStatus) -> (t: DiffTone)
    ensures
        t == tone_of(status),
{
    match status {
        DiffLineStatus::Same => DiffTone::Same,
        DiffLineStatus::Modified => DiffTone::Modified,
        DiffLineStatus::LeftOnly => DiffTone::LeftOnly,
        DiffLineStatus::RightOnly => DiffTone::RightOnly,
    }
}

fn gutter_text(marked: bool, number: Option<usize>, num_width: usize) -> (out: String)
    ensures
        out@ == gutter(marked, number, num_width as nat),
{
    let mut digits: Vec<char> = Vec::new();
    match number {
        Some(n) => {
            append_decimal(&mut digits, n as u128);
            assert(digits@ =~= decimal(n as nat));
        },
        None => {},
    }
    let mut out: Vec<char> = Vec::new();
    if marked {
        append_str(&mut out, "\u{25B6}");
    } else {
        append_str(&mut out, " ");
    }
    let ghost mark = out@;
    assert(mark =~= (if marked {
        "\u{25B6}"@
    } else {
        " "@
    }));
    let fill: usize = if num_width > digits.len() {
        num_width - digits.len()
    } else {
        0
    };
    append_chars(&mut out, &blanks(fill));
    append_chars(&mut out, &digits);
    append_str(&mut out, "\u{2502}");
    string_of(&out)
}

fn render_side(
    number: Option<usize>,
    content: &Option<String>,
    other: &Option<String>,
    status: DiffLineStatus,
    absent: bool,
    line_no_width: usize,
    side_width: usize,
    marked: bool,
) -> (spans: Vec<RenderedSpan>)
    ensures
        rendered_views(spans@) == side_spans(
            number,
            opt_text(*content),
            opt_text(*other),
            status,
            absent,
            line_no_width as nat,
            side_width as nat,
            marked,
        ),
{
    let num_width: usize = if line_no_width > 0 {
        line_no_width - 1
    } else {
        0
    };
    let width: usize = if side_width > line_no_width && side_width - line_no_width > 1 {
        side_width - line_no_width - 1
    } else {
        0
    };
    let text: &str = match content {
        Some(t) => t.as_str(),
        None => "",
    };
    let facing: &str = match other {
        Some(t) => t.as_str(),
        None => "",
    };
    assert(""@ =~= Seq::<char>::empty()) by {
        reveal_strlit("");
    }
    let mut spans: Vec<RenderedSpan> = Vec::new();
    if absent {
        spans.push(
            RenderedSpan {
                text: gutter_text(marked, None, num_width),
                role: SpanRole::LineNumber(DiffTone::Empty),
            },
        );
        spans.push(
            RenderedSpan { text: string_of(&blanks(width)), role: SpanRole::Text(DiffTone::Empty) },
        );
        assert(rendered_views(spans@) =~= side_spans(
            number,
            opt_text(*content),
            opt_text(*other),
            status,
            absent,
            line_no_width as nat,
            side_width as nat,
            marked,
        ));
        return spans;
    }
    match status {
        DiffLineStatus::Modified => {
            spans.push(
                RenderedSpan {
                    text: gutter_text(marked, number, num_width),
                    role: SpanRole::LineNumber(DiffTone::Modified),
                },
            );
            let pieces = build_inline_spans(text, facing, width);
            let ghost head = rendered_views(spans@);
            let ghost all = inline_rendered(inline_views(pieces@));
            let mut i: usize = 0;
            while i < pieces.len()
                invariant
                    i <= pieces.len(),
                    all == inline_rendered(inline_views(pieces@)),
                    all.len() == pieces@.len(),
                    rendered_views(spans@) == head + all.subrange(0, i as int),
                decreases pieces.len() - i,
            {
                let role = if pieces[i].changed {
                    SpanRole::InlineChange
                } else {
                    SpanRole::Text(DiffTone::Modified)
                };
                let ghost before = rendered_views(spans@);
                spans.push(RenderedSpan { text: pieces[i].text.clone(), role });
                assert(rendered_views(spans@) =~= before.push(all[i as int]));
                assert(all.subrange(0, i + 1) =~= all.subrange(0, i as int).push(all[i as int]));
                i += 1;
            }
            assert(all.subrange(0, pieces@.len() as int) =~= all);
        },
        _ => {
            spans.push(
                RenderedSpan {
                    text: gutter_text(marked, number, num_width),
                    role: SpanRole::LineNumber(tone(status)),
                },
            );
            spans.push(
                RenderedSpan {
                    text: truncate_or_pad(text, width),
                    role: SpanRole::Text(tone(status)),
                },
            );
            assert(rendered_views(spans@) =~= side_spans(
                number,
                opt_text(*content),
                opt_text(*other),
                status,
                absent,
                line_no_width as nat,
                side_width as nat,
                marked,
            ));
        },
    }
    spans
}

/// Writes a line of the comparison into the two halves of the screen, of
/// `left_width` and `right_width` columns, each with a field of
/// `line_no_width` columns for the line number. `is_current_change` says
/// whether the cursor is on the change that the line belongs to.
pub fn render_diff_line(
    diff_line: &DiffLine,
    line_no_width: usize,
    left_width: usize,
    right_width: usize,
    is_current_change: bool,
) -> (sides: (Vec<RenderedSpan>, Vec<RenderedSpan>))
    ensures
        rendered_views(sides.0@) == side_spans(
            diff_line@.left_line_no,
            diff_line@.left_content,
            diff_line@.right_content,
            diff_line@.line_status,
            diff_line@.line_status == DiffLineStatus::RightOnly,
            line_no_width as nat,
            left_width as nat,
            is_current_change,
        ),
        rendered_views(sides.1@) == side_spans(
            diff_line@.right_line_no,
            diff_line@.right_content,
            diff_line@.left_content,
            diff_line@.line_status,
            diff_line@.line_status == DiffLineStatus::LeftOnly,
            line_no_width as nat,
            right_width as nat,
            is_current_change,
        ),
{
    let status = diff_line.line_status;
    let left = render_side(
        diff_line.left_line_no,
        &diff_line.left_content,
        &diff_line.right_content,
        status,
        matches!(status, DiffLineStatus::RightOnly),
        line_no_width,
        left_width,
        is_current_change,
    );
    let right = render_side(
        diff_line.right_line_no,
        &diff_line.right_content,
        &diff_line.left_content,
        status,
        matches!(status, DiffLineStatus::LeftOnly),
        line_no_width,
        right_width,
        is_current_change,
    );
    (left, right)
}

} // verus!
