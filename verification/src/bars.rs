//! The texts of the line below the panels: the entry under the cursor with
//! its size, how many entries are marked, and how large the files of the
//! panel are in all.

use vstd::prelude::*;
use crate::batch::capped_sum;
use crate::format::{bytes_of, format_size, size_text};
use crate::listing::{item_views, ItemView};
use crate::text::{append_decimal, append_str, chars_of, decimal, str_eq, string_of};
use crate::workspace::PanelState;

verus! {

/// The bytes of the first `n` of the entries `files` that are no
/// directories, in all, and no more than the largest number.
pub open spec fn files_size(files: Seq<ItemView>, n: int) -> u64
    decreases n,
{
    if n <= 0 || n > files.len() {
        0
    } else if files[n - 1].is_directory {
        files_size(files, n - 1)
    } else {
        capped_sum(files_size(files, n - 1), files[n - 1].size)
    }
}

/// What the line says of the entry under the cursor: its name and its
/// size; nothing of the entry that stands for the folder above, and
/// nothing where the cursor is on no entry.
pub open spec fn status_left(p: PanelState) -> Seq<char> {
    if p.selected_index < p.files@.len() && p.files@[p.selected_index as int].name@ != ".."@ {
        p.files@[p.selected_index as int].name@ + " ("@ + size_text(
            p.files@[p.selected_index as int].size,
        ) + ")"@
    } else {
        Seq::empty()
    }
}

/// What the line says of the panel: how many entries are marked, where any
/// is, and the size of its files in all.
pub open spec fn status_right(p: PanelState) -> Seq<char> {
    let total = "Total: "@ + size_text(files_size(item_views(p.files@), p.files@.len() as int));
    if p.selected_files@.len() > 0 {
        decimal(p.selected_files@.len()) + " selected, "@ + total
    } else {
        total
    }
}

fn total_size(panel: &PanelState) -> (total: u64)
    ensures
        total == files_size(item_views(panel.files@), panel.files@.len() as int),
{
    let ghost views = item_views(panel.files@);
    assert(views.len() == panel.files@.len());
    let mut total: u64 = 0;
    let mut i: usize = 0;
    while i < panel.files.len()
        invariant
            i <= panel.files@.len(),
            views == item_views(panel.files@),
            views.len() == panel.files@.len(),
            total == files_size(views, i as int),
        decreases panel.files@.len() - i,
    {
        assert(views[i as int] == panel.files@[i as int]@);
        if !panel.files[i].is_directory {
            let size = panel.files[i].size;
            total = if total > u64::MAX - size {
                u64::MAX
            } else {
                total + size
            };
        }
        i += 1;
    }
    total
}

/// The two texts of the line below the panels for the panel `panel`: what
/// stands at its left end and what at its right end.
pub fn status_bar_texts(panel: &PanelState) -> (texts: (String, String))
    ensures
        texts.0@ == status_left(*panel),
        texts.1@ == status_right(*panel),
{
    let left = match panel.current_file() {
        Some(file) => {
            if str_eq(file.name.as_str(), "..") {
                String::new()
            } else {
                let mut out = chars_of(file.name.as_str());
                append_str(&mut out, " (");
                append_str(&mut out, format_size(file.size).as_str());
                append_str(&mut out, ")");
                string_of(&out)
            }
        },
        None => String::new(),
    };
    let selected = panel.selected_files.len();
    let mut right: Vec<char> = Vec::new();
    if selected > 0 {
        append_decimal(&mut right, selected as u128);
        append_str(&mut right, " selected, ");
    }
    append_str(&mut right, "Total: ");
    append_str(&mut right, format_size(total_size(panel)).as_str());
    (left, string_of(&right))
}

/// The blanks between the two texts of a line `width` columns wide: what
/// is left beside the bytes of the texts and a blank on either side of
/// each.
pub fn status_bar_fill(width: u16, left: &str, right: &str) -> (fill: usize)
    ensures
        fill == (if width > bytes_of(left@).len() + bytes_of(right@).len() + 4 {
            width - bytes_of(left@).len() - bytes_of(right@).len() - 4
        } else {
            0
        }),
{
    let room = width as usize;
    let l = left.as_bytes().len();
    let r = right.as_bytes().len();
    if l >= room || r >= room - l || room - l - r <= 4 {
        0
    } else {
        room - l - r - 4
    }
}

} // verus!
