//! Small rules of the panels and their dialogs: where the cursor goes, how
//! a sort is toggled, and what a dialog shows when it opens.

use vstd::prelude::*;
use crate::cli::{last_index_of, quotes_escaped, shell_escape};
use crate::state::{Dialog, DialogType, PathCompletion, SortBy, SortOrder};
use crate::text::{
    append_chars, append_decimal, append_str, chars_of, decimal, has_prefix, joined, starts_with,
    string_of, subvec, texts,
};

verus! {

/// The index of the last of `count` entries; 0 where there is none.
pub open spec fn last_index(count: usize) -> usize {
    if count > 0 {
        (count - 1) as usize
    } else {
        0
    }
}

/// The cursor after a move by `delta` entries: never before the first entry
/// and never past the last.
pub open spec fn cursor_after(selected: usize, delta: i32, count: usize) -> usize {
    if selected + delta < 0 {
        0
    } else if selected + delta > last_index(count) {
        last_index(count)
    } else {
        (selected + delta) as usize
    }
}

/// Moves the cursor of a panel with `count` entries by `delta` entries.
pub fn move_cursor(selected: usize, delta: i32, count: usize) -> (r: usize)
    ensures
        r == cursor_after(selected, delta, count),
{
    let last = if count > 0 {
        count - 1
    } else {
        0
    };
    if delta >= 0 {
        let step = delta as usize;
        if selected > last || step > last - selected {
            last
        } else {
            selected + step
        }
    } else {
        let back: u32 = if delta == i32::MIN {
            0x8000_0000
        } else {
            (-delta) as u32
        };
        if back as u64 > selected as u64 {
            0
        } else {
            let moved = selected - back as usize;
            if moved > last {
                last
            } else {
                moved
            }
        }
    }
}

/// The cursor on the last of `count` entries; where it was for an empty panel.
pub fn cursor_to_end(selected: usize, count: usize) -> (r: usize)
    ensures
        count > 0 ==> r == count - 1,
        count == 0 ==> r == selected,
{
    if count > 0 {
        count - 1
    } else {
        selected
    }
}

/// The cursor in the panel switched to, so that it stands on the same line
/// of the screen as the cursor of the panel left: as far below the first
/// line shown as it was there, but not past the last entry. `None` for an
/// empty panel, whose cursor stays.
pub fn switch_panel_keep_index(
    left_scroll: usize,
    left_selected: usize,
    new_scroll: usize,
    new_count: usize,
) -> (r: Option<usize>)
    ensures
        new_count == 0 ==> r is None,
        new_count > 0 ==> ({
            let relative = if left_selected >= left_scroll {
                left_selected - left_scroll
            } else {
                0
            };
            r == Some(
                if new_scroll + relative <= new_count - 1 {
                    (new_scroll + relative) as usize
                } else {
                    (new_count - 1) as usize
                },
            )
        }),
{
    if new_count == 0 {
        return None;
    }
    let relative = if left_selected >= left_scroll {
        left_selected - left_scroll
    } else {
        0
    };
    let last = new_count - 1;
    if new_scroll > last || relative > last - new_scroll {
        Some(last)
    } else {
        Some(new_scroll + relative)
    }
}

/// The sort of a panel after the user asked to sort by `wanted`: the other
/// direction where the panel is sorted by that already, else by `wanted`,
/// ascending.
pub fn toggle_sort(sort_by: SortBy, sort_order: SortOrder, wanted: SortBy) -> (r: (
    SortBy,
    SortOrder,
))
    ensures
        sort_by == wanted ==> r == (
            wanted,
            match sort_order {
                SortOrder::Asc => SortOrder::Desc,
                SortOrder::Desc => SortOrder::Asc,
            },
        ),
        sort_by != wanted ==> r == (wanted, SortOrder::Asc),
{
    if sort_by == wanted {
        match sort_order {
            SortOrder::Asc => (wanted, SortOrder::Desc),
            SortOrder::Desc => (wanted, SortOrder::Asc),
        }
    } else {
        (wanted, SortOrder::Asc)
    }
}

/// The files of a dialog in one line: all of them where there are three or
/// fewer, else the first two and how many more there are.
pub open spec fn file_list_of(files: Seq<Seq<char>>) -> Seq<char> {
    if files.len() <= 3 {
        joined(files, ", "@)
    } else {
        files[0] + ", "@ + files[1] + " and "@ + decimal((files.len() - 2) as nat) + " more"@
    }
}

/// The files of a dialog in one line.
pub fn file_list_summary(files: &Vec<String>) -> (s: String)
    ensures
        s@ == file_list_of(texts(files@)),
{
    assert(texts(files@).len() == files@.len());
    let mut out: Vec<char> = Vec::new();
    if files.len() <= 3 {
        let mut i: usize = 0;
        assert(texts(files@).subrange(0, 0) =~= Seq::<Seq<char>>::empty());
        while i < files.len()
            invariant
                i <= files.len(),
                out@ == joined(texts(files@).subrange(0, i as int), ", "@),
            decreases files.len() - i,
        {
            if i > 0 {
                append_str(&mut out, ", ");
            }
            append_str(&mut out, files[i].as_str());
            assert(texts(files@).subrange(0, i + 1).drop_last() == texts(files@).subrange(
                0,
                i as int,
            ));
            assert(texts(files@).subrange(0, i + 1).last() == files@[i as int]@);
            i += 1;
        }
        assert(texts(files@).subrange(0, files.len() as int) == texts(files@));
    } else {
        append_str(&mut out, files[0].as_str());
        append_str(&mut out, ", ");
        append_str(&mut out, files[1].as_str());
        append_str(&mut out, " and ");
        append_decimal(&mut out, (files.len() - 2) as u128);
        append_str(&mut out, " more");
    }
    string_of(&out)
}

/// `path` with a `/` at its end.
pub open spec fn as_folder(path: Seq<char>) -> Seq<char> {
    if path.len() > 0 && path.last() == '/' {
        path
    } else {
        path + "/"@
    }
}

fn folder_text(path: &str) -> (r: Vec<char>)
    ensures
        r@ == as_folder(path@),
{
    let mut v = chars_of(path);
    if !(v.len() > 0 && v[v.len() - 1] == '/') {
        append_str(&mut v, "/");
    }
    v
}

/// Whether `d` asks where the files `names` are copied or moved to: the
/// folder `target_path` is offered, the cursor at its end, and the files
/// are named.
pub open spec fn is_copy_dialog(
    d: Dialog,
    names: Seq<Seq<char>>,
    target_path: Seq<char>,
    is_move: bool,
) -> bool {
    &&& d.dialog_type == (if is_move {
        DialogType::Move
    } else {
        DialogType::Copy
    })
    &&& d.input@ == as_folder(target_path)
    &&& d.cursor_pos == d.input@.len()
    &&& d.message@ == file_list_of(names)
    &&& d.completion is Some
    &&& d.selected_button == 0
    &&& d.selection is None
}

/// The dialog that asks where the chosen files are copied or moved to: the
/// other panel's folder is offered, the cursor at its end. `None` where no
/// file is chosen.
pub fn show_copy_dialog(files: &Vec<String>, target_path: &str, is_move: bool) -> (d: Option<
    Dialog,
>)
    ensures
        d is Some <==> files@.len() > 0,
        d matches Some(d) ==> is_copy_dialog(d, texts(files@), target_path@, is_move),
{
    if files.len() == 0 {
        return None;
    }
    let target = folder_text(target_path);
    Some(
        Dialog {
            dialog_type: if is_move {
                DialogType::Move
            } else {
                DialogType::Copy
            },
            cursor_pos: target.len(),
            input: string_of(&target),
            message: file_list_summary(files),
            completion: Some(PathCompletion::default()),
            selected_button: 0,
            selection: None,
        },
    )
}

/// Whether `d` asks if the files `names` are deleted, with "no" chosen.
pub open spec fn is_delete_dialog(d: Dialog, names: Seq<Seq<char>>) -> bool {
    &&& d.dialog_type == DialogType::Delete
    &&& d.input@.len() == 0
    &&& d.cursor_pos == 0
    &&& d.message@ == "Delete "@ + file_list_of(names) + "?"@
    &&& d.completion is None
    &&& d.selected_button == 1
    &&& d.selection is None
}

/// The dialog that asks whether the chosen files are deleted, with "no"
/// chosen to begin with. `None` where no file is chosen.
pub fn show_delete_dialog(files: &Vec<String>) -> (d: Option<Dialog>)
    ensures
        d is Some <==> files@.len() > 0,
        d matches Some(d) ==> is_delete_dialog(d, texts(files@)),
{
    if files.len() == 0 {
        return None;
    }
    let list = file_list_summary(files);
    let mut dialog = Dialog::plain(DialogType::Delete);
    dialog.message = crate::text::concat3("Delete ", list.as_str(), "?");
    dialog.selected_button = 1;
    Some(dialog)
}

/// Whether `d` asks for the name of the archive made of the files `names`,
/// of which there is at least one: the name of the first with `.tar.gz`
/// behind it is offered, the cursor at its end.
pub open spec fn is_tar_dialog(d: Dialog, names: Seq<Seq<char>>) -> bool {
    &&& names.len() > 0
    &&& d.dialog_type == DialogType::Tar
    &&& d.input@ == names[0] + ".tar.gz"@
    &&& d.cursor_pos == d.input@.len()
    &&& d.message@ == file_list_of(names)
    &&& d.completion is None
    &&& d.selected_button == 0
    &&& d.selection is None
}

/// The dialog that asks for the name of the archive to make: the name of the
/// first file with `.tar.gz` behind it is offered. `None` where no file is chosen.
pub fn show_tar_dialog(files: &Vec<String>) -> (d: Option<Dialog>)
    ensures
        d is Some <==> files@.len() > 0,
        d matches Some(d) ==> is_tar_dialog(d, texts(files@)),
{
    if files.len() == 0 {
        return None;
    }
    let mut name = chars_of(files[0].as_str());
    append_str(&mut name, ".tar.gz");
    let mut dialog = Dialog::plain(DialogType::Tar);
    dialog.cursor_pos = name.len();
    dialog.input = string_of(&name);
    dialog.message = file_list_summary(files);
    Some(dialog)
}

/// How much of a name is selected when it is offered for renaming: all of
/// the name of a directory; of a file, what stands before its last full
/// stop, not counting a full stop that the name begins with.
pub open spec fn rename_selection_of(name: Seq<char>, is_directory: bool) -> int {
    if is_directory {
        name.len() as int
    } else {
        match last_index_of(name, '.', name.len() as int) {
            Some(i) => if i >= 1 || !(name.len() > 0 && name[0] == '.') {
                i
            } else {
                name.len() as int
            },
            None => name.len() as int,
        }
    }
}

/// Whether `d` asks for the new name of the entry `name`: the name is
/// offered, with the part before the extension selected.
pub open spec fn is_rename_dialog(d: Dialog, name: Seq<char>, is_directory: bool) -> bool {
    &&& d.dialog_type == DialogType::Rename
    &&& d.input@ == name
    &&& d.cursor_pos == rename_selection_of(name, is_directory)
    &&& d.message@.len() == 0
    &&& d.completion is None
    &&& d.selected_button == 0
    &&& d.selection == Some((0usize, d.cursor_pos))
}

/// The dialog that asks for the new name of an entry: its name is offered,
/// with the part before the extension selected. `None` for the entry that
/// stands for the folder above.
pub fn show_rename_dialog(name: &str, is_directory: bool) -> (d: Option<Dialog>)
    ensures
        d is Some <==> name@ != ".."@,
        d matches Some(d) ==> is_rename_dialog(d, name@, is_directory),
{
    if crate::text::str_eq(name, "..") {
        return None;
    }
    let v = chars_of(name);
    let mut end: usize = v.len();
    if !is_directory {
        let mut i: usize = v.len();
        let mut found = false;
        while i > 0 && !found
            invariant
                i <= v.len(),
                !found ==> last_index_of(v@, '.', v@.len() as int) == last_index_of(
                    v@,
                    '.',
                    i as int,
                ),
                found ==> i >= 1 && last_index_of(v@, '.', v@.len() as int) == Some(i - 1),
            decreases i + (if found { 0int } else { 1 }),
        {
            if v[i - 1] == '.' {
                found = true;
            } else {
                i -= 1;
            }
        }
        if found {
            let dot = i - 1;
            if dot >= 1 || !(v.len() > 0 && v[0] == '.') {
                end = dot;
            }
        }
    }
    let mut dialog = Dialog::plain(DialogType::Rename);
    dialog.input = String::from_str(name);
    dialog.cursor_pos = end;
    dialog.selection = Some((0, end));
    Some(dialog)
}

/// Whether `d` asks for the path to go to, with `current_path` offered and
/// all of it selected.
pub open spec fn is_goto_dialog(d: Dialog, current_path: Seq<char>) -> bool {
    &&& d.dialog_type == DialogType::Goto
    &&& d.input@ == current_path
    &&& d.cursor_pos == current_path.len()
    &&& d.message@ == "Go to path:"@
    &&& d.completion is Some
    &&& d.selected_button == 0
    &&& d.selection == Some((0usize, d.cursor_pos))
}

/// The dialog that asks for the path to go to: the panel's path is offered,
/// all of it selected.
pub fn show_goto_dialog(current_path: &str) -> (d: Dialog)
    ensures
        is_goto_dialog(d, current_path@),
{
    let len = chars_of(current_path).len();
    let mut dialog = Dialog::plain(DialogType::Goto);
    dialog.input = String::from_str(current_path);
    dialog.cursor_pos = len;
    dialog.message = String::from_str("Go to path:");
    dialog.completion = Some(PathCompletion::default());
    dialog.selection = Some((0, len));
    dialog
}

/// Whether `d` asks for the text to search for.
pub open spec fn is_search_dialog(d: Dialog) -> bool {
    &&& d.dialog_type == DialogType::Search
    &&& d.input@.len() == 0
    &&& d.cursor_pos == 0
    &&& d.message@ == "Search for:"@
    &&& d.completion is None
    &&& d.selected_button == 0
    &&& d.selection is None
}

/// The dialog that asks for the text to search for.
pub fn show_search_dialog() -> (d: Dialog)
    ensures
        is_search_dialog(d),
{
    let mut dialog = Dialog::plain(DialogType::Search);
    dialog.message = String::from_str("Search for:");
    dialog
}

/// `s` with every `pattern` in it, found from left to right, replaced by
/// `with`. An empty pattern is found nowhere.
pub open spec fn replaced(s: Seq<char>, pattern: Seq<char>, with: Seq<char>) -> Seq<char>
    decreases s.len(),
{
    if s.len() == 0 || pattern.len() == 0 {
        s
    } else if starts_with(s, pattern) {
        with + replaced(s.subrange(pattern.len() as int, s.len() as int), pattern, with)
    } else {
        seq![s[0]] + replaced(s.drop_first(), pattern, with)
    }
}

fn replace_all(s: &Vec<char>, pattern: &Vec<char>, with: &Vec<char>) -> (out: Vec<char>)
    requires
        pattern@.len() > 0,
    ensures
        out@ == replaced(s@, pattern@, with@),
{
    let mut out: Vec<char> = Vec::new();
    let mut i: usize = 0;
    assert(s@.subrange(0, s.len() as int) == s@);
    while i < s.len()
        invariant
            i <= s.len(),
            pattern@.len() > 0,
            replaced(s@, pattern@, with@) == out@ + replaced(
                s@.subrange(i as int, s.len() as int),
                pattern@,
                with@,
            ),
        decreases s.len() - i,
    {
        let rest = subvec(s, i, s.len());
        let ghost before = out@;
        if has_prefix(&rest, pattern) {
            append_chars(&mut out, with);
            assert(rest@.subrange(pattern@.len() as int, rest@.len() as int) == s@.subrange(
                i + pattern@.len(),
                s.len() as int,
            ));
            i += pattern.len();
            assert(before + (with@ + replaced(
                s@.subrange(i as int, s.len() as int),
                pattern@,
                with@,
            )) == out@ + replaced(s@.subrange(i as int, s.len() as int), pattern@, with@));
        } else {
            out.push(s[i]);
            assert(rest@.drop_first() == s@.subrange(i + 1, s.len() as int));
            assert(rest@[0] == s@[i as int]);
            i += 1;
            assert(before + (seq![rest@[0]] + replaced(
                s@.subrange(i as int, s.len() as int),
                pattern@,
                with@,
            )) == out@ + replaced(s@.subrange(i as int, s.len() as int), pattern@, with@));
        }
    }
    assert(s@.subrange(s.len() as int, s.len() as int).len() == 0);
    assert(out@ + Seq::<char>::empty() == out@);
    out
}

/// What a handler for a kind of file asks for: a command for the shell,
/// run in the terminal where the handler begins with `@`, else in the
/// background.
#[derive(Debug, Clone, PartialEq, Eq)]
pub struct HandlerCommand {
    pub in_terminal: bool,
    pub command: String,
}

/// The handler `template` without the `@` that it may begin with.
pub open spec fn handler_body(template: Seq<char>) -> Seq<char> {
    if template.len() > 0 && template[0] == '@' {
        template.drop_first()
    } else {
        template
    }
}

/// The command that the handler `template` stands for when `path` is
/// opened: every `{{FILEPATH}}` in it becomes the path, quoted for the shell.
pub fn handler_command(template: &str, path: &str) -> (h: HandlerCommand)
    ensures
        h.in_terminal == (template@.len() > 0 && template@[0] == '@'),
        h.command@ == replaced(
            handler_body(template@),
            "{{FILEPATH}}"@,
            "'"@ + quotes_escaped(path@) + "'"@,
        ),
{
    let t = chars_of(template);
    let in_terminal = t.len() > 0 && t[0] == '@';
    let body = if in_terminal {
        subvec(&t, 1, t.len())
    } else {
        subvec(&t, 0, t.len())
    };
    assert(t@.subrange(0, t.len() as int) == t@);
    let pattern = chars_of("{{FILEPATH}}");
    proof {
        reveal_strlit("{{FILEPATH}}");
    }
    let quoted = chars_of(shell_escape(path).as_str());
    let command = replace_all(&body, &pattern, &quoted);
    HandlerCommand { in_terminal, command: string_of(&command) }
}

} // verus!
