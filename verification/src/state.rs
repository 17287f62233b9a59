//! The plain state of the panels and dialogs: which side is active, how a
//! panel is sorted, which dialog is open, and the small rules that go with
//! these.

use vstd::prelude::*;
use crate::text::{chars_of, lowercase_of, str_eq, to_lowercase};

verus! {

/// One of the two panels.
#[derive(Debug, Clone, Copy, PartialEq, Eq, Structural)]
pub enum PanelSide {
    Left,
    Right,
}

/// What a panel is sorted by.
#[derive(Debug, Clone, Copy, PartialEq, Eq, Structural)]
pub enum SortBy {
    Name,
    Type,
    Size,
    Modified,
}

/// The direction of a sort.
#[derive(Debug, Clone, Copy, PartialEq, Eq, Structural)]
pub enum SortOrder {
    Asc,
    Desc,
}

/// The screen that is shown.
#[derive(Debug, Clone, Copy, PartialEq, Eq, Structural)]
pub enum Screen {
    DualPanel,
    FileViewer,
    FileEditor,
    FileInfo,
    ProcessManager,
    Help,
    AIScreen,
    SystemInfo,
    ImageViewer,
    SearchResult,
}

/// The kind of a dialog.
#[derive(Debug, Clone, Copy, PartialEq, Eq, Structural)]
pub enum DialogType {
    Copy,
    Move,
    Delete,
    Mkdir,
    Rename,
    Search,
    Goto,
    Tar,
    TarExcludeConfirm,
    CopyExcludeConfirm,
    LargeImageConfirm,
    LargeFileConfirm,
    TrueColorWarning,
    Progress,
    DuplicateConflict,
    Settings,
    ExtensionHandlerError,
}

/// The other panel.
pub open spec fn other_side(side: PanelSide) -> PanelSide {
    match side {
        PanelSide::Left => PanelSide::Right,
        PanelSide::Right => PanelSide::Left,
    }
}

/// The panel that is not `side`.
pub fn opposite(side: PanelSide) -> (r: PanelSide)
    ensures
        r == other_side(side),
{
    match side {
        PanelSide::Left => PanelSide::Right,
        PanelSide::Right => PanelSide::Left,
    }
}

/// The sort that a lower-case settings word stands for: by name unless the
/// word names another.
pub open spec fn sort_by_of(lower: Seq<char>) -> SortBy {
    if lower == "type"@ {
        SortBy::Type
    } else if lower == "size"@ {
        SortBy::Size
    } else if lower == "modified"@ || lower == "date"@ {
        SortBy::Modified
    } else {
        SortBy::Name
    }
}

/// The direction that a lower-case settings word stands for: descending for
/// `desc`, ascending for anything else.
pub open spec fn sort_order_of(lower: Seq<char>) -> SortOrder {
    if lower == "desc"@ {
        SortOrder::Desc
    } else {
        SortOrder::Asc
    }
}

/// The sort that the lower-case settings word `lower` stands for.
pub fn sort_by_from_lowercase(lower: &str) -> (r: SortBy)
    ensures
        r == sort_by_of(lower@),
{
    if str_eq(lower, "type") {
        SortBy::Type
    } else if str_eq(lower, "size") {
        SortBy::Size
    } else if str_eq(lower, "modified") || str_eq(lower, "date") {
        SortBy::Modified
    } else {
        SortBy::Name
    }
}

/// The direction that the lower-case settings word `lower` stands for.
pub fn sort_order_from_lowercase(lower: &str) -> (r: SortOrder)
    ensures
        r == sort_order_of(lower@),
{
    if str_eq(lower, "desc") {
        SortOrder::Desc
    } else {
        SortOrder::Asc
    }
}

/// Reads the sort of a panel from its settings word, whatever the case of
/// its letters.
pub fn parse_sort_by(s: &str) -> (r: SortBy)
    ensures
        r == sort_by_of(lowercase_of(s@)),
{
    let lower = to_lowercase(s);
    sort_by_from_lowercase(lower.as_str())
}

/// Reads the direction of a sort from its settings word, whatever the case
/// of its letters.
pub fn parse_sort_order(s: &str) -> (r: SortOrder)
    ensures
        r == sort_order_of(lowercase_of(s@)),
{
    let lower = to_lowercase(s);
    sort_order_from_lowercase(lower.as_str())
}

/// The settings word for a sort.
pub open spec fn sort_by_word(sort_by: SortBy) -> Seq<char> {
    match sort_by {
        SortBy::Name => "name"@,
        SortBy::Type => "type"@,
        SortBy::Size => "size"@,
        SortBy::Modified => "modified"@,
    }
}

/// The settings word for a direction.
pub open spec fn sort_order_word(sort_order: SortOrder) -> Seq<char> {
    match sort_order {
        SortOrder::Asc => "asc"@,
        SortOrder::Desc => "desc"@,
    }
}

/// The settings word for `sort_by`.
pub fn sort_by_to_string(sort_by: SortBy) -> (s: String)
    ensures
        s@ == sort_by_word(sort_by),
{
    match sort_by {
        SortBy::Name => String::from_str("name"),
        SortBy::Type => String::from_str("type"),
        SortBy::Size => String::from_str("size"),
        SortBy::Modified => String::from_str("modified"),
    }
}

/// The settings word for `sort_order`.
pub fn sort_order_to_string(sort_order: SortOrder) -> (s: String)
    ensures
        s@ == sort_order_word(sort_order),
{
    match sort_order {
        SortOrder::Asc => String::from_str("asc"),
        SortOrder::Desc => String::from_str("desc"),
    }
}

/// A word written by `sort_by_to_string` is read back as the same sort, once
/// it is in lower case (which it is already).
pub proof fn lemma_sort_by_word_reads_back(sort_by: SortBy)
    ensures
        sort_by_of(sort_by_word(sort_by)) == sort_by,
{
    reveal_strlit("name");
    reveal_strlit("type");
    reveal_strlit("size");
    reveal_strlit("modified");
    reveal_strlit("date");
    match sort_by {
        SortBy::Name => {
            assert("name"@[0] != "type"@[0]);
            assert("name"@[0] != "size"@[0]);
            assert("name"@[0] != "modified"@[0]);
            assert("name"@[0] != "date"@[0]);
        },
        SortBy::Type => {},
        SortBy::Size => {
            assert("size"@[0] != "type"@[0]);
        },
        SortBy::Modified => {
            assert("modified"@[0] != "type"@[0]);
            assert("modified"@[0] != "size"@[0]);
        },
    }
}

/// A word written by `sort_order_to_string` is read back as the same direction.
pub proof fn lemma_sort_order_word_reads_back(sort_order: SortOrder)
    ensures
        sort_order_of(sort_order_word(sort_order)) == sort_order,
{
    reveal_strlit("asc");
    reveal_strlit("desc");
    assert("asc"@[0] != "desc"@[0]);
}

/// Whether the characters of `pattern` occur in `text` in the same order,
/// with anything between them.
pub open spec fn is_subsequence(pattern: Seq<char>, text: Seq<char>) -> bool
    decreases text.len(),
{
    if pattern.len() == 0 {
        true
    } else if text.len() == 0 {
        false
    } else if pattern[0] == text[0] {
        is_subsequence(pattern.drop_first(), text.drop_first())
    } else {
        is_subsequence(pattern, text.drop_first())
    }
}

/// Whether all characters of `pattern` occur in `text`, in order: `thse`
/// matches `/path/to/base`.
pub fn fuzzy_match(text: &str, pattern: &str) -> (r: bool)
    ensures
        r == is_subsequence(pattern@, text@),
{
    let t = chars_of(text);
    let p = chars_of(pattern);
    let mut i: usize = 0;
    let mut j: usize = 0;
    assert(p@.subrange(0, p.len() as int) == p@);
    assert(t@.subrange(0, t.len() as int) == t@);
    while j < p.len() && i < t.len()
        invariant
            i <= t.len(),
            j <= p.len(),
            is_subsequence(p@, t@) == is_subsequence(
                p@.subrange(j as int, p.len() as int),
                t@.subrange(i as int, t.len() as int),
            ),
        decreases t.len() - i,
    {
        assert(t@.subrange(i as int, t.len() as int).drop_first() == t@.subrange(
            i + 1,
            t.len() as int,
        ));
        assert(p@.subrange(j as int, p.len() as int).drop_first() == p@.subrange(
            j + 1,
            p.len() as int,
        ));
        if t[i] == p[j] {
            j += 1;
        }
        i += 1;
    }
    j == p.len()
}

/// The state of the settings dialog: the themes on offer and the one chosen.
#[derive(Debug, Clone, PartialEq, Eq)]
pub struct SettingsState {
    pub themes: Vec<String>,
    pub theme_index: usize,
}

impl SettingsState {
    /// The name of the theme that is chosen; `light` where the index points
    /// at none.
    pub fn current_theme(&self) -> (name: &str)
        ensures
            self.theme_index < self.themes.len() ==> name@ == self.themes[self.theme_index as int]@,
            self.theme_index >= self.themes.len() ==> name@ == "light"@,
    {
        if self.theme_index < self.themes.len() {
            self.themes[self.theme_index].as_str()
        } else {
            "light"
        }
    }

    /// Chooses the theme after the one chosen, the first after the last.
    /// Does nothing where there is no theme.
    pub fn next_theme(&mut self)
        ensures
            final(self).themes == old(self).themes,
            old(self).themes.len() > 0 ==> final(self).theme_index == (old(self).theme_index + 1)
                % (old(self).themes.len() as int),
            old(self).themes.len() == 0 ==> final(self).theme_index == old(self).theme_index,
    {
        let n = self.themes.len();
        if n > 0 {
            proof {
                vstd::arithmetic::div_mod::lemma_add_mod_noop(
                    self.theme_index as int,
                    1,
                    n as int,
                );
                if n > 1 {
                    vstd::arithmetic::div_mod::lemma_small_mod(1, n as nat);
                }
            }
            self.theme_index = (self.theme_index % n + 1) % n;
        }
    }

    /// Chooses the theme before the one chosen, the last before the first.
    /// Does nothing where there is no theme.
    pub fn prev_theme(&mut self)
        ensures
            final(self).themes == old(self).themes,
            old(self).themes.len() > 0 && old(self).theme_index == 0 ==> final(self).theme_index
                == old(self).themes.len() - 1,
            old(self).themes.len() > 0 && old(self).theme_index > 0 ==> final(self).theme_index
                == old(self).theme_index - 1,
            old(self).themes.len() == 0 ==> final(self).theme_index == old(self).theme_index,
    {
        if self.themes.len() > 0 {
            self.theme_index = if self.theme_index == 0 {
                self.themes.len() - 1
            } else {
                self.theme_index - 1
            };
        }
    }
}

/// Going to the next theme and back leaves the choice where it was, as long
/// as the index points at a theme.
pub proof fn lemma_next_then_prev(index: int, n: int)
    requires
        0 <= index < n,
    ensures
        ({
            let next = (index + 1) % n;
            let back = if next == 0 {
                n - 1
            } else {
                next - 1
            };
            back == index
        }),
{
    if index + 1 == n {
        assert((index + 1) % n == 0);
    } else {
        assert((index + 1) % n == index + 1) by {
            vstd::arithmetic::div_mod::lemma_small_mod((index + 1) as nat, n as nat);
        }
    }
}

/// How many ticks a message stays on the status line: about one second.
pub const MESSAGE_TICKS: u8 = 10;

/// How far the help screen is scrolled.
#[derive(Debug, Clone, Copy, PartialEq, Eq, Structural)]
pub struct HelpState {
    pub scroll_offset: usize,
    pub max_scroll: usize,
    pub visible_height: usize,
}

impl Default for HelpState {
    fn default() -> (s: Self)
        ensures
            s == (HelpState { scroll_offset: 0, max_scroll: 0, visible_height: 0 }),
    {
        HelpState { scroll_offset: 0, max_scroll: 0, visible_height: 0 }
    }
}

/// The candidates offered while a path is typed.
#[derive(Debug, Clone, PartialEq, Eq)]
pub struct PathCompletion {
    pub suggestions: Vec<String>,
    pub selected_index: usize,
    pub visible: bool,
}

impl Default for PathCompletion {
    fn default() -> (s: Self)
        ensures
            s.suggestions@.len() == 0,
            s.selected_index == 0,
            !s.visible,
    {
        PathCompletion { suggestions: Vec::new(), selected_index: 0, visible: false }
    }
}

/// A dialog that is open.
#[derive(Debug, Clone, PartialEq, Eq)]
pub struct Dialog {
    pub dialog_type: DialogType,
    pub input: String,
    /// Where the cursor stands in `input`, counted in characters.
    pub cursor_pos: usize,
    pub message: String,
    pub completion: Option<PathCompletion>,
    /// The button chosen: 0 for yes, 1 for no.
    pub selected_button: usize,
    /// The part of `input` that is selected, as first and one past last
    /// character.
    pub selection: Option<(usize, usize)>,
}

/// Whether `d` is a dialog of the kind `dialog_type` with no text, the
/// first button chosen and nothing selected.
pub open spec fn is_plain_dialog(d: Dialog, dialog_type: DialogType) -> bool {
    &&& d.dialog_type == dialog_type
    &&& d.input@.len() == 0
    &&& d.cursor_pos == 0
    &&& d.message@.len() == 0
    &&& d.completion is None
    &&& d.selected_button == 0
    &&& d.selection is None
}

impl Dialog {
    /// A dialog of the kind `dialog_type` with no text, the first button
    /// chosen and nothing selected.
    pub fn plain(dialog_type: DialogType) -> (d: Dialog)
        ensures
            is_plain_dialog(d, dialog_type),
            d.input@ == Seq::<char>::empty(),
            d.message@ == Seq::<char>::empty(),
    {
        Dialog {
            dialog_type,
            input: String::new(),
            cursor_pos: 0,
            message: String::new(),
            completion: None,
            selected_button: 0,
            selection: None,
        }
    }
}

/// What the user is asked before an archive is made without the links that
/// point out of the tree.
#[derive(Debug, Clone, PartialEq, Eq)]
pub struct TarExcludeState {
    pub archive_name: String,
    pub files: Vec<String>,
    pub excluded_paths: Vec<String>,
    pub scroll_offset: usize,
}

/// What the user is asked before a copy or move that meets links to
/// sensitive places.
#[derive(Debug, Clone, PartialEq, Eq)]
pub struct CopyExcludeState {
    pub target_path: String,
    pub excluded_paths: Vec<String>,
    pub scroll_offset: usize,
    pub is_move: bool,
}

/// What is watched of a theme file so that a change of it is noticed.
#[derive(Debug, Clone, PartialEq, Eq)]
pub struct ThemeWatchState {
    /// The path of the theme file, where the theme comes from a file.
    pub theme_path: Option<String>,
    /// When the file was last changed, as the file system counts time.
    pub last_modified: Option<u64>,
    /// Counts the calls of `check_due`; every tenth of them is a check.
    pub check_counter: u8,
}

impl ThemeWatchState {
    /// The watch state for the theme file at `theme_path`, last changed at
    /// `last_modified`.
    pub fn watch_theme(theme_path: Option<String>, last_modified: Option<u64>) -> (s: Self)
        ensures
            s.theme_path == theme_path,
            s.last_modified == last_modified,
            s.check_counter == 0,
    {
        ThemeWatchState { theme_path, last_modified, check_counter: 0 }
    }

    /// Counts one tick. Returns whether the theme file is to be looked at
    /// now: on every tenth tick, where there is a file.
    pub fn check_due(&mut self) -> (due: bool)
        ensures
            final(self).theme_path == old(self).theme_path,
            final(self).last_modified == old(self).last_modified,
            final(self).check_counter == (if old(self).check_counter == 255 {
                0u8
            } else {
                (old(self).check_counter + 1) as u8
            }),
            due == (final(self).check_counter % 10 == 0 && final(self).theme_path is Some),
    {
        self.check_counter = if self.check_counter == 255 {
            0
        } else {
            self.check_counter + 1
        };
        self.check_counter % 10 == 0 && self.theme_path.is_some()
    }

    /// Takes note of when the theme file was last changed, as just read.
    /// Returns whether that differs from what was known, which means that
    /// the theme is to be loaded again.
    pub fn check_for_changes(&mut self, current_modified: Option<u64>) -> (changed: bool)
        ensures
            changed == (current_modified != old(self).last_modified),
            final(self).last_modified == current_modified,
            final(self).theme_path == old(self).theme_path,
            final(self).check_counter == old(self).check_counter,
    {
        let changed = match (current_modified, self.last_modified) {
            (Some(a), Some(b)) => a != b,
            (None, None) => false,
            _ => true,
        };
        if changed {
            self.last_modified = current_modified;
        }
        changed
    }

    /// Turns the watch to another theme file.
    pub fn update_theme(&mut self, theme_path: Option<String>, last_modified: Option<u64>)
        ensures
            final(self).theme_path == theme_path,
            final(self).last_modified == last_modified,
            final(self).check_counter == 0,
    {
        self.theme_path = theme_path;
        self.last_modified = last_modified;
        self.check_counter = 0;
    }
}

} // verus!
