//! The settings of the program as the workspace knows them: the sort and
//! the folder of each panel, the theme, and the dialog in which a theme is
//! chosen. Reading and writing the settings file is left to the caller.

use vstd::prelude::*;
use crate::archive_job::opt_text;
use crate::listing::{
    compare_texts, ending_of, file_ending, lemma_text_order_carries, lemma_text_order_same,
    lemma_text_order_turns, text_order,
};
use crate::cli::last_index_of;
use crate::message::lemma_last_index_of;
use crate::navigate::first_text_index;
use crate::state::{
    is_plain_dialog, parse_sort_by, parse_sort_order, sort_by_of, sort_by_to_string, sort_by_word,
    sort_order_of, sort_order_to_string, sort_order_word, Dialog, DialogType, PanelSide, Screen,
    SettingsState, SortBy, SortOrder,
};
use crate::text::{
    chars_of, concat2, lowercase_of, str_eq, string_of, subvec, texts, to_lowercase,
};
use crate::workspace::{App, PanelState};

verus! {

/// What the settings say of one panel.
#[derive(Debug, Clone, PartialEq, Eq)]
pub struct PanelSettings {
    /// The folder that the panel shows first, where one is set.
    pub start_path: Option<String>,
    /// The word for the sort: `name`, `type`, `size` or `modified`.
    pub sort_by: String,
    /// The word for the order: `asc` or `desc`.
    pub sort_order: String,
}

/// The settings of the program.
#[derive(Debug, Clone, PartialEq, Eq)]
pub struct Settings {
    /// The name of the theme.
    pub theme_name: String,
    pub left_panel: PanelSettings,
    pub right_panel: PanelSettings,
    /// The word for the panel that takes the keys: `left` or `right`.
    pub active_panel: String,
    /// The archive tool to use in place of the one found, where one is set.
    pub tar_path: Option<String>,
    /// The folders that have a bookmark.
    pub bookmarked_path: Vec<String>,
}

impl Default for PanelSettings {
    fn default() -> (s: Self)
        ensures
            s.start_path is None,
            s.sort_by@ == "name"@,
            s.sort_order@ == "asc"@,
    {
        PanelSettings {
            start_path: None,
            sort_by: String::from_str("name"),
            sort_order: String::from_str("asc"),
        }
    }
}

impl Default for Settings {
    fn default() -> (s: Self)
        ensures
            s.theme_name@ == "light"@,
            s.left_panel.start_path is None,
            s.left_panel.sort_by@ == "name"@,
            s.left_panel.sort_order@ == "asc"@,
            s.right_panel.start_path is None,
            s.right_panel.sort_by@ == "name"@,
            s.right_panel.sort_order@ == "asc"@,
            s.active_panel@ == "left"@,
            s.tar_path is None,
            s.bookmarked_path@.len() == 0,
    {
        Settings {
            theme_name: String::from_str("light"),
            left_panel: PanelSettings::default(),
            right_panel: PanelSettings::default(),
            active_panel: String::from_str("left"),
            tar_path: None,
            bookmarked_path: Vec::new(),
        }
    }
}

/// The name of the theme that the file `name` holds: the name without its
/// ending `.json`. A file with another ending holds no theme.
pub open spec fn theme_of_file(name: Seq<char>) -> Option<Seq<char>> {
    if ending_of(name) == Some("json"@) {
        Some(name.subrange(0, name.len() - 5))
    } else {
        None
    }
}

/// Whether `theme` is a theme on offer: one of the two that are built in,
/// or one that a file of `files` holds.
pub open spec fn is_theme(theme: Seq<char>, files: Seq<Seq<char>>) -> bool {
    ||| theme == "light"@
    ||| theme == "dark"@
    ||| exists|k: int| 0 <= k < files.len() && #[trigger] theme_of_file(files[k]) == Some(theme)
}

/// Each text of `list` comes before the next in the order of the dictionary.
pub open spec fn strictly_sorted(list: Seq<Seq<char>>) -> bool {
    forall|i: int, j: int| 0 <= i < j < list.len() ==> text_order(#[trigger] list[i], #[trigger] list[j]) < 0
}

/// The index of `theme` among `themes`; 0 where it is not among them.
pub open spec fn theme_index_of(themes: Seq<Seq<char>>, theme: Seq<char>) -> int {
    match first_text_index(themes, theme, 0) {
        Some(i) => i,
        None => 0,
    }
}

fn theme_name_of(file: &str) -> (r: Option<String>)
    ensures
        opt_text(r) == theme_of_file(file@),
{
    match file_ending(file) {
        Some(ending) => {
            if str_eq(ending.as_str(), "json") {
                proof {
                    reveal_strlit("json");
                    lemma_last_index_of(file@, '.', file@.len() as int);
                    let at = last_index_of(file@, '.', file@.len() as int);
                    assert(at is Some);
                    assert(ending@ == file@.subrange(at->0 + 1, file@.len() as int));
                    assert(ending@.len() == 4);
                }
                let v = chars_of(file);
                Some(string_of(&subvec(&v, 0, v.len() - 5)))
            } else {
                None
            }
        },
        None => None,
    }
}

/// Puts `name` into the sorted list `themes`, unless it is there.
fn insert_sorted(themes: &mut Vec<String>, name: String)
    requires
        strictly_sorted(texts(old(themes)@)),
    ensures
        strictly_sorted(texts(final(themes)@)),
        forall|x: Seq<char>|
            texts(final(themes)@).contains(x) <==> (texts(old(themes)@).contains(x) || x == name@),
{
    let ghost before = texts(themes@);
    assert(before.len() == themes@.len());
    let wanted = chars_of(name.as_str());
    let mut p: usize = 0;
    let mut found = false;
    let mut placed = false;
    while p < themes.len() && !found && !placed
        invariant
            p <= themes@.len(),
            themes@ == old(themes)@,
            before == texts(themes@),
            before.len() == themes@.len(),
            wanted@ == name@,
            forall|k: int| 0 <= k < p ==> text_order(#[trigger] before[k], name@) < 0,
            found ==> p < themes@.len() && before[p as int] == name@,
            placed ==> p < themes@.len() && text_order(before[p as int], name@) > 0,
        decreases themes@.len() - p + (if found || placed { 0int } else { 1 }),
    {
        assert(before[p as int] == themes@[p as int]@);
        let order = compare_texts(&chars_of(themes[p].as_str()), &wanted);
        proof {
            lemma_text_order_same(before[p as int], name@);
        }
        if order == 0 {
            found = true;
        } else if order > 0 {
            placed = true;
        } else {
            p += 1;
        }
    }
    if found {
        assert forall|x: Seq<char>|
            texts(themes@).contains(x) <==> (before.contains(x) || x == name@) by {
            if x == name@ {
                assert(before[p as int] == x);
            }
        }
        return;
    }
    themes.insert(p, name);
    let ghost after = texts(themes@);
    assert(after =~= before.insert(p as int, name@));
    assert forall|i: int, j: int| 0 <= i < j < after.len() implies text_order(
        #[trigger] after[i],
        #[trigger] after[j],
    ) < 0 by {
        if j == p {
            assert(after[i] == before[i]);
        } else if i == p {
            assert(after[j] == before[j - 1]);
            lemma_text_order_turns(before[p as int], name@);
            if j - 1 > p {
                assert(text_order(before[p as int], before[j - 1]) < 0);
                lemma_text_order_carries(name@, before[p as int], before[j - 1]);
            }
        } else {
            let a = if i < p {
                i
            } else {
                i - 1
            };
            let b = if j < p {
                j
            } else {
                j - 1
            };
            assert(after[i] == before[a]);
            assert(after[j] == before[b]);
            assert(a < b);
        }
    }
    assert forall|x: Seq<char>| after.contains(x) <==> (before.contains(x) || x == name@) by {
        if after.contains(x) {
            let k = choose|k: int| 0 <= k < after.len() && after[k] == x;
            if k < p {
                assert(before[k] == x);
            } else if k > p {
                assert(before[k - 1] == x);
            }
        }
        if before.contains(x) {
            let k = choose|k: int| 0 <= k < before.len() && before[k] == x;
            if k < p {
                assert(after[k] == x);
            } else {
                assert(after[k + 1] == x);
            }
        }
        if x == name@ {
            assert(after[p as int] == x);
        }
    }
}

impl SettingsState {
    /// The state of the dialog in which a theme is chosen, as it is
    /// opened: on offer are the two themes that are built in and those that
    /// the files `theme_files` of the folder of themes hold, in the order
    /// of the dictionary and each once; chosen is the theme of the
    /// settings, or the first where that is not on offer.
    pub fn new(settings: &Settings, theme_files: &Vec<String>) -> (s: SettingsState)
        ensures
            strictly_sorted(texts(s.themes@)),
            forall|x: Seq<char>|
                texts(s.themes@).contains(x) <==> is_theme(x, texts(theme_files@)),
            s.theme_index == theme_index_of(texts(s.themes@), settings.theme_name@),
    {
        themes_on_offer(settings.theme_name.as_str(), theme_files)
    }
}

fn themes_on_offer(current: &str, theme_files: &Vec<String>) -> (s: SettingsState)
    ensures
        strictly_sorted(texts(s.themes@)),
        forall|x: Seq<char>| texts(s.themes@).contains(x) <==> is_theme(x, texts(theme_files@)),
        s.theme_index == theme_index_of(texts(s.themes@), current@),
{
    let ghost files = texts(theme_files@);
    assert(files.len() == theme_files@.len());
    let mut themes: Vec<String> = Vec::new();
    assert(strictly_sorted(texts(themes@)));
    insert_sorted(&mut themes, String::from_str("light"));
    insert_sorted(&mut themes, String::from_str("dark"));
    let mut i: usize = 0;
    while i < theme_files.len()
        invariant
            i <= theme_files@.len(),
            files == texts(theme_files@),
            files.len() == theme_files@.len(),
            strictly_sorted(texts(themes@)),
            forall|x: Seq<char>|
                texts(themes@).contains(x) <==> is_theme(x, files.subrange(0, i as int)),
        decreases theme_files@.len() - i,
    {
        let ghost next = files.subrange(0, i + 1);
        assert(files[i as int] == theme_files@[i as int]@);
        let theme = theme_name_of(theme_files[i].as_str());
        match theme {
            Some(name) => {
                insert_sorted(&mut themes, name);
                assert forall|x: Seq<char>| texts(themes@).contains(x) <==> is_theme(x, next) by {
                    lemma_more_files(x, files, i as int);
                }
            },
            None => {
                assert forall|x: Seq<char>| texts(themes@).contains(x) <==> is_theme(x, next) by {
                    lemma_more_files(x, files, i as int);
                }
            },
        }
        i += 1;
    }
    assert(files.subrange(0, theme_files@.len() as int) =~= files);
    let ghost all = texts(themes@);
    assert(all.len() == themes@.len());
    let mut index: usize = 0;
    let mut k: usize = 0;
    let mut found = false;
    while k < themes.len() && !found
        invariant
            k <= themes@.len(),
            all == texts(themes@),
            all.len() == themes@.len(),
            !found ==> first_text_index(all, current@, 0) == first_text_index(
                all,
                current@,
                k as int,
            ),
            !found ==> index == 0,
            found ==> first_text_index(all, current@, 0) == Some(index as int),
        decreases themes@.len() - k + (if found { 0int } else { 1 }),
    {
        assert(all[k as int] == themes@[k as int]@);
        if str_eq(themes[k].as_str(), current) {
            index = k;
            found = true;
        } else {
            k += 1;
        }
    }
    SettingsState { themes, theme_index: index }
}

/// With one more file, the themes on offer are those of the files before
/// and the one that the file holds.
proof fn lemma_more_files(x: Seq<char>, files: Seq<Seq<char>>, i: int)
    requires
        0 <= i < files.len(),
    ensures
        is_theme(x, files.subrange(0, i + 1)) <==> (is_theme(x, files.subrange(0, i))
            || theme_of_file(files[i]) == Some(x)),
{
    let so_far = files.subrange(0, i);
    let next = files.subrange(0, i + 1);
    if is_theme(x, next) && x != "light"@ && x != "dark"@ {
        let k = choose|k: int| 0 <= k < next.len() && #[trigger] theme_of_file(next[k]) == Some(x);
        if k < i {
            assert(so_far[k] == next[k]);
        } else {
            assert(next[k] == files[i]);
        }
    }
    if is_theme(x, so_far) && x != "light"@ && x != "dark"@ {
        let k = choose|k: int|
            0 <= k < so_far.len() && #[trigger] theme_of_file(so_far[k]) == Some(x);
        assert(next[k] == so_far[k]);
    }
    if theme_of_file(files[i]) == Some(x) {
        assert(next[i] == files[i]);
    }
}

/// What is to be done after the settings file was read again.
#[derive(Debug, Clone, PartialEq, Eq)]
pub struct ReloadOutcome {
    /// Whether the settings were taken over.
    pub ok: bool,
    /// The theme to load, where the settings name another than before.
    pub theme: Option<String>,
    /// Whether the left panel is to be filled again, its sort having changed.
    pub reload_left: bool,
    /// Whether the right panel is to be filled again, its sort having changed.
    pub reload_right: bool,
}

/// What is to be done after the dialog of the settings was closed.
#[derive(Debug, Clone, PartialEq, Eq)]
pub struct SettingsApplied {
    /// Whether the settings are to be written.
    pub save: bool,
    /// The theme to load, where another than before was chosen.
    pub theme: Option<String>,
}

/// The side that the settings word `word` names: the right one for
/// `right`, however it is written, else the left one.
pub open spec fn side_of_word(word: Seq<char>) -> PanelSide {
    if lowercase_of(word) == "right"@ {
        PanelSide::Right
    } else {
        PanelSide::Left
    }
}

/// The settings word for the side `side`.
pub open spec fn word_of_side(side: PanelSide) -> Seq<char> {
    match side {
        PanelSide::Left => "left"@,
        PanelSide::Right => "right"@,
    }
}

/// Whether `p` is a panel for the folder `path`, sorted as `settings` say,
/// and not filled yet.
pub open spec fn panel_as_set(p: PanelState, path: Seq<char>, settings: PanelSettings) -> bool {
    &&& p.path@ == path
    &&& p.files@.len() == 0
    &&& p.selected_index == 0
    &&& p.selected_files@ == Set::<Seq<char>>::empty()
    &&& p.sort_by == sort_by_of(lowercase_of(settings.sort_by@))
    &&& p.sort_order == sort_order_of(lowercase_of(settings.sort_order@))
    &&& p.scroll_offset == 0
    &&& p.pending_focus is None
}

/// Whether `s` are the settings of the panel `p`: its folder and the words
/// for its sort.
pub open spec fn settings_of_panel(s: PanelSettings, p: PanelState) -> bool {
    &&& s.start_path matches Some(path) && path@ == p.path@
    &&& s.sort_by@ == sort_by_word(p.sort_by)
    &&& s.sort_order@ == sort_order_word(p.sort_order)
}

fn panel_settings_of(panel: &PanelState) -> (s: PanelSettings)
    ensures
        settings_of_panel(s, *panel),
{
    PanelSettings {
        start_path: Some(panel.path.clone()),
        sort_by: sort_by_to_string(panel.sort_by),
        sort_order: sort_order_to_string(panel.sort_order),
    }
}

/// Sorts the panel as the settings of the panel say. Returns whether the
/// sort has changed.
fn take_sort(panel: &mut PanelState, settings: &PanelSettings) -> (changed: bool)
    ensures
        final(panel).sort_by == sort_by_of(lowercase_of(settings.sort_by@)),
        final(panel).sort_order == sort_order_of(lowercase_of(settings.sort_order@)),
        changed == (old(panel).sort_by != final(panel).sort_by
            || old(panel).sort_order != final(panel).sort_order),
        final(panel).path == old(panel).path,
        final(panel).files == old(panel).files,
        final(panel).selected_index == old(panel).selected_index,
        final(panel).selected_files == old(panel).selected_files,
        final(panel).scroll_offset == old(panel).scroll_offset,
        final(panel).pending_focus == old(panel).pending_focus,
        final(panel).disk_total == old(panel).disk_total,
        final(panel).disk_available == old(panel).disk_available,
{
    let sort_by = parse_sort_by(settings.sort_by.as_str());
    let sort_order = parse_sort_order(settings.sort_order.as_str());
    let changed = !same_sort(panel.sort_by, sort_by) || !same_order(panel.sort_order, sort_order);
    panel.sort_by = sort_by;
    panel.sort_order = sort_order;
    changed
}

fn same_sort(a: SortBy, b: SortBy) -> (r: bool)
    ensures
        r == (a == b),
{
    match (a, b) {
        (SortBy::Name, SortBy::Name) => true,
        (SortBy::Type, SortBy::Type) => true,
        (SortBy::Size, SortBy::Size) => true,
        (SortBy::Modified, SortBy::Modified) => true,
        _ => false,
    }
}

fn same_order(a: SortOrder, b: SortOrder) -> (r: bool)
    ensures
        r == (a == b),
{
    match (a, b) {
        (SortOrder::Asc, SortOrder::Asc) => true,
        (SortOrder::Desc, SortOrder::Desc) => true,
        _ => false,
    }
}

impl App {
    /// The workspace as the settings say: two panels for the folders
    /// `left_path` and `right_path`, not filled yet, each sorted as the
    /// settings of its side say, and the keys with the side that the
    /// settings name.
    pub fn with_settings(settings: Settings, left_path: String, right_path: String) -> (app: App)
        ensures
            panel_as_set(app.left_panel, left_path@, settings.left_panel),
            panel_as_set(app.right_panel, right_path@, settings.right_panel),
            app.active_panel == side_of_word(settings.active_panel@),
            app.settings == settings,
            app.settings_state is None,
            app.current_screen == Screen::DualPanel,
            app.dialog is None,
            app.message is None,
            app.message_timer == 0,
            app.clipboard is None,
            app.pending_large_image is None,
            app.pending_large_file is None,
            app.ai_state is None,
            app.ai_panel_side is None,
            app.ai_previous_panel is None,
            app.conflict_state is None,
            app.copy_exclude_state is None,
            app.tar_exclude_state is None,
            app.file_operation_progress is None,
            app.pending_tar_archive is None,
            app.pending_extract_dir is None,
    {
        let active = to_lowercase(settings.active_panel.as_str());
        let active_panel = if str_eq(active.as_str(), "right") {
            PanelSide::Right
        } else {
            PanelSide::Left
        };
        let left_panel = PanelState::with_settings(
            left_path,
            settings.left_panel.sort_by.as_str(),
            settings.left_panel.sort_order.as_str(),
        );
        let right_panel = PanelState::with_settings(
            right_path,
            settings.right_panel.sort_by.as_str(),
            settings.right_panel.sort_order.as_str(),
        );
        App {
            left_panel,
            right_panel,
            active_panel,
            current_screen: Screen::DualPanel,
            dialog: None,
            message: None,
            message_timer: 0,
            clipboard: None,
            pending_large_image: None,
            pending_large_file: None,
            ai_state: None,
            ai_panel_side: None,
            ai_previous_panel: None,
            settings,
            settings_state: None,
            conflict_state: None,
            copy_exclude_state: None,
            tar_exclude_state: None,
            file_operation_progress: None,
            pending_tar_archive: None,
            pending_extract_dir: None,
        }
    }

    /// Notes in the settings where the workspace stands, so that they can
    /// be written: the folder and the sort of each panel, and the side that
    /// takes the keys. The rest of the settings stays.
    pub fn save_settings(&mut self)
        ensures
            settings_of_panel(final(self).settings.left_panel, old(self).left_panel),
            settings_of_panel(final(self).settings.right_panel, old(self).right_panel),
            final(self).settings.active_panel@ == word_of_side(old(self).active_panel),
            final(self).settings.theme_name == old(self).settings.theme_name,
            final(self).settings.tar_path == old(self).settings.tar_path,
            final(self).settings.bookmarked_path == old(self).settings.bookmarked_path,
            final(self).settings_state == old(self).settings_state,
            final(self).same_panels_but_settings(old(self)),
    {
        self.settings.left_panel = panel_settings_of(&self.left_panel);
        self.settings.right_panel = panel_settings_of(&self.right_panel);
        self.settings.active_panel = match self.active_panel {
            PanelSide::Left => String::from_str("left"),
            PanelSide::Right => String::from_str("right"),
        };
    }

    /// Nothing but the settings, and the dialog in which a theme is
    /// chosen, differs from `other`.
    pub open spec fn same_panels_but_settings(&self, other: &App) -> bool {
        &&& self.left_panel == other.left_panel
        &&& self.right_panel == other.right_panel
        &&& self.active_panel == other.active_panel
        &&& self.current_screen == other.current_screen
        &&& self.dialog == other.dialog
        &&& self.message == other.message
        &&& self.message_timer == other.message_timer
        &&& self.clipboard == other.clipboard
        &&& self.same_pending(other)
        &&& self.same_jobs(other)
    }

    /// Takes over the settings `loaded` that were read from the settings
    /// file, or says on the status line why they could not be read. The
    /// panels are sorted as the settings say and keep their folders; the
    /// bookmarks stay as they are. Returns what the caller has to do.
    pub fn reload_settings(&mut self, loaded: Result<Settings, String>) -> (outcome: ReloadOutcome)
        ensures
            final(self).active_panel == old(self).active_panel,
            final(self).current_screen == old(self).current_screen,
            final(self).dialog == old(self).dialog,
            final(self).clipboard == old(self).clipboard,
            final(self).same_pending(old(self)),
            final(self).same_jobs(old(self)),
            final(self).settings_state == old(self).settings_state,
            match loaded {
                Err(reason) => {
                    &&& outcome == (ReloadOutcome {
                        ok: false,
                        theme: None,
                        reload_left: false,
                        reload_right: false,
                    })
                    &&& final(self).says("Settings error: "@ + reason@)
                    &&& final(self).settings == old(self).settings
                    &&& final(self).left_panel == old(self).left_panel
                    &&& final(self).right_panel == old(self).right_panel
                },
                Ok(new) => {
                    &&& outcome.ok
                    &&& final(self).says("Settings reloaded"@)
                    &&& opt_text(outcome.theme) == (if new.theme_name@ != old(self).settings.theme_name@ {
                        Some(new.theme_name@)
                    } else {
                        None
                    })
                    &&& final(self).left_panel.sort_by == sort_by_of(
                        lowercase_of(new.left_panel.sort_by@),
                    )
                    &&& final(self).left_panel.sort_order == sort_order_of(
                        lowercase_of(new.left_panel.sort_order@),
                    )
                    &&& final(self).right_panel.sort_by == sort_by_of(
                        lowercase_of(new.right_panel.sort_by@),
                    )
                    &&& final(self).right_panel.sort_order == sort_order_of(
                        lowercase_of(new.right_panel.sort_order@),
                    )
                    &&& outcome.reload_left == (final(self).left_panel.sort_by != old(self).left_panel.sort_by
                        || final(self).left_panel.sort_order != old(self).left_panel.sort_order)
                    &&& outcome.reload_right == (final(self).right_panel.sort_by != old(self).right_panel.sort_by
                        || final(self).right_panel.sort_order != old(self).right_panel.sort_order)
                    &&& final(self).left_panel.path == old(self).left_panel.path
                    &&& final(self).left_panel.files == old(self).left_panel.files
                    &&& final(self).left_panel.selected_files == old(self).left_panel.selected_files
                    &&& final(self).right_panel.path == old(self).right_panel.path
                    &&& final(self).right_panel.files == old(self).right_panel.files
                    &&& final(self).right_panel.selected_files == old(self).right_panel.selected_files
                    &&& final(self).settings.theme_name == new.theme_name
                    &&& final(self).settings.left_panel == new.left_panel
                    &&& final(self).settings.right_panel == new.right_panel
                    &&& final(self).settings.active_panel == new.active_panel
                    &&& final(self).settings.tar_path == new.tar_path
                    &&& final(self).settings.bookmarked_path == old(self).settings.bookmarked_path
                },
            },
    {
        let new = match loaded {
            Ok(new) => new,
            Err(reason) => {
                let text = concat2("Settings error: ", reason.as_str());
                self.show_message(text.as_str());
                return ReloadOutcome {
                    ok: false,
                    theme: None,
                    reload_left: false,
                    reload_right: false,
                };
            },
        };
        let theme = if !str_eq(new.theme_name.as_str(), self.settings.theme_name.as_str()) {
            Some(new.theme_name.clone())
        } else {
            None
        };
        let reload_left = take_sort(&mut self.left_panel, &new.left_panel);
        let reload_right = take_sort(&mut self.right_panel, &new.right_panel);
        self.settings.active_panel = new.active_panel;
        self.settings.tar_path = new.tar_path;
        self.settings.theme_name = new.theme_name;
        self.settings.left_panel = new.left_panel;
        self.settings.right_panel = new.right_panel;
        self.show_message("Settings reloaded");
        ReloadOutcome { ok: true, theme, reload_left, reload_right }
    }

    /// Whether the file at `path` is the settings file, which is at
    /// `config_path` where its place is known.
    pub fn is_settings_file(path: &str, config_path: Option<&str>) -> (r: bool)
        ensures
            r == (config_path matches Some(c) && c@ == path@),
    {
        match config_path {
            Some(c) => str_eq(path, c),
            None => false,
        }
    }

    /// Opens the dialog in which a theme is chosen; `theme_files` are the
    /// files of the folder of themes.
    pub fn show_settings_dialog(&mut self, theme_files: &Vec<String>)
        ensures
            final(self).settings_state matches Some(state) && strictly_sorted(texts(state.themes@))
                && (forall|x: Seq<char>|
                texts(state.themes@).contains(x) <==> is_theme(x, texts(theme_files@)))
                && state.theme_index == theme_index_of(
                texts(state.themes@),
                old(self).settings.theme_name@,
            ),
            final(self).dialog matches Some(d) && is_plain_dialog(d, DialogType::Settings),
            final(self).settings == old(self).settings,
            final(self).left_panel == old(self).left_panel,
            final(self).right_panel == old(self).right_panel,
            final(self).active_panel == old(self).active_panel,
            final(self).current_screen == old(self).current_screen,
            final(self).message == old(self).message,
            final(self).message_timer == old(self).message_timer,
            final(self).clipboard == old(self).clipboard,
            final(self).same_pending(old(self)),
            final(self).same_jobs(old(self)),
    {
        self.settings_state = Some(SettingsState::new(&self.settings, theme_files));
        self.dialog = Some(Dialog::plain(DialogType::Settings));
    }

    /// Closes the dialog in which a theme is chosen and takes the theme
    /// chosen into the settings, which are then to be written. Returns what
    /// the caller has to do. Where the dialog was not open, nothing is taken
    /// over.
    pub fn apply_settings_from_dialog(&mut self) -> (applied: SettingsApplied)
        ensures
            final(self).settings_state is None,
            final(self).dialog is None,
            final(self).left_panel == old(self).left_panel,
            final(self).right_panel == old(self).right_panel,
            final(self).active_panel == old(self).active_panel,
            final(self).current_screen == old(self).current_screen,
            final(self).clipboard == old(self).clipboard,
            final(self).same_pending(old(self)),
            final(self).same_jobs(old(self)),
            final(self).settings.left_panel == old(self).settings.left_panel,
            final(self).settings.right_panel == old(self).settings.right_panel,
            final(self).settings.active_panel == old(self).settings.active_panel,
            final(self).settings.tar_path == old(self).settings.tar_path,
            final(self).settings.bookmarked_path == old(self).settings.bookmarked_path,
            match old(self).settings_state {
                None => {
                    &&& applied == (SettingsApplied { save: false, theme: None })
                    &&& final(self).settings.theme_name == old(self).settings.theme_name
                    &&& final(self).message == old(self).message
                    &&& final(self).message_timer == old(self).message_timer
                },
                Some(state) => {
                    let chosen = if state.theme_index < state.themes@.len() {
                        state.themes@[state.theme_index as int]@
                    } else {
                        "light"@
                    };
                    &&& applied.save
                    &&& final(self).settings.theme_name@ == chosen
                    &&& opt_text(applied.theme) == (if chosen != old(self).settings.theme_name@ {
                        Some(chosen)
                    } else {
                        None
                    })
                    &&& final(self).says("Settings saved!"@)
                },
            },
    {
        let state = self.settings_state.take();
        self.dialog = None;
        match state {
            Some(state) => {
                let chosen = state.current_theme();
                let theme = if !str_eq(chosen, self.settings.theme_name.as_str()) {
                    self.settings.theme_name = String::from_str(chosen);
                    Some(String::from_str(chosen))
                } else {
                    None
                };
                self.show_message("Settings saved!");
                SettingsApplied { save: true, theme }
            },
            None => SettingsApplied { save: false, theme: None },
        }
    }

    /// Closes the dialog in which a theme is chosen without taking
    /// anything over. The theme of the settings is to be loaded again, since
    /// the dialog shows the themes as they are gone through.
    pub fn cancel_settings_dialog(&mut self)
        ensures
            final(self).settings_state is None,
            final(self).dialog is None,
            final(self).settings == old(self).settings,
            final(self).left_panel == old(self).left_panel,
            final(self).right_panel == old(self).right_panel,
            final(self).active_panel == old(self).active_panel,
            final(self).current_screen == old(self).current_screen,
            final(self).message == old(self).message,
            final(self).message_timer == old(self).message_timer,
            final(self).clipboard == old(self).clipboard,
            final(self).same_pending(old(self)),
            final(self).same_jobs(old(self)),
    {
        self.settings_state = None;
        self.dialog = None;
    }

    /// Sets a bookmark on the folder of the active panel where it has
    /// none, and takes it away where it has one, and says so on the status
    /// line. The settings are then to be written.
    pub fn toggle_bookmark(&mut self)
        ensures
            final(self).left_panel == old(self).left_panel,
            final(self).right_panel == old(self).right_panel,
            final(self).active_panel == old(self).active_panel,
            final(self).current_screen == old(self).current_screen,
            final(self).dialog == old(self).dialog,
            final(self).clipboard == old(self).clipboard,
            final(self).same_pending(old(self)),
            final(self).same_jobs(old(self)),
            final(self).settings_state == old(self).settings_state,
            final(self).settings.theme_name == old(self).settings.theme_name,
            final(self).settings.left_panel == old(self).settings.left_panel,
            final(self).settings.right_panel == old(self).settings.right_panel,
            final(self).settings.active_panel == old(self).settings.active_panel,
            final(self).settings.tar_path == old(self).settings.tar_path,
            ({
                let path = old(self).active().path@;
                let before = texts(old(self).settings.bookmarked_path@);
                let after = texts(final(self).settings.bookmarked_path@);
                match first_text_index(before, path, 0) {
                    Some(i) => after == before.remove(i) && final(self).says(
                        "Bookmark removed: "@ + path,
                    ),
                    None => after == before.push(path) && final(self).says(
                        "Bookmark added: "@ + path,
                    ),
                }
            }),
    {
        let path = self.active_panel().path.clone();
        let message = crate::navigate::toggle_bookmark(
            &mut self.settings.bookmarked_path,
            path.as_str(),
        );
        self.show_message(message.as_str());
    }
}

} // verus!
