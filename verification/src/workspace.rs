//! The two panels and what the user has in hand: the cursor, the chosen
//! entries, the clipboard and the status line. The panels are filled by the
//! caller, which reads the folders.

use vstd::prelude::*;
use crate::archive_job::opt_text;
use crate::listing::{ending_of, file_ending, item_views, listed, sort_items, FileItem, ItemView};
use crate::paste::{Clipboard, ClipboardOperation, ConflictState};
use crate::progress::FileOperationProgress;
use crate::settings::Settings;
use crate::panel::{cursor_after, move_cursor};
use crate::state::{
    is_plain_dialog, other_side, parse_sort_by, parse_sort_order, sort_by_of, sort_order_of,
    Dialog, DialogType, CopyExcludeState, PanelSide, Screen, SettingsState, SortBy, SortOrder,
    TarExcludeState, MESSAGE_TICKS,
};
use crate::text::{
    append_decimal, append_str, decimal, lowercase_of, str_eq, string_of, texts, to_lowercase,
};

verus! {

/// One panel: a folder, its entries, and where the user is in it.
pub struct PanelState {
    pub path: String,
    pub files: Vec<FileItem>,
    /// The index of the entry under the cursor.
    pub selected_index: usize,
    /// The names of the entries the user has marked.
    pub selected_files: vstd::hash_set::StringHashSet,
    pub sort_by: SortBy,
    pub sort_order: SortOrder,
    /// The index of the first entry shown.
    pub scroll_offset: usize,
    /// The name of the entry to put the cursor on when the panel is filled next.
    pub pending_focus: Option<String>,
    pub disk_total: u64,
    pub disk_available: u64,
}

/// The entry that stands for the folder above.
pub open spec fn parent_entry(now: i64) -> ItemView {
    ItemView {
        name: ".."@,
        is_directory: true,
        size: 0,
        modified: now,
        permissions: Seq::empty(),
    }
}

/// The index of the first entry of `files` with the name `name`.
pub open spec fn index_of_name(files: Seq<ItemView>, name: Seq<char>, from: int) -> Option<int>
    decreases files.len() - from,
{
    if from < 0 || from >= files.len() {
        None
    } else if files[from].name == name {
        Some(from)
    } else {
        index_of_name(files, name, from + 1)
    }
}

/// The entries of a panel once it is filled: the entry for the folder
/// above, where the folder has one, then the entries read, in order.
pub open spec fn filled(
    has_parent: bool,
    items: Seq<ItemView>,
    now: i64,
    by: SortBy,
    order: SortOrder,
) -> Seq<ItemView> {
    (if has_parent {
        seq![parent_entry(now)]
    } else {
        Seq::empty()
    }) + listed(items, by, order)
}

/// Where the cursor stands once a panel is filled with `files`: on the entry
/// to focus, where there is such an entry, else where it was; but on the
/// last entry where that is past the end.
pub open spec fn cursor_when_filled(
    files: Seq<ItemView>,
    selected: usize,
    focus: Option<Seq<char>>,
) -> usize {
    let wanted = match focus {
        Some(name) => match index_of_name(files, name, 0) {
            Some(i) => i as usize,
            None => selected,
        },
        None => selected,
    };
    if wanted >= files.len() && files.len() > 0 {
        (files.len() - 1) as usize
    } else {
        wanted
    }
}

/// The names of the entries of `files`, from index `from` on, that are in
/// `chosen`, in the order of the panel.
pub open spec fn chosen_names(files: Seq<ItemView>, chosen: Set<Seq<char>>, from: int) -> Seq<
    Seq<char>,
>
    decreases files.len() - from,
{
    if from < 0 || from >= files.len() {
        Seq::empty()
    } else if chosen.contains(files[from].name) {
        seq![files[from].name] + chosen_names(files, chosen, from + 1)
    } else {
        chosen_names(files, chosen, from + 1)
    }
}

/// The names of all entries of `files`, from index `from` on, but the one
/// for the folder above.
pub open spec fn all_names(files: Seq<ItemView>, from: int) -> Set<Seq<char>>
    decreases files.len() - from,
{
    if from < 0 || from >= files.len() {
        Set::empty()
    } else if files[from].name == ".."@ {
        all_names(files, from + 1)
    } else {
        all_names(files, from + 1).insert(files[from].name)
    }
}

/// Whether the entry `item` is a file whose ending, in lower case, is `ext`.
pub open spec fn has_ending(item: ItemView, ext: Seq<char>) -> bool {
    &&& item.name != ".."@
    &&& !item.is_directory
    &&& ending_of(item.name) matches Some(e)
    &&& lowercase_of(e) == ext
}

/// The names of the files among `files`, from index `from` on, whose
/// ending, in lower case, is `ext`.
pub open spec fn names_with_ending(files: Seq<ItemView>, ext: Seq<char>, from: int) -> Set<
    Seq<char>,
>
    decreases files.len() - from,
{
    if from < 0 || from >= files.len() {
        Set::empty()
    } else if has_ending(files[from], ext) {
        names_with_ending(files, ext, from + 1).insert(files[from].name)
    } else {
        names_with_ending(files, ext, from + 1)
    }
}

/// How many of `files`, from index `from` on, are files whose ending, in
/// lower case, is `ext`.
pub open spec fn count_with_ending(files: Seq<ItemView>, ext: Seq<char>, from: int) -> nat
    decreases files.len() - from,
{
    if from < 0 || from >= files.len() {
        0
    } else if has_ending(files[from], ext) {
        1 + count_with_ending(files, ext, from + 1)
    } else {
        count_with_ending(files, ext, from + 1)
    }
}

/// The ending, in lower case, of the entry under the cursor, where it has one.
pub open spec fn ending_under_cursor(files: Seq<ItemView>, selected: usize) -> Option<Seq<char>> {
    if selected < files.len() {
        match ending_of(files[selected as int].name) {
            Some(e) => Some(lowercase_of(e)),
            None => None,
        }
    } else {
        None
    }
}

/// The number of bytes in `blocks` blocks of `block_size` bytes each, or
/// the largest number where that does not fit.
pub open spec fn disk_bytes(blocks: u64, block_size: u64) -> u64 {
    if blocks * block_size > u64::MAX {
        u64::MAX
    } else {
        (blocks * block_size) as u64
    }
}

impl PanelState {
    /// A panel for the folder at `path`, not filled yet, sorted by name.
    pub fn new(path: String) -> (p: PanelState)
        ensures
            p.path == path,
            p.files@.len() == 0,
            p.selected_index == 0,
            p.selected_files@ == Set::<Seq<char>>::empty(),
            p.sort_by == SortBy::Name,
            p.sort_order == SortOrder::Asc,
            p.scroll_offset == 0,
            p.pending_focus is None,
            p.disk_total == 0,
            p.disk_available == 0,
    {
        PanelState {
            path,
            files: Vec::new(),
            selected_index: 0,
            selected_files: vstd::hash_set::StringHashSet::new(),
            sort_by: SortBy::Name,
            sort_order: SortOrder::Asc,
            scroll_offset: 0,
            pending_focus: None,
            disk_total: 0,
            disk_available: 0,
        }
    }

    /// A panel for the folder at `path`, not filled yet, sorted as the
    /// settings words `sort_by` and `sort_order` say.
    pub fn with_settings(path: String, sort_by: &str, sort_order: &str) -> (p: PanelState)
        ensures
            p.path == path,
            p.files@.len() == 0,
            p.selected_index == 0,
            p.selected_files@ == Set::<Seq<char>>::empty(),
            p.sort_by == sort_by_of(lowercase_of(sort_by@)),
            p.sort_order == sort_order_of(lowercase_of(sort_order@)),
            p.scroll_offset == 0,
            p.pending_focus is None,
    {
        let mut p = PanelState::new(path);
        p.sort_by = parse_sort_by(sort_by);
        p.sort_order = parse_sort_order(sort_order);
        p
    }

    /// Fills the panel with the entries `items` read from its folder.
    /// `has_parent` says whether the folder has one above it; `now` is the
    /// time given to the entry that stands for the folder above.
    pub fn load_files(&mut self, has_parent: bool, items: Vec<FileItem>, now: i64)
        ensures
            item_views(final(self).files@) == filled(
                has_parent,
                item_views(items@),
                now,
                old(self).sort_by,
                old(self).sort_order,
            ),
            final(self).selected_index == cursor_when_filled(
                item_views(final(self).files@),
                old(self).selected_index,
                opt_text(old(self).pending_focus),
            ),
            final(self).pending_focus is None,
            final(self).path == old(self).path,
            final(self).selected_files == old(self).selected_files,
            final(self).sort_by == old(self).sort_by,
            final(self).sort_order == old(self).sort_order,
            final(self).scroll_offset == old(self).scroll_offset,
            final(self).disk_total == old(self).disk_total,
            final(self).disk_available == old(self).disk_available,
    {
        let mut files = sort_items(items, self.sort_by, self.sort_order);
        if has_parent {
            let parent = FileItem {
                name: String::from_str(".."),
                is_directory: true,
                size: 0,
                modified: now,
                permissions: String::new(),
            };
            assert(parent@ == parent_entry(now));
            let ghost sorted = item_views(files@);
            files.insert(0, parent);
            assert(item_views(files@) =~= seq![parent_entry(now)] + sorted);
        } else {
            assert(item_views(files@) =~= Seq::<ItemView>::empty() + item_views(files@));
        }
        let ghost views = item_views(files@);
        assert(views.len() == files@.len());
        let focus = self.pending_focus.take();
        match focus {
            Some(name) => {
                let mut i: usize = 0;
                let mut found = false;
                while i < files.len() && !found
                    invariant
                        i <= files.len(),
                        views == item_views(files@),
                        !found ==> index_of_name(views, name@, 0) == index_of_name(
                            views,
                            name@,
                            i as int,
                        ),
                        found ==> i < files.len() && index_of_name(views, name@, 0) == Some(
                            i as int,
                        ),
                    decreases files.len() - i + (if found { 0int } else { 1 }),
                {
                    assert(views[i as int] == files@[i as int]@);
                    if files[i].name == name {
                        found = true;
                    } else {
                        i += 1;
                    }
                }
                if found {
                    self.selected_index = i;
                }
            },
            None => {},
        }
        if self.selected_index >= files.len() && files.len() > 0 {
            self.selected_index = files.len() - 1;
        }
        self.files = files;
    }

    /// Notes how much room the disk of the folder has: `stat` holds the
    /// number of blocks in all, the number of blocks free to the user, and
    /// the size of a block, where the disk could be asked.
    pub fn update_disk_info(&mut self, stat: Option<(u64, u64, u64)>)
        ensures
            stat matches Some(s) ==> final(self).disk_total == disk_bytes(s.0, s.2)
                && final(self).disk_available == disk_bytes(s.1, s.2),
            stat is None ==> final(self).disk_total == 0 && final(self).disk_available == 0,
            final(self).files == old(self).files,
            final(self).selected_index == old(self).selected_index,
            final(self).selected_files == old(self).selected_files,
            final(self).path == old(self).path,
    {
        match stat {
            Some((blocks, available, block_size)) => {
                self.disk_total = capped_product(blocks, block_size);
                self.disk_available = capped_product(available, block_size);
            },
            None => {
                self.disk_total = 0;
                self.disk_available = 0;
            },
        }
    }

    /// The entry under the cursor.
    pub fn current_file(&self) -> (r: Option<&FileItem>)
        ensures
            self.selected_index < self.files@.len() ==> r == Some(
                &self.files@[self.selected_index as int],
            ),
            self.selected_index >= self.files@.len() ==> r is None,
    {
        if self.selected_index < self.files.len() {
            Some(&self.files[self.selected_index])
        } else {
            None
        }
    }

    /// Changes the sort of the panel as the user asked, and puts the cursor
    /// on the first entry. The entries keep their places until the panel is
    /// filled again.
    pub fn toggle_sort(&mut self, sort_by: SortBy)
        ensures
            (final(self).sort_by, final(self).sort_order) == (if old(self).sort_by == sort_by {
                (
                    sort_by,
                    match old(self).sort_order {
                        SortOrder::Asc => SortOrder::Desc,
                        SortOrder::Desc => SortOrder::Asc,
                    },
                )
            } else {
                (sort_by, SortOrder::Asc)
            }),
            final(self).selected_index == 0,
            final(self).files == old(self).files,
            final(self).selected_files == old(self).selected_files,
            final(self).path == old(self).path,
            final(self).pending_focus == old(self).pending_focus,
    {
        let (by, order) = crate::panel::toggle_sort(self.sort_by, self.sort_order, sort_by);
        self.sort_by = by;
        self.sort_order = order;
        self.selected_index = 0;
    }

    /// Marks the entry under the cursor, or takes its mark away, and moves
    /// the cursor down by one. Does nothing on the entry for the folder above.
    pub fn toggle_selection(&mut self)
        ensures
            final(self).files == old(self).files,
            final(self).path == old(self).path,
            old(self).selected_index >= old(self).files@.len() || old(self).files@[old(
                self,
            ).selected_index as int].name@ == ".."@ ==> final(self).selected_files@ == old(
                self,
            ).selected_files@ && final(self).selected_index == old(self).selected_index,
            old(self).selected_index < old(self).files@.len() && old(self).files@[old(
                self,
            ).selected_index as int].name@ != ".."@ ==> ({
                let name = old(self).files@[old(self).selected_index as int].name@;
                &&& final(self).selected_files@ == (if old(self).selected_files@.contains(name) {
                    old(self).selected_files@.remove(name)
                } else {
                    old(self).selected_files@.insert(name)
                })
                &&& final(self).selected_index == (if old(self).selected_index + 1 < old(
                    self,
                ).files@.len() {
                    (old(self).selected_index + 1) as usize
                } else {
                    old(self).selected_index
                })
            }),
    {
        if self.selected_index >= self.files.len() {
            return;
        }
        let name = self.files[self.selected_index].name.clone();
        if str_eq(name.as_str(), "..") {
            return;
        }
        if self.selected_files.contains(name.as_str()) {
            self.selected_files.remove(name.as_str());
        } else {
            self.selected_files.insert(name);
        }
        if self.selected_index < self.files.len() - 1 {
            self.selected_index = self.selected_index + 1;
        }
    }

    /// Marks every entry but the one for the folder above where none is
    /// marked; takes all marks away otherwise.
    pub fn toggle_all_selection(&mut self)
        ensures
            final(self).files == old(self).files,
            final(self).selected_index == old(self).selected_index,
            final(self).path == old(self).path,
            old(self).selected_files@.is_empty() ==> final(self).selected_files@ == all_names(
                item_views(old(self).files@),
                0,
            ),
            !old(self).selected_files@.is_empty() ==> final(self).selected_files@ == Set::<
                Seq<char>,
            >::empty(),
    {
        if self.selected_files.is_empty() {
            let ghost views = item_views(self.files@);
            assert(views.len() == self.files@.len());
            assert(self.selected_files@ =~= Set::<Seq<char>>::empty());
            let mut i: usize = self.files.len();
            while i > 0
                invariant
                    i <= self.files@.len(),
                    self.files == old(self).files,
                    self.selected_index == old(self).selected_index,
                    self.path == old(self).path,
                    views == item_views(self.files@),
                    views.len() == self.files@.len(),
                    self.selected_files@ == all_names(views, i as int),
                decreases i,
            {
                i -= 1;
                assert(views[i as int] == self.files@[i as int]@);
                if !str_eq(self.files[i].name.as_str(), "..") {
                    let name = self.files[i].name.clone();
                    self.selected_files.insert(name);
                }
            }
        } else {
            self.selected_files.clear();
        }
    }

    /// Marks all files with the ending of the entry under the cursor, or
    /// takes their marks away where all of them are marked. Returns what the
    /// user is told; `None`, and nothing done, where the entry under the
    /// cursor has no ending.
    pub fn select_by_extension(&mut self) -> (message: Option<String>)
        ensures
            final(self).files == old(self).files,
            final(self).selected_index == old(self).selected_index,
            final(self).path == old(self).path,
            match ending_under_cursor(item_views(old(self).files@), old(self).selected_index) {
                None => message is None && final(self).selected_files@ == old(
                    self,
                ).selected_files@,
                Some(ext) => ({
                    let files = item_views(old(self).files@);
                    let like = names_with_ending(files, ext, 0);
                    let count = count_with_ending(files, ext, 0);
                    if like.subset_of(old(self).selected_files@) {
                        &&& final(self).selected_files@ == old(self).selected_files@.difference(
                            like,
                        )
                        &&& message matches Some(m) && m@ == "Deselected "@ + decimal(count) + " ."@
                            + ext + " file(s)"@
                    } else {
                        &&& final(self).selected_files@ == old(self).selected_files@.union(like)
                        &&& message matches Some(m) && m@ == "Selected "@ + decimal(count) + " ."@
                            + ext + " file(s)"@
                    }
                }),
            },
    {
        let ghost views = item_views(self.files@);
        assert(views.len() == self.files@.len());
        if self.selected_index >= self.files.len() {
            return None;
        }
        assert(views[self.selected_index as int] == self.files@[self.selected_index as int]@);
        let ext = match file_ending(self.files[self.selected_index].name.as_str()) {
            Some(e) => to_lowercase(e.as_str()),
            None => {
                return None;
            },
        };
        let mut count: usize = 0;
        let mut all_selected = true;
        let n = self.files.len();
        let mut i: usize = n;
        let mut flags_rev: Vec<bool> = Vec::new();
        while i > 0
            invariant
                i <= n == self.files@.len(),
                self.files == old(self).files,
                self.selected_index == old(self).selected_index,
                self.path == old(self).path,
                self.selected_files == old(self).selected_files,
                views == item_views(self.files@),
                views.len() == n,
                flags_rev@.len() == n - i,
                forall|k: int| 0 <= k < n - i ==> flags_rev@[k] == has_ending(views[n - 1 - k], ext@),
                count == count_with_ending(views, ext@, i as int),
                count <= n - i,
                all_selected == names_with_ending(views, ext@, i as int).subset_of(
                    self.selected_files@,
                ),
            decreases i,
        {
            i -= 1;
            assert(views[i as int] == self.files@[i as int]@);
            let f = &self.files[i];
            let matches = !str_eq(f.name.as_str(), "..") && !f.is_directory && match file_ending(
                f.name.as_str(),
            ) {
                Some(e) => str_eq(to_lowercase(e.as_str()).as_str(), ext.as_str()),
                None => false,
            };
            assert(matches == has_ending(views[i as int], ext@));
            if matches {
                count += 1;
                if !self.selected_files.contains(f.name.as_str()) {
                    all_selected = false;
                }
            }
            flags_rev.push(matches);
        }
        let ghost before = self.selected_files@;
        let ghost like_set = names_with_ending(views, ext@, 0);
        let mut k: usize = n;
        assert(before.difference(Set::<Seq<char>>::empty()) =~= before);
        assert(before.union(Set::<Seq<char>>::empty()) =~= before);
        while k > 0
            invariant
                k <= n == self.files@.len(),
                self.files == old(self).files,
                self.selected_index == old(self).selected_index,
                self.path == old(self).path,
                views == item_views(self.files@),
                views.len() == n,
                flags_rev@.len() == n,
                forall|j: int| 0 <= j < n ==> flags_rev@[j] == has_ending(views[n - 1 - j], ext@),
                all_selected ==> self.selected_files@ == before.difference(
                    names_with_ending(views, ext@, k as int),
                ),
                !all_selected ==> self.selected_files@ == before.union(
                    names_with_ending(views, ext@, k as int),
                ),
            decreases k,
        {
            k -= 1;
            assert(views[k as int] == self.files@[k as int]@);
            let ghost rest = names_with_ending(views, ext@, k + 1);
            if flags_rev[n - 1 - k] {
                if all_selected {
                    self.selected_files.remove(self.files[k].name.as_str());
                    assert(before.difference(rest).remove(views[k as int].name)
                        =~= before.difference(rest.insert(views[k as int].name)));
                } else {
                    let name = self.files[k].name.clone();
                    self.selected_files.insert(name);
                    assert(before.union(rest).insert(views[k as int].name) =~= before.union(
                        rest.insert(views[k as int].name),
                    ));
                }
            }
        }
        let mut text: Vec<char> = Vec::new();
        if all_selected {
            append_str(&mut text, "Deselected ");
        } else {
            append_str(&mut text, "Selected ");
        }
        append_decimal(&mut text, count as u128);
        append_str(&mut text, " .");
        append_str(&mut text, ext.as_str());
        append_str(&mut text, " file(s)");
        Some(string_of(&text))
    }

    /// The names of the entries an operation is about: the marked entries,
    /// in the order of the panel; where none is marked, the entry under the
    /// cursor, unless that stands for the folder above.
    pub fn get_operation_files(&self) -> (names: Vec<String>)
        ensures
            !self.selected_files@.is_empty() ==> texts(names@) == chosen_names(
                item_views(self.files@),
                self.selected_files@,
                0,
            ),
            self.selected_files@.is_empty() ==> texts(names@) == (if self.selected_index
                < self.files@.len() && self.files@[self.selected_index as int].name@ != ".."@ {
                seq![self.files@[self.selected_index as int].name@]
            } else {
                Seq::<Seq<char>>::empty()
            }),
    {
        let mut names: Vec<String> = Vec::new();
        if !self.selected_files.is_empty() {
            let ghost views = item_views(self.files@);
            assert(views.len() == self.files@.len());
            let mut keep: Vec<String> = Vec::new();
            let mut i: usize = self.files.len();
            assert(texts(keep@) =~= Seq::<Seq<char>>::empty());
            while i > 0
                invariant
                    i <= self.files@.len(),
                    views == item_views(self.files@),
                    views.len() == self.files@.len(),
                    texts(keep@).reverse() == chosen_names(views, self.selected_files@, i as int),
                decreases i,
            {
                i -= 1;
                assert(views[i as int] == self.files@[i as int]@);
                if self.selected_files.contains(self.files[i].name.as_str()) {
                    let ghost before = texts(keep@);
                    keep.push(self.files[i].name.clone());
                    assert(texts(keep@) == before.push(views[i as int].name));
                    assert(texts(keep@).reverse() =~= seq![views[i as int].name]
                        + before.reverse());
                }
            }
            let mut k: usize = keep.len();
            assert(texts(keep@).len() == keep@.len());
            assert(texts(names@) =~= texts(keep@).reverse().subrange(0, 0));
            while k > 0
                invariant
                    k <= keep@.len(),
                    texts(keep@).len() == keep@.len(),
                    texts(names@) == texts(keep@).reverse().subrange(0, keep@.len() - k),
                decreases k,
            {
                k -= 1;
                let ghost before = texts(names@);
                names.push(keep[k].clone());
                assert(texts(names@) == before.push(keep@[k as int]@));
                assert(texts(keep@).reverse().subrange(0, keep@.len() - k) =~= texts(
                    keep@,
                ).reverse().subrange(0, keep@.len() - k - 1).push(keep@[k as int]@));
            }
            assert(texts(keep@).reverse().subrange(0, keep@.len() as int) == texts(
                keep@,
            ).reverse());
        } else if self.selected_index < self.files.len() {
            if !str_eq(self.files[self.selected_index].name.as_str(), "..") {
                names.push(self.files[self.selected_index].name.clone());
                assert(texts(names@) =~= seq![self.files@[self.selected_index as int].name@]);
            } else {
                assert(texts(names@) =~= Seq::<Seq<char>>::empty());
            }
        } else {
            assert(texts(names@) =~= Seq::<Seq<char>>::empty());
        }
        names
    }
}

fn capped_product(a: u64, b: u64) -> (r: u64)
    ensures
        r == disk_bytes(a, b),
{
    assert(a * b <= 0xFFFF_FFFF_FFFF_FFFF * 0xFFFF_FFFF_FFFF_FFFF) by (nonlinear_arith)
        requires
            0 <= a <= 0xFFFF_FFFF_FFFF_FFFF,
            0 <= b <= 0xFFFF_FFFF_FFFF_FFFF,
    ;
    let wide: u128 = a as u128 * b as u128;
    if wide > u64::MAX as u128 {
        u64::MAX
    } else {
        wide as u64
    }
}


/// The two panels and what the user has in hand.
pub struct App {
    pub left_panel: PanelState,
    pub right_panel: PanelState,
    /// The panel that takes the keys.
    pub active_panel: PanelSide,
    pub current_screen: Screen,
    /// The dialog that is open, if any.
    pub dialog: Option<Dialog>,
    /// The message on the status line, if any.
    pub message: Option<String>,
    /// How many ticks the message has left to show.
    pub message_timer: u8,
    /// The files that were copied or cut.
    pub clipboard: Option<Clipboard>,
    /// The picture that is shown once the user has agreed.
    pub pending_large_image: Option<String>,
    /// The file that is opened once the user has agreed.
    pub pending_large_file: Option<String>,
    /// The folder in which the assistant was called, while it is shown.
    pub ai_state: Option<String>,
    /// The side on which the assistant is shown, while it is.
    pub ai_panel_side: Option<PanelSide>,
    /// The panel that took the keys before the assistant was shown.
    pub ai_previous_panel: Option<PanelSide>,
    /// The settings of the program.
    pub settings: Settings,
    /// The state of the dialog in which a theme is chosen, while it is open.
    pub settings_state: Option<SettingsState>,
    /// The clashes of a paste and the answers given so far, while the user
    /// is asked.
    pub conflict_state: Option<ConflictState>,
    /// The links left out of a copy or move, while the user is asked.
    pub copy_exclude_state: Option<CopyExcludeState>,
    /// The links left out of an archive, while the user is asked.
    pub tar_exclude_state: Option<TarExcludeState>,
    /// What is known of the job that runs, while one does.
    pub file_operation_progress: Option<FileOperationProgress>,
    /// The name of the archive that is being made.
    pub pending_tar_archive: Option<String>,
    /// The name of the directory that an archive is being unpacked into.
    pub pending_extract_dir: Option<String>,
}

/// Which operation the text `op` names on the status line.
pub open spec fn operation_word(op: ClipboardOperation) -> Seq<char> {
    match op {
        ClipboardOperation::Copy => "copy"@,
        ClipboardOperation::Cut => "cut"@,
    }
}

impl App {
    /// The panel on the side `side`.
    pub open spec fn panel(&self, side: PanelSide) -> PanelState {
        match side {
            PanelSide::Left => self.left_panel,
            PanelSide::Right => self.right_panel,
        }
    }

    /// Everything but the panels, the message and the clipboard is as in `other`.
    pub open spec fn same_frame(&self, other: &App) -> bool {
        &&& self.active_panel == other.active_panel
        &&& self.current_screen == other.current_screen
        &&& self.dialog == other.dialog
        &&& self.same_pending(other)
        &&& self.same_settings(other)
        &&& self.same_jobs(other)
    }

    /// What is known of jobs that run or wait for an answer is as in `other`.
    pub open spec fn same_jobs(&self, other: &App) -> bool {
        &&& self.conflict_state == other.conflict_state
        &&& self.copy_exclude_state == other.copy_exclude_state
        &&& self.tar_exclude_state == other.tar_exclude_state
        &&& self.file_operation_progress == other.file_operation_progress
        &&& self.pending_tar_archive == other.pending_tar_archive
        &&& self.pending_extract_dir == other.pending_extract_dir
    }

    /// The settings, and the dialog in which a theme is chosen, are as in
    /// `other`.
    pub open spec fn same_settings(&self, other: &App) -> bool {
        &&& self.settings == other.settings
        &&& self.settings_state == other.settings_state
    }

    /// What waits for the user's answer, and where the assistant is shown,
    /// is as in `other`.
    pub open spec fn same_pending(&self, other: &App) -> bool {
        &&& self.pending_large_image == other.pending_large_image
        &&& self.pending_large_file == other.pending_large_file
        &&& self.ai_state == other.ai_state
        &&& self.ai_panel_side == other.ai_panel_side
        &&& self.ai_previous_panel == other.ai_previous_panel
    }

    /// Two panels, not filled yet, the left one active.
    pub fn new(left_path: String, right_path: String) -> (app: App)
        ensures
            app.left_panel.path == left_path,
            app.right_panel.path == right_path,
            app.left_panel.files@.len() == 0,
            app.right_panel.files@.len() == 0,
            app.left_panel.selected_index == 0,
            app.right_panel.selected_index == 0,
            app.left_panel.selected_files@ == Set::<Seq<char>>::empty(),
            app.right_panel.selected_files@ == Set::<Seq<char>>::empty(),
            app.active_panel == PanelSide::Left,
            app.current_screen == Screen::DualPanel,
            app.dialog is None,
            app.message is None,
            app.message_timer == 0,
            app.clipboard is None,
            app.pending_large_image is None,
            app.pending_large_file is None,
            app.ai_state is None,
            app.ai_panel_side is None,
            app.ai_previous_panel is None,
            app.settings.theme_name@ == "light"@,
            app.settings.active_panel@ == "left"@,
            app.settings.tar_path is None,
            app.settings.bookmarked_path@.len() == 0,
            app.settings_state is None,
            app.conflict_state is None,
            app.copy_exclude_state is None,
            app.tar_exclude_state is None,
            app.file_operation_progress is None,
            app.pending_tar_archive is None,
            app.pending_extract_dir is None,
    {
        App {
            left_panel: PanelState::new(left_path),
            right_panel: PanelState::new(right_path),
            active_panel: PanelSide::Left,
            current_screen: Screen::DualPanel,
            dialog: None,
            message: None,
            message_timer: 0,
            clipboard: None,
            pending_large_image: None,
            pending_large_file: None,
            ai_state: None,
            ai_panel_side: None,
            ai_previous_panel: None,
            settings: Settings::default(),
            settings_state: None,
            conflict_state: None,
            copy_exclude_state: None,
            tar_exclude_state: None,
            file_operation_progress: None,
            pending_tar_archive: None,
            pending_extract_dir: None,
        }
    }

    /// The panel that takes the keys.
    pub fn active_panel(&self) -> (p: &PanelState)
        ensures
            *p == self.panel(self.active_panel),
    {
        match self.active_panel {
            PanelSide::Left => &self.left_panel,
            PanelSide::Right => &self.right_panel,
        }
    }

    /// The panel that does not take the keys: where files are copied to.
    pub fn target_panel(&self) -> (p: &PanelState)
        ensures
            *p == self.panel(other_side(self.active_panel)),
    {
        match self.active_panel {
            PanelSide::Left => &self.right_panel,
            PanelSide::Right => &self.left_panel,
        }
    }

    /// Makes the other panel the active one; the marks of the panel left
    /// are taken away.
    pub fn switch_panel(&mut self)
        ensures
            final(self).active_panel == other_side(old(self).active_panel),
            final(self).panel(old(self).active_panel).selected_files@ == Set::<
                Seq<char>,
            >::empty(),
            final(self).panel(old(self).active_panel).files == old(self).panel(
                old(self).active_panel,
            ).files,
            final(self).panel(old(self).active_panel).selected_index == old(self).panel(
                old(self).active_panel,
            ).selected_index,
            final(self).panel(final(self).active_panel) == old(self).panel(
                final(self).active_panel,
            ),
            final(self).current_screen == old(self).current_screen,
            final(self).dialog == old(self).dialog,
            final(self).message == old(self).message,
            final(self).clipboard == old(self).clipboard,
            final(self).same_pending(old(self)),
            final(self).same_settings(old(self)),
            final(self).same_jobs(old(self)),
    {
        match self.active_panel {
            PanelSide::Left => {
                self.left_panel.selected_files.clear();
                self.active_panel = PanelSide::Right;
            },
            PanelSide::Right => {
                self.right_panel.selected_files.clear();
                self.active_panel = PanelSide::Left;
            },
        }
    }

    /// Makes the other panel the active one and puts its cursor on the line
    /// of the screen that the cursor of the panel left stood on.
    pub fn switch_panel_keep_index(&mut self)
        ensures
            final(self).active_panel == other_side(old(self).active_panel),
            final(self).panel(old(self).active_panel).selected_files@ == Set::<
                Seq<char>,
            >::empty(),
            final(self).panel(final(self).active_panel).files == old(self).panel(
                final(self).active_panel,
            ).files,
            ({
                let left = old(self).panel(old(self).active_panel);
                let new = old(self).panel(final(self).active_panel);
                let relative = if left.selected_index >= left.scroll_offset {
                    left.selected_index - left.scroll_offset
                } else {
                    0
                };
                final(self).panel(final(self).active_panel).selected_index == (if new.files@.len()
                    == 0 {
                    new.selected_index
                } else if new.scroll_offset + relative <= new.files@.len() - 1 {
                    (new.scroll_offset + relative) as usize
                } else {
                    (new.files@.len() - 1) as usize
                })
            }),
    {
        match self.active_panel {
            PanelSide::Left => {
                let moved = crate::panel::switch_panel_keep_index(
                    self.left_panel.scroll_offset,
                    self.left_panel.selected_index,
                    self.right_panel.scroll_offset,
                    self.right_panel.files.len(),
                );
                self.left_panel.selected_files.clear();
                self.active_panel = PanelSide::Right;
                match moved {
                    Some(i) => {
                        self.right_panel.selected_index = i;
                    },
                    None => {},
                }
            },
            PanelSide::Right => {
                let moved = crate::panel::switch_panel_keep_index(
                    self.right_panel.scroll_offset,
                    self.right_panel.selected_index,
                    self.left_panel.scroll_offset,
                    self.left_panel.files.len(),
                );
                self.right_panel.selected_files.clear();
                self.active_panel = PanelSide::Left;
                match moved {
                    Some(i) => {
                        self.left_panel.selected_index = i;
                    },
                    None => {},
                }
            },
        }
    }

    /// Moves the cursor of the active panel by `delta` entries, never past
    /// its first or its last entry.
    pub fn move_cursor(&mut self, delta: i32)
        ensures
            final(self).same_frame(old(self)),
            final(self).panel(old(self).active_panel).selected_index == cursor_after(
                old(self).panel(old(self).active_panel).selected_index,
                delta,
                old(self).panel(old(self).active_panel).files@.len() as usize,
            ),
            final(self).panel(old(self).active_panel).files == old(self).panel(
                old(self).active_panel,
            ).files,
            final(self).panel(old(self).active_panel).selected_files == old(self).panel(
                old(self).active_panel,
            ).selected_files,
            final(self).panel(other_side(old(self).active_panel)) == old(self).panel(
                other_side(old(self).active_panel),
            ),
    {
        match self.active_panel {
            PanelSide::Left => {
                self.left_panel.selected_index = move_cursor(
                    self.left_panel.selected_index,
                    delta,
                    self.left_panel.files.len(),
                );
            },
            PanelSide::Right => {
                self.right_panel.selected_index = move_cursor(
                    self.right_panel.selected_index,
                    delta,
                    self.right_panel.files.len(),
                );
            },
        }
    }

    /// Puts the cursor of the active panel on its first entry.
    pub fn cursor_to_start(&mut self)
        ensures
            final(self).same_frame(old(self)),
            final(self).panel(old(self).active_panel).selected_index == 0,
            final(self).panel(old(self).active_panel).files == old(self).panel(
                old(self).active_panel,
            ).files,
            final(self).panel(other_side(old(self).active_panel)) == old(self).panel(
                other_side(old(self).active_panel),
            ),
    {
        match self.active_panel {
            PanelSide::Left => {
                self.left_panel.selected_index = 0;
            },
            PanelSide::Right => {
                self.right_panel.selected_index = 0;
            },
        }
    }

    /// Puts the cursor of the active panel on its last entry.
    pub fn cursor_to_end(&mut self)
        ensures
            final(self).same_frame(old(self)),
            ({
                let before = old(self).panel(old(self).active_panel);
                final(self).panel(old(self).active_panel).selected_index == (if before.files@.len()
                    > 0 {
                    (before.files@.len() - 1) as usize
                } else {
                    before.selected_index
                })
            }),
            final(self).panel(old(self).active_panel).files == old(self).panel(
                old(self).active_panel,
            ).files,
            final(self).panel(other_side(old(self).active_panel)) == old(self).panel(
                other_side(old(self).active_panel),
            ),
    {
        match self.active_panel {
            PanelSide::Left => {
                self.left_panel.selected_index = crate::panel::cursor_to_end(
                    self.left_panel.selected_index,
                    self.left_panel.files.len(),
                );
            },
            PanelSide::Right => {
                self.right_panel.selected_index = crate::panel::cursor_to_end(
                    self.right_panel.selected_index,
                    self.right_panel.files.len(),
                );
            },
        }
    }

    /// Marks the entry under the cursor of the active panel, or takes its
    /// mark away, and moves the cursor down by one.
    pub fn toggle_selection(&mut self)
        ensures
            final(self).same_frame(old(self)),
            final(self).panel(other_side(old(self).active_panel)) == old(self).panel(
                other_side(old(self).active_panel),
            ),
            final(self).panel(old(self).active_panel).files == old(self).panel(
                old(self).active_panel,
            ).files,
            ({
                let before = old(self).panel(old(self).active_panel);
                let after = final(self).panel(old(self).active_panel);
                if before.selected_index < before.files@.len()
                    && before.files@[before.selected_index as int].name@ != ".."@ {
                    let name = before.files@[before.selected_index as int].name@;
                    after.selected_files@ == (if before.selected_files@.contains(name) {
                        before.selected_files@.remove(name)
                    } else {
                        before.selected_files@.insert(name)
                    })
                } else {
                    after.selected_files@ == before.selected_files@
                }
            }),
    {
        match self.active_panel {
            PanelSide::Left => self.left_panel.toggle_selection(),
            PanelSide::Right => self.right_panel.toggle_selection(),
        }
    }

    /// Marks every entry of the active panel where none is marked; takes
    /// all marks away otherwise.
    pub fn toggle_all_selection(&mut self)
        ensures
            final(self).same_frame(old(self)),
            final(self).panel(other_side(old(self).active_panel)) == old(self).panel(
                other_side(old(self).active_panel),
            ),
            ({
                let before = old(self).panel(old(self).active_panel);
                let after = final(self).panel(old(self).active_panel);
                &&& after.files == before.files
                &&& before.selected_files@.is_empty() ==> after.selected_files@ == all_names(
                    item_views(before.files@),
                    0,
                )
                &&& !before.selected_files@.is_empty() ==> after.selected_files@ == Set::<
                    Seq<char>,
                >::empty()
            }),
    {
        match self.active_panel {
            PanelSide::Left => self.left_panel.toggle_all_selection(),
            PanelSide::Right => self.right_panel.toggle_all_selection(),
        }
    }

    /// Marks all files of the active panel with the ending of the entry
    /// under its cursor, or takes their marks away where all of them are
    /// marked, and says on the status line what was done.
    pub fn select_by_extension(&mut self)
        ensures
            final(self).same_frame(old(self)),
            final(self).panel(other_side(old(self).active_panel)) == old(self).panel(
                other_side(old(self).active_panel),
            ),
            final(self).clipboard == old(self).clipboard,
            ({
                let before = old(self).panel(old(self).active_panel);
                let after = final(self).panel(old(self).active_panel);
                &&& after.files == before.files
                &&& after.selected_index == before.selected_index
                &&& match ending_under_cursor(item_views(before.files@), before.selected_index) {
                    None => after.selected_files@ == before.selected_files@ && final(self).message
                        == old(self).message,
                    Some(ext) => ({
                        let like = names_with_ending(item_views(before.files@), ext, 0);
                        let count = count_with_ending(item_views(before.files@), ext, 0);
                        if like.subset_of(before.selected_files@) {
                            &&& after.selected_files@ == before.selected_files@.difference(like)
                            &&& final(self).message matches Some(m) && m@ == "Deselected "@
                                + decimal(count) + " ."@ + ext + " file(s)"@
                        } else {
                            &&& after.selected_files@ == before.selected_files@.union(like)
                            &&& final(self).message matches Some(m) && m@ == "Selected "@
                                + decimal(count) + " ."@ + ext + " file(s)"@
                        }
                    }),
                }
            }),
    {
        let message = match self.active_panel {
            PanelSide::Left => self.left_panel.select_by_extension(),
            PanelSide::Right => self.right_panel.select_by_extension(),
        };
        match message {
            Some(m) => self.show_message(m.as_str()),
            None => {},
        }
    }

    /// Puts `msg` on the status line for the next ten ticks.
    pub fn show_message(&mut self, msg: &str)
        ensures
            final(self).message matches Some(m) && m@ == msg@,
            final(self).message_timer == MESSAGE_TICKS,
            final(self).same_frame(old(self)),
            final(self).left_panel == old(self).left_panel,
            final(self).right_panel == old(self).right_panel,
            final(self).clipboard == old(self).clipboard,
    {
        self.message = Some(String::from_str(msg));
        self.message_timer = MESSAGE_TICKS;
    }

    /// Counts one tick: the message goes when its time is up.
    pub fn tick_message(&mut self)
        ensures
            old(self).message_timer == 0 ==> final(self).message == old(self).message
                && final(self).message_timer == 0,
            old(self).message_timer == 1 ==> final(self).message is None
                && final(self).message_timer == 0,
            old(self).message_timer > 1 ==> final(self).message == old(self).message
                && final(self).message_timer == old(self).message_timer - 1,
            final(self).same_frame(old(self)),
            final(self).left_panel == old(self).left_panel,
            final(self).right_panel == old(self).right_panel,
            final(self).clipboard == old(self).clipboard,
    {
        if self.message_timer > 0 {
            self.message_timer = self.message_timer - 1;
            if self.message_timer == 0 {
                self.message = None;
            }
        }
    }

    /// The names of the entries of the active panel that an operation is about.
    pub fn get_operation_files(&self) -> (names: Vec<String>)
        ensures
            ({
                let p = self.panel(self.active_panel);
                &&& !p.selected_files@.is_empty() ==> texts(names@) == chosen_names(
                    item_views(p.files@),
                    p.selected_files@,
                    0,
                )
                &&& p.selected_files@.is_empty() ==> texts(names@) == (if p.selected_index
                    < p.files@.len() && p.files@[p.selected_index as int].name@ != ".."@ {
                    seq![p.files@[p.selected_index as int].name@]
                } else {
                    Seq::<Seq<char>>::empty()
                })
            }),
    {
        match self.active_panel {
            PanelSide::Left => self.left_panel.get_operation_files(),
            PanelSide::Right => self.right_panel.get_operation_files(),
        }
    }

    fn fill_clipboard(&mut self, operation: ClipboardOperation, told: &str)
        ensures
            final(self).same_frame(old(self)),
            final(self).left_panel == old(self).left_panel,
            final(self).right_panel == old(self).right_panel,
            final(self).message is Some,
            final(self).message_timer == MESSAGE_TICKS,
            ({
                let p = old(self).panel(old(self).active_panel);
                let names = if !p.selected_files@.is_empty() {
                    chosen_names(item_views(p.files@), p.selected_files@, 0)
                } else if p.selected_index < p.files@.len() && p.files@[p.selected_index as int].name@
                    != ".."@ {
                    seq![p.files@[p.selected_index as int].name@]
                } else {
                    Seq::<Seq<char>>::empty()
                };
                if names.len() == 0 {
                    &&& final(self).clipboard == old(self).clipboard
                    &&& final(self).message->0@ == "No files selected"@
                } else {
                    &&& final(self).clipboard matches Some(cb)
                    &&& texts(cb.files@) == names
                    &&& cb.source_path@ == p.path@
                    &&& cb.operation == operation
                    &&& final(self).message->0@ == crate::text::decimal(names.len()) + told@
                }
            }),
    {
        let files = self.get_operation_files();
        assert(texts(files@).len() == files@.len());
        if files.len() == 0 {
            self.show_message("No files selected");
            return;
        }
        let source_path = self.active_panel().path.clone();
        let mut text: Vec<char> = Vec::new();
        crate::text::append_decimal(&mut text, files.len() as u128);
        crate::text::append_str(&mut text, told);
        self.clipboard = Some(Clipboard { files, source_path, operation });
        let text = crate::text::string_of(&text);
        self.show_message(text.as_str());
    }

    /// Takes the chosen entries of the active panel into the clipboard, to
    /// be copied, and says so on the status line; says that no file is
    /// chosen where none is.
    pub fn clipboard_copy(&mut self)
        ensures
            final(self).same_frame(old(self)),
            final(self).left_panel == old(self).left_panel,
            final(self).right_panel == old(self).right_panel,
            final(self).message is Some,
            ({
                let p = old(self).panel(old(self).active_panel);
                let names = if !p.selected_files@.is_empty() {
                    chosen_names(item_views(p.files@), p.selected_files@, 0)
                } else if p.selected_index < p.files@.len() && p.files@[p.selected_index as int].name@
                    != ".."@ {
                    seq![p.files@[p.selected_index as int].name@]
                } else {
                    Seq::<Seq<char>>::empty()
                };
                if names.len() == 0 {
                    &&& final(self).clipboard == old(self).clipboard
                    &&& final(self).message->0@ == "No files selected"@
                } else {
                    &&& final(self).clipboard matches Some(cb)
                    &&& texts(cb.files@) == names
                    &&& cb.source_path@ == p.path@
                    &&& cb.operation == ClipboardOperation::Copy
                    &&& final(self).message->0@ == crate::text::decimal(names.len())
                        + " file(s) copied to clipboard"@
                }
            }),
    {
        self.fill_clipboard(ClipboardOperation::Copy, " file(s) copied to clipboard");
    }

    /// Takes the chosen entries of the active panel into the clipboard, to
    /// be moved, and says so on the status line; says that no file is chosen
    /// where none is.
    pub fn clipboard_cut(&mut self)
        ensures
            final(self).same_frame(old(self)),
            final(self).left_panel == old(self).left_panel,
            final(self).right_panel == old(self).right_panel,
            final(self).message is Some,
            ({
                let p = old(self).panel(old(self).active_panel);
                let names = if !p.selected_files@.is_empty() {
                    chosen_names(item_views(p.files@), p.selected_files@, 0)
                } else if p.selected_index < p.files@.len() && p.files@[p.selected_index as int].name@
                    != ".."@ {
                    seq![p.files@[p.selected_index as int].name@]
                } else {
                    Seq::<Seq<char>>::empty()
                };
                if names.len() == 0 {
                    &&& final(self).clipboard == old(self).clipboard
                    &&& final(self).message->0@ == "No files selected"@
                } else {
                    &&& final(self).clipboard matches Some(cb)
                    &&& texts(cb.files@) == names
                    &&& cb.source_path@ == p.path@
                    &&& cb.operation == ClipboardOperation::Cut
                    &&& final(self).message->0@ == crate::text::decimal(names.len())
                        + " file(s) cut to clipboard"@
                }
            }),
    {
        self.fill_clipboard(ClipboardOperation::Cut, " file(s) cut to clipboard");
    }

    /// Whether the clipboard holds anything.
    pub fn has_clipboard(&self) -> (r: bool)
        ensures
            r == self.clipboard is Some,
    {
        self.clipboard.is_some()
    }

    /// How many files the clipboard holds, and for which operation.
    pub fn clipboard_info(&self) -> (r: Option<(usize, &'static str)>)
        ensures
            self.clipboard is None ==> r is None,
            self.clipboard matches Some(cb) ==> r matches Some(info) && info.0 == cb.files@.len()
                && info.1@ == operation_word(cb.operation),
    {
        match &self.clipboard {
            Some(cb) => {
                let op = match cb.operation {
                    ClipboardOperation::Copy => "copy",
                    ClipboardOperation::Cut => "cut",
                };
                Some((cb.files.len(), op))
            },
            None => None,
        }
    }

    /// Shows the help screen.
    pub fn show_help(&mut self)
        ensures
            final(self).current_screen == Screen::Help,
            final(self).active_panel == old(self).active_panel,
            final(self).dialog == old(self).dialog,
            final(self).left_panel == old(self).left_panel,
            final(self).right_panel == old(self).right_panel,
            final(self).clipboard == old(self).clipboard,
            final(self).message == old(self).message,
            final(self).message_timer == old(self).message_timer,
            final(self).same_pending(old(self)),
            final(self).same_settings(old(self)),
            final(self).same_jobs(old(self)),
    {
        self.current_screen = Screen::Help;
    }

    /// Opens the dialog in which the user answers the clashes of a paste.
    pub fn show_duplicate_conflict_dialog(&mut self)
        ensures
            final(self).dialog matches Some(d) && is_plain_dialog(d, DialogType::DuplicateConflict),
            final(self).current_screen == old(self).current_screen,
            final(self).active_panel == old(self).active_panel,
            final(self).left_panel == old(self).left_panel,
            final(self).right_panel == old(self).right_panel,
            final(self).clipboard == old(self).clipboard,
            final(self).message == old(self).message,
            final(self).message_timer == old(self).message_timer,
            final(self).same_pending(old(self)),
            final(self).same_settings(old(self)),
            final(self).same_jobs(old(self)),
    {
        self.dialog = Some(Dialog::plain(DialogType::DuplicateConflict));
    }

    /// Opens the dialog that asks for the name of a new directory.
    pub fn show_mkdir_dialog(&mut self)
        ensures
            final(self).dialog matches Some(d) && is_plain_dialog(d, DialogType::Mkdir),
            final(self).current_screen == old(self).current_screen,
            final(self).active_panel == old(self).active_panel,
            final(self).left_panel == old(self).left_panel,
            final(self).right_panel == old(self).right_panel,
            final(self).clipboard == old(self).clipboard,
            final(self).message == old(self).message,
            final(self).message_timer == old(self).message_timer,
            final(self).same_pending(old(self)),
            final(self).same_settings(old(self)),
            final(self).same_jobs(old(self)),
    {
        self.dialog = Some(Dialog::plain(DialogType::Mkdir));
    }
}

} // verus!
