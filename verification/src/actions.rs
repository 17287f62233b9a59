//! What the user's commands do to the workspace: they open dialogs, change
//! the sort and the folder of the active panel, and tell on the status line
//! how a run of operations went. Reading folders and files is left to the
//! caller, which fills the panels again after the folder has changed.

use vstd::prelude::*;
use crate::archive_job::opt_text;
use crate::listing::{item_views, ItemView};
use crate::local::{
    last_failure, move_reports, report_views, reports_of_moves, run_summary, settle, successes,
    MoveFile,
};
use crate::paste::flag_at;
use crate::operations::moved_to;
use crate::navigate::{
    is_question, large_file_dialog, large_file_question, true_color_dialog, true_color_question,
    LARGE_FILE_THRESHOLD,
};
use crate::panel::{
    is_copy_dialog, is_delete_dialog, is_goto_dialog, is_rename_dialog, is_search_dialog,
    is_tar_dialog,
};
use crate::state::{
    other_side, Dialog, DialogType, PanelSide, Screen, SortBy, SortOrder, MESSAGE_TICKS,
};
use crate::text::{
    append_decimal, append_str, chars_of, concat2, concat3, decimal, str_eq, string_of, texts,
    trim, trim_chars,
};
use crate::transfer::{home_dir, join_path, joined_path};
use crate::workspace::{chosen_names, App, PanelState};

verus! {

/// The names that an operation on the panel `p` is about: the marked
/// entries, in the order of the panel; where none is marked, the entry under
/// the cursor, unless that stands for the folder above.
pub open spec fn operation_names(p: PanelState) -> Seq<Seq<char>> {
    if !p.selected_files@.is_empty() {
        chosen_names(item_views(p.files@), p.selected_files@, 0)
    } else if p.selected_index < p.files@.len() && p.files@[p.selected_index as int].name@
        != ".."@ {
        seq![p.files@[p.selected_index as int].name@]
    } else {
        Seq::<Seq<char>>::empty()
    }
}

/// The sort of a panel after the user asked for the sort `wanted`: the same
/// sort again turns its order round, another one begins ascending.
pub open spec fn sort_after(sort_by: SortBy, sort_order: SortOrder, wanted: SortBy) -> (
    SortBy,
    SortOrder,
) {
    if sort_by == wanted {
        (
            wanted,
            match sort_order {
                SortOrder::Asc => SortOrder::Desc,
                SortOrder::Desc => SortOrder::Asc,
            },
        )
    } else {
        (wanted, SortOrder::Asc)
    }
}

/// Whether `after` is the panel `before` once the user asked for the sort
/// `wanted`: the sort is changed and the cursor stands on the first entry.
pub open spec fn sorted_anew(before: PanelState, after: PanelState, wanted: SortBy) -> bool {
    &&& (after.sort_by, after.sort_order) == sort_after(before.sort_by, before.sort_order, wanted)
    &&& after.selected_index == 0
    &&& after.files == before.files
    &&& after.selected_files == before.selected_files
    &&& after.path == before.path
    &&& after.pending_focus == before.pending_focus
}

/// Whether `after` is the panel `before` gone to the folder `dir`: the
/// cursor stands on the first entry, nothing is marked, and `focus` names
/// the entry to put the cursor on when the panel is filled.
pub open spec fn entered(
    before: PanelState,
    after: PanelState,
    dir: Seq<char>,
    focus: Option<Seq<char>>,
) -> bool {
    &&& after.path@ == dir
    &&& after.selected_index == 0
    &&& after.selected_files@ == Set::<Seq<char>>::empty()
    &&& opt_text(after.pending_focus) == focus
    &&& after.files == before.files
    &&& after.sort_by == before.sort_by
    &&& after.sort_order == before.sort_order
    &&& after.scroll_offset == before.scroll_offset
}

/// What is to be done after the user asked to see a file.
#[derive(Debug, Clone, PartialEq, Eq)]
pub enum ViewStep {
    /// Nothing: there is no file to show, or the user has been told why not.
    Nothing,
    /// Nothing yet: the user is asked first.
    Asked,
    /// The picture at this path is shown.
    ShowImage(String),
    /// The file at this path is read and shown.
    Load(String),
}

/// A `ViewStep` with its path as a character sequence.
pub enum ViewStepView {
    Nothing,
    Asked,
    ShowImage(Seq<char>),
    Load(Seq<char>),
}

impl View for ViewStep {
    type V = ViewStepView;

    open spec fn view(&self) -> ViewStepView {
        match *self {
            ViewStep::Nothing => ViewStepView::Nothing,
            ViewStep::Asked => ViewStepView::Asked,
            ViewStep::ShowImage(p) => ViewStepView::ShowImage(p@),
            ViewStep::Load(p) => ViewStepView::Load(p@),
        }
    }
}

/// Something that a search has found.
#[derive(Debug, Clone, PartialEq, Eq)]
pub struct SearchHit {
    /// Its full path.
    pub full_path: String,
    /// The folder it lies in, where there is one.
    pub parent: Option<String>,
    /// Its name.
    pub name: String,
    /// Its path from the folder searched.
    pub relative_path: String,
    pub is_directory: bool,
}

impl PanelState {
    /// Whether the cursor stands on an entry.
    pub open spec fn on_entry(&self) -> bool {
        self.selected_index < self.files@.len()
    }

    /// The name of the entry under the cursor.
    pub open spec fn name_under_cursor(&self) -> Seq<char>
        recommends
            self.on_entry(),
    {
        self.files@[self.selected_index as int].name@
    }

    /// Whether the entry under the cursor is a directory.
    pub open spec fn directory_under_cursor(&self) -> bool
        recommends
            self.on_entry(),
    {
        self.files@[self.selected_index as int].is_directory
    }

    /// The path of the entry under the cursor.
    pub open spec fn path_under_cursor(&self) -> Seq<char>
        recommends
            self.on_entry(),
    {
        joined_path(self.path@, self.name_under_cursor())
    }

    /// Goes to the folder `dir`; `focus` names the entry to put the cursor
    /// on when the panel is filled.
    pub fn enter(&mut self, dir: String, focus: Option<String>)
        ensures
            entered(*old(self), *final(self), dir@, opt_text(focus)),
    {
        self.path = dir;
        self.selected_index = 0;
        self.selected_files.clear();
        self.pending_focus = focus;
    }
}

impl App {
    /// The panel that takes the keys.
    pub open spec fn active(&self) -> PanelState {
        self.panel(self.active_panel)
    }

    /// The panel that does not take the keys.
    pub open spec fn target(&self) -> PanelState {
        self.panel(other_side(self.active_panel))
    }

    /// Nothing but the dialog and the status line differs from `other`.
    pub open spec fn same_panels(&self, other: &App) -> bool {
        &&& self.left_panel == other.left_panel
        &&& self.right_panel == other.right_panel
        &&& self.active_panel == other.active_panel
        &&& self.current_screen == other.current_screen
        &&& self.clipboard == other.clipboard
        &&& self.same_pending(other)
        &&& self.same_settings(other)
        &&& self.same_jobs(other)
    }

    /// Nothing but the active panel differs from `other`.
    pub open spec fn same_but_active_panel(&self, other: &App) -> bool {
        &&& self.same_frame(other)
        &&& self.target() == other.target()
        &&& self.message == other.message
        &&& self.message_timer == other.message_timer
        &&& self.clipboard == other.clipboard
    }

    /// The status line says `text`, for the usual time.
    pub open spec fn says(&self, text: Seq<char>) -> bool {
        &&& self.message matches Some(m) && m@ == text
        &&& self.message_timer == MESSAGE_TICKS
    }

    /// The status line is as in `other`.
    pub open spec fn same_message(&self, other: &App) -> bool {
        &&& self.message == other.message
        &&& self.message_timer == other.message_timer
    }

    fn toggle_sort(&mut self, wanted: SortBy)
        ensures
            final(self).same_but_active_panel(old(self)),
            sorted_anew(old(self).active(), final(self).active(), wanted),
    {
        match self.active_panel {
            PanelSide::Left => self.left_panel.toggle_sort(wanted),
            PanelSide::Right => self.right_panel.toggle_sort(wanted),
        }
    }

    /// Sorts the active panel by name; asked again, turns the order round.
    pub fn toggle_sort_by_name(&mut self)
        ensures
            final(self).same_but_active_panel(old(self)),
            sorted_anew(old(self).active(), final(self).active(), SortBy::Name),
    {
        self.toggle_sort(SortBy::Name);
    }

    /// Sorts the active panel by size; asked again, turns the order round.
    pub fn toggle_sort_by_size(&mut self)
        ensures
            final(self).same_but_active_panel(old(self)),
            sorted_anew(old(self).active(), final(self).active(), SortBy::Size),
    {
        self.toggle_sort(SortBy::Size);
    }

    /// Sorts the active panel by the time of the last change; asked again,
    /// turns the order round.
    pub fn toggle_sort_by_date(&mut self)
        ensures
            final(self).same_but_active_panel(old(self)),
            sorted_anew(old(self).active(), final(self).active(), SortBy::Modified),
    {
        self.toggle_sort(SortBy::Modified);
    }

    /// Sorts the active panel by the kind of file; asked again, turns the
    /// order round.
    pub fn toggle_sort_by_type(&mut self)
        ensures
            final(self).same_but_active_panel(old(self)),
            sorted_anew(old(self).active(), final(self).active(), SortBy::Type),
    {
        self.toggle_sort(SortBy::Type);
    }

    /// Opens `dialog`; says that no file is chosen where there is none.
    fn open_for_files(&mut self, dialog: Option<Dialog>)
        ensures
            final(self).same_panels(old(self)),
            dialog is Some ==> final(self).dialog == dialog && final(self).same_message(old(self)),
            dialog is None ==> final(self).dialog == old(self).dialog && final(self).says(
                "No files selected"@,
            ),
    {
        match dialog {
            Some(d) => {
                self.dialog = Some(d);
            },
            None => {
                self.show_message("No files selected");
            },
        }
    }

    /// Asks where the chosen files of the active panel are copied to,
    /// offering the folder of the other panel; says that no file is chosen
    /// where none is.
    pub fn show_copy_dialog(&mut self)
        ensures
            final(self).same_panels(old(self)),
            ({
                let names = operation_names(old(self).active());
                if names.len() == 0 {
                    final(self).dialog == old(self).dialog && final(self).says(
                        "No files selected"@,
                    )
                } else {
                    &&& final(self).same_message(old(self))
                    &&& final(self).dialog matches Some(d) && is_copy_dialog(
                        d,
                        names,
                        old(self).target().path@,
                        false,
                    )
                }
            }),
    {
        let files = self.get_operation_files();
        assert(texts(files@).len() == files@.len());
        let dialog = crate::panel::show_copy_dialog(
            &files,
            self.target_panel().path.as_str(),
            false,
        );
        self.open_for_files(dialog);
    }

    /// Asks where the chosen files of the active panel are moved to,
    /// offering the folder of the other panel; says that no file is chosen
    /// where none is.
    pub fn show_move_dialog(&mut self)
        ensures
            final(self).same_panels(old(self)),
            ({
                let names = operation_names(old(self).active());
                if names.len() == 0 {
                    final(self).dialog == old(self).dialog && final(self).says(
                        "No files selected"@,
                    )
                } else {
                    &&& final(self).same_message(old(self))
                    &&& final(self).dialog matches Some(d) && is_copy_dialog(
                        d,
                        names,
                        old(self).target().path@,
                        true,
                    )
                }
            }),
    {
        let files = self.get_operation_files();
        assert(texts(files@).len() == files@.len());
        let dialog = crate::panel::show_copy_dialog(
            &files,
            self.target_panel().path.as_str(),
            true,
        );
        self.open_for_files(dialog);
    }

    /// Asks whether the chosen files of the active panel are deleted; says
    /// that no file is chosen where none is.
    pub fn show_delete_dialog(&mut self)
        ensures
            final(self).same_panels(old(self)),
            ({
                let names = operation_names(old(self).active());
                if names.len() == 0 {
                    final(self).dialog == old(self).dialog && final(self).says(
                        "No files selected"@,
                    )
                } else {
                    &&& final(self).same_message(old(self))
                    &&& final(self).dialog matches Some(d) && is_delete_dialog(d, names)
                }
            }),
    {
        let files = self.get_operation_files();
        assert(texts(files@).len() == files@.len());
        let dialog = crate::panel::show_delete_dialog(&files);
        self.open_for_files(dialog);
    }

    /// Asks for the name of the archive made of the chosen files of the
    /// active panel; says that no file is chosen where none is.
    pub fn show_tar_dialog(&mut self)
        ensures
            final(self).same_panels(old(self)),
            ({
                let names = operation_names(old(self).active());
                if names.len() == 0 {
                    final(self).dialog == old(self).dialog && final(self).says(
                        "No files selected"@,
                    )
                } else {
                    &&& final(self).same_message(old(self))
                    &&& final(self).dialog matches Some(d) && is_tar_dialog(d, names)
                }
            }),
    {
        let files = self.get_operation_files();
        assert(texts(files@).len() == files@.len());
        let dialog = crate::panel::show_tar_dialog(&files);
        self.open_for_files(dialog);
    }

    /// Asks for the new name of the entry under the cursor of the active
    /// panel. Nothing happens where the cursor is on no entry; the entry
    /// that stands for the folder above cannot be renamed, and the status
    /// line says so.
    pub fn show_rename_dialog(&mut self)
        ensures
            final(self).same_panels(old(self)),
            ({
                let p = old(self).active();
                if p.selected_index >= p.files@.len() {
                    final(self).dialog == old(self).dialog && final(self).same_message(old(self))
                } else if p.files@[p.selected_index as int].name@ == ".."@ {
                    final(self).dialog == old(self).dialog && final(self).says(
                        "Select a file to rename"@,
                    )
                } else {
                    &&& final(self).same_message(old(self))
                    &&& final(self).dialog matches Some(d) && is_rename_dialog(
                        d,
                        p.files@[p.selected_index as int].name@,
                        p.files@[p.selected_index as int].is_directory,
                    )
                }
            }),
    {
        let dialog = match self.active_panel().current_file() {
            Some(file) => crate::panel::show_rename_dialog(file.name.as_str(), file.is_directory),
            None => {
                return;
            },
        };
        match dialog {
            Some(d) => {
                self.dialog = Some(d);
            },
            None => {
                self.show_message("Select a file to rename");
            },
        }
    }

    /// Asks for the text to search for.
    pub fn show_search_dialog(&mut self)
        ensures
            final(self).same_panels(old(self)),
            final(self).same_message(old(self)),
            final(self).dialog matches Some(d) && is_search_dialog(d),
    {
        self.dialog = Some(crate::panel::show_search_dialog());
    }

    /// Asks for the path to go to, offering the folder of the active panel.
    pub fn show_goto_dialog(&mut self)
        ensures
            final(self).same_panels(old(self)),
            final(self).same_message(old(self)),
            final(self).dialog matches Some(d) && is_goto_dialog(d, old(self).active().path@),
    {
        let dialog = crate::panel::show_goto_dialog(self.active_panel().path.as_str());
        self.dialog = Some(dialog);
    }

    /// Shows the list of the processes that run.
    pub fn show_process_manager(&mut self)
        ensures
            final(self).current_screen == Screen::ProcessManager,
            final(self).same_pending(old(self)),
            final(self).same_settings(old(self)),
            final(self).same_jobs(old(self)),
            final(self).left_panel == old(self).left_panel,
            final(self).right_panel == old(self).right_panel,
            final(self).active_panel == old(self).active_panel,
            final(self).dialog == old(self).dialog,
            final(self).clipboard == old(self).clipboard,
            final(self).same_message(old(self)),
    {
        self.current_screen = Screen::ProcessManager;
    }

    /// Shows what is known of the machine.
    pub fn show_system_info(&mut self)
        ensures
            final(self).current_screen == Screen::SystemInfo,
            final(self).same_pending(old(self)),
            final(self).same_settings(old(self)),
            final(self).same_jobs(old(self)),
            final(self).left_panel == old(self).left_panel,
            final(self).right_panel == old(self).right_panel,
            final(self).active_panel == old(self).active_panel,
            final(self).dialog == old(self).dialog,
            final(self).clipboard == old(self).clipboard,
            final(self).same_message(old(self)),
    {
        self.current_screen = Screen::SystemInfo;
    }

    /// Takes the marks of both panels away. The caller fills the panels
    /// again afterwards.
    pub fn refresh_panels(&mut self)
        ensures
            final(self).same_frame(old(self)),
            final(self).same_message(old(self)),
            final(self).clipboard == old(self).clipboard,
            final(self).marks_cleared(old(self)),
    {
        self.left_panel.selected_files.clear();
        self.right_panel.selected_files.clear();
    }

    /// Takes the active panel to the folder `dir`; `filename` names the
    /// entry to put the cursor on when the panel is filled.
    pub fn goto_directory_with_focus(&mut self, dir: String, filename: Option<String>)
        ensures
            final(self).same_but_active_panel(old(self)),
            entered(old(self).active(), final(self).active(), dir@, opt_text(filename)),
    {
        match self.active_panel {
            PanelSide::Left => self.left_panel.enter(dir, filename),
            PanelSide::Right => self.right_panel.enter(dir, filename),
        }
    }

    /// Takes the active panel to the folder above its own. `parent` is that
    /// folder, where there is one; `current_name` is the name of the folder
    /// left, on which the cursor is put when the panel is filled. Returns
    /// whether the panel has changed its folder.
    pub fn go_to_parent(&mut self, current_name: Option<String>, parent: Option<String>) -> (moved:
        bool)
        ensures
            final(self).same_but_active_panel(old(self)),
            moved == parent is Some,
            parent matches Some(dir) ==> entered(
                old(self).active(),
                final(self).active(),
                dir@,
                match current_name {
                    Some(name) => Some(name@),
                    None => opt_text(old(self).active().pending_focus),
                },
            ),
            parent is None ==> ({
                let before = old(self).active();
                let after = final(self).active();
                &&& after.path == before.path
                &&& after.files == before.files
                &&& after.selected_index == before.selected_index
                &&& after.selected_files == before.selected_files
                &&& opt_text(after.pending_focus) == (match current_name {
                    Some(name) => Some(name@),
                    None => opt_text(before.pending_focus),
                })
            }),
    {
        match self.active_panel {
            PanelSide::Left => go_up(&mut self.left_panel, current_name, parent),
            PanelSide::Right => go_up(&mut self.right_panel, current_name, parent),
        }
    }

    /// Takes the active panel to the home directory of the user, where one
    /// can be found. Returns whether the panel has changed its folder.
    pub fn goto_home(&mut self) -> (moved: bool)
        ensures
            final(self).same_but_active_panel(old(self)),
            !moved ==> final(self).active() == old(self).active(),
            moved ==> exists|home: Seq<char>|
                moved_to(old(self).active(), final(self).active(), home),
    {
        let home = home_dir();
        let ghost found = home;
        let moved = self.go_home(home);
        proof {
            if moved {
                assert(moved_to(old(self).active(), self.active(), found->0@));
            }
        }
        moved
    }

    /// Takes the active panel to the home directory `home` of the user,
    /// where there is one: the cursor then stands on the first entry and
    /// nothing is marked. Without a home directory the panel stays as it
    /// is. Returns whether the panel has changed its folder.
    pub fn go_home(&mut self, home: Option<String>) -> (moved: bool)
        ensures
            final(self).same_but_active_panel(old(self)),
            moved == home is Some,
            match home {
                Some(dir) => moved_to(old(self).active(), final(self).active(), dir@),
                None => final(self).active() == old(self).active(),
            },
    {
        match home {
            Some(dir) => {
                self.move_active_to(dir);
                true
            },
            None => false,
        }
    }
}

impl App {
    /// The marks of both panels are gone; nothing else of the panels
    /// differs from `other`.
    pub open spec fn marks_cleared(&self, other: &App) -> bool {
        &&& self.left_panel.selected_files@ == Set::<Seq<char>>::empty()
        &&& self.right_panel.selected_files@ == Set::<Seq<char>>::empty()
        &&& self.left_panel.files == other.left_panel.files
        &&& self.right_panel.files == other.right_panel.files
        &&& self.left_panel.path == other.left_panel.path
        &&& self.right_panel.path == other.right_panel.path
        &&& self.left_panel.selected_index == other.left_panel.selected_index
        &&& self.right_panel.selected_index == other.right_panel.selected_index
        &&& self.left_panel.pending_focus == other.left_panel.pending_focus
        &&& self.right_panel.pending_focus == other.right_panel.pending_focus
        &&& self.left_panel.sort_by == other.left_panel.sort_by
        &&& self.right_panel.sort_by == other.right_panel.sort_by
        &&& self.left_panel.sort_order == other.left_panel.sort_order
        &&& self.right_panel.sort_order == other.right_panel.sort_order
        &&& self.left_panel.scroll_offset == other.left_panel.scroll_offset
        &&& self.right_panel.scroll_offset == other.right_panel.scroll_offset
    }

    fn settle_run(&mut self, verb: &str, reports: &Vec<Option<String>>)
        ensures
            final(self).same_frame(old(self)),
            final(self).clipboard == old(self).clipboard,
            final(self).marks_cleared(old(self)),
            final(self).says(
                run_summary(
                    verb@,
                    successes(report_views(reports@)) as usize,
                    reports@.len() as usize,
                    last_failure(report_views(reports@)),
                ),
            ),
    {
        let text = settle(verb, reports);
        self.show_message(text.as_str());
        self.refresh_panels();
    }

    /// Tells on the status line how the copy of the chosen files went, of
    /// which `reports` says for each whether it went well (nothing) or why
    /// not, and takes the marks of both panels away.
    pub fn execute_copy_to(&mut self, reports: &Vec<Option<String>>)
        ensures
            final(self).same_frame(old(self)),
            final(self).clipboard == old(self).clipboard,
            final(self).marks_cleared(old(self)),
            final(self).says(
                run_summary(
                    "Copied"@,
                    successes(report_views(reports@)) as usize,
                    reports@.len() as usize,
                    last_failure(report_views(reports@)),
                ),
            ),
    {
        self.settle_run("Copied", reports);
    }

    /// Tells on the status line how the move of the chosen files went, and
    /// takes the marks of both panels away. `moves` holds the move of each
    /// file as it stands: a file counts as moved where its move has ended
    /// without a failure, and the last failure is told.
    pub fn execute_move_to(&mut self, moves: &Vec<MoveFile>)
        ensures
            final(self).same_frame(old(self)),
            final(self).clipboard == old(self).clipboard,
            final(self).marks_cleared(old(self)),
            final(self).says(
                run_summary(
                    "Moved"@,
                    successes(move_reports(moves@)) as usize,
                    moves@.len() as usize,
                    last_failure(move_reports(moves@)),
                ),
            ),
    {
        let reports = reports_of_moves(moves);
        assert(report_views(reports@).len() == moves@.len());
        self.settle_run("Moved", &reports);
    }

    /// Tells on the status line how deleting went, and takes the marks of
    /// both panels away. `reports` says for each file whether it went well
    /// (nothing) or why not. While a picture is shown, it is the picture
    /// that was deleted, and `reports` holds the one report on it: where it
    /// is gone, the panels are shown again.
    pub fn execute_delete(&mut self, reports: &Vec<Option<String>>)
        ensures
            final(self).active_panel == old(self).active_panel,
            final(self).dialog == old(self).dialog,
            final(self).same_pending(old(self)),
            final(self).same_settings(old(self)),
            final(self).same_jobs(old(self)),
            final(self).clipboard == old(self).clipboard,
            old(self).current_screen != Screen::ImageViewer ==> {
                &&& final(self).current_screen == old(self).current_screen
                &&& final(self).marks_cleared(old(self))
                &&& final(self).says(
                    run_summary(
                        "Deleted"@,
                        successes(report_views(reports@)) as usize,
                        reports@.len() as usize,
                        last_failure(report_views(reports@)),
                    ),
                )
            },
            old(self).current_screen == Screen::ImageViewer && reports@.len() == 0 ==> *final(self)
                == *old(self),
            old(self).current_screen == Screen::ImageViewer && reports@.len() > 0 ==> {
                &&& final(self).marks_cleared(old(self))
                &&& match reports@[0] {
                    None => final(self).current_screen == Screen::DualPanel && final(self).says(
                        "Deleted image"@,
                    ),
                    Some(reason) => final(self).current_screen == Screen::ImageViewer
                        && final(self).says("Delete failed: "@ + reason@),
                }
            },
    {
        if self.current_screen == Screen::ImageViewer {
            if reports.len() == 0 {
                return;
            }
            match &reports[0] {
                None => {
                    self.show_message("Deleted image");
                    self.current_screen = Screen::DualPanel;
                },
                Some(reason) => {
                    let text = concat2("Delete failed: ", reason.as_str());
                    self.show_message(text.as_str());
                },
            }
            self.refresh_panels();
            return;
        }
        self.settle_run("Deleted", reports);
    }

    /// Decides what is done when the user asks to see the file under the
    /// cursor of the active panel. `is_image` says whether it is a picture,
    /// `true_color` whether the terminal shows all colours, `size` how many
    /// bytes the file has. A directory is not shown, and the status line
    /// says so. Before a picture is shown on a terminal without all
    /// colours, or one of more than 50 MB, the user is asked, and the path
    /// is kept for the answer.
    pub fn view_file(&mut self, is_image: bool, true_color: bool, size: u64) -> (step: ViewStep)
        ensures
            final(self).left_panel == old(self).left_panel,
            final(self).right_panel == old(self).right_panel,
            final(self).active_panel == old(self).active_panel,
            final(self).clipboard == old(self).clipboard,
            final(self).pending_large_file == old(self).pending_large_file,
            ({
                let p = old(self).active();
                if !p.on_entry() {
                    step@ == ViewStepView::Nothing && *final(self) == *old(self)
                } else if p.directory_under_cursor() {
                    &&& step@ == ViewStepView::Nothing
                    &&& final(self).says("Select a file to view"@)
                    &&& final(self).same_frame(old(self))
                } else if is_image && (!true_color || size > LARGE_FILE_THRESHOLD) {
                    &&& step@ == ViewStepView::Asked
                    &&& final(self).same_message(old(self))
                    &&& final(self).current_screen == old(self).current_screen
                    &&& final(self).pending_large_image matches Some(path) && path@
                        == p.path_under_cursor()
                    &&& final(self).dialog matches Some(d) && (if !true_color {
                        is_question(d, DialogType::TrueColorWarning, true_color_question())
                    } else {
                        is_question(
                            d,
                            DialogType::LargeImageConfirm,
                            large_file_question(size, true),
                        )
                    })
                } else if is_image {
                    &&& step@ == ViewStepView::ShowImage(p.path_under_cursor())
                    &&& final(self).current_screen == Screen::ImageViewer
                    &&& final(self).same_message(old(self))
                    &&& final(self).dialog == old(self).dialog
                    &&& final(self).pending_large_image == old(self).pending_large_image
                } else {
                    step@ == ViewStepView::Load(p.path_under_cursor()) && *final(self) == *old(self)
                }
            }),
    {
        let (path, is_directory) = match self.active_panel().current_file() {
            Some(file) => (
                join_path(self.active_panel().path.as_str(), file.name.as_str()),
                file.is_directory,
            ),
            None => {
                return ViewStep::Nothing;
            },
        };
        if is_directory {
            self.show_message("Select a file to view");
            return ViewStep::Nothing;
        }
        if !is_image {
            return ViewStep::Load(path);
        }
        if !true_color {
            self.pending_large_image = Some(path);
            self.dialog = Some(true_color_dialog());
            return ViewStep::Asked;
        }
        if size > LARGE_FILE_THRESHOLD {
            self.pending_large_image = Some(path);
            self.dialog = Some(large_file_dialog(size, true));
            return ViewStep::Asked;
        }
        self.current_screen = Screen::ImageViewer;
        ViewStep::ShowImage(path)
    }

    /// Decides what is done when the user asks to edit the file under the
    /// cursor of the active panel: returns the path of the file to read. A
    /// directory is not edited, and the status line says so.
    pub fn edit_file(&mut self) -> (path: Option<String>)
        ensures
            final(self).same_panels(old(self)),
            final(self).dialog == old(self).dialog,
            ({
                let p = old(self).active();
                if !p.on_entry() {
                    path is None && final(self).same_message(old(self))
                } else if p.directory_under_cursor() {
                    path is None && final(self).says("Select a file to edit"@)
                } else {
                    &&& final(self).same_message(old(self))
                    &&& path matches Some(t) && t@ == p.path_under_cursor()
                }
            }),
    {
        let (path, is_directory) = match self.active_panel().current_file() {
            Some(file) => (
                join_path(self.active_panel().path.as_str(), file.name.as_str()),
                file.is_directory,
            ),
            None => {
                return None;
            },
        };
        if is_directory {
            self.show_message("Select a file to edit");
            return None;
        }
        Some(path)
    }

    /// Shows the file that was read for the viewer, or says on the status
    /// line why it could not be read.
    pub fn viewer_loaded(&mut self, failure: Option<&str>)
        ensures
            final(self).left_panel == old(self).left_panel,
            final(self).right_panel == old(self).right_panel,
            final(self).active_panel == old(self).active_panel,
            final(self).clipboard == old(self).clipboard,
            final(self).dialog == old(self).dialog,
            final(self).same_pending(old(self)),
            final(self).same_settings(old(self)),
            final(self).same_jobs(old(self)),
            match failure {
                None => final(self).current_screen == Screen::FileViewer
                    && final(self).same_message(old(self)),
                Some(reason) => final(self).current_screen == old(self).current_screen
                    && final(self).says("Cannot read file: "@ + reason@),
            },
    {
        match failure {
            None => {
                self.current_screen = Screen::FileViewer;
            },
            Some(reason) => {
                let text = concat2("Cannot read file: ", reason);
                self.show_message(text.as_str());
            },
        }
    }

    /// Shows the file that was read for the editor, or says on the status
    /// line why it could not be opened.
    pub fn editor_loaded(&mut self, failure: Option<&str>)
        ensures
            final(self).left_panel == old(self).left_panel,
            final(self).right_panel == old(self).right_panel,
            final(self).active_panel == old(self).active_panel,
            final(self).clipboard == old(self).clipboard,
            final(self).dialog == old(self).dialog,
            final(self).same_pending(old(self)),
            final(self).same_settings(old(self)),
            final(self).same_jobs(old(self)),
            match failure {
                None => final(self).current_screen == Screen::FileEditor
                    && final(self).same_message(old(self)),
                Some(reason) => final(self).current_screen == old(self).current_screen
                    && final(self).says("Cannot open file: "@ + reason@),
            },
    {
        match failure {
            None => {
                self.current_screen = Screen::FileEditor;
            },
            Some(reason) => {
                let text = concat2("Cannot open file: ", reason);
                self.show_message(text.as_str());
            },
        }
    }

    /// Shows the picture that waited for the user's answer, and returns its
    /// path. Nothing happens where none waits.
    pub fn execute_open_large_image(&mut self) -> (path: Option<String>)
        ensures
            path == old(self).pending_large_image,
            final(self).pending_large_image is None,
            final(self).current_screen == (if path is Some {
                Screen::ImageViewer
            } else {
                old(self).current_screen
            }),
            final(self).left_panel == old(self).left_panel,
            final(self).right_panel == old(self).right_panel,
            final(self).active_panel == old(self).active_panel,
            final(self).clipboard == old(self).clipboard,
            final(self).dialog == old(self).dialog,
            final(self).same_message(old(self)),
            final(self).pending_large_file == old(self).pending_large_file,
    {
        let path = self.pending_large_image.take();
        if path.is_some() {
            self.current_screen = Screen::ImageViewer;
        }
        path
    }

    /// Hands out the path of the file that waited for the user's answer,
    /// to be read for the editor. Nothing happens where none waits.
    pub fn execute_open_large_file(&mut self) -> (path: Option<String>)
        ensures
            path == old(self).pending_large_file,
            final(self).pending_large_file is None,
            final(self).current_screen == old(self).current_screen,
            final(self).left_panel == old(self).left_panel,
            final(self).right_panel == old(self).right_panel,
            final(self).active_panel == old(self).active_panel,
            final(self).clipboard == old(self).clipboard,
            final(self).dialog == old(self).dialog,
            final(self).same_message(old(self)),
            final(self).pending_large_image == old(self).pending_large_image,
    {
        self.pending_large_file.take()
    }

    /// Shows what is known of the entry under the cursor of the active
    /// panel, and returns its path and whether it is a directory, whose
    /// size is then to be added up. There is nothing to show of the entry
    /// that stands for the folder above, and the status line says so.
    pub fn show_file_info(&mut self) -> (shown: Option<(String, bool)>)
        ensures
            final(self).left_panel == old(self).left_panel,
            final(self).right_panel == old(self).right_panel,
            final(self).active_panel == old(self).active_panel,
            final(self).clipboard == old(self).clipboard,
            final(self).dialog == old(self).dialog,
            final(self).same_pending(old(self)),
            final(self).same_settings(old(self)),
            final(self).same_jobs(old(self)),
            ({
                let p = old(self).active();
                if !p.on_entry() {
                    shown is None && *final(self) == *old(self)
                } else if p.name_under_cursor() == ".."@ {
                    &&& shown is None
                    &&& final(self).says("Select a file for info"@)
                    &&& final(self).current_screen == old(self).current_screen
                } else {
                    &&& shown matches Some(s) && s.0@ == p.path_under_cursor() && s.1
                        == p.directory_under_cursor()
                    &&& final(self).current_screen == Screen::FileInfo
                    &&& final(self).same_message(old(self))
                }
            }),
    {
        let (path, is_directory, is_parent) = match self.active_panel().current_file() {
            Some(file) => (
                join_path(self.active_panel().path.as_str(), file.name.as_str()),
                file.is_directory,
                crate::text::str_eq(file.name.as_str(), ".."),
            ),
            None => {
                return None;
            },
        };
        if is_parent {
            self.show_message("Select a file for info");
            return None;
        }
        self.current_screen = Screen::FileInfo;
        Some((path, is_directory))
    }

    /// Ends a search for `term` that has found `found` things: shows them,
    /// and returns `true`; or says on the status line that there is no term
    /// to search for, or that nothing was found. Where `term` is blank,
    /// `found` is not looked at.
    pub fn execute_search(&mut self, term: &str, found: usize) -> (shown: bool)
        ensures
            final(self).same_panels_but_screen(old(self)),
            final(self).dialog == old(self).dialog,
            shown == (trim(term@).len() > 0 && found > 0),
            shown ==> final(self).current_screen == Screen::SearchResult
                && final(self).same_message(old(self)),
            !shown ==> final(self).current_screen == old(self).current_screen,
            trim(term@).len() == 0 ==> final(self).says("Please enter a search term"@),
            trim(term@).len() > 0 && found == 0 ==> final(self).says(
                "No files found matching \""@ + term@ + "\""@,
            ),
    {
        let typed = chars_of(term);
        if trim_chars(&typed).len() == 0 {
            self.show_message("Please enter a search term");
            return false;
        }
        if found == 0 {
            let text = concat3("No files found matching \"", term, "\"");
            self.show_message(text.as_str());
            return false;
        }
        self.current_screen = Screen::SearchResult;
        true
    }

    /// Goes to what the user chose among the things found: into a
    /// directory; for a file, to the folder it lies in, with the cursor on
    /// it. The panels are shown again, and the status line says where the
    /// panel went. Nothing happens where nothing is chosen.
    pub fn goto_search_result(&mut self, item: Option<SearchHit>)
        ensures
            item is None ==> *final(self) == *old(self),
            item matches Some(hit) ==> {
                &&& final(self).current_screen == Screen::DualPanel
                &&& final(self).says("Moved to: "@ + hit.relative_path@)
                &&& final(self).active_panel == old(self).active_panel
                &&& final(self).dialog == old(self).dialog
                &&& final(self).same_pending(old(self))
                &&& final(self).same_settings(old(self))
                &&& final(self).same_jobs(old(self))
                &&& final(self).clipboard == old(self).clipboard
                &&& final(self).target() == old(self).target()
                &&& if hit.is_directory {
                    entered(old(self).active(), final(self).active(), hit.full_path@, None)
                } else {
                    match hit.parent {
                        Some(dir) => entered(
                            old(self).active(),
                            final(self).active(),
                            dir@,
                            Some(hit.name@),
                        ),
                        None => final(self).active() == old(self).active(),
                    }
                }
            },
    {
        match item {
            None => {},
            Some(hit) => {
                let text = concat2("Moved to: ", hit.relative_path.as_str());
                if hit.is_directory {
                    self.goto_directory_with_focus(hit.full_path, None);
                } else {
                    match hit.parent {
                        Some(dir) => {
                            self.goto_directory_with_focus(dir, Some(hit.name));
                        },
                        None => {},
                    }
                }
                self.current_screen = Screen::DualPanel;
                self.show_message(text.as_str());
            },
        }
    }

    /// Whether the assistant is shown.
    pub fn is_ai_mode(&self) -> (r: bool)
        ensures
            r == (self.ai_panel_side is Some && self.ai_state is Some),
    {
        self.ai_panel_side.is_some() && self.ai_state.is_some()
    }

    /// Shows the assistant in place of the panel that does not take the
    /// keys, and gives it the keys. It is called in the folder of the
    /// active panel.
    pub fn show_ai_screen(&mut self)
        ensures
            final(self).ai_state matches Some(dir) && dir@ == old(self).active().path@,
            final(self).ai_previous_panel == Some(old(self).active_panel),
            final(self).ai_panel_side == Some(other_side(old(self).active_panel)),
            final(self).active_panel == other_side(old(self).active_panel),
            final(self).left_panel == old(self).left_panel,
            final(self).right_panel == old(self).right_panel,
            final(self).current_screen == old(self).current_screen,
            final(self).dialog == old(self).dialog,
            final(self).clipboard == old(self).clipboard,
            final(self).same_message(old(self)),
            final(self).pending_large_image == old(self).pending_large_image,
            final(self).pending_large_file == old(self).pending_large_file,
    {
        let dir = self.active_panel().path.clone();
        self.ai_state = Some(dir);
        self.ai_previous_panel = Some(self.active_panel);
        let side = crate::state::opposite(self.active_panel);
        self.ai_panel_side = Some(side);
        self.active_panel = side;
    }

    /// Takes the assistant away, gives the keys back to the panel that had
    /// them, and takes the marks of both panels away.
    pub fn close_ai_screen(&mut self)
        ensures
            final(self).ai_state is None,
            final(self).ai_panel_side is None,
            final(self).ai_previous_panel is None,
            final(self).active_panel == (match old(self).ai_previous_panel {
                Some(side) => side,
                None => old(self).active_panel,
            }),
            final(self).marks_cleared(old(self)),
            final(self).current_screen == old(self).current_screen,
            final(self).dialog == old(self).dialog,
            final(self).clipboard == old(self).clipboard,
            final(self).same_message(old(self)),
            final(self).pending_large_image == old(self).pending_large_image,
            final(self).pending_large_file == old(self).pending_large_file,
    {
        match self.ai_previous_panel {
            Some(side) => {
                self.active_panel = side;
            },
            None => {},
        }
        self.ai_panel_side = None;
        self.ai_previous_panel = None;
        self.ai_state = None;
        self.refresh_panels();
    }

    /// Nothing but the screen, the dialog and the status line differs
    /// from `other`.
    pub open spec fn same_panels_but_screen(&self, other: &App) -> bool {
        &&& self.left_panel == other.left_panel
        &&& self.right_panel == other.right_panel
        &&& self.active_panel == other.active_panel
        &&& self.clipboard == other.clipboard
        &&& self.same_pending(other)
        &&& self.same_settings(other)
        &&& self.same_jobs(other)
    }
}

fn go_up(panel: &mut PanelState, current_name: Option<String>, parent: Option<String>) -> (moved:
    bool)
    ensures
        moved == parent is Some,
        final(panel).sort_by == old(panel).sort_by,
        final(panel).sort_order == old(panel).sort_order,
        final(panel).scroll_offset == old(panel).scroll_offset,
        final(panel).disk_total == old(panel).disk_total,
        final(panel).disk_available == old(panel).disk_available,
        parent matches Some(dir) ==> entered(
            *old(panel),
            *final(panel),
            dir@,
            match current_name {
                Some(name) => Some(name@),
                None => opt_text(old(panel).pending_focus),
            },
        ),
        parent is None ==> ({
            &&& final(panel).path == old(panel).path
            &&& final(panel).files == old(panel).files
            &&& final(panel).selected_index == old(panel).selected_index
            &&& final(panel).selected_files == old(panel).selected_files
            &&& opt_text(final(panel).pending_focus) == (match current_name {
                Some(name) => Some(name@),
                None => opt_text(old(panel).pending_focus),
            })
        }),
{
    match current_name {
        Some(name) => {
            panel.pending_focus = Some(name);
        },
        None => {},
    }
    match parent {
        Some(dir) => {
            panel.path = dir;
            panel.selected_index = 0;
            panel.selected_files.clear();
            true
        },
        None => false,
    }
}

/// Whether the entry at index `i` of `files` is one that a search has
/// found: `found` says so, and it does not stand for the folder above.
pub open spec fn is_found(files: Seq<ItemView>, found: Seq<bool>, i: int) -> bool {
    0 <= i < files.len() && files[i].name != ".."@ && flag_at(found, i)
}

/// The names of the entries of `files`, from index `from` on, that a
/// search has found.
pub open spec fn found_names(files: Seq<ItemView>, found: Seq<bool>, from: int) -> Set<Seq<char>>
    decreases files.len() - from,
{
    if from < 0 || from >= files.len() {
        Set::empty()
    } else if is_found(files, found, from) {
        found_names(files, found, from + 1).insert(files[from].name)
    } else {
        found_names(files, found, from + 1)
    }
}

/// How many entries of `files`, from index `from` on, a search has found.
pub open spec fn found_count(files: Seq<ItemView>, found: Seq<bool>, from: int) -> nat
    decreases files.len() - from,
{
    if from < 0 || from >= files.len() {
        0
    } else if is_found(files, found, from) {
        1 + found_count(files, found, from + 1)
    } else {
        found_count(files, found, from + 1)
    }
}

/// What the user is told after a search that has found `count` entries.
pub open spec fn search_message(count: nat) -> Seq<char> {
    if count > 0 {
        "Found "@ + decimal(count) + " matching file(s)"@
    } else {
        "No files match the criteria"@
    }
}

impl PanelState {
    /// Marks the entries that a search has found, and no others: `found`
    /// says for each entry whether it was. Returns how many were found.
    pub fn mark_found(&mut self, found: &Vec<bool>) -> (count: usize)
        ensures
            final(self).selected_files@ == found_names(item_views(old(self).files@), found@, 0),
            count == found_count(item_views(old(self).files@), found@, 0),
            final(self).files == old(self).files,
            final(self).selected_index == old(self).selected_index,
            final(self).path == old(self).path,
            final(self).sort_by == old(self).sort_by,
            final(self).sort_order == old(self).sort_order,
            final(self).scroll_offset == old(self).scroll_offset,
            final(self).pending_focus == old(self).pending_focus,
            final(self).disk_total == old(self).disk_total,
            final(self).disk_available == old(self).disk_available,
    {
        let ghost views = item_views(self.files@);
        assert(views.len() == self.files@.len());
        self.selected_files.clear();
        let n = self.files.len();
        let mut count: usize = 0;
        let mut i: usize = n;
        while i > 0
            invariant
                i <= n == self.files@.len(),
                self.files == old(self).files,
                self.selected_index == old(self).selected_index,
                self.path == old(self).path,
                self.sort_by == old(self).sort_by,
                self.sort_order == old(self).sort_order,
                self.scroll_offset == old(self).scroll_offset,
                self.pending_focus == old(self).pending_focus,
                self.disk_total == old(self).disk_total,
                self.disk_available == old(self).disk_available,
                views == item_views(self.files@),
                views.len() == n,
                count == found_count(views, found@, i as int),
                count <= n - i,
                self.selected_files@ == found_names(views, found@, i as int),
            decreases i,
        {
            i -= 1;
            assert(views[i as int] == self.files@[i as int]@);
            let flagged = i < found.len() && found[i];
            if flagged && !str_eq(self.files[i].name.as_str(), "..") {
                let name = self.files[i].name.clone();
                self.selected_files.insert(name);
                count += 1;
            }
        }
        count
    }
}

impl App {
    /// Marks the entries of the active panel that a search has found, and
    /// no others, and says on the status line how many there are. `found`
    /// says for each entry of the panel whether the search has found it.
    pub fn execute_advanced_search(&mut self, found: &Vec<bool>)
        ensures
            final(self).same_frame(old(self)),
            final(self).target() == old(self).target(),
            final(self).clipboard == old(self).clipboard,
            final(self).active().files == old(self).active().files,
            final(self).active().selected_index == old(self).active().selected_index,
            final(self).active().path == old(self).active().path,
            final(self).active().selected_files@ == found_names(
                item_views(old(self).active().files@),
                found@,
                0,
            ),
            final(self).says(
                search_message(found_count(item_views(old(self).active().files@), found@, 0)),
            ),
    {
        let count = match self.active_panel {
            PanelSide::Left => self.left_panel.mark_found(found),
            PanelSide::Right => self.right_panel.mark_found(found),
        };
        if count > 0 {
            let mut text = chars_of("Found ");
            append_decimal(&mut text, count as u128);
            append_str(&mut text, " matching file(s)");
            let text = string_of(&text);
            self.show_message(text.as_str());
        } else {
            self.show_message("No files match the criteria");
        }
    }
}

/// The editor command to start: `code` where there is one, else
/// `code-insiders` where there is one.
pub open spec fn editor_command(has_code: bool, has_insiders: bool) -> Option<Seq<char>> {
    if has_code {
        Some("code"@)
    } else if has_insiders {
        Some("code-insiders"@)
    } else {
        None
    }
}

impl App {
    /// Shows why none of the handlers for a kind of file could open it.
    pub fn show_extension_handler_error(&mut self, error_message: &str)
        ensures
            final(self).same_panels(old(self)),
            final(self).same_message(old(self)),
            final(self).dialog matches Some(d) && d.dialog_type == DialogType::ExtensionHandlerError
                && d.message@ == error_message@ && d.input@.len() == 0 && d.cursor_pos == 0
                && d.selected_button == 0 && d.completion is None && d.selection is None,
    {
        let mut dialog = Dialog::plain(DialogType::ExtensionHandlerError);
        dialog.message = String::from_str(error_message);
        self.dialog = Some(dialog);
    }

    /// Says on the status line whether the folder of the active panel was
    /// opened in the file manager of the desktop; `failure` says why it was
    /// not, where it was not.
    pub fn open_in_finder(&mut self, failure: Option<&str>)
        ensures
            final(self).same_panels(old(self)),
            final(self).dialog == old(self).dialog,
            match failure {
                None => final(self).says("Opened in Finder: "@ + old(self).active().path@),
                Some(reason) => final(self).says("Failed to open: "@ + reason@),
            },
    {
        let text = match failure {
            None => concat2("Opened in Finder: ", self.active_panel().path.as_str()),
            Some(reason) => concat2("Failed to open: ", reason),
        };
        self.show_message(text.as_str());
    }

    /// Chooses the editor command with which the folder of the active
    /// panel is opened, `has_code` and `has_insiders` saying which commands
    /// there are. Where there is none, the status line says so.
    pub fn open_in_vscode(&mut self, has_code: bool, has_insiders: bool) -> (command: Option<
        &'static str,
    >)
        ensures
            final(self).same_panels(old(self)),
            final(self).dialog == old(self).dialog,
            match command {
                Some(c) => Some(c@),
                None => None,
            } == editor_command(has_code, has_insiders),
            command is Some ==> final(self).same_message(old(self)),
            command is None ==> final(self).says("VS Code not found (tried: code, code-insiders)"@),
    {
        if has_code {
            Some("code")
        } else if has_insiders {
            Some("code-insiders")
        } else {
            self.show_message("VS Code not found (tried: code, code-insiders)");
            None
        }
    }

    /// Says on the status line whether the editor command `command` has
    /// opened the folder of the active panel; `failure` says why it has not,
    /// where it has not.
    pub fn vscode_opened(&mut self, command: &str, failure: Option<&str>)
        ensures
            final(self).same_panels(old(self)),
            final(self).dialog == old(self).dialog,
            match failure {
                None => final(self).says(
                    "Opened in "@ + command@ + ": "@ + old(self).active().path@,
                ),
                Some(reason) => final(self).says(
                    "Failed to open "@ + command@ + ": "@ + reason@,
                ),
            },
    {
        let mut text = match failure {
            None => chars_of("Opened in "),
            Some(_) => chars_of("Failed to open "),
        };
        append_str(&mut text, command);
        append_str(&mut text, ": ");
        match failure {
            None => append_str(&mut text, self.active_panel().path.as_str()),
            Some(reason) => append_str(&mut text, reason),
        }
        let text = string_of(&text);
        self.show_message(text.as_str());
    }
}

impl App {
    /// The workspace with the panel `p` in place of the active panel.
    pub open spec fn with_active(self, p: PanelState) -> App {
        match self.active_panel {
            PanelSide::Left => App { left_panel: p, ..self },
            PanelSide::Right => App { right_panel: p, ..self },
        }
    }

    /// The panel that takes the keys, to be changed.
    pub fn active_panel_mut(&mut self) -> (p: &mut PanelState)
        ensures
            *p == old(self).active(),
            *final(self) == old(self).with_active(*final(p)),
    {
        match self.active_panel {
            PanelSide::Left => &mut self.left_panel,
            PanelSide::Right => &mut self.right_panel,
        }
    }

    /// The name of the theme to load again, after its file has changed.
    pub fn reload_theme(&self) -> (name: &str)
        ensures
            name@ == self.settings.theme_name@,
    {
        self.settings.theme_name.as_str()
    }

    /// Tells on the status line how the copy of the chosen files into the
    /// folder of the other panel went, of which `reports` says for each
    /// whether it went well (nothing) or why not, and takes the marks of
    /// both panels away.
    pub fn execute_copy(&mut self, reports: &Vec<Option<String>>)
        ensures
            final(self).same_frame(old(self)),
            final(self).clipboard == old(self).clipboard,
            final(self).marks_cleared(old(self)),
            final(self).says(
                run_summary(
                    "Copied"@,
                    successes(report_views(reports@)) as usize,
                    reports@.len() as usize,
                    last_failure(report_views(reports@)),
                ),
            ),
    {
        self.execute_copy_to(reports);
    }

    /// Tells on the status line how the move of the chosen files into the
    /// folder of the other panel went, and takes the marks of both panels
    /// away. `moves` holds the move of each file as it stands.
    pub fn execute_move(&mut self, moves: &Vec<MoveFile>)
        ensures
            final(self).same_frame(old(self)),
            final(self).clipboard == old(self).clipboard,
            final(self).marks_cleared(old(self)),
            final(self).says(
                run_summary(
                    "Moved"@,
                    successes(move_reports(moves@)) as usize,
                    moves@.len() as usize,
                    last_failure(move_reports(moves@)),
                ),
            ),
    {
        self.execute_move_to(moves);
    }
}

} // verus!
