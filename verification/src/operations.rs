//! What the requests of the user do to the workspace where the disk has a
//! say: going to a folder, opening the entry under the cursor, making a
//! directory and renaming an entry. The caller looks at the disk and
//! changes it; the workspace decides and remembers.

use vstd::prelude::*;
use crate::archive::{has_archive_suffix, is_archive_file};
use crate::archive_job::opt_text;
use crate::local::{new_entry_refusal, rename_refusal};
use crate::navigate::{
    goto_outcome_of, is_question, large_file_dialog, large_file_dialog_type, large_file_question,
    true_color_dialog, true_color_question, EnterStep, GotoOutcome, GotoOutcomeView,
    LARGE_FILE_THRESHOLD,
};
use crate::state::{DialogType, PanelSide, Screen};
use crate::text::{concat2, lowercase_of};
use crate::transfer::{join_path, joined_path, opt_str};
use crate::workspace::{App, PanelState};

verus! {

/// Whether `after` is the panel `before` gone to the folder `dir`: the
/// cursor stands on the first entry and nothing is marked.
pub open spec fn moved_to(before: PanelState, after: PanelState, dir: Seq<char>) -> bool {
    &&& after.path@ == dir
    &&& after.selected_index == 0
    &&& after.selected_files@ == Set::<Seq<char>>::empty()
    &&& after.pending_focus == before.pending_focus
    &&& after.files == before.files
    &&& after.sort_by == before.sort_by
    &&& after.sort_order == before.sort_order
    &&& after.scroll_offset == before.scroll_offset
}

impl PanelState {
    /// Goes to the folder `dir`, to be filled by the caller.
    pub fn go_to(&mut self, dir: String)
        ensures
            moved_to(*old(self), *final(self), dir@),
    {
        self.path = dir;
        self.selected_index = 0;
        self.selected_files.clear();
    }
}

/// What is done after the user asked to open a file that no handler took.
#[derive(Debug, Clone, PartialEq, Eq)]
pub enum OpenStep {
    /// The archive at this path is unpacked.
    Extract(String),
    /// Nothing yet: the user is asked first.
    Asked,
    /// The picture at this path is shown.
    ShowImage(String),
    /// The file at this path is read for the editor.
    Edit(String),
}

/// An `OpenStep` with its path as a character sequence.
pub enum OpenStepView {
    Extract(Seq<char>),
    Asked,
    ShowImage(Seq<char>),
    Edit(Seq<char>),
}

impl View for OpenStep {
    type V = OpenStepView;

    open spec fn view(&self) -> OpenStepView {
        match *self {
            OpenStep::Extract(p) => OpenStepView::Extract(p@),
            OpenStep::Asked => OpenStepView::Asked,
            OpenStep::ShowImage(p) => OpenStepView::ShowImage(p@),
            OpenStep::Edit(p) => OpenStepView::Edit(p@),
        }
    }
}

impl App {
    /// Nothing but the active panel and the status line differs from `other`.
    pub open spec fn same_but_panel_and_message(&self, other: &App) -> bool {
        &&& self.same_frame(other)
        &&& self.target() == other.target()
        &&& self.clipboard == other.clipboard
    }

    pub(crate) fn move_active_to(&mut self, dir: String)
        ensures
            final(self).same_but_active_panel(old(self)),
            moved_to(old(self).active(), final(self).active(), dir@),
    {
        match self.active_panel {
            PanelSide::Left => self.left_panel.go_to(dir),
            PanelSide::Right => self.right_panel.go_to(dir),
        }
    }

    /// Takes the active panel where the user asked to go, and says on the
    /// status line what came of it. `target` is the path asked for, made
    /// whole, and `valid` the nearest folder that can be shown for it, which
    /// is the folder of the panel where there is none; `must_resolve` says
    /// whether the path had to be resolved first, holding two full stops,
    /// and `resolved` whether it could be. Returns whether the panel has
    /// changed its folder and is to be filled again.
    pub fn execute_goto(&mut self, must_resolve: bool, resolved: bool, target: &str, valid: &str) -> (moved:
        bool)
        ensures
            final(self).same_but_panel_and_message(old(self)),
            match goto_outcome_of(
                must_resolve,
                resolved,
                target@,
                valid@,
                old(self).active().path@,
            ) {
                GotoOutcomeView::Stay { message } => !moved
                    && final(self).active() == old(self).active() && final(self).says(message),
                GotoOutcomeView::Move { path, message } => moved && moved_to(
                    old(self).active(),
                    final(self).active(),
                    path,
                ) && final(self).says(message),
            },
    {
        let outcome = crate::navigate::execute_goto(
            must_resolve,
            resolved,
            target,
            valid,
            self.active_panel().path.as_str(),
        );
        match outcome {
            GotoOutcome::Stay { message } => {
                self.show_message(message.as_str());
                false
            },
            GotoOutcome::Move { path, message } => {
                self.move_active_to(path);
                self.show_message(message.as_str());
                true
            },
        }
    }

    /// Does what Enter does on the entry under the cursor of the active
    /// panel, as far as the workspace goes: on the entry for the folder
    /// above, the panel goes to `parent`, where there is one, and remembers
    /// the name `folder_name` of the folder it leaves; on a directory, the
    /// panel goes into it. A file is left to the caller, which tries the
    /// handlers for it first. Returns what was decided.
    pub fn enter_selected(&mut self, folder_name: Option<&str>, parent: Option<String>) -> (step:
        EnterStep)
        ensures
            final(self).same_but_active_panel(old(self)),
            ({
                let p = old(self).active();
                let q = final(self).active();
                if !p.on_entry() {
                    step == EnterStep::Nothing && q == p
                } else if !p.directory_under_cursor() {
                    &&& step matches EnterStep::OpenFile { name }
                    &&& name@ == p.name_under_cursor()
                    &&& q == p
                } else if p.name_under_cursor() == ".."@ {
                    &&& step matches EnterStep::GoToParent { focus }
                    &&& opt_text(focus) == opt_str(folder_name)
                    &&& opt_text(q.pending_focus) == (match folder_name {
                        Some(n) => Some(n@),
                        None => opt_text(p.pending_focus),
                    })
                    &&& q.files == p.files
                    &&& match parent {
                        Some(dir) => q.path@ == dir@ && q.selected_index == 0 && q.selected_files@
                            == Set::<Seq<char>>::empty(),
                        None => q.path == p.path && q.selected_index == p.selected_index
                            && q.selected_files == p.selected_files,
                    }
                } else {
                    &&& step matches EnterStep::EnterDirectory { name }
                    &&& name@ == p.name_under_cursor()
                    &&& moved_to(p, q, joined_path(p.path@, p.name_under_cursor()))
                }
            }),
    {
        let step = crate::navigate::enter_selected(self.active_panel().current_file(), folder_name);
        match &step {
            EnterStep::Nothing => {},
            EnterStep::OpenFile { .. } => {},
            EnterStep::GoToParent { focus } => {
                let name = match focus {
                    Some(n) => Some(n.clone()),
                    None => None,
                };
                self.go_to_parent(name, parent);
            },
            EnterStep::EnterDirectory { name } => {
                let dir = join_path(self.active_panel().path.as_str(), name.as_str());
                self.move_active_to(dir);
            },
        }
        step
    }

    /// Decides what is done with the file `name` of the active panel after
    /// no handler took it, and notes it. An archive is unpacked. Before a
    /// file of more than 50 MB is opened the user is asked, and before a
    /// picture is shown on a terminal that cannot show all colours; the path
    /// is kept for the answer. Any other picture is shown, any other file is
    /// read for the editor.
    pub fn open_file(&mut self, name: &str, size: u64, is_image: bool, true_color: bool) -> (step:
        OpenStep)
        ensures
            final(self).left_panel == old(self).left_panel,
            final(self).right_panel == old(self).right_panel,
            final(self).active_panel == old(self).active_panel,
            final(self).clipboard == old(self).clipboard,
            final(self).same_message(old(self)),
            final(self).same_settings(old(self)),
            final(self).same_jobs(old(self)),
            ({
                let path = joined_path(old(self).active().path@, name@);
                if has_archive_suffix(lowercase_of(name@)) {
                    step@ == OpenStepView::Extract(path) && *final(self) == *old(self)
                } else if size > LARGE_FILE_THRESHOLD {
                    &&& step@ == OpenStepView::Asked
                    &&& final(self).current_screen == old(self).current_screen
                    &&& final(self).dialog matches Some(d) && is_question(
                        d,
                        large_file_dialog_type(is_image),
                        large_file_question(size, is_image),
                    )
                    &&& if is_image {
                        opt_text(final(self).pending_large_image) == Some(path)
                            && final(self).pending_large_file == old(self).pending_large_file
                    } else {
                        opt_text(final(self).pending_large_file) == Some(path)
                            && final(self).pending_large_image == old(self).pending_large_image
                    }
                } else if is_image && !true_color {
                    &&& step@ == OpenStepView::Asked
                    &&& final(self).current_screen == old(self).current_screen
                    &&& final(self).dialog matches Some(d) && is_question(
                        d,
                        DialogType::TrueColorWarning,
                        true_color_question(),
                    )
                    &&& opt_text(final(self).pending_large_image) == Some(path)
                    &&& final(self).pending_large_file == old(self).pending_large_file
                } else if is_image {
                    &&& step@ == OpenStepView::ShowImage(path)
                    &&& final(self).current_screen == Screen::ImageViewer
                    &&& final(self).dialog == old(self).dialog
                    &&& final(self).pending_large_image == old(self).pending_large_image
                    &&& final(self).pending_large_file == old(self).pending_large_file
                } else {
                    step@ == OpenStepView::Edit(path) && *final(self) == *old(self)
                }
            }),
    {
        let path = join_path(self.active_panel().path.as_str(), name);
        if is_archive_file(name) {
            return OpenStep::Extract(path);
        }
        if size > LARGE_FILE_THRESHOLD {
            self.dialog = Some(large_file_dialog(size, is_image));
            if is_image {
                self.pending_large_image = Some(path);
            } else {
                self.pending_large_file = Some(path);
            }
            return OpenStep::Asked;
        }
        if is_image {
            if !true_color {
                self.dialog = Some(true_color_dialog());
                self.pending_large_image = Some(path);
                return OpenStep::Asked;
            }
            self.current_screen = Screen::ImageViewer;
            return OpenStep::ShowImage(path);
        }
        OpenStep::Edit(path)
    }

    /// Checks the request to make the directory `name` in the folder of
    /// the active panel. `parent` is the full path of the folder and `entry`
    /// the full path that the new directory would have, each where it could
    /// be found out. Returns the path of the directory to make; where the
    /// request is refused, the status line says why.
    pub fn execute_mkdir(&mut self, name: &str, parent: Option<&str>, entry: Option<&str>) -> (path:
        Option<String>)
        ensures
            final(self).same_panels(old(self)),
            final(self).dialog == old(self).dialog,
            match new_entry_refusal(name@, opt_str(parent), opt_str(entry)) {
                Some(reason) => path is None && final(self).says(reason),
                None => opt_text(path) == Some(joined_path(old(self).active().path@, name@))
                    && final(self).same_message(old(self)),
            },
    {
        match crate::local::execute_mkdir(name, parent, entry) {
            Err(reason) => {
                self.show_message(reason.as_str());
                None
            },
            Ok(()) => Some(join_path(self.active_panel().path.as_str(), name)),
        }
    }

    /// Says on the status line whether the directory `name` was made;
    /// `failure` says why it was not, where it was not. The marks of both
    /// panels are taken away, and the caller fills the panels again.
    pub fn mkdir_done(&mut self, name: &str, failure: Option<&str>)
        ensures
            final(self).same_frame(old(self)),
            final(self).clipboard == old(self).clipboard,
            final(self).marks_cleared(old(self)),
            match failure {
                None => final(self).says("Created directory: "@ + name@),
                Some(reason) => final(self).says("Error: "@ + reason@),
            },
    {
        let text = match failure {
            None => concat2("Created directory: ", name),
            Some(reason) => concat2("Error: ", reason),
        };
        self.show_message(text.as_str());
        self.refresh_panels();
    }

    /// Checks the request to give the entry under the cursor of the active
    /// panel the name `new_name`. `parent` is the full path of the folder
    /// and `new_parent` the full path of the folder that the new name would
    /// put the entry in, each where it could be found out. Returns the path
    /// of the entry and the path that it is to have; nothing where the
    /// cursor is on no entry, or the request is refused, which the status
    /// line then says.
    pub fn execute_rename(&mut self, new_name: &str, parent: Option<&str>, new_parent: Option<
        &str,
    >) -> (paths: Option<(String, String)>)
        ensures
            final(self).same_panels(old(self)),
            final(self).dialog == old(self).dialog,
            match rename_refusal(new_name@, opt_str(parent), opt_str(new_parent)) {
                Some(reason) => paths is None && final(self).says(reason),
                None => ({
                    let p = old(self).active();
                    &&& final(self).same_message(old(self))
                    &&& !p.on_entry() ==> paths is None
                    &&& p.on_entry() ==> (paths matches Some(pair) && pair.0@
                        == p.path_under_cursor() && pair.1@ == joined_path(p.path@, new_name@))
                }),
            },
    {
        match crate::local::execute_rename(new_name, parent, new_parent) {
            Err(reason) => {
                self.show_message(reason.as_str());
                None
            },
            Ok(()) => match self.active_panel().current_file() {
                Some(file) => {
                    let dir = self.active_panel().path.as_str();
                    Some((join_path(dir, file.name.as_str()), join_path(dir, new_name)))
                },
                None => None,
            },
        }
    }

    /// Says on the status line whether the entry was given the name
    /// `new_name`; `failure` says why it was not, where it was not. The
    /// marks of both panels are taken away, and the caller fills the panels
    /// again.
    pub fn rename_done(&mut self, new_name: &str, failure: Option<&str>)
        ensures
            final(self).same_frame(old(self)),
            final(self).clipboard == old(self).clipboard,
            final(self).marks_cleared(old(self)),
            match failure {
                None => final(self).says("Renamed to: "@ + new_name@),
                Some(reason) => final(self).says("Error: "@ + reason@),
            },
    {
        let text = match failure {
            None => concat2("Renamed to: ", new_name),
            Some(reason) => concat2("Error: ", reason),
        };
        self.show_message(text.as_str());
        self.refresh_panels();
    }
}

} // verus!
