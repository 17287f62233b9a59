//! How the jobs of the engine are started from the workspace: a request is
//! checked against what the caller has found on the disk, the user is asked
//! where something is in the way, and the job is handed out to be run while
//! the workspace shows its progress.

use vstd::prelude::*;
use crate::actions::operation_names;
use crate::archive::{resolve_tar_tool, tool_found, tool_missing_text, ToolProbe};
use crate::archive_job::{opt_text, ArchiveJob, ArchiveState};
use crate::batch::{BatchJob, BatchState};
use crate::paste::{
    is_copy_decision, is_duplicate_plan, is_paste_decision, is_paste_plan, paste_message,
    paste_message_of, Clipboard, CopyDecision, DuplicatePlan, PasteDecision, PastePlan,
    PasteProbe,
};
use crate::progress::{
    after_poll, completion_message, events, summary, FileOperationProgress, FileOperationType,
    ProgressMessage, ProgressState,
};
use crate::state::{is_plain_dialog, Dialog, DialogType, PanelSide};
use crate::text::texts;
use crate::validate::{is_tar_decision, is_untar_decision, TarDecision, UntarDecision};
use crate::workspace::App;

verus! {

/// What the workspace knows of a job of the kind `operation` that has just
/// been started; `preparing` says whether the job prepares first.
pub open spec fn fresh_progress(operation: FileOperationType, preparing: bool) -> ProgressState {
    ProgressState {
        operation_type: operation,
        is_active: true,
        cancel_requested: false,
        is_preparing: preparing,
        preparing_message: if preparing {
            "Preparing..."@
        } else {
            Seq::empty()
        },
        current_file: Seq::empty(),
        current_file_done: 0,
        current_file_total: 0,
        total_files: 0,
        completed_files: 0,
        total_bytes: 0,
        completed_bytes: 0,
        result: None,
        last_error: None,
    }
}

/// What is to be run after a paste.
pub enum PasteStart {
    /// Nothing.
    Nothing,
    /// The files of this clipboard are duplicated beside themselves.
    Duplicate(Clipboard),
    /// The files are pasted from `source_path` into `target_path`; the job
    /// keeps the books for them.
    Run { operation: FileOperationType, source_path: String, target_path: String, job: BatchJob },
}

impl App {
    /// The workspace shows the progress of a job of the kind `operation`
    /// that has just been started.
    pub open spec fn shows_job(&self, operation: FileOperationType, preparing: bool) -> bool {
        &&& self.file_operation_progress matches Some(p) && p@ == fresh_progress(
            operation,
            preparing,
        )
        &&& self.dialog matches Some(d) && is_plain_dialog(d, DialogType::Progress)
    }

    /// Nothing of the panels, the screen, the settings and what waits for an
    /// answer to open a file differs from `other`.
    pub open spec fn same_places(&self, other: &App) -> bool {
        &&& self.left_panel == other.left_panel
        &&& self.right_panel == other.right_panel
        &&& self.active_panel == other.active_panel
        &&& self.current_screen == other.current_screen
        &&& self.same_pending(other)
        &&& self.same_settings(other)
    }

    fn show_job(&mut self, operation: FileOperationType, preparing: bool)
        ensures
            final(self).shows_job(operation, preparing),
            final(self).same_places(old(self)),
            final(self).same_message(old(self)),
            final(self).clipboard == old(self).clipboard,
            final(self).conflict_state == old(self).conflict_state,
            final(self).copy_exclude_state == old(self).copy_exclude_state,
            final(self).tar_exclude_state == old(self).tar_exclude_state,
            final(self).pending_tar_archive == old(self).pending_tar_archive,
            final(self).pending_extract_dir == old(self).pending_extract_dir,
    {
        let mut progress = FileOperationProgress::new(operation);
        progress.is_active = true;
        if preparing {
            progress.is_preparing = true;
            progress.preparing_message = String::from_str("Preparing...");
        }
        self.file_operation_progress = Some(progress);
        self.dialog = Some(Dialog::plain(DialogType::Progress));
    }

    /// Whether the workspace `self` is `before` after the paste decision
    /// `d` was taken, with `start` handed out to be run: the user is told
    /// what the decision says; the clipboard is put back where nothing is
    /// pasted and the source is still there, and kept where a copy is
    /// pasted; the user is asked where files clash; and the progress of the
    /// job is shown where one is started.
    pub open spec fn pasted(&self, before: &App, start: PasteStart, d: PasteDecision) -> bool {
        &&& self.same_places(before)
        &&& self.copy_exclude_state == before.copy_exclude_state
        &&& self.tar_exclude_state == before.tar_exclude_state
        &&& self.pending_tar_archive == before.pending_tar_archive
        &&& self.pending_extract_dir == before.pending_extract_dir
        &&& match paste_message_of(d) {
            Some(m) => self.says(m),
            None => self.same_message(before),
        }
        &&& match d {
            PasteDecision::EmptyClipboard => start is Nothing && self.clipboard is None
                && self.dialog == before.dialog && self.conflict_state == before.conflict_state
                && self.file_operation_progress == before.file_operation_progress,
            PasteDecision::SameFolderMove { restore } => start is Nothing && self.clipboard == Some(
                restore,
            ) && self.dialog == before.dialog && self.conflict_state == before.conflict_state
                && self.file_operation_progress == before.file_operation_progress,
            PasteDecision::Duplicate { clipboard } => start == PasteStart::Duplicate(clipboard)
                && self.clipboard is None && self.dialog == before.dialog && self.conflict_state
                == before.conflict_state && self.file_operation_progress
                == before.file_operation_progress,
            PasteDecision::SourceGone => start is Nothing && self.clipboard is None && self.dialog
                == before.dialog && self.conflict_state == before.conflict_state
                && self.file_operation_progress == before.file_operation_progress,
            PasteDecision::InvalidTarget { restore } => start is Nothing && self.clipboard == Some(
                restore,
            ) && self.dialog == before.dialog && self.conflict_state == before.conflict_state
                && self.file_operation_progress == before.file_operation_progress,
            PasteDecision::NothingValid { restore, .. } => start is Nothing && self.clipboard
                == Some(restore) && self.dialog == before.dialog && self.conflict_state
                == before.conflict_state && self.file_operation_progress
                == before.file_operation_progress,
            PasteDecision::Conflicts { state, .. } => start is Nothing && self.clipboard is None
                && self.conflict_state == Some(state) && (self.dialog matches Some(dialog)
                && is_plain_dialog(dialog, DialogType::DuplicateConflict))
                && self.file_operation_progress == before.file_operation_progress,
            PasteDecision::Run { operation, source_path, job, keep, .. } => {
                &&& start matches PasteStart::Run {
                    operation: started,
                    source_path: from,
                    target_path: into,
                    job: handed,
                }
                &&& started == operation
                &&& from == source_path
                &&& into@ == before.active().path@
                &&& handed == job
                &&& self.clipboard == keep
                &&& self.conflict_state == before.conflict_state
                &&& self.shows_job(operation, false)
            },
        }
    }

    /// Pastes what was copied or cut into the folder of the active panel,
    /// as far as the workspace goes: `probe` holds what the caller has found
    /// out of the disk. Returns what is to be run.
    pub fn clipboard_paste(&mut self, probe: &PasteProbe) -> (start: PasteStart)
        ensures
            exists|d: PasteDecision|
                is_paste_decision(d, old(self).clipboard, old(self).active().path@, *probe)
                    && final(self).pasted(old(self), start, d),
    {
        let clipboard = self.clipboard.take();
        let target_path = self.active_panel().path.clone();
        let decision = crate::paste::clipboard_paste(clipboard, target_path.as_str(), probe);
        let ghost d = decision;
        match paste_message(&decision) {
            Some(m) => self.show_message(m.as_str()),
            None => {},
        }
        let start = match decision {
            PasteDecision::EmptyClipboard => PasteStart::Nothing,
            PasteDecision::SameFolderMove { restore } => {
                self.clipboard = Some(restore);
                PasteStart::Nothing
            },
            PasteDecision::Duplicate { clipboard } => PasteStart::Duplicate(clipboard),
            PasteDecision::SourceGone => PasteStart::Nothing,
            PasteDecision::InvalidTarget { restore } => {
                self.clipboard = Some(restore);
                PasteStart::Nothing
            },
            PasteDecision::NothingValid { restore, rejected } => {
                self.clipboard = Some(restore);
                PasteStart::Nothing
            },
            PasteDecision::Conflicts { state, rejected } => {
                self.conflict_state = Some(state);
                self.show_duplicate_conflict_dialog();
                PasteStart::Nothing
            },
            PasteDecision::Run { operation, source_path, job, keep, rejected } => {
                self.show_job(operation, false);
                self.clipboard = keep;
                PasteStart::Run { operation, source_path, target_path, job }
            },
        };
        assert(self.pasted(old(self), start, d));
        start
    }

    /// Whether the workspace `self` is `before` after the plan `plan` of a
    /// paste into the folder the files came from was taken, with `clipboard`
    /// the clipboard pasted from: the clipboard is kept; where nothing can
    /// be duplicated the user is told so, else the progress of the job is
    /// shown.
    pub open spec fn duplicated(&self, before: &App, clipboard: Clipboard, plan: DuplicatePlan) -> bool {
        &&& self.same_places(before)
        &&& self.clipboard == Some(clipboard)
        &&& self.conflict_state == before.conflict_state
        &&& self.copy_exclude_state == before.copy_exclude_state
        &&& self.tar_exclude_state == before.tar_exclude_state
        &&& self.pending_tar_archive == before.pending_tar_archive
        &&& self.pending_extract_dir == before.pending_extract_dir
        &&& match plan {
            DuplicatePlan::Nothing => self.says("No valid files to duplicate"@) && self.dialog
                == before.dialog && self.file_operation_progress
                == before.file_operation_progress,
            DuplicatePlan::Run { .. } => self.same_message(before) && self.shows_job(
                FileOperationType::Copy,
                false,
            ),
        }
    }

    /// Duplicates the files of `clipboard` beside themselves, as far as the
    /// workspace goes. `exists` says for each file whether it is there,
    /// `existing` holds the names in the folder, `stamp` is the time of day
    /// in the caller's count. Returns the plan, which holds what is to be run.
    pub fn execute_same_folder_paste(
        &mut self,
        clipboard: Clipboard,
        exists: &Vec<bool>,
        existing: &Vec<String>,
        stamp: u128,
    ) -> (plan: DuplicatePlan)
        ensures
            is_duplicate_plan(plan, clipboard, exists@, texts(existing@), stamp as nat),
            final(self).duplicated(old(self), clipboard, plan),
    {
        let plan = crate::paste::execute_same_folder_paste(&clipboard, exists, existing, stamp);
        match &plan {
            DuplicatePlan::Nothing => {
                self.show_message("No valid files to duplicate");
            },
            DuplicatePlan::Run { .. } => {
                self.show_job(FileOperationType::Copy, false);
            },
        }
        self.clipboard = Some(clipboard);
        plan
    }

    /// Whether the workspace `self` is `before` after the plan `plan` was
    /// taken that followed the answers of the user to the clashes of a
    /// paste, with `start` handed out to be run: the answers are gone; where
    /// every file is left out the user is told so, the clipboard is put back
    /// where it held a copy, and the marks of both panels are taken away;
    /// where files are pasted, the clipboard is kept where it held a copy
    /// and the progress of the job is shown.
    pub open spec fn conflicts_settled(&self, before: &App, start: PasteStart, plan: PastePlan) -> bool {
        &&& self.active_panel == before.active_panel
        &&& self.current_screen == before.current_screen
        &&& self.same_pending(before)
        &&& self.same_settings(before)
        &&& self.conflict_state is None
        &&& self.copy_exclude_state == before.copy_exclude_state
        &&& self.tar_exclude_state == before.tar_exclude_state
        &&& self.pending_tar_archive == before.pending_tar_archive
        &&& self.pending_extract_dir == before.pending_extract_dir
        &&& match plan {
            PastePlan::Nothing => {
                &&& start is Nothing
                &&& self.left_panel == before.left_panel
                &&& self.right_panel == before.right_panel
                &&& self.same_message(before)
                &&& self.clipboard == before.clipboard
                &&& self.dialog == before.dialog
                &&& self.file_operation_progress == before.file_operation_progress
            },
            PastePlan::AllSkipped { restore } => {
                &&& start is Nothing
                &&& self.marks_cleared(before)
                &&& self.says("All files skipped"@)
                &&& self.clipboard == (match restore {
                    Some(cb) => Some(cb),
                    None => before.clipboard,
                })
                &&& self.dialog == before.dialog
                &&& self.file_operation_progress == before.file_operation_progress
            },
            PastePlan::Run { operation, source_path, target_path, job, keep } => {
                &&& start == (PasteStart::Run { operation, source_path, target_path, job })
                &&& self.left_panel == before.left_panel
                &&& self.right_panel == before.right_panel
                &&& self.same_message(before)
                &&& self.clipboard == (match keep {
                    Some(cb) => Some(cb),
                    None => before.clipboard,
                })
                &&& self.shows_job(operation, false)
            },
        }
    }

    /// Goes on with a paste after the user has answered every clash.
    /// Returns what is to be run. Without answers nothing happens.
    pub fn execute_paste_with_conflicts(&mut self) -> (start: PasteStart)
        ensures
            match old(self).conflict_state {
                None => start is Nothing && *final(self) == *old(self),
                Some(state) => exists|plan: PastePlan|
                    is_paste_plan(plan, state) && final(self).conflicts_settled(
                        old(self),
                        start,
                        plan,
                    ),
            },
    {
        let state = match self.conflict_state.take() {
            Some(state) => state,
            None => {
                return PasteStart::Nothing;
            },
        };
        let plan = crate::paste::execute_paste_with_conflicts(state);
        let ghost taken = plan;
        let start = match plan {
            PastePlan::Nothing => PasteStart::Nothing,
            PastePlan::AllSkipped { restore } => {
                match restore {
                    Some(cb) => {
                        self.clipboard = Some(cb);
                    },
                    None => {},
                }
                self.show_message("All files skipped");
                self.refresh_panels();
                PasteStart::Nothing
            },
            PastePlan::Run { operation, source_path, target_path, job, keep } => {
                self.show_job(operation, false);
                match keep {
                    Some(cb) => {
                        self.clipboard = Some(cb);
                    },
                    None => {},
                }
                PasteStart::Run { operation, source_path, target_path, job }
            },
        };
        assert(self.conflicts_settled(old(self), start, taken));
        start
    }

    /// Whether the workspace `self` is `before` after the decision `d` on a
    /// copy or move asked for in a dialog was taken: where no file is
    /// chosen the user is told so; where links to sensitive places were
    /// found, or files clash, the user is asked; else the progress of the
    /// job is shown.
    pub open spec fn copy_decided(&self, before: &App, d: CopyDecision) -> bool {
        &&& self.same_places(before)
        &&& self.clipboard == before.clipboard
        &&& self.tar_exclude_state == before.tar_exclude_state
        &&& self.pending_tar_archive == before.pending_tar_archive
        &&& self.pending_extract_dir == before.pending_extract_dir
        &&& match d {
            CopyDecision::NoFiles => {
                &&& self.says("No files selected"@)
                &&& self.dialog == before.dialog
                &&& self.conflict_state == before.conflict_state
                &&& self.copy_exclude_state == before.copy_exclude_state
                &&& self.file_operation_progress == before.file_operation_progress
            },
            CopyDecision::ConfirmExclusions { state } => {
                &&& self.same_message(before)
                &&& self.copy_exclude_state == Some(state)
                &&& self.dialog matches Some(dialog) && is_plain_dialog(
                    dialog,
                    DialogType::CopyExcludeConfirm,
                )
                &&& self.conflict_state == before.conflict_state
                &&& self.file_operation_progress == before.file_operation_progress
            },
            CopyDecision::Conflicts { state } => {
                &&& self.same_message(before)
                &&& self.conflict_state == Some(state)
                &&& self.dialog matches Some(dialog) && is_plain_dialog(
                    dialog,
                    DialogType::DuplicateConflict,
                )
                &&& self.copy_exclude_state == before.copy_exclude_state
                &&& self.file_operation_progress == before.file_operation_progress
            },
            CopyDecision::Run { operation, .. } => {
                &&& self.same_message(before)
                &&& self.shows_job(operation, false)
                &&& self.conflict_state == before.conflict_state
                &&& self.copy_exclude_state == before.copy_exclude_state
            },
        }
    }

    fn decide_copy(
        &mut self,
        target_path: String,
        sensitive: Vec<String>,
        dest_exists: &Vec<bool>,
        is_move: bool,
    ) -> (job: Option<BatchJob>)
        ensures
            exists|d: CopyDecision, files: Vec<String>, source_path: String|
                texts(files@) == operation_names(old(self).active())
                    && source_path@ == old(self).active().path@ && is_copy_decision(
                    d,
                    files,
                    source_path,
                    target_path,
                    sensitive,
                    dest_exists@,
                    is_move,
                ) && final(self).copy_decided(old(self), d) && (match d {
                    CopyDecision::Run { job: made, .. } => job == Some(made),
                    _ => job is None,
                }),
    {
        let files = self.get_operation_files();
        let source_path = self.active_panel().path.clone();
        let ghost f = files;
        let ghost sp = source_path;
        let decision = crate::paste::execute_copy_to_with_progress(
            files,
            source_path,
            target_path,
            sensitive,
            dest_exists,
            is_move,
        );
        let ghost d = decision;
        let job = match decision {
            CopyDecision::NoFiles => {
                self.show_message("No files selected");
                None
            },
            CopyDecision::ConfirmExclusions { state } => {
                self.copy_exclude_state = Some(state);
                self.dialog = Some(Dialog::plain(DialogType::CopyExcludeConfirm));
                None
            },
            CopyDecision::Conflicts { state } => {
                self.conflict_state = Some(state);
                self.show_duplicate_conflict_dialog();
                None
            },
            CopyDecision::Run { operation, job } => {
                self.show_job(operation, false);
                Some(job)
            },
        };
        assert(texts(f@) == operation_names(old(self).active()) && sp@ == old(self).active().path@
            && is_copy_decision(d, f, sp, target_path, sensitive, dest_exists@, is_move)
            && self.copy_decided(old(self), d) && (match d {
            CopyDecision::Run { job: made, .. } => job == Some(made),
            _ => job is None,
        }));
        job
    }

    /// Copies the chosen files of the active panel to `target_path`, as far
    /// as the workspace goes. `sensitive` are the links to sensitive places
    /// found under the files; `dest_exists` says for each file whether
    /// something of its name is at the destination. Returns the job to run,
    /// where the copy can start at once.
    pub fn execute_copy_to_with_progress(
        &mut self,
        target_path: String,
        sensitive: Vec<String>,
        dest_exists: &Vec<bool>,
    ) -> (job: Option<BatchJob>)
        ensures
            exists|d: CopyDecision, files: Vec<String>, source_path: String|
                texts(files@) == operation_names(old(self).active())
                    && source_path@ == old(self).active().path@ && is_copy_decision(
                    d,
                    files,
                    source_path,
                    target_path,
                    sensitive,
                    dest_exists@,
                    false,
                ) && final(self).copy_decided(old(self), d) && (match d {
                    CopyDecision::Run { job: made, .. } => job == Some(made),
                    _ => job is None,
                }),
    {
        self.decide_copy(target_path, sensitive, dest_exists, false)
    }

    /// Moves the chosen files of the active panel to `target_path`, as far
    /// as the workspace goes. `sensitive` are the links to sensitive places
    /// found under the files; `dest_exists` says for each file whether
    /// something of its name is at the destination. Returns the job to run,
    /// where the move can start at once.
    pub fn execute_move_to_with_progress(
        &mut self,
        target_path: String,
        sensitive: Vec<String>,
        dest_exists: &Vec<bool>,
    ) -> (job: Option<BatchJob>)
        ensures
            exists|d: CopyDecision, files: Vec<String>, source_path: String|
                texts(files@) == operation_names(old(self).active())
                    && source_path@ == old(self).active().path@ && is_copy_decision(
                    d,
                    files,
                    source_path,
                    target_path,
                    sensitive,
                    dest_exists@,
                    true,
                ) && final(self).copy_decided(old(self), d) && (match d {
                    CopyDecision::Run { job: made, .. } => job == Some(made),
                    _ => job is None,
                }),
    {
        self.decide_copy(target_path, sensitive, dest_exists, true)
    }

    fn start_unchecked(&mut self, operation: FileOperationType) -> (job: Option<BatchJob>)
        ensures
            final(self).same_places(old(self)),
            final(self).clipboard == old(self).clipboard,
            final(self).conflict_state == old(self).conflict_state,
            final(self).copy_exclude_state == old(self).copy_exclude_state,
            final(self).tar_exclude_state == old(self).tar_exclude_state,
            final(self).pending_tar_archive == old(self).pending_tar_archive,
            final(self).pending_extract_dir == old(self).pending_extract_dir,
            ({
                let names = operation_names(old(self).active());
                if names.len() == 0 {
                    &&& job is None
                    &&& final(self).says("No files selected"@)
                    &&& final(self).dialog == old(self).dialog
                    &&& final(self).file_operation_progress == old(self).file_operation_progress
                } else {
                    &&& job matches Some(j)
                    &&& j@ == BatchState::initial(names, Seq::new(names.len(), |i: int| false))
                    &&& j@.wf()
                    &&& final(self).same_message(old(self))
                    &&& final(self).shows_job(operation, false)
                }
            }),
    {
        let files = self.get_operation_files();
        assert(texts(files@).len() == files@.len());
        if files.len() == 0 {
            self.show_message("No files selected");
            return None;
        }
        self.show_job(operation, false);
        Some(BatchJob::all_of(files))
    }

    /// Copies the chosen files of the active panel without looking for
    /// links or clashes, the user having agreed. Returns the job to run;
    /// where no file is chosen, the status line says so.
    pub fn execute_copy_to_with_progress_internal(&mut self) -> (job: Option<BatchJob>)
        ensures
            final(self).same_places(old(self)),
            final(self).clipboard == old(self).clipboard,
            final(self).conflict_state == old(self).conflict_state,
            final(self).copy_exclude_state == old(self).copy_exclude_state,
            final(self).tar_exclude_state == old(self).tar_exclude_state,
            final(self).pending_tar_archive == old(self).pending_tar_archive,
            final(self).pending_extract_dir == old(self).pending_extract_dir,
            ({
                let names = operation_names(old(self).active());
                if names.len() == 0 {
                    &&& job is None
                    &&& final(self).says("No files selected"@)
                    &&& final(self).dialog == old(self).dialog
                    &&& final(self).file_operation_progress == old(self).file_operation_progress
                } else {
                    &&& job matches Some(j)
                    &&& j@ == BatchState::initial(names, Seq::new(names.len(), |i: int| false))
                    &&& j@.wf()
                    &&& final(self).same_message(old(self))
                    &&& final(self).shows_job(FileOperationType::Copy, false)
                }
            }),
    {
        self.start_unchecked(FileOperationType::Copy)
    }

    /// Moves the chosen files of the active panel without looking for
    /// links or clashes, the user having agreed. Returns the job to run;
    /// where no file is chosen, the status line says so.
    pub fn execute_move_to_with_progress_internal(&mut self) -> (job: Option<BatchJob>)
        ensures
            final(self).same_places(old(self)),
            final(self).clipboard == old(self).clipboard,
            final(self).conflict_state == old(self).conflict_state,
            final(self).copy_exclude_state == old(self).copy_exclude_state,
            final(self).tar_exclude_state == old(self).tar_exclude_state,
            final(self).pending_tar_archive == old(self).pending_tar_archive,
            final(self).pending_extract_dir == old(self).pending_extract_dir,
            ({
                let names = operation_names(old(self).active());
                if names.len() == 0 {
                    &&& job is None
                    &&& final(self).says("No files selected"@)
                    &&& final(self).dialog == old(self).dialog
                    &&& final(self).file_operation_progress == old(self).file_operation_progress
                } else {
                    &&& job matches Some(j)
                    &&& j@ == BatchState::initial(names, Seq::new(names.len(), |i: int| false))
                    &&& j@.wf()
                    &&& final(self).same_message(old(self))
                    &&& final(self).shows_job(FileOperationType::Move, false)
                }
            }),
    {
        self.start_unchecked(FileOperationType::Move)
    }
}

impl App {
    /// Whether the workspace `self` is `before` after a job of the kind
    /// `operation` on an archive was started: the progress of the job is
    /// shown, which prepares first. Where an archive is made, the marks of
    /// the active panel are taken away.
    pub open spec fn archive_started(&self, before: &App, operation: FileOperationType) -> bool {
        &&& self.shows_job(operation, true)
        &&& self.active_panel == before.active_panel
        &&& self.current_screen == before.current_screen
        &&& self.same_pending(before)
        &&& self.same_settings(before)
        &&& self.same_message(before)
        &&& self.clipboard == before.clipboard
        &&& self.conflict_state == before.conflict_state
        &&& self.copy_exclude_state == before.copy_exclude_state
        &&& self.tar_exclude_state == before.tar_exclude_state
        &&& self.target() == before.target()
        &&& self.active().files == before.active().files
        &&& self.active().path == before.active().path
        &&& self.active().selected_index == before.active().selected_index
        &&& self.active().sort_by == before.active().sort_by
        &&& self.active().sort_order == before.active().sort_order
        &&& self.active().scroll_offset == before.active().scroll_offset
        &&& self.active().pending_focus == before.active().pending_focus
        &&& if operation == FileOperationType::Tar {
            self.active().selected_files@ == Set::<Seq<char>>::empty()
        } else {
            self.active().selected_files == before.active().selected_files
        }
    }

    /// Nothing but the status line, the dialog and the links left out of an
    /// archive differs from `other`.
    pub open spec fn same_but_tar_question(&self, other: &App) -> bool {
        &&& self.same_places(other)
        &&& self.clipboard == other.clipboard
        &&& self.conflict_state == other.conflict_state
        &&& self.copy_exclude_state == other.copy_exclude_state
        &&& self.file_operation_progress == other.file_operation_progress
        &&& self.pending_tar_archive == other.pending_tar_archive
        &&& self.pending_extract_dir == other.pending_extract_dir
    }

    /// Whether the workspace `self` is `before` after the decision `d` on
    /// the making of the archive `archive_name` was taken: a refusal is told
    /// on the status line; where links would be left out the user is asked;
    /// else the job is started.
    pub open spec fn tar_decided(&self, before: &App, d: TarDecision, archive_name: Seq<char>) -> bool {
        match d {
            TarDecision::Rejected { message } => {
                &&& self.same_but_tar_question(before)
                &&& self.says(message@)
                &&& self.dialog == before.dialog
                &&& self.tar_exclude_state == before.tar_exclude_state
            },
            TarDecision::ConfirmExclusions { state } => {
                &&& self.same_but_tar_question(before)
                &&& self.same_message(before)
                &&& self.tar_exclude_state == Some(state)
                &&& self.dialog matches Some(dialog) && is_plain_dialog(
                    dialog,
                    DialogType::TarExcludeConfirm,
                )
            },
            TarDecision::Run { .. } => {
                &&& self.archive_started(before, FileOperationType::Tar)
                &&& opt_text(self.pending_tar_archive) == Some(archive_name)
                &&& self.pending_extract_dir == before.pending_extract_dir
            },
        }
    }

    fn start_archive(&mut self, archive_name: &str)
        ensures
            final(self).archive_started(old(self), FileOperationType::Tar),
            opt_text(final(self).pending_tar_archive) == Some(archive_name@),
            final(self).pending_extract_dir == old(self).pending_extract_dir,
    {
        match self.active_panel {
            PanelSide::Left => self.left_panel.selected_files.clear(),
            PanelSide::Right => self.right_panel.selected_files.clear(),
        }
        self.show_job(FileOperationType::Tar, true);
        self.pending_tar_archive = Some(String::from_str(archive_name));
    }

    /// Makes the archive `archive_name` of the chosen files of the active
    /// panel, as far as the workspace goes. `archive_exists` says whether
    /// something of that name is there already; `unsafe_links` are the links
    /// under the files that point out of the tree; `probe` holds what the
    /// archiving tools answered. Where links were found the user is asked
    /// about them, whatever the tools answered. Returns the job to run,
    /// where the archive can be made at once.
    pub fn execute_tar(
        &mut self,
        archive_name: &str,
        archive_exists: bool,
        unsafe_links: Vec<String>,
        probe: ToolProbe,
    ) -> (job: Option<ArchiveJob>)
        ensures
            exists|d: TarDecision, files: Vec<String>, tool: Option<String>|
                texts(files@) == operation_names(old(self).active()) && opt_text(tool)
                    == tool_found(opt_text(old(self).settings.tar_path), probe) && is_tar_decision(d, archive_name@, files, archive_exists, unsafe_links, tool)
                    && final(self).tar_decided(old(self), d, archive_name@) && (match d {
                    TarDecision::Run { job: made } => job == Some(made),
                    _ => job is None,
                }),
    {
        let files = self.get_operation_files();
        let tool = resolve_tar_tool(&self.settings.tar_path, probe);
        let ghost f = files;
        let ghost t = tool;
        let decision = crate::validate::execute_tar(
            archive_name,
            files,
            archive_exists,
            unsafe_links,
            tool,
        );
        let ghost d = decision;
        let job = match decision {
            TarDecision::Rejected { message } => {
                self.show_message(message.as_str());
                None
            },
            TarDecision::ConfirmExclusions { state } => {
                self.tar_exclude_state = Some(state);
                self.dialog = Some(Dialog::plain(DialogType::TarExcludeConfirm));
                None
            },
            TarDecision::Run { job } => {
                self.start_archive(archive_name);
                Some(job)
            },
        };
        assert(texts(f@) == operation_names(old(self).active()) && opt_text(t) == tool_found(
            opt_text(old(self).settings.tar_path),
            probe,
        ) && is_tar_decision(d, archive_name@, f, archive_exists, unsafe_links, t)
            && self.tar_decided(old(self), d, archive_name@) && (match d {
            TarDecision::Run { job: made } => job == Some(made),
            _ => job is None,
        }));
        job
    }

    /// Whether the workspace `self` is `before` after a request on an
    /// archive was refused for want of a tool: the user is told so on the
    /// status line, and no job is shown.
    pub open spec fn tool_missed(&self, before: &App) -> bool {
        &&& self.same_but_tar_question(before)
        &&& self.says(tool_missing_text())
        &&& self.dialog == before.dialog
        &&& self.tar_exclude_state == before.tar_exclude_state
    }

    /// Starts the making of the archive `archive_name` of `files` without
    /// the paths in `excluded_paths`, after the user has agreed to leave
    /// them out, or where nothing is left out. `probe` holds what the
    /// archiving tools answered. Returns the job to run; where no tool
    /// answered, the user is told so and there is no job.
    pub fn execute_tar_with_excludes(
        &mut self,
        archive_name: &str,
        files: &Vec<String>,
        excluded_paths: &Vec<String>,
        probe: ToolProbe,
    ) -> (job: Option<ArchiveJob>)
        ensures
            match tool_found(opt_text(old(self).settings.tar_path), probe) {
                Some(tool) => {
                    &&& job matches Some(made)
                    &&& made@ == ArchiveState::creating(
                        archive_name@,
                        texts(files@),
                        texts(excluded_paths@),
                        tool,
                    )
                    &&& made@.wf()
                    &&& final(self).archive_started(old(self), FileOperationType::Tar)
                    &&& opt_text(final(self).pending_tar_archive) == Some(archive_name@)
                    &&& final(self).pending_extract_dir == old(self).pending_extract_dir
                },
                None => job is None && final(self).tool_missed(old(self)),
            },
    {
        let tool = resolve_tar_tool(&self.settings.tar_path, probe);
        match crate::validate::execute_tar_with_excludes(
            archive_name,
            files,
            excluded_paths,
            tool,
        ) {
            Ok(job) => {
                self.start_archive(archive_name);
                Some(job)
            },
            Err(message) => {
                self.show_message(message.as_str());
                None
            },
        }
    }

    /// Whether the workspace `self` is `before` after the decision `d` on
    /// the unpacking of an archive was taken: a refusal is told on the
    /// status line; else the job is started and the directory that is
    /// unpacked into is noted.
    pub open spec fn untar_decided(&self, before: &App, d: UntarDecision) -> bool {
        match d {
            UntarDecision::Rejected { message } => {
                &&& self.same_but_tar_question(before)
                &&& self.says(message@)
                &&& self.dialog == before.dialog
                &&& self.tar_exclude_state == before.tar_exclude_state
            },
            UntarDecision::Run { extract_dir, .. } => {
                &&& self.archive_started(before, FileOperationType::Untar)
                &&& opt_text(self.pending_extract_dir) == Some(extract_dir@)
                &&& self.pending_tar_archive == before.pending_tar_archive
            },
        }
    }

    /// Unpacks the archive at `archive_path`, as far as the workspace
    /// goes. `archive_name` is the last part of that path, where it has one;
    /// `has_parent` says whether the path has a folder above it;
    /// `archive_exists` whether the archive is there; `extract_dir_exists`
    /// whether something has the name of the directory to unpack into;
    /// `probe` holds what the archiving tools answered. Returns the job to
    /// run, where the archive can be unpacked.
    pub fn execute_untar(
        &mut self,
        archive_path: &str,
        archive_name: Option<&str>,
        has_parent: bool,
        archive_exists: bool,
        extract_dir_exists: bool,
        probe: ToolProbe,
    ) -> (job: Option<ArchiveJob>)
        ensures
            exists|d: UntarDecision, tool: Option<String>|
                opt_text(tool) == tool_found(opt_text(old(self).settings.tar_path), probe)
                    && is_untar_decision(
                    d,
                    archive_path@,
                    crate::transfer::opt_str(archive_name),
                    has_parent,
                    archive_exists,
                    extract_dir_exists,
                    tool,
                ) && final(self).untar_decided(old(self), d) && (match d {
                    UntarDecision::Run { job: made, .. } => job == Some(made),
                    _ => job is None,
                }),
    {
        let tool = resolve_tar_tool(&self.settings.tar_path, probe);
        let ghost t = tool;
        let decision = crate::validate::execute_untar(
            archive_path,
            archive_name,
            has_parent,
            archive_exists,
            extract_dir_exists,
            tool,
        );
        let ghost d = decision;
        let job = match decision {
            UntarDecision::Rejected { message } => {
                self.show_message(message.as_str());
                None
            },
            UntarDecision::Run { job, extract_dir } => {
                self.show_job(FileOperationType::Untar, true);
                self.pending_extract_dir = Some(extract_dir);
                Some(job)
            },
        };
        assert(opt_text(t) == tool_found(opt_text(old(self).settings.tar_path), probe)
            && is_untar_decision(
            d,
            archive_path@,
            crate::transfer::opt_str(archive_name),
            has_parent,
            archive_exists,
            extract_dir_exists,
            t,
        ) && self.untar_decided(old(self), d) && (match d {
            UntarDecision::Run { job: made, .. } => job == Some(made),
            _ => job is None,
        }));
        job
    }
}

/// What the job that runs is about, as the user is told when it has ended:
/// the archive that is made, or the directory that is unpacked into.
pub open spec fn subject_of(app: App, operation: FileOperationType) -> Option<Seq<char>> {
    match operation {
        FileOperationType::Tar => opt_text(app.pending_tar_archive),
        FileOperationType::Untar => opt_text(app.pending_extract_dir),
        _ => None,
    }
}

/// The name of the entry that the cursor is put on after the job: the
/// archive that was made, or else the directory that was unpacked into.
pub open spec fn focus_after(app: App) -> Option<Seq<char>> {
    match app.pending_tar_archive {
        Some(name) => Some(name@),
        None => opt_text(app.pending_extract_dir),
    }
}

impl App {
    /// Whether the workspace `self` is `before` after the job that ran has
    /// ended with the state `ended` of its progress: the user is told how
    /// it went, the dialog and the progress are gone, the marks of both
    /// panels are taken away, and the active panel remembers the entry made
    /// by the job, to put the cursor on it when the panel is filled again.
    pub open spec fn job_ended(&self, before: &App, ended: ProgressState) -> bool {
        &&& self.active_panel == before.active_panel
        &&& self.current_screen == before.current_screen
        &&& self.same_pending(before)
        &&& self.same_settings(before)
        &&& self.clipboard == before.clipboard
        &&& self.conflict_state == before.conflict_state
        &&& self.copy_exclude_state == before.copy_exclude_state
        &&& self.tar_exclude_state == before.tar_exclude_state
        &&& self.left_panel.selected_files@ == Set::<Seq<char>>::empty()
        &&& self.right_panel.selected_files@ == Set::<Seq<char>>::empty()
        &&& self.left_panel.files == before.left_panel.files
        &&& self.right_panel.files == before.right_panel.files
        &&& self.left_panel.path == before.left_panel.path
        &&& self.right_panel.path == before.right_panel.path
        &&& self.left_panel.selected_index == before.left_panel.selected_index
        &&& self.right_panel.selected_index == before.right_panel.selected_index
        &&& self.target().pending_focus == before.target().pending_focus
        &&& self.file_operation_progress is None
        &&& self.dialog is None
        &&& self.pending_tar_archive is None
        &&& self.pending_extract_dir == (if before.pending_tar_archive is Some {
            before.pending_extract_dir
        } else {
            None
        })
        &&& ended.result matches Some(result) && self.says(
            summary(ended.operation_type, result, subject_of(*before, ended.operation_type)),
        )
        &&& opt_text(self.active().pending_focus) == (match focus_after(*before) {
            Some(name) => Some(name),
            None => opt_text(before.active().pending_focus),
        })
    }

    /// Reads the events of the job that runs which were waiting, oldest
    /// first; `disconnected` says whether the worker's end of the channel is
    /// gone. Where the job has ended with a result, the user is told how it
    /// went and the workspace is cleared for the next job; the caller then
    /// fills the panels again. Returns whether the job still runs.
    pub fn poll_progress(&mut self, pending: Vec<ProgressMessage>, disconnected: bool) -> (active:
        bool)
        ensures
            match old(self).file_operation_progress {
                None => !active && *final(self) == *old(self),
                Some(p) => ({
                    let q = if p.is_active {
                        after_poll(p@, events(pending@), disconnected)
                    } else {
                        p@
                    };
                    &&& active == q.is_active
                    &&& if q.is_active || q.result is None {
                        &&& final(self).file_operation_progress matches Some(r) && r@ == q
                        &&& final(self).same_places(old(self))
                        &&& final(self).same_message(old(self))
                        &&& final(self).dialog == old(self).dialog
                        &&& final(self).clipboard == old(self).clipboard
                        &&& final(self).conflict_state == old(self).conflict_state
                        &&& final(self).copy_exclude_state == old(self).copy_exclude_state
                        &&& final(self).tar_exclude_state == old(self).tar_exclude_state
                        &&& final(self).pending_tar_archive == old(self).pending_tar_archive
                        &&& final(self).pending_extract_dir == old(self).pending_extract_dir
                    } else {
                        final(self).job_ended(old(self), q)
                    }
                }),
            },
    {
        let mut progress = match self.file_operation_progress.take() {
            Some(p) => p,
            None => {
                return false;
            },
        };
        let active = progress.poll(pending, disconnected);
        if active {
            self.file_operation_progress = Some(progress);
            return true;
        }
        let text = match &progress.result {
            Some(result) => {
                let subject: Option<&str> = match progress.operation_type {
                    FileOperationType::Tar => match &self.pending_tar_archive {
                        Some(name) => Some(name.as_str()),
                        None => None,
                    },
                    FileOperationType::Untar => match &self.pending_extract_dir {
                        Some(name) => Some(name.as_str()),
                        None => None,
                    },
                    _ => None,
                };
                completion_message(progress.operation_type, result, subject)
            },
            None => {
                self.file_operation_progress = Some(progress);
                return false;
            },
        };
        self.show_message(text.as_str());
        let focus = match self.pending_tar_archive.take() {
            Some(name) => Some(name),
            None => self.pending_extract_dir.take(),
        };
        match focus {
            Some(name) => match self.active_panel {
                PanelSide::Left => {
                    self.left_panel.pending_focus = Some(name);
                },
                PanelSide::Right => {
                    self.right_panel.pending_focus = Some(name);
                },
            },
            None => {},
        }
        self.refresh_panels();
        self.dialog = None;
        false
    }
}

} // verus!
