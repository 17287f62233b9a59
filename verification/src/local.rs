//! Decisions of the operations on single files: in which order a move
//! copies and deletes, when a new name is refused, and what the user is told
//! when a run of such operations is over.

use vstd::prelude::*;
use crate::archive_job::opt_text;
use crate::batch::{FileOutcome, OutcomeView};
use crate::paste::flag_at;
use crate::text::{append_decimal, append_str, concat2, decimal, string_of, texts};
use crate::transfer::opt_str;
use crate::validate::{
    fault_text, is_valid_filename, is_within, name_fault, path_is_within, validation_message,
};

verus! {

/// Where the move of one file stands. A move is a change of name where
/// source and destination are on one file system; across file systems it is
/// a copy followed by the removal of the source.
#[derive(Debug, Clone, Copy, PartialEq, Eq, Structural)]
pub enum MovePhase {
    /// Nothing has happened yet.
    Fresh,
    /// The change of name is being tried.
    Renaming,
    /// The file is being copied to its destination.
    Copying,
    /// The copy is there; the source is being removed.
    Removing,
    /// The move is over.
    Finished,
}

/// What the owner of a move has to do next.
#[derive(Debug, Clone, PartialEq, Eq)]
pub enum MoveAction {
    /// Give the source the name of the destination and report the outcome.
    Rename,
    /// Copy the source to the destination and report the outcome.
    CopyToDestination,
    /// Remove the source and report the outcome.
    RemoveSource,
    /// Nothing: the move is over, with this outcome for the file.
    Finish(FileOutcome),
}

/// A `MoveAction` with its text as a character sequence.
pub enum MoveActionView {
    Rename,
    CopyToDestination,
    RemoveSource,
    Finish(OutcomeView),
}

impl View for MoveAction {
    type V = MoveActionView;

    open spec fn view(&self) -> MoveActionView {
        match *self {
            MoveAction::Rename => MoveActionView::Rename,
            MoveAction::CopyToDestination => MoveActionView::CopyToDestination,
            MoveAction::RemoveSource => MoveActionView::RemoveSource,
            MoveAction::Finish(o) => MoveActionView::Finish(o@),
        }
    }
}

/// The move of one file.
#[derive(Debug, Clone, PartialEq, Eq)]
pub struct MoveFile {
    pub phase: MovePhase,
    /// The source was given the name of the destination.
    pub renamed: bool,
    /// The copy at the destination is complete.
    pub copied: bool,
    /// The removal of the source was asked for.
    pub removal_asked: bool,
    /// Why the move failed, once it has.
    pub failure: Option<String>,
}

/// A `MoveFile` with its text as a character sequence.
#[verifier::ext_equal]
pub struct MoveState {
    pub phase: MovePhase,
    pub renamed: bool,
    pub copied: bool,
    pub removal_asked: bool,
    pub failure: Option<Seq<char>>,
}

impl View for MoveFile {
    type V = MoveState;

    open spec fn view(&self) -> MoveState {
        MoveState {
            phase: self.phase,
            renamed: self.renamed,
            copied: self.copied,
            removal_asked: self.removal_asked,
            failure: opt_text(self.failure),
        }
    }
}

/// The words put before the reason where the source of a move could not be
/// removed.
pub open spec fn source_kept_prefix() -> Seq<char> {
    "Copied, but the source could not be removed: "@
}

impl MoveState {
    /// A move nothing has been done of.
    pub open spec fn fresh() -> MoveState {
        MoveState {
            phase: MovePhase::Fresh,
            renamed: false,
            copied: false,
            removal_asked: false,
            failure: None,
        }
    }

    /// What holds of every state a move can reach: the removal of the source
    /// is asked for only once the copy is complete, and a move that is over
    /// without a failure has changed the name, or has copied and removed.
    pub open spec fn wf(self) -> bool {
        &&& self.removal_asked ==> self.copied
        &&& self.phase == MovePhase::Removing ==> self.removal_asked
        &&& self.phase == MovePhase::Fresh || self.phase == MovePhase::Renaming || self.phase
            == MovePhase::Copying ==> !self.copied
        &&& self.phase != MovePhase::Finished ==> self.failure is None && !self.renamed
        &&& self.renamed ==> !self.copied && self.failure is None
        &&& self.phase == MovePhase::Finished && self.failure is None ==> self.renamed || (
        self.copied && self.removal_asked)
    }

    /// How the file went, once the move is over.
    pub open spec fn outcome(self) -> OutcomeView {
        match self.failure {
            None => OutcomeView::Done,
            Some(e) => OutcomeView::Failed(e),
        }
    }

    /// The move ends in failure for the reason `e`.
    pub open spec fn failed(self, e: Seq<char>) -> (MoveState, MoveActionView) {
        (
            MoveState { phase: MovePhase::Finished, failure: Some(e), ..self },
            MoveActionView::Finish(OutcomeView::Failed(e)),
        )
    }

    /// The state after the report `report` (`None` for success, else the
    /// reason of the failure), and the answer to it. The first report is
    /// the go-ahead and says nothing. A move that is over stays as it is and
    /// repeats its outcome.
    pub open spec fn step_of(self, report: Option<Seq<char>>) -> (MoveState, MoveActionView) {
        match self.phase {
            MovePhase::Fresh => (
                MoveState { phase: MovePhase::Renaming, ..self },
                MoveActionView::Rename,
            ),
            MovePhase::Renaming => match report {
                None => (
                    MoveState { phase: MovePhase::Finished, renamed: true, ..self },
                    MoveActionView::Finish(OutcomeView::Done),
                ),
                Some(_) => (
                    MoveState { phase: MovePhase::Copying, ..self },
                    MoveActionView::CopyToDestination,
                ),
            },
            MovePhase::Copying => match report {
                None => (
                    MoveState {
                        phase: MovePhase::Removing,
                        copied: true,
                        removal_asked: true,
                        ..self
                    },
                    MoveActionView::RemoveSource,
                ),
                Some(e) => self.failed(e),
            },
            MovePhase::Removing => match report {
                None => (
                    MoveState { phase: MovePhase::Finished, ..self },
                    MoveActionView::Finish(OutcomeView::Done),
                ),
                Some(e) => self.failed(source_kept_prefix() + e),
            },
            MovePhase::Finished => (self, MoveActionView::Finish(self.outcome())),
        }
    }
}

impl MoveFile {
    /// A move nothing has been done of.
    pub fn new() -> (m: MoveFile)
        ensures
            m@ == MoveState::fresh(),
            m@.wf(),
    {
        MoveFile {
            phase: MovePhase::Fresh,
            renamed: false,
            copied: false,
            removal_asked: false,
            failure: None,
        }
    }

    fn fail(&mut self, e: String) -> (action: MoveAction)
        ensures
            final(self)@ == old(self)@.failed(e@).0,
            action@ == old(self)@.failed(e@).1,
    {
        self.phase = MovePhase::Finished;
        self.failure = Some(e.clone());
        MoveAction::Finish(FileOutcome::Failed(e))
    }

    /// Takes the report of what was done last (`None` for success, else the
    /// reason of the failure) and answers with what to do next. The change
    /// of name is tried first; where it fails the file is copied, whatever
    /// the reason. The source is removed only after the copy succeeded, and
    /// nothing ever removes the destination: where the removal of the source
    /// fails both files are there, and the file counts as failed. A move
    /// that is over repeats its outcome, whatever it is told.
    pub fn step(&mut self, report: Option<String>) -> (action: MoveAction)
        requires
            old(self)@.wf(),
        ensures
            final(self)@.wf(),
            final(self)@ == old(self)@.step_of(opt_text(report)).0,
            action@ == old(self)@.step_of(opt_text(report)).1,
    {
        match self.phase {
            MovePhase::Fresh => {
                self.phase = MovePhase::Renaming;
                MoveAction::Rename
            },
            MovePhase::Renaming => match report {
                None => {
                    self.phase = MovePhase::Finished;
                    self.renamed = true;
                    MoveAction::Finish(FileOutcome::Done)
                },
                Some(_) => {
                    self.phase = MovePhase::Copying;
                    MoveAction::CopyToDestination
                },
            },
            MovePhase::Copying => match report {
                None => {
                    self.phase = MovePhase::Removing;
                    self.copied = true;
                    self.removal_asked = true;
                    MoveAction::RemoveSource
                },
                Some(e) => self.fail(e),
            },
            MovePhase::Removing => match report {
                None => {
                    self.phase = MovePhase::Finished;
                    MoveAction::Finish(FileOutcome::Done)
                },
                Some(e) => self.fail(
                    concat2("Copied, but the source could not be removed: ", e.as_str()),
                ),
            },
            MovePhase::Finished => match &self.failure {
                None => MoveAction::Finish(FileOutcome::Done),
                Some(e) => MoveAction::Finish(FileOutcome::Failed(e.clone())),
            },
        }
    }
}

/// A move reports its file as done only after the change of name
/// succeeded, or the copy and the removal of the source both did; and it
/// asks for the removal of the source only where the copy is complete, so
/// that the file is never without a complete copy of itself.
pub proof fn lemma_move_never_loses_the_file(m: MoveState, report: Option<Seq<char>>)
    requires
        m.wf(),
        m.phase != MovePhase::Finished,
    ensures
        m.step_of(report).0.wf(),
        m.step_of(report).1 == MoveActionView::RemoveSource ==> m.step_of(report).0.copied,
        m.step_of(report).1 == MoveActionView::Finish(OutcomeView::Done) ==> report is None && (
        m.phase == MovePhase::Renaming || (m.copied && m.removal_asked)),
        m.phase == MovePhase::Removing && report is Some ==> m.step_of(report).0.copied
            && m.step_of(report).1 is Finish && m.step_of(report).1->Finish_0 is Failed,
{
}

/// A move that is over keeps its outcome: asked again, whatever it is told,
/// it stays as it is and answers as it did when it ended. A move that has
/// failed never turns into one that is done.
pub proof fn lemma_move_keeps_its_outcome(m: MoveState, first: Option<Seq<char>>, later: Option<
    Seq<char>,
>)
    requires
        m.wf(),
        m.step_of(first).0.phase == MovePhase::Finished,
    ensures
        m.step_of(first).1 is Finish,
        m.step_of(first).0.step_of(later).0 == m.step_of(first).0,
        m.step_of(first).0.step_of(later).1 == m.step_of(first).1,
{
}

/// How a move went, as a run of moves is told of it: nothing where the file
/// was moved, else why it was not. A move that has not ended has not moved
/// its file.
pub open spec fn move_report(m: MoveState) -> Option<Seq<char>> {
    if m.phase == MovePhase::Finished {
        m.failure
    } else {
        Some("The move did not end"@)
    }
}

/// How each of the moves `moves` went.
pub open spec fn move_reports(moves: Seq<MoveFile>) -> Seq<Option<Seq<char>>> {
    Seq::new(moves.len(), |i: int| move_report(moves[i]@))
}

/// How each of the moves `moves` went: nothing where the file was moved,
/// else why it was not.
pub fn reports_of_moves(moves: &Vec<MoveFile>) -> (reports: Vec<Option<String>>)
    ensures
        report_views(reports@) == move_reports(moves@),
{
    let mut reports: Vec<Option<String>> = Vec::new();
    let mut i: usize = 0;
    while i < moves.len()
        invariant
            i <= moves@.len(),
            reports@.len() == i,
            forall|k: int| 0 <= k < i ==> opt_text(#[trigger] reports@[k]) == move_report(moves@[k]@),
        decreases moves@.len() - i,
    {
        let m = &moves[i];
        let report = if m.phase == MovePhase::Finished {
            match &m.failure {
                Some(e) => Some(e.clone()),
                None => None,
            }
        } else {
            Some(String::from_str("The move did not end"))
        };
        reports.push(report);
        i += 1;
    }
    assert(report_views(reports@) =~= move_reports(moves@));
    reports
}

/// A file counts as moved only where its move is whole: the move has ended,
/// and either the source was given the name of the destination, or the copy
/// at the destination is complete and the removal of the source was asked
/// for and went well. A move that failed after its copy was complete still
/// has that copy: the file is reported as not moved, and is at the
/// destination all the same.
pub proof fn lemma_moved_means_whole(moves: Seq<MoveFile>, i: int)
    requires
        0 <= i < moves.len(),
        moves[i]@.wf(),
    ensures
        move_reports(moves)[i] is None ==> moves[i]@.phase == MovePhase::Finished && (
        moves[i]@.renamed || (moves[i]@.copied && moves[i]@.removal_asked)),
        move_reports(moves)[i] is Some && moves[i]@.removal_asked ==> moves[i]@.copied,
{
}

/// Why an entry of the name `name` may not be made in a folder, as the user
/// is told; `None` where it may. `parent` is the full path of the folder and
/// `entry` the full path that the new entry would have, each where it could
/// be found out.
pub open spec fn new_entry_refusal(
    name: Seq<char>,
    parent: Option<Seq<char>>,
    entry: Option<Seq<char>>,
) -> Option<Seq<char>> {
    match name_fault(name) {
        Some(e) => Some("Error: "@ + fault_text(e)),
        None => match (parent, entry) {
            (Some(p), Some(n)) => if is_within(p, n) {
                None
            } else {
                Some("Error: Path traversal attempt detected"@)
            },
            _ => None,
        },
    }
}

/// Checks a request to make the directory `name` in a folder. `parent` is
/// the full path of the folder and `entry` the full path that the new
/// directory would have, each where it could be found out. Returns what the
/// user is told where the request is refused.
pub fn execute_mkdir(name: &str, parent: Option<&str>, entry: Option<&str>) -> (r: Result<
    (),
    String,
>)
    ensures
        r is Ok <==> new_entry_refusal(name@, opt_str(parent), opt_str(entry)) is None,
        r matches Err(m) ==> Some(m@) == new_entry_refusal(name@, opt_str(parent), opt_str(entry)),
{
    match is_valid_filename(name) {
        Err(e) => {
            return Err(concat2("Error: ", validation_message(e).as_str()));
        },
        Ok(_) => {},
    }
    match (parent, entry) {
        (Some(p), Some(n)) => {
            if !path_is_within(p, n) {
                return Err(String::from_str("Error: Path traversal attempt detected"));
            }
        },
        _ => {},
    }
    Ok(())
}

/// Why an entry may not be given the name `new_name`, as the user is told;
/// `None` where it may. `parent` is the full path of the folder the entry is
/// in and `new_parent` the full path of the folder that the new name would
/// put it in, each where it could be found out.
pub open spec fn rename_refusal(
    new_name: Seq<char>,
    parent: Option<Seq<char>>,
    new_parent: Option<Seq<char>>,
) -> Option<Seq<char>> {
    match name_fault(new_name) {
        Some(e) => Some("Error: "@ + fault_text(e)),
        None => match (parent, new_parent) {
            (Some(p), Some(n)) => if p == n {
                None
            } else {
                Some("Error: Path traversal attempt detected"@)
            },
            _ => None,
        },
    }
}

/// Checks a request to give an entry the name `new_name`. Returns what the
/// user is told where the request is refused.
pub fn execute_rename(new_name: &str, parent: Option<&str>, new_parent: Option<&str>) -> (r:
    Result<(), String>)
    ensures
        r is Ok <==> rename_refusal(new_name@, opt_str(parent), opt_str(new_parent)) is None,
        r matches Err(m) ==> Some(m@) == rename_refusal(
            new_name@,
            opt_str(parent),
            opt_str(new_parent),
        ),
{
    match is_valid_filename(new_name) {
        Err(e) => {
            return Err(concat2("Error: ", validation_message(e).as_str()));
        },
        Ok(_) => {},
    }
    match (parent, new_parent) {
        (Some(p), Some(n)) => {
            if !crate::text::str_eq(p, n) {
                return Err(String::from_str("Error: Path traversal attempt detected"));
            }
        },
        _ => {},
    }
    Ok(())
}

/// What the user is told after a run of single operations: how many files
/// were handled, out of how many, and the last error where not all were.
pub open spec fn run_summary(
    verb: Seq<char>,
    success: usize,
    total: usize,
    last_error: Seq<char>,
) -> Seq<char> {
    if success == total {
        verb + " "@ + decimal(success as nat) + " file(s)"@
    } else {
        verb + " "@ + decimal(success as nat) + "/"@ + decimal(total as nat) + ". Error: "@
            + last_error
    }
}

/// What the user is told after `success` of `total` files were handled;
/// `verb` says what was done to them (`Copied`, `Moved`, `Deleted`).
pub fn operation_summary(verb: &str, success: usize, total: usize, last_error: &str) -> (msg:
    String)
    ensures
        msg@ == run_summary(verb@, success, total, last_error@),
{
    let mut out: Vec<char> = Vec::new();
    append_str(&mut out, verb);
    append_str(&mut out, " ");
    append_decimal(&mut out, success as u128);
    if success == total {
        append_str(&mut out, " file(s)");
    } else {
        append_str(&mut out, "/");
        append_decimal(&mut out, total as u128);
        append_str(&mut out, ". Error: ");
        append_str(&mut out, last_error);
    }
    string_of(&out)
}

/// How each operation of a run went, with the reasons as character
/// sequences: nothing where it went well, else why it failed.
pub open spec fn report_views(reports: Seq<Option<String>>) -> Seq<Option<Seq<char>>> {
    Seq::new(reports.len(), |i: int| opt_text(reports[i]))
}

/// How many of the operations went well.
pub open spec fn successes(reports: Seq<Option<Seq<char>>>) -> nat
    decreases reports.len(),
{
    if reports.len() == 0 {
        0
    } else {
        successes(reports.drop_last()) + (if reports.last() is None {
            1nat
        } else {
            0nat
        })
    }
}

/// Why the last of the operations that failed did so; nothing where none failed.
pub open spec fn last_failure(reports: Seq<Option<Seq<char>>>) -> Seq<char>
    decreases reports.len(),
{
    if reports.len() == 0 {
        Seq::empty()
    } else {
        match reports.last() {
            Some(reason) => reason,
            None => last_failure(reports.drop_last()),
        }
    }
}

/// What the user is told after a run of single operations, of which
/// `reports` says for each how it went: nothing where it went well, else why
/// it failed. One failure does not end the run, and the last one is told.
pub fn settle(verb: &str, reports: &Vec<Option<String>>) -> (msg: String)
    ensures
        successes(report_views(reports@)) <= reports@.len(),
        msg@ == run_summary(
            verb@,
            successes(report_views(reports@)) as usize,
            reports@.len() as usize,
            last_failure(report_views(reports@)),
        ),
{
    let ghost all = report_views(reports@);
    let mut success: usize = 0;
    let mut last_error = String::new();
    let mut i: usize = 0;
    assert(all.subrange(0, 0) =~= Seq::<Option<Seq<char>>>::empty());
    while i < reports.len()
        invariant
            i <= reports@.len(),
            all == report_views(reports@),
            success == successes(all.subrange(0, i as int)),
            success <= i,
            last_error@ == last_failure(all.subrange(0, i as int)),
        decreases reports@.len() - i,
    {
        assert(all.subrange(0, i + 1).drop_last() =~= all.subrange(0, i as int));
        assert(all.subrange(0, i + 1).last() == opt_text(reports@[i as int]));
        match &reports[i] {
            Some(reason) => {
                last_error = reason.clone();
            },
            None => {
                success += 1;
            },
        }
        i += 1;
    }
    assert(all.subrange(0, reports@.len() as int) =~= all);
    operation_summary(verb, success, reports.len(), last_error.as_str())
}

/// The index of the first of `n` candidates, from `from` on, that is a
/// directory which can be read.
pub open spec fn first_readable(readable: Seq<bool>, n: nat, from: nat) -> Option<nat>
    decreases n - from,
{
    if from >= n {
        None
    } else if flag_at(readable, from as int) {
        Some(from)
    } else {
        first_readable(readable, n, from + 1)
    }
}

/// The folder to show in place of one that may be gone: the first of
/// `candidates` that can be read, else `fallback` where that can be read,
/// else the root.
pub open spec fn valid_path_of(
    candidates: Seq<Seq<char>>,
    readable: Seq<bool>,
    fallback: Seq<char>,
    fallback_readable: bool,
) -> Seq<char> {
    match first_readable(readable, candidates.len(), 0) {
        Some(i) => candidates[i as int],
        None => if fallback_readable {
            fallback
        } else {
            "/"@
        },
    }
}

/// Picks the folder to show for a path that may not be there any more.
/// `candidates` are the path and the folders above it, nearest first;
/// `readable` says of each whether it is a directory that can be read (a
/// candidate without a flag counts as not readable); `fallback` is the
/// folder to go to where none of them is, if it can be read itself.
pub fn get_valid_path(
    candidates: &Vec<String>,
    readable: &Vec<bool>,
    fallback: &str,
    fallback_readable: bool,
) -> (path: String)
    ensures
        path@ == valid_path_of(texts(candidates@), readable@, fallback@, fallback_readable),
{
    assert(texts(candidates@).len() == candidates@.len());
    let mut i: usize = 0;
    while i < candidates.len()
        invariant
            i <= candidates.len(),
            texts(candidates@).len() == candidates@.len(),
            first_readable(readable@, candidates@.len() as nat, 0) == first_readable(
                readable@,
                candidates@.len() as nat,
                i as nat,
            ),
        decreases candidates.len() - i,
    {
        if i < readable.len() && readable[i] {
            assert(texts(candidates@)[i as int] == candidates@[i as int]@);
            return candidates[i].clone();
        }
        i += 1;
    }
    if fallback_readable {
        String::from_str(fallback)
    } else {
        String::from_str("/")
    }
}

} // verus!
