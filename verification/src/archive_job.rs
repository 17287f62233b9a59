//! The course of an archive job, as a machine that is told what happened and
//! answers with the events to send and the next thing to do.
//!
//! The archiving tool is known before a job is made: a request for which no
//! tool answers is refused and never becomes a job. The owner of the job
//! does the outside work: it probes for the buffering wrapper, walks the
//! disk or runs the listing, starts the tool, reads its output line by line
//! and waits for it. After each of these it hands the result to `step`.

use vstd::prelude::*;
use crate::archive::{
    add_capped, classify_output_line, compression_letter, compression_of, create_args_of,
    extract_dir_name, extract_dir_of, failure_text, failure_text_of, next_count, output_line_of,
    tar_create_args, tar_extract_args, tar_list_args, tool_command, tool_command_of,
    ArchiveListing, Buffering, ListingView, OutputLine, OutputLineView,
};
use crate::batch::{cancel_events, cancelled_string};
use crate::command::{clone_strings, CommandLine, CommandView};
use crate::progress::{events, stream_closed, stream_open, Event, ProgressMessage};
use crate::text::{concat2, texts};

verus! {

/// Whether an archive is made or unpacked.
#[derive(Debug, Clone, Copy, PartialEq, Eq, Structural)]
pub enum ArchiveKind {
    Create,
    Extract,
}

/// Where an archive job stands.
#[derive(Debug, Clone, Copy, PartialEq, Eq, Structural)]
pub enum Phase {
    /// Nothing has happened yet.
    Fresh,
    /// The buffering wrapper is being probed.
    ProbingStdbuf,
    /// Sizes are being collected: from disk, or from the archive's table of contents.
    Measuring,
    /// The directory to unpack into is being made.
    MakingDirectory,
    /// The tool is being started.
    Spawning,
    /// The tool runs; its output is read line by line.
    Reading,
    /// The tool's output has ended; its exit is awaited.
    Waiting,
    /// The job is over.
    Finished,
}

/// How the tool ended.
#[derive(Debug, Clone, PartialEq, Eq)]
pub enum ExitReport {
    /// It reported success.
    Success,
    /// It reported failure; the text is what it wrote to standard error.
    Failed(String),
    /// Its exit could not be awaited, for the reason given.
    WaitFailed(String),
}

/// What the owner of the job reports to it.
pub enum ArchiveInput {
    /// The job may begin.
    Start,
    /// The program that was probed answered, or did not.
    Probed(bool),
    /// The sizes have been collected.
    Measured(ArchiveListing),
    /// The directory was made (`None`), or could not be made for the reason given.
    DirectoryMade(Option<String>),
    /// The tool was started (`None`), or could not be started for the reason given.
    Spawned(Option<String>),
    /// The next line of the tool's output, or `None` where the output has ended.
    Line(Option<String>),
    /// The tool has ended.
    Exited(ExitReport),
}

/// What the owner of the job has to do next.
#[derive(Debug, Clone, PartialEq, Eq)]
pub enum ArchiveAction {
    /// Run this program with `--version`; report whether it succeeded.
    Probe(String),
    /// Walk the chosen files on disk and report their sizes.
    Measure,
    /// Run this command and report the listing made of its output.
    List(CommandLine),
    /// Make the directory to unpack into, failing if it exists; report the outcome.
    MakeDirectory,
    /// Start this command with its output piped; report the outcome.
    Spawn(CommandLine),
    /// Read the next line of the tool's output and report it.
    ReadLine,
    /// Wait for the tool to end and report how it ended.
    Wait,
    /// Nothing: the job is over.
    Done,
}

/// The answer of the job to one report.
pub struct ArchiveStep {
    /// The events to send, in order.
    pub messages: Vec<ProgressMessage>,
    /// Kill the tool before anything else.
    pub kill: bool,
    /// Then remove what the job has left on disk: the archive being made, or
    /// the directory being unpacked into.
    pub cleanup: bool,
    /// Then do this.
    pub action: ArchiveAction,
}

pub enum ExitView {
    Success,
    Failed(Seq<char>),
    WaitFailed(Seq<char>),
}

pub enum InputView {
    Start,
    Probed(bool),
    Measured(ListingView),
    DirectoryMade(Option<Seq<char>>),
    Spawned(Option<Seq<char>>),
    Line(Option<Seq<char>>),
    Exited(ExitView),
}

pub enum ActionView {
    Probe(Seq<char>),
    Measure,
    List(CommandView),
    MakeDirectory,
    Spawn(CommandView),
    ReadLine,
    Wait,
    Done,
}

#[verifier::ext_equal]
pub struct StepView {
    pub events: Seq<Event>,
    pub kill: bool,
    pub cleanup: bool,
    pub action: ActionView,
}

impl View for ExitReport {
    type V = ExitView;

    open spec fn view(&self) -> ExitView {
        match *self {
            ExitReport::Success => ExitView::Success,
            ExitReport::Failed(t) => ExitView::Failed(t@),
            ExitReport::WaitFailed(t) => ExitView::WaitFailed(t@),
        }
    }
}

/// The text of an optional string.
pub open spec fn opt_text(o: Option<String>) -> Option<Seq<char>> {
    match o {
        Some(t) => Some(t@),
        None => None,
    }
}

impl View for ArchiveInput {
    type V = InputView;

    open spec fn view(&self) -> InputView {
        match *self {
            ArchiveInput::Start => InputView::Start,
            ArchiveInput::Probed(b) => InputView::Probed(b),
            ArchiveInput::Measured(l) => InputView::Measured(l@),
            ArchiveInput::DirectoryMade(e) => InputView::DirectoryMade(opt_text(e)),
            ArchiveInput::Spawned(e) => InputView::Spawned(opt_text(e)),
            ArchiveInput::Line(l) => InputView::Line(opt_text(l)),
            ArchiveInput::Exited(r) => InputView::Exited(r@),
        }
    }
}

impl View for ArchiveAction {
    type V = ActionView;

    open spec fn view(&self) -> ActionView {
        match *self {
            ArchiveAction::Probe(p) => ActionView::Probe(p@),
            ArchiveAction::Measure => ActionView::Measure,
            ArchiveAction::List(c) => ActionView::List(c@),
            ArchiveAction::MakeDirectory => ActionView::MakeDirectory,
            ArchiveAction::Spawn(c) => ActionView::Spawn(c@),
            ArchiveAction::ReadLine => ActionView::ReadLine,
            ArchiveAction::Wait => ActionView::Wait,
            ArchiveAction::Done => ActionView::Done,
        }
    }
}

impl View for ArchiveStep {
    type V = StepView;

    open spec fn view(&self) -> StepView {
        StepView {
            events: events(self.messages@),
            kill: self.kill,
            cleanup: self.cleanup,
            action: self.action@,
        }
    }
}

/// The state of an archive job, with texts as character sequences.
#[verifier::ext_equal]
pub struct ArchiveState {
    pub kind: ArchiveKind,
    /// The name under which the job appears in error events: the archive
    /// being made, or the directory being unpacked into.
    pub subject: Seq<char>,
    /// The archive as the tool is told of it: its name when it is made (the
    /// tool runs where the archive goes), its path when it is unpacked.
    pub archive: Seq<char>,
    /// The archive's file name, which decides the compression.
    pub archive_name: Seq<char>,
    /// The files to put in the archive, and the paths to leave out.
    pub files: Seq<Seq<char>>,
    pub excluded: Seq<Seq<char>>,
    pub phase: Phase,
    /// The archiving tool, which has answered its probe before the job was made.
    pub tool: Seq<char>,
    pub has_stdbuf: bool,
    pub sizes: Map<Seq<char>, u64>,
    pub total_files: usize,
    pub total_bytes: u64,
    pub completed_files: usize,
    pub completed_bytes: u64,
    /// The tool's latest complaint on its standard output.
    pub complaint: Option<Seq<char>>,
    /// The archive, or the directory unpacked into, may be on disk because of this job.
    pub artifact: bool,
    /// The owner has been told to remove it.
    pub cleaned: bool,
    /// The tool has reported success.
    pub succeeded: bool,
    /// Every event handed out so far, oldest first.
    pub sent: Seq<Event>,
}

/// The size the listing knows for `path`; 0 where it knows none.
pub open spec fn known_size(sizes: Map<Seq<char>, u64>, path: Seq<char>) -> u64 {
    if sizes.contains_key(path) {
        sizes[path]
    } else {
        0
    }
}

impl ArchiveState {
    /// The state of a job that makes the archive `archive_name` of `files`.
    pub open spec fn creating(
        archive_name: Seq<char>,
        files: Seq<Seq<char>>,
        excluded: Seq<Seq<char>>,
        tool: Seq<char>,
    ) -> ArchiveState {
        ArchiveState {
            kind: ArchiveKind::Create,
            subject: archive_name,
            archive: archive_name,
            archive_name,
            files,
            excluded,
            phase: Phase::Fresh,
            tool,
            has_stdbuf: false,
            sizes: Map::empty(),
            total_files: 0,
            total_bytes: 0,
            completed_files: 0,
            completed_bytes: 0,
            complaint: None,
            artifact: false,
            cleaned: false,
            succeeded: false,
            sent: Seq::empty(),
        }
    }

    /// The state of a job that unpacks the archive at `archive_path`, whose
    /// file name is `archive_name`.
    pub open spec fn extracting(
        archive_path: Seq<char>,
        archive_name: Seq<char>,
        tool: Seq<char>,
    ) -> ArchiveState {
        ArchiveState {
            kind: ArchiveKind::Extract,
            subject: extract_dir_of(archive_name),
            archive: archive_path,
            archive_name,
            files: Seq::empty(),
            excluded: Seq::empty(),
            phase: Phase::Fresh,
            tool,
            has_stdbuf: false,
            sizes: Map::empty(),
            total_files: 0,
            total_bytes: 0,
            completed_files: 0,
            completed_bytes: 0,
            complaint: None,
            artifact: false,
            cleaned: false,
            succeeded: false,
            sent: Seq::empty(),
        }
    }

    /// The tool is running, or may be.
    pub open spec fn child_alive(self) -> bool {
        self.phase == Phase::Reading || self.phase == Phase::Waiting
    }

    /// The tool runs once `input` has been taken: it has been started, now
    /// or before, and `input` is not the awaited word that it has ended.
    pub open spec fn runs_after(self, input: InputView) -> bool {
        (self.child_alive() || (self.phase == Phase::Spawning && input == InputView::Spawned(None)))
            && !(self.phase == Phase::Waiting && input is Exited)
    }

    /// `input` is the awaited word that the tool has ended well: the job is
    /// done, and nothing is left that could be stopped.
    pub open spec fn done_by(self, input: InputView) -> bool {
        self.phase == Phase::Waiting && input == InputView::Exited(ExitView::Success)
    }

    /// Something of the job's own is on disk once `input` has been taken: it
    /// was before, or `input` is the word that the directory to unpack into
    /// has been made.
    pub open spec fn made_after(self, input: InputView) -> bool {
        self.artifact || (self.phase == Phase::MakingDirectory && input
            == InputView::DirectoryMade(None))
    }

    /// What holds of every state an archive job can reach.
    pub open spec fn wf(self) -> bool {
        &&& self.cleaned ==> self.artifact && self.phase == Phase::Finished
        &&& self.succeeded ==> self.phase == Phase::Finished
        &&& self.phase == Phase::Finished && self.artifact && !self.succeeded ==> self.cleaned
        &&& self.child_alive() || self.phase == Phase::Spawning ==> self.artifact
        &&& self.phase == Phase::Finished ==> stream_closed(self.sent)
        &&& self.phase != Phase::Finished ==> stream_open(self.sent)
    }

    /// The command that runs the tool for this job.
    pub open spec fn spawn_command(self) -> CommandView {
        match self.kind {
            ArchiveKind::Create => tool_command_of(
                self.has_stdbuf,
                Buffering::Off,
                self.tool,
                create_args_of(self.archive_name, self.files, self.excluded),
            ),
            ArchiveKind::Extract => tool_command_of(
                self.has_stdbuf,
                Buffering::Line,
                self.tool,
                seq![
                    "xvfp"@ + compression_letter(compression_of(self.archive_name)),
                    self.archive,
                ],
            ),
        }
    }

    /// The command that lists the archive with sizes.
    pub open spec fn list_command(self) -> CommandView {
        CommandView {
            program: self.tool,
            args: seq![
                "tvf"@ + compression_letter(compression_of(self.archive_name)),
                self.archive,
            ],
        }
    }

    /// The job goes on: it hands out `evs` and asks for `action`.
    pub open spec fn go(self, phase: Phase, evs: Seq<Event>, action: ActionView) -> (
        ArchiveState,
        StepView,
    ) {
        (
            ArchiveState { phase, sent: self.sent + evs, ..self },
            StepView { events: evs, kill: false, cleanup: false, action },
        )
    }

    /// The job ends: it hands out `evs`, has the tool killed where `kill`
    /// says so, and has removed what it may have left on disk, unless the
    /// tool reported success.
    pub open spec fn end(self, evs: Seq<Event>, succeeded: bool, kill: bool) -> (
        ArchiveState,
        StepView,
    ) {
        (
            ArchiveState {
                phase: Phase::Finished,
                cleaned: self.artifact && !succeeded,
                succeeded,
                sent: self.sent + evs,
                ..self
            },
            StepView {
                events: evs,
                kill,
                cleanup: self.artifact && !succeeded,
                action: ActionView::Done,
            },
        )
    }

    /// The job ends in failure for the reason `msg`, with no tool running.
    pub open spec fn fail(self, msg: Seq<char>) -> (ArchiveState, StepView) {
        self.end(seq![Event::Error(self.subject, msg), Event::Completed(0, 1)], false, false)
    }

    /// The job ends because a report came out of turn; the tool is killed
    /// where it may be running.
    pub open spec fn misled(self) -> (ArchiveState, StepView) {
        self.end(
            seq![Event::Error(self.subject, "Unexpected event"@), Event::Completed(0, 1)],
            false,
            self.child_alive(),
        )
    }

    /// The events that announce the totals once preparation is over.
    pub open spec fn totals_events(self) -> Seq<Event> {
        seq![
            Event::PrepareComplete,
            Event::TotalProgress(0, self.total_files, 0, self.total_bytes),
        ]
    }

    /// The state after the report `input`, and the answer to it. `cancelled`
    /// says whether the caller has asked the job to stop.
    pub open spec fn step(self, input: InputView, cancelled: bool) -> (ArchiveState, StepView) {
        if self.phase == Phase::Finished {
            (
                self,
                StepView {
                    events: Seq::empty(),
                    kill: false,
                    cleanup: false,
                    action: ActionView::Done,
                },
            )
        } else if cancelled && !self.done_by(input) {
            (ArchiveState { artifact: self.made_after(input), ..self }).end(
                cancel_events(
                    self.subject,
                    if self.child_alive() {
                        self.completed_files as nat
                    } else {
                        0
                    },
                ),
                false,
                self.runs_after(input),
            )
        } else {
            match (self.phase, input) {
                (Phase::Fresh, InputView::Start) => self.go(
                    Phase::ProbingStdbuf,
                    seq![Event::Preparing("Checking tar command..."@)],
                    ActionView::Probe("stdbuf"@),
                ),
                (Phase::ProbingStdbuf, InputView::Probed(ok)) => {
                    let s = ArchiveState { has_stdbuf: ok, ..self };
                    match self.kind {
                        ArchiveKind::Create => s.go(
                            Phase::Measuring,
                            seq![Event::Preparing("Calculating file sizes..."@)],
                            ActionView::Measure,
                        ),
                        ArchiveKind::Extract => s.go(
                            Phase::Measuring,
                            seq![Event::Preparing("Reading archive contents..."@)],
                            ActionView::List(s.list_command()),
                        ),
                    }
                },
                (Phase::Measuring, InputView::Measured(l)) => {
                    let s = ArchiveState {
                        sizes: l.sizes,
                        total_files: l.total_files,
                        total_bytes: l.total_bytes,
                        ..self
                    };
                    match self.kind {
                        ArchiveKind::Create => (ArchiveState { artifact: true, ..s }).go(
                            Phase::Spawning,
                            s.totals_events(),
                            ActionView::Spawn(s.spawn_command()),
                        ),
                        ArchiveKind::Extract => if l.total_files == 0 {
                            self.fail("Archive appears to be empty or corrupted"@)
                        } else {
                            s.go(Phase::MakingDirectory, Seq::empty(), ActionView::MakeDirectory)
                        },
                    }
                },
                (Phase::MakingDirectory, InputView::DirectoryMade(r)) => match r {
                    None => (ArchiveState { artifact: true, ..self }).go(
                        Phase::Spawning,
                        self.totals_events(),
                        ActionView::Spawn(self.spawn_command()),
                    ),
                    Some(e) => self.fail("Failed to create directory: "@ + e),
                },
                (Phase::Spawning, InputView::Spawned(r)) => match r {
                    None => self.go(Phase::Reading, Seq::empty(), ActionView::ReadLine),
                    Some(e) => self.fail("Failed to run tar: "@ + e),
                },
                (Phase::Reading, InputView::Line(l)) => match l {
                    None => self.go(Phase::Waiting, Seq::empty(), ActionView::Wait),
                    Some(text) => match output_line_of(text) {
                        OutputLineView::Blank => self.go(
                            Phase::Reading,
                            Seq::empty(),
                            ActionView::ReadLine,
                        ),
                        OutputLineView::Failure(t) => (ArchiveState {
                            complaint: Some(t),
                            ..self
                        }).go(Phase::Reading, Seq::empty(), ActionView::ReadLine),
                        OutputLineView::Entry(path) => {
                            let s = ArchiveState {
                                completed_files: next_count(self.completed_files),
                                completed_bytes: add_capped(
                                    self.completed_bytes,
                                    known_size(self.sizes, path),
                                ),
                                ..self
                            };
                            s.go(
                                Phase::Reading,
                                seq![
                                    Event::FileStarted(path),
                                    Event::FileCompleted(path),
                                    Event::TotalProgress(
                                        s.completed_files,
                                        s.total_files,
                                        s.completed_bytes,
                                        s.total_bytes,
                                    ),
                                ],
                                ActionView::ReadLine,
                            )
                        },
                    },
                },
                (Phase::Waiting, InputView::Exited(r)) => match r {
                    ExitView::Success => self.end(
                        seq![Event::Completed(self.completed_files, 0)],
                        true,
                        false,
                    ),
                    ExitView::Failed(stderr) => self.fail(
                        failure_text_of(
                            self.complaint,
                            stderr,
                            match self.kind {
                                ArchiveKind::Create => "tar command failed"@,
                                ArchiveKind::Extract => "tar extraction failed"@,
                            },
                        ),
                    ),
                    ExitView::WaitFailed(e) => self.fail(e),
                },
                _ => self.misled(),
            }
        }
    }
}

/// A job that ends closes its event stream.
proof fn lemma_end_wf(s: ArchiveState, evs: Seq<Event>, succeeded: bool, kill: bool)
    requires
        s.wf(),
        s.phase != Phase::Finished,
        stream_closed(evs),
    ensures
        s.end(evs, succeeded, kill).0.wf(),
{
    let t = s.sent + evs;
    assert(t.drop_last() == s.sent + evs.drop_last());
    assert(stream_open(t.drop_last()));
}

/// Every report keeps a reachable state reachable.
pub proof fn lemma_step_keeps_wf(s: ArchiveState, input: InputView, cancelled: bool)
    requires
        s.wf(),
    ensures
        s.step(input, cancelled).0.wf(),
{
    if s.phase == Phase::Finished {
    } else if cancelled && !s.done_by(input) {
        let evs = cancel_events(
            s.subject,
            if s.child_alive() {
                s.completed_files as nat
            } else {
                0
            },
        );
        assert(stream_open(evs.drop_last()));
        lemma_end_wf(
            ArchiveState { artifact: s.made_after(input), ..s },
            evs,
            false,
            s.runs_after(input),
        );
    } else {
        let r = s.step(input, cancelled);
        let evs = r.1.events;
        if r.0.phase == Phase::Finished {
            assert(evs.len() > 0);
            assert(stream_open(evs.drop_last()));
            assert(stream_closed(evs));
            lemma_end_wf(s, evs, r.0.succeeded, r.1.kill);
        } else {
            assert(stream_open(evs));
            assert(stream_open(s.sent + evs));
        }
    }
}

/// The state of an archive job after the reports `inputs`, each taken with
/// the word on whether the caller has asked the job to stop.
pub open spec fn after_reports(s: ArchiveState, inputs: Seq<(InputView, bool)>) -> ArchiveState
    decreases inputs.len(),
{
    if inputs.len() == 0 {
        s
    } else {
        after_reports(s, inputs.drop_last()).step(inputs.last().0, inputs.last().1).0
    }
}

/// Whatever is reported to an archive job, in whatever order, it stays in a
/// state that can be reached: its events never hold a second `Completed`,
/// nor anything after the first, and once it is over without the tool's
/// success, what it may have left on disk is asked to be removed.
pub proof fn lemma_every_run_is_well_formed(s: ArchiveState, inputs: Seq<(InputView, bool)>)
    requires
        s.wf(),
    ensures
        after_reports(s, inputs).wf(),
    decreases inputs.len(),
{
    if inputs.len() > 0 {
        lemma_every_run_is_well_formed(s, inputs.drop_last());
        lemma_step_keeps_wf(
            after_reports(s, inputs.drop_last()),
            inputs.last().0,
            inputs.last().1,
        );
    }
}

/// An archive job hands out exactly one `Completed` event, as its last
/// event, and none before it is over.
pub proof fn lemma_one_completed_event(s: ArchiveState)
    requires
        s.wf(),
    ensures
        s.phase == Phase::Finished ==> stream_closed(s.sent),
        s.phase != Phase::Finished ==> stream_open(s.sent),
{
}

/// A job that is over, and whose tool did not report success, has asked for
/// the removal of whatever it may have left on disk: no broken archive and no
/// half-unpacked directory stays behind.
pub proof fn lemma_no_artifact_left(s: ArchiveState)
    requires
        s.wf(),
        s.phase == Phase::Finished,
        !s.succeeded,
    ensures
        s.artifact ==> s.cleaned,
{
}

/// The step that ends a job other than by the tool's success asks for the
/// removal of whatever the job has put on disk, the directory that the very
/// report says was made included, whether or not the job was cancelled. And
/// it asks for the tool to be killed where the tool runs, the tool that the
/// very report says was started included; a tool that the report says has
/// ended is not killed.
pub proof fn lemma_failing_step_cleans_up(s: ArchiveState, input: InputView, cancelled: bool)
    requires
        s.wf(),
        s.phase != Phase::Finished,
        s.step(input, cancelled).0.phase == Phase::Finished,
        !s.step(input, cancelled).0.succeeded,
    ensures
        s.made_after(input) ==> s.step(input, cancelled).1.cleanup,
        s.runs_after(input) ==> s.step(input, cancelled).1.kill,
        s.phase == Phase::Waiting && input is Exited ==> !s.step(input, cancelled).1.kill,
{
}

/// A job whose tool has ended well is done, whether or not the caller has
/// asked it to stop meanwhile: the archive, or what was unpacked, is whole
/// and stays.
pub proof fn lemma_success_outlasts_cancel(s: ArchiveState, cancelled: bool)
    requires
        s.wf(),
        s.phase == Phase::Waiting,
    ensures
        s.step(InputView::Exited(ExitView::Success), cancelled).0.succeeded,
        !s.step(InputView::Exited(ExitView::Success), cancelled).1.cleanup,
        !s.step(InputView::Exited(ExitView::Success), cancelled).1.kill,
        s.step(InputView::Exited(ExitView::Success), cancelled).1.events == seq![
            Event::Completed(s.completed_files, 0),
        ],
{
}

/// A job told to stop with the word that its directory has just been made
/// asks for the directory's removal; one told to stop with the word that its
/// tool has just been started asks for the tool to be killed and for the
/// removal of what the tool may have written.
pub proof fn lemma_cancel_takes_the_report_in(s: ArchiveState)
    requires
        s.wf(),
    ensures
        s.phase == Phase::MakingDirectory ==> s.step(InputView::DirectoryMade(None), true).1.cleanup
            && s.step(InputView::DirectoryMade(None), true).0.cleaned,
        s.phase == Phase::Spawning ==> s.step(InputView::Spawned(None), true).1.kill && s.step(
            InputView::Spawned(None),
            true,
        ).1.cleanup,
{
}

/// An archive job: one run of the archiving tool, with what is done before
/// and after it.
pub struct ArchiveJob {
    kind: ArchiveKind,
    subject: String,
    archive: String,
    archive_name: String,
    files: Vec<String>,
    excluded: Vec<String>,
    phase: Phase,
    tool: String,
    has_stdbuf: bool,
    sizes: vstd::hash_map::StringHashMap<u64>,
    total_files: usize,
    total_bytes: u64,
    completed_files: usize,
    completed_bytes: u64,
    complaint: Option<String>,
    artifact: bool,
    cleaned: bool,
    succeeded: bool,
    sent: Ghost<Seq<Event>>,
}

impl View for ArchiveJob {
    type V = ArchiveState;

    closed spec fn view(&self) -> ArchiveState {
        ArchiveState {
            kind: self.kind,
            subject: self.subject@,
            archive: self.archive@,
            archive_name: self.archive_name@,
            files: texts(self.files@),
            excluded: texts(self.excluded@),
            phase: self.phase,
            tool: self.tool@,
            has_stdbuf: self.has_stdbuf,
            sizes: self.sizes@,
            total_files: self.total_files,
            total_bytes: self.total_bytes,
            completed_files: self.completed_files,
            completed_bytes: self.completed_bytes,
            complaint: opt_text(self.complaint),
            artifact: self.artifact,
            cleaned: self.cleaned,
            succeeded: self.succeeded,
            sent: self.sent@,
        }
    }
}

fn no_messages() -> (msgs: Vec<ProgressMessage>)
    ensures
        events(msgs@) == Seq::<Event>::empty(),
{
    let msgs: Vec<ProgressMessage> = Vec::new();
    assert(events(msgs@) =~= Seq::<Event>::empty());
    msgs
}

fn preparing(text: &str) -> (msgs: Vec<ProgressMessage>)
    ensures
        events(msgs@) == seq![Event::Preparing(text@)],
{
    let mut msgs: Vec<ProgressMessage> = Vec::new();
    msgs.push(ProgressMessage::Preparing(String::from_str(text)));
    assert(events(msgs@) =~= seq![Event::Preparing(text@)]);
    msgs
}

impl ArchiveJob {
    /// A job that makes the archive `archive_name` of `files`, leaving out
    /// the paths in `excluded`, with the archiving tool `tool`, which has
    /// answered its probe.
    pub fn create(
        archive_name: &str,
        files: &Vec<String>,
        excluded: &Vec<String>,
        tool: String,
    ) -> (job: ArchiveJob)
        ensures
            job@ == ArchiveState::creating(
                archive_name@,
                texts(files@),
                texts(excluded@),
                tool@,
            ),
            job@.wf(),
    {
        ArchiveJob {
            kind: ArchiveKind::Create,
            subject: String::from_str(archive_name),
            archive: String::from_str(archive_name),
            archive_name: String::from_str(archive_name),
            files: clone_strings(files),
            excluded: clone_strings(excluded),
            phase: Phase::Fresh,
            tool,
            has_stdbuf: false,
            sizes: vstd::hash_map::StringHashMap::new(),
            total_files: 0,
            total_bytes: 0,
            completed_files: 0,
            completed_bytes: 0,
            complaint: None,
            artifact: false,
            cleaned: false,
            succeeded: false,
            sent: Ghost(Seq::empty()),
        }
    }

    /// A job that unpacks the archive at `archive_path`, whose file name is
    /// `archive_name`, into a directory named after it.
    pub fn extract(archive_path: &str, archive_name: &str, tool: String) -> (job: ArchiveJob)
        ensures
            job@ == ArchiveState::extracting(archive_path@, archive_name@, tool@),
            job@.wf(),
    {
        let files: Vec<String> = Vec::new();
        let excluded: Vec<String> = Vec::new();
        assert(texts(files@) =~= Seq::<Seq<char>>::empty());
        assert(texts(excluded@) =~= Seq::<Seq<char>>::empty());
        ArchiveJob {
            kind: ArchiveKind::Extract,
            subject: extract_dir_name(archive_name),
            archive: String::from_str(archive_path),
            archive_name: String::from_str(archive_name),
            files,
            excluded,
            phase: Phase::Fresh,
            tool,
            has_stdbuf: false,
            sizes: vstd::hash_map::StringHashMap::new(),
            total_files: 0,
            total_bytes: 0,
            completed_files: 0,
            completed_bytes: 0,
            complaint: None,
            artifact: false,
            cleaned: false,
            succeeded: false,
            sent: Ghost(Seq::empty()),
        }
    }

    /// Whether the job is over.
    pub fn is_finished(&self) -> (r: bool)
        ensures
            r == (self@.phase == Phase::Finished),
    {
        self.phase == Phase::Finished
    }

    /// Whether the tool reported success.
    pub fn succeeded(&self) -> (r: bool)
        ensures
            r == self@.succeeded,
    {
        self.succeeded
    }

    /// The name under which the job appears in error events.
    pub fn subject(&self) -> (r: &str)
        ensures
            r@ == self@.subject,
    {
        self.subject.as_str()
    }

    fn proceed(&mut self, phase: Phase, msgs: Vec<ProgressMessage>, action: ArchiveAction) -> (out:
        ArchiveStep)
        ensures
            final(self)@ == old(self)@.go(phase, events(msgs@), action@).0,
            out@ == old(self)@.go(phase, events(msgs@), action@).1,
    {
        self.phase = phase;
        proof {
            self.sent@ = self.sent@ + events(msgs@);
        }
        ArchiveStep { messages: msgs, kill: false, cleanup: false, action }
    }

    fn finish_with(&mut self, msgs: Vec<ProgressMessage>, succeeded: bool, kill: bool) -> (out:
        ArchiveStep)
        ensures
            final(self)@ == old(self)@.end(events(msgs@), succeeded, kill).0,
            out@ == old(self)@.end(events(msgs@), succeeded, kill).1,
    {
        let cleanup = self.artifact && !succeeded;
        self.phase = Phase::Finished;
        self.cleaned = cleanup;
        self.succeeded = succeeded;
        proof {
            self.sent@ = self.sent@ + events(msgs@);
        }
        ArchiveStep { messages: msgs, kill, cleanup, action: ArchiveAction::Done }
    }

    fn fail_with(&mut self, msg: String) -> (out: ArchiveStep)
        ensures
            final(self)@ == old(self)@.fail(msg@).0,
            out@ == old(self)@.fail(msg@).1,
    {
        let mut msgs: Vec<ProgressMessage> = Vec::new();
        msgs.push(ProgressMessage::Error(self.subject.clone(), msg));
        msgs.push(ProgressMessage::Completed(0, 1));
        assert(events(msgs@) =~= seq![
            Event::Error(self@.subject, msg@),
            Event::Completed(0, 1),
        ]);
        self.finish_with(msgs, false, false)
    }

    fn totals(&self) -> (msgs: Vec<ProgressMessage>)
        ensures
            events(msgs@) == self@.totals_events(),
    {
        let mut msgs: Vec<ProgressMessage> = Vec::new();
        msgs.push(ProgressMessage::PrepareComplete);
        msgs.push(ProgressMessage::TotalProgress(0, self.total_files, 0, self.total_bytes));
        assert(events(msgs@) =~= self@.totals_events());
        msgs
    }

    fn spawn_command(&self) -> (cmd: CommandLine)
        ensures
            cmd@ == self@.spawn_command(),
    {
        match self.kind {
            ArchiveKind::Create => {
                let args = tar_create_args(self.archive_name.as_str(), &self.files, &self.excluded);
                tool_command(self.has_stdbuf, Buffering::Off, self.tool.as_str(), &args)
            },
            ArchiveKind::Extract => {
                let args = tar_extract_args(self.archive_name.as_str(), self.archive.as_str());
                tool_command(self.has_stdbuf, Buffering::Line, self.tool.as_str(), &args)
            },
        }
    }

    fn list_command(&self) -> (cmd: CommandLine)
        ensures
            cmd@ == self@.list_command(),
    {
        let args = tar_list_args(self.archive_name.as_str(), self.archive.as_str());
        CommandLine { program: self.tool.clone(), args }
    }

    fn unexpected(&mut self) -> (out: ArchiveStep)
        ensures
            final(self)@ == old(self)@.misled().0,
            out@ == old(self)@.misled().1,
    {
        let alive = self.phase == Phase::Reading || self.phase == Phase::Waiting;
        let mut msgs: Vec<ProgressMessage> = Vec::new();
        msgs.push(
            ProgressMessage::Error(self.subject.clone(), String::from_str("Unexpected event")),
        );
        msgs.push(ProgressMessage::Completed(0, 1));
        assert(events(msgs@) =~= seq![
            Event::Error(self@.subject, "Unexpected event"@),
            Event::Completed(0, 1),
        ]);
        self.finish_with(msgs, false, alive)
    }

    fn stop(&mut self, input: &ArchiveInput) -> (out: ArchiveStep)
        requires
            old(self)@.phase != Phase::Finished,
            !old(self)@.done_by(input@),
        ensures
            final(self)@ == old(self)@.step(input@, true).0,
            out@ == old(self)@.step(input@, true).1,
    {
        let alive = self.phase == Phase::Reading || self.phase == Phase::Waiting;
        let done: usize = if alive {
            self.completed_files
        } else {
            0
        };
        let started = match input {
            ArchiveInput::Spawned(None) => self.phase == Phase::Spawning,
            _ => false,
        };
        let ended = match input {
            ArchiveInput::Exited(_) => self.phase == Phase::Waiting,
            _ => false,
        };
        let made = match input {
            ArchiveInput::DirectoryMade(None) => self.phase == Phase::MakingDirectory,
            _ => false,
        };
        let mut msgs: Vec<ProgressMessage> = Vec::new();
        msgs.push(ProgressMessage::Error(self.subject.clone(), cancelled_string()));
        msgs.push(ProgressMessage::Completed(done, 0));
        assert(events(msgs@) =~= cancel_events(self@.subject, done as nat));
        if made {
            self.artifact = true;
        }
        self.finish_with(msgs, false, (alive || started) && !ended)
    }

    fn read_line(&mut self, line: Option<String>) -> (out: ArchiveStep)
        requires
            old(self)@.phase == Phase::Reading,
        ensures
            final(self)@ == old(self)@.step(InputView::Line(opt_text(line)), false).0,
            out@ == old(self)@.step(InputView::Line(opt_text(line)), false).1,
    {
        match line {
            None => self.proceed(Phase::Waiting, no_messages(), ArchiveAction::Wait),
            Some(text) => match classify_output_line(text.as_str()) {
                OutputLine::Blank => self.proceed(
                    Phase::Reading,
                    no_messages(),
                    ArchiveAction::ReadLine,
                ),
                OutputLine::Failure(t) => {
                    self.complaint = Some(t);
                    self.proceed(Phase::Reading, no_messages(), ArchiveAction::ReadLine)
                },
                OutputLine::Entry(path) => {
                    let size: u64 = match self.sizes.get(path.as_str()) {
                        Some(v) => *v,
                        None => 0,
                    };
                    assert(size == known_size(self@.sizes, path@));
                    if self.completed_files < usize::MAX {
                        self.completed_files = self.completed_files + 1;
                    }
                    self.completed_bytes = if self.completed_bytes > u64::MAX - size {
                        u64::MAX
                    } else {
                        self.completed_bytes + size
                    };
                    let mut msgs: Vec<ProgressMessage> = Vec::new();
                    msgs.push(ProgressMessage::FileStarted(path.clone()));
                    msgs.push(ProgressMessage::FileCompleted(path));
                    msgs.push(
                        ProgressMessage::TotalProgress(
                            self.completed_files,
                            self.total_files,
                            self.completed_bytes,
                            self.total_bytes,
                        ),
                    );
                    assert(events(msgs@) =~= seq![
                        Event::FileStarted(path@),
                        Event::FileCompleted(path@),
                        Event::TotalProgress(
                            self.completed_files,
                            self.total_files,
                            self.completed_bytes,
                            self.total_bytes,
                        ),
                    ]);
                    self.proceed(Phase::Reading, msgs, ArchiveAction::ReadLine)
                },
            },
        }
    }

    fn exited(&mut self, report: ExitReport) -> (out: ArchiveStep)
        requires
            old(self)@.phase == Phase::Waiting,
        ensures
            final(self)@ == old(self)@.step(InputView::Exited(report@), false).0,
            out@ == old(self)@.step(InputView::Exited(report@), false).1,
    {
        match report {
            ExitReport::Success => {
                let mut msgs: Vec<ProgressMessage> = Vec::new();
                msgs.push(ProgressMessage::Completed(self.completed_files, 0));
                assert(events(msgs@) =~= seq![Event::Completed(self.completed_files, 0)]);
                self.finish_with(msgs, true, false)
            },
            ExitReport::Failed(stderr) => {
                let msg = match self.kind {
                    ArchiveKind::Create => failure_text(
                        &self.complaint,
                        stderr.as_str(),
                        "tar command failed",
                    ),
                    ArchiveKind::Extract => failure_text(
                        &self.complaint,
                        stderr.as_str(),
                        "tar extraction failed",
                    ),
                };
                self.fail_with(msg)
            },
            ExitReport::WaitFailed(e) => self.fail_with(e),
        }
    }

    fn measured(&mut self, listing: ArchiveListing) -> (out: ArchiveStep)
        requires
            old(self)@.phase == Phase::Measuring,
        ensures
            final(self)@ == old(self)@.step(InputView::Measured(listing@), false).0,
            out@ == old(self)@.step(InputView::Measured(listing@), false).1,
    {
        match self.kind {
            ArchiveKind::Create => {
                self.sizes = listing.sizes;
                self.total_files = listing.total_files;
                self.total_bytes = listing.total_bytes;
                let msgs = self.totals();
                let cmd = self.spawn_command();
                self.artifact = true;
                self.proceed(Phase::Spawning, msgs, ArchiveAction::Spawn(cmd))
            },
            ArchiveKind::Extract => {
                if listing.total_files == 0 {
                    self.fail_with(String::from_str("Archive appears to be empty or corrupted"))
                } else {
                    self.sizes = listing.sizes;
                    self.total_files = listing.total_files;
                    self.total_bytes = listing.total_bytes;
                    self.proceed(
                        Phase::MakingDirectory,
                        no_messages(),
                        ArchiveAction::MakeDirectory,
                    )
                }
            },
        }
    }

    fn stdbuf_probed(&mut self, ok: bool) -> (out: ArchiveStep)
        requires
            old(self)@.phase == Phase::ProbingStdbuf,
        ensures
            final(self)@ == old(self)@.step(InputView::Probed(ok), false).0,
            out@ == old(self)@.step(InputView::Probed(ok), false).1,
    {
        self.has_stdbuf = ok;
        match self.kind {
            ArchiveKind::Create => self.proceed(
                Phase::Measuring,
                preparing("Calculating file sizes..."),
                ArchiveAction::Measure,
            ),
            ArchiveKind::Extract => {
                let cmd = self.list_command();
                self.proceed(
                    Phase::Measuring,
                    preparing("Reading archive contents..."),
                    ArchiveAction::List(cmd),
                )
            },
        }
    }

    /// Takes the report `input` and answers with the events to send and the
    /// next thing to do. `cancelled` says whether the caller has asked the
    /// job to stop; a job told so ends at once. A report that does not fit
    /// where the job stands ends the job in failure.
    pub fn step(&mut self, input: ArchiveInput, cancelled: bool) -> (out: ArchiveStep)
        requires
            old(self)@.wf(),
        ensures
            final(self)@ == old(self)@.step(input@, cancelled).0,
            out@ == old(self)@.step(input@, cancelled).1,
            final(self)@.wf(),
    {
        proof {
            lemma_step_keeps_wf(self@, input@, cancelled);
        }
        if self.phase == Phase::Finished {
            return ArchiveStep {
                messages: no_messages(),
                kill: false,
                cleanup: false,
                action: ArchiveAction::Done,
            };
        }
        if cancelled {
            let done = match &input {
                ArchiveInput::Exited(ExitReport::Success) => self.phase == Phase::Waiting,
                _ => false,
            };
            if !done {
                return self.stop(&input);
            }
        }
        match self.phase {
            Phase::Fresh => match input {
                ArchiveInput::Start => self.proceed(
                    Phase::ProbingStdbuf,
                    preparing("Checking tar command..."),
                    ArchiveAction::Probe(String::from_str("stdbuf")),
                ),
                _ => self.unexpected(),
            },
            Phase::ProbingStdbuf => match input {
                ArchiveInput::Probed(ok) => self.stdbuf_probed(ok),
                _ => self.unexpected(),
            },
            Phase::Measuring => match input {
                ArchiveInput::Measured(listing) => self.measured(listing),
                _ => self.unexpected(),
            },
            Phase::MakingDirectory => match input {
                ArchiveInput::DirectoryMade(r) => match r {
                    None => {
                        let msgs = self.totals();
                        let cmd = self.spawn_command();
                        self.artifact = true;
                        self.proceed(Phase::Spawning, msgs, ArchiveAction::Spawn(cmd))
                    },
                    Some(e) => {
                        let msg = concat2("Failed to create directory: ", e.as_str());
                        self.fail_with(msg)
                    },
                },
                _ => self.unexpected(),
            },
            Phase::Spawning => match input {
                ArchiveInput::Spawned(r) => match r {
                    None => self.proceed(Phase::Reading, no_messages(), ArchiveAction::ReadLine),
                    Some(e) => {
                        let msg = concat2("Failed to run tar: ", e.as_str());
                        self.fail_with(msg)
                    },
                },
                _ => self.unexpected(),
            },
            Phase::Reading => match input {
                ArchiveInput::Line(l) => self.read_line(l),
                _ => self.unexpected(),
            },
            Phase::Waiting => match input {
                ArchiveInput::Exited(r) => self.exited(r),
                _ => self.unexpected(),
            },
            Phase::Finished => self.unexpected(),
        }
    }
}

} // verus!
