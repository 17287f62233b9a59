//! The course of a transfer between two remote hosts. No protocol carries a
//! file from one remote host to another, so the files are staged: first they
//! are fetched into a temporary directory on this machine, then sent on from
//! there. The directory is removed however the job ends.

use vstd::prelude::*;
use crate::archive_job::opt_text;
use crate::batch::{
    cancel_events, cancelled_string, cancelled_text, lemma_next_wanted, next_wanted, FileOutcome,
    OutcomeView,
};
use crate::command::clone_strings;
use crate::progress::{events, stream_closed, stream_open, Event, ProgressMessage};
use crate::text::{append_decimal, append_str, concat2, decimal, string_of, texts};
use crate::transfer::{
    select_transport, transport_of, RemoteProfile, TransferConfig, TransferDirection, Transport,
};
use crate::transfer_job::{file_action, file_action_of, TransferAction, TransferActionView};

verus! {

/// Where a staged transfer stands.
#[derive(Debug, Clone, Copy, PartialEq, Eq, Structural)]
pub enum StagePhase {
    /// Nothing has happened yet.
    Fresh,
    /// The temporary directory is being made.
    MakingTemp,
    /// A file is being fetched from the source host.
    Downloading,
    /// A file is being sent to the target host.
    Uploading,
    /// The job is over.
    Finished,
}

/// What the owner of the job reports to it.
#[derive(Debug, Clone, PartialEq, Eq)]
pub enum StagedInput {
    /// The job may begin.
    Start,
    /// The temporary directory was made anew (`None`), or could not be made
    /// for the reason given, one of which is that it was there already.
    TempMade(Option<String>),
    /// How the file at hand went.
    Outcome(FileOutcome),
}

/// What the owner of the job has to do next.
#[derive(Debug, Clone, PartialEq, Eq)]
pub enum StagedAction {
    /// Make the directory with this path anew, and before it what leads to
    /// it where that is missing. Where something has the path already the
    /// directory counts as not made: it is not the job's own.
    MakeTemp(String),
    /// Carry the file at hand.
    Transfer(TransferAction),
    /// Nothing: the job is over.
    Done,
}

/// The answer of the job to one report.
pub struct StagedStep {
    /// Remove the temporary directory and all that is in it, before
    /// anything else.
    pub remove_temp: bool,
    /// Then send these events, in order.
    pub messages: Vec<ProgressMessage>,
    /// Then do this.
    pub action: StagedAction,
}

pub enum StagedInputView {
    Start,
    TempMade(Option<Seq<char>>),
    Outcome(OutcomeView),
}

pub enum StagedActionView {
    MakeTemp(Seq<char>),
    Transfer(TransferActionView),
    Done,
}

#[verifier::ext_equal]
pub struct StagedStepView {
    pub remove_temp: bool,
    pub events: Seq<Event>,
    pub action: StagedActionView,
}

impl View for StagedInput {
    type V = StagedInputView;

    open spec fn view(&self) -> StagedInputView {
        match *self {
            StagedInput::Start => StagedInputView::Start,
            StagedInput::TempMade(e) => StagedInputView::TempMade(opt_text(e)),
            StagedInput::Outcome(o) => StagedInputView::Outcome(o@),
        }
    }
}

impl View for StagedAction {
    type V = StagedActionView;

    open spec fn view(&self) -> StagedActionView {
        match *self {
            StagedAction::MakeTemp(p) => StagedActionView::MakeTemp(p@),
            StagedAction::Transfer(a) => StagedActionView::Transfer(a@),
            StagedAction::Done => StagedActionView::Done,
        }
    }
}

impl View for StagedStep {
    type V = StagedStepView;

    open spec fn view(&self) -> StagedStepView {
        StagedStepView {
            remove_temp: self.remove_temp,
            events: events(self.messages@),
            action: self.action@,
        }
    }
}

/// The state of a staged transfer.
#[verifier::ext_equal]
pub struct StagedState {
    /// The first leg: from the source host into the temporary directory.
    pub download: TransferConfig,
    /// The second leg: from the temporary directory to the target host.
    pub upload: TransferConfig,
    pub download_transport: Transport,
    pub upload_transport: Transport,
    pub has_sshpass: bool,
    pub home: Option<Seq<char>>,
    pub phase: StagePhase,
    /// The index of the file at hand, while a leg runs.
    pub index: nat,
    /// How many files have reached the target host.
    pub uploaded: nat,
    /// For each file, whether it failed on the first leg: such a file is not
    /// in the temporary directory and is passed over on the second leg.
    pub missed: Seq<bool>,
    /// The temporary directory has been made.
    pub temp_made: bool,
    /// The owner has been told to remove it.
    pub temp_removed: bool,
    /// Every event handed out so far, oldest first.
    pub sent: Seq<Event>,
}

impl StagedState {
    /// The names of the files, as they appear in events.
    pub open spec fn files(self) -> Seq<Seq<char>> {
        texts(self.download.source_files@)
    }

    /// The path of the temporary directory.
    pub open spec fn temp_dir(self) -> Seq<char> {
        self.download.target_path@
    }

    /// What holds of every state a staged transfer can reach.
    pub open spec fn wf(self) -> bool {
        &&& texts(self.upload.source_files@) == self.files()
        &&& self.files().len() <= usize::MAX
        &&& self.missed.len() == self.files().len()
        &&& self.phase == StagePhase::Downloading || self.phase == StagePhase::Uploading
            ==> self.index < self.files().len() && self.temp_made
        &&& self.phase == StagePhase::Downloading ==> self.uploaded == 0
        &&& self.phase == StagePhase::Fresh || self.phase == StagePhase::MakingTemp || self.phase
            == StagePhase::Downloading ==> forall|k: int|
            (if self.phase == StagePhase::Downloading {
                self.index as int
            } else {
                0
            }) <= k < self.missed.len() ==> !#[trigger] self.missed[k]
        &&& self.phase == StagePhase::Uploading ==> self.uploaded <= self.index
            && !self.missed[self.index as int]
        &&& self.phase == StagePhase::Fresh || self.phase == StagePhase::MakingTemp
            ==> !self.temp_made && self.uploaded == 0
        &&& self.uploaded <= self.files().len()
        &&& self.temp_removed ==> self.temp_made && self.phase == StagePhase::Finished
        &&& self.phase == StagePhase::Finished && self.temp_made ==> self.temp_removed
        &&& self.phase == StagePhase::Finished ==> stream_closed(self.sent)
        &&& self.phase != StagePhase::Finished ==> stream_open(self.sent)
    }

    /// What is done for the file with index `i` on the leg `phase`.
    pub open spec fn action_for(self, phase: StagePhase, i: int) -> TransferActionView {
        if phase == StagePhase::Downloading {
            file_action_of(
                self.download,
                self.download_transport,
                self.files()[i],
                self.home,
                self.has_sshpass,
            )
        } else {
            file_action_of(
                self.upload,
                self.upload_transport,
                self.files()[i],
                self.home,
                self.has_sshpass,
            )
        }
    }

    /// The job ends: it hands out `evs` and has the temporary directory
    /// removed where it was made.
    pub open spec fn end(self, evs: Seq<Event>) -> (StagedState, StagedStepView) {
        (
            StagedState {
                phase: StagePhase::Finished,
                temp_removed: self.temp_made,
                sent: self.sent + evs,
                ..self
            },
            StagedStepView {
                remove_temp: self.temp_made,
                events: evs,
                action: StagedActionView::Done,
            },
        )
    }

    /// How many files the job has taken up: on the first leg the files up
    /// to the one at hand, on the second leg all of them.
    pub open spec fn taken_up(self) -> nat {
        match self.phase {
            StagePhase::Downloading => self.index + 1,
            StagePhase::Uploading => self.files().len(),
            _ => 0,
        }
    }

    /// The temporary directory is there once `input` has been taken: it was
    /// before, or `input` is the word that it has been made.
    pub open spec fn made_after(self, input: StagedInputView) -> bool {
        self.temp_made || (self.phase == StagePhase::MakingTemp && input
            == StagedInputView::TempMade(None))
    }

    /// The job ends in failure: after the events `evs`, the files that have
    /// reached the target host count as done, and the other files that the
    /// job has taken up count as failed.
    pub open spec fn fail(self, evs: Seq<Event>) -> (StagedState, StagedStepView) {
        self.end(
            evs.push(
                Event::Completed(
                    self.uploaded as usize,
                    (self.taken_up() - self.uploaded) as usize,
                ),
            ),
        )
    }

    /// The file at hand is done with its leg once `input` has been taken.
    pub open spec fn done_by(self, input: StagedInputView) -> bool {
        (self.phase == StagePhase::Downloading || self.phase == StagePhase::Uploading) && input
            == StagedInputView::Outcome(OutcomeView::Done)
    }

    /// How many files have reached the target host once `input` has been
    /// taken.
    pub open spec fn uploaded_after(self, input: StagedInputView) -> nat {
        if self.phase == StagePhase::Uploading && self.done_by(input) {
            self.uploaded + 1
        } else {
            self.uploaded
        }
    }

    /// The events that end a job which sees, as it takes the report
    /// `input`, that the caller has asked it to stop. A file that the report
    /// says is done is told as done, and counts where it has reached the
    /// target host; a file that is not done is the one that was cut short.
    pub open spec fn stop_events(self, input: StagedInputView) -> Seq<Event> {
        if self.done_by(input) {
            seq![
                Event::FileCompleted(self.current_name()),
                Event::Error(Seq::empty(), cancelled_text()),
                Event::Completed(self.uploaded_after(input) as usize, 0),
            ]
        } else {
            cancel_events(self.current_name(), self.uploaded)
        }
    }

    /// The job ends because the caller has asked it to stop, which it sees
    /// as it takes the report `input`.
    pub open spec fn stop(self, input: StagedInputView) -> (StagedState, StagedStepView) {
        (StagedState {
            temp_made: self.made_after(input),
            uploaded: self.uploaded_after(input),
            ..self
        }).end(self.stop_events(input))
    }

    /// After the events `evs`, the job takes up the file `k` on the leg `leg`.
    pub open spec fn start(self, leg: StagePhase, k: nat, evs: Seq<Event>) -> (
        StagedState,
        StagedStepView,
    ) {
        let all = evs.push(Event::FileStarted(self.files()[k as int]));
        (
            StagedState { phase: leg, index: k, sent: self.sent + all, ..self },
            StagedStepView {
                remove_temp: false,
                events: all,
                action: StagedActionView::Transfer(self.action_for(leg, k as int)),
            },
        )
    }

    /// After the events `evs`, the job goes on with the file with index `i`
    /// of the leg `phase`. On the first leg every file is taken up in turn;
    /// on the second leg the files that failed on the first are passed over.
    /// Where the first leg has no such file the job goes on to the second
    /// leg; where the second leg has none the job ends, and every file is in
    /// one of its two counts: done where it has reached the target host,
    /// failed where it has not.
    pub open spec fn take_up(self, phase: StagePhase, i: nat, evs: Seq<Event>) -> (
        StagedState,
        StagedStepView,
    ) {
        let n = self.files().len();
        if phase == StagePhase::Downloading && i < n {
            self.start(StagePhase::Downloading, i, evs)
        } else {
            let from = if phase == StagePhase::Downloading {
                0nat
            } else {
                i
            };
            let k = next_wanted(self.missed, from);
            if k < n {
                self.start(StagePhase::Uploading, k, evs)
            } else {
                self.end(
                    evs.push(
                        Event::Completed(self.uploaded as usize, (n - self.uploaded) as usize),
                    ),
                )
            }
        }
    }

    /// The name of the file at hand; empty where none is.
    pub open spec fn current_name(self) -> Seq<char> {
        if self.phase == StagePhase::Downloading || self.phase == StagePhase::Uploading {
            self.files()[self.index as int]
        } else {
            Seq::empty()
        }
    }

    /// The state after the report `input`, and the answer to it. `cancelled`
    /// says whether the caller has asked the job to stop.
    pub open spec fn step(self, input: StagedInputView, cancelled: bool) -> (
        StagedState,
        StagedStepView,
    ) {
        if self.phase == StagePhase::Finished {
            (
                self,
                StagedStepView {
                    remove_temp: false,
                    events: Seq::empty(),
                    action: StagedActionView::Done,
                },
            )
        } else if cancelled {
            self.stop(input)
        } else {
            match (self.phase, input) {
                (StagePhase::Fresh, StagedInputView::Start) => {
                    let evs = seq![
                        Event::Preparing(
                            "Transferring "@ + decimal(self.files().len())
                                + " file(s) between remote servers..."@,
                        ),
                    ];
                    (
                        StagedState {
                            phase: StagePhase::MakingTemp,
                            sent: self.sent + evs,
                            ..self
                        },
                        StagedStepView {
                            remove_temp: false,
                            events: evs,
                            action: StagedActionView::MakeTemp(self.temp_dir()),
                        },
                    )
                },
                (StagePhase::MakingTemp, StagedInputView::TempMade(r)) => match r {
                    None => (StagedState { temp_made: true, ..self }).take_up(
                        StagePhase::Downloading,
                        0,
                        seq![Event::PrepareComplete],
                    ),
                    Some(e) => self.fail(
                        seq![Event::Error(Seq::empty(), "Failed to create temp dir: "@ + e)],
                    ),
                },
                (StagePhase::Downloading, StagedInputView::Outcome(o)) => match o {
                    OutcomeView::Done => self.take_up(
                        StagePhase::Downloading,
                        self.index + 1,
                        seq![Event::FileCompleted(self.current_name())],
                    ),
                    OutcomeView::Failed(m) => (StagedState {
                        missed: self.missed.update(self.index as int, true),
                        ..self
                    }).take_up(
                        StagePhase::Downloading,
                        self.index + 1,
                        seq![Event::Error(self.current_name(), m)],
                    ),
                    OutcomeView::Aborted(m) => self.fail(
                        seq![
                            Event::Error(self.current_name(), m),
                            Event::Error(Seq::empty(), "Download failed: "@ + m),
                        ],
                    ),
                    OutcomeView::Interrupted => self.end(
                        cancel_events(self.current_name(), self.uploaded),
                    ),
                },
                (StagePhase::Uploading, StagedInputView::Outcome(o)) => match o {
                    OutcomeView::Done => (StagedState {
                        uploaded: self.uploaded + 1,
                        ..self
                    }).take_up(
                        StagePhase::Uploading,
                        self.index + 1,
                        seq![Event::FileCompleted(self.current_name())],
                    ),
                    OutcomeView::Failed(m) => self.take_up(
                        StagePhase::Uploading,
                        self.index + 1,
                        seq![Event::Error(self.current_name(), m)],
                    ),
                    OutcomeView::Aborted(m) => self.fail(
                        seq![
                            Event::Error(self.current_name(), m),
                            Event::Error(Seq::empty(), "Upload failed: "@ + m),
                        ],
                    ),
                    OutcomeView::Interrupted => self.end(
                        cancel_events(self.current_name(), self.uploaded),
                    ),
                },
                _ => self.fail(seq![Event::Error(Seq::empty(), "Unexpected event"@)]),
            }
        }
    }
}

/// A job that ends closes its event stream and has its directory removed.
proof fn lemma_end_wf(s: StagedState, evs: Seq<Event>)
    requires
        texts(s.upload.source_files@) == s.files(),
        s.files().len() <= usize::MAX,
        s.missed.len() == s.files().len(),
        s.uploaded <= s.files().len(),
        stream_open(s.sent),
        stream_closed(evs),
    ensures
        s.end(evs).0.wf(),
{
    let t = s.sent + evs;
    assert(t.drop_last() == s.sent + evs.drop_last());
    assert(stream_open(t.drop_last()));
}

proof fn lemma_fail_wf(s: StagedState, evs: Seq<Event>)
    requires
        s.wf(),
        s.phase != StagePhase::Finished,
        stream_open(evs),
    ensures
        s.fail(evs).0.wf(),
{
    let all = evs.push(
        Event::Completed(s.uploaded as usize, (s.taken_up() - s.uploaded) as usize),
    );
    assert(all.drop_last() == evs);
    lemma_end_wf(s, all);
}

proof fn lemma_take_up_wf(s: StagedState, phase: StagePhase, i: nat, evs: Seq<Event>)
    requires
        texts(s.upload.source_files@) == s.files(),
        s.files().len() <= usize::MAX,
        s.missed.len() == s.files().len(),
        stream_open(s.sent),
        !s.temp_removed,
        s.temp_made,
        stream_open(evs),
        phase == StagePhase::Downloading || phase == StagePhase::Uploading,
        i <= s.files().len(),
        phase == StagePhase::Downloading ==> s.uploaded == 0,
        phase == StagePhase::Downloading ==> forall|k: int|
            i <= k < s.missed.len() ==> !#[trigger] s.missed[k],
        phase == StagePhase::Uploading ==> s.uploaded <= i,
    ensures
        s.take_up(phase, i, evs).0.wf(),
{
    let n = s.files().len();
    if phase == StagePhase::Downloading && i < n {
        let all = evs.push(Event::FileStarted(s.files()[i as int]));
        assert(stream_open(all));
        assert(stream_open(s.sent + all));
    } else {
        let from = if phase == StagePhase::Downloading {
            0nat
        } else {
            i
        };
        lemma_next_wanted(s.missed, from);
        let k = next_wanted(s.missed, from);
        if k < n {
            let all = evs.push(Event::FileStarted(s.files()[k as int]));
            assert(stream_open(all));
            assert(stream_open(s.sent + all));
        } else {
            let all = evs.push(Event::Completed(s.uploaded as usize, (n - s.uploaded) as usize));
            assert(all.drop_last() == evs);
            lemma_end_wf(s, all);
        }
    }
}

/// Every report keeps a reachable state reachable.
pub proof fn lemma_step_keeps_wf(s: StagedState, input: StagedInputView, cancelled: bool)
    requires
        s.wf(),
    ensures
        s.step(input, cancelled).0.wf(),
{
    if s.phase == StagePhase::Finished {
    } else if cancelled {
        let evs = s.stop_events(input);
        assert(stream_open(evs.drop_last()));
        lemma_end_wf(
            StagedState {
                temp_made: s.made_after(input),
                uploaded: s.uploaded_after(input),
                ..s
            },
            evs,
        );
    } else {
        match (s.phase, input) {
            (StagePhase::Fresh, StagedInputView::Start) => {
                let evs = seq![
                    Event::Preparing(
                        "Transferring "@ + decimal(s.files().len())
                            + " file(s) between remote servers..."@,
                    ),
                ];
                assert(stream_open(s.sent + evs));
            },
            (StagePhase::MakingTemp, StagedInputView::TempMade(r)) => match r {
                None => {
                    lemma_take_up_wf(
                        StagedState { temp_made: true, ..s },
                        StagePhase::Downloading,
                        0,
                        seq![Event::PrepareComplete],
                    );
                },
                Some(e) => {
                    lemma_fail_wf(
                        s,
                        seq![Event::Error(Seq::empty(), "Failed to create temp dir: "@ + e)],
                    );
                },
            },
            (StagePhase::Downloading, StagedInputView::Outcome(o)) => match o {
                OutcomeView::Done => {
                    lemma_take_up_wf(
                        s,
                        StagePhase::Downloading,
                        s.index + 1,
                        seq![Event::FileCompleted(s.current_name())],
                    );
                },
                OutcomeView::Failed(m) => {
                    lemma_take_up_wf(
                        StagedState { missed: s.missed.update(s.index as int, true), ..s },
                        StagePhase::Downloading,
                        s.index + 1,
                        seq![Event::Error(s.current_name(), m)],
                    );
                },
                OutcomeView::Aborted(m) => {
                    lemma_fail_wf(
                        s,
                        seq![
                            Event::Error(s.current_name(), m),
                            Event::Error(Seq::empty(), "Download failed: "@ + m),
                        ],
                    );
                },
                OutcomeView::Interrupted => {
                    let evs = cancel_events(s.current_name(), s.uploaded);
                    assert(stream_open(evs.drop_last()));
                    lemma_end_wf(s, evs);
                },
            },
            (StagePhase::Uploading, StagedInputView::Outcome(o)) => match o {
                OutcomeView::Done => {
                    lemma_take_up_wf(
                        StagedState { uploaded: s.uploaded + 1, ..s },
                        StagePhase::Uploading,
                        s.index + 1,
                        seq![Event::FileCompleted(s.current_name())],
                    );
                },
                OutcomeView::Failed(m) => {
                    lemma_take_up_wf(
                        s,
                        StagePhase::Uploading,
                        s.index + 1,
                        seq![Event::Error(s.current_name(), m)],
                    );
                },
                OutcomeView::Aborted(m) => {
                    lemma_fail_wf(
                        s,
                        seq![
                            Event::Error(s.current_name(), m),
                            Event::Error(Seq::empty(), "Upload failed: "@ + m),
                        ],
                    );
                },
                OutcomeView::Interrupted => {
                    let evs = cancel_events(s.current_name(), s.uploaded);
                    assert(stream_open(evs.drop_last()));
                    lemma_end_wf(s, evs);
                },
            },
            _ => {
                lemma_fail_wf(s, seq![Event::Error(Seq::empty(), "Unexpected event"@)]);
            },
        }
    }
}

/// The state of a staged transfer after the reports `inputs`, each taken
/// with the word on whether the caller has asked the job to stop.
pub open spec fn after_reports(s: StagedState, inputs: Seq<(StagedInputView, bool)>) -> StagedState
    decreases inputs.len(),
{
    if inputs.len() == 0 {
        s
    } else {
        after_reports(s, inputs.drop_last()).step(inputs.last().0, inputs.last().1).0
    }
}

/// Whatever is reported to a staged transfer, in whatever order, it stays
/// in a state that can be reached: its events never hold a second
/// `Completed`, nor anything after the first, and once it is over its
/// temporary directory, if it was made, is asked to be removed.
pub proof fn lemma_every_run_is_well_formed(s: StagedState, inputs: Seq<(StagedInputView, bool)>)
    requires
        s.wf(),
    ensures
        after_reports(s, inputs).wf(),
        after_reports(s, inputs).phase == StagePhase::Finished && after_reports(
            s,
            inputs,
        ).temp_made ==> after_reports(s, inputs).temp_removed,
    decreases inputs.len(),
{
    if inputs.len() > 0 {
        lemma_every_run_is_well_formed(s, inputs.drop_last());
        lemma_step_keeps_wf(
            after_reports(s, inputs.drop_last()),
            inputs.last().0,
            inputs.last().1,
        );
    }
}

/// A staged transfer hands out exactly one `Completed` event, as its last
/// event, and none before it is over.
pub proof fn lemma_staged_one_completed_event(s: StagedState)
    requires
        s.wf(),
    ensures
        s.phase == StagePhase::Finished ==> stream_closed(s.sent),
        s.phase != StagePhase::Finished ==> stream_open(s.sent),
{
}

/// The temporary directory is not there before the job is told that it was
/// made, and once the job is over its removal has been asked for, whether
/// the job succeeded, failed or was cancelled.
pub proof fn lemma_temp_dir_removed(s: StagedState)
    requires
        s.wf(),
    ensures
        s.phase == StagePhase::Fresh || s.phase == StagePhase::MakingTemp ==> !s.temp_made,
        s.phase == StagePhase::Finished && s.temp_made ==> s.temp_removed,
{
}

/// The step that ends a job whose temporary directory was made asks for the
/// directory's removal, whatever the report and whether or not the job was
/// cancelled, also where the very report that ends the job is the word that
/// the directory was made; no other step does.
pub proof fn lemma_last_step_removes_temp(s: StagedState, input: StagedInputView, cancelled: bool)
    requires
        s.wf(),
        s.phase != StagePhase::Finished,
    ensures
        s.step(input, cancelled).1.remove_temp == (s.step(input, cancelled).0.phase
            == StagePhase::Finished && s.made_after(input)),
        s.made_after(input) ==> s.step(input, cancelled).0.temp_made,
{
}

/// The counts of a staged transfer add up. A job that is stopped reports
/// the files that have reached the target host and no failure. Any other
/// job reports as done the files that have reached the target host and as
/// failed the other files that it has taken up. Files never taken up are in
/// neither count.
pub proof fn lemma_staged_counts_add_up(s: StagedState, input: StagedInputView, cancelled: bool)
    requires
        s.wf(),
        s.phase != StagePhase::Finished,
        s.step(input, cancelled).0.phase == StagePhase::Finished,
    ensures
        s.uploaded <= s.taken_up() <= s.files().len(),
        s.uploaded_after(input) <= s.taken_up(),
        cancelled || input == StagedInputView::Outcome(OutcomeView::Interrupted) && (s.phase
            == StagePhase::Downloading || s.phase == StagePhase::Uploading) ==> s.step(
            input,
            cancelled,
        ).1.events.last() == Event::Completed(s.uploaded_after(input) as usize, 0),
        !cancelled && !(input == StagedInputView::Outcome(OutcomeView::Interrupted) && (s.phase
            == StagePhase::Downloading || s.phase == StagePhase::Uploading)) ==> s.step(
            input,
            cancelled,
        ).1.events.last() == Event::Completed(
            s.uploaded_after(input) as usize,
            (s.taken_up() - s.uploaded_after(input)) as usize,
        ),
{
    if !cancelled {
        lemma_staged_exhaustion(s, input);
    }
}

/// One file's failure does not end a staged transfer: the failure is told,
/// and the job goes on with the next file, or ends where none is left. A
/// file that failed on the first leg is not taken up on the second.
pub proof fn lemma_staged_failure_goes_on(s: StagedState, m: Seq<char>)
    requires
        s.wf(),
        s.phase == StagePhase::Downloading || s.phase == StagePhase::Uploading,
    ensures
        s.step(StagedInputView::Outcome(OutcomeView::Failed(m)), false).1.events[0]
            == Event::Error(s.current_name(), m),
        s.step(StagedInputView::Outcome(OutcomeView::Failed(m)), false).0.uploaded == s.uploaded,
        s.phase == StagePhase::Downloading && s.index + 1 < s.files().len() ==> s.step(
            StagedInputView::Outcome(OutcomeView::Failed(m)),
            false,
        ).0.phase == StagePhase::Downloading && s.step(
            StagedInputView::Outcome(OutcomeView::Failed(m)),
            false,
        ).0.index == s.index + 1,
        s.phase == StagePhase::Downloading ==> s.step(
            StagedInputView::Outcome(OutcomeView::Failed(m)),
            false,
        ).0.missed[s.index as int],
        s.step(StagedInputView::Outcome(OutcomeView::Failed(m)), false).0.phase
            == StagePhase::Uploading ==> !s.step(
            StagedInputView::Outcome(OutcomeView::Failed(m)),
            false,
        ).0.missed[s.step(StagedInputView::Outcome(OutcomeView::Failed(m)), false).0.index as int],
{
    lemma_step_keeps_wf(s, StagedInputView::Outcome(OutcomeView::Failed(m)), false);
}

/// A staged transfer that ends because no file is left, neither stopped nor
/// ended by a failure of the transport, has taken up every file, and every
/// file is in one of its two counts: done where it has reached the target
/// host, failed where it has not.
pub proof fn lemma_staged_exhaustion(s: StagedState, input: StagedInputView)
    requires
        s.wf(),
        s.phase != StagePhase::Finished,
        s.step(input, false).0.phase == StagePhase::Finished,
    ensures
        s.done_by(input) || (input is Outcome && input->Outcome_0 is Failed && (s.phase
            == StagePhase::Downloading || s.phase == StagePhase::Uploading)) ==> s.taken_up()
            == s.files().len() && s.step(input, false).1.events.last() == Event::Completed(
            s.uploaded_after(input) as usize,
            (s.files().len() - s.uploaded_after(input)) as usize,
        ),
{
    if s.done_by(input) && s.phase == StagePhase::Downloading {
        lemma_next_wanted(s.missed, 0);
    }
}

/// A file that was fetched is sent on: the job does not end with the last
/// file of the first leg where that file, or one before it, has arrived in
/// the temporary directory, but takes up the first of them on the second
/// leg.
pub proof fn lemma_fetched_files_are_sent_on(s: StagedState)
    requires
        s.wf(),
        s.phase == StagePhase::Downloading,
        s.index + 1 == s.files().len(),
    ensures
        s.step(StagedInputView::Outcome(OutcomeView::Done), false).0.phase
            == StagePhase::Uploading,
        s.step(StagedInputView::Outcome(OutcomeView::Done), false).0.index == next_wanted(
            s.missed,
            0,
        ),
        s.step(StagedInputView::Outcome(OutcomeView::Done), false).0.index <= s.index,
{
    lemma_next_wanted(s.missed, 0);
    assert(!s.missed[s.index as int]);
    if next_wanted(s.missed, 0) > s.index {
        assert(s.missed[s.index as int]);
    }
}

/// A staged transfer all of whose files reach the target host reports every
/// file as done and none as failed.
pub proof fn lemma_staged_success_counts_all(s: StagedState)
    requires
        s.wf(),
        s.phase == StagePhase::Uploading,
        s.uploaded + 1 == s.files().len(),
    ensures
        s.step(StagedInputView::Outcome(OutcomeView::Done), false).0.phase == StagePhase::Finished,
        s.step(StagedInputView::Outcome(OutcomeView::Done), false).1.events.last()
            == Event::Completed(s.files().len() as usize, 0),
{
    lemma_next_wanted(s.missed, s.index + 1);
}


/// A transfer between two remote hosts, staged through this machine.
pub struct StagedJob {
    download: TransferConfig,
    upload: TransferConfig,
    download_transport: Transport,
    upload_transport: Transport,
    has_sshpass: bool,
    home: Option<String>,
    phase: StagePhase,
    index: usize,
    uploaded: usize,
    missed: Vec<bool>,
    temp_made: bool,
    temp_removed: bool,
    sent: Ghost<Seq<Event>>,
}

impl View for StagedJob {
    type V = StagedState;

    closed spec fn view(&self) -> StagedState {
        StagedState {
            download: self.download,
            upload: self.upload,
            download_transport: self.download_transport,
            upload_transport: self.upload_transport,
            has_sshpass: self.has_sshpass,
            home: opt_text(self.home),
            phase: self.phase,
            index: self.index as nat,
            uploaded: self.uploaded as nat,
            missed: self.missed@,
            temp_made: self.temp_made,
            temp_removed: self.temp_removed,
            sent: self.sent@,
        }
    }
}

/// The name of the temporary directory of a job that starts at the time
/// `stamp`, counted in the smallest unit the clock gives.
pub fn staging_dir_name(stamp: u128) -> (name: String)
    ensures
        name@ == "r2r_"@ + decimal(stamp as nat),
{
    let mut out: Vec<char> = Vec::new();
    append_str(&mut out, "r2r_");
    append_decimal(&mut out, stamp);
    string_of(&out)
}

/// Sets up the transfer of `source_files`, paths below `source_base` on the
/// host of `source_profile`, to `target_path` on the host of
/// `target_profile`, staged through the directory `temp_dir` of this machine.
/// `has_sshpass` and `has_rsync` say which tools answered their probes,
/// `home` is the user's home directory. Nothing has happened yet in the job
/// returned: the directory is not made and no event is sent.
pub fn transfer_remote_to_remote_with_progress(
    source_profile: RemoteProfile,
    target_profile: RemoteProfile,
    source_files: Vec<String>,
    source_base: String,
    target_path: String,
    temp_dir: String,
    has_sshpass: bool,
    has_rsync: bool,
    home: Option<String>,
) -> (job: StagedJob)
    ensures
        job@.wf(),
        job@.phase == StagePhase::Fresh,
        job@.sent == Seq::<Event>::empty(),
        !job@.temp_made,
        forall|k: int| 0 <= k < job@.missed.len() ==> !#[trigger] job@.missed[k],
        job@.files() == texts(source_files@),
        job@.temp_dir() == temp_dir@,
        job@.download.direction == TransferDirection::RemoteToLocal,
        job@.download.profile == source_profile,
        job@.download.source_base@ == source_base@,
        job@.upload.direction == TransferDirection::LocalToRemote,
        job@.upload.profile == target_profile,
        job@.upload.source_base@ == temp_dir@,
        job@.upload.target_path@ == target_path@,
        job@.download_transport == transport_of(source_profile, has_sshpass, has_rsync),
        job@.upload_transport == transport_of(target_profile, has_sshpass, has_rsync),
        job@.has_sshpass == has_sshpass,
        job@.home == opt_text(home),
{
    let download_transport = select_transport(&source_profile, has_sshpass, has_rsync);
    let upload_transport = select_transport(&target_profile, has_sshpass, has_rsync);
    let upload_files = clone_strings(&source_files);
    let download = TransferConfig {
        direction: TransferDirection::RemoteToLocal,
        profile: source_profile,
        source_files,
        source_base,
        target_path: temp_dir.clone(),
    };
    let upload = TransferConfig {
        direction: TransferDirection::LocalToRemote,
        profile: target_profile,
        source_files: upload_files,
        source_base: temp_dir,
        target_path,
    };
    assert(texts(download.source_files@).len() == download.source_files@.len());
    let mut missed: Vec<bool> = Vec::new();
    while missed.len() < download.source_files.len()
        invariant
            missed@.len() <= download.source_files@.len(),
            forall|k: int| 0 <= k < missed@.len() ==> !#[trigger] missed@[k],
        decreases download.source_files@.len() - missed@.len(),
    {
        missed.push(false);
    }
    let job = StagedJob {
        download,
        upload,
        download_transport,
        upload_transport,
        has_sshpass,
        home,
        phase: StagePhase::Fresh,
        index: 0,
        uploaded: 0,
        missed,
        temp_made: false,
        temp_removed: false,
        sent: Ghost(Seq::empty()),
    };
    let n = job.download.source_files.len();
    assert(job@.files().len() == n);
    job
}

impl StagedJob {
    /// Whether the job is over.
    pub fn is_finished(&self) -> (r: bool)
        ensures
            r == (self@.phase == StagePhase::Finished),
    {
        self.phase == StagePhase::Finished
    }

    /// Where the job stands. While a file is at hand this tells the leg it
    /// is on, and with it the host that the file is carried from or to.
    pub fn phase(&self) -> (r: StagePhase)
        ensures
            r == self@.phase,
    {
        self.phase
    }

    /// How many files have reached the target host.
    pub fn uploaded(&self) -> (r: usize)
        ensures
            r == self@.uploaded,
    {
        self.uploaded
    }

    fn finish_with(&mut self, msgs: Vec<ProgressMessage>) -> (out: StagedStep)
        ensures
            final(self)@ == old(self)@.end(events(msgs@)).0,
            out@ == old(self)@.end(events(msgs@)).1,
    {
        let remove = self.temp_made;
        self.phase = StagePhase::Finished;
        self.temp_removed = remove;
        proof {
            self.sent@ = self.sent@ + events(msgs@);
        }
        StagedStep { remove_temp: remove, messages: msgs, action: StagedAction::Done }
    }

    fn fail_with(&mut self, msgs: Vec<ProgressMessage>) -> (out: StagedStep)
        requires
            old(self)@.wf(),
            old(self)@.phase != StagePhase::Finished,
        ensures
            final(self)@ == old(self)@.fail(events(msgs@)).0,
            out@ == old(self)@.fail(events(msgs@)).1,
    {
        let mut msgs = msgs;
        let ghost before = events(msgs@);
        assert(texts(self.download.source_files@).len() == self.download.source_files@.len());
        let taken: usize = match self.phase {
            StagePhase::Downloading => self.index + 1,
            StagePhase::Uploading => self.download.source_files.len(),
            _ => 0,
        };
        msgs.push(ProgressMessage::Completed(self.uploaded, taken - self.uploaded));
        assert(events(msgs@) =~= before.push(
            Event::Completed(
                self@.uploaded as usize,
                (self@.taken_up() - self@.uploaded) as usize,
            ),
        ));
        self.finish_with(msgs)
    }

    fn leg_failed(&mut self, leg: &str, reason: String) -> (out: StagedStep)
        requires
            old(self)@.wf(),
            old(self)@.phase == StagePhase::Downloading || old(self)@.phase == StagePhase::Uploading,
        ensures
            final(self)@ == old(self)@.fail(
                seq![
                    Event::Error(old(self)@.current_name(), reason@),
                    Event::Error(Seq::empty(), leg@ + reason@),
                ],
            ).0,
            out@ == old(self)@.fail(
                seq![
                    Event::Error(old(self)@.current_name(), reason@),
                    Event::Error(Seq::empty(), leg@ + reason@),
                ],
            ).1,
    {
        let name = self.current_name();
        let mut msgs: Vec<ProgressMessage> = Vec::new();
        let text = concat2(leg, reason.as_str());
        msgs.push(ProgressMessage::Error(name, reason));
        msgs.push(ProgressMessage::Error(String::new(), text));
        assert(events(msgs@) =~= seq![
            Event::Error(self@.current_name(), reason@),
            Event::Error(Seq::empty(), leg@ + reason@),
        ]);
        self.fail_with(msgs)
    }

    fn current_name(&self) -> (name: String)
        requires
            self@.phase == StagePhase::Downloading || self@.phase == StagePhase::Uploading
                ==> self@.index < self@.files().len(),
        ensures
            name@ == self@.current_name(),
    {
        if self.phase == StagePhase::Downloading || self.phase == StagePhase::Uploading {
            assert(texts(self.download.source_files@).len() == self.download.source_files@.len());
            self.download.source_files[self.index].clone()
        } else {
            String::new()
        }
    }

    fn cancel(&mut self) -> (out: StagedStep)
        requires
            old(self)@.phase == StagePhase::Downloading || old(self)@.phase == StagePhase::Uploading
                ==> old(self)@.index < old(self)@.files().len(),
        ensures
            final(self)@ == old(self)@.end(
                cancel_events(old(self)@.current_name(), old(self)@.uploaded),
            ).0,
            out@ == old(self)@.end(
                cancel_events(old(self)@.current_name(), old(self)@.uploaded),
            ).1,
    {
        let name = self.current_name();
        let mut msgs: Vec<ProgressMessage> = Vec::new();
        msgs.push(ProgressMessage::Error(name, cancelled_string()));
        msgs.push(ProgressMessage::Completed(self.uploaded, 0));
        assert(events(msgs@) =~= cancel_events(self@.current_name(), self@.uploaded));
        self.finish_with(msgs)
    }

    fn start(&mut self, leg: StagePhase, k: usize, msgs: Vec<ProgressMessage>) -> (out: StagedStep)
        requires
            k < old(self)@.files().len(),
            texts(old(self).upload.source_files@) == old(self)@.files(),
        ensures
            final(self)@ == old(self)@.start(leg, k as nat, events(msgs@)).0,
            out@ == old(self)@.start(leg, k as nat, events(msgs@)).1,
    {
        assert(texts(self.download.source_files@).len() == self.download.source_files@.len());
        let mut msgs = msgs;
        let ghost before = events(msgs@);
        msgs.push(ProgressMessage::FileStarted(self.download.source_files[k].clone()));
        assert(events(msgs@) =~= before.push(Event::FileStarted(self@.files()[k as int])));
        let home: Option<&str> = match &self.home {
            Some(h) => Some(h.as_str()),
            None => None,
        };
        let action = if leg == StagePhase::Downloading {
            file_action(
                &self.download,
                self.download_transport,
                self.download.source_files[k].as_str(),
                home,
                self.has_sshpass,
            )
        } else {
            file_action(
                &self.upload,
                self.upload_transport,
                self.download.source_files[k].as_str(),
                home,
                self.has_sshpass,
            )
        };
        self.phase = leg;
        self.index = k;
        proof {
            self.sent@ = self.sent@ + events(msgs@);
        }
        StagedStep { remove_temp: false, messages: msgs, action: StagedAction::Transfer(action) }
    }

    fn take_up(&mut self, phase: StagePhase, i: usize, msgs: Vec<ProgressMessage>) -> (out:
        StagedStep)
        requires
            old(self)@.files().len() <= usize::MAX,
            old(self)@.missed.len() == old(self)@.files().len(),
            old(self)@.uploaded <= old(self)@.files().len(),
            texts(old(self).upload.source_files@) == old(self)@.files(),
            phase == StagePhase::Downloading || phase == StagePhase::Uploading,
            i <= old(self)@.files().len(),
        ensures
            final(self)@ == old(self)@.take_up(phase, i as nat, events(msgs@)).0,
            out@ == old(self)@.take_up(phase, i as nat, events(msgs@)).1,
    {
        let n = self.download.source_files.len();
        assert(texts(self.download.source_files@).len() == self.download.source_files@.len());
        if phase == StagePhase::Downloading && i < n {
            return self.start(StagePhase::Downloading, i, msgs);
        }
        let from: usize = if phase == StagePhase::Downloading {
            0
        } else {
            i
        };
        let mut k: usize = from;
        while k < n && self.missed[k]
            invariant
                from <= k <= n,
                n == self.missed@.len(),
                next_wanted(self.missed@, from as nat) == next_wanted(self.missed@, k as nat),
            decreases n - k,
        {
            k += 1;
        }
        assert(next_wanted(self.missed@, from as nat) == k);
        if k < n {
            self.start(StagePhase::Uploading, k, msgs)
        } else {
            let mut msgs = msgs;
            let ghost before = events(msgs@);
            msgs.push(ProgressMessage::Completed(self.uploaded, n - self.uploaded));
            assert(events(msgs@) =~= before.push(
                Event::Completed(self@.uploaded as usize, (n - self@.uploaded) as usize),
            ));
            self.finish_with(msgs)
        }
    }

    fn file_failed(&self, reason: String) -> (msgs: Vec<ProgressMessage>)
        requires
            self@.wf(),
        ensures
            events(msgs@) == seq![Event::Error(self@.current_name(), reason@)],
    {
        let mut msgs: Vec<ProgressMessage> = Vec::new();
        msgs.push(ProgressMessage::Error(self.current_name(), reason));
        assert(events(msgs@) =~= seq![Event::Error(self@.current_name(), reason@)]);
        msgs
    }

    fn file_completed(&self) -> (msgs: Vec<ProgressMessage>)
        requires
            self@.wf(),
        ensures
            events(msgs@) == seq![Event::FileCompleted(self@.current_name())],
    {
        let mut msgs: Vec<ProgressMessage> = Vec::new();
        msgs.push(ProgressMessage::FileCompleted(self.current_name()));
        assert(events(msgs@) =~= seq![Event::FileCompleted(self@.current_name())]);
        msgs
    }

    fn unexpected(&mut self) -> (out: StagedStep)
        requires
            old(self)@.wf(),
            old(self)@.phase != StagePhase::Finished,
        ensures
            final(self)@ == old(self)@.fail(
                seq![Event::Error(Seq::empty(), "Unexpected event"@)],
            ).0,
            out@ == old(self)@.fail(seq![Event::Error(Seq::empty(), "Unexpected event"@)]).1,
    {
        let mut msgs: Vec<ProgressMessage> = Vec::new();
        msgs.push(ProgressMessage::Error(String::new(), String::from_str("Unexpected event")));
        assert(events(msgs@) =~= seq![Event::Error(Seq::empty(), "Unexpected event"@)]);
        self.fail_with(msgs)
    }

    /// Takes the report `input` and answers with the events to send and the
    /// next thing to do. `cancelled` says whether the caller has asked the
    /// job to stop; a job told so ends at once. One file's failure is told
    /// and the job goes on: a file that failed on the first leg is passed
    /// over on the second. A failure of the transport ends the job, and so
    /// does a report that does not fit where the job stands.
    pub fn step(&mut self, input: StagedInput, cancelled: bool) -> (out: StagedStep)
        requires
            old(self)@.wf(),
        ensures
            final(self)@ == old(self)@.step(input@, cancelled).0,
            out@ == old(self)@.step(input@, cancelled).1,
            final(self)@.wf(),
    {
        proof {
            lemma_step_keeps_wf(self@, input@, cancelled);
        }
        if self.phase == StagePhase::Finished {
            let msgs: Vec<ProgressMessage> = Vec::new();
            assert(events(msgs@) =~= Seq::<Event>::empty());
            return StagedStep { remove_temp: false, messages: msgs, action: StagedAction::Done };
        }
        if cancelled {
            let made = match &input {
                StagedInput::TempMade(None) => self.phase == StagePhase::MakingTemp,
                _ => false,
            };
            if made {
                self.temp_made = true;
            }
            let on_a_leg = self.phase == StagePhase::Downloading || self.phase
                == StagePhase::Uploading;
            let done = match &input {
                StagedInput::Outcome(FileOutcome::Done) => on_a_leg,
                _ => false,
            };
            if !done {
                assert(self@ == (StagedState {
                    temp_made: old(self)@.made_after(input@),
                    uploaded: old(self)@.uploaded_after(input@),
                    ..old(self)@
                }));
                return self.cancel();
            }
            let name = self.current_name();
            if self.phase == StagePhase::Uploading {
                self.uploaded = self.uploaded + 1;
            }
            let mut msgs: Vec<ProgressMessage> = Vec::new();
            msgs.push(ProgressMessage::FileCompleted(name));
            msgs.push(ProgressMessage::Error(String::new(), cancelled_string()));
            msgs.push(ProgressMessage::Completed(self.uploaded, 0));
            assert(events(msgs@) =~= old(self)@.stop_events(input@));
            assert(self@ == (StagedState {
                temp_made: old(self)@.made_after(input@),
                uploaded: old(self)@.uploaded_after(input@),
                ..old(self)@
            }));
            return self.finish_with(msgs);
        }
        match self.phase {
            StagePhase::Fresh => match input {
                StagedInput::Start => {
                    assert(texts(self.download.source_files@).len()
                        == self.download.source_files@.len());
                    let mut text: Vec<char> = Vec::new();
                    append_str(&mut text, "Transferring ");
                    append_decimal(&mut text, self.download.source_files.len() as u128);
                    append_str(&mut text, " file(s) between remote servers...");
                    let mut msgs: Vec<ProgressMessage> = Vec::new();
                    msgs.push(ProgressMessage::Preparing(string_of(&text)));
                    assert(events(msgs@) =~= seq![
                        Event::Preparing(
                            "Transferring "@ + decimal(self@.files().len())
                                + " file(s) between remote servers..."@,
                        ),
                    ]);
                    self.phase = StagePhase::MakingTemp;
                    proof {
                        self.sent@ = self.sent@ + events(msgs@);
                    }
                    StagedStep {
                        remove_temp: false,
                        messages: msgs,
                        action: StagedAction::MakeTemp(self.download.target_path.clone()),
                    }
                },
                _ => self.unexpected(),
            },
            StagePhase::MakingTemp => match input {
                StagedInput::TempMade(r) => match r {
                    None => {
                        self.temp_made = true;
                        let mut msgs: Vec<ProgressMessage> = Vec::new();
                        msgs.push(ProgressMessage::PrepareComplete);
                        assert(events(msgs@) =~= seq![Event::PrepareComplete]);
                        self.take_up(StagePhase::Downloading, 0, msgs)
                    },
                    Some(e) => {
                        let mut msgs: Vec<ProgressMessage> = Vec::new();
                        let text = concat2("Failed to create temp dir: ", e.as_str());
                        msgs.push(ProgressMessage::Error(String::new(), text));
                        assert(events(msgs@) =~= seq![
                            Event::Error(Seq::empty(), "Failed to create temp dir: "@ + e@),
                        ]);
                        self.fail_with(msgs)
                    },
                },
                _ => self.unexpected(),
            },
            StagePhase::Downloading => match input {
                StagedInput::Outcome(o) => match o {
                    FileOutcome::Done => {
                        let msgs = self.file_completed();
                        let i = self.index + 1;
                        self.take_up(StagePhase::Downloading, i, msgs)
                    },
                    FileOutcome::Failed(m) => {
                        let msgs = self.file_failed(m);
                        let i = self.index + 1;
                        self.missed.set(self.index, true);
                        self.take_up(StagePhase::Downloading, i, msgs)
                    },
                    FileOutcome::Aborted(m) => self.leg_failed("Download failed: ", m),
                    FileOutcome::Interrupted => self.cancel(),
                },
                _ => self.unexpected(),
            },
            StagePhase::Uploading => match input {
                StagedInput::Outcome(o) => match o {
                    FileOutcome::Done => {
                        let msgs = self.file_completed();
                        let i = self.index + 1;
                        self.uploaded = self.uploaded + 1;
                        self.take_up(StagePhase::Uploading, i, msgs)
                    },
                    FileOutcome::Failed(m) => {
                        let msgs = self.file_failed(m);
                        let i = self.index + 1;
                        self.take_up(StagePhase::Uploading, i, msgs)
                    },
                    FileOutcome::Aborted(m) => self.leg_failed("Upload failed: ", m),
                    FileOutcome::Interrupted => self.cancel(),
                },
                _ => self.unexpected(),
            },
            StagePhase::Finished => self.unexpected(),
        }
    }
}

} // verus!
