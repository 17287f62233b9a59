//! The bookkeeping of a batch job: which entry is taken up next, what is
//! counted as done or failed, which events go to the caller, and when the one
//! `Completed` event is due.
//!
//! The job does no work itself. Its owner asks it for the next entry, does
//! the work (a copy, a move, a transfer), and reports how it went.

use vstd::prelude::*;
use crate::progress::{
    after_events, lemma_closed_stream_gives_result, stream_closed, stream_open, Event,
    ProgressMessage, ProgressState,
};

verus! {

/// How the work on one entry ended.
#[derive(Debug, Clone, PartialEq, Eq)]
pub enum FileOutcome {
    /// The entry is done.
    Done,
    /// The entry failed for the reason given; the batch goes on.
    Failed(String),
    /// The entry failed for a reason that ends the batch (the connection was
    /// refused, the login rejected, the tool could not be started).
    Aborted(String),
    /// The work was cut short because the job was cancelled.
    Interrupted,
}

/// What the owner of a batch has to do next.
#[derive(Debug, Clone, Copy, PartialEq, Eq, Structural)]
pub enum BatchStep {
    /// Work on the entry with this index, then report its outcome.
    Run(usize),
    /// Nothing is left to do.
    Finished,
}

/// The state of a batch job, with texts as character sequences.
pub struct BatchState {
    /// The name under which each entry appears in events.
    pub names: Seq<Seq<char>>,
    /// For each entry, whether it is left out.
    pub skip: Seq<bool>,
    /// The entries before this index have been taken up or left out.
    pub next: nat,
    /// The entry before `next` is being worked on.
    pub running: bool,
    /// How many entries were taken up.
    pub attempted: nat,
    pub success: nat,
    pub failure: nat,
    /// The job was ended by cancellation.
    pub cancelled: bool,
    /// The `Completed` event has been handed out.
    pub finished: bool,
    /// The size of each entry in bytes, as far as the job was told.
    pub sizes: Seq<u64>,
    /// The job was told the sizes and reports totals after every entry done.
    pub totals: bool,
    /// The bytes of the entries done.
    pub done_bytes: u64,
    /// How many entries are not left out, and their bytes in all, where the
    /// job was told the sizes.
    pub total_files: usize,
    pub total_bytes: u64,
    /// Every event handed out so far, oldest first.
    pub sent: Seq<Event>,
}

/// The text of the error event that marks a cancelled job.
pub open spec fn cancelled_text() -> Seq<char> {
    "Cancelled"@
}

/// The events that end a job stopped by cancellation, for the entry named
/// `name` (empty where no entry was at hand), after `success` entries were done.
pub open spec fn cancel_events(name: Seq<char>, success: nat) -> Seq<Event> {
    seq![Event::Error(name, cancelled_text()), Event::Completed(success as usize, 0)]
}

/// The sum of `a` and `b`, or the largest number where the sum does not fit.
pub open spec fn capped_sum(a: u64, b: u64) -> u64 {
    if a + b > u64::MAX {
        u64::MAX
    } else {
        (a + b) as u64
    }
}

/// How many of the first `upto` entries are not left out.
pub open spec fn wanted_count(skip: Seq<bool>, upto: nat) -> nat
    decreases upto,
{
    if upto == 0 || upto > skip.len() {
        0
    } else if skip[upto - 1] {
        wanted_count(skip, (upto - 1) as nat)
    } else {
        wanted_count(skip, (upto - 1) as nat) + 1
    }
}

/// The bytes of those of the first `upto` entries that are not left out,
/// capped at the largest number.
pub open spec fn wanted_bytes(skip: Seq<bool>, sizes: Seq<u64>, upto: nat) -> u64
    decreases upto,
{
    if upto == 0 || upto > skip.len() || upto > sizes.len() {
        0
    } else if skip[upto - 1] {
        wanted_bytes(skip, sizes, (upto - 1) as nat)
    } else {
        capped_sum(wanted_bytes(skip, sizes, (upto - 1) as nat), sizes[upto - 1])
    }
}

/// The first index at or after `from` of an entry that is not left out; the
/// number of entries where there is none.
pub open spec fn next_wanted(skip: Seq<bool>, from: nat) -> nat
    decreases skip.len() - from,
{
    if from >= skip.len() {
        skip.len()
    } else if !skip[from as int] {
        from
    } else {
        next_wanted(skip, from + 1)
    }
}

impl BatchState {
    /// The state of a batch nothing has been done of.
    pub open spec fn initial(names: Seq<Seq<char>>, skip: Seq<bool>) -> BatchState {
        BatchState {
            names,
            skip,
            next: 0,
            running: false,
            attempted: 0,
            success: 0,
            failure: 0,
            cancelled: false,
            finished: false,
            sizes: Seq::new(names.len(), |i: int| 0u64),
            totals: false,
            done_bytes: 0,
            total_files: 0,
            total_bytes: 0,
            sent: Seq::empty(),
        }
    }

    /// The event that reports the totals with `done` entries and
    /// `done_bytes` bytes done.
    pub open spec fn totals_event(self, done: nat, done_bytes: u64) -> Event {
        Event::TotalProgress(done as usize, self.total_files, done_bytes, self.total_bytes)
    }

    /// The state of a batch that was told the sizes of its entries before
    /// anything was done of it: it has handed out the totals to begin with.
    pub open spec fn measured(self, sizes: Seq<u64>) -> BatchState {
        let total_files = wanted_count(self.skip, self.skip.len()) as usize;
        let total_bytes = wanted_bytes(self.skip, sizes, self.skip.len());
        BatchState {
            sizes,
            totals: true,
            total_files,
            total_bytes,
            sent: self.sent.push(Event::TotalProgress(0, total_files, 0, total_bytes)),
            ..self
        }
    }

    /// Nothing has been done of the batch, and it was not told any sizes.
    pub open spec fn untouched(self) -> bool {
        &&& self.next == 0
        &&& !self.running
        &&& !self.finished
        &&& !self.totals
    }

    /// What holds of every state a batch can reach.
    pub open spec fn wf(self) -> bool {
        &&& self.names.len() == self.skip.len()
        &&& self.sizes.len() == self.names.len()
        &&& self.totals ==> self.total_files == wanted_count(self.skip, self.skip.len())
            && self.total_bytes == wanted_bytes(self.skip, self.sizes, self.skip.len())
        &&& self.names.len() <= usize::MAX
        &&& self.next <= self.names.len()
        &&& self.attempted <= self.next
        &&& self.attempted == wanted_count(self.skip, self.next)
        &&& self.running ==> self.next > 0 && !self.finished && !self.skip[self.next - 1]
        &&& self.cancelled ==> self.finished
        &&& self.success + self.failure + (if self.running { 1nat } else { 0 }) <= self.attempted
        &&& !self.cancelled ==> self.success + self.failure + (if self.running { 1nat } else { 0 })
            == self.attempted
        &&& self.finished ==> stream_closed(self.sent) && self.sent.last() == Event::Completed(
            self.success as usize,
            if self.cancelled { 0 } else { self.failure as usize },
        )
        &&& !self.finished ==> stream_open(self.sent)
    }

    /// The events handed out when the owner asks for the next entry.
    pub open spec fn begin_events(self, cancelled: bool) -> Seq<Event> {
        if self.finished || self.running {
            Seq::empty()
        } else if cancelled {
            cancel_events(Seq::empty(), self.success)
        } else if next_wanted(self.skip, self.next) >= self.names.len() {
            seq![Event::Completed(self.success as usize, self.failure as usize)]
        } else {
            seq![Event::FileStarted(self.names[next_wanted(self.skip, self.next) as int])]
        }
    }

    /// The state after the owner has asked for the next entry.
    pub open spec fn after_begin(self, cancelled: bool) -> BatchState {
        let sent = self.sent + self.begin_events(cancelled);
        if self.finished || self.running {
            self
        } else if cancelled {
            BatchState { cancelled: true, finished: true, sent, ..self }
        } else if next_wanted(self.skip, self.next) >= self.names.len() {
            BatchState { next: self.names.len(), finished: true, sent, ..self }
        } else {
            BatchState {
                next: next_wanted(self.skip, self.next) + 1,
                running: true,
                attempted: self.attempted + 1,
                sent,
                ..self
            }
        }
    }

    /// What the owner is told to do when it asks for the next entry.
    pub open spec fn begin_step(self, cancelled: bool) -> BatchStep {
        if self.finished {
            BatchStep::Finished
        } else if self.running {
            BatchStep::Run((self.next - 1) as usize)
        } else if cancelled || next_wanted(self.skip, self.next) >= self.names.len() {
            BatchStep::Finished
        } else {
            BatchStep::Run(next_wanted(self.skip, self.next) as usize)
        }
    }

    /// The events handed out when the owner reports how the entry at hand went.
    pub open spec fn finish_events(self, outcome: OutcomeView) -> Seq<Event> {
        if !self.running {
            Seq::empty()
        } else {
            let name = self.names[self.next - 1];
            match outcome {
                OutcomeView::Done => if self.totals {
                    seq![
                        Event::FileCompleted(name),
                        self.totals_event(
                            self.success + 1,
                            capped_sum(self.done_bytes, self.sizes[self.next - 1]),
                        ),
                    ]
                } else {
                    seq![Event::FileCompleted(name)]
                },
                OutcomeView::Failed(e) => seq![Event::Error(name, e)],
                OutcomeView::Aborted(e) => seq![
                    Event::Error(name, e),
                    Event::Completed(self.success as usize, (self.failure + 1) as usize),
                ],
                OutcomeView::Interrupted => cancel_events(name, self.success),
            }
        }
    }

    /// The state after the owner has reported how the entry at hand went.
    pub open spec fn after_finish(self, outcome: OutcomeView) -> BatchState {
        let sent = self.sent + self.finish_events(outcome);
        if !self.running {
            self
        } else {
            match outcome {
                OutcomeView::Done => BatchState {
                    running: false,
                    success: self.success + 1,
                    done_bytes: if self.totals {
                        capped_sum(self.done_bytes, self.sizes[self.next - 1])
                    } else {
                        self.done_bytes
                    },
                    sent,
                    ..self
                },
                OutcomeView::Failed(_) => BatchState {
                    running: false,
                    failure: self.failure + 1,
                    sent,
                    ..self
                },
                OutcomeView::Aborted(_) => BatchState {
                    running: false,
                    failure: self.failure + 1,
                    finished: true,
                    sent,
                    ..self
                },
                OutcomeView::Interrupted => BatchState {
                    running: false,
                    cancelled: true,
                    finished: true,
                    sent,
                    ..self
                },
            }
        }
    }
}

/// A `FileOutcome` with its text as a character sequence.
pub enum OutcomeView {
    Done,
    Failed(Seq<char>),
    Aborted(Seq<char>),
    Interrupted,
}

impl View for FileOutcome {
    type V = OutcomeView;

    open spec fn view(&self) -> OutcomeView {
        match *self {
            FileOutcome::Done => OutcomeView::Done,
            FileOutcome::Failed(e) => OutcomeView::Failed(e@),
            FileOutcome::Aborted(e) => OutcomeView::Aborted(e@),
            FileOutcome::Interrupted => OutcomeView::Interrupted,
        }
    }
}

/// The texts of `names` as character sequences.
pub open spec fn name_views(names: Seq<String>) -> Seq<Seq<char>> {
    names.map_values(|s: String| s@)
}

/// `next_wanted` finds an entry that is not left out, and passes over none.
pub proof fn lemma_next_wanted(skip: Seq<bool>, from: nat)
    requires
        from <= skip.len(),
    ensures
        from <= next_wanted(skip, from) <= skip.len(),
        next_wanted(skip, from) < skip.len() ==> !skip[next_wanted(skip, from) as int],
        forall|i: int| from <= i < next_wanted(skip, from) ==> #[trigger] skip[i],
    decreases skip.len() - from,
{
    if from < skip.len() && skip[from as int] {
        lemma_next_wanted(skip, from + 1);
    }
}

/// Entries that are left out do not count: where every entry from `from`
/// up to `upto` is left out, as many entries are wanted among the first
/// `upto` as among the first `from`.
pub proof fn lemma_left_out_do_not_count(skip: Seq<bool>, from: nat, upto: nat)
    requires
        from <= upto <= skip.len(),
        forall|i: int| from <= i < upto ==> #[trigger] skip[i],
    ensures
        wanted_count(skip, upto) == wanted_count(skip, from),
    decreases upto - from,
{
    if from < upto {
        lemma_left_out_do_not_count(skip, from, (upto - 1) as nat);
    }
}

/// Asking for the next entry keeps a reachable state reachable.
pub proof fn lemma_begin_keeps_wf(s: BatchState, cancelled: bool)
    requires
        s.wf(),
    ensures
        s.after_begin(cancelled).wf(),
{
    lemma_next_wanted(s.skip, s.next);
    let t = s.after_begin(cancelled);
    if !(s.finished || s.running) {
        if !cancelled {
            let k = next_wanted(s.skip, s.next);
            lemma_left_out_do_not_count(s.skip, s.next, k);
            if k < s.names.len() {
                assert(wanted_count(s.skip, k + 1) == wanted_count(s.skip, k) + 1);
            }
        }
        if cancelled || next_wanted(s.skip, s.next) >= s.names.len() {
            assert(t.sent.drop_last() == s.sent + t.sent.subrange(
                s.sent.len() as int,
                t.sent.len() - 1,
            ));
            assert(stream_open(t.sent.drop_last()));
        } else {
            assert(stream_open(t.sent));
        }
    }
}

/// Reporting an outcome keeps a reachable state reachable.
pub proof fn lemma_finish_keeps_wf(s: BatchState, outcome: OutcomeView)
    requires
        s.wf(),
    ensures
        s.after_finish(outcome).wf(),
{
    let t = s.after_finish(outcome);
    if s.running {
        match outcome {
            OutcomeView::Done => {
                assert(stream_open(t.sent));
            },
            OutcomeView::Failed(_) => {
                assert(stream_open(t.sent));
            },
            OutcomeView::Aborted(_) => {
                assert(t.sent.drop_last() == s.sent.push(t.sent[s.sent.len() as int]));
                assert(stream_open(t.sent.drop_last()));
            },
            OutcomeView::Interrupted => {
                assert(t.sent.drop_last() == s.sent.push(t.sent[s.sent.len() as int]));
                assert(stream_open(t.sent.drop_last()));
            },
        }
    }
}

/// One thing that the owner of a batch does with it.
pub enum BatchMove {
    /// It asks for the next entry, having seen or not seen a request to stop.
    Begin(bool),
    /// It reports how the entry at hand went.
    Finish(OutcomeView),
}

/// The state of a batch after its owner has done `moves`, one after the other.
pub open spec fn after_moves(s: BatchState, moves: Seq<BatchMove>) -> BatchState
    decreases moves.len(),
{
    if moves.len() == 0 {
        s
    } else {
        let before = after_moves(s, moves.drop_last());
        match moves.last() {
            BatchMove::Begin(cancelled) => before.after_begin(cancelled),
            BatchMove::Finish(outcome) => before.after_finish(outcome),
        }
    }
}

/// Whatever its owner does, in whatever order, a batch stays in a state
/// that can be reached: in particular its events never hold a second
/// `Completed`, nor anything after the first.
pub proof fn lemma_every_run_is_well_formed(
    names: Seq<Seq<char>>,
    skip: Seq<bool>,
    moves: Seq<BatchMove>,
)
    requires
        names.len() == skip.len(),
        names.len() <= usize::MAX,
    ensures
        after_moves(BatchState::initial(names, skip), moves).wf(),
        after_moves(BatchState::initial(names, skip), moves).finished ==> stream_closed(
            after_moves(BatchState::initial(names, skip), moves).sent,
        ),
        !after_moves(BatchState::initial(names, skip), moves).finished ==> stream_open(
            after_moves(BatchState::initial(names, skip), moves).sent,
        ),
    decreases moves.len(),
{
    let start = BatchState::initial(names, skip);
    if moves.len() > 0 {
        lemma_every_run_is_well_formed(names, skip, moves.drop_last());
        let before = after_moves(start, moves.drop_last());
        match moves.last() {
            BatchMove::Begin(cancelled) => lemma_begin_keeps_wf(before, cancelled),
            BatchMove::Finish(outcome) => lemma_finish_keeps_wf(before, outcome),
        }
    }
}

/// A batch hands out exactly one `Completed` event, as its last event, and
/// none before it is over.
pub proof fn lemma_one_completed_event(s: BatchState)
    requires
        s.wf(),
    ensures
        s.finished ==> stream_closed(s.sent),
        !s.finished ==> stream_open(s.sent),
{
}

/// Once a batch is over it hands out no further event and asks for no further
/// work, whatever it is asked or told.
pub proof fn lemma_finished_is_final(s: BatchState, cancelled: bool, outcome: OutcomeView)
    requires
        s.wf(),
        s.finished,
    ensures
        s.after_begin(cancelled) == s,
        s.begin_step(cancelled) == BatchStep::Finished,
        s.after_finish(outcome) == s,
{
}

/// The counts of the `Completed` event of a batch that was not cancelled add
/// up to the number of entries taken up.
pub proof fn lemma_counts_add_up(s: BatchState)
    requires
        s.wf(),
        s.finished,
        !s.cancelled,
    ensures
        s.sent.last() == Event::Completed(s.success as usize, s.failure as usize),
        s.success + s.failure == s.attempted,
{
}

/// A batch that ends because nothing is left, neither cancelled nor ended
/// by a failure, has taken up every entry that is not left out, and each of
/// them is in one of its two counts.
pub proof fn lemma_exhausted_batch_took_up_all(s: BatchState)
    requires
        s.wf(),
        !s.finished,
        s.after_begin(false).finished,
    ensures
        s.begin_step(false) == BatchStep::Finished,
        s.after_begin(false).attempted == wanted_count(s.skip, s.skip.len()),
        s.after_begin(false).success + s.after_begin(false).failure == wanted_count(
            s.skip,
            s.skip.len(),
        ),
        s.after_begin(false).sent.last() == Event::Completed(
            s.after_begin(false).success as usize,
            s.after_begin(false).failure as usize,
        ),
{
    lemma_begin_keeps_wf(s, false);
}

/// Whoever reads all the events of a batch that ran to its end without
/// being cancelled finds the job over, with a result whose counts add up
/// to the number of entries taken up.
pub proof fn lemma_reader_sees_the_counts(s: BatchState, p: ProgressState)
    requires
        s.wf(),
        s.finished,
        !s.cancelled,
        p.is_active,
    ensures
        !after_events(p, s.sent).is_active,
        after_events(p, s.sent).result matches Some(r) && r.success_count == s.success
            && r.failure_count == s.failure && r.success_count + r.failure_count == s.attempted,
{
    lemma_closed_stream_gives_result(p, s.sent);
}

/// The counts of the `Completed` event never exceed the number of entries
/// taken up, cancelled or not; and no more entries are taken up than there are.
pub proof fn lemma_counts_bounded(s: BatchState)
    requires
        s.wf(),
        s.finished,
    ensures
        s.sent.last() matches Event::Completed(done, failed) && done + failed <= s.attempted,
        s.attempted <= s.names.len(),
{
}

/// Once the caller has asked the job to stop, no further entry is taken up.
pub proof fn lemma_cancelled_starts_nothing(s: BatchState)
    requires
        s.wf(),
        !s.running,
    ensures
        s.begin_step(true) == BatchStep::Finished,
        s.after_begin(true).attempted == s.attempted,
        s.after_begin(true).finished,
{
}

/// The events of one entry come in order: first that it started, then,
/// when its outcome is reported, either that it is done or an error that
/// names it.
pub proof fn lemma_started_then_settled(s: BatchState, outcome: OutcomeView)
    requires
        s.wf(),
        s.begin_step(false) is Run,
        !s.running,
    ensures
        ({
            let k = s.begin_step(false)->Run_0 as int;
            let t = s.after_begin(false);
            &&& s.begin_events(false) == seq![Event::FileStarted(s.names[k])]
            &&& t.running
            &&& t.finish_events(outcome).len() > 0
            &&& outcome is Done ==> t.finish_events(outcome)[0] == Event::FileCompleted(s.names[k])
            &&& !(outcome is Done) ==> t.finish_events(outcome)[0] is Error
                && t.finish_events(outcome)[0]->Error_0 == s.names[k]
        }),
{
    lemma_next_wanted(s.skip, s.next);
}

/// A batch all of whose entries are left out takes none up: its first answer
/// is that nothing is left to do, and its only event is `Completed(0, 0)`.
pub proof fn lemma_all_skipped_runs_nothing(names: Seq<Seq<char>>, skip: Seq<bool>)
    requires
        names.len() == skip.len(),
        forall|i: int| 0 <= i < skip.len() ==> #[trigger] skip[i],
    ensures
        BatchState::initial(names, skip).begin_step(false) == BatchStep::Finished,
        BatchState::initial(names, skip).after_begin(false).attempted == 0,
        BatchState::initial(names, skip).after_begin(false).sent == seq![Event::Completed(0, 0)],
{
    lemma_next_wanted(skip, 0);
    let k = next_wanted(skip, 0);
    if k < skip.len() {
        assert(skip[k as int]);
    }
}

/// A batch job: a list of entries, some of them left out, worked on one
/// after the other.
pub struct BatchJob {
    names: Vec<String>,
    skip: Vec<bool>,
    next: usize,
    running: bool,
    attempted: usize,
    success: usize,
    failure: usize,
    cancelled: bool,
    finished: bool,
    sizes: Vec<u64>,
    totals: bool,
    done_bytes: u64,
    total_files: usize,
    total_bytes: u64,
    sent: Ghost<Seq<Event>>,
}

impl View for BatchJob {
    type V = BatchState;

    closed spec fn view(&self) -> BatchState {
        BatchState {
            names: name_views(self.names@),
            skip: self.skip@,
            next: self.next as nat,
            running: self.running,
            attempted: self.attempted as nat,
            success: self.success as nat,
            failure: self.failure as nat,
            cancelled: self.cancelled,
            finished: self.finished,
            sizes: self.sizes@,
            totals: self.totals,
            done_bytes: self.done_bytes,
            total_files: self.total_files,
            total_bytes: self.total_bytes,
            sent: self.sent@,
        }
    }
}

fn zeros(n: usize) -> (v: Vec<u64>)
    ensures
        v@ == Seq::new(n as nat, |i: int| 0u64),
{
    let mut v: Vec<u64> = Vec::new();
    while v.len() < n
        invariant
            v.len() <= n,
            forall|i: int| 0 <= i < v.len() ==> v[i] == 0,
        decreases n - v.len(),
    {
        v.push(0);
    }
    assert(v@ =~= Seq::new(n as nat, |i: int| 0u64));
    v
}

impl BatchJob {
    /// A batch over the entries `names`, of which those marked in `skip` are
    /// left out. `None` where the two lists differ in length.
    pub fn new(names: Vec<String>, skip: Vec<bool>) -> (job: Option<BatchJob>)
        ensures
            job is Some <==> names.len() == skip.len(),
            job matches Some(j) ==> j@ == BatchState::initial(name_views(names@), skip@) && j@.wf(),
    {
        if names.len() != skip.len() {
            return None;
        }
        let sizes = zeros(names.len());
        let job = BatchJob {
            names,
            skip,
            next: 0,
            running: false,
            attempted: 0,
            success: 0,
            failure: 0,
            cancelled: false,
            finished: false,
            sizes,
            totals: false,
            done_bytes: 0,
            total_files: 0,
            total_bytes: 0,
            sent: Ghost(Seq::empty()),
        };
        assert(name_views(job.names@).len() == job.names@.len());
        Some(job)
    }

    /// A batch over the entries `names`, none of them left out.
    pub fn all_of(names: Vec<String>) -> (job: BatchJob)
        ensures
            job@ == BatchState::initial(
                name_views(names@),
                Seq::new(names@.len(), |i: int| false),
            ),
            job@.wf(),
    {
        let n = names.len();
        let mut skip: Vec<bool> = Vec::new();
        while skip.len() < n
            invariant
                skip.len() <= n,
                forall|i: int| 0 <= i < skip.len() ==> !(#[trigger] skip[i]),
            decreases n - skip.len(),
        {
            skip.push(false);
        }
        assert(skip@ =~= Seq::new(n as nat, |i: int| false));
        let sizes = zeros(n);
        let job = BatchJob {
            names,
            skip,
            next: 0,
            running: false,
            attempted: 0,
            success: 0,
            failure: 0,
            cancelled: false,
            finished: false,
            sizes,
            totals: false,
            done_bytes: 0,
            total_files: 0,
            total_bytes: 0,
            sent: Ghost(Seq::empty()),
        };
        assert(name_views(job.names@).len() == job.names@.len());
        job
    }

    /// Tells the job the sizes of its entries, one for each, before anything
    /// is done of it. From then on the job reports the totals after every
    /// entry done. Returns the event that reports the totals to begin with;
    /// returns nothing, and changes nothing, where the job has begun, was
    /// told before, or `sizes` has not one size for each entry.
    pub fn measure(&mut self, sizes: Vec<u64>) -> (msgs: Vec<ProgressMessage>)
        requires
            old(self)@.wf(),
        ensures
            final(self)@.wf(),
            old(self)@.untouched() && sizes@.len() == old(self)@.names.len() ==> final(self)@
                == old(self)@.measured(sizes@) && crate::progress::events(msgs@) == seq![
                Event::TotalProgress(
                    0,
                    final(self)@.total_files,
                    0,
                    final(self)@.total_bytes,
                ),
            ],
            !(old(self)@.untouched() && sizes@.len() == old(self)@.names.len()) ==> final(self)@
                == old(self)@ && msgs@.len() == 0,
    {
        let mut msgs: Vec<ProgressMessage> = Vec::new();
        let fresh = self.next == 0 && !self.running && !self.finished && !self.totals;
        if !fresh || sizes.len() != self.names.len() {
            return msgs;
        }
        assert(name_views(self.names@).len() == self.names@.len());
        let mut files: usize = 0;
        let mut bytes: u64 = 0;
        let mut i: usize = 0;
        while i < self.skip.len()
            invariant
                i <= self.skip@.len(),
                self.skip@.len() == sizes@.len(),
                files == wanted_count(self.skip@, i as nat),
                files <= i,
                bytes == wanted_bytes(self.skip@, sizes@, i as nat),
            decreases self.skip@.len() - i,
        {
            if !self.skip[i] {
                files += 1;
                bytes = if bytes > u64::MAX - sizes[i] {
                    u64::MAX
                } else {
                    bytes + sizes[i]
                };
            }
            i += 1;
        }
        self.sizes = sizes;
        self.totals = true;
        self.total_files = files;
        self.total_bytes = bytes;
        msgs.push(ProgressMessage::TotalProgress(0, files, 0, bytes));
        proof {
            assert(crate::progress::events(msgs@) =~= seq![Event::TotalProgress(0, files, 0, bytes)]);
            self.sent@ = self.sent@.push(Event::TotalProgress(0, files, 0, bytes));
            assert(stream_open(self.sent@));
        }
        msgs
    }

    /// Takes up the next entry that is not left out, unless the job is over,
    /// an entry is at hand, or `cancelled` says that the caller asked the job
    /// to stop. Returns what to do and the events to send.
    pub fn begin(&mut self, cancelled: bool) -> (r: (BatchStep, Vec<ProgressMessage>))
        requires
            old(self)@.wf(),
        ensures
            final(self)@ == old(self)@.after_begin(cancelled),
            final(self)@.wf(),
            r.0 == old(self)@.begin_step(cancelled),
            crate::progress::events(r.1@) == old(self)@.begin_events(cancelled),
            r.0 matches BatchStep::Run(k) ==> k < old(self)@.names.len() && !old(self)@.skip[k as int],
    {
        proof {
            lemma_begin_keeps_wf(self@, cancelled);
            lemma_next_wanted(self@.skip, self@.next);
        }
        let mut msgs: Vec<ProgressMessage> = Vec::new();
        if self.finished {
            assert(crate::progress::events(msgs@) == Seq::<Event>::empty());
            return (BatchStep::Finished, msgs);
        }
        if self.running {
            assert(crate::progress::events(msgs@) == Seq::<Event>::empty());
            return (BatchStep::Run(self.next - 1), msgs);
        }
        if cancelled {
            msgs.push(ProgressMessage::Error(String::new(), cancelled_string()));
            msgs.push(ProgressMessage::Completed(self.success, 0));
            self.cancelled = true;
            self.finished = true;
            proof {
                assert(crate::progress::events(msgs@) =~= old(self)@.begin_events(cancelled));
                self.sent@ = self.sent@ + crate::progress::events(msgs@);
            }
            return (BatchStep::Finished, msgs);
        }
        let ghost start = self.next;
        let mut k: usize = self.next;
        while k < self.skip.len() && self.skip[k]
            invariant
                start <= k <= self.skip.len(),
                next_wanted(self.skip@, start as nat) == next_wanted(self.skip@, k as nat),
            decreases self.skip.len() - k,
        {
            k += 1;
        }
        if k >= self.names.len() {
            msgs.push(ProgressMessage::Completed(self.success, self.failure));
            self.next = self.names.len();
            self.finished = true;
            proof {
                assert(crate::progress::events(msgs@) =~= old(self)@.begin_events(cancelled));
                self.sent@ = self.sent@ + crate::progress::events(msgs@);
            }
            (BatchStep::Finished, msgs)
        } else {
            let name = self.names[k].clone();
            assert(name@ == name_views(self.names@)[k as int]);
            msgs.push(ProgressMessage::FileStarted(name));
            self.next = k + 1;
            self.running = true;
            self.attempted = self.attempted + 1;
            proof {
                assert(crate::progress::events(msgs@) =~= old(self)@.begin_events(cancelled));
                self.sent@ = self.sent@ + crate::progress::events(msgs@);
            }
            (BatchStep::Run(k), msgs)
        }
    }

    /// Records how the entry at hand went, and returns the events to send.
    /// Does nothing where no entry is at hand.
    pub fn finish(&mut self, outcome: FileOutcome) -> (msgs: Vec<ProgressMessage>)
        requires
            old(self)@.wf(),
        ensures
            final(self)@ == old(self)@.after_finish(outcome@),
            final(self)@.wf(),
            crate::progress::events(msgs@) == old(self)@.finish_events(outcome@),
    {
        proof {
            lemma_finish_keeps_wf(self@, outcome@);
        }
        let mut msgs: Vec<ProgressMessage> = Vec::new();
        if !self.running {
            assert(crate::progress::events(msgs@) == Seq::<Event>::empty());
            return msgs;
        }
        let name = self.names[self.next - 1].clone();
        assert(name@ == name_views(self.names@)[self.next - 1]);
        self.running = false;
        match outcome {
            FileOutcome::Done => {
                msgs.push(ProgressMessage::FileCompleted(name));
                self.success = self.success + 1;
                if self.totals {
                    let size = self.sizes[self.next - 1];
                    self.done_bytes = if self.done_bytes > u64::MAX - size {
                        u64::MAX
                    } else {
                        self.done_bytes + size
                    };
                    msgs.push(
                        ProgressMessage::TotalProgress(
                            self.success,
                            self.total_files,
                            self.done_bytes,
                            self.total_bytes,
                        ),
                    );
                }
            },
            FileOutcome::Failed(e) => {
                msgs.push(ProgressMessage::Error(name, e));
                self.failure = self.failure + 1;
            },
            FileOutcome::Aborted(e) => {
                msgs.push(ProgressMessage::Error(name, e));
                self.failure = self.failure + 1;
                msgs.push(ProgressMessage::Completed(self.success, self.failure));
                self.finished = true;
            },
            FileOutcome::Interrupted => {
                msgs.push(ProgressMessage::Error(name, cancelled_string()));
                msgs.push(ProgressMessage::Completed(self.success, 0));
                self.cancelled = true;
                self.finished = true;
            },
        }
        proof {
            assert(crate::progress::events(msgs@) =~= old(self)@.finish_events(outcome@));
            self.sent@ = self.sent@ + crate::progress::events(msgs@);
        }
        msgs
    }

    /// Whether the `Completed` event has been handed out.
    pub fn is_finished(&self) -> (r: bool)
        ensures
            r == self@.finished,
    {
        self.finished
    }

    /// Whether an entry is at hand, its outcome not yet reported.
    pub fn is_running(&self) -> (r: bool)
        ensures
            r == self@.running,
    {
        self.running
    }

    /// How many entries were taken up so far.
    pub fn attempted(&self) -> (r: usize)
        ensures
            r == self@.attempted,
    {
        self.attempted
    }

    /// How many entries are done.
    pub fn success_count(&self) -> (r: usize)
        ensures
            r == self@.success,
    {
        self.success
    }

    /// How many entries failed.
    pub fn failure_count(&self) -> (r: usize)
        ensures
            r == self@.failure,
    {
        self.failure
    }

    /// The names of the entries, in the order of the batch.
    pub fn names(&self) -> (r: &Vec<String>)
        ensures
            name_views(r@) == self@.names,
    {
        &self.names
    }

    /// For each entry, whether it is left out.
    pub fn skips(&self) -> (r: &Vec<bool>)
        ensures
            r@ == self@.skip,
    {
        &self.skip
    }
}

/// The text `Cancelled`.
pub fn cancelled_string() -> (s: String)
    ensures
        s@ == cancelled_text(),
{
    "Cancelled".to_string()
}

} // verus!
