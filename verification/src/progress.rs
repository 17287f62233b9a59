//! The progress-event vocabulary of a background job, the state a caller
//! keeps while it drains those events, and the one-line summary shown when
//! the job is over.

use vstd::prelude::*;
use crate::text::{append_decimal, append_str, decimal, string_of};

verus! {

/// One event sent by a worker to the caller that polls it.
#[derive(Debug, Clone, PartialEq, Eq)]
pub enum ProgressMessage {
    /// The job is getting ready; the text says what it is doing.
    Preparing(String),
    /// Preparation is over.
    PrepareComplete,
    /// Work on the named file has begun.
    FileStarted(String),
    /// Bytes done and bytes in all, for the file at hand.
    FileProgress(u64, u64),
    /// The named file is done.
    FileCompleted(String),
    /// Files done, files in all, bytes done, bytes in all.
    TotalProgress(usize, usize, u64, u64),
    /// The named file (or the job, where the name is empty) hit the error described.
    Error(String, String),
    /// The job is over: how many files succeeded and how many failed.
    Completed(usize, usize),
}

/// What a `ProgressMessage` says, with texts as character sequences.
pub enum Event {
    Preparing(Seq<char>),
    PrepareComplete,
    FileStarted(Seq<char>),
    FileProgress(u64, u64),
    FileCompleted(Seq<char>),
    TotalProgress(usize, usize, u64, u64),
    Error(Seq<char>, Seq<char>),
    Completed(usize, usize),
}

impl View for ProgressMessage {
    type V = Event;

    open spec fn view(&self) -> Event {
        match *self {
            ProgressMessage::Preparing(t) => Event::Preparing(t@),
            ProgressMessage::PrepareComplete => Event::PrepareComplete,
            ProgressMessage::FileStarted(n) => Event::FileStarted(n@),
            ProgressMessage::FileProgress(d, t) => Event::FileProgress(d, t),
            ProgressMessage::FileCompleted(n) => Event::FileCompleted(n@),
            ProgressMessage::TotalProgress(df, tf, db, tb) => Event::TotalProgress(df, tf, db, tb),
            ProgressMessage::Error(n, e) => Event::Error(n@, e@),
            ProgressMessage::Completed(s, f) => Event::Completed(s, f),
        }
    }
}

/// The events that a list of messages stands for, in order.
pub open spec fn events(msgs: Seq<ProgressMessage>) -> Seq<Event> {
    msgs.map_values(|m: ProgressMessage| m@)
}

/// No event of `s` ends a job.
pub open spec fn stream_open(s: Seq<Event>) -> bool {
    forall|i: int| 0 <= i < s.len() ==> !(#[trigger] s[i] is Completed)
}

/// `s` holds exactly one `Completed` event, and that event is its last.
pub open spec fn stream_closed(s: Seq<Event>) -> bool {
    &&& s.len() > 0
    &&& s.last() is Completed
    &&& stream_open(s.drop_last())
}

/// The kind of job a progress state belongs to.
#[derive(Debug, Clone, Copy, PartialEq, Eq, Structural)]
pub enum FileOperationType {
    Copy,
    Move,
    Tar,
    Untar,
    Download,
    Encrypt,
    Decrypt,
}

/// The outcome of a job, made when its `Completed` event is read.
#[derive(Debug, Clone, PartialEq, Eq)]
pub struct FileOperationResult {
    pub success_count: usize,
    pub failure_count: usize,
    pub last_error: Option<String>,
}

/// A `FileOperationResult` with its text as a character sequence.
pub struct Outcome {
    pub success_count: usize,
    pub failure_count: usize,
    pub last_error: Option<Seq<char>>,
}

impl View for FileOperationResult {
    type V = Outcome;

    open spec fn view(&self) -> Outcome {
        Outcome {
            success_count: self.success_count,
            failure_count: self.failure_count,
            last_error: match self.last_error {
                Some(e) => Some(e@),
                None => None,
            },
        }
    }
}

/// What the caller of a job knows of it while the job runs.
#[derive(Debug, Clone)]
pub struct FileOperationProgress {
    pub operation_type: FileOperationType,
    pub is_active: bool,
    /// Set once the caller has asked the job to stop.
    pub cancel_requested: bool,
    pub is_preparing: bool,
    pub preparing_message: String,
    pub current_file: String,
    /// Bytes done of the file at hand; the file's progress is
    /// `current_file_done / current_file_total`, and 0 while the total is 0.
    pub current_file_done: u64,
    pub current_file_total: u64,
    pub total_files: usize,
    pub completed_files: usize,
    pub total_bytes: u64,
    pub completed_bytes: u64,
    pub result: Option<FileOperationResult>,
    /// The latest error text, kept until the result is made.
    pub last_error: Option<String>,
}

/// A `FileOperationProgress` with its texts as character sequences.
pub struct ProgressState {
    pub operation_type: FileOperationType,
    pub is_active: bool,
    pub cancel_requested: bool,
    pub is_preparing: bool,
    pub preparing_message: Seq<char>,
    pub current_file: Seq<char>,
    pub current_file_done: u64,
    pub current_file_total: u64,
    pub total_files: usize,
    pub completed_files: usize,
    pub total_bytes: u64,
    pub completed_bytes: u64,
    pub result: Option<Outcome>,
    pub last_error: Option<Seq<char>>,
}

impl View for FileOperationProgress {
    type V = ProgressState;

    open spec fn view(&self) -> ProgressState {
        ProgressState {
            operation_type: self.operation_type,
            is_active: self.is_active,
            cancel_requested: self.cancel_requested,
            is_preparing: self.is_preparing,
            preparing_message: self.preparing_message@,
            current_file: self.current_file@,
            current_file_done: self.current_file_done,
            current_file_total: self.current_file_total,
            total_files: self.total_files,
            completed_files: self.completed_files,
            total_bytes: self.total_bytes,
            completed_bytes: self.completed_bytes,
            result: match self.result {
                Some(r) => Some(r@),
                None => None,
            },
            last_error: match self.last_error {
                Some(e) => Some(e@),
                None => None,
            },
        }
    }
}

/// The state after one event has been read.
pub open spec fn after_event(p: ProgressState, e: Event) -> ProgressState {
    match e {
        Event::Preparing(t) => ProgressState { is_preparing: true, preparing_message: t, ..p },
        Event::PrepareComplete => ProgressState {
            is_preparing: false,
            preparing_message: Seq::empty(),
            ..p
        },
        Event::FileStarted(n) => ProgressState {
            current_file: n,
            current_file_done: 0,
            current_file_total: 0,
            ..p
        },
        Event::FileProgress(d, t) => if t > 0 {
            ProgressState { current_file_done: d, current_file_total: t, ..p }
        } else {
            p
        },
        Event::FileCompleted(_) => ProgressState {
            current_file_done: 1,
            current_file_total: 1,
            ..p
        },
        Event::TotalProgress(df, tf, db, tb) => ProgressState {
            completed_files: df,
            total_files: tf,
            completed_bytes: db,
            total_bytes: tb,
            ..p
        },
        Event::Error(_, e) => ProgressState { last_error: Some(e), ..p },
        Event::Completed(s, f) => ProgressState {
            result: Some(Outcome { success_count: s, failure_count: f, last_error: p.last_error }),
            last_error: None,
            is_active: false,
            ..p
        },
    }
}

/// The state after a run of events has been read: reading stops at the first
/// event that ends the job, and does nothing on a job that is over.
pub open spec fn after_events(p: ProgressState, es: Seq<Event>) -> ProgressState
    decreases es.len(),
{
    if es.len() == 0 || !p.is_active {
        p
    } else {
        after_events(after_event(p, es[0]), es.drop_first())
    }
}

/// The state after a poll that found the events `es` waiting, and found the
/// worker's end of the channel gone or not.
pub open spec fn after_poll(p: ProgressState, es: Seq<Event>, disconnected: bool) -> ProgressState {
    let q = after_events(p, es);
    if disconnected {
        ProgressState { is_active: false, ..q }
    } else {
        q
    }
}

impl FileOperationProgress {
    /// The state of a job that has not started.
    pub fn new(operation_type: FileOperationType) -> (p: Self)
        ensures
            p@ == (ProgressState {
                operation_type,
                is_active: false,
                cancel_requested: false,
                is_preparing: false,
                preparing_message: Seq::empty(),
                current_file: Seq::empty(),
                current_file_done: 0,
                current_file_total: 0,
                total_files: 0,
                completed_files: 0,
                total_bytes: 0,
                completed_bytes: 0,
                result: None,
                last_error: None,
            }),
    {
        FileOperationProgress {
            operation_type,
            is_active: false,
            cancel_requested: false,
            is_preparing: false,
            preparing_message: String::new(),
            current_file: String::new(),
            current_file_done: 0,
            current_file_total: 0,
            total_files: 0,
            completed_files: 0,
            total_bytes: 0,
            completed_bytes: 0,
            result: None,
            last_error: None,
        }
    }

    /// Records that the caller asked the job to stop. Nothing else changes:
    /// the job is over only when its `Completed` event has been read.
    pub fn cancel(&mut self)
        ensures
            final(self)@ == (ProgressState { cancel_requested: true, ..old(self)@ }),
    {
        self.cancel_requested = true;
    }

    /// Reads one event. Returns whether the job is still running.
    pub fn apply(&mut self, msg: ProgressMessage) -> (active: bool)
        requires
            old(self).is_active,
        ensures
            final(self)@ == after_event(old(self)@, msg@),
            active == final(self).is_active,
    {
        match msg {
            ProgressMessage::Preparing(message) => {
                self.is_preparing = true;
                self.preparing_message = message;
            },
            ProgressMessage::PrepareComplete => {
                self.is_preparing = false;
                self.preparing_message = String::new();
            },
            ProgressMessage::FileStarted(name) => {
                self.current_file = name;
                self.current_file_done = 0;
                self.current_file_total = 0;
            },
            ProgressMessage::FileProgress(copied, total) => {
                if total > 0 {
                    self.current_file_done = copied;
                    self.current_file_total = total;
                }
            },
            ProgressMessage::FileCompleted(_) => {
                self.current_file_done = 1;
                self.current_file_total = 1;
            },
            ProgressMessage::TotalProgress(completed_files, total_files, completed_bytes, total_bytes) => {
                self.completed_files = completed_files;
                self.total_files = total_files;
                self.completed_bytes = completed_bytes;
                self.total_bytes = total_bytes;
            },
            ProgressMessage::Error(_, err) => {
                self.last_error = Some(err);
            },
            ProgressMessage::Completed(success, failure) => {
                let last_error = self.last_error.take();
                self.result = Some(
                    FileOperationResult { success_count: success, failure_count: failure, last_error },
                );
                self.is_active = false;
            },
        }
        self.is_active
    }

    /// Reads the events that were waiting, oldest first, and notes whether the
    /// worker's end of the channel is gone. Returns whether the job is still
    /// running.
    pub fn poll(&mut self, pending: Vec<ProgressMessage>, disconnected: bool) -> (active: bool)
        ensures
            !old(self).is_active ==> final(self)@ == old(self)@,
            old(self).is_active ==> final(self)@ == after_poll(
                old(self)@,
                events(pending@),
                disconnected,
            ),
            active == final(self).is_active,
    {
        if !self.is_active {
            return false;
        }
        let ghost start = self@;
        let ghost all = events(pending@);
        let mut pending = pending;
        let mut i: usize = 0;
        let n = pending.len();
        assert(all.subrange(0, all.len() as int) == all);
        while i < n && self.is_active
            invariant
                i <= n == pending.len() == all.len(),
                forall|j: int| i <= j < n ==> (#[trigger] pending@[j])@ == all[j],
                after_events(start, all) == after_events(self@, all.subrange(i as int, n as int)),
            decreases n - i,
        {
            let mut msg = ProgressMessage::PrepareComplete;
            std::mem::swap(&mut msg, &mut pending[i]);
            assert(all.subrange(i as int, n as int).drop_first() == all.subrange(i + 1, n as int));
            self.apply(msg);
            i += 1;
        }
        if disconnected {
            self.is_active = false;
        }
        self.is_active
    }

    /// The job's overall progress as a pair `(done, total)`: bytes where the
    /// total in bytes is known, else files where the number of files is known,
    /// else `(0, 0)`. The fraction done is `done / total`, and 0 where `total`
    /// is 0.
    pub fn overall_progress(&self) -> (r: (u64, u64))
        ensures
            self.total_bytes > 0 ==> r == (self.completed_bytes, self.total_bytes),
            self.total_bytes == 0 && self.total_files > 0 ==> r == (
                self.completed_files as u64,
                self.total_files as u64,
            ),
            self.total_bytes == 0 && self.total_files == 0 ==> r == (0u64, 0u64),
    {
        if self.total_bytes > 0 {
            (self.completed_bytes, self.total_bytes)
        } else if self.total_files > 0 {
            (self.completed_files as u64, self.total_files as u64)
        } else {
            (0, 0)
        }
    }
}


/// The past-tense verb that names what a job of the given kind has done.
pub open spec fn done_verb(op: FileOperationType) -> Seq<char> {
    match op {
        FileOperationType::Copy => "Copied"@,
        FileOperationType::Move => "Moved"@,
        FileOperationType::Tar => "Archived"@,
        FileOperationType::Untar => "Extracted"@,
        FileOperationType::Download => "Downloaded"@,
        FileOperationType::Encrypt => "Encrypted"@,
        FileOperationType::Decrypt => "Decrypted"@,
    }
}

/// `e`, or `fallback` where there is no error text.
pub open spec fn error_or(e: Option<Seq<char>>, fallback: Seq<char>) -> Seq<char> {
    match e {
        Some(t) => t,
        None => fallback,
    }
}

/// The line shown to the user when a job of kind `op` has ended with `r`.
/// `subject` is the archive made, or the directory extracted to, where the
/// caller has kept its name.
pub open spec fn summary(op: FileOperationType, r: Outcome, subject: Option<Seq<char>>) -> Seq<
    char,
> {
    if op == FileOperationType::Tar {
        if r.failure_count == 0 {
            match subject {
                Some(name) => "Created: "@ + name,
                None => "Archived "@ + decimal(r.success_count as nat) + " file(s)"@,
            }
        } else {
            "Error: "@ + error_or(r.last_error, "Archive failed"@)
        }
    } else if op == FileOperationType::Untar {
        if r.failure_count == 0 {
            match subject {
                Some(name) => "Extracted to: "@ + name,
                None => "Extracted "@ + decimal(r.success_count as nat) + " file(s)"@,
            }
        } else {
            "Error: "@ + error_or(r.last_error, "Extract failed"@)
        }
    } else if r.failure_count == 0 {
        done_verb(op) + " "@ + decimal(r.success_count as nat) + " file(s)"@
    } else {
        done_verb(op) + " "@ + decimal(r.success_count as nat) + "/"@ + decimal(
            (r.success_count + r.failure_count) as nat,
        ) + ". Error: "@ + error_or(r.last_error, "Unknown error"@)
    }
}

fn append_error_or(out: &mut Vec<char>, e: &Option<String>, fallback: &str)
    ensures
        final(out)@ == old(out)@ + error_or(
            match *e {
                Some(t) => Some(t@),
                None => None,
            },
            fallback@,
        ),
{
    match e {
        Some(t) => append_str(out, t.as_str()),
        None => append_str(out, fallback),
    }
}

fn append_done_verb(out: &mut Vec<char>, op: FileOperationType)
    ensures
        final(out)@ == old(out)@ + done_verb(op),
{
    match op {
        FileOperationType::Copy => append_str(out, "Copied"),
        FileOperationType::Move => append_str(out, "Moved"),
        FileOperationType::Tar => append_str(out, "Archived"),
        FileOperationType::Untar => append_str(out, "Extracted"),
        FileOperationType::Download => append_str(out, "Downloaded"),
        FileOperationType::Encrypt => append_str(out, "Encrypted"),
        FileOperationType::Decrypt => append_str(out, "Decrypted"),
    }
}

/// The line shown to the user when a job has ended: what was made, how many
/// files succeeded out of how many, and the last error where any file failed.
pub fn completion_message(
    op: FileOperationType,
    result: &FileOperationResult,
    subject: Option<&str>,
) -> (msg: String)
    ensures
        msg@ == summary(
            op,
            result@,
            match subject {
                Some(n) => Some(n@),
                None => None,
            },
        ),
{
    let mut out: Vec<char> = Vec::new();
    let is_tar = op == FileOperationType::Tar;
    let is_untar = op == FileOperationType::Untar;
    if is_tar || is_untar {
        if result.failure_count == 0 {
            match subject {
                Some(name) => {
                    if is_tar {
                        append_str(&mut out, "Created: ");
                    } else {
                        append_str(&mut out, "Extracted to: ");
                    }
                    append_str(&mut out, name);
                },
                None => {
                    if is_tar {
                        append_str(&mut out, "Archived ");
                    } else {
                        append_str(&mut out, "Extracted ");
                    }
                    append_decimal(&mut out, result.success_count as u128);
                    append_str(&mut out, " file(s)");
                },
            }
        } else {
            append_str(&mut out, "Error: ");
            if is_tar {
                append_error_or(&mut out, &result.last_error, "Archive failed");
            } else {
                append_error_or(&mut out, &result.last_error, "Extract failed");
            }
        }
    } else {
        append_done_verb(&mut out, op);
        append_str(&mut out, " ");
        append_decimal(&mut out, result.success_count as u128);
        if result.failure_count == 0 {
            append_str(&mut out, " file(s)");
        } else {
            append_str(&mut out, "/");
            append_decimal(&mut out, result.success_count as u128 + result.failure_count as u128);
            append_str(&mut out, ". Error: ");
            append_error_or(&mut out, &result.last_error, "Unknown error");
        }
    }
    string_of(&out)
}


/// Events that end no job, followed by events that end no job, end no job.
pub proof fn lemma_open_then_open(a: Seq<Event>, b: Seq<Event>)
    requires
        stream_open(a),
        stream_open(b),
    ensures
        stream_open(a + b),
{
}

/// Events that end no job, followed by a stream that ends with its one
/// `Completed` event, make such a stream.
pub proof fn lemma_open_then_closed(a: Seq<Event>, b: Seq<Event>)
    requires
        stream_open(a),
        stream_closed(b),
    ensures
        stream_closed(a + b),
{
    assert((a + b).drop_last() == a + b.drop_last());
}

/// It does not matter in how many polls the events of a job are read: to
/// read a run of events and then another is to read both in one go.
pub proof fn lemma_polls_compose(p: ProgressState, a: Seq<Event>, b: Seq<Event>)
    ensures
        after_events(p, a + b) == after_events(after_events(p, a), b),
    decreases a.len(),
{
    if a.len() == 0 {
        assert(a + b =~= b);
    } else if !p.is_active {
        lemma_over_is_over(p, b);
    } else {
        assert((a + b)[0] == a[0]);
        assert((a + b).drop_first() =~= a.drop_first() + b);
        lemma_polls_compose(after_event(p, a[0]), a.drop_first(), b);
    }
}

/// A job that is over stays as it is, whatever is read after.
pub proof fn lemma_over_is_over(p: ProgressState, es: Seq<Event>)
    requires
        !p.is_active,
    ensures
        after_events(p, es) == p,
{
}

/// While no event that ends a job is read, the job goes on and has no result
/// but the one it had.
pub proof fn lemma_open_stream_keeps_active(p: ProgressState, es: Seq<Event>)
    requires
        p.is_active,
        stream_open(es),
    ensures
        after_events(p, es).is_active,
        after_events(p, es).result == p.result,
    decreases es.len(),
{
    if es.len() > 0 {
        assert(!(es[0] is Completed));
        assert forall|i: int| 0 <= i < es.drop_first().len() implies !(#[trigger] es.drop_first()[i]
            is Completed) by {
            assert(es.drop_first()[i] == es[i + 1]);
        }
        lemma_open_stream_keeps_active(after_event(p, es[0]), es.drop_first());
    }
}

/// Whoever reads the whole stream of a job, which ends with its one
/// `Completed` event, finds the job over exactly then, with the counts of
/// that event as its result.
pub proof fn lemma_closed_stream_gives_result(p: ProgressState, es: Seq<Event>)
    requires
        p.is_active,
        stream_closed(es),
    ensures
        after_events(p, es.drop_last()).is_active,
        !after_events(p, es).is_active,
        after_events(p, es).result matches Some(r) && es.last() == Event::Completed(
            r.success_count,
            r.failure_count,
        ),
{
    let head = es.drop_last();
    lemma_open_stream_keeps_active(p, head);
    assert(es =~= head + seq![es.last()]);
    lemma_polls_compose(p, head, seq![es.last()]);
    let q = after_events(p, head);
    let one = seq![es.last()];
    assert(one.drop_first() =~= Seq::<Event>::empty());
    assert(after_events(q, one) == after_events(after_event(q, one[0]), one.drop_first()));
}

} // verus!
