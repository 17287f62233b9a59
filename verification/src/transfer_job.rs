//! The course of a transfer job: one batch of files carried to or from a
//! remote host by the transport picked for the login.
//!
//! The owner of the job runs the command, or drives the built-in client, for
//! each file it is handed, and reports how the file went.

use vstd::prelude::*;
use crate::batch::{BatchJob, BatchState, BatchStep, FileOutcome};
use crate::command::{clone_strings, CommandLine, CommandView};
use crate::progress::{
    events, lemma_open_then_closed, lemma_open_then_open, stream_closed, stream_open, Event,
    ProgressMessage,
};
use crate::message::{contains_phrase, holds_phrase};
use crate::text::{
    append_decimal, append_str, chars_of, decimal, string_of, texts, trim,
    trim_chars,
};
use crate::transfer::{
    opt_str, RemoteAuth, RemoteProfile, rsync_command, rsync_command_of, scp_command, scp_command_of, select_transport,
    sftp_transfer, sftp_transfer_of, transport_of, SftpTransfer, SftpView, TransferConfig,
    Transport,
};

verus! {

/// What the owner of a transfer has to do for the file at hand.
#[derive(Debug, Clone, PartialEq, Eq)]
pub enum TransferAction {
    /// Run this command. The sync tool's output is read line by line and
    /// every progress line is sent on as a `FileProgress` event.
    Run(CommandLine),
    /// Carry this file with the built-in client, over the one session that
    /// the job keeps open.
    Sftp(SftpTransfer),
    /// Nothing: the job is over.
    Done,
}

/// A `TransferAction` with its texts as character sequences.
pub enum TransferActionView {
    Run(CommandView),
    Sftp(SftpView),
    Done,
}

impl View for TransferAction {
    type V = TransferActionView;

    open spec fn view(&self) -> TransferActionView {
        match *self {
            TransferAction::Run(c) => TransferActionView::Run(c@),
            TransferAction::Sftp(t) => TransferActionView::Sftp(t@),
            TransferAction::Done => TransferActionView::Done,
        }
    }
}

/// What is done for the file `file` of a transfer carried by `transport`.
pub open spec fn file_action_of(
    config: TransferConfig,
    transport: Transport,
    file: Seq<char>,
    home: Option<Seq<char>>,
    has_sshpass: bool,
) -> TransferActionView {
    match transport {
        Transport::Rsync => TransferActionView::Run(
            rsync_command_of(config, file, home, has_sshpass),
        ),
        Transport::Scp => TransferActionView::Run(scp_command_of(config, file, home, has_sshpass)),
        Transport::Sftp => TransferActionView::Sftp(sftp_transfer_of(config, file)),
    }
}

/// What is done for the file `file` of a transfer carried by `transport`.
pub fn file_action(
    config: &TransferConfig,
    transport: Transport,
    file: &str,
    home: Option<&str>,
    has_sshpass: bool,
) -> (a: TransferAction)
    ensures
        a@ == file_action_of(*config, transport, file@, opt_str(home), has_sshpass),
{
    match transport {
        Transport::Rsync => TransferAction::Run(rsync_command(config, file, home, has_sshpass)),
        Transport::Scp => TransferAction::Run(scp_command(config, file, home, has_sshpass)),
        Transport::Sftp => TransferAction::Sftp(sftp_transfer(config, file)),
    }
}

/// The events that open a transfer of `n` files.
pub open spec fn transfer_preamble(n: nat) -> Seq<Event> {
    seq![
        Event::Preparing("Transferring "@ + decimal(n) + " file(s)..."@),
        Event::PrepareComplete,
    ]
}

/// The state of a transfer job.
pub struct TransferState {
    pub config: TransferConfig,
    pub transport: Transport,
    pub home: Option<Seq<char>>,
    pub has_sshpass: bool,
    /// The bookkeeping of the files.
    pub batch: BatchState,
}

impl TransferState {
    /// Every event handed out so far, oldest first.
    pub open spec fn sent(self) -> Seq<Event> {
        transfer_preamble(self.config.source_files@.len()) + self.batch.sent
    }

    /// What holds of every state a transfer can reach.
    pub open spec fn wf(self) -> bool {
        &&& self.batch.wf()
        &&& self.batch.names == texts(self.config.source_files@)
        &&& forall|i: int| 0 <= i < self.batch.skip.len() ==> !(#[trigger] self.batch.skip[i])
    }

    /// What is done for the file with index `k`.
    pub open spec fn action_for(self, k: int) -> TransferActionView {
        file_action_of(
            self.config,
            self.transport,
            self.config.source_files@[k]@,
            self.home,
            self.has_sshpass,
        )
    }
}

/// A transfer hands out exactly one `Completed` event, as its last event,
/// and none before it is over.
pub proof fn lemma_transfer_one_completed_event(s: TransferState)
    requires
        s.wf(),
    ensures
        s.batch.finished ==> stream_closed(s.sent()),
        !s.batch.finished ==> stream_open(s.sent()),
{
    let pre = transfer_preamble(s.config.source_files@.len());
    assert(stream_open(pre));
    if s.batch.finished {
        lemma_open_then_closed(pre, s.batch.sent);
    } else {
        lemma_open_then_open(pre, s.batch.sent);
    }
}

/// A transfer job.
pub struct TransferJob {
    config: TransferConfig,
    transport: Transport,
    home: Option<String>,
    has_sshpass: bool,
    batch: BatchJob,
}

impl View for TransferJob {
    type V = TransferState;

    closed spec fn view(&self) -> TransferState {
        TransferState {
            config: self.config,
            transport: self.transport,
            home: crate::archive_job::opt_text(self.home),
            has_sshpass: self.has_sshpass,
            batch: self.batch@,
        }
    }
}

/// Starts a transfer of the files of `config`. `has_sshpass` and `has_rsync`
/// say which tools answered their probes, `home` is the user's home
/// directory. Returns the job, which has taken up no file yet, and the two
/// events that open it.
pub fn transfer_files_with_progress(
    config: TransferConfig,
    has_sshpass: bool,
    has_rsync: bool,
    home: Option<String>,
) -> (r: (TransferJob, Vec<ProgressMessage>))
    ensures
        r.0@ == (TransferState {
            config,
            transport: transport_of(config.profile, has_sshpass, has_rsync),
            home: crate::archive_job::opt_text(home),
            has_sshpass,
            batch: BatchState::initial(
                texts(config.source_files@),
                Seq::new(config.source_files@.len(), |i: int| false),
            ),
        }),
        r.0@.wf(),
        events(r.1@) == transfer_preamble(config.source_files@.len()),
{
    let n = config.source_files.len();
    let mut text: Vec<char> = Vec::new();
    append_str(&mut text, "Transferring ");
    append_decimal(&mut text, n as u128);
    append_str(&mut text, " file(s)...");
    let mut msgs: Vec<ProgressMessage> = Vec::new();
    msgs.push(ProgressMessage::Preparing(string_of(&text)));
    msgs.push(ProgressMessage::PrepareComplete);
    assert(events(msgs@) =~= transfer_preamble(n as nat));
    let transport = select_transport(&config.profile, has_sshpass, has_rsync);
    let names = clone_strings(&config.source_files);
    assert(names@.len() == texts(names@).len());
    assert(texts(config.source_files@).len() == n);
    let batch = BatchJob::all_of(names);
    (TransferJob { config, transport, home, has_sshpass, batch }, msgs)
}

impl TransferJob {
    /// Takes up the next file, unless the job is over, a file is at hand, or
    /// `cancelled` says that the caller asked the job to stop. Returns what
    /// to do for the file and the events to send.
    pub fn next(&mut self, cancelled: bool) -> (r: (TransferAction, Vec<ProgressMessage>))
        requires
            old(self)@.wf(),
        ensures
            final(self)@ == (TransferState {
                batch: old(self)@.batch.after_begin(cancelled),
                ..old(self)@
            }),
            final(self)@.wf(),
            events(r.1@) == old(self)@.batch.begin_events(cancelled),
            r.0@ == (match old(self)@.batch.begin_step(cancelled) {
                BatchStep::Run(k) => old(self)@.action_for(k as int),
                BatchStep::Finished => TransferActionView::Done,
            }),
    {
        let (step, msgs) = self.batch.begin(cancelled);
        match step {
            BatchStep::Finished => (TransferAction::Done, msgs),
            BatchStep::Run(k) => {
                assert(k < self.config.source_files.len()) by {
                    assert(texts(self.config.source_files@).len() == self.config.source_files@.len());
                }
                let home: Option<&str> = match &self.home {
                    Some(h) => Some(h.as_str()),
                    None => None,
                };
                let action = file_action(
                    &self.config,
                    self.transport,
                    self.config.source_files[k].as_str(),
                    home,
                    self.has_sshpass,
                );
                (action, msgs)
            },
        }
    }

    /// Records how the file at hand went, and returns the events to send.
    /// A failure that ends the batch is reported as `Aborted`.
    pub fn finish(&mut self, outcome: FileOutcome) -> (msgs: Vec<ProgressMessage>)
        requires
            old(self)@.wf(),
        ensures
            final(self)@ == (TransferState {
                batch: old(self)@.batch.after_finish(outcome@),
                ..old(self)@
            }),
            final(self)@.wf(),
            events(msgs@) == old(self)@.batch.finish_events(outcome@),
    {
        self.batch.finish(outcome)
    }

    /// The transport that carries the files.
    pub fn transport(&self) -> (t: Transport)
        ensures
            t == self@.transport,
    {
        self.transport
    }

    /// Whether the job is over.
    pub fn is_finished(&self) -> (r: bool)
        ensures
            r == self@.batch.finished,
    {
        self.batch.is_finished()
    }
}

/// How the tool that carried a file ended.
#[derive(Debug, Clone, PartialEq, Eq)]
pub enum ToolExit {
    /// It could not be started, for the reason given.
    NotStarted(String),
    /// It reported success.
    Success,
    /// It reported failure: what it wrote to standard error, and its exit
    /// code where it has one.
    Failed { stderr: String, code: Option<i32> },
    /// Its exit could not be awaited, for the reason given.
    WaitFailed(String),
}

/// The name of the tool that the command `cmd` runs: the program itself,
/// or, behind the password helper, the program that the helper runs.
pub open spec fn tool_of(cmd: CommandView) -> Seq<char> {
    if cmd.program == "sshpass"@ && cmd.args.len() >= 3 {
        cmd.args[2]
    } else {
        cmd.program
    }
}

/// The name of the tool that the command `cmd` runs.
pub fn tool_name(cmd: &CommandLine) -> (name: String)
    ensures
        name@ == tool_of(cmd@),
{
    assert(texts(cmd.args@).len() == cmd.args@.len());
    if crate::text::str_eq(cmd.program.as_str(), "sshpass") && cmd.args.len() >= 3 {
        assert(texts(cmd.args@)[2] == cmd.args@[2]@);
        cmd.args[2].clone()
    } else {
        cmd.program.clone()
    }
}

/// A whole number in decimal digits, with its sign where it is below zero.
pub open spec fn signed_decimal(n: int) -> Seq<char> {
    if n < 0 {
        "-"@ + decimal((-n) as nat)
    } else {
        decimal(n as nat)
    }
}

/// Whether the command `cmd` runs its tool behind the password helper.
pub open spec fn behind_helper(cmd: CommandView) -> bool {
    cmd.program == "sshpass"@ && cmd.args.len() >= 3
}

/// Whether what a tool wrote to standard error says that the remote host
/// could not be reached or did not let the user in, in the words of the
/// secure shell, over which the tools run.
pub open spec fn tells_transport_failure(stderr: Seq<char>) -> bool {
    ||| holds_phrase(stderr, "Connection refused"@)
    ||| holds_phrase(stderr, "Connection timed out"@)
    ||| holds_phrase(stderr, "No route to host"@)
    ||| holds_phrase(stderr, "Could not resolve hostname"@)
    ||| holds_phrase(stderr, "Host key verification failed"@)
    ||| holds_phrase(stderr, "Permission denied ("@)
}

/// Whether a tool that failed says that the remote host could not be
/// reached or did not let the user in: by its exit code, or by what it wrote
/// to standard error. The code 255 is the secure shell's word for a
/// connection that it could not make, which the tools that run over it hand
/// on; behind the password helper, 5 is a password that was not taken and 6
/// a host whose key is not known.
pub open spec fn is_transport_failure(helper: bool, stderr: Seq<char>, code: Option<i32>) -> bool {
    ||| code == Some(255i32)
    ||| (helper && (code == Some(5i32) || code == Some(6i32)))
    ||| tells_transport_failure(stderr)
}

/// Whether what a tool wrote to standard error says that the remote host
/// could not be reached or did not let the user in.
pub fn says_transport_failure(stderr: &str) -> (r: bool)
    ensures
        r == tells_transport_failure(stderr@),
{
    contains_phrase(stderr, "Connection refused") || contains_phrase(
        stderr,
        "Connection timed out",
    ) || contains_phrase(stderr, "No route to host") || contains_phrase(
        stderr,
        "Could not resolve hostname",
    ) || contains_phrase(stderr, "Host key verification failed") || contains_phrase(
        stderr,
        "Permission denied (",
    )
}

/// What is told of a tool named `tool` that failed: what it wrote to
/// standard error, or its exit code where it wrote nothing.
pub open spec fn failure_reason(tool: Seq<char>, stderr: Seq<char>, code: Option<i32>) -> Seq<char> {
    if trim(stderr).len() > 0 {
        stderr
    } else {
        tool + " exited with code "@ + signed_decimal(
            match code {
                Some(c) => c as int,
                None => -1,
            },
        )
    }
}

/// How a file went that the command `cmd` carried and that ended as `exit`
/// says. A tool that cannot be started ends the batch, and so does one
/// whose exit code says that the remote host could not be reached or did not
/// let the user in: no other file would fare better. Any other failure
/// leaves the batch to go on.
pub open spec fn outcome_of_exit(cmd: CommandView, exit: ToolExit) -> crate::batch::OutcomeView {
    let tool = tool_of(cmd);
    match exit {
        ToolExit::NotStarted(reason) => crate::batch::OutcomeView::Aborted(
            "Failed to start "@ + tool + ": "@ + reason@,
        ),
        ToolExit::Success => crate::batch::OutcomeView::Done,
        ToolExit::Failed { stderr, code } => if is_transport_failure(
            behind_helper(cmd),
            stderr@,
            code,
        ) {
            crate::batch::OutcomeView::Aborted(failure_reason(tool, stderr@, code))
        } else {
            crate::batch::OutcomeView::Failed(failure_reason(tool, stderr@, code))
        },
        ToolExit::WaitFailed(reason) => crate::batch::OutcomeView::Failed(
            tool + " wait failed: "@ + reason@,
        ),
    }
}

fn reason_of_failure(tool: &str, stderr: String, code: Option<i32>) -> (text: String)
    ensures
        text@ == failure_reason(tool@, stderr@, code),
{
    if trim_chars(&chars_of(stderr.as_str())).len() > 0 {
        stderr
    } else {
        let mut text = chars_of(tool);
        append_str(&mut text, " exited with code ");
        let c: i32 = match code {
            Some(c) => c,
            None => -1,
        };
        let ghost head = text@;
        if c < 0 {
            let size: i64 = -(c as i64);
            append_str(&mut text, "-");
            append_decimal(&mut text, size as u128);
            assert(size as nat == (-(c as int)) as nat);
            assert(text@ =~= head + signed_decimal(c as int));
        } else {
            append_decimal(&mut text, c as u128);
            assert(text@ =~= head + signed_decimal(c as int));
        }
        assert(text@ =~= tool@ + " exited with code "@ + signed_decimal(c as int));
        string_of(&text)
    }
}

/// Decides how a file went that the command `cmd` carried.
pub fn exit_outcome(cmd: &CommandLine, exit: ToolExit) -> (outcome: FileOutcome)
    ensures
        outcome@ == outcome_of_exit(cmd@, exit),
{
    let name = tool_name(cmd);
    let tool = name.as_str();
    assert(texts(cmd.args@).len() == cmd.args@.len());
    let helper = crate::text::str_eq(cmd.program.as_str(), "sshpass") && cmd.args.len() >= 3;
    match exit {
        ToolExit::NotStarted(reason) => {
            let mut text = chars_of("Failed to start ");
            append_str(&mut text, tool);
            append_str(&mut text, ": ");
            append_str(&mut text, reason.as_str());
            assert(text@ =~= "Failed to start "@ + tool@ + ": "@ + reason@);
            FileOutcome::Aborted(string_of(&text))
        },
        ToolExit::Success => FileOutcome::Done,
        ToolExit::Failed { stderr, code } => {
            let told = says_transport_failure(stderr.as_str());
            let fatal = told || match code {
                Some(c) => c == 255 || (helper && (c == 5 || c == 6)),
                None => false,
            };
            let text = reason_of_failure(tool, stderr, code);
            if fatal {
                FileOutcome::Aborted(text)
            } else {
                FileOutcome::Failed(text)
            }
        },
        ToolExit::WaitFailed(reason) => {
            let mut text = chars_of(tool);
            append_str(&mut text, " wait failed: ");
            append_str(&mut text, reason.as_str());
            assert(text@ =~= tool@ + " wait failed: "@ + reason@);
            FileOutcome::Failed(string_of(&text))
        },
    }
}

/// A failure to reach the remote host or to log in to it ends the batch,
/// whichever tool reports it: by the exit code 255 whatever the tool wrote,
/// and by what it wrote whatever its exit code.
pub proof fn lemma_transport_failure_ends_the_batch(
    cmd: CommandView,
    stderr: String,
    code: Option<i32>,
)
    ensures
        outcome_of_exit(cmd, (ToolExit::Failed { stderr, code: Some(255i32) })) is Aborted,
        tells_transport_failure(stderr@) ==> outcome_of_exit(
            cmd,
            (ToolExit::Failed { stderr, code }),
        ) is Aborted,
        !is_transport_failure(behind_helper(cmd), stderr@, code) ==> outcome_of_exit(
            cmd,
            (ToolExit::Failed { stderr, code }),
        ) is Failed,
{
}

/// What the owner of a running tool reports of it.
#[derive(Debug, Clone, PartialEq, Eq)]
pub enum ToolReport {
    /// The tool wrote this line.
    Line(String),
    /// The tool's output has ended.
    OutputEnded,
    /// The tool has ended, or could not be started.
    Ended(ToolExit),
}

/// What the owner of a running tool has to do next.
#[derive(Debug, Clone, PartialEq, Eq)]
pub enum WatchAction {
    /// Read the next line and report it.
    ReadLine,
    /// Wait for the tool's end and report it.
    Wait,
    /// Nothing: the file went as this says.
    Finish(FileOutcome),
}

/// A `WatchAction` with its text as a character sequence.
pub enum WatchActionView {
    ReadLine,
    Wait,
    Finish(crate::batch::OutcomeView),
}

impl View for WatchAction {
    type V = WatchActionView;

    open spec fn view(&self) -> WatchActionView {
        match *self {
            WatchAction::ReadLine => WatchActionView::ReadLine,
            WatchAction::Wait => WatchActionView::Wait,
            WatchAction::Finish(o) => WatchActionView::Finish(o@),
        }
    }
}

/// The answer to one report of a running tool.
pub struct WatchStep {
    /// Kill the tool, before anything else.
    pub kill: bool,
    /// Then send these events, in order.
    pub messages: Vec<ProgressMessage>,
    /// Then do this.
    pub action: WatchAction,
}

/// What is to be done after the report `report` of the tool that the
/// command `cmd` runs. Once the caller has asked the job to stop, the file
/// counts as cut short, unless the report is that the tool has ended well:
/// the file is then done.
pub open spec fn watch_action(cmd: CommandView, report: ToolReport, cancelled: bool) -> WatchActionView {
    if cancelled && report != ToolReport::Ended(ToolExit::Success) {
        WatchActionView::Finish(crate::batch::OutcomeView::Interrupted)
    } else {
        match report {
            ToolReport::Line(_) => WatchActionView::ReadLine,
            ToolReport::OutputEnded => WatchActionView::Wait,
            ToolReport::Ended(exit) => WatchActionView::Finish(outcome_of_exit(cmd, exit)),
        }
    }
}

/// The events sent after the report `report`: the progress that a line of
/// the sync tool tells, unless the job is to stop.
pub open spec fn watch_events(report: ToolReport, cancelled: bool) -> Seq<Event> {
    match report {
        ToolReport::Line(line) => match crate::transfer::rsync_progress_of(line@) {
            Some((done, total)) => if cancelled {
                Seq::empty()
            } else {
                seq![Event::FileProgress(done, total)]
            },
            None => Seq::empty(),
        },
        _ => Seq::empty(),
    }
}

/// Decides what follows the report `report` of the tool that the command
/// `cmd` runs for a file. `cancelled` says whether the caller has asked the
/// job to stop: the tool is then killed, unless the report is that it has
/// ended, and the file counts as cut short, unless the tool has ended well.
pub fn watch_tool(cmd: &CommandLine, report: ToolReport, cancelled: bool) -> (step: WatchStep)
    ensures
        step.kill == (cancelled && !(report is Ended)),
        events(step.messages@) == watch_events(report, cancelled),
        step.action@ == watch_action(cmd@, report, cancelled),
{
    let mut messages: Vec<ProgressMessage> = Vec::new();
    assert(events(messages@) =~= Seq::<Event>::empty());
    if cancelled {
        match report {
            ToolReport::Ended(ToolExit::Success) => {},
            ToolReport::Ended(_) => {
                return WatchStep {
                    kill: false,
                    messages,
                    action: WatchAction::Finish(FileOutcome::Interrupted),
                };
            },
            _ => {
                return WatchStep {
                    kill: true,
                    messages,
                    action: WatchAction::Finish(FileOutcome::Interrupted),
                };
            },
        }
    }
    match report {
        ToolReport::Line(line) => {
            match crate::transfer::parse_rsync_progress(line.as_str()) {
                Some((done, total)) => {
                    messages.push(ProgressMessage::FileProgress(done, total));
                    assert(events(messages@) =~= seq![Event::FileProgress(done, total)]);
                },
                None => {},
            }
            WatchStep { kill: false, messages, action: WatchAction::ReadLine }
        },
        ToolReport::OutputEnded => WatchStep { kill: false, messages, action: WatchAction::Wait },
        ToolReport::Ended(exit) => WatchStep {
            kill: false,
            messages,
            action: WatchAction::Finish(exit_outcome(cmd, exit)),
        },
    }
}

/// Whether `a` and `b` are the same login: the same host, port and user,
/// proved in the same way.
pub open spec fn same_login(a: RemoteProfile, b: RemoteProfile) -> bool {
    &&& a.host@ == b.host@
    &&& a.port == b.port
    &&& a.user@ == b.user@
    &&& match (a.auth, b.auth) {
        (RemoteAuth::Password { password: p }, RemoteAuth::Password { password: q }) => p@ == q@,
        (
            RemoteAuth::KeyFile { path: p, passphrase: x },
            RemoteAuth::KeyFile { path: q, passphrase: y },
        ) => p@ == q@ && crate::archive_job::opt_text(x) == crate::archive_job::opt_text(y),
        _ => false,
    }
}

/// Whether `a` and `b` are the same login.
pub fn is_same_login(a: &RemoteProfile, b: &RemoteProfile) -> (r: bool)
    ensures
        r == same_login(*a, *b),
{
    let same_proof = match (&a.auth, &b.auth) {
        (RemoteAuth::Password { password: p }, RemoteAuth::Password { password: q }) => {
            crate::text::str_eq(p.as_str(), q.as_str())
        },
        (
            RemoteAuth::KeyFile { path: p, passphrase: x },
            RemoteAuth::KeyFile { path: q, passphrase: y },
        ) => {
            crate::text::str_eq(p.as_str(), q.as_str()) && match (x, y) {
                (Some(u), Some(v)) => crate::text::str_eq(u.as_str(), v.as_str()),
                (None, None) => true,
                _ => false,
            }
        },
        _ => false,
    };
    crate::text::str_eq(a.host.as_str(), b.host.as_str()) && a.port == b.port
        && crate::text::str_eq(a.user.as_str(), b.user.as_str()) && same_proof
}

/// The session of the built-in client that a job holds: none at first, then
/// the one that was opened last. A job opens a session for a login once and
/// carries all its files through it.
pub struct Session {
    pub open_for: Option<RemoteProfile>,
}

impl Session {
    /// Whether the session is open for the login `profile`.
    pub open spec fn serves(self, profile: RemoteProfile) -> bool {
        self.open_for matches Some(p) && same_login(p, profile)
    }

    /// The state of a job that has opened no session yet.
    pub fn new() -> (s: Session)
        ensures
            s.open_for is None,
    {
        Session { open_for: None }
    }

    /// Whether a session has to be opened before a file can be carried for
    /// the login `profile`: none is open for it.
    pub fn must_connect(&self, profile: &RemoteProfile) -> (r: bool)
        ensures
            r == !self.serves(*profile),
    {
        match &self.open_for {
            Some(p) => !is_same_login(p, profile),
            None => true,
        }
    }

    /// Notes that a session was opened for the login `profile`.
    pub fn connected(&mut self, profile: RemoteProfile)
        ensures
            final(self).open_for == Some(profile),
    {
        self.open_for = Some(profile);
    }
}

/// One session serves a whole job: once a session was opened for a login,
/// none has to be opened for that login again, however many files follow.
pub proof fn lemma_one_session_serves_the_job(s: Session, profile: RemoteProfile)
    requires
        s.open_for == Some(profile),
    ensures
        s.serves(profile),
{
}

/// How a file went for which the built-in client could not reach the
/// remote host: the batch ends, since no other file would fare better.
pub fn connection_failure(reason: &str) -> (outcome: FileOutcome)
    ensures
        outcome@ == crate::batch::OutcomeView::Aborted("SFTP connection failed: "@ + reason@),
{
    FileOutcome::Aborted(crate::text::concat2("SFTP connection failed: ", reason))
}

} // verus!
