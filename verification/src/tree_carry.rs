//! The course of carrying one file, or one directory with all that is in it,
//! through the built-in client. The client knows single files only, so a
//! directory is walked from this side: it is listed, made at the other end,
//! and what it holds is carried entry by entry, the entries of a directory
//! before what follows that directory.
//!
//! The owner of the walk lists, makes and carries; after each of these it
//! hands the result to `step`.

use vstd::prelude::*;
use crate::archive_job::opt_text;
use crate::batch::{FileOutcome, OutcomeView};
use crate::text::{append_str, string_of};
use crate::transfer::{source_path, source_path_of, SftpTransfer, SftpView, TransferDirection};

verus! {

/// One entry of a directory that was listed.
#[derive(Debug, Clone, PartialEq, Eq)]
pub struct WalkEntry {
    pub name: String,
    pub is_directory: bool,
}

/// A `WalkEntry` with its name as a character sequence.
pub struct EntryView {
    pub name: Seq<char>,
    pub is_directory: bool,
}

impl View for WalkEntry {
    type V = EntryView;

    open spec fn view(&self) -> EntryView {
        EntryView { name: self.name@, is_directory: self.is_directory }
    }
}

/// Something to carry: where it is read and where it is written.
#[derive(Debug, Clone, PartialEq, Eq)]
pub struct WalkItem {
    pub from: String,
    pub to: String,
    pub is_directory: bool,
}

/// A `WalkItem` with its paths as character sequences.
pub struct ItemView {
    pub from: Seq<char>,
    pub to: Seq<char>,
    pub is_directory: bool,
}

impl View for WalkItem {
    type V = ItemView;

    open spec fn view(&self) -> ItemView {
        ItemView { from: self.from@, to: self.to@, is_directory: self.is_directory }
    }
}

/// The entries `entries` with their names as character sequences.
pub open spec fn entry_views(entries: Seq<WalkEntry>) -> Seq<EntryView> {
    Seq::new(entries.len(), |i: int| entries[i]@)
}

/// The items `items` with their paths as character sequences.
pub open spec fn item_views(items: Seq<WalkItem>) -> Seq<ItemView> {
    Seq::new(items.len(), |i: int| items[i]@)
}

/// Where a walk stands.
#[derive(Debug, Clone, Copy, PartialEq, Eq, Structural)]
pub enum CarryPhase {
    /// Nothing has happened yet.
    Fresh,
    /// What is to be carried is being listed, which tells whether it is a
    /// directory.
    ProbingRoot,
    /// The directory that is to be carried is being made at the other end.
    MakingRoot,
    /// A directory found on the way is being made at the other end.
    Making,
    /// A directory found on the way is being listed.
    Listing,
    /// A file is being carried.
    Carrying,
    /// The walk is over.
    Finished,
}

/// What the owner of a walk reports to it.
#[derive(Debug, Clone, PartialEq, Eq)]
pub enum WalkInput {
    /// The walk may begin.
    Start,
    /// What the directory asked about holds.
    Listed(Vec<WalkEntry>),
    /// The directory asked about could not be listed, for the reason given.
    ListFailed(String),
    /// The directory asked for is there: it was made, or making it failed,
    /// as it does where the directory was there before.
    DirectoryMade,
    /// The file was carried (`None`), or could not be for the reason given.
    Carried(Option<String>),
}

/// What the owner of a walk has to do next.
#[derive(Debug, Clone, PartialEq, Eq)]
pub enum WalkAction {
    /// List the directory at this path, where it is read.
    List(String),
    /// Make the directory at this path, where it is written.
    MakeDirectory(String),
    /// Carry the file from the first path to the second.
    Carry(String, String),
    /// Nothing: the walk is over, with this outcome.
    Finish(FileOutcome),
}

pub enum InputView {
    Start,
    Listed(Seq<EntryView>),
    ListFailed(Seq<char>),
    DirectoryMade,
    Carried(Option<Seq<char>>),
}

pub enum ActionView {
    List(Seq<char>),
    MakeDirectory(Seq<char>),
    Carry(Seq<char>, Seq<char>),
    Finish(OutcomeView),
}

impl View for WalkInput {
    type V = InputView;

    open spec fn view(&self) -> InputView {
        match *self {
            WalkInput::Start => InputView::Start,
            WalkInput::Listed(entries) => InputView::Listed(entry_views(entries@)),
            WalkInput::ListFailed(e) => InputView::ListFailed(e@),
            WalkInput::DirectoryMade => InputView::DirectoryMade,
            WalkInput::Carried(e) => InputView::Carried(opt_text(e)),
        }
    }
}

impl View for WalkAction {
    type V = ActionView;

    open spec fn view(&self) -> ActionView {
        match *self {
            WalkAction::List(p) => ActionView::List(p@),
            WalkAction::MakeDirectory(p) => ActionView::MakeDirectory(p@),
            WalkAction::Carry(from, to) => ActionView::Carry(from@, to@),
            WalkAction::Finish(o) => ActionView::Finish(o@),
        }
    }
}

/// The entry `entry` of the directory `parent`, as something to carry.
pub open spec fn child_of(parent: ItemView, entry: EntryView) -> ItemView {
    ItemView {
        from: source_path_of(parent.from, entry.name),
        to: source_path_of(parent.to, entry.name),
        is_directory: entry.is_directory,
    }
}

/// The entries `entries` of the directory `parent` as things to carry, the
/// last entry first: what is taken up next stands last.
pub open spec fn children_of(parent: ItemView, entries: Seq<EntryView>) -> Seq<ItemView> {
    Seq::new(entries.len(), |i: int| child_of(parent, entries[entries.len() - 1 - i]))
}

/// What is told where the directory at `path` could not be listed for the
/// reason `reason`.
pub open spec fn list_failure(direction: TransferDirection, path: Seq<char>, reason: Seq<char>) -> Seq<
    char,
> {
    (if direction == TransferDirection::RemoteToLocal {
        "Failed to list '"@
    } else {
        "Failed to read dir '"@
    }) + path + "': "@ + reason
}

/// The state of a walk.
#[verifier::ext_equal]
pub struct CarryState {
    pub direction: TransferDirection,
    /// What the walk is to carry.
    pub root: ItemView,
    pub phase: CarryPhase,
    /// The directory or file at hand.
    pub current: ItemView,
    /// What is still to be carried; the last is taken up next.
    pub pending: Seq<ItemView>,
    /// Why the walk failed, once it has.
    pub failure: Option<Seq<char>>,
    /// The walk was cut short.
    pub interrupted: bool,
}

impl CarryState {
    /// The state of a walk that is to carry what `what` names.
    pub open spec fn initial(what: SftpView) -> CarryState {
        let root = match what.direction {
            TransferDirection::RemoteToLocal => ItemView {
                from: what.remote,
                to: what.local,
                is_directory: false,
            },
            TransferDirection::LocalToRemote => ItemView {
                from: what.local,
                to: what.remote,
                is_directory: false,
            },
        };
        CarryState {
            direction: what.direction,
            root,
            phase: CarryPhase::Fresh,
            current: root,
            pending: Seq::empty(),
            failure: None,
            interrupted: false,
        }
    }

    /// What holds of every state a walk can reach.
    pub open spec fn wf(self) -> bool {
        &&& self.phase != CarryPhase::Finished ==> self.failure is None && !self.interrupted
        &&& self.interrupted ==> self.failure is None
    }

    /// How the walk went, once it is over.
    pub open spec fn outcome(self) -> OutcomeView {
        if self.interrupted {
            OutcomeView::Interrupted
        } else {
            match self.failure {
                Some(e) => OutcomeView::Failed(e),
                None => OutcomeView::Done,
            }
        }
    }

    /// The walk ends, for the reason `failure` where it failed.
    pub open spec fn finish(self, failure: Option<Seq<char>>) -> (CarryState, ActionView) {
        let s = CarryState { phase: CarryPhase::Finished, failure, interrupted: false, ..self };
        (s, ActionView::Finish(s.outcome()))
    }

    /// The walk is cut short.
    pub open spec fn interrupt(self) -> (CarryState, ActionView) {
        (
            CarryState { phase: CarryPhase::Finished, failure: None, interrupted: true, ..self },
            ActionView::Finish(OutcomeView::Interrupted),
        )
    }

    /// The walk takes up what is next. Where nothing is left it is done;
    /// else, where the caller has asked the job to stop, it is cut short.
    pub open spec fn proceed(self, cancelled: bool) -> (CarryState, ActionView) {
        if self.pending.len() == 0 {
            self.finish(None)
        } else if cancelled {
            self.interrupt()
        } else {
            let item = self.pending.last();
            let rest = self.pending.drop_last();
            if item.is_directory {
                (
                    CarryState { phase: CarryPhase::Making, current: item, pending: rest, ..self },
                    ActionView::MakeDirectory(item.to),
                )
            } else {
                (
                    CarryState {
                        phase: CarryPhase::Carrying,
                        current: item,
                        pending: rest,
                        ..self
                    },
                    ActionView::Carry(item.from, item.to),
                )
            }
        }
    }

    /// The state after the report `input`, and the answer to it.
    /// `cancelled` says whether the caller has asked the job to stop: the
    /// walk then asks for nothing more. A walk that is over stays as it is
    /// and repeats its outcome.
    pub open spec fn step(self, input: InputView, cancelled: bool) -> (CarryState, ActionView) {
        match (self.phase, input) {
            (CarryPhase::Finished, _) => (self, ActionView::Finish(self.outcome())),
            (CarryPhase::Fresh, InputView::Start) => if cancelled {
                self.interrupt()
            } else {
                (
                    CarryState { phase: CarryPhase::ProbingRoot, ..self },
                    ActionView::List(self.root.from),
                )
            },
            (CarryPhase::ProbingRoot, InputView::Listed(entries)) => if cancelled {
                self.interrupt()
            } else {
                (
                    CarryState {
                        phase: CarryPhase::MakingRoot,
                        pending: children_of(self.root, entries),
                        ..self
                    },
                    ActionView::MakeDirectory(self.root.to),
                )
            },
            (CarryPhase::ProbingRoot, InputView::ListFailed(_)) => if cancelled {
                self.interrupt()
            } else {
                (
                    CarryState { phase: CarryPhase::Carrying, current: self.root, ..self },
                    ActionView::Carry(self.root.from, self.root.to),
                )
            },
            (CarryPhase::MakingRoot, InputView::DirectoryMade) => self.proceed(cancelled),
            (CarryPhase::Making, InputView::DirectoryMade) => if cancelled {
                self.interrupt()
            } else {
                (
                    CarryState { phase: CarryPhase::Listing, ..self },
                    ActionView::List(self.current.from),
                )
            },
            (CarryPhase::Listing, InputView::Listed(entries)) => (CarryState {
                pending: self.pending + children_of(self.current, entries),
                ..self
            }).proceed(cancelled),
            (CarryPhase::Listing, InputView::ListFailed(e)) => if cancelled {
                self.interrupt()
            } else {
                self.finish(Some(list_failure(self.direction, self.current.from, e)))
            },
            (CarryPhase::Carrying, InputView::Carried(None)) => self.proceed(cancelled),
            (CarryPhase::Carrying, InputView::Carried(Some(e))) => if cancelled {
                self.interrupt()
            } else {
                self.finish(Some(e))
            },
            _ => self.finish(Some("Unexpected event"@)),
        }
    }
}

/// Every report keeps a reachable state reachable.
pub proof fn lemma_step_keeps_wf(s: CarryState, input: InputView, cancelled: bool)
    requires
        s.wf(),
    ensures
        s.step(input, cancelled).0.wf(),
{
}

/// A walk that is over keeps its outcome: asked again, whatever it is told,
/// it stays as it is and answers as it did when it ended.
pub proof fn lemma_walk_keeps_its_outcome(
    s: CarryState,
    first: InputView,
    later: InputView,
    c1: bool,
    c2: bool,
)
    requires
        s.wf(),
        s.step(first, c1).0.phase == CarryPhase::Finished,
    ensures
        s.step(first, c1).1 is Finish,
        s.step(first, c1).0.step(later, c2).0 == s.step(first, c1).0,
        s.step(first, c1).0.step(later, c2).1 == s.step(first, c1).1,
{
}

/// Once the caller has asked the job to stop, a walk asks for nothing more:
/// it ends with the report at hand, cut short unless nothing was left to do.
pub proof fn lemma_cancelled_walk_asks_for_nothing(s: CarryState, input: InputView)
    requires
        s.wf(),
    ensures
        s.step(input, true).1 is Finish,
        s.step(input, true).0.phase == CarryPhase::Finished,
{
}

/// What a directory holds is carried in the order of its listing, and
/// before what was waiting when the directory was taken up: after a listing
/// the walk takes up the first entry, and the other entries wait in front of
/// everything else.
pub proof fn lemma_listing_is_walked_in_order(s: CarryState, entries: Seq<EntryView>)
    requires
        s.wf(),
        s.phase == CarryPhase::Listing,
        entries.len() > 0,
    ensures
        s.step(InputView::Listed(entries), false).0.current == child_of(s.current, entries[0]),
        s.step(InputView::Listed(entries), false).0.pending == s.pending + children_of(
            s.current,
            entries.subrange(1, entries.len() as int),
        ),
{
    let all = children_of(s.current, entries);
    let rest = children_of(s.current, entries.subrange(1, entries.len() as int));
    assert((s.pending + all).last() == all.last());
    assert((s.pending + all).drop_last() =~= s.pending + rest);
}

/// The first failure to carry a file, or to list a directory found on the
/// way, ends the walk with that failure.
pub proof fn lemma_failure_ends_the_walk(s: CarryState, e: Seq<char>)
    requires
        s.wf(),
    ensures
        s.phase == CarryPhase::Carrying ==> s.step(InputView::Carried(Some(e)), false).1
            == ActionView::Finish(OutcomeView::Failed(e)),
        s.phase == CarryPhase::Listing ==> s.step(InputView::ListFailed(e), false).1
            == ActionView::Finish(
            OutcomeView::Failed(list_failure(s.direction, s.current.from, e)),
        ),
{
}

/// A walk: one file or directory on its way through the built-in client.
pub struct TreeCarry {
    direction: TransferDirection,
    root: WalkItem,
    phase: CarryPhase,
    current: WalkItem,
    pending: Vec<WalkItem>,
    failure: Option<String>,
    interrupted: bool,
}

impl View for TreeCarry {
    type V = CarryState;

    closed spec fn view(&self) -> CarryState {
        CarryState {
            direction: self.direction,
            root: self.root@,
            phase: self.phase,
            current: self.current@,
            pending: item_views(self.pending@),
            failure: opt_text(self.failure),
            interrupted: self.interrupted,
        }
    }
}

fn copy_item(item: &WalkItem) -> (r: WalkItem)
    ensures
        r@ == item@,
{
    WalkItem { from: item.from.clone(), to: item.to.clone(), is_directory: item.is_directory }
}

impl TreeCarry {
    /// A walk that is to carry what `what` names: from the remote path to
    /// the local one, or the other way, as the direction says.
    pub fn new(what: &SftpTransfer) -> (walk: TreeCarry)
        ensures
            walk@ == CarryState::initial(what@),
            walk@.wf(),
    {
        let root = match what.direction {
            TransferDirection::RemoteToLocal => WalkItem {
                from: what.remote.clone(),
                to: what.local.clone(),
                is_directory: false,
            },
            TransferDirection::LocalToRemote => WalkItem {
                from: what.local.clone(),
                to: what.remote.clone(),
                is_directory: false,
            },
        };
        let current = copy_item(&root);
        let pending: Vec<WalkItem> = Vec::new();
        assert(item_views(pending@) =~= Seq::<ItemView>::empty());
        TreeCarry {
            direction: what.direction,
            root,
            phase: CarryPhase::Fresh,
            current,
            pending,
            failure: None,
            interrupted: false,
        }
    }

    /// Whether the walk is over.
    pub fn is_finished(&self) -> (r: bool)
        ensures
            r == (self@.phase == CarryPhase::Finished),
    {
        self.phase == CarryPhase::Finished
    }

    fn outcome(&self) -> (o: FileOutcome)
        ensures
            o@ == self@.outcome(),
    {
        if self.interrupted {
            FileOutcome::Interrupted
        } else {
            match &self.failure {
                Some(e) => FileOutcome::Failed(e.clone()),
                None => FileOutcome::Done,
            }
        }
    }

    fn finish(&mut self, failure: Option<String>) -> (action: WalkAction)
        ensures
            final(self)@ == old(self)@.finish(opt_text(failure)).0,
            action@ == old(self)@.finish(opt_text(failure)).1,
    {
        self.phase = CarryPhase::Finished;
        self.failure = failure;
        self.interrupted = false;
        WalkAction::Finish(self.outcome())
    }

    fn interrupt(&mut self) -> (action: WalkAction)
        ensures
            final(self)@ == old(self)@.interrupt().0,
            action@ == old(self)@.interrupt().1,
    {
        self.phase = CarryPhase::Finished;
        self.failure = None;
        self.interrupted = true;
        WalkAction::Finish(FileOutcome::Interrupted)
    }

    fn proceed(&mut self, cancelled: bool) -> (action: WalkAction)
        ensures
            final(self)@ == old(self)@.proceed(cancelled).0,
            action@ == old(self)@.proceed(cancelled).1,
    {
        if self.pending.len() == 0 {
            return self.finish(None);
        }
        if cancelled {
            return self.interrupt();
        }
        let ghost before = self.pending@;
        let item = match self.pending.pop() {
            Some(item) => item,
            None => {
                return self.finish(None);
            },
        };
        assert(item_views(self.pending@) =~= item_views(before).drop_last());
        assert(item@ == item_views(before).last());
        let action = if item.is_directory {
            self.phase = CarryPhase::Making;
            WalkAction::MakeDirectory(item.to.clone())
        } else {
            self.phase = CarryPhase::Carrying;
            WalkAction::Carry(item.from.clone(), item.to.clone())
        };
        self.current = item;
        action
    }

    /// Puts the entries `entries` of the directory `parent` in front of what
    /// is waiting, the first entry to be taken up next.
    fn put_in_front(&mut self, entries: &Vec<WalkEntry>, of_root: bool)
        ensures
            final(self)@ == (CarryState {
                pending: old(self)@.pending + children_of(
                    if of_root {
                        old(self)@.root
                    } else {
                        old(self)@.current
                    },
                    entry_views(entries@),
                ),
                ..old(self)@
            }),
    {
        let ghost parent = if of_root {
            self@.root
        } else {
            self@.current
        };
        let ghost all = children_of(parent, entry_views(entries@));
        let ghost base = self@.pending;
        let n = entries.len();
        let mut j: usize = 0;
        assert(base + all.subrange(0, 0) =~= base);
        while j < n
            invariant
                j <= n,
                n == entries@.len(),
                all == children_of(parent, entry_views(entries@)),
                parent == (if of_root {
                    self@.root
                } else {
                    self@.current
                }),
                self@ == (CarryState { pending: base + all.subrange(0, j as int), ..old(self)@ }),
            decreases n - j,
        {
            let entry = &entries[n - 1 - j];
            let item = if of_root {
                WalkItem {
                    from: source_path(self.root.from.as_str(), entry.name.as_str()),
                    to: source_path(self.root.to.as_str(), entry.name.as_str()),
                    is_directory: entry.is_directory,
                }
            } else {
                WalkItem {
                    from: source_path(self.current.from.as_str(), entry.name.as_str()),
                    to: source_path(self.current.to.as_str(), entry.name.as_str()),
                    is_directory: entry.is_directory,
                }
            };
            assert(item@ == all[j as int]);
            let ghost held = self.pending@;
            self.pending.push(item);
            assert(item_views(self.pending@) =~= item_views(held).push(item@));
            assert(base + all.subrange(0, j + 1) =~= (base + all.subrange(0, j as int)).push(
                all[j as int],
            ));
            j += 1;
        }
        assert(all.subrange(0, n as int) =~= all);
    }

    fn list_failed(&mut self, reason: &str) -> (action: WalkAction)
        ensures
            final(self)@ == old(self)@.finish(
                Some(list_failure(old(self)@.direction, old(self)@.current.from, reason@)),
            ).0,
            action@ == old(self)@.finish(
                Some(list_failure(old(self)@.direction, old(self)@.current.from, reason@)),
            ).1,
    {
        let mut text: Vec<char> = Vec::new();
        match self.direction {
            TransferDirection::RemoteToLocal => append_str(&mut text, "Failed to list '"),
            TransferDirection::LocalToRemote => append_str(&mut text, "Failed to read dir '"),
        }
        append_str(&mut text, self.current.from.as_str());
        append_str(&mut text, "': ");
        append_str(&mut text, reason);
        assert(text@ =~= list_failure(self@.direction, self@.current.from, reason@));
        self.finish(Some(string_of(&text)))
    }

    /// Takes the report `input` and answers with what to do next.
    /// `cancelled` says whether the caller has asked the job to stop: the
    /// walk then ends, cut short unless nothing was left to do. What cannot
    /// be listed at the start is carried as a file; a directory found on the
    /// way that cannot be listed, and a file that cannot be carried, end the
    /// walk in failure. A report that does not fit where the walk stands
    /// ends it in failure too.
    pub fn step(&mut self, input: WalkInput, cancelled: bool) -> (action: WalkAction)
        requires
            old(self)@.wf(),
        ensures
            final(self)@ == old(self)@.step(input@, cancelled).0,
            action@ == old(self)@.step(input@, cancelled).1,
            final(self)@.wf(),
    {
        proof {
            lemma_step_keeps_wf(self@, input@, cancelled);
        }
        match self.phase {
            CarryPhase::Finished => WalkAction::Finish(self.outcome()),
            CarryPhase::Fresh => match input {
                WalkInput::Start => {
                    if cancelled {
                        self.interrupt()
                    } else {
                        self.phase = CarryPhase::ProbingRoot;
                        WalkAction::List(self.root.from.clone())
                    }
                },
                _ => self.finish(Some(String::from_str("Unexpected event"))),
            },
            CarryPhase::ProbingRoot => match input {
                WalkInput::Listed(entries) => {
                    if cancelled {
                        self.interrupt()
                    } else {
                        self.pending = Vec::new();
                        assert(item_views(self.pending@) =~= Seq::<ItemView>::empty());
                        let ghost parent = self@.root;
                        self.put_in_front(&entries, true);
                        assert(Seq::<ItemView>::empty() + children_of(parent, entry_views(entries@))
                            =~= children_of(parent, entry_views(entries@)));
                        self.phase = CarryPhase::MakingRoot;
                        WalkAction::MakeDirectory(self.root.to.clone())
                    }
                },
                WalkInput::ListFailed(_) => {
                    if cancelled {
                        self.interrupt()
                    } else {
                        self.phase = CarryPhase::Carrying;
                        self.current = copy_item(&self.root);
                        WalkAction::Carry(self.root.from.clone(), self.root.to.clone())
                    }
                },
                _ => self.finish(Some(String::from_str("Unexpected event"))),
            },
            CarryPhase::MakingRoot => match input {
                WalkInput::DirectoryMade => self.proceed(cancelled),
                _ => self.finish(Some(String::from_str("Unexpected event"))),
            },
            CarryPhase::Making => match input {
                WalkInput::DirectoryMade => {
                    if cancelled {
                        self.interrupt()
                    } else {
                        self.phase = CarryPhase::Listing;
                        WalkAction::List(self.current.from.clone())
                    }
                },
                _ => self.finish(Some(String::from_str("Unexpected event"))),
            },
            CarryPhase::Listing => match input {
                WalkInput::Listed(entries) => {
                    self.put_in_front(&entries, false);
                    self.proceed(cancelled)
                },
                WalkInput::ListFailed(e) => {
                    if cancelled {
                        self.interrupt()
                    } else {
                        self.list_failed(e.as_str())
                    }
                },
                _ => self.finish(Some(String::from_str("Unexpected event"))),
            },
            CarryPhase::Carrying => match input {
                WalkInput::Carried(None) => self.proceed(cancelled),
                WalkInput::Carried(Some(e)) => {
                    if cancelled {
                        self.interrupt()
                    } else {
                        self.finish(Some(e))
                    }
                },
                _ => self.finish(Some(String::from_str("Unexpected event"))),
            },
        }
    }
}

} // verus!
