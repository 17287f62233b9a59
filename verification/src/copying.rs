//! Copying file by file: the list of everything under the chosen entries in
//! the order in which it is copied, the batch that keeps the books for it,
//! and how often the progress within one file is reported.

use vstd::prelude::*;
use crate::batch::{capped_sum, name_views, BatchJob, BatchState};
use crate::progress::{events, Event, ProgressMessage};

verus! {

/// One thing found under a chosen entry: the entry itself, or a file or a
/// directory somewhere below it.
#[derive(Debug, Clone, PartialEq, Eq)]
pub struct TreeNode {
    /// Its path from the directory that the entries are chosen in.
    pub path: String,
    pub is_directory: bool,
    /// Its size in bytes, as found.
    pub size: u64,
}

/// A `TreeNode` with its path as a character sequence.
pub struct NodeView {
    pub path: Seq<char>,
    pub is_directory: bool,
    pub size: u64,
}

impl View for TreeNode {
    type V = NodeView;

    open spec fn view(&self) -> NodeView {
        NodeView { path: self.path@, is_directory: self.is_directory, size: self.size }
    }
}

/// One step of a copy: a directory to make or a file to copy, or a chosen
/// entry that is left out.
#[derive(Debug, Clone, PartialEq, Eq)]
pub struct CopyStep {
    /// Its path from the directory that the entries are chosen in.
    pub path: String,
    pub is_directory: bool,
    /// The bytes that the step copies: none for a directory.
    pub size: u64,
    /// Whether the step is left out.
    pub skip: bool,
}

/// A `CopyStep` with its path as a character sequence.
pub struct StepView {
    pub path: Seq<char>,
    pub is_directory: bool,
    pub size: u64,
    pub skip: bool,
}

impl View for CopyStep {
    type V = StepView;

    open spec fn view(&self) -> StepView {
        StepView {
            path: self.path@,
            is_directory: self.is_directory,
            size: self.size,
            skip: self.skip,
        }
    }
}

/// The views of a list of nodes.
pub open spec fn node_views(ns: Seq<TreeNode>) -> Seq<NodeView> {
    Seq::new(ns.len(), |i: int| ns[i]@)
}

/// The views of the lists of nodes found under each entry.
pub open spec fn walk_views(ws: Seq<Vec<TreeNode>>) -> Seq<Seq<NodeView>> {
    Seq::new(ws.len(), |i: int| node_views(ws[i]@))
}

/// The views of a list of steps.
pub open spec fn step_views(ss: Seq<CopyStep>) -> Seq<StepView> {
    Seq::new(ss.len(), |i: int| ss[i]@)
}

/// The step that copies the node `n`: a directory is made and counts no
/// bytes, a file counts its size.
pub open spec fn step_of_node(n: NodeView) -> StepView {
    StepView {
        path: n.path,
        is_directory: n.is_directory,
        size: if n.is_directory {
            0
        } else {
            n.size
        },
        skip: false,
    }
}

/// The one step that stands for the entry `name` as a whole.
pub open spec fn whole_entry(name: Seq<char>, skip: bool) -> StepView {
    StepView { path: name, is_directory: false, size: 0, skip }
}

/// The steps of one chosen entry. One that is left out is one step that is
/// left out. Of the others, each node found under it is a step, in the order
/// found; where nothing was found, the entry itself is tried, so that the
/// failure is told.
pub open spec fn entry_steps(name: Seq<char>, skip: bool, walk: Seq<NodeView>) -> Seq<StepView> {
    if skip || walk.len() == 0 {
        seq![whole_entry(name, skip)]
    } else {
        Seq::new(walk.len(), |k: int| step_of_node(walk[k]))
    }
}

/// The steps of the first `n` chosen entries, in the order of the entries.
pub open spec fn steps_upto(
    names: Seq<Seq<char>>,
    skip: Seq<bool>,
    walks: Seq<Seq<NodeView>>,
    n: nat,
) -> Seq<StepView>
    decreases n,
{
    if n == 0 || n > names.len() || n > skip.len() || n > walks.len() {
        Seq::empty()
    } else {
        steps_upto(names, skip, walks, (n - 1) as nat) + entry_steps(
            names[n - 1],
            skip[n - 1],
            walks[n - 1],
        )
    }
}

/// The paths of the steps `ss`.
pub open spec fn step_paths(ss: Seq<StepView>) -> Seq<Seq<char>> {
    Seq::new(ss.len(), |i: int| ss[i].path)
}

/// Which of the steps `ss` are left out.
pub open spec fn step_skips(ss: Seq<StepView>) -> Seq<bool> {
    Seq::new(ss.len(), |i: int| ss[i].skip)
}

/// The bytes of each of the steps `ss`.
pub open spec fn step_sizes(ss: Seq<StepView>) -> Seq<u64> {
    Seq::new(ss.len(), |i: int| ss[i].size)
}

/// Where every chosen entry is left out, so is every step: nothing is
/// written, whatever was found under the entries.
pub proof fn lemma_all_left_out(
    names: Seq<Seq<char>>,
    skip: Seq<bool>,
    walks: Seq<Seq<NodeView>>,
    n: nat,
)
    requires
        forall|i: int| 0 <= i < skip.len() ==> #[trigger] skip[i],
    ensures
        forall|k: int|
            0 <= k < steps_upto(names, skip, walks, n).len() ==> (#[trigger] steps_upto(
                names,
                skip,
                walks,
                n,
            )[k]).skip,
        steps_upto(names, skip, walks, n).len() <= n,
    decreases n,
{
    if !(n == 0 || n > names.len() || n > skip.len() || n > walks.len()) {
        lemma_all_left_out(names, skip, walks, (n - 1) as nat);
        assert(skip[n - 1]);
    }
}

/// Lists what a copy of the chosen entries `names` does, step by step:
/// `skip` says which entries are left out, `walks` holds for each entry what
/// was found under it, the entry itself first. `None` where the three lists
/// differ in length.
pub fn plan_copy(names: &Vec<String>, skip: &Vec<bool>, walks: &Vec<Vec<TreeNode>>) -> (plan:
    Option<Vec<CopyStep>>)
    ensures
        plan is Some <==> names@.len() == skip@.len() && names@.len() == walks@.len(),
        plan matches Some(steps) ==> step_views(steps@) == steps_upto(
            name_views(names@),
            skip@,
            walk_views(walks@),
            names@.len(),
        ),
{
    if names.len() != skip.len() || names.len() != walks.len() {
        return None;
    }
    let ghost ns = name_views(names@);
    let ghost ws = walk_views(walks@);
    assert(ns.len() == names@.len());
    let mut steps: Vec<CopyStep> = Vec::new();
    let mut i: usize = 0;
    assert(step_views(steps@) =~= steps_upto(ns, skip@, ws, 0));
    while i < names.len()
        invariant
            i <= names@.len(),
            names@.len() == skip@.len(),
            names@.len() == walks@.len(),
            ns == name_views(names@),
            ns.len() == names@.len(),
            ws == walk_views(walks@),
            step_views(steps@) == steps_upto(ns, skip@, ws, i as nat),
        decreases names@.len() - i,
    {
        let ghost before = step_views(steps@);
        let walk = &walks[i];
        assert(ws[i as int] == node_views(walk@));
        assert(ns[i as int] == names@[i as int]@);
        if skip[i] || walk.len() == 0 {
            steps.push(
                CopyStep { path: names[i].clone(), is_directory: false, size: 0, skip: skip[i] },
            );
            assert(step_views(steps@) =~= before + entry_steps(
                ns[i as int],
                skip@[i as int],
                ws[i as int],
            ));
        } else {
            let mut k: usize = 0;
            while k < walk.len()
                invariant
                    k <= walk@.len(),
                    step_views(steps@) == before + Seq::new(
                        k as nat,
                        |j: int| step_of_node(walk@[j]@),
                    ),
                decreases walk@.len() - k,
            {
                let ghost so_far = step_views(steps@);
                let node = &walk[k];
                let size = if node.is_directory {
                    0
                } else {
                    node.size
                };
                steps.push(
                    CopyStep {
                        path: node.path.clone(),
                        is_directory: node.is_directory,
                        size,
                        skip: false,
                    },
                );
                assert(step_views(steps@) =~= so_far.push(step_of_node(walk@[k as int]@)));
                assert(Seq::new((k + 1) as nat, |j: int| step_of_node(walk@[j]@)) =~= Seq::new(
                    k as nat,
                    |j: int| step_of_node(walk@[j]@),
                ).push(step_of_node(walk@[k as int]@)));
                k += 1;
            }
            assert(Seq::new(walk@.len(), |j: int| step_of_node(walk@[j]@)) =~= entry_steps(
                ns[i as int],
                skip@[i as int],
                ws[i as int],
            ));
        }
        i += 1;
    }
    Some(steps)
}

/// The batch that keeps the books for the steps `steps`, told their sizes,
/// and the event that reports the totals to begin with.
pub fn copy_job(steps: &Vec<CopyStep>) -> (r: (BatchJob, Vec<ProgressMessage>))
    ensures
        r.0@ == BatchState::initial(
            step_paths(step_views(steps@)),
            step_skips(step_views(steps@)),
        ).measured(step_sizes(step_views(steps@))),
        r.0@.wf(),
        events(r.1@) == seq![Event::TotalProgress(0, r.0@.total_files, 0, r.0@.total_bytes)],
{
    let mut names: Vec<String> = Vec::new();
    let mut skips: Vec<bool> = Vec::new();
    let mut sizes: Vec<u64> = Vec::new();
    let ghost ss = step_views(steps@);
    let mut i: usize = 0;
    while i < steps.len()
        invariant
            i <= steps@.len(),
            ss == step_views(steps@),
            names@.len() == i,
            skips@.len() == i,
            sizes@.len() == i,
            forall|j: int| 0 <= j < i ==> names@[j]@ == ss[j].path,
            forall|j: int| 0 <= j < i ==> skips@[j] == ss[j].skip,
            forall|j: int| 0 <= j < i ==> sizes@[j] == ss[j].size,
        decreases steps@.len() - i,
    {
        names.push(steps[i].path.clone());
        skips.push(steps[i].skip);
        sizes.push(steps[i].size);
        i += 1;
    }
    assert(name_views(names@) =~= step_paths(ss));
    assert(skips@ =~= step_skips(ss));
    assert(sizes@ =~= step_sizes(ss));
    match BatchJob::new(names, skips) {
        Some(job) => {
            let mut job = job;
            let msgs = job.measure(sizes);
            (job, msgs)
        },
        None => {
            // never taken: the two lists are of one length
            (BatchJob::all_of(Vec::new()), Vec::new())
        },
    }
}

/// The copy of one file, whose progress is reported no more often than
/// every `interval` ticks of the clock.
#[derive(Debug, Clone, Copy, PartialEq, Eq)]
pub struct FileCopy {
    /// The size of the file.
    pub total: u64,
    /// The bytes copied so far.
    pub copied: u64,
    /// The ticks that pass at least between two reports.
    pub interval: u64,
    /// When the progress was last reported.
    pub last_report: Option<u64>,
}

impl FileCopy {
    /// Whether a report is due at the time `now` with `copied` bytes done:
    /// the first one and the one of the last byte always are; any other,
    /// where the interval has passed since the last report, or the clock
    /// was set back.
    pub open spec fn due(self, copied: u64, now: u64) -> bool {
        copied >= self.total || match self.last_report {
            None => true,
            Some(at) => now < at || now - at >= self.interval,
        }
    }

    /// The copy of a file of `total` bytes, nothing copied yet.
    pub fn new(total: u64, interval: u64) -> (c: FileCopy)
        ensures
            c.total == total,
            c.copied == 0,
            c.interval == interval,
            c.last_report is None,
    {
        FileCopy { total, copied: 0, interval, last_report: None }
    }

    /// Counts `bytes` more bytes as copied, at the time `now`. Returns the
    /// event that reports the progress where a report is due, which the
    /// copy then remembers; nothing otherwise.
    pub fn advance(&mut self, bytes: u64, now: u64) -> (msg: Option<ProgressMessage>)
        ensures
            final(self).total == old(self).total,
            final(self).interval == old(self).interval,
            final(self).copied == capped_sum(old(self).copied, bytes),
            old(self).due(final(self).copied, now) ==> final(self).last_report == Some(now)
                && msg == Some(ProgressMessage::FileProgress(final(self).copied, old(self).total)),
            !old(self).due(final(self).copied, now) ==> final(self).last_report == old(
                self,
            ).last_report && msg is None,
    {
        self.copied = if self.copied > u64::MAX - bytes {
            u64::MAX
        } else {
            self.copied + bytes
        };
        let due = self.copied >= self.total || match self.last_report {
            None => true,
            Some(at) => now < at || now - at >= self.interval,
        };
        if due {
            self.last_report = Some(now);
            Some(ProgressMessage::FileProgress(self.copied, self.total))
        } else {
            None
        }
    }
}

} // verus!
