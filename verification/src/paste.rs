//! The decisions around pasting files: which files clash with what is at
//! the destination, how the user's answers turn into the set of files left
//! out, what a paste into the folder the files came from is named, and when
//! nothing is to be done at all.

use vstd::prelude::*;
use crate::batch::{BatchJob, BatchState, FileOutcome};
use crate::command::clone_strings;
use crate::progress::FileOperationType;
use crate::state::CopyExcludeState;
use crate::text::{
    append_chars, append_decimal, append_str, chars_of, decimal, str_eq, string_of, subvec, texts,
};
use crate::transfer::{join_path, joined_path};

verus! {

/// What a paste does with the files it takes.
#[derive(Debug, Clone, Copy, PartialEq, Eq, Structural)]
pub enum ClipboardOperation {
    Copy,
    Cut,
}

/// The files that were copied or cut, and the folder they are in.
#[derive(Debug, Clone, PartialEq, Eq)]
pub struct Clipboard {
    pub files: Vec<String>,
    pub source_path: String,
    pub operation: ClipboardOperation,
}

/// An answer of the user to one clash.
#[derive(Debug, Clone, Copy, PartialEq, Eq, Structural)]
pub enum ConflictResolution {
    Overwrite,
    Skip,
    OverwriteAll,
    SkipAll,
}

/// The flag for the entry `i`; an entry without a flag counts as not flagged.
pub open spec fn flag_at(flags: Seq<bool>, i: int) -> bool {
    0 <= i < flags.len() && flags[i]
}

/// The entries of `items` whose flag is `wanted`, in order.
pub open spec fn chosen(items: Seq<Seq<char>>, flags: Seq<bool>, wanted: bool) -> Seq<Seq<char>>
    decreases items.len(),
{
    if items.len() == 0 {
        Seq::empty()
    } else {
        let rest = chosen(items.drop_last(), flags, wanted);
        if flag_at(flags, items.len() - 1) == wanted {
            rest.push(items.last())
        } else {
            rest
        }
    }
}

/// The entries of `items` whose flag is `wanted`, in order.
pub fn choose_by_flag(items: &Vec<String>, flags: &Vec<bool>, wanted: bool) -> (out: Vec<String>)
    ensures
        texts(out@) == chosen(texts(items@), flags@, wanted),
{
    let mut out: Vec<String> = Vec::new();
    let ghost all = texts(items@);
    let mut i: usize = 0;
    assert(all.subrange(0, 0) == Seq::<Seq<char>>::empty());
    assert(texts(out@) == Seq::<Seq<char>>::empty());
    while i < items.len()
        invariant
            i <= items.len(),
            all == texts(items@),
            texts(out@) == chosen(all.subrange(0, i as int), flags@, wanted),
        decreases items.len() - i,
    {
        assert(all.subrange(0, i + 1).drop_last() == all.subrange(0, i as int));
        assert(all.subrange(0, i + 1).last() == items@[i as int]@);
        let flag = i < flags.len() && flags[i];
        if flag == wanted {
            let ghost before = texts(out@);
            out.push(items[i].clone());
            assert(texts(out@) == before.push(items@[i as int]@));
        }
        i += 1;
    }
    assert(all.subrange(0, items.len() as int) == all);
    out
}

/// One clash: the path of the file to paste, the path that is in its way,
/// and the name shown to the user.
pub type Conflict = (String, String, String);

/// A clash with its texts as character sequences.
pub type ConflictView = (Seq<char>, Seq<char>, Seq<char>);

/// The views of a list of clashes.
pub open spec fn conflict_views(v: Seq<Conflict>) -> Seq<ConflictView> {
    v.map_values(|c: Conflict| (c.0@, c.1@, c.2@))
}

/// The clash of the file `name` of `source_dir` with what is at `target_dir`.
pub open spec fn conflict_of(source_dir: Seq<char>, target_dir: Seq<char>, name: Seq<char>) -> ConflictView {
    (joined_path(source_dir, name), joined_path(target_dir, name), name)
}

/// The clashes of the files `files` of `source_dir` with what is at
/// `target_dir`: one for every file whose flag in `exists` says that its
/// destination is there, in the order of the files.
pub open spec fn conflicts_of(
    source_dir: Seq<char>,
    target_dir: Seq<char>,
    files: Seq<Seq<char>>,
    exists: Seq<bool>,
) -> Seq<ConflictView> {
    chosen(files, exists, true).map_values(
        |name: Seq<char>| conflict_of(source_dir, target_dir, name),
    )
}

/// The destination of each file of `files` below `target_dir`, in order; the
/// caller finds out which of these exist.
pub fn destination_paths(target_dir: &str, files: &Vec<String>) -> (out: Vec<String>)
    ensures
        texts(out@) == texts(files@).map_values(|name: Seq<char>| joined_path(target_dir@, name)),
{
    let mut out: Vec<String> = Vec::new();
    let ghost all = texts(files@).map_values(|name: Seq<char>| joined_path(target_dir@, name));
    let mut i: usize = 0;
    assert(texts(out@) == all.subrange(0, 0));
    while i < files.len()
        invariant
            i <= files.len(),
            all == texts(files@).map_values(|name: Seq<char>| joined_path(target_dir@, name)),
            texts(out@) == all.subrange(0, i as int),
        decreases files.len() - i,
    {
        let ghost before = texts(out@);
        out.push(join_path(target_dir, files[i].as_str()));
        assert(texts(out@) == before.push(joined_path(target_dir@, files@[i as int]@)));
        assert(all.subrange(0, i + 1) == all.subrange(0, i as int).push(all[i as int]));
        i += 1;
    }
    assert(all.subrange(0, files.len() as int) == all);
    out
}

/// Finds the clashes of a copy or move of `files` from `source_dir` to
/// `target_dir`. `exists` says for each file whether its destination is
/// there.
pub fn detect_operation_conflicts(
    source_dir: &str,
    target_dir: &str,
    files: &Vec<String>,
    exists: &Vec<bool>,
) -> (out: Vec<Conflict>)
    ensures
        conflict_views(out@) == conflicts_of(source_dir@, target_dir@, texts(files@), exists@),
{
    let clashing = choose_by_flag(files, exists, true);
    let ghost all = conflicts_of(source_dir@, target_dir@, texts(files@), exists@);
    let mut out: Vec<Conflict> = Vec::new();
    let mut i: usize = 0;
    assert(conflict_views(out@) == all.subrange(0, 0));
    while i < clashing.len()
        invariant
            i <= clashing.len(),
            texts(clashing@) == chosen(texts(files@), exists@, true),
            all == conflicts_of(source_dir@, target_dir@, texts(files@), exists@),
            conflict_views(out@) == all.subrange(0, i as int),
        decreases clashing.len() - i,
    {
        let name = clashing[i].clone();
        assert(name@ == texts(clashing@)[i as int]);
        let src = join_path(source_dir, name.as_str());
        let dst = join_path(target_dir, name.as_str());
        let ghost before = conflict_views(out@);
        out.push((src, dst, name));
        assert(conflict_views(out@) == before.push(conflict_of(source_dir@, target_dir@, name@)));
        assert(all.subrange(0, i + 1) == all.subrange(0, i as int).push(all[i as int]));
        i += 1;
    }
    assert(texts(clashing@).len() == clashing@.len());
    assert(all.subrange(0, clashing.len() as int) == all);
    out
}

/// Finds the clashes of a paste of `valid_files`, files of the folder the
/// clipboard was filled in, into `target_dir`. `exists` says for each file
/// whether its destination is there.
pub fn detect_paste_conflicts(
    clipboard: &Clipboard,
    target_dir: &str,
    valid_files: &Vec<String>,
    exists: &Vec<bool>,
) -> (out: Vec<Conflict>)
    ensures
        conflict_views(out@) == conflicts_of(
            clipboard.source_path@,
            target_dir@,
            texts(valid_files@),
            exists@,
        ),
{
    detect_operation_conflicts(clipboard.source_path.as_str(), target_dir, valid_files, exists)
}

/// Whether `list` holds the text `s`.
pub fn contains_text(list: &Vec<String>, s: &str) -> (r: bool)
    ensures
        r == texts(list@).contains(s@),
{
    let needle = String::from_str(s);
    let mut i: usize = 0;
    while i < list.len()
        invariant
            i <= list.len(),
            needle@ == s@,
            forall|j: int| 0 <= j < i ==> texts(list@)[j] != s@,
        decreases list.len() - i,
    {
        if list[i] == needle {
            assert(texts(list@)[i as int] == s@);
            return true;
        }
        i += 1;
    }
    assert(texts(list@).len() == list@.len());
    false
}

/// The answers of the user to the clashes of a paste, as far as given.
#[derive(Debug, Clone, PartialEq, Eq)]
pub struct ConflictState {
    /// The clashes, in the order they are put to the user.
    pub conflicts: Vec<Conflict>,
    /// The index of the clash that is put to the user next.
    pub current_index: usize,
    /// The paths of the files that may replace what is in their way.
    pub files_to_overwrite: Vec<String>,
    /// The paths of the files that are left out.
    pub files_to_skip: Vec<String>,
    /// The clipboard the paste started from.
    pub clipboard_backup: Option<Clipboard>,
    pub is_move_operation: bool,
    /// The folder pasted into.
    pub target_path: String,
}

/// The paths of the files to paste that the clashes from index `from` on
/// are about.
pub open spec fn sources_from(conflicts: Seq<ConflictView>, from: int) -> Seq<Seq<char>> {
    conflicts.subrange(from, conflicts.len() as int).map_values(|c: ConflictView| c.0)
}

impl ConflictState {
    /// The state before the first answer.
    pub fn new(
        conflicts: Vec<Conflict>,
        clipboard: Clipboard,
        is_move_operation: bool,
        target_path: String,
    ) -> (s: ConflictState)
        ensures
            s.conflicts == conflicts,
            s.current_index == 0,
            s.files_to_overwrite@.len() == 0,
            s.files_to_skip@.len() == 0,
            s.clipboard_backup == Some(clipboard),
            s.is_move_operation == is_move_operation,
            s.target_path == target_path,
    {
        ConflictState {
            conflicts,
            current_index: 0,
            files_to_overwrite: Vec::new(),
            files_to_skip: Vec::new(),
            clipboard_backup: Some(clipboard),
            is_move_operation,
            target_path,
        }
    }

    /// Whether every clash has its answer.
    pub fn is_resolved(&self) -> (r: bool)
        ensures
            r == (self.current_index >= self.conflicts.len()),
    {
        self.current_index >= self.conflicts.len()
    }

    /// Takes the user's answer to the clash at hand. `Overwrite` and `Skip`
    /// settle that clash; `OverwriteAll` and `SkipAll` settle it and all that
    /// follow. Returns whether every clash has its answer now. Does nothing
    /// where none was open.
    pub fn resolve(&mut self, resolution: ConflictResolution) -> (done: bool)
        ensures
            final(self).conflicts == old(self).conflicts,
            final(self).clipboard_backup == old(self).clipboard_backup,
            final(self).is_move_operation == old(self).is_move_operation,
            final(self).target_path == old(self).target_path,
            done == (final(self).current_index >= final(self).conflicts.len()),
            old(self).current_index >= old(self).conflicts.len() ==> *final(self) == *old(self),
            old(self).current_index < old(self).conflicts.len() ==> ({
                let cs = conflict_views(old(self).conflicts@);
                let i = old(self).current_index as int;
                match resolution {
                    ConflictResolution::Overwrite => {
                        &&& final(self).current_index == i + 1
                        &&& texts(final(self).files_to_overwrite@) == texts(
                            old(self).files_to_overwrite@,
                        ).push(cs[i].0)
                        &&& texts(final(self).files_to_skip@) == texts(old(self).files_to_skip@)
                    },
                    ConflictResolution::Skip => {
                        &&& final(self).current_index == i + 1
                        &&& texts(final(self).files_to_skip@) == texts(
                            old(self).files_to_skip@,
                        ).push(cs[i].0)
                        &&& texts(final(self).files_to_overwrite@) == texts(
                            old(self).files_to_overwrite@,
                        )
                    },
                    ConflictResolution::OverwriteAll => {
                        &&& final(self).current_index == cs.len()
                        &&& texts(final(self).files_to_overwrite@) == texts(
                            old(self).files_to_overwrite@,
                        ) + sources_from(cs, i)
                        &&& texts(final(self).files_to_skip@) == texts(old(self).files_to_skip@)
                    },
                    ConflictResolution::SkipAll => {
                        &&& final(self).current_index == cs.len()
                        &&& texts(final(self).files_to_skip@) == texts(old(self).files_to_skip@)
                            + sources_from(cs, i)
                        &&& texts(final(self).files_to_overwrite@) == texts(
                            old(self).files_to_overwrite@,
                        )
                    },
                }
            }),
    {
        if self.current_index >= self.conflicts.len() {
            return true;
        }
        let ghost cs = conflict_views(self.conflicts@);
        let ghost start = self.current_index as int;
        let to_overwrite = match resolution {
            ConflictResolution::Overwrite => true,
            ConflictResolution::OverwriteAll => true,
            _ => false,
        };
        let all = match resolution {
            ConflictResolution::OverwriteAll => true,
            ConflictResolution::SkipAll => true,
            _ => false,
        };
        let end: usize = if all {
            self.conflicts.len()
        } else {
            self.current_index + 1
        };
        let ghost sink0 = if to_overwrite {
            texts(self.files_to_overwrite@)
        } else {
            texts(self.files_to_skip@)
        };
        assert(cs.subrange(start, start).map_values(|c: ConflictView| c.0) == Seq::<
            Seq<char>,
        >::empty());
        while self.current_index < end
            invariant
                0 <= start <= self.current_index <= end <= self.conflicts.len(),
                self.conflicts == old(self).conflicts,
                self.clipboard_backup == old(self).clipboard_backup,
                self.is_move_operation == old(self).is_move_operation,
                self.target_path == old(self).target_path,
                cs == conflict_views(self.conflicts@),
                to_overwrite ==> texts(self.files_to_skip@) == texts(old(self).files_to_skip@),
                !to_overwrite ==> texts(self.files_to_overwrite@) == texts(
                    old(self).files_to_overwrite@,
                ),
                (if to_overwrite {
                    texts(self.files_to_overwrite@)
                } else {
                    texts(self.files_to_skip@)
                }) == sink0 + cs.subrange(start, self.current_index as int).map_values(
                    |c: ConflictView| c.0,
                ),
            decreases end - self.current_index,
        {
            let source = self.conflicts[self.current_index].0.clone();
            assert(source@ == cs[self.current_index as int].0);
            let ghost i = self.current_index as int;
            assert(cs.len() == self.conflicts@.len());
            assert(cs.subrange(start, i + 1).map_values(|c: ConflictView| c.0) == cs.subrange(
                start,
                i,
            ).map_values(|c: ConflictView| c.0).push(cs[i].0));
            if to_overwrite {
                let ghost before = texts(self.files_to_overwrite@);
                self.files_to_overwrite.push(source);
                assert(texts(self.files_to_overwrite@) == before.push(cs[i].0));
            } else {
                let ghost before = texts(self.files_to_skip@);
                self.files_to_skip.push(source);
                assert(texts(self.files_to_skip@) == before.push(cs[i].0));
            }
            self.current_index = self.current_index + 1;
        }
        proof {
            if !all {
                assert(cs.subrange(start, start + 1).map_values(|c: ConflictView| c.0) == seq![
                    cs[start].0,
                ]);
                assert(sink0 + seq![cs[start].0] == sink0.push(cs[start].0));
            }
        }
        self.current_index >= self.conflicts.len()
    }
}


/// The index of the last `.` of `s`.
pub open spec fn last_dot(s: Seq<char>) -> Option<int>
    decreases s.len(),
{
    if s.len() == 0 {
        None
    } else if s.last() == '.' {
        Some(s.len() - 1)
    } else {
        last_dot(s.drop_last())
    }
}

/// The part of a file name before its last `.`; the whole name where it has none.
pub open spec fn name_base(s: Seq<char>) -> Seq<char> {
    match last_dot(s) {
        Some(i) => s.subrange(0, i),
        None => s,
    }
}

/// The part of a file name from its last `.` on; empty where it has none.
pub open spec fn name_ext(s: Seq<char>) -> Seq<char> {
    match last_dot(s) {
        Some(i) => s.subrange(i, s.len() as int),
        None => Seq::empty(),
    }
}

/// The `k`-th name tried for a duplicate of `name`: `_dup` goes before the
/// extension, followed by `k` from the second try on.
pub open spec fn dup_candidate(name: Seq<char>, k: nat) -> Seq<char> {
    name_base(name) + "_dup"@ + (if k >= 2 {
        decimal(k)
    } else {
        Seq::empty()
    }) + name_ext(name)
}

/// The name of last resort for a duplicate of `name`: `_dup` and `stamp` go
/// before the extension.
pub open spec fn dup_stamped(name: Seq<char>, stamp: nat) -> Seq<char> {
    name_base(name) + "_dup"@ + decimal(stamp) + name_ext(name)
}

/// The number of names tried for a duplicate before the name of last resort
/// is taken.
pub const DUP_TRIES: u32 = 10000;

/// The first try from the `k`-th on whose name is not among `existing`;
/// `None` where every try up to the last has its name taken.
pub open spec fn first_free(name: Seq<char>, existing: Seq<Seq<char>>, k: nat) -> Option<nat>
    decreases 10001 - k,
{
    if k > 10000 {
        None
    } else if !existing.contains(dup_candidate(name, k)) {
        Some(k)
    } else {
        first_free(name, existing, k + 1)
    }
}

/// The name for a duplicate of `name` in a folder that holds `existing`.
pub open spec fn dup_name_of(name: Seq<char>, existing: Seq<Seq<char>>, stamp: nat) -> Seq<char> {
    match first_free(name, existing, 1) {
        Some(k) => dup_candidate(name, k),
        None => dup_stamped(name, stamp),
    }
}

/// The name that is found by trying is not the name of anything in the
/// folder, and every try before it was.
pub proof fn lemma_first_free(name: Seq<char>, existing: Seq<Seq<char>>, k: nat)
    requires
        1 <= k,
    ensures
        first_free(name, existing, k) matches Some(j) ==> k <= j <= 10000 && !existing.contains(
            dup_candidate(name, j),
        ) && forall|i: nat| k <= i < j ==> existing.contains(#[trigger] dup_candidate(name, i)),
        first_free(name, existing, k) is None ==> forall|i: nat|
            k <= i <= 10000 ==> existing.contains(#[trigger] dup_candidate(name, i)),
    decreases 10001 - k,
{
    if k <= 10000 && existing.contains(dup_candidate(name, k)) {
        lemma_first_free(name, existing, k + 1);
    }
}

fn split_name(name: &Vec<char>) -> (r: (Vec<char>, Vec<char>))
    ensures
        r.0@ == name_base(name@),
        r.1@ == name_ext(name@),
{
    let mut i: usize = name.len();
    assert(name@.subrange(0, name.len() as int) == name@);
    while i > 0 && name[i - 1] != '.'
        invariant
            i <= name.len(),
            last_dot(name@) == last_dot(name@.subrange(0, i as int)),
        decreases i,
    {
        assert(name@.subrange(0, i as int).drop_last() == name@.subrange(0, i - 1));
        i -= 1;
    }
    if i == 0 {
        assert(name@.subrange(0, 0).len() == 0);
        (subvec(name, 0, name.len()), Vec::new())
    } else {
        assert(name@.subrange(0, i as int).last() == '.');
        (subvec(name, 0, i - 1), subvec(name, i - 1, name.len()))
    }
}

fn candidate(base: &Vec<char>, ext: &Vec<char>, k: u32, name: Ghost<Seq<char>>) -> (s: String)
    requires
        base@ == name_base(name@),
        ext@ == name_ext(name@),
    ensures
        s@ == dup_candidate(name@, k as nat),
{
    let mut out: Vec<char> = Vec::new();
    append_chars(&mut out, base);
    append_str(&mut out, "_dup");
    if k >= 2 {
        append_decimal(&mut out, k as u128);
    } else {
        assert(out@ == out@ + Seq::<char>::empty());
    }
    append_chars(&mut out, ext);
    string_of(&out)
}

/// Picks the name for a duplicate of `name` in a folder that holds the
/// names `existing`: `_dup` goes before the extension; if that name is
/// taken, `_dup2`, `_dup3` and so on are tried in turn. Where all of ten
/// thousand tries are taken the name is made with `stamp`, the time of day
/// in the caller's count.
pub fn generate_dup_filename(name: &str, existing: &Vec<String>, stamp: u128) -> (dup: String)
    ensures
        dup@ == dup_name_of(name@, texts(existing@), stamp as nat),
        first_free(name@, texts(existing@), 1) is Some ==> !texts(existing@).contains(dup@),
{
    let v = chars_of(name);
    let (base, ext) = split_name(&v);
    let mut k: u32 = 1;
    proof {
        lemma_first_free(name@, texts(existing@), 1);
    }
    while k <= DUP_TRIES
        invariant
            1 <= k <= DUP_TRIES + 1,
            base@ == name_base(name@),
            ext@ == name_ext(name@),
            first_free(name@, texts(existing@), 1) == first_free(name@, texts(existing@), k as nat),
        decreases DUP_TRIES + 1 - k,
    {
        let cand = candidate(&base, &ext, k, Ghost(name@));
        if !contains_text(existing, cand.as_str()) {
            return cand;
        }
        k += 1;
    }
    let mut out: Vec<char> = Vec::new();
    append_chars(&mut out, &base);
    append_str(&mut out, "_dup");
    append_decimal(&mut out, stamp);
    append_chars(&mut out, &ext);
    string_of(&out)
}

/// What a paste into the folder the files came from amounts to.
pub enum DuplicatePlan {
    /// None of the files can be duplicated.
    Nothing,
    /// Each pair holds the path of a file and the path of its duplicate; the
    /// job keeps the books for them, in the same order.
    Run { pairs: Vec<(String, String)>, job: BatchJob },
}

/// For each file, whether it can be duplicated: it is there and it is not
/// the folder above.
pub open spec fn duplicable(files: Seq<Seq<char>>, exists: Seq<bool>) -> Seq<bool> {
    Seq::new(files.len(), |i: int| files[i] != ".."@ && flag_at(exists, i))
}

/// The views of a list of pairs of paths.
pub open spec fn pair_views(v: Seq<(String, String)>) -> Seq<(Seq<char>, Seq<char>)> {
    v.map_values(|p: (String, String)| (p.0@, p.1@))
}

/// Whether `plan` is what a paste of the files of `clipboard` into the
/// folder they came from amounts to: each file that is there gets a
/// duplicate beside it, under a name that nothing in the folder has.
pub open spec fn is_duplicate_plan(
    plan: DuplicatePlan,
    clipboard: Clipboard,
    exists: Seq<bool>,
    existing: Seq<Seq<char>>,
    stamp: nat,
) -> bool {
    let valid = chosen(
        texts(clipboard.files@),
        duplicable(texts(clipboard.files@), exists),
        true,
    );
    let src = clipboard.source_path@;
    match plan {
        DuplicatePlan::Nothing => valid.len() == 0,
        DuplicatePlan::Run { pairs, job } => {
            &&& valid.len() > 0
            &&& job@ == BatchState::initial(valid, Seq::new(valid.len(), |i: int| false))
            &&& job@.wf()
            &&& pair_views(pairs@) == valid.map_values(
                |name: Seq<char>|
                    (
                        joined_path(src, name),
                        joined_path(src, dup_name_of(name, existing, stamp)),
                    ),
            )
        },
    }
}

/// Plans the paste of the files of `clipboard` into the folder they came
/// from: each file that is there gets a duplicate beside it, under a name
/// that nothing in the folder has. `exists` says for each file whether it is
/// there, `existing` holds the names in the folder, `stamp` is the time of
/// day in the caller's count.
pub fn execute_same_folder_paste(
    clipboard: &Clipboard,
    exists: &Vec<bool>,
    existing: &Vec<String>,
    stamp: u128,
) -> (plan: DuplicatePlan)
    ensures
        is_duplicate_plan(plan, *clipboard, exists@, texts(existing@), stamp as nat),
{
    let mut flags: Vec<bool> = Vec::new();
    let mut i: usize = 0;
    let ghost files = texts(clipboard.files@);
    while i < clipboard.files.len()
        invariant
            i <= clipboard.files.len(),
            files == texts(clipboard.files@),
            flags.len() == i,
            forall|j: int| 0 <= j < i ==> flags[j] == (files[j] != ".."@ && flag_at(exists@, j)),
        decreases clipboard.files.len() - i,
    {
        let there = i < exists.len() && exists[i];
        let flag = there && !str_eq(clipboard.files[i].as_str(), "..");
        flags.push(flag);
        i += 1;
    }
    assert(files.len() == clipboard.files@.len());
    assert forall|j: int| 0 <= j < flags@.len() implies flags@[j] == duplicable(files, exists@)[j] by {
        assert(flags[j] == (files[j] != ".."@ && flag_at(exists@, j)));
    }
    assert(flags@ =~= duplicable(files, exists@));
    let valid = choose_by_flag(&clipboard.files, &flags, true);
    if valid.len() == 0 {
        assert(texts(valid@).len() == valid@.len());
        return DuplicatePlan::Nothing;
    }
    assert(texts(valid@).len() == valid@.len());
    let ghost src = clipboard.source_path@;
    let ghost all = texts(valid@).map_values(
        |name: Seq<char>|
            (
                joined_path(src, name),
                joined_path(src, dup_name_of(name, texts(existing@), stamp as nat)),
            ),
    );
    let mut pairs: Vec<(String, String)> = Vec::new();
    let mut k: usize = 0;
    assert(pair_views(pairs@) == all.subrange(0, 0));
    while k < valid.len()
        invariant
            k <= valid.len(),
            src == clipboard.source_path@,
            all == texts(valid@).map_values(
                |name: Seq<char>|
                    (
                        joined_path(src, name),
                        joined_path(src, dup_name_of(name, texts(existing@), stamp as nat)),
                    ),
            ),
            pair_views(pairs@) == all.subrange(0, k as int),
        decreases valid.len() - k,
    {
        let name = valid[k].as_str();
        assert(name@ == texts(valid@)[k as int]);
        let dup = generate_dup_filename(name, existing, stamp);
        let from = join_path(clipboard.source_path.as_str(), name);
        let to = join_path(clipboard.source_path.as_str(), dup.as_str());
        let ghost before = pair_views(pairs@);
        pairs.push((from, to));
        assert(pair_views(pairs@) == before.push(all[k as int]));
        assert(all.subrange(0, k + 1) == all.subrange(0, k as int).push(all[k as int]));
        k += 1;
    }
    assert(all.subrange(0, valid.len() as int) == all);
    let job = BatchJob::all_of(valid);
    DuplicatePlan::Run { pairs, job }
}

/// The failure reported for a duplicate whose name was taken by the time
/// the copy was due: nothing is ever written over.
pub fn destination_taken() -> (o: FileOutcome)
    ensures
        o@ == crate::batch::OutcomeView::Failed("destination already exists"@),
{
    FileOutcome::Failed(String::from_str("destination already exists"))
}

/// What is done after the user has answered every clash of a paste.
pub enum PastePlan {
    /// There is nothing to paste from.
    Nothing,
    /// Every file was left out: nothing is written, and the user is told
    /// "All files skipped". The clipboard is put back where it held a copy.
    AllSkipped { restore: Option<Clipboard> },
    /// The files are pasted from `source_path` into `target_path`. The job
    /// keeps the books for them and leaves out those the user skipped. The
    /// clipboard is kept where it held a copy.
    Run {
        operation: FileOperationType,
        source_path: String,
        target_path: String,
        job: BatchJob,
        keep: Option<Clipboard>,
    },
}

/// For each file of `files` below `source`, whether its path is among `skipped`.
pub open spec fn skip_flags(source: Seq<char>, files: Seq<Seq<char>>, skipped: Seq<Seq<char>>) -> Seq<
    bool,
> {
    Seq::new(files.len(), |i: int| skipped.contains(joined_path(source, files[i])))
}

/// Every flag of `flags` is set.
pub open spec fn all_set(flags: Seq<bool>) -> bool {
    forall|i: int| 0 <= i < flags.len() ==> #[trigger] flags[i]
}

/// The kind of job that a paste from a clipboard is.
pub open spec fn operation_of(op: ClipboardOperation) -> FileOperationType {
    match op {
        ClipboardOperation::Copy => FileOperationType::Copy,
        ClipboardOperation::Cut => FileOperationType::Move,
    }
}

/// The clipboard after a paste: kept where it held a copy, gone where it
/// held a cut.
pub open spec fn kept_after_paste(cb: Clipboard) -> Option<Clipboard> {
    if cb.operation == ClipboardOperation::Copy {
        Some(cb)
    } else {
        None
    }
}

/// Whether `plan` is what is done after the user has answered every clash
/// as `state` holds: nothing without a clipboard; nothing but a message
/// where every file is left out; else a job for the files of the clipboard
/// that leaves out those the user skipped.
pub open spec fn is_paste_plan(plan: PastePlan, state: ConflictState) -> bool {
    match state.clipboard_backup {
        None => plan is Nothing,
        Some(cb) => ({
            let flags = skip_flags(cb.source_path@, texts(cb.files@), texts(state.files_to_skip@));
            if all_set(flags) {
                plan == (PastePlan::AllSkipped { restore: kept_after_paste(cb) })
            } else {
                &&& plan matches PastePlan::Run { operation, source_path, target_path, job, keep }
                &&& operation == operation_of(cb.operation)
                &&& source_path@ == cb.source_path@
                &&& target_path == state.target_path
                &&& keep == kept_after_paste(cb)
                &&& job@ == BatchState::initial(texts(cb.files@), flags)
                &&& job@.wf()
            }
        }),
    }
}

/// Decides what a paste does once the user has answered its clashes. The
/// files of the clipboard are gone through as they were copied or cut; a
/// file is left out where the user chose to skip it. Where that leaves no
/// file, nothing is written at all.
pub fn execute_paste_with_conflicts(state: ConflictState) -> (plan: PastePlan)
    ensures
        is_paste_plan(plan, state),
{
    let ConflictState { clipboard_backup, files_to_skip, target_path, .. } = state;
    let clipboard = match clipboard_backup {
        Some(cb) => cb,
        None => {
            return PastePlan::Nothing;
        },
    };
    let ghost files = texts(clipboard.files@);
    let ghost want = skip_flags(clipboard.source_path@, files, texts(files_to_skip@));
    let mut flags: Vec<bool> = Vec::new();
    let mut any_left = false;
    let mut i: usize = 0;
    while i < clipboard.files.len()
        invariant
            i <= clipboard.files.len(),
            files == texts(clipboard.files@),
            want == skip_flags(clipboard.source_path@, files, texts(files_to_skip@)),
            flags.len() == i,
            forall|j: int| 0 <= j < i ==> flags[j] == want[j],
            any_left == exists|j: int| 0 <= j < i && !want[j],
        decreases clipboard.files.len() - i,
    {
        let src = join_path(clipboard.source_path.as_str(), clipboard.files[i].as_str());
        let skipped = contains_text(&files_to_skip, src.as_str());
        assert(skipped == want[i as int]);
        if !skipped {
            any_left = true;
        }
        flags.push(skipped);
        i += 1;
    }
    assert(files.len() == clipboard.files@.len());
    assert(flags@ =~= want);
    let keep_source = clipboard.source_path.clone();
    let names = clone_strings(&clipboard.files);
    let operation = match clipboard.operation {
        ClipboardOperation::Copy => FileOperationType::Copy,
        ClipboardOperation::Cut => FileOperationType::Move,
    };
    let keep = match clipboard.operation {
        ClipboardOperation::Copy => Some(clipboard),
        ClipboardOperation::Cut => None,
    };
    if !any_left {
        return PastePlan::AllSkipped { restore: keep };
    }
    assert(names@.len() == texts(names@).len());
    match BatchJob::new(names, flags) {
        Some(job) => PastePlan::Run {
            operation,
            source_path: keep_source,
            target_path,
            job,
            keep,
        },
        None => PastePlan::Nothing,
    }
}

/// A paste all of whose files the user skipped writes nothing: the plan is
/// `AllSkipped`, never a job. This holds in particular where every file
/// clashed and every clash was answered with a skip.
pub proof fn lemma_all_skipped_writes_nothing(
    source: Seq<char>,
    files: Seq<Seq<char>>,
    skipped: Seq<Seq<char>>,
)
    requires
        forall|i: int| 0 <= i < files.len() ==> skipped.contains(
            #[trigger] joined_path(source, files[i]),
        ),
    ensures
        all_set(skip_flags(source, files, skipped)),
{
}


/// What the caller has found out about a paste before it is decided.
#[derive(Debug, Clone, PartialEq, Eq)]
pub struct PasteProbe {
    /// The folder pasted into is the folder the files came from.
    pub same_folder: bool,
    /// The folder the files came from is still there.
    pub source_exists: bool,
    /// The folder pasted into is a directory.
    pub target_is_dir: bool,
    /// For each file of the clipboard, whether it is a directory that holds
    /// the folder pasted into.
    pub into_itself: Vec<bool>,
    /// For each file of the clipboard, whether something of its name is in
    /// the folder pasted into.
    pub dest_exists: Vec<bool>,
}

/// What a paste comes to.
pub enum PasteDecision {
    /// Nothing was copied or cut.
    EmptyClipboard,
    /// Files cannot be moved to where they are. The clipboard is put back.
    SameFolderMove { restore: Clipboard },
    /// The files are duplicated beside themselves.
    Duplicate { clipboard: Clipboard },
    /// The folder the files came from is gone, and the clipboard with it.
    SourceGone,
    /// The place pasted into is no directory. The clipboard is put back.
    InvalidTarget { restore: Clipboard },
    /// Every file is a directory that would go into itself. The clipboard
    /// is put back.
    NothingValid { restore: Clipboard, rejected: Vec<String> },
    /// Some files clash with what is there: the user is asked.
    Conflicts { state: ConflictState, rejected: Vec<String> },
    /// The files are pasted. The job keeps the books for them. The clipboard
    /// is kept where it held a copy.
    Run {
        operation: FileOperationType,
        source_path: String,
        job: BatchJob,
        keep: Option<Clipboard>,
        rejected: Vec<String>,
    },
}

/// For each file, whether it clashes: it does not go into itself, and
/// something of its name is at the destination.
pub open spec fn clash_flags(n: nat, into_itself: Seq<bool>, dest_exists: Seq<bool>) -> Seq<bool> {
    Seq::new(n, |i: int| !flag_at(into_itself, i) && flag_at(dest_exists, i))
}

/// Whether `d` is what a paste of `clipboard` into `target_path` comes to,
/// given what `probe` says of the disk: nothing without a clipboard; in the
/// folder the files came from, a refusal to move and a duplicate for a copy;
/// a refusal where the source is gone or the target is no directory; else,
/// without the directories that would go into themselves, a question where
/// something is at a destination, and a job for the files otherwise.
pub open spec fn is_paste_decision(
    d: PasteDecision,
    clipboard: Option<Clipboard>,
    target_path: Seq<char>,
    probe: PasteProbe,
) -> bool {
    match clipboard {
        None => d is EmptyClipboard,
        Some(cb) => ({
            let files = texts(cb.files@);
            let valid = chosen(files, probe.into_itself@, false);
            let bad = chosen(files, probe.into_itself@, true);
            let clashes = conflicts_of(
                cb.source_path@,
                target_path,
                files,
                clash_flags(files.len(), probe.into_itself@, probe.dest_exists@),
            );
            if probe.same_folder {
                if cb.operation == ClipboardOperation::Cut {
                    d == (PasteDecision::SameFolderMove { restore: cb })
                } else {
                    d == (PasteDecision::Duplicate { clipboard: cb })
                }
            } else if !probe.source_exists {
                d is SourceGone
            } else if !probe.target_is_dir {
                d == (PasteDecision::InvalidTarget { restore: cb })
            } else if valid.len() == 0 {
                &&& d matches PasteDecision::NothingValid { restore, rejected }
                &&& restore == cb
                &&& texts(rejected@) == bad
            } else if clashes.len() > 0 {
                &&& d matches PasteDecision::Conflicts { state, rejected }
                &&& texts(rejected@) == bad
                &&& conflict_views(state.conflicts@) == clashes
                &&& state.current_index == 0
                &&& state.files_to_overwrite@.len() == 0
                &&& state.files_to_skip@.len() == 0
                &&& state.clipboard_backup == Some(cb)
                &&& state.is_move_operation == (cb.operation == ClipboardOperation::Cut)
                &&& state.target_path@ == target_path
            } else {
                &&& d matches PasteDecision::Run { operation, source_path, job, keep, rejected }
                &&& texts(rejected@) == bad
                &&& operation == operation_of(cb.operation)
                &&& source_path@ == cb.source_path@
                &&& keep == kept_after_paste(cb)
                &&& job@ == BatchState::initial(valid, Seq::new(valid.len(), |i: int| false))
                &&& job@.wf()
            }
        }),
    }
}

/// Decides what a paste of `clipboard` into `target_path` comes to, given
/// what `probe` says of the disk.
pub fn clipboard_paste(clipboard: Option<Clipboard>, target_path: &str, probe: &PasteProbe) -> (d:
    PasteDecision)
    ensures
        is_paste_decision(d, clipboard, target_path@, *probe),
{
    let clipboard = match clipboard {
        Some(cb) => cb,
        None => {
            return PasteDecision::EmptyClipboard;
        },
    };
    if probe.same_folder {
        return match clipboard.operation {
            ClipboardOperation::Cut => PasteDecision::SameFolderMove { restore: clipboard },
            ClipboardOperation::Copy => PasteDecision::Duplicate { clipboard },
        };
    }
    if !probe.source_exists {
        return PasteDecision::SourceGone;
    }
    if !probe.target_is_dir {
        return PasteDecision::InvalidTarget { restore: clipboard };
    }
    let valid = choose_by_flag(&clipboard.files, &probe.into_itself, false);
    let rejected = choose_by_flag(&clipboard.files, &probe.into_itself, true);
    assert(texts(valid@).len() == valid@.len());
    if valid.len() == 0 {
        return PasteDecision::NothingValid { restore: clipboard, rejected };
    }
    let ghost files = texts(clipboard.files@);
    let mut flags: Vec<bool> = Vec::new();
    let mut i: usize = 0;
    while i < clipboard.files.len()
        invariant
            i <= clipboard.files.len(),
            flags.len() == i,
            forall|j: int|
                0 <= j < i ==> flags[j] == (!flag_at(probe.into_itself@, j) && flag_at(
                    probe.dest_exists@,
                    j,
                )),
        decreases clipboard.files.len() - i,
    {
        let into = i < probe.into_itself.len() && probe.into_itself[i];
        let there = i < probe.dest_exists.len() && probe.dest_exists[i];
        flags.push(!into && there);
        i += 1;
    }
    assert(files.len() == clipboard.files@.len());
    assert(flags@ =~= clash_flags(files.len(), probe.into_itself@, probe.dest_exists@));
    let conflicts = detect_paste_conflicts(&clipboard, target_path, &clipboard.files, &flags);
    assert(conflict_views(conflicts@).len() == conflicts@.len());
    if conflicts.len() > 0 {
        let is_move = match clipboard.operation {
            ClipboardOperation::Cut => true,
            ClipboardOperation::Copy => false,
        };
        let state = ConflictState::new(conflicts, clipboard, is_move, String::from_str(target_path));
        return PasteDecision::Conflicts { state, rejected };
    }
    let operation = match clipboard.operation {
        ClipboardOperation::Copy => FileOperationType::Copy,
        ClipboardOperation::Cut => FileOperationType::Move,
    };
    let source_path = clipboard.source_path.clone();
    let keep = match clipboard.operation {
        ClipboardOperation::Copy => Some(clipboard),
        ClipboardOperation::Cut => None,
    };
    let job = BatchJob::all_of(valid);
    PasteDecision::Run { operation, source_path, job, keep, rejected }
}

/// What the user is told when a paste ends without a job; `None` where it
/// starts one, asks the user, or duplicates. `rejected` are the directories
/// that would go into themselves: the last of them is named.
pub open spec fn paste_message_of(d: PasteDecision) -> Option<Seq<char>> {
    match d {
        PasteDecision::EmptyClipboard => Some("Clipboard is empty"@),
        PasteDecision::SameFolderMove { .. } => Some("Cannot move files to the same folder"@),
        PasteDecision::Duplicate { .. } => None,
        PasteDecision::SourceGone => Some("Source folder no longer exists"@),
        PasteDecision::InvalidTarget { .. } => Some("Target is not a valid directory"@),
        PasteDecision::NothingValid { rejected, .. } => into_itself_message(texts(rejected@)),
        PasteDecision::Conflicts { rejected, .. } => into_itself_message(texts(rejected@)),
        PasteDecision::Run { rejected, .. } => into_itself_message(texts(rejected@)),
    }
}

/// The complaint about the last of the directories that would go into
/// themselves; `None` where there is none.
pub open spec fn into_itself_message(rejected: Seq<Seq<char>>) -> Option<Seq<char>> {
    if rejected.len() > 0 {
        Some("Cannot copy '"@ + rejected.last() + "' into itself"@)
    } else {
        None
    }
}

fn rejected_message(rejected: &Vec<String>) -> (m: Option<String>)
    ensures
        crate::archive_job::opt_text(m) == into_itself_message(texts(rejected@)),
{
    assert(texts(rejected@).len() == rejected@.len());
    if rejected.len() > 0 {
        let last = &rejected[rejected.len() - 1];
        assert(last@ == texts(rejected@).last());
        Some(crate::text::concat3("Cannot copy '", last.as_str(), "' into itself"))
    } else {
        None
    }
}

/// What the user is told about the paste decision `d`.
pub fn paste_message(d: &PasteDecision) -> (m: Option<String>)
    ensures
        crate::archive_job::opt_text(m) == paste_message_of(*d),
{
    match d {
        PasteDecision::EmptyClipboard => Some(String::from_str("Clipboard is empty")),
        PasteDecision::SameFolderMove { .. } => Some(
            String::from_str("Cannot move files to the same folder"),
        ),
        PasteDecision::Duplicate { .. } => None,
        PasteDecision::SourceGone => Some(String::from_str("Source folder no longer exists")),
        PasteDecision::InvalidTarget { .. } => Some(
            String::from_str("Target is not a valid directory"),
        ),
        PasteDecision::NothingValid { rejected, .. } => rejected_message(rejected),
        PasteDecision::Conflicts { rejected, .. } => rejected_message(rejected),
        PasteDecision::Run { rejected, .. } => rejected_message(rejected),
    }
}

/// What a copy or move asked for in a dialog comes to.
pub enum CopyDecision {
    /// No file is chosen.
    NoFiles,
    /// Links to sensitive places were found: the user is asked first.
    ConfirmExclusions { state: CopyExcludeState },
    /// Some files clash with what is there: the user is asked.
    Conflicts { state: ConflictState },
    /// The files are copied or moved. The job keeps the books for them.
    Run { operation: FileOperationType, job: BatchJob },
}

/// The clipboard operation that stands for a copy or a move.
pub open spec fn clipboard_operation_of(is_move: bool) -> ClipboardOperation {
    if is_move {
        ClipboardOperation::Cut
    } else {
        ClipboardOperation::Copy
    }
}

/// Whether `d` is what a copy (or, with `is_move`, a move) of `files` from
/// `source_path` to `target_path` comes to: nothing without files; a
/// question where links to sensitive places were found; else a question
/// where something is at a destination; else a job for all the files.
pub open spec fn is_copy_decision(
    d: CopyDecision,
    files: Vec<String>,
    source_path: String,
    target_path: String,
    sensitive: Vec<String>,
    dest_exists: Seq<bool>,
    is_move: bool,
) -> bool {
    let clashes = conflicts_of(source_path@, target_path@, texts(files@), dest_exists);
    if files@.len() == 0 {
        d is NoFiles
    } else if sensitive@.len() > 0 {
        d == (CopyDecision::ConfirmExclusions {
            state: CopyExcludeState {
                target_path,
                excluded_paths: sensitive,
                scroll_offset: 0,
                is_move,
            },
        })
    } else if clashes.len() > 0 {
        &&& d matches CopyDecision::Conflicts { state }
        &&& conflict_views(state.conflicts@) == clashes
        &&& state.current_index == 0
        &&& state.files_to_overwrite@.len() == 0
        &&& state.files_to_skip@.len() == 0
        &&& state.clipboard_backup == Some(
            Clipboard { files, source_path, operation: clipboard_operation_of(is_move) },
        )
        &&& state.is_move_operation == is_move
        &&& state.target_path == target_path
    } else {
        &&& d matches CopyDecision::Run { operation, job }
        &&& operation == operation_of(clipboard_operation_of(is_move))
        &&& job@ == BatchState::initial(texts(files@), Seq::new(files@.len(), |i: int| false))
        &&& job@.wf()
    }
}

/// Decides what a move of `files` from `source_path` to `target_path`
/// comes to. `sensitive` are the links to sensitive places found under the
/// files; `dest_exists` says for each file whether something of its name is
/// at the destination.
pub fn execute_move_to_with_progress(
    files: Vec<String>,
    source_path: String,
    target_path: String,
    sensitive: Vec<String>,
    dest_exists: &Vec<bool>,
) -> (d: CopyDecision)
    ensures
        is_copy_decision(d, files, source_path, target_path, sensitive, dest_exists@, true),
{
    execute_copy_to_with_progress(files, source_path, target_path, sensitive, dest_exists, true)
}

/// Decides what a copy (or, with `is_move`, a move) of `files` from
/// `source_path` to `target_path` comes to. `sensitive` are the links to
/// sensitive places found under the files; `dest_exists` says for each file
/// whether something of its name is at the destination.
pub fn execute_copy_to_with_progress(
    files: Vec<String>,
    source_path: String,
    target_path: String,
    sensitive: Vec<String>,
    dest_exists: &Vec<bool>,
    is_move: bool,
) -> (d: CopyDecision)
    ensures
        is_copy_decision(d, files, source_path, target_path, sensitive, dest_exists@, is_move),
{
    if files.len() == 0 {
        return CopyDecision::NoFiles;
    }
    if sensitive.len() > 0 {
        return CopyDecision::ConfirmExclusions {
            state: CopyExcludeState {
                target_path,
                excluded_paths: sensitive,
                scroll_offset: 0,
                is_move,
            },
        };
    }
    let conflicts = detect_operation_conflicts(
        source_path.as_str(),
        target_path.as_str(),
        &files,
        dest_exists,
    );
    assert(conflict_views(conflicts@).len() == conflicts@.len());
    if conflicts.len() > 0 {
        let operation = if is_move {
            ClipboardOperation::Cut
        } else {
            ClipboardOperation::Copy
        };
        let clipboard = Clipboard { files, source_path, operation };
        return CopyDecision::Conflicts {
            state: ConflictState::new(conflicts, clipboard, is_move, target_path),
        };
    }
    let operation = if is_move {
        FileOperationType::Move
    } else {
        FileOperationType::Copy
    };
    assert(files@.len() == texts(files@).len());
    let job = BatchJob::all_of(files);
    CopyDecision::Run { operation, job }
}

} // verus!
