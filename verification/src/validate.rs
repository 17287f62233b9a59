//! What is checked before a job starts: that a name is a plain file name,
//! that an archive can be made or unpacked where it is asked for, and that
//! no link under the chosen files points out of their tree.

use vstd::prelude::*;
use crate::archive::{extract_dir_name, extract_dir_of, tool_missing_text};
use crate::archive_job::{opt_text, ArchiveJob, ArchiveState};
use crate::paste::{choose_by_flag, chosen};
use crate::state::TarExcludeState;
use crate::text::{
    append_chars, append_str, chars_of, concat2, concat3, has_prefix, same_chars, starts_with,
    string_of, texts,
};
use crate::transfer::{strip_trailing, without_trailing};

verus! {

/// Why a name is no plain file name.
#[derive(Debug, Clone, Copy, PartialEq, Eq, Structural)]
pub enum ValidationError {
    /// The name is empty.
    Empty,
    /// The name is `.` or `..`.
    Traversal,
    /// The name holds `/` or `\`.
    Separator,
    /// The name holds a control character.
    ControlCharacter,
    /// The name starts with `-` and would be taken for an option.
    LeadingDash,
}

/// `c` is a control character: below the space, or the delete character.
pub open spec fn is_control(c: char) -> bool {
    (c as u32) < 0x20 || c as u32 == 0x7F
}

/// Why `name` is no plain file name; `None` where it is one. The reasons are
/// looked for in the order of this list: the name is empty; it is `.` or
/// `..`; it holds a path separator; it holds a control character; it starts
/// with `-`.
pub open spec fn name_fault(name: Seq<char>) -> Option<ValidationError> {
    if name.len() == 0 {
        Some(ValidationError::Empty)
    } else if name == "."@ || name == ".."@ {
        Some(ValidationError::Traversal)
    } else if exists|i: int| 0 <= i < name.len() && (name[i] == '/' || name[i] == '\\') {
        Some(ValidationError::Separator)
    } else if exists|i: int| 0 <= i < name.len() && is_control(name[i]) {
        Some(ValidationError::ControlCharacter)
    } else if name[0] == '-' {
        Some(ValidationError::LeadingDash)
    } else {
        None
    }
}

/// Checks that `name` is a plain file name: one that names something in the
/// folder at hand and nothing else, and that no tool takes for an option.
pub fn is_valid_filename(name: &str) -> (r: Result<(), ValidationError>)
    ensures
        r is Ok <==> name_fault(name@) is None,
        r matches Err(e) ==> name_fault(name@) == Some(e),
{
    let v = chars_of(name);
    if v.len() == 0 {
        return Err(ValidationError::Empty);
    }
    let dot = chars_of(".");
    let dots = chars_of("..");
    if same_chars(&v, &dot) || same_chars(&v, &dots) {
        return Err(ValidationError::Traversal);
    }
    let mut i: usize = 0;
    while i < v.len()
        invariant
            i <= v.len(),
            v@ == name@,
            v.len() > 0,
            !(name@ == "."@ || name@ == ".."@),
            forall|j: int| 0 <= j < i ==> !(v@[j] == '/' || v@[j] == '\\'),
        decreases v.len() - i,
    {
        if v[i] == '/' || v[i] == '\\' {
            assert(name@[i as int] == '/' || name@[i as int] == '\\');
            return Err(ValidationError::Separator);
        }
        i += 1;
    }
    let mut k: usize = 0;
    while k < v.len()
        invariant
            k <= v.len(),
            v@ == name@,
            v.len() > 0,
            !(name@ == "."@ || name@ == ".."@),
            forall|j: int| 0 <= j < v.len() ==> !(v@[j] == '/' || v@[j] == '\\'),
            forall|j: int| 0 <= j < k ==> !is_control(v@[j]),
        decreases v.len() - k,
    {
        let n = v[k] as u32;
        if n < 0x20 || n == 0x7F {
            assert(is_control(name@[k as int]));
            return Err(ValidationError::ControlCharacter);
        }
        k += 1;
    }
    if v[0] == '-' {
        return Err(ValidationError::LeadingDash);
    }
    Ok(())
}

/// The words that tell the user of a fault.
pub open spec fn fault_text(e: ValidationError) -> Seq<char> {
    match e {
        ValidationError::Empty => "Name cannot be empty"@,
        ValidationError::Traversal => "Name cannot be '.' or '..'"@,
        ValidationError::Separator => "Name cannot contain path separators"@,
        ValidationError::ControlCharacter => "Name cannot contain control characters"@,
        ValidationError::LeadingDash => "Name cannot start with '-'"@,
    }
}

/// The words that tell the user of the fault `e`.
pub fn validation_message(e: ValidationError) -> (s: String)
    ensures
        s@ == fault_text(e),
{
    match e {
        ValidationError::Empty => String::from_str("Name cannot be empty"),
        ValidationError::Traversal => String::from_str("Name cannot be '.' or '..'"),
        ValidationError::Separator => String::from_str("Name cannot contain path separators"),
        ValidationError::ControlCharacter => String::from_str(
            "Name cannot contain control characters",
        ),
        ValidationError::LeadingDash => String::from_str("Name cannot start with '-'"),
    }
}

/// The first file of `files`, from index `from` on, that is no plain file
/// name, with its fault.
pub open spec fn first_fault(files: Seq<Seq<char>>, from: int) -> Option<(int, ValidationError)>
    decreases files.len() - from,
{
    if from < 0 || from >= files.len() {
        None
    } else {
        match name_fault(files[from]) {
            Some(e) => Some((from, e)),
            None => first_fault(files, from + 1),
        }
    }
}

/// Why an archive of `files` named `archive_name` cannot be made, as the
/// user is told; `None` where it can.
pub open spec fn archive_refusal(
    archive_name: Seq<char>,
    files: Seq<Seq<char>>,
    archive_exists: bool,
) -> Option<Seq<char>> {
    match name_fault(archive_name) {
        Some(e) => Some("Error: "@ + fault_text(e)),
        None => if files.len() == 0 {
            Some("No files to archive"@)
        } else {
            match first_fault(files, 0) {
                Some((i, e)) => Some(
                    "Invalid filename '"@ + files[i] + "': "@ + fault_text(e),
                ),
                None => if archive_exists {
                    Some("Error: "@ + archive_name + " already exists"@)
                } else {
                    None
                },
            }
        },
    }
}

/// What a request to make an archive comes to.
pub enum TarDecision {
    /// The request is refused, for the reason given.
    Rejected { message: String },
    /// Links that point out of the tree were found: the user is asked
    /// whether the archive is to be made without them.
    ConfirmExclusions { state: TarExcludeState },
    /// The archive is made.
    Run { job: ArchiveJob },
}

/// Whether `d` is what a request to make the archive `archive_name` of
/// `files` comes to, `tool` being the archiving tool that answered its
/// probe, if any did: a refusal where the names or the place are not in
/// order; a question where links that point out of the tree were found,
/// whether or not a tool answered; else a refusal where no tool answered;
/// else the job that makes the archive.
pub open spec fn is_tar_decision(
    d: TarDecision,
    archive_name: Seq<char>,
    files: Vec<String>,
    archive_exists: bool,
    unsafe_links: Vec<String>,
    tool: Option<String>,
) -> bool {
    match archive_refusal(archive_name, texts(files@), archive_exists) {
        Some(m) => d matches TarDecision::Rejected { message } && message@ == m,
        None => if unsafe_links@.len() > 0 {
            &&& d matches TarDecision::ConfirmExclusions { state }
            &&& state.archive_name@ == archive_name
            &&& state.files == files
            &&& state.excluded_paths == unsafe_links
            &&& state.scroll_offset == 0
        } else if tool is None {
            d matches TarDecision::Rejected { message } && message@ == tool_missing_text()
        } else {
            &&& d matches TarDecision::Run { job }
            &&& job@ == ArchiveState::creating(
                archive_name,
                texts(files@),
                Seq::empty(),
                tool->0@,
            )
            &&& job@.wf()
        },
    }
}

/// Decides what a request to make the archive `archive_name` of `files`
/// comes to. `archive_exists` says whether something of that name is there
/// already; `unsafe_links` are the links under the files that point out of
/// the tree; `tool` is the archiving tool that answered its probe, `None`
/// where none did. Everything is checked before any job exists: first the
/// names and the place, then the links, about which the user is asked
/// whatever the tool, and last the tool.
pub fn execute_tar(
    archive_name: &str,
    files: Vec<String>,
    archive_exists: bool,
    unsafe_links: Vec<String>,
    tool: Option<String>,
) -> (d: TarDecision)
    ensures
        is_tar_decision(d, archive_name@, files, archive_exists, unsafe_links, tool),
{
    match is_valid_filename(archive_name) {
        Err(e) => {
            return TarDecision::Rejected {
                message: concat2("Error: ", validation_message(e).as_str()),
            };
        },
        Ok(_) => {},
    }
    if files.len() == 0 {
        assert(texts(files@).len() == files@.len());
        return TarDecision::Rejected { message: String::from_str("No files to archive") };
    }
    assert(texts(files@).len() == files@.len());
    let mut i: usize = 0;
    while i < files.len()
        invariant
            i <= files.len(),
            files.len() > 0,
            name_fault(archive_name@) is None,
            first_fault(texts(files@), 0) == first_fault(texts(files@), i as int),
        decreases files.len() - i,
    {
        assert(texts(files@).len() == files@.len());
        assert(texts(files@)[i as int] == files@[i as int]@);
        match is_valid_filename(files[i].as_str()) {
            Err(e) => {
                let mut out: Vec<char> = Vec::new();
                append_str(&mut out, "Invalid filename '");
                append_str(&mut out, files[i].as_str());
                append_str(&mut out, "': ");
                append_str(&mut out, validation_message(e).as_str());
                return TarDecision::Rejected { message: string_of(&out) };
            },
            Ok(_) => {},
        }
        i += 1;
    }
    if archive_exists {
        return TarDecision::Rejected {
            message: concat3("Error: ", archive_name, " already exists"),
        };
    }
    if unsafe_links.len() > 0 {
        return TarDecision::ConfirmExclusions {
            state: TarExcludeState {
                archive_name: String::from_str(archive_name),
                files,
                excluded_paths: unsafe_links,
                scroll_offset: 0,
            },
        };
    }
    let tool = match tool {
        Some(t) => t,
        None => {
            return TarDecision::Rejected { message: String::from_str("tar command not found") };
        },
    };
    let none: Vec<String> = Vec::new();
    assert(texts(none@) =~= Seq::<Seq<char>>::empty());
    TarDecision::Run { job: ArchiveJob::create(archive_name, &files, &none, tool) }
}

/// Starts the making of the archive `archive_name` of `files` without the
/// paths in `excluded_paths`, after the user has agreed to leave them out.
/// `tool` is the archiving tool that answered its probe; where none did the
/// request is refused and no job exists.
pub fn execute_tar_with_excludes(
    archive_name: &str,
    files: &Vec<String>,
    excluded_paths: &Vec<String>,
    tool: Option<String>,
) -> (r: Result<ArchiveJob, String>)
    ensures
        match tool {
            Some(t) => r matches Ok(job) && job@ == ArchiveState::creating(
                archive_name@,
                texts(files@),
                texts(excluded_paths@),
                t@,
            ) && job@.wf(),
            None => r matches Err(message) && message@ == tool_missing_text(),
        },
{
    match tool {
        Some(t) => Ok(ArchiveJob::create(archive_name, files, excluded_paths, t)),
        None => Err(String::from_str("tar command not found")),
    }
}

/// A missing archiving tool is told by the call itself: where no tool
/// answered its probe, a request to make an archive never comes to a job.
/// It is refused, unless links that point out of the tree were found and
/// the request is in order otherwise: the user is then asked about the
/// links first.
pub proof fn lemma_no_tool_no_job(
    d: TarDecision,
    archive_name: Seq<char>,
    files: Vec<String>,
    archive_exists: bool,
    unsafe_links: Vec<String>,
)
    requires
        is_tar_decision(d, archive_name, files, archive_exists, unsafe_links, None),
    ensures
        !(d is Run),
        unsafe_links@.len() == 0 ==> d is Rejected,
        unsafe_links@.len() == 0 && archive_refusal(archive_name, texts(files@), archive_exists)
            is None ==> d->message@ == tool_missing_text(),
{
}

/// Where a request to make an archive is in order and links that point out
/// of the tree were found, the user is asked about the links, whether or not
/// an archiving tool answered: the tool is looked at when the job is made.
pub proof fn lemma_links_are_asked_about_first(
    d: TarDecision,
    archive_name: Seq<char>,
    files: Vec<String>,
    archive_exists: bool,
    unsafe_links: Vec<String>,
    tool: Option<String>,
)
    requires
        is_tar_decision(d, archive_name, files, archive_exists, unsafe_links, tool),
        archive_refusal(archive_name, texts(files@), archive_exists) is None,
        unsafe_links@.len() > 0,
    ensures
        d matches TarDecision::ConfirmExclusions { state } && state.archive_name@ == archive_name
            && state.files == files && state.excluded_paths == unsafe_links && state.scroll_offset
            == 0,
{
}

/// Why the archive cannot be unpacked, as the user is told; `None` where it
/// can. `has_tool` says whether an archiving tool answered its probe.
pub open spec fn extract_refusal(
    archive_name: Option<Seq<char>>,
    has_parent: bool,
    archive_exists: bool,
    extract_dir_exists: bool,
    has_tool: bool,
) -> Option<Seq<char>> {
    match archive_name {
        None => Some("Invalid archive path"@),
        Some(name) => if !archive_exists {
            Some("Archive not found: "@ + name)
        } else if !has_parent {
            Some("Invalid archive path"@)
        } else if extract_dir_exists {
            Some("Error: "@ + extract_dir_of(name) + " already exists"@)
        } else if !has_tool {
            Some(tool_missing_text())
        } else {
            None
        },
    }
}

/// What a request to unpack an archive comes to.
pub enum UntarDecision {
    /// The request is refused, for the reason given.
    Rejected { message: String },
    /// The archive is unpacked into a new directory of the name `extract_dir`,
    /// beside the archive.
    Run { job: ArchiveJob, extract_dir: String },
}

/// Whether `d` is what a request to unpack the archive at `archive_path`
/// comes to, `tool` being the archiving tool that answered its probe, if any
/// did: a refusal where the archive or the place are not in order, or where
/// no tool answered; else the job that unpacks the archive into a new
/// directory beside it.
pub open spec fn is_untar_decision(
    d: UntarDecision,
    archive_path: Seq<char>,
    archive_name: Option<Seq<char>>,
    has_parent: bool,
    archive_exists: bool,
    extract_dir_exists: bool,
    tool: Option<String>,
) -> bool {
    match extract_refusal(
        archive_name,
        has_parent,
        archive_exists,
        extract_dir_exists,
        tool is Some,
    ) {
        Some(m) => d matches UntarDecision::Rejected { message } && message@ == m,
        None => {
            &&& d matches UntarDecision::Run { job, extract_dir }
            &&& extract_dir@ == extract_dir_of(archive_name->0)
            &&& job@ == ArchiveState::extracting(
                archive_path,
                archive_name->0,
                tool->0@,
            )
            &&& job@.wf()
        },
    }
}

/// Where no archiving tool answered its probe, a request to unpack an
/// archive is refused and no job exists, whatever else holds of the request.
pub proof fn lemma_no_tool_no_unpacking(
    d: UntarDecision,
    archive_path: Seq<char>,
    archive_name: Option<Seq<char>>,
    has_parent: bool,
    archive_exists: bool,
    extract_dir_exists: bool,
)
    requires
        is_untar_decision(
            d,
            archive_path,
            archive_name,
            has_parent,
            archive_exists,
            extract_dir_exists,
            None,
        ),
    ensures
        d is Rejected,
{
}

/// Decides what a request to unpack the archive at `archive_path` comes to.
/// `archive_name` is the last part of that path, where it has one;
/// `has_parent` says whether the path has a folder above it;
/// `archive_exists` whether the archive is there; `extract_dir_exists`
/// whether something has the name of the directory to unpack into; `tool`
/// is the archiving tool that answered its probe, `None` where none did.
/// Everything is checked before any job exists.
pub fn execute_untar(
    archive_path: &str,
    archive_name: Option<&str>,
    has_parent: bool,
    archive_exists: bool,
    extract_dir_exists: bool,
    tool: Option<String>,
) -> (d: UntarDecision)
    ensures
        is_untar_decision(
            d,
            archive_path@,
            crate::transfer::opt_str(archive_name),
            has_parent,
            archive_exists,
            extract_dir_exists,
            tool,
        ),
{
    let name = match archive_name {
        Some(n) => n,
        None => {
            return UntarDecision::Rejected { message: String::from_str("Invalid archive path") };
        },
    };
    if !archive_exists {
        return UntarDecision::Rejected { message: concat2("Archive not found: ", name) };
    }
    if !has_parent {
        return UntarDecision::Rejected { message: String::from_str("Invalid archive path") };
    }
    let extract_dir = extract_dir_name(name);
    if extract_dir_exists {
        return UntarDecision::Rejected {
            message: concat3("Error: ", extract_dir.as_str(), " already exists"),
        };
    }
    let tool = match tool {
        Some(t) => t,
        None => {
            return UntarDecision::Rejected { message: String::from_str("tar command not found") };
        },
    };
    UntarDecision::Run { job: ArchiveJob::extract(archive_path, name, tool), extract_dir }
}

/// A link found under the files chosen for a job.
#[derive(Debug, Clone, PartialEq, Eq)]
pub struct SymlinkEntry {
    /// The path of the link, from the folder the files are in.
    pub path: String,
    /// Where the link leads once every link on the way is followed, as a
    /// full path; `None` where it leads nowhere.
    pub target: Option<String>,
}

/// Whether the full path `path` is `root` or lies below it.
pub open spec fn is_within(root: Seq<char>, path: Seq<char>) -> bool {
    let r = without_trailing(root, '/');
    path == r || starts_with(path, r + "/"@)
}

/// Whether a link that leads to `target` stays in the tree below `root`. A
/// link that leads nowhere does not.
pub open spec fn link_is_safe(root: Seq<char>, target: Option<Seq<char>>) -> bool {
    match target {
        Some(t) => is_within(root, t),
        None => false,
    }
}

/// Whether the full path `path` is `root` or lies below it.
pub fn path_is_within(root: &str, path: &str) -> (r: bool)
    ensures
        r == is_within(root@, path@),
{
    let base = strip_trailing(&chars_of(root), '/');
    let p = chars_of(path);
    if same_chars(&p, &base) {
        return true;
    }
    let mut prefix: Vec<char> = Vec::new();
    append_chars(&mut prefix, &base);
    append_str(&mut prefix, "/");
    has_prefix(&p, &prefix)
}

/// Whether an entry put into the folder `target` would go into itself: it
/// is a directory, and the folder is that directory or lies below it.
/// `source` and `target` are the full paths of the entry and of the folder,
/// each where it could be found out; where one could not, the answer is no.
pub open spec fn into_itself(
    is_directory: bool,
    source: Option<Seq<char>>,
    target: Option<Seq<char>>,
) -> bool {
    is_directory && source is Some && target is Some && is_within(source->0, target->0)
}

/// Whether an entry put into the folder `target` would go into itself.
pub fn goes_into_itself(is_directory: bool, source: Option<&str>, target: Option<&str>) -> (r: bool)
    ensures
        r == into_itself(is_directory, crate::transfer::opt_str(source), crate::transfer::opt_str(target)),
{
    match (source, target) {
        (Some(s), Some(t)) => is_directory && path_is_within(s, t),
        _ => false,
    }
}

/// For each link, whether it leaves the tree below `root`.
pub open spec fn unsafe_flags(root: Seq<char>, links: Seq<SymlinkEntry>) -> Seq<bool> {
    Seq::new(links.len(), |i: int| !link_is_safe(root, opt_text(links[i].target)))
}

/// The paths of a list of links.
pub open spec fn link_paths(links: Seq<SymlinkEntry>) -> Seq<Seq<char>> {
    links.map_values(|l: SymlinkEntry| l.path@)
}

/// Picks out the links that leave the tree below `root`, the full path of
/// the folder the chosen files are in. Returns their paths, in the order
/// found: the caller is asked before a job goes on without them.
pub fn filter_symlinks_for_tar(root: &str, links: &Vec<SymlinkEntry>) -> (excluded: Vec<String>)
    ensures
        texts(excluded@) == chosen(link_paths(links@), unsafe_flags(root@, links@), true),
{
    let mut paths: Vec<String> = Vec::new();
    let mut flags: Vec<bool> = Vec::new();
    let mut i: usize = 0;
    let ghost want = unsafe_flags(root@, links@);
    assert(texts(paths@) == link_paths(links@).subrange(0, 0));
    while i < links.len()
        invariant
            i <= links.len(),
            want == unsafe_flags(root@, links@),
            flags.len() == i,
            forall|j: int| 0 <= j < i ==> flags[j] == want[j],
            texts(paths@) == link_paths(links@).subrange(0, i as int),
        decreases links.len() - i,
    {
        let safe = match &links[i].target {
            Some(t) => path_is_within(root, t.as_str()),
            None => false,
        };
        flags.push(!safe);
        let ghost before = texts(paths@);
        paths.push(links[i].path.clone());
        assert(texts(paths@) == before.push(links@[i as int].path@));
        assert(link_paths(links@).subrange(0, i + 1) == link_paths(links@).subrange(
            0,
            i as int,
        ).push(links@[i as int].path@));
        i += 1;
    }
    assert(link_paths(links@).subrange(0, links.len() as int) == link_paths(links@));
    assert(flags@ =~= want);
    choose_by_flag(&paths, &flags, true)
}

} // verus!
