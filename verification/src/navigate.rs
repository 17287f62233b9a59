//! Decisions of moving about and opening things: where a typed path leads,
//! what Enter does on an entry, how the handlers for a kind of file are
//! tried one after the other, and how a bookmark is set or taken away.

use vstd::prelude::*;
use crate::archive::{has_archive_suffix, is_archive_file};
use crate::archive_job::opt_text;
use crate::format::one_decimal;
use crate::listing::FileItem;
use crate::cli::quotes_escaped;
use crate::panel::{handler_body, handler_command, replaced, HandlerCommand};
use crate::state::{Dialog, DialogType};
use crate::text::{
    append_str, chars_of, concat2, lowercase_of, str_eq, string_of, subvec, texts, trim,
    trim_chars,
};
use crate::transfer::{join_path, joined_path, opt_str, strip_leading, without_leading};

verus! {

/// Whether two full stops stand at index `i` of `s`.
pub open spec fn dots_at(s: Seq<char>, i: int) -> bool {
    0 <= i < s.len() - 1 && s[i] == '.' && s[i + 1] == '.'
}

/// Whether `s` holds two full stops in a row.
pub open spec fn has_dot_dot(s: Seq<char>) -> bool {
    exists|i: int| #[trigger] dots_at(s, i)
}

/// The path that a typed path stands for: below the home directory where it
/// begins with `~`, itself where it starts at the root, else below the
/// folder of the panel.
pub open spec fn goto_path_of(typed: Seq<char>, home: Option<Seq<char>>, current: Seq<char>) -> Seq<
    char,
> {
    if typed.len() > 0 && typed[0] == '~' {
        match home {
            Some(h) => joined_path(h, without_leading(typed.drop_first(), '/')),
            None => typed,
        }
    } else if typed.len() > 0 && typed[0] == '/' {
        typed
    } else {
        joined_path(current, typed)
    }
}

/// Where a typed path leads.
#[derive(Debug, Clone, PartialEq, Eq)]
pub struct GotoTarget {
    /// The path that the typed path stands for.
    pub path: String,
    /// The typed path may step up a folder: the caller has to find the real
    /// path before anything is shown.
    pub must_resolve: bool,
}

/// Works out where the path `typed` leads from the folder `current` of the
/// panel; `home` is the user's home directory.
pub fn goto_target(typed: &str, home: Option<&str>, current: &str) -> (t: GotoTarget)
    ensures
        t.path@ == goto_path_of(typed@, opt_str(home), current@),
        t.must_resolve == has_dot_dot(typed@),
{
    let v = chars_of(typed);
    let mut must_resolve = false;
    let mut i: usize = 0;
    while i < v.len() && v.len() - i >= 2 && !must_resolve
        invariant
            i <= v.len(),
            !must_resolve ==> forall|j: int| 0 <= j < i ==> !#[trigger] dots_at(v@, j),
            must_resolve ==> dots_at(v@, i as int),
        decreases v.len() - i + (if must_resolve { 0int } else { 1 }),
    {
        if v[i] == '.' && v[i + 1] == '.' {
            must_resolve = true;
        } else {
            i += 1;
        }
    }
    let path = if v.len() > 0 && v[0] == '~' {
        match home {
            Some(h) => {
                let rest = subvec(&v, 1, v.len());
                assert(rest@ == v@.drop_first());
                let rest = string_of(&strip_leading(&rest, '/'));
                join_path(h, rest.as_str())
            },
            None => String::from_str(typed),
        }
    } else if v.len() > 0 && v[0] == '/' {
        String::from_str(typed)
    } else {
        join_path(current, typed)
    };
    GotoTarget { path, must_resolve }
}

/// What comes of going to a path.
#[derive(Debug, Clone, PartialEq, Eq)]
pub enum GotoOutcome {
    /// The panel stays where it is; the user is told why.
    Stay { message: String },
    /// The panel goes to `path`; the user is told so.
    Move { path: String, message: String },
}

/// A `GotoOutcome` with its texts as character sequences.
pub enum GotoOutcomeView {
    Stay { message: Seq<char> },
    Move { path: Seq<char>, message: Seq<char> },
}

impl View for GotoOutcome {
    type V = GotoOutcomeView;

    open spec fn view(&self) -> GotoOutcomeView {
        match *self {
            GotoOutcome::Stay { message } => GotoOutcomeView::Stay { message: message@ },
            GotoOutcome::Move { path, message } => GotoOutcomeView::Move {
                path: path@,
                message: message@,
            },
        }
    }
}

/// What comes of going to the path `target`, given the nearest folder
/// `valid` that can be shown for it and the folder `current` of the panel,
/// which is what `valid` falls back to. `resolved` says whether the real
/// path could be found, where the typed path had to be resolved.
pub open spec fn goto_outcome_of(
    must_resolve: bool,
    resolved: bool,
    target: Seq<char>,
    valid: Seq<char>,
    current: Seq<char>,
) -> GotoOutcomeView {
    if must_resolve && !resolved {
        GotoOutcomeView::Stay { message: "Error: Invalid path"@ }
    } else if must_resolve {
        if valid != current {
            GotoOutcomeView::Move { path: valid, message: "Moved to: "@ + valid }
        } else {
            GotoOutcomeView::Stay { message: "Error: Path not found or not accessible"@ }
        }
    } else if valid == target && valid == current {
        GotoOutcomeView::Stay { message: "Already at: "@ + valid }
    } else if valid != current {
        GotoOutcomeView::Move {
            path: valid,
            message: if valid == target {
                "Moved to: "@ + valid
            } else {
                "Moved to nearest valid: "@ + valid
            },
        }
    } else {
        GotoOutcomeView::Stay { message: "Error: Path not found or not accessible"@ }
    }
}

/// Decides what comes of going to a path.
pub fn execute_goto(must_resolve: bool, resolved: bool, target: &str, valid: &str, current: &str) -> (o:
    GotoOutcome)
    ensures
        o@ == goto_outcome_of(must_resolve, resolved, target@, valid@, current@),
{
    let unreachable = "Error: Path not found or not accessible";
    if must_resolve && !resolved {
        GotoOutcome::Stay { message: String::from_str("Error: Invalid path") }
    } else if must_resolve {
        if !str_eq(valid, current) {
            GotoOutcome::Move {
                path: String::from_str(valid),
                message: concat2("Moved to: ", valid),
            }
        } else {
            GotoOutcome::Stay { message: String::from_str(unreachable) }
        }
    } else if str_eq(valid, target) && str_eq(valid, current) {
        GotoOutcome::Stay { message: concat2("Already at: ", valid) }
    } else if !str_eq(valid, current) {
        let message = if str_eq(valid, target) {
            concat2("Moved to: ", valid)
        } else {
            concat2("Moved to nearest valid: ", valid)
        };
        GotoOutcome::Move { path: String::from_str(valid), message }
    } else {
        GotoOutcome::Stay { message: String::from_str(unreachable) }
    }
}

/// What Enter does on the entry under the cursor.
#[derive(Debug, Clone, PartialEq, Eq)]
pub enum EnterStep {
    /// There is no entry under the cursor.
    Nothing,
    /// The panel goes to the folder above, where there is one, and puts the
    /// cursor on the folder it came from.
    GoToParent { focus: Option<String> },
    /// The panel goes into the directory of this name.
    EnterDirectory { name: String },
    /// The entry is a file: its handlers are tried first.
    OpenFile { name: String },
}

/// Decides what Enter does on `file`, the entry under the cursor.
/// `folder_name` is the last part of the panel's path.
pub fn enter_selected(file: Option<&FileItem>, folder_name: Option<&str>) -> (step: EnterStep)
    ensures
        file is None ==> step == EnterStep::Nothing,
        file matches Some(f) ==> (if f.is_directory {
            if f.name@ == ".."@ {
                step matches EnterStep::GoToParent { focus } && opt_text(focus) == opt_str(
                    folder_name,
                )
            } else {
                step matches EnterStep::EnterDirectory { name } && name@ == f.name@
            }
        } else {
            step matches EnterStep::OpenFile { name } && name@ == f.name@
        }),
{
    match file {
        None => EnterStep::Nothing,
        Some(f) => {
            if f.is_directory {
                if str_eq(f.name.as_str(), "..") {
                    let focus = match folder_name {
                        Some(n) => Some(String::from_str(n)),
                        None => None,
                    };
                    EnterStep::GoToParent { focus }
                } else {
                    EnterStep::EnterDirectory { name: f.name.clone() }
                }
            } else {
                EnterStep::OpenFile { name: f.name.clone() }
            }
        },
    }
}

/// Above this size the user is asked before a file is opened: 50 MB.
pub const LARGE_FILE_THRESHOLD: u64 = 52428800;

/// What is done with a file no handler took.
#[derive(Debug, Clone, PartialEq, Eq)]
pub enum OpenDecision {
    /// The file is an archive: it is unpacked.
    Extract,
    /// The user is asked, in this dialog, before the file is opened.
    Ask { dialog: Dialog, is_image: bool },
    /// The file is shown as an image.
    ViewImage,
    /// The file is opened in the editor.
    Edit,
}

/// The question put before a large file is opened.
pub open spec fn large_file_question(size: u64, is_image: bool) -> Seq<char> {
    (if is_image {
        "This image is "@
    } else {
        "This file is "@
    }) + one_decimal(size as nat, 1048576) + "MB. Open anyway?"@
}

/// Whether `d` puts the question `message` to the user, with "no" chosen
/// to begin with.
pub open spec fn is_question(d: Dialog, dialog_type: DialogType, message: Seq<char>) -> bool {
    &&& d.dialog_type == dialog_type
    &&& d.message@ == message
    &&& d.selected_button == 1
    &&& d.input@.len() == 0
    &&& d.cursor_pos == 0
    &&& d.completion is None
    &&& d.selection is None
}

/// The kind of dialog that asks before a large file is opened.
pub open spec fn large_file_dialog_type(is_image: bool) -> DialogType {
    if is_image {
        DialogType::LargeImageConfirm
    } else {
        DialogType::LargeFileConfirm
    }
}

/// What the user is asked where the terminal cannot show all colours.
pub open spec fn true_color_question() -> Seq<char> {
    "Terminal doesn't support true color. Open anyway?"@
}

/// The dialog that asks before a file of `size` bytes is opened.
pub fn large_file_dialog(size: u64, is_image: bool) -> (d: Dialog)
    ensures
        is_question(d, large_file_dialog_type(is_image), large_file_question(size, is_image)),
{
    let mut text: Vec<char> = Vec::new();
    if is_image {
        append_str(&mut text, "This image is ");
    } else {
        append_str(&mut text, "This file is ");
    }
    crate::format::append_one_decimal(&mut text, size, 1048576);
    append_str(&mut text, "MB. Open anyway?");
    let mut dialog = Dialog::plain(
        if is_image {
            DialogType::LargeImageConfirm
        } else {
            DialogType::LargeFileConfirm
        },
    );
    dialog.message = string_of(&text);
    dialog.selected_button = 1;
    dialog
}

/// The dialog that asks before a picture is shown on a terminal that
/// cannot show all colours.
pub fn true_color_dialog() -> (d: Dialog)
    ensures
        is_question(d, DialogType::TrueColorWarning, true_color_question()),
{
    let mut dialog = Dialog::plain(DialogType::TrueColorWarning);
    dialog.message = String::from_str("Terminal doesn't support true color. Open anyway?");
    dialog.selected_button = 1;
    dialog
}

/// Decides what is done with the file `name` of `size` bytes after no
/// handler took it. `is_image` says whether it is a picture, `true_color`
/// whether the terminal shows all colours.
pub fn open_file(name: &str, size: u64, is_image: bool, true_color: bool) -> (d: OpenDecision)
    ensures
        has_archive_suffix(lowercase_of(name@)) ==> d == OpenDecision::Extract,
        !has_archive_suffix(lowercase_of(name@)) ==> (if size > LARGE_FILE_THRESHOLD {
            &&& d matches OpenDecision::Ask { dialog, is_image: image }
            &&& image == is_image
            &&& is_question(
                dialog,
                large_file_dialog_type(is_image),
                large_file_question(size, is_image),
            )
        } else if is_image && !true_color {
            &&& d matches OpenDecision::Ask { dialog, is_image: image }
            &&& image
            &&& is_question(dialog, DialogType::TrueColorWarning, true_color_question())
        } else if is_image {
            d == OpenDecision::ViewImage
        } else {
            d == OpenDecision::Edit
        }),
{
    if is_archive_file(name) {
        return OpenDecision::Extract;
    }
    if size > LARGE_FILE_THRESHOLD {
        OpenDecision::Ask { dialog: large_file_dialog(size, is_image), is_image }
    } else if is_image && !true_color {
        OpenDecision::Ask { dialog: true_color_dialog(), is_image: true }
    } else if is_image {
        OpenDecision::ViewImage
    } else {
        OpenDecision::Edit
    }
}

/// How a command started in the background turned out.
#[derive(Debug, Clone, PartialEq, Eq)]
pub enum BackgroundReport {
    /// The command could not be started, for the reason given.
    NotStarted(String),
    /// The command still ran a moment after it was started.
    Running,
    /// The command had ended with success.
    EndedWell,
    /// The command had ended in failure; the text is what it wrote to
    /// standard error, where that could be read.
    EndedBadly(Option<String>),
    /// Whether the command still ran could not be found out.
    Unknown(String),
}

/// Whether a command started in the background counts as having worked, as
/// `Ok`, or why it failed, as `Err`: a command that still runs a moment
/// after its start, or has ended with success, has worked.
pub open spec fn background_result(template: Seq<char>, report: BackgroundReport) -> Result<
    (),
    Seq<char>,
> {
    match report {
        BackgroundReport::NotStarted(e) => Err(
            "Failed to execute '"@ + template + "': "@ + e@,
        ),
        BackgroundReport::Running => Ok(()),
        BackgroundReport::EndedWell => Ok(()),
        BackgroundReport::EndedBadly(stderr) => match stderr {
            Some(text) => if trim(text@).len() == 0 {
                Err("Command failed: "@ + template)
            } else {
                Err(trim(text@))
            },
            None => Err("Command failed: "@ + template),
        },
        BackgroundReport::Unknown(e) => Err("Failed to check process: "@ + e@),
    }
}

/// Judges a command started in the background from the handler `template`.
pub fn execute_background_command(template: &str, report: BackgroundReport) -> (r: Result<
    (),
    String,
>)
    ensures
        r is Ok <==> background_result(template@, report) is Ok,
        r matches Err(e) ==> background_result(template@, report) == Err::<(), Seq<char>>(e@),
{
    match report {
        BackgroundReport::NotStarted(e) => {
            let mut out: Vec<char> = Vec::new();
            append_str(&mut out, "Failed to execute '");
            append_str(&mut out, template);
            append_str(&mut out, "': ");
            append_str(&mut out, e.as_str());
            Err(string_of(&out))
        },
        BackgroundReport::Running => Ok(()),
        BackgroundReport::EndedWell => Ok(()),
        BackgroundReport::EndedBadly(stderr) => match stderr {
            Some(text) => {
                let t = trim_chars(&chars_of(text.as_str()));
                if t.len() == 0 {
                    Err(concat2("Command failed: ", template))
                } else {
                    Err(string_of(&t))
                }
            },
            None => Err(concat2("Command failed: ", template)),
        },
        BackgroundReport::Unknown(e) => Err(concat2("Failed to check process: ", e.as_str())),
    }
}

/// How one handler turned out.
#[derive(Debug, Clone, PartialEq, Eq)]
pub enum HandlerReport {
    /// The handler ran and succeeded.
    Worked,
    /// The handler ran in the terminal and ended in failure.
    Failed,
    /// The handler did not work, for the reason given.
    Broke(String),
}

/// What is done next for a file that has handlers.
#[derive(Debug, Clone, PartialEq, Eq)]
pub enum HandlerStep {
    /// Run this command and report how it went.
    Run(HandlerCommand),
    /// A handler worked: nothing else is done with the file.
    Done,
    /// Every handler failed; the text says why the last one did.
    GiveUp(String),
}

/// The handlers of a kind of file, tried one after the other until one works.
pub struct HandlerCascade {
    pub handlers: Vec<String>,
    pub path: String,
    /// The index of the handler that is tried next.
    pub next: usize,
    /// Whether a handler runs whose outcome is awaited.
    pub running: bool,
    /// Why the last handler that said so failed.
    pub last_error: String,
}

impl HandlerCascade {
    /// The cascade of `handlers` for the file at `path`; `None` where there
    /// is no handler, and the file is opened the usual way.
    pub fn new(handlers: Vec<String>, path: String) -> (c: Option<HandlerCascade>)
        ensures
            c is Some <==> handlers@.len() > 0,
            c matches Some(c) ==> c.handlers == handlers && c.path == path && c.next == 0
                && !c.running && c.last_error@.len() == 0,
    {
        if handlers.len() == 0 {
            None
        } else {
            Some(HandlerCascade { handlers, path, next: 0, running: false, last_error: String::new() })
        }
    }

    /// Takes the report on the handler that ran last, where one ran, and
    /// answers with what to do next: nothing more where it worked, else the
    /// next handler, else to give up. A handler that failed in the terminal
    /// leaves "Command failed" and its text as the reason; one that broke
    /// leaves its own reason.
    pub fn try_next(&mut self, report: Option<HandlerReport>) -> (step: HandlerStep)
        requires
            old(self).next <= old(self).handlers@.len(),
        ensures
            final(self).handlers == old(self).handlers,
            final(self).path == old(self).path,
            final(self).next <= final(self).handlers@.len(),
            ({
                let ran = old(self).running && report is Some && old(self).next > 0;
                let worked = ran && report->0 is Worked;
                let reason = if ran && report->0 is Failed {
                    "Command failed: "@ + handler_body(old(self).handlers@[old(self).next - 1]@)
                } else if ran && report->0 is Broke {
                    report->0->Broke_0@
                } else {
                    old(self).last_error@
                };
                &&& final(self).last_error@ == reason
                &&& worked ==> step == HandlerStep::Done && final(self).next == old(self).next
                    && !final(self).running
                &&& !worked && old(self).next < old(self).handlers@.len() ==> {
                    &&& step matches HandlerStep::Run(cmd)
                    &&& cmd.in_terminal == (old(self).handlers@[old(self).next as int]@.len() > 0
                        && old(self).handlers@[old(self).next as int]@[0] == '@')
                    &&& cmd.command@ == replaced(
                        handler_body(old(self).handlers@[old(self).next as int]@),
                        "{{FILEPATH}}"@,
                        "'"@ + quotes_escaped(old(self).path@) + "'"@,
                    )
                    &&& final(self).next == old(self).next + 1
                    &&& final(self).running
                }
                &&& !worked && old(self).next >= old(self).handlers@.len() ==> {
                    &&& step matches HandlerStep::GiveUp(e)
                    &&& e@ == reason
                    &&& final(self).next == old(self).next
                    &&& !final(self).running
                }
            }),
    {
        if self.running && self.next > 0 {
            match report {
                Some(HandlerReport::Worked) => {
                    self.running = false;
                    return HandlerStep::Done;
                },
                Some(HandlerReport::Failed) => {
                    let t = chars_of(self.handlers[self.next - 1].as_str());
                    let body = if t.len() > 0 && t[0] == '@' {
                        subvec(&t, 1, t.len())
                    } else {
                        subvec(&t, 0, t.len())
                    };
                    assert(t@.subrange(0, t.len() as int) == t@);
                    let body = string_of(&body);
                    self.last_error = concat2("Command failed: ", body.as_str());
                },
                Some(HandlerReport::Broke(e)) => {
                    self.last_error = e;
                },
                None => {},
            }
        }
        if self.next < self.handlers.len() {
            let cmd = handler_command(self.handlers[self.next].as_str(), self.path.as_str());
            self.next = self.next + 1;
            self.running = true;
            HandlerStep::Run(cmd)
        } else {
            self.running = false;
            HandlerStep::GiveUp(self.last_error.clone())
        }
    }
}

/// The index of the first text of `list`, from `from` on, that is `t`.
pub open spec fn first_text_index(list: Seq<Seq<char>>, t: Seq<char>, from: int) -> Option<int>
    decreases list.len() - from,
{
    if from < 0 || from >= list.len() {
        None
    } else if list[from] == t {
        Some(from)
    } else {
        first_text_index(list, t, from + 1)
    }
}

/// Sets a bookmark on `path` where it has none, and takes the first one
/// away where it has one. Returns what the user is told.
pub fn toggle_bookmark(bookmarks: &mut Vec<String>, path: &str) -> (message: String)
    ensures
        match first_text_index(texts(old(bookmarks)@), path@, 0) {
            Some(i) => {
                &&& texts(final(bookmarks)@) == texts(old(bookmarks)@).remove(i)
                &&& message@ == "Bookmark removed: "@ + path@
            },
            None => {
                &&& texts(final(bookmarks)@) == texts(old(bookmarks)@).push(path@)
                &&& message@ == "Bookmark added: "@ + path@
            },
        },
{
    let ghost before = texts(bookmarks@);
    assert(before.len() == bookmarks@.len());
    let needle = String::from_str(path);
    let mut i: usize = 0;
    while i < bookmarks.len()
        invariant
            i <= bookmarks@.len(),
            needle@ == path@,
            bookmarks@ == old(bookmarks)@,
            before == texts(bookmarks@),
            before.len() == bookmarks@.len(),
            first_text_index(before, path@, 0) == first_text_index(before, path@, i as int),
        decreases bookmarks.len() - i,
    {
        assert(before[i as int] == bookmarks@[i as int]@);
        if bookmarks[i] == needle {
            bookmarks.remove(i);
            assert(texts(bookmarks@) =~= before.remove(i as int));
            return concat2("Bookmark removed: ", path);
        }
        i += 1;
    }
    bookmarks.push(String::from_str(path));
    assert(texts(bookmarks@) =~= before.push(path@));
    concat2("Bookmark added: ", path)
}

} // verus!
