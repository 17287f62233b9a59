//! What the messenger bot decides before it does anything: who may talk
//! to it, which command a message is, what the command asks for, and what
//! is answered. Sending the answers and doing the work is left to the
//! caller.

use vstd::prelude::*;
use crate::cancel::CancelState;
use crate::markup::{escape_chars, html_escaped};
use crate::text::{
    append_chars, append_decimal, append_str, chars_of, concat2, decimal, has_prefix, starts_with,
    string_of, subvec, texts, trim, trim_chars,
};
use crate::paste::contains_text;
use crate::tools::{normalize_tool_name, normalized_tool_name, tool_entry, tool_info};
use crate::transfer::{join_path, joined_path, strip_trailing, without_trailing};

verus! {

/// Whether someone may talk to the bot.
#[derive(Debug, Clone, Copy, PartialEq, Eq)]
pub enum Admission {
    /// The message names no sender: it is passed over.
    Ignore,
    /// The bot has no owner yet: the sender becomes its owner.
    Imprint(u64),
    /// The sender is the owner.
    Owner,
    /// The sender is not the owner: the message is passed over.
    Reject,
}

/// Decides whether the sender `user` may talk to a bot whose owner is `owner`.
pub fn check_sender(owner: Option<u64>, user: Option<u64>) -> (a: Admission)
    ensures
        a == (match user {
            None => Admission::Ignore,
            Some(uid) => match owner {
                None => Admission::Imprint(uid),
                Some(owner_id) => if uid == owner_id {
                    Admission::Owner
                } else {
                    Admission::Reject
                },
            },
        }),
{
    match user {
        None => Admission::Ignore,
        Some(uid) => match owner {
            None => Admission::Imprint(uid),
            Some(owner_id) => if uid == owner_id {
                Admission::Owner
            } else {
                Admission::Reject
            },
        },
    }
}

/// The commands of the bot.
#[derive(Debug, Clone, Copy, PartialEq, Eq)]
pub enum BotCommand {
    Stop,
    Help,
    Start,
    Clear,
    Pwd,
    Down,
    AvailableTools,
    AllowedTools,
    Allowed,
    /// A line for the shell, which begins with `!`.
    Shell,
    /// Anything else: a message for the assistant.
    Text,
}

/// The command that the message `text` begins with.
pub open spec fn command_of(text: Seq<char>) -> BotCommand {
    if starts_with(text, "/stop"@) {
        BotCommand::Stop
    } else if starts_with(text, "/help"@) {
        BotCommand::Help
    } else if starts_with(text, "/start"@) {
        BotCommand::Start
    } else if starts_with(text, "/clear"@) {
        BotCommand::Clear
    } else if starts_with(text, "/pwd"@) {
        BotCommand::Pwd
    } else if starts_with(text, "/down"@) {
        BotCommand::Down
    } else if starts_with(text, "/availabletools"@) {
        BotCommand::AvailableTools
    } else if starts_with(text, "/allowedtools"@) {
        BotCommand::AllowedTools
    } else if starts_with(text, "/allowed"@) {
        BotCommand::Allowed
    } else if starts_with(text, "!"@) {
        BotCommand::Shell
    } else {
        BotCommand::Text
    }
}

fn begins(text: &Vec<char>, prefix: &str) -> (r: bool)
    ensures
        r == starts_with(text@, prefix@),
{
    has_prefix(text, &chars_of(prefix))
}

/// The command that the message `text` begins with.
pub fn classify_message(text: &str) -> (c: BotCommand)
    ensures
        c == command_of(text@),
{
    let t = chars_of(text);
    if begins(&t, "/stop") {
        BotCommand::Stop
    } else if begins(&t, "/help") {
        BotCommand::Help
    } else if begins(&t, "/start") {
        BotCommand::Start
    } else if begins(&t, "/clear") {
        BotCommand::Clear
    } else if begins(&t, "/pwd") {
        BotCommand::Pwd
    } else if begins(&t, "/down") {
        BotCommand::Down
    } else if begins(&t, "/availabletools") {
        BotCommand::AvailableTools
    } else if begins(&t, "/allowedtools") {
        BotCommand::AllowedTools
    } else if begins(&t, "/allowed") {
        BotCommand::Allowed
    } else if begins(&t, "!") {
        BotCommand::Shell
    } else {
        BotCommand::Text
    }
}

/// What is done with a message: while the assistant works on a request,
/// only the command that stops it is taken.
pub fn route_message(text: &str, busy: bool) -> (r: Option<BotCommand>)
    ensures
        r == (if busy && command_of(text@) != BotCommand::Stop {
            None
        } else {
            Some(command_of(text@))
        }),
{
    let command = classify_message(text);
    match command {
        BotCommand::Stop => Some(command),
        _ => if busy {
            None
        } else {
            Some(command)
        },
    }
}

/// What stands behind the word `prefix` at the start of `text`, without
/// the white space at its ends; nothing where `text` does not start with
/// `prefix`.
pub open spec fn argument_after(text: Seq<char>, prefix: Seq<char>) -> Seq<char> {
    if starts_with(text, prefix) {
        trim(text.subrange(prefix.len() as int, text.len() as int))
    } else {
        Seq::empty()
    }
}

fn argument_chars(text: &str, prefix: &str) -> (out: Vec<char>)
    ensures
        out@ == argument_after(text@, prefix@),
{
    let t = chars_of(text);
    let p = chars_of(prefix);
    if has_prefix(&t, &p) {
        trim_chars(&subvec(&t, p.len(), t.len()))
    } else {
        Vec::new()
    }
}

/// What stands behind the word `prefix` at the start of `text`.
pub fn command_argument(text: &str, prefix: &str) -> (out: String)
    ensures
        out@ == argument_after(text@, prefix@),
{
    string_of(&argument_chars(text, prefix))
}

/// What a request for a file comes to.
#[derive(Debug, Clone, PartialEq, Eq)]
pub enum DownRequest {
    /// No file is named: the user is told how the command is used.
    Usage,
    /// The file is named from the folder of a session, and there is none.
    NoSession,
    /// The file at this path is asked for.
    File(String),
}

/// A `DownRequest` with its path as a character sequence.
pub enum DownView {
    Usage,
    NoSession,
    File(Seq<char>),
}

impl View for DownRequest {
    type V = DownView;

    open spec fn view(&self) -> DownView {
        match *self {
            DownRequest::Usage => DownView::Usage,
            DownRequest::NoSession => DownView::NoSession,
            DownRequest::File(p) => DownView::File(p@),
        }
    }
}

/// What the request `text` for a file comes to: a path from the root
/// stands for itself, any other is taken from the folder `current_path` of
/// the session.
pub open spec fn down_request_of(text: Seq<char>, current_path: Option<Seq<char>>) -> DownView {
    let file = argument_after(text, "/down"@);
    if file.len() == 0 {
        DownView::Usage
    } else if file[0] == '/' {
        DownView::File(file)
    } else {
        match current_path {
            Some(base) => DownView::File(without_trailing(base, '/') + "/"@ + file),
            None => DownView::NoSession,
        }
    }
}

/// Decides which file the message `text`, a request for a file, asks for.
pub fn handle_down_command(text: &str, current_path: Option<&str>) -> (r: DownRequest)
    ensures
        r@ == down_request_of(
            text@,
            match current_path {
                Some(p) => Some(p@),
                None => None,
            },
        ),
{
    let file = argument_chars(text, "/down");
    if file.len() == 0 {
        return DownRequest::Usage;
    }
    if file[0] == '/' {
        return DownRequest::File(string_of(&file));
    }
    match current_path {
        Some(base) => {
            let mut out = strip_trailing(&chars_of(base), '/');
            append_str(&mut out, "/");
            append_chars(&mut out, &file);
            DownRequest::File(string_of(&out))
        },
        None => DownRequest::NoSession,
    }
}

/// What is answered where the file asked for cannot be sent; nothing where
/// it can.
pub fn down_refusal(path: &str, exists: bool, is_file: bool) -> (r: Option<String>)
    ensures
        !exists ==> (r matches Some(m) && m@ == "File not found: "@ + path@),
        exists && !is_file ==> (r matches Some(m) && m@ == "Not a file: "@ + path@),
        exists && is_file ==> r is None,
{
    if !exists {
        Some(concat2("File not found: ", path))
    } else if !is_file {
        Some(concat2("Not a file: ", path))
    } else {
        None
    }
}

/// The line for the shell that the message `text` holds behind its `!`;
/// nothing where it holds none.
pub fn handle_shell_command(text: &str) -> (r: Option<String>)
    ensures
        r is Some <==> argument_after(text@, "!"@).len() > 0,
        r matches Some(line) ==> line@ == argument_after(text@, "!"@),
{
    let line = argument_chars(text, "!");
    if line.len() == 0 {
        None
    } else {
        Some(string_of(&line))
    }
}

/// The folder in which a command for the shell runs: that of the session;
/// without a session the home directory; without one, the root.
pub fn working_directory(current_path: Option<String>, home: Option<String>) -> (dir: String)
    ensures
        dir@ == (match current_path {
            Some(p) => p@,
            None => match home {
                Some(h) => h@,
                None => "/"@,
            },
        }),
{
    match current_path {
        Some(p) => p,
        None => match home {
            Some(h) => h,
            None => String::from_str("/"),
        },
    }
}

/// All tools that there are, in the order in which they are listed.
pub open spec fn all_tools() -> Seq<Seq<char>> {
    seq![
        "Bash"@,
        "Read"@,
        "Edit"@,
        "Write"@,
        "Glob"@,
        "Grep"@,
        "Task"@,
        "TaskOutput"@,
        "TaskStop"@,
        "WebFetch"@,
        "WebSearch"@,
        "NotebookEdit"@,
        "Skill"@,
        "TaskCreate"@,
        "TaskGet"@,
        "TaskUpdate"@,
        "TaskList"@,
        "AskUserQuestion"@,
        "EnterPlanMode"@,
        "ExitPlanMode"@,
    ]
}

/// All tools that there are.
pub fn available_tools() -> (tools: Vec<String>)
    ensures
        texts(tools@) == all_tools(),
{
    let mut tools: Vec<String> = Vec::new();
    tools.push(String::from_str("Bash"));
    tools.push(String::from_str("Read"));
    tools.push(String::from_str("Edit"));
    tools.push(String::from_str("Write"));
    tools.push(String::from_str("Glob"));
    tools.push(String::from_str("Grep"));
    tools.push(String::from_str("Task"));
    tools.push(String::from_str("TaskOutput"));
    tools.push(String::from_str("TaskStop"));
    tools.push(String::from_str("WebFetch"));
    tools.push(String::from_str("WebSearch"));
    tools.push(String::from_str("NotebookEdit"));
    tools.push(String::from_str("Skill"));
    tools.push(String::from_str("TaskCreate"));
    tools.push(String::from_str("TaskGet"));
    tools.push(String::from_str("TaskUpdate"));
    tools.push(String::from_str("TaskList"));
    tools.push(String::from_str("AskUserQuestion"));
    tools.push(String::from_str("EnterPlanMode"));
    tools.push(String::from_str("ExitPlanMode"));
    assert(texts(tools@) =~= all_tools());
    tools
}

/// The line of a list of tools for the tool `name`: the name, the mark of
/// a tool that can destroy something, and what the tool is for.
pub open spec fn tool_line(name: Seq<char>) -> Seq<char> {
    let (description, destructive) = tool_entry(name);
    "<code>"@ + html_escaped(name) + "</code>"@ + (if destructive {
        " !!!"@
    } else {
        Seq::empty()
    }) + " \u{2014} "@ + html_escaped(description) + "\n"@
}

/// The lines of a list of the tools `names`.
pub open spec fn tool_lines(names: Seq<Seq<char>>) -> Seq<char>
    decreases names.len(),
{
    if names.len() == 0 {
        Seq::empty()
    } else {
        tool_lines(names.drop_last()) + tool_line(names.last())
    }
}

/// A list of the tools `names` under the heading `title`, with what the
/// mark means and how many tools there are.
pub open spec fn tools_message(title: Seq<char>, names: Seq<Seq<char>>) -> Seq<char> {
    "<b>"@ + title + "</b>\n\n"@ + tool_lines(names) + "\n!!! = destructive\nTotal: "@ + decimal(
        names.len(),
    )
}

fn append_tool_line(out: &mut Vec<char>, name: &str)
    ensures
        final(out)@ == old(out)@ + tool_line(name@),
{
    let (description, destructive) = tool_info(name);
    let mut line: Vec<char> = chars_of("<code>");
    append_chars(&mut line, &escape_chars(&chars_of(name)));
    append_str(&mut line, "</code>");
    if destructive {
        append_str(&mut line, " !!!");
    }
    append_str(&mut line, " \u{2014} ");
    append_chars(&mut line, &escape_chars(&chars_of(description)));
    append_str(&mut line, "\n");
    assert(line@ =~= tool_line(name@));
    append_chars(out, &line);
}

/// Writes the list of the tools `tools` under the heading `title`.
pub fn tools_listing(title: &str, tools: &Vec<String>) -> (out: String)
    ensures
        out@ == tools_message(title@, texts(tools@)),
{
    let ghost names = texts(tools@);
    assert(names.len() == tools@.len());
    let mut lines: Vec<char> = Vec::new();
    let mut i: usize = 0;
    assert(names.subrange(0, 0) =~= Seq::<Seq<char>>::empty());
    while i < tools.len()
        invariant
            i <= tools@.len(),
            names == texts(tools@),
            names.len() == tools@.len(),
            lines@ == tool_lines(names.subrange(0, i as int)),
        decreases tools@.len() - i,
    {
        assert(names.subrange(0, i + 1).drop_last() =~= names.subrange(0, i as int));
        assert(names.subrange(0, i + 1).last() == tools@[i as int]@);
        append_tool_line(&mut lines, tools[i].as_str());
        i += 1;
    }
    assert(names.subrange(0, tools@.len() as int) =~= names);
    let mut out: Vec<char> = chars_of("<b>");
    append_str(&mut out, title);
    append_str(&mut out, "</b>\n\n");
    append_chars(&mut out, &lines);
    append_str(&mut out, "\n!!! = destructive\nTotal: ");
    append_decimal(&mut out, tools.len() as u128);
    string_of(&out)
}

/// The list of all tools that there are.
pub fn handle_availabletools_command() -> (out: String)
    ensures
        out@ == tools_message("Available Tools"@, all_tools()),
{
    tools_listing("Available Tools", &available_tools())
}

/// The list of the tools that are allowed.
pub fn handle_allowedtools_command(allowed: &Vec<String>) -> (out: String)
    ensures
        out@ == tools_message("Allowed Tools"@, texts(allowed@)),
{
    tools_listing("Allowed Tools", allowed)
}

/// What is answered to the command that shows the folder of the session.
pub fn handle_pwd_command(current_path: Option<&str>) -> (out: String)
    ensures
        out@ == (match current_path {
            Some(p) => p@,
            None => "No active session. Use /start <path> first."@,
        }),
{
    match current_path {
        Some(p) => String::from_str(p),
        None => String::from_str("No active session. Use /start <path> first."),
    }
}

/// Where a session is to be started.
#[derive(Debug, Clone, PartialEq, Eq)]
pub enum StartRequest {
    /// In a new folder of its own, since none is named.
    NewWorkspace,
    /// In the folder at this path.
    Folder(String),
}

/// A `StartRequest` with its path as a character sequence.
pub enum StartView {
    NewWorkspace,
    Folder(Seq<char>),
}

impl View for StartRequest {
    type V = StartView;

    open spec fn view(&self) -> StartView {
        match *self {
            StartRequest::NewWorkspace => StartView::NewWorkspace,
            StartRequest::Folder(p) => StartView::Folder(p@),
        }
    }
}

/// Where the message `text` asks for a session to be started. A path that
/// begins at `~` is taken from the home directory `home`, where there is one.
pub open spec fn start_request_of(text: Seq<char>, home: Option<Seq<char>>) -> StartView {
    let path = argument_after(text, "/start"@);
    if path.len() == 0 {
        StartView::NewWorkspace
    } else if starts_with(path, "~/"@) {
        match home {
            Some(h) => StartView::Folder(joined_path(h, path.subrange(2, path.len() as int))),
            None => StartView::Folder(path),
        }
    } else if path == "~"@ {
        match home {
            Some(h) => StartView::Folder(joined_path(h, Seq::empty())),
            None => StartView::Folder(path),
        }
    } else {
        StartView::Folder(path)
    }
}

/// Decides where the message `text` asks for a session to be started.
pub fn handle_start_command(text: &str, home: Option<&str>) -> (r: StartRequest)
    ensures
        r@ == start_request_of(
            text@,
            match home {
                Some(h) => Some(h@),
                None => None,
            },
        ),
{
    let path = argument_chars(text, "/start");
    if path.len() == 0 {
        return StartRequest::NewWorkspace;
    }
    proof {
        reveal_strlit("~/");
        reveal_strlit("~");
        reveal_strlit("");
    }
    let tilde_slash = begins(&path, "~/");
    let tilde = crate::text::same_chars(&path, &chars_of("~"));
    match home {
        Some(h) => {
            if tilde_slash {
                let rest = string_of(&subvec(&path, 2, path.len()));
                StartRequest::Folder(join_path(h, rest.as_str()))
            } else if tilde {
                StartRequest::Folder(join_path(h, ""))
            } else {
                StartRequest::Folder(string_of(&path))
            }
        },
        None => StartRequest::Folder(string_of(&path)),
    }
}

/// What is answered where a session cannot be started in the folder named.
pub fn start_refusal(path: &str, is_directory: bool) -> (r: Option<String>)
    ensures
        is_directory ==> r is None,
        !is_directory ==> (r matches Some(m) && m@ == "Error: '"@ + path@
            + "' is not a valid directory."@),
{
    if is_directory {
        None
    } else {
        Some(crate::text::concat3("Error: '", path, "' is not a valid directory."))
    }
}

/// What the command that allows or forbids a tool comes to.
#[derive(Debug, Clone, PartialEq, Eq)]
pub enum AllowedReply {
    /// Nothing is asked for: the user is told how the command is used.
    Usage,
    /// The list of the tools that are allowed is asked for.
    ShowList,
    /// The name of the tool has neither `+` nor `-` before it.
    BadOperator,
    /// No tool is named.
    EmptyName,
    /// The tool is allowed already.
    Already(String),
    /// The tool is allowed from now on.
    Added(String),
    /// The tool is allowed no longer.
    Removed(String),
    /// The tool was not allowed before.
    NotListed(String),
}

/// An `AllowedReply` with the name of its tool as a character sequence.
pub enum AllowedView {
    Usage,
    ShowList,
    BadOperator,
    EmptyName,
    Already(Seq<char>),
    Added(Seq<char>),
    Removed(Seq<char>),
    NotListed(Seq<char>),
}

impl View for AllowedReply {
    type V = AllowedView;

    open spec fn view(&self) -> AllowedView {
        match *self {
            AllowedReply::Usage => AllowedView::Usage,
            AllowedReply::ShowList => AllowedView::ShowList,
            AllowedReply::BadOperator => AllowedView::BadOperator,
            AllowedReply::EmptyName => AllowedView::EmptyName,
            AllowedReply::Already(t) => AllowedView::Already(t@),
            AllowedReply::Added(t) => AllowedView::Added(t@),
            AllowedReply::Removed(t) => AllowedView::Removed(t@),
            AllowedReply::NotListed(t) => AllowedView::NotListed(t@),
        }
    }
}

/// The texts of `list` that are not `t`, in their order.
pub open spec fn without_text(list: Seq<Seq<char>>, t: Seq<char>) -> Seq<Seq<char>>
    decreases list.len(),
{
    if list.len() == 0 {
        Seq::empty()
    } else if list.last() == t {
        without_text(list.drop_last(), t)
    } else {
        without_text(list.drop_last(), t).push(list.last())
    }
}

/// What the command `text` comes to with the tools `tools` allowed, and
/// which tools are allowed after it. The name of the tool is written with
/// its first letter in upper case and the rest in lower case first.
pub open spec fn allowed_outcome(text: Seq<char>, tools: Seq<Seq<char>>) -> (
    AllowedView,
    Seq<Seq<char>>,
) {
    let arg = argument_after(text, "/allowed"@);
    if arg.len() == 0 {
        (AllowedView::Usage, tools)
    } else if starts_with(arg, "tools"@) {
        (AllowedView::ShowList, tools)
    } else if arg[0] != '+' && arg[0] != '-' {
        (AllowedView::BadOperator, tools)
    } else {
        let raw = trim(arg.drop_first());
        let tool = normalized_tool_name(raw);
        if raw.len() == 0 {
            (AllowedView::EmptyName, tools)
        } else if arg[0] == '+' {
            if tools.contains(tool) {
                (AllowedView::Already(tool), tools)
            } else {
                (AllowedView::Added(tool), tools.push(tool))
            }
        } else if without_text(tools, tool).len() < tools.len() {
            (AllowedView::Removed(tool), without_text(tools, tool))
        } else {
            (AllowedView::NotListed(tool), tools)
        }
    }
}

fn remove_text(list: &Vec<String>, t: &str) -> (out: Vec<String>)
    ensures
        texts(out@) == without_text(texts(list@), t@),
{
    let ghost all = texts(list@);
    assert(all.len() == list@.len());
    let mut out: Vec<String> = Vec::new();
    let mut i: usize = 0;
    assert(all.subrange(0, 0) =~= Seq::<Seq<char>>::empty());
    assert(texts(out@) =~= Seq::<Seq<char>>::empty());
    while i < list.len()
        invariant
            i <= list@.len(),
            all == texts(list@),
            all.len() == list@.len(),
            texts(out@) == without_text(all.subrange(0, i as int), t@),
        decreases list@.len() - i,
    {
        assert(all.subrange(0, i + 1).drop_last() =~= all.subrange(0, i as int));
        assert(all.subrange(0, i + 1).last() == list@[i as int]@);
        if !crate::text::str_eq(list[i].as_str(), t) {
            let ghost before = texts(out@);
            out.push(list[i].clone());
            assert(texts(out@) =~= before.push(list@[i as int]@));
        }
        i += 1;
    }
    assert(all.subrange(0, list@.len() as int) =~= all);
    out
}

/// Allows or forbids a tool as the message `text` asks, and says what it
/// came to. Where the reply is that a tool was added or removed, the tools
/// that are allowed are then to be written down.
pub fn handle_allowed_command(text: &str, tools: &mut Vec<String>) -> (reply: AllowedReply)
    ensures
        (reply@, texts(final(tools)@)) == allowed_outcome(text@, texts(old(tools)@)),
{
    let arg = argument_chars(text, "/allowed");
    if arg.len() == 0 {
        return AllowedReply::Usage;
    }
    if begins(&arg, "tools") {
        return AllowedReply::ShowList;
    }
    let add = arg[0] == '+';
    if !add && arg[0] != '-' {
        return AllowedReply::BadOperator;
    }
    assert(arg@.drop_first() =~= arg@.subrange(1, arg@.len() as int));
    let raw = trim_chars(&subvec(&arg, 1, arg.len()));
    if raw.len() == 0 {
        return AllowedReply::EmptyName;
    }
    let tool = normalize_tool_name(string_of(&raw).as_str());
    if add {
        if contains_text(tools, tool.as_str()) {
            AllowedReply::Already(tool)
        } else {
            let ghost before = texts(tools@);
            tools.push(tool.clone());
            assert(texts(tools@) =~= before.push(tool@));
            AllowedReply::Added(tool)
        }
    } else {
        let kept = remove_text(tools, tool.as_str());
        if kept.len() < tools.len() {
            assert(texts(kept@).len() == kept@.len());
            assert(texts(tools@).len() == tools@.len());
            *tools = kept;
            AllowedReply::Removed(tool)
        } else {
            assert(texts(kept@).len() == kept@.len());
            assert(texts(tools@).len() == tools@.len());
            AllowedReply::NotListed(tool)
        }
    }
}

/// What the user is told of the reply `reply`; nothing where the list of
/// the tools is asked for instead.
pub open spec fn allowed_text(reply: AllowedView) -> Option<Seq<char>> {
    match reply {
        AllowedView::Usage => Some(
            "Usage:\n/allowed +toolname \u{2014} Add a tool\n/allowed -toolname \u{2014} Remove a tool\n/allowedtools \u{2014} Show current list"@,
        ),
        AllowedView::ShowList => None,
        AllowedView::BadOperator => Some(
            "Use +toolname to add or -toolname to remove.\nExample: /allowed +Bash"@,
        ),
        AllowedView::EmptyName => Some("Tool name cannot be empty."@),
        AllowedView::Already(t) => Some(
            "<code>"@ + html_escaped(t) + "</code> is already in the list."@,
        ),
        AllowedView::Added(t) => Some("\u{2705} Added <code>"@ + html_escaped(t) + "</code>"@),
        AllowedView::Removed(t) => Some("\u{274C} Removed <code>"@ + html_escaped(t) + "</code>"@),
        AllowedView::NotListed(t) => Some(
            "<code>"@ + html_escaped(t) + "</code> is not in the list."@,
        ),
    }
}

fn around_tool(before: &str, tool: &str, after: &str) -> (out: String)
    ensures
        out@ == before@ + html_escaped(tool@) + after@,
{
    let mut out = chars_of(before);
    append_chars(&mut out, &escape_chars(&chars_of(tool)));
    append_str(&mut out, after);
    string_of(&out)
}

/// Writes what the user is told of the reply `reply`.
pub fn allowed_reply_text(reply: &AllowedReply) -> (out: Option<String>)
    ensures
        crate::archive_job::opt_text(out) == allowed_text(reply@),
{
    match reply {
        AllowedReply::Usage => Some(
            String::from_str(
                "Usage:\n/allowed +toolname \u{2014} Add a tool\n/allowed -toolname \u{2014} Remove a tool\n/allowedtools \u{2014} Show current list",
            ),
        ),
        AllowedReply::ShowList => None,
        AllowedReply::BadOperator => Some(
            String::from_str(
                "Use +toolname to add or -toolname to remove.\nExample: /allowed +Bash",
            ),
        ),
        AllowedReply::EmptyName => Some(String::from_str("Tool name cannot be empty.")),
        AllowedReply::Already(t) => Some(
            around_tool("<code>", t.as_str(), "</code> is already in the list."),
        ),
        AllowedReply::Added(t) => Some(around_tool("\u{2705} Added <code>", t.as_str(), "</code>")),
        AllowedReply::Removed(t) => Some(
            around_tool("\u{274C} Removed <code>", t.as_str(), "</code>"),
        ),
        AllowedReply::NotListed(t) => Some(
            around_tool("<code>", t.as_str(), "</code> is not in the list."),
        ),
    }
}

/// What the command that stops the request at hand comes to.
#[derive(Debug, Clone, Copy, PartialEq, Eq)]
pub enum StopReply {
    /// The request was asked to stop before: nothing is done.
    Duplicate,
    /// The request is asked to stop, and the user is told so; the child
    /// process named has to be told to end.
    Stopping(Option<u32>),
}

/// Asks the request that `token` belongs to to stop, unless it was asked
/// before.
pub fn handle_stop_command(token: &mut CancelState) -> (reply: StopReply)
    ensures
        old(token).cancelled ==> reply == StopReply::Duplicate && *final(token) == *old(token),
        !old(token).cancelled ==> reply == StopReply::Stopping(old(token).child_pid) && final(token).cancelled && final(token).child_pid == old(token).child_pid,
{
    if token.is_cancelled() {
        StopReply::Duplicate
    } else {
        StopReply::Stopping(token.cancel())
    }
}

/// What the user is told after the command that stops a request, where
/// `active` says whether there is a request.
pub fn stop_reply_text(active: bool) -> (text: &'static str)
    ensures
        active ==> text@ == "Stopping..."@,
        !active ==> text@ == "No active request to stop."@,
{
    if active {
        "Stopping..."
    } else {
        "No active request to stop."
    }
}

} // verus!
