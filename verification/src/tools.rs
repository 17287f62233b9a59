//! The tools of the assistant as the messenger names them: how the name of
//! a tool is written, what a tool is for, and what a call of a tool is
//! summed up as.

use vstd::prelude::*;
use crate::archive_job::opt_text;
use crate::message::{truncate_str, truncated};
use crate::text::{
    append_chars, append_decimal, append_str, chars_of, concat2, concat3, decimal, lines,
    lowercase_of, split_lines, str_eq, string_of, subvec, texts, to_lowercase,
};

verus! {

/// The upper-case form of a character, which may be more than one character.
pub uninterp spec fn uppercase_of_char(c: char) -> Seq<char>;

/// The upper-case form of `c`.
///
/// Trusted: this is `char::to_uppercase` of the standard library, whose
/// characters are collected into a string. The contract only names the
/// result, which depends on nothing but `c`.
#[verifier::external_body]
fn char_to_uppercase(c: char) -> (r: String)
    ensures
        r@ == uppercase_of_char(c),
{
    c.to_uppercase().to_string()
}

/// The name of a tool as it is written: in lower case, but for its first
/// character, which is in upper case.
pub open spec fn normalized_tool_name(name: Seq<char>) -> Seq<char> {
    let lower = lowercase_of(name);
    if lower.len() == 0 {
        Seq::empty()
    } else {
        uppercase_of_char(lower[0]) + lower.drop_first()
    }
}

/// Writes the name of a tool with its first character in upper case and
/// the rest in lower case.
pub fn normalize_tool_name(name: &str) -> (out: String)
    ensures
        out@ == normalized_tool_name(name@),
{
    let lower = chars_of(to_lowercase(name).as_str());
    if lower.len() == 0 {
        return String::new();
    }
    let mut out = chars_of(char_to_uppercase(lower[0]).as_str());
    let rest = subvec(&lower, 1, lower.len());
    append_chars(&mut out, &rest);
    string_of(&out)
}

/// What the tool `name` is for, and whether it can change or destroy
/// something: the tools that are known, and the custom tool for any other
/// name.
pub open spec fn tool_entry(name: Seq<char>) -> (Seq<char>, bool) {
    if name == "Bash"@ {
        ("Execute shell commands"@, true)
    } else if name == "Read"@ {
        ("Read file contents from the filesystem"@, false)
    } else if name == "Edit"@ {
        ("Perform find-and-replace edits in files"@, true)
    } else if name == "Write"@ {
        ("Create or overwrite files"@, true)
    } else if name == "Glob"@ {
        ("Find files by name pattern"@, false)
    } else if name == "Grep"@ {
        ("Search file contents with regex"@, false)
    } else if name == "Task"@ {
        ("Launch autonomous sub-agents for complex tasks"@, true)
    } else if name == "TaskOutput"@ {
        ("Retrieve output from background tasks"@, false)
    } else if name == "TaskStop"@ {
        ("Stop a running background task"@, false)
    } else if name == "WebFetch"@ {
        ("Fetch and process web page content"@, true)
    } else if name == "WebSearch"@ {
        ("Search the web for up-to-date information"@, true)
    } else if name == "NotebookEdit"@ {
        ("Edit Jupyter notebook cells"@, true)
    } else if name == "Skill"@ {
        ("Invoke slash-command skills"@, false)
    } else if name == "TaskCreate"@ {
        ("Create a structured task in the task list"@, false)
    } else if name == "TaskGet"@ {
        ("Retrieve task details by ID"@, false)
    } else if name == "TaskUpdate"@ {
        ("Update task status or details"@, false)
    } else if name == "TaskList"@ {
        ("List all tasks and their status"@, false)
    } else if name == "AskUserQuestion"@ {
        ("Ask the user a question (interactive)"@, false)
    } else if name == "EnterPlanMode"@ {
        ("Enter planning mode (interactive)"@, false)
    } else if name == "ExitPlanMode"@ {
        ("Exit planning mode (interactive)"@, false)
    } else {
        ("Custom tool"@, false)
    }
}

/// What the tool `name` is for, and whether it can change or destroy
/// something. A tool that is not known is a custom tool, which cannot.
pub fn tool_info(name: &str) -> (info: (&'static str, bool))
    ensures
        (info.0@, info.1) == tool_entry(name@),
{
    if str_eq(name, "Bash") {
        ("Execute shell commands", true)
    } else if str_eq(name, "Read") {
        ("Read file contents from the filesystem", false)
    } else if str_eq(name, "Edit") {
        ("Perform find-and-replace edits in files", true)
    } else if str_eq(name, "Write") {
        ("Create or overwrite files", true)
    } else if str_eq(name, "Glob") {
        ("Find files by name pattern", false)
    } else if str_eq(name, "Grep") {
        ("Search file contents with regex", false)
    } else if str_eq(name, "Task") {
        ("Launch autonomous sub-agents for complex tasks", true)
    } else if str_eq(name, "TaskOutput") {
        ("Retrieve output from background tasks", false)
    } else if str_eq(name, "TaskStop") {
        ("Stop a running background task", false)
    } else if str_eq(name, "WebFetch") {
        ("Fetch and process web page content", true)
    } else if str_eq(name, "WebSearch") {
        ("Search the web for up-to-date information", true)
    } else if str_eq(name, "NotebookEdit") {
        ("Edit Jupyter notebook cells", true)
    } else if str_eq(name, "Skill") {
        ("Invoke slash-command skills", false)
    } else if str_eq(name, "TaskCreate") {
        ("Create a structured task in the task list", false)
    } else if str_eq(name, "TaskGet") {
        ("Retrieve task details by ID", false)
    } else if str_eq(name, "TaskUpdate") {
        ("Update task status or details", false)
    } else if str_eq(name, "TaskList") {
        ("List all tasks and their status", false)
    } else if str_eq(name, "AskUserQuestion") {
        ("Ask the user a question (interactive)", false)
    } else if str_eq(name, "EnterPlanMode") {
        ("Enter planning mode (interactive)", false)
    } else if str_eq(name, "ExitPlanMode") {
        ("Exit planning mode (interactive)", false)
    } else {
        ("Custom tool", false)
    }
}

/// What the input of a call of a tool holds, as far as a summary names it.
/// A member that the input lacks, or that is no text, is an empty text.
pub struct ToolFields {
    pub description: String,
    pub command: String,
    pub file_path: String,
    pub content: String,
    pub pattern: String,
    pub path: String,
    pub output_mode: String,
    pub notebook_path: String,
    pub cell_id: String,
    pub query: String,
    pub url: String,
    pub subagent_type: String,
    pub task_id: String,
    pub skill: String,
    pub subject: String,
    /// The member `taskId`.
    pub task_id_camel: String,
    pub status: String,
    /// The member of that name, where it is a truth value; else `false`.
    pub replace_all: bool,
    /// For each item of the list `todos` its member `status`; `None` where
    /// the input has no such list.
    pub todos: Option<Vec<String>>,
    /// For each item of the list `questions` its member `question`; `None`
    /// where the input has no such list.
    pub questions: Option<Vec<String>>,
}

/// `ToolFields` with its texts as character sequences.
pub struct FieldsView {
    pub description: Seq<char>,
    pub command: Seq<char>,
    pub file_path: Seq<char>,
    pub content: Seq<char>,
    pub pattern: Seq<char>,
    pub path: Seq<char>,
    pub output_mode: Seq<char>,
    pub notebook_path: Seq<char>,
    pub cell_id: Seq<char>,
    pub query: Seq<char>,
    pub url: Seq<char>,
    pub subagent_type: Seq<char>,
    pub task_id: Seq<char>,
    pub skill: Seq<char>,
    pub subject: Seq<char>,
    pub task_id_camel: Seq<char>,
    pub status: Seq<char>,
    pub replace_all: bool,
    pub todos: Option<Seq<Seq<char>>>,
    pub questions: Option<Seq<Seq<char>>>,
}

/// The views of a list of texts that may be missing.
pub open spec fn opt_texts(o: Option<Vec<String>>) -> Option<Seq<Seq<char>>> {
    match o {
        Some(v) => Some(texts(v@)),
        None => None,
    }
}

impl View for ToolFields {
    type V = FieldsView;

    open spec fn view(&self) -> FieldsView {
        FieldsView {
            description: self.description@,
            command: self.command@,
            file_path: self.file_path@,
            content: self.content@,
            pattern: self.pattern@,
            path: self.path@,
            output_mode: self.output_mode@,
            notebook_path: self.notebook_path@,
            cell_id: self.cell_id@,
            query: self.query@,
            url: self.url@,
            subagent_type: self.subagent_type@,
            task_id: self.task_id@,
            skill: self.skill@,
            subject: self.subject@,
            task_id_camel: self.task_id_camel@,
            status: self.status@,
            replace_all: self.replace_all,
            todos: opt_texts(self.todos),
            questions: opt_texts(self.questions),
        }
    }
}

/// How many of `items` are the text `word`.
pub open spec fn count_of(items: Seq<Seq<char>>, word: Seq<char>) -> nat
    decreases items.len(),
{
    if items.len() == 0 {
        0
    } else {
        count_of(items.drop_last(), word) + (if items.last() == word {
            1nat
        } else {
            0nat
        })
    }
}

fn count_texts(items: &Vec<String>, word: &str) -> (n: usize)
    ensures
        n == count_of(texts(items@), word@),
{
    let ghost all = texts(items@);
    let mut n: usize = 0;
    let mut i: usize = 0;
    assert(all.subrange(0, 0) =~= Seq::<Seq<char>>::empty());
    while i < items.len()
        invariant
            i <= items.len(),
            all == texts(items@),
            all.len() == items@.len(),
            n <= i,
            n == count_of(all.subrange(0, i as int), word@),
        decreases items.len() - i,
    {
        assert(all.subrange(0, i + 1).drop_last() =~= all.subrange(0, i as int));
        assert(all.subrange(0, i + 1).last() == items@[i as int]@);
        if str_eq(items[i].as_str(), word) {
            n += 1;
        }
        i += 1;
    }
    assert(all.subrange(0, items@.len() as int) =~= all);
    n
}

/// `a`, and behind it `prefix` and `b` where `b` is not empty.
pub open spec fn with_part(a: Seq<char>, prefix: Seq<char>, b: Seq<char>, suffix: Seq<char>) -> Seq<
    char,
> {
    if b.len() > 0 {
        a + prefix + b + suffix
    } else {
        a
    }
}

fn add_part(out: &mut Vec<char>, prefix: &str, b: &str, suffix: &str)
    ensures
        final(out)@ == with_part(old(out)@, prefix@, b@, suffix@),
{
    if chars_of(b).len() > 0 {
        append_str(out, prefix);
        append_str(out, b);
        append_str(out, suffix);
    }
}

/// A command with what it is for before it, where that is said. The
/// command is cut down to 150 bytes, or to 200 where it stands alone.
pub open spec fn bash_text(f: FieldsView) -> Seq<char> {
    if f.description.len() > 0 {
        f.description + ": `"@ + truncated(f.command, 150) + "`"@
    } else {
        "`"@ + truncated(f.command, 200) + "`"@
    }
}

/// The file written, and how many lines are written to it where there are any.
pub open spec fn write_text(f: FieldsView) -> Seq<char> {
    if lines(f.content).len() > 0 {
        "Write "@ + f.file_path + " ("@ + decimal(lines(f.content).len()) + " lines)"@
    } else {
        "Write "@ + f.file_path
    }
}

/// The pattern searched for; where a path is given, the path, and behind
/// it the kind of output where one is given.
pub open spec fn grep_text(f: FieldsView) -> Seq<char> {
    if f.path.len() > 0 {
        with_part("Grep \""@ + f.pattern + "\" in "@ + f.path, " ("@, f.output_mode, ")"@)
    } else {
        "Grep \""@ + f.pattern + "\""@
    }
}

/// How many of the things to do are pending, in progress and completed.
pub open spec fn todo_text(todos: Option<Seq<Seq<char>>>) -> Seq<char> {
    match todos {
        Some(todos) => "Todo: "@ + decimal(count_of(todos, "pending"@)) + " pending, "@ + decimal(
            count_of(todos, "in_progress"@),
        ) + " in progress, "@ + decimal(count_of(todos, "completed"@)) + " completed"@,
        None => "Update todos"@,
    }
}

/// The first of the questions asked, cut down to 200 bytes.
pub open spec fn question_text(questions: Option<Seq<Seq<char>>>) -> Seq<char> {
    match questions {
        Some(questions) => if questions.len() > 0 {
            truncated(questions[0], 200)
        } else {
            "Ask user question"@
        },
        None => "Ask user question"@,
    }
}

/// What a call of the tool `name` with the members `f` is summed up as.
/// `input` is the input as it was written, which stands for a tool that is
/// not known, cut down to 200 bytes.
pub open spec fn summary_of(name: Seq<char>, input: Seq<char>, f: FieldsView) -> Seq<char> {
    if name == "Bash"@ {
        bash_text(f)
    } else if name == "Read"@ {
        "Read "@ + f.file_path
    } else if name == "Write"@ {
        write_text(f)
    } else if name == "Edit"@ {
        if f.replace_all {
            "Edit "@ + f.file_path + " (replace all)"@
        } else {
            "Edit "@ + f.file_path
        }
    } else if name == "Glob"@ {
        with_part("Glob "@ + f.pattern, " in "@, f.path, ""@)
    } else if name == "Grep"@ {
        grep_text(f)
    } else if name == "NotebookEdit"@ {
        with_part("Notebook "@ + f.notebook_path, " ("@, f.cell_id, ")"@)
    } else if name == "WebSearch"@ {
        "Search: "@ + f.query
    } else if name == "WebFetch"@ {
        "Fetch "@ + f.url
    } else if name == "Task"@ {
        if f.subagent_type.len() > 0 {
            "Task ["@ + f.subagent_type + "]: "@ + f.description
        } else {
            "Task: "@ + f.description
        }
    } else if name == "TaskOutput"@ {
        "Get task output: "@ + f.task_id
    } else if name == "TaskStop"@ {
        "Stop task: "@ + f.task_id
    } else if name == "TodoWrite"@ {
        todo_text(f.todos)
    } else if name == "Skill"@ {
        "Skill: "@ + f.skill
    } else if name == "AskUserQuestion"@ {
        question_text(f.questions)
    } else if name == "ExitPlanMode"@ {
        "Exit plan mode"@
    } else if name == "EnterPlanMode"@ {
        "Enter plan mode"@
    } else if name == "TaskCreate"@ {
        "Create task: "@ + f.subject
    } else if name == "TaskUpdate"@ {
        with_part("Update task "@ + f.task_id_camel, ": "@, f.status, ""@)
    } else if name == "TaskGet"@ {
        "Get task: "@ + f.task_id_camel
    } else if name == "TaskList"@ {
        "List tasks"@
    } else {
        name + " "@ + truncated(input, 200)
    }
}

/// What a call of the tool `name` is summed up as: `fields` holds the
/// members of its input, or nothing where the input could not be read, and
/// then stands as it was written, cut down to 200 bytes.
pub open spec fn tool_summary(name: Seq<char>, input: Seq<char>, fields: Option<FieldsView>) -> Seq<
    char,
> {
    match fields {
        Some(f) => summary_of(name, input, f),
        None => name + " "@ + truncated(input, 200),
    }
}

fn bash_summary(f: &ToolFields) -> (out: String)
    ensures
        out@ == bash_text(f@),
{
    if chars_of(f.description.as_str()).len() > 0 {
        let cut = truncate_str(f.command.as_str(), 150);
        let mut out = chars_of(f.description.as_str());
        append_str(&mut out, ": `");
        append_str(&mut out, cut.as_str());
        append_str(&mut out, "`");
        string_of(&out)
    } else {
        let cut = truncate_str(f.command.as_str(), 200);
        concat3("`", cut.as_str(), "`")
    }
}

fn write_summary(f: &ToolFields) -> (out: String)
    ensures
        out@ == write_text(f@),
{
    let count = split_lines(&chars_of(f.content.as_str())).len();
    let mut out = chars_of("Write ");
    append_str(&mut out, f.file_path.as_str());
    if count > 0 {
        append_str(&mut out, " (");
        append_decimal(&mut out, count as u128);
        append_str(&mut out, " lines)");
    }
    string_of(&out)
}

fn grep_summary(f: &ToolFields) -> (out: String)
    ensures
        out@ == grep_text(f@),
{
    let mut out = chars_of("Grep \"");
    append_str(&mut out, f.pattern.as_str());
    if chars_of(f.path.as_str()).len() > 0 {
        append_str(&mut out, "\" in ");
        append_str(&mut out, f.path.as_str());
        add_part(&mut out, " (", f.output_mode.as_str(), ")");
    } else {
        append_str(&mut out, "\"");
    }
    string_of(&out)
}

fn todo_summary(todos: &Option<Vec<String>>) -> (out: String)
    ensures
        out@ == todo_text(opt_texts(*todos)),
{
    match todos {
        Some(items) => {
            let mut out = chars_of("Todo: ");
            append_decimal(&mut out, count_texts(items, "pending") as u128);
            append_str(&mut out, " pending, ");
            append_decimal(&mut out, count_texts(items, "in_progress") as u128);
            append_str(&mut out, " in progress, ");
            append_decimal(&mut out, count_texts(items, "completed") as u128);
            append_str(&mut out, " completed");
            string_of(&out)
        },
        None => String::from_str("Update todos"),
    }
}

fn question_summary(questions: &Option<Vec<String>>) -> (out: String)
    ensures
        out@ == question_text(opt_texts(*questions)),
{
    match questions {
        Some(items) => {
            assert(texts(items@).len() == items@.len());
            if items.len() > 0 {
                assert(texts(items@)[0] == items@[0]@);
                truncate_str(items[0].as_str(), 200)
            } else {
                String::from_str("Ask user question")
            }
        },
        None => String::from_str("Ask user question"),
    }
}

fn with_optional(head: &str, a: &str, prefix: &str, b: &str, suffix: &str) -> (out: String)
    ensures
        out@ == with_part(head@ + a@, prefix@, b@, suffix@),
{
    let mut out = chars_of(head);
    append_str(&mut out, a);
    add_part(&mut out, prefix, b, suffix);
    string_of(&out)
}

fn summary_with(name: &str, input: &str, f: &ToolFields) -> (out: String)
    ensures
        out@ == summary_of(name@, input@, f@),
{
    if str_eq(name, "Bash") {
        bash_summary(f)
    } else if str_eq(name, "Read") {
        concat2("Read ", f.file_path.as_str())
    } else if str_eq(name, "Write") {
        write_summary(f)
    } else if str_eq(name, "Edit") {
        if f.replace_all {
            concat3("Edit ", f.file_path.as_str(), " (replace all)")
        } else {
            concat2("Edit ", f.file_path.as_str())
        }
    } else if str_eq(name, "Glob") {
        with_optional("Glob ", f.pattern.as_str(), " in ", f.path.as_str(), "")
    } else if str_eq(name, "Grep") {
        grep_summary(f)
    } else if str_eq(name, "NotebookEdit") {
        with_optional("Notebook ", f.notebook_path.as_str(), " (", f.cell_id.as_str(), ")")
    } else if str_eq(name, "WebSearch") {
        concat2("Search: ", f.query.as_str())
    } else if str_eq(name, "WebFetch") {
        concat2("Fetch ", f.url.as_str())
    } else if str_eq(name, "Task") {
        if chars_of(f.subagent_type.as_str()).len() > 0 {
            let head = concat3("Task [", f.subagent_type.as_str(), "]: ");
            concat2(head.as_str(), f.description.as_str())
        } else {
            concat2("Task: ", f.description.as_str())
        }
    } else if str_eq(name, "TaskOutput") {
        concat2("Get task output: ", f.task_id.as_str())
    } else if str_eq(name, "TaskStop") {
        concat2("Stop task: ", f.task_id.as_str())
    } else if str_eq(name, "TodoWrite") {
        todo_summary(&f.todos)
    } else if str_eq(name, "Skill") {
        concat2("Skill: ", f.skill.as_str())
    } else if str_eq(name, "AskUserQuestion") {
        question_summary(&f.questions)
    } else if str_eq(name, "ExitPlanMode") {
        String::from_str("Exit plan mode")
    } else if str_eq(name, "EnterPlanMode") {
        String::from_str("Enter plan mode")
    } else if str_eq(name, "TaskCreate") {
        concat2("Create task: ", f.subject.as_str())
    } else if str_eq(name, "TaskUpdate") {
        with_optional("Update task ", f.task_id_camel.as_str(), ": ", f.status.as_str(), "")
    } else if str_eq(name, "TaskGet") {
        concat2("Get task: ", f.task_id_camel.as_str())
    } else if str_eq(name, "TaskList") {
        String::from_str("List tasks")
    } else {
        let cut = truncate_str(input, 200);
        concat3(name, " ", cut.as_str())
    }
}

/// Sums up a call of the tool `name` whose input was read: `fields` holds
/// its members; nothing where the input could not be read, which then
/// stands as it was written, cut down to 200 bytes.
pub fn describe_tool(name: &str, input: &str, fields: Option<&ToolFields>) -> (out: String)
    ensures
        out@ == tool_summary(
            name@,
            input@,
            match fields {
                Some(f) => Some(f@),
                None => None,
            },
        ),
{
    match fields {
        Some(f) => summary_with(name, input, f),
        None => {
            let cut = truncate_str(input, 200);
            concat3(name, " ", cut.as_str())
        },
    }
}

/// The mark shown beside a tool that can change or destroy something.
pub fn risk_badge(destructive: bool) -> (badge: &'static str)
    ensures
        destructive ==> badge@ == "!!!"@,
        !destructive ==> badge@ == ""@,
{
    if destructive {
        "!!!"
    } else {
        ""
    }
}

#[verifier::external_type_specification]
#[verifier::external_body]
pub struct ExJsonValue(serde_json::Value);

/// What the text `input` holds, read as JSON: the members that are texts,
/// those that are truth values and those that are lists, each by its key,
/// in this order; nothing where `input` is no JSON. A JSON text that is no
/// object holds no member.
pub uninterp spec fn json_members(input: Seq<char>) -> Option<
    (
        Map<Seq<char>, Seq<char>>,
        Map<Seq<char>, bool>,
        Map<Seq<char>, Seq<Map<Seq<char>, Seq<char>>>>,
    ),
>;

/// Whether the text `input` is JSON.
pub open spec fn is_json(input: Seq<char>) -> bool {
    json_members(input) is Some
}

/// What a JSON value holds, where it is an object: its members that are
/// texts, by their keys.
pub uninterp spec fn json_texts(value: serde_json::Value) -> Map<Seq<char>, Seq<char>>;

/// What a JSON value holds, where it is an object: its members that are
/// truth values, by their keys.
pub uninterp spec fn json_flags(value: serde_json::Value) -> Map<Seq<char>, bool>;

/// What a JSON value holds, where it is an object: its members that are
/// lists, by their keys, and of each item of such a list the members that
/// are texts.
pub uninterp spec fn json_lists(value: serde_json::Value) -> Map<
    Seq<char>,
    Seq<Map<Seq<char>, Seq<char>>>,
>;

/// The text that a JSON value is; nothing where it is no text.
pub uninterp spec fn json_text_of(value: serde_json::Value) -> Option<Seq<char>>;

/// The truth value that a JSON value is; nothing where it is none.
pub uninterp spec fn json_flag_of(value: serde_json::Value) -> Option<bool>;

/// Of each item of the list that a JSON value is, the members that are
/// texts; nothing where the value is no list.
pub uninterp spec fn json_list_of(value: serde_json::Value) -> Option<
    Seq<Map<Seq<char>, Seq<char>>>,
>;

/// Reads `input` as JSON.
///
/// Trusted: this is `serde_json::from_str` for a `serde_json::Value`, with
/// its error dropped. The contract says that whether a value comes back,
/// and what that value holds, depends on nothing but the text: it names
/// what the value holds as what the text holds.
#[verifier::external_body]
fn parse_json(input: &str) -> (r: Option<serde_json::Value>)
    ensures
        match json_members(input@) {
            Some(members) => r matches Some(value) && json_texts(value) == members.0 && json_flags(
                value,
            ) == members.1 && json_lists(value) == members.2,
            None => r is None,
        },
{
    serde_json::from_str::<serde_json::Value>(input).ok()
}

/// What the map `m` holds at `key`; nothing where it holds nothing there.
pub open spec fn held<V>(m: Map<Seq<char>, V>, key: Seq<char>) -> Option<V> {
    if m.dom().contains(key) {
        Some(m[key])
    } else {
        None
    }
}

/// The member `key` of the object `value`; nothing where `value` is no
/// object or has no such member.
///
/// Trusted: this is `serde_json::Value::get` with a text as index; the
/// member is copied. The contract says that the member is, as a text, a
/// truth value or a list, what the object holds at the key, and that an
/// object holds nothing at a key at which it has no member.
#[verifier::external_body]
fn json_member(value: &serde_json::Value, key: &str) -> (r: Option<serde_json::Value>)
    ensures
        r matches Some(member) ==> held(json_texts(*value), key@) == json_text_of(member) && held(
            json_flags(*value),
            key@,
        ) == json_flag_of(member) && held(json_lists(*value), key@) == json_list_of(member),
        r is None ==> held(json_texts(*value), key@) is None && held(json_flags(*value), key@)
            is None && held(json_lists(*value), key@) is None,
{
    value.get(key).cloned()
}

/// The text that `value` is; nothing where it is no text.
///
/// Trusted: this is `serde_json::Value::as_str`; the text is copied. The
/// contract names the result.
#[verifier::external_body]
fn json_text(value: &serde_json::Value) -> (r: Option<String>)
    ensures
        opt_text(r) == json_text_of(*value),
{
    match value.as_str() {
        Some(text) => Some(text.to_string()),
        None => None,
    }
}

/// The truth value that `value` is; nothing where it is none.
///
/// Trusted: this is `serde_json::Value::as_bool`. The contract names the
/// result.
#[verifier::external_body]
fn json_flag(value: &serde_json::Value) -> (r: Option<bool>)
    ensures
        r == json_flag_of(*value),
{
    value.as_bool()
}

/// The items of the list that `value` is; nothing where it is no list.
///
/// Trusted: this is `serde_json::Value::as_array`; the items are copied.
/// The contract says that the items come in the order of the list, each
/// holding what the list holds at its place.
#[verifier::external_body]
fn json_items(value: &serde_json::Value) -> (r: Option<Vec<serde_json::Value>>)
    ensures
        r is Some <==> json_list_of(*value) is Some,
        r matches Some(items) ==> items@.len() == json_list_of(*value)->0.len() && forall|i: int|
            0 <= i < items@.len() ==> json_texts(#[trigger] items@[i]) == json_list_of(
                *value,
            )->0[i],
{
    value.as_array().cloned()
}

/// The text that an object holds at `key`, where `texts` are its members
/// that are texts: empty where it holds none there.
pub open spec fn text_at(texts: Map<Seq<char>, Seq<char>>, key: Seq<char>) -> Seq<char> {
    match held(texts, key) {
        Some(text) => text,
        None => Seq::empty(),
    }
}

/// The truth value that an object holds at `key`, where `flags` are its
/// members that are truth values: `false` where it holds none there.
pub open spec fn flag_at(flags: Map<Seq<char>, bool>, key: Seq<char>) -> bool {
    match held(flags, key) {
        Some(flag) => flag,
        None => false,
    }
}

/// Of each item of the list that an object holds at `list`, the text that
/// the item holds at `key`, where `lists` are the members of the object
/// that are lists; nothing where the object holds no list there.
pub open spec fn texts_in_list(
    lists: Map<Seq<char>, Seq<Map<Seq<char>, Seq<char>>>>,
    list: Seq<char>,
    key: Seq<char>,
) -> Option<Seq<Seq<char>>> {
    match held(lists, list) {
        Some(items) => Some(Seq::new(items.len(), |i: int| text_at(items[i], key))),
        None => None,
    }
}

fn text_member(value: &serde_json::Value, key: &str) -> (text: String)
    ensures
        text@ == text_at(json_texts(*value), key@),
{
    match json_member(value, key) {
        Some(member) => match json_text(&member) {
            Some(text) => text,
            None => String::new(),
        },
        None => String::new(),
    }
}

fn flag_member(value: &serde_json::Value, key: &str) -> (flag: bool)
    ensures
        flag == flag_at(json_flags(*value), key@),
{
    match json_member(value, key) {
        Some(member) => match json_flag(&member) {
            Some(flag) => flag,
            None => false,
        },
        None => false,
    }
}

fn list_member(value: &serde_json::Value, list: &str, key: &str) -> (found: Option<Vec<String>>)
    ensures
        opt_texts(found) == texts_in_list(json_lists(*value), list@, key@),
{
    let items = match json_member(value, list) {
        Some(member) => match json_items(&member) {
            Some(items) => items,
            None => {
                return None;
            },
        },
        None => {
            return None;
        },
    };
    let ghost held_items = json_lists(*value)[list@];
    let ghost wanted = Seq::new(held_items.len(), |i: int| text_at(held_items[i], key@));
    let mut out: Vec<String> = Vec::new();
    let mut i: usize = 0;
    while i < items.len()
        invariant
            i <= items@.len(),
            items@.len() == held_items.len(),
            forall|k: int| 0 <= k < items@.len() ==> json_texts(#[trigger] items@[k]) == held_items[k],
            wanted == Seq::new(held_items.len(), |i: int| text_at(held_items[i], key@)),
            out@.len() == i,
            forall|k: int| 0 <= k < i ==> (#[trigger] out@[k])@ == wanted[k],
        decreases items@.len() - i,
    {
        out.push(text_member(&items[i], key));
        i += 1;
    }
    assert(texts(out@) =~= wanted);
    Some(out)
}

/// What the input of a call of a tool holds, as far as a summary names
/// it, where `texts`, `flags` and `lists` are the members of the input that
/// are texts, truth values and lists.
pub open spec fn fields_of(
    texts: Map<Seq<char>, Seq<char>>,
    flags: Map<Seq<char>, bool>,
    lists: Map<Seq<char>, Seq<Map<Seq<char>, Seq<char>>>>,
) -> FieldsView {
    FieldsView {
        description: text_at(texts, "description"@),
        command: text_at(texts, "command"@),
        file_path: text_at(texts, "file_path"@),
        content: text_at(texts, "content"@),
        pattern: text_at(texts, "pattern"@),
        path: text_at(texts, "path"@),
        output_mode: text_at(texts, "output_mode"@),
        notebook_path: text_at(texts, "notebook_path"@),
        cell_id: text_at(texts, "cell_id"@),
        query: text_at(texts, "query"@),
        url: text_at(texts, "url"@),
        subagent_type: text_at(texts, "subagent_type"@),
        task_id: text_at(texts, "task_id"@),
        skill: text_at(texts, "skill"@),
        subject: text_at(texts, "subject"@),
        task_id_camel: text_at(texts, "taskId"@),
        status: text_at(texts, "status"@),
        replace_all: flag_at(flags, "replace_all"@),
        todos: texts_in_list(lists, "todos"@, "status"@),
        questions: texts_in_list(lists, "questions"@, "question"@),
    }
}

fn read_fields(value: &serde_json::Value) -> (fields: ToolFields)
    ensures
        fields@ == fields_of(json_texts(*value), json_flags(*value), json_lists(*value)),
{
    ToolFields {
        description: text_member(value, "description"),
        command: text_member(value, "command"),
        file_path: text_member(value, "file_path"),
        content: text_member(value, "content"),
        pattern: text_member(value, "pattern"),
        path: text_member(value, "path"),
        output_mode: text_member(value, "output_mode"),
        notebook_path: text_member(value, "notebook_path"),
        cell_id: text_member(value, "cell_id"),
        query: text_member(value, "query"),
        url: text_member(value, "url"),
        subagent_type: text_member(value, "subagent_type"),
        task_id: text_member(value, "task_id"),
        skill: text_member(value, "skill"),
        subject: text_member(value, "subject"),
        task_id_camel: text_member(value, "taskId"),
        status: text_member(value, "status"),
        replace_all: flag_member(value, "replace_all"),
        todos: list_member(value, "todos", "status"),
        questions: list_member(value, "questions", "question"),
    }
}

/// What the input `input` of a call of a tool holds, as far as a summary
/// names it; nothing where `input` is no JSON.
pub open spec fn input_fields(input: Seq<char>) -> Option<FieldsView> {
    match json_members(input) {
        Some(members) => Some(fields_of(members.0, members.1, members.2)),
        None => None,
    }
}

/// The members of the input of a call of a tool, as far as a summary
/// names them; nothing where `input` is no JSON.
pub fn read_tool_input(input: &str) -> (fields: Option<ToolFields>)
    ensures
        match input_fields(input@) {
            Some(held) => fields matches Some(read) && read@ == held,
            None => fields is None,
        },
{
    match parse_json(input) {
        Some(value) => Some(read_fields(&value)),
        None => None,
    }
}

/// Sums up a call of the tool `name` with the input `input`, which is
/// JSON: a tool that is known by what its input says of it, any other by
/// its name and its input as it was written. An input that is no JSON
/// stands as it was written behind the name of the tool, cut down to 200
/// bytes.
pub fn format_tool_input(name: &str, input: &str) -> (out: String)
    ensures
        out@ == tool_summary(name@, input@, input_fields(input@)),
{
    match read_tool_input(input) {
        Some(fields) => describe_tool(name, input, Some(&fields)),
        None => describe_tool(name, input, None),
    }
}

} // verus!
