use cokacdir::tools::{
    describe_tool, format_tool_input, normalize_tool_name, read_tool_input, risk_badge, tool_info,
};

#[test]
fn tool_names_begin_in_upper_case() {
    assert_eq!(normalize_tool_name("bash"), "Bash");
    assert_eq!(normalize_tool_name("WEBFETCH"), "Webfetch");
    assert_eq!(normalize_tool_name("rEAD"), "Read");
    assert_eq!(normalize_tool_name(""), "");
    assert_eq!(normalize_tool_name("ßeta"), "SSeta");
    assert_eq!(normalize_tool_name("1x"), "1x");
}

#[test]
fn tools_are_known_by_name() {
    assert_eq!(tool_info("Bash"), ("Execute shell commands", true));
    assert_eq!(tool_info("Read"), ("Read file contents from the filesystem", false));
    assert_eq!(tool_info("Edit"), ("Perform find-and-replace edits in files", true));
    assert_eq!(tool_info("Write"), ("Create or overwrite files", true));
    assert_eq!(tool_info("Glob"), ("Find files by name pattern", false));
    assert_eq!(tool_info("Grep"), ("Search file contents with regex", false));
    assert_eq!(tool_info("Task"), ("Launch autonomous sub-agents for complex tasks", true));
    assert_eq!(tool_info("TaskOutput"), ("Retrieve output from background tasks", false));
    assert_eq!(tool_info("TaskStop"), ("Stop a running background task", false));
    assert_eq!(tool_info("WebFetch"), ("Fetch and process web page content", true));
    assert_eq!(tool_info("WebSearch"), ("Search the web for up-to-date information", true));
    assert_eq!(tool_info("NotebookEdit"), ("Edit Jupyter notebook cells", true));
    assert_eq!(tool_info("Skill"), ("Invoke slash-command skills", false));
    assert_eq!(tool_info("TaskCreate"), ("Create a structured task in the task list", false));
    assert_eq!(tool_info("TaskGet"), ("Retrieve task details by ID", false));
    assert_eq!(tool_info("TaskUpdate"), ("Update task status or details", false));
    assert_eq!(tool_info("TaskList"), ("List all tasks and their status", false));
    assert_eq!(tool_info("AskUserQuestion"), ("Ask the user a question (interactive)", false));
    assert_eq!(tool_info("EnterPlanMode"), ("Enter planning mode (interactive)", false));
    assert_eq!(tool_info("ExitPlanMode"), ("Exit planning mode (interactive)", false));
    assert_eq!(tool_info("bash"), ("Custom tool", false));
    assert_eq!(tool_info(""), ("Custom tool", false));
}

#[test]
fn risk_badge_marks_what_can_destroy() {
    assert_eq!(risk_badge(true), "!!!");
    assert_eq!(risk_badge(false), "");
}

#[test]
fn input_that_is_no_json_stands_as_written() {
    assert_eq!(format_tool_input("Bash", "ls -la"), "Bash ls -la");
    assert_eq!(format_tool_input("Read", "{broken"), "Read {broken");
    let long = "x".repeat(300);
    assert_eq!(format_tool_input("Other", &long), format!("Other {}", "x".repeat(200)));
    assert!(read_tool_input("not json").is_none());
    assert_eq!(describe_tool("Bash", "raw", None), "Bash raw");
}

#[test]
fn commands_are_summed_up() {
    assert_eq!(
        format_tool_input("Bash", r#"{"command":"cargo build","description":"Build it"}"#),
        "Build it: `cargo build`"
    );
    assert_eq!(format_tool_input("Bash", r#"{"command":"ls"}"#), "`ls`");
    assert_eq!(format_tool_input("Bash", r#"{"command":7}"#), "``");
    let long = format!(r#"{{"command":"{}","description":"d"}}"#, "c".repeat(180));
    assert_eq!(format_tool_input("Bash", &long), format!("d: `{}`", "c".repeat(150)));
    let long = format!(r#"{{"command":"{}"}}"#, "c".repeat(250));
    assert_eq!(format_tool_input("Bash", &long), format!("`{}`", "c".repeat(200)));
}

#[test]
fn files_are_summed_up() {
    assert_eq!(format_tool_input("Read", r#"{"file_path":"/a/b.rs"}"#), "Read /a/b.rs");
    assert_eq!(format_tool_input("Read", r#"{}"#), "Read ");
    assert_eq!(
        format_tool_input("Write", r#"{"file_path":"/a","content":"one\ntwo\n"}"#),
        "Write /a (2 lines)"
    );
    assert_eq!(format_tool_input("Write", r#"{"file_path":"/a","content":""}"#), "Write /a");
    assert_eq!(format_tool_input("Edit", r#"{"file_path":"/a","replace_all":true}"#), "Edit /a (replace all)");
    assert_eq!(format_tool_input("Edit", r#"{"file_path":"/a","replace_all":"true"}"#), "Edit /a");
    assert_eq!(format_tool_input("Edit", r#"{"file_path":"/a"}"#), "Edit /a");
    assert_eq!(
        format_tool_input("NotebookEdit", r#"{"notebook_path":"n.ipynb","cell_id":"c1"}"#),
        "Notebook n.ipynb (c1)"
    );
    assert_eq!(format_tool_input("NotebookEdit", r#"{"notebook_path":"n.ipynb"}"#), "Notebook n.ipynb");
}

#[test]
fn searches_are_summed_up() {
    assert_eq!(format_tool_input("Glob", r#"{"pattern":"*.rs","path":"src"}"#), "Glob *.rs in src");
    assert_eq!(format_tool_input("Glob", r#"{"pattern":"*.rs"}"#), "Glob *.rs");
    assert_eq!(
        format_tool_input("Grep", r#"{"pattern":"fn","path":"src","output_mode":"count"}"#),
        "Grep \"fn\" in src (count)"
    );
    assert_eq!(format_tool_input("Grep", r#"{"pattern":"fn","path":"src"}"#), "Grep \"fn\" in src");
    assert_eq!(format_tool_input("Grep", r#"{"pattern":"fn","output_mode":"count"}"#), "Grep \"fn\"");
    assert_eq!(format_tool_input("WebSearch", r#"{"query":"verus"}"#), "Search: verus");
    assert_eq!(format_tool_input("WebFetch", r#"{"url":"https://x.y"}"#), "Fetch https://x.y");
}

#[test]
fn tasks_are_summed_up() {
    assert_eq!(
        format_tool_input("Task", r#"{"description":"find it","subagent_type":"explorer"}"#),
        "Task [explorer]: find it"
    );
    assert_eq!(format_tool_input("Task", r#"{"description":"find it"}"#), "Task: find it");
    assert_eq!(format_tool_input("TaskOutput", r#"{"task_id":"t1"}"#), "Get task output: t1");
    assert_eq!(format_tool_input("TaskStop", r#"{"task_id":"t1"}"#), "Stop task: t1");
    assert_eq!(format_tool_input("TaskCreate", r#"{"subject":"s"}"#), "Create task: s");
    assert_eq!(format_tool_input("TaskUpdate", r#"{"taskId":"3","status":"done"}"#), "Update task 3: done");
    assert_eq!(format_tool_input("TaskUpdate", r#"{"taskId":"3"}"#), "Update task 3");
    assert_eq!(format_tool_input("TaskGet", r#"{"taskId":"3","task_id":"9"}"#), "Get task: 3");
    assert_eq!(format_tool_input("TaskList", r#"{}"#), "List tasks");
    assert_eq!(format_tool_input("Skill", r#"{"skill":"commit"}"#), "Skill: commit");
    assert_eq!(format_tool_input("ExitPlanMode", r#"[]"#), "Exit plan mode");
    assert_eq!(format_tool_input("EnterPlanMode", r#"null"#), "Enter plan mode");
}

#[test]
fn lists_are_summed_up() {
    let todos = r#"{"todos":[{"status":"pending"},{"status":"completed"},{"status":"pending"},{"status":"in_progress"},{"status":5},{},7]}"#;
    assert_eq!(format_tool_input("TodoWrite", todos), "Todo: 2 pending, 1 in progress, 1 completed");
    assert_eq!(format_tool_input("TodoWrite", r#"{"todos":[]}"#), "Todo: 0 pending, 0 in progress, 0 completed");
    assert_eq!(format_tool_input("TodoWrite", r#"{"todos":"none"}"#), "Update todos");
    assert_eq!(format_tool_input("TodoWrite", r#"{}"#), "Update todos");
    assert_eq!(
        format_tool_input("AskUserQuestion", r#"{"questions":[{"question":"Which one?"},{"question":"b"}]}"#),
        "Which one?"
    );
    assert_eq!(format_tool_input("AskUserQuestion", r#"{"questions":[{"x":1}]}"#), "");
    assert_eq!(format_tool_input("AskUserQuestion", r#"{"questions":[]}"#), "Ask user question");
    assert_eq!(format_tool_input("AskUserQuestion", r#"{}"#), "Ask user question");
}

#[test]
fn a_tool_that_is_not_known_shows_its_input() {
    assert_eq!(format_tool_input("Custom", r#"{"a":1}"#), r#"Custom {"a":1}"#);
    assert_eq!(format_tool_input("bash", r#"{"command":"ls"}"#), r#"bash {"command":"ls"}"#);
}

#[test]
fn members_are_read_from_the_input() {
    let fields = read_tool_input(r#"{"command":"ls","replace_all":true,"todos":[{"status":"x"}]}"#).unwrap();
    assert_eq!(fields.command, "ls");
    assert_eq!(fields.description, "");
    assert!(fields.replace_all);
    assert_eq!(fields.todos, Some(vec!["x".to_string()]));
    assert_eq!(fields.questions, None);
    assert_eq!(describe_tool("Bash", "ignored", Some(&fields)), "`ls`");
}
