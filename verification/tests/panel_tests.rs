use cokacdir::batch::FileOutcome;
use cokacdir::local::{
    execute_mkdir, execute_rename, operation_summary, MoveAction, MoveFile, MovePhase,
};
use cokacdir::panel::{
    cursor_to_end, file_list_summary, handler_command, move_cursor, show_copy_dialog,
    show_delete_dialog, show_goto_dialog, show_rename_dialog, show_search_dialog,
    show_tar_dialog, switch_panel_keep_index, toggle_sort, HandlerCommand,
};
use cokacdir::state::{DialogType, SortBy, SortOrder};

fn s(t: &str) -> String {
    t.to_string()
}

fn strings(list: &[&str]) -> Vec<String> {
    list.iter().map(|t| t.to_string()).collect()
}

#[test]
fn cursor_stays_within_the_entries() {
    assert_eq!(move_cursor(0, 1, 4), 1);
    assert_eq!(move_cursor(1, -1, 4), 0);
    assert_eq!(move_cursor(0, 1000, 4), 3);
    assert_eq!(move_cursor(3, -1000, 4), 0);
    assert_eq!(move_cursor(2, 0, 4), 2);
    assert_eq!(move_cursor(0, 1, 0), 0);
    assert_eq!(move_cursor(0, -1, 0), 0);
    assert_eq!(move_cursor(9, 0, 4), 3);
    assert_eq!(move_cursor(9, -7, 4), 2);
    assert_eq!(move_cursor(5, i32::MIN, 10), 0);
    assert_eq!(move_cursor(usize::MAX, i32::MAX, usize::MAX), usize::MAX - 1);
    assert_eq!(move_cursor(3, 10, 20), 13);
    assert_eq!(cursor_to_end(1, 10), 9);
    assert_eq!(cursor_to_end(1, 0), 1);
}

#[test]
fn switching_panels_keeps_the_screen_line() {
    assert_eq!(switch_panel_keep_index(10, 13, 5, 100), Some(8));
    assert_eq!(switch_panel_keep_index(10, 13, 5, 7), Some(6));
    assert_eq!(switch_panel_keep_index(10, 3, 5, 100), Some(5));
    assert_eq!(switch_panel_keep_index(0, 0, 0, 0), None);
    assert_eq!(switch_panel_keep_index(0, 2, 50, 10), Some(9));
    assert_eq!(switch_panel_keep_index(0, usize::MAX, usize::MAX, 3), Some(2));
}

#[test]
fn sorting_toggles_direction_or_changes_field() {
    assert_eq!(toggle_sort(SortBy::Name, SortOrder::Asc, SortBy::Name), (SortBy::Name, SortOrder::Desc));
    assert_eq!(toggle_sort(SortBy::Name, SortOrder::Desc, SortBy::Name), (SortBy::Name, SortOrder::Asc));
    assert_eq!(toggle_sort(SortBy::Name, SortOrder::Desc, SortBy::Size), (SortBy::Size, SortOrder::Asc));
}

#[test]
fn file_lists_are_cut_after_three() {
    assert_eq!(file_list_summary(&strings(&[])), "");
    assert_eq!(file_list_summary(&strings(&["a"])), "a");
    assert_eq!(file_list_summary(&strings(&["a", "b", "c"])), "a, b, c");
    assert_eq!(file_list_summary(&strings(&["a", "b", "c", "d"])), "a, b and 2 more");
    let many: Vec<String> = (0..12).map(|i| format!("f{}", i)).collect();
    assert_eq!(file_list_summary(&many), "f0, f1 and 10 more");
}

#[test]
fn dialogs_open_with_their_texts() {
    let d = show_copy_dialog(&strings(&["a", "b"]), "/other", false).unwrap();
    assert_eq!(d.dialog_type, DialogType::Copy);
    assert_eq!(d.input, "/other/");
    assert_eq!(d.cursor_pos, 7);
    assert_eq!(d.message, "a, b");
    assert!(d.completion.is_some());
    assert_eq!(d.selected_button, 0);
    let d = show_copy_dialog(&strings(&["a"]), "/한/", true).unwrap();
    assert_eq!(d.dialog_type, DialogType::Move);
    assert_eq!(d.input, "/한/");
    assert_eq!(d.cursor_pos, 3);
    assert!(show_copy_dialog(&vec![], "/x", false).is_none());

    let d = show_delete_dialog(&strings(&["a", "b", "c", "d"])).unwrap();
    assert_eq!(d.dialog_type, DialogType::Delete);
    assert_eq!(d.message, "Delete a, b and 2 more?");
    assert_eq!(d.selected_button, 1);
    assert!(show_delete_dialog(&vec![]).is_none());

    let d = show_tar_dialog(&strings(&["docs", "x"])).unwrap();
    assert_eq!(d.dialog_type, DialogType::Tar);
    assert_eq!(d.input, "docs.tar.gz");
    assert_eq!(d.cursor_pos, 11);
    assert_eq!(d.message, "docs, x");
    assert!(show_tar_dialog(&vec![]).is_none());

    let d = show_goto_dialog("/home/u");
    assert_eq!(d.dialog_type, DialogType::Goto);
    assert_eq!(d.input, "/home/u");
    assert_eq!(d.message, "Go to path:");
    assert_eq!(d.selection, Some((0, 7)));
    assert_eq!(d.cursor_pos, 7);

    let d = show_search_dialog();
    assert_eq!(d.dialog_type, DialogType::Search);
    assert_eq!(d.message, "Search for:");
    assert_eq!(d.input, "");
}

#[test]
fn rename_selects_the_part_before_the_extension() {
    let sel = |name: &str, dir: bool| show_rename_dialog(name, dir).map(|d| (d.input.clone(), d.selection, d.cursor_pos));
    assert_eq!(sel("report.txt", false), Some((s("report.txt"), Some((0, 6)), 6)));
    assert_eq!(sel("a.tar.gz", false), Some((s("a.tar.gz"), Some((0, 5)), 5)));
    assert_eq!(sel("noext", false), Some((s("noext"), Some((0, 5)), 5)));
    assert_eq!(sel(".bashrc", false), Some((s(".bashrc"), Some((0, 7)), 7)));
    assert_eq!(sel(".config.bak", false), Some((s(".config.bak"), Some((0, 7)), 7)));
    assert_eq!(sel("dir.d", true), Some((s("dir.d"), Some((0, 5)), 5)));
    assert_eq!(sel("한글.txt", false), Some((s("한글.txt"), Some((0, 2)), 2)));
    assert_eq!(sel("a.", false), Some((s("a."), Some((0, 1)), 1)));
    assert_eq!(sel("..", true), None);
    assert_eq!(sel("..", false), None);
    assert_eq!(sel("", false), Some((s(""), Some((0, 0)), 0)));
}

#[test]
fn handlers_become_shell_commands() {
    assert_eq!(
        handler_command("feh {{FILEPATH}}", "/p/a b.png"),
        HandlerCommand { in_terminal: false, command: s("feh '/p/a b.png'") }
    );
    assert_eq!(
        handler_command("@vim {{FILEPATH}}", "/p/it's"),
        HandlerCommand { in_terminal: true, command: s("vim '/p/it'\\''s'") }
    );
    assert_eq!(
        handler_command("cmp {{FILEPATH}} {{FILEPATH}}.bak {FILEPATH} {{FILEPATH}", "x"),
        HandlerCommand { in_terminal: false, command: s("cmp 'x' 'x'.bak {FILEPATH} {{FILEPATH}") }
    );
    assert_eq!(handler_command("", "x"), HandlerCommand { in_terminal: false, command: s("") });
    assert_eq!(handler_command("@", "x"), HandlerCommand { in_terminal: true, command: s("") });
    assert_eq!(
        handler_command("{{{FILEPATH}}}", "{{FILEPATH}}").command,
        "{{FILEPATH}}".replace("{{FILEPATH}}", "x").replace('x', "{'{{FILEPATH}}'}")
    );
}

#[test]
fn a_move_copies_before_it_removes() {
    let mut m = MoveFile::new();
    assert_eq!(m.step(None), MoveAction::Rename);
    assert_eq!(m.phase, MovePhase::Renaming);
    assert_eq!(m.step(Some(s("Invalid cross-device link"))), MoveAction::CopyToDestination);
    assert_eq!(m.phase, MovePhase::Copying);
    assert_eq!(m.step(None), MoveAction::RemoveSource);
    assert!(m.copied);
    assert_eq!(m.step(None), MoveAction::Finish(FileOutcome::Done));
    assert_eq!(m.phase, MovePhase::Finished);
    assert_eq!(m.step(Some(s("late"))), MoveAction::Finish(FileOutcome::Done));

    // the copy fails: the source is never touched
    let mut m = MoveFile::new();
    m.step(None);
    m.step(Some(s("EXDEV")));
    assert_eq!(m.step(Some(s("disk full"))), MoveAction::Finish(FileOutcome::Failed(s("disk full"))));
    assert!(!m.removal_asked);

    // the source cannot be removed: the copy stays, the file counts as failed
    let mut m = MoveFile::new();
    m.step(None);
    m.step(Some(s("EXDEV")));
    m.step(None);
    assert_eq!(
        m.step(Some(s("busy"))),
        MoveAction::Finish(FileOutcome::Failed(s("Copied, but the source could not be removed: busy")))
    );
    assert!(m.copied);
}

#[test]
fn a_move_on_one_file_system_is_a_change_of_name() {
    let mut m = MoveFile::new();
    assert_eq!(m.step(None), MoveAction::Rename);
    assert_eq!(m.step(None), MoveAction::Finish(FileOutcome::Done));
    assert!(m.renamed && !m.copied && !m.removal_asked);
    assert_eq!(m.phase, MovePhase::Finished);
    assert_eq!(m.step(Some(s("late"))), MoveAction::Finish(FileOutcome::Done));
}

#[test]
fn a_move_that_has_failed_stays_failed() {
    let mut m = MoveFile::new();
    m.step(None);
    m.step(Some(s("EXDEV")));
    let failed = MoveAction::Finish(FileOutcome::Failed(s("disk full")));
    assert_eq!(m.step(Some(s("disk full"))), failed);
    let after = m.clone();
    assert_eq!(m.step(None), failed);
    assert_eq!(m.step(Some(s("other"))), failed);
    assert_eq!(m, after);

    let mut m = MoveFile::new();
    m.step(None);
    m.step(Some(s("EXDEV")));
    m.step(None);
    let kept = MoveAction::Finish(FileOutcome::Failed(s("Copied, but the source could not be removed: busy")));
    assert_eq!(m.step(Some(s("busy"))), kept);
    assert_eq!(m.step(None), kept);
    assert!(m.copied && m.removal_asked);
}

#[test]
fn new_names_are_checked() {
    assert_eq!(execute_mkdir("new", Some("/w"), Some("/w/new")), Ok(()));
    assert_eq!(execute_mkdir("new", None, Some("/elsewhere/new")), Ok(()));
    assert_eq!(execute_mkdir("new", Some("/w"), None), Ok(()));
    assert_eq!(
        execute_mkdir("new", Some("/w"), Some("/elsewhere/new")),
        Err(s("Error: Path traversal attempt detected"))
    );
    assert_eq!(execute_mkdir("a/b", Some("/w"), Some("/w/a/b")), Err(s("Error: Name cannot contain path separators")));
    assert_eq!(execute_mkdir("", None, None), Err(s("Error: Name cannot be empty")));
    assert_eq!(execute_rename("b.txt", Some("/w"), Some("/w")), Ok(()));
    assert_eq!(execute_rename("b.txt", Some("/w"), Some("/w/")), Err(s("Error: Path traversal attempt detected")));
    assert_eq!(execute_rename("b.txt", Some("/w"), None), Ok(()));
    assert_eq!(execute_rename("..", Some("/w"), Some("/w")), Err(s("Error: Name cannot be '.' or '..'")));
}

#[test]
fn runs_of_single_operations_are_summed_up() {
    assert_eq!(operation_summary("Copied", 3, 3, ""), "Copied 3 file(s)");
    assert_eq!(operation_summary("Moved", 1, 3, "denied"), "Moved 1/3. Error: denied");
    assert_eq!(operation_summary("Deleted", 0, 0, "x"), "Deleted 0 file(s)");
    assert_eq!(operation_summary("Deleted", 0, 2, ""), "Deleted 0/2. Error: ");
}

fn ancestors(path: &str) -> Vec<String> {
    std::path::Path::new(path).ancestors().map(|p| p.to_string_lossy().to_string()).collect()
}

#[test]
fn test_get_valid_path_fallback() {
    let nonexistent = "/nonexistent/path/that/does/not/exist";
    let fallback = "/tmp";
    let candidates = ancestors(nonexistent);
    assert_eq!(candidates.len(), 7);
    // nothing on the way up can be read, the root included: the fallback is taken
    let result = cokacdir::local::get_valid_path(&candidates, &vec![false; 7], fallback, true);
    assert_eq!(result, "/tmp");
    // only the root can be read
    let mut readable = vec![false; 7];
    readable[6] = true;
    let result = cokacdir::local::get_valid_path(&candidates, &readable, fallback, true);
    assert_eq!(result, "/");
    // neither the folders nor the fallback can be read
    let result = cokacdir::local::get_valid_path(&candidates, &vec![], fallback, false);
    assert_eq!(result, "/");
}

#[test]
fn test_get_valid_path_root() {
    let root = "/";
    let fallback = "/tmp";
    let result = cokacdir::local::get_valid_path(&ancestors(root), &vec![true], fallback, true);
    assert_eq!(result, root);
}

#[test]
fn valid_path_is_the_nearest_readable_folder() {
    let candidates = ancestors("/a/b/c");
    assert_eq!(candidates, strings(&["/a/b/c", "/a/b", "/a", "/"]));
    let pick = |flags: &[bool]| cokacdir::local::get_valid_path(&candidates, &flags.to_vec(), "/home", true);
    assert_eq!(pick(&[true, true, true, true]), "/a/b/c");
    assert_eq!(pick(&[false, true, true, true]), "/a/b");
    assert_eq!(pick(&[false, false, true]), "/a");
    assert_eq!(pick(&[false, false, false, false, true]), "/home");
}
