use cokacdir::actions::{SearchHit, ViewStep};
use cokacdir::listing::FileItem;
use cokacdir::local::{settle, MoveAction, MoveFile};
use cokacdir::state::{DialogType, PanelSide, Screen, SortBy, SortOrder};
use cokacdir::workspace::App;

fn s(t: &str) -> String {
    t.to_string()
}

fn file(name: &str) -> FileItem {
    FileItem { name: s(name), is_directory: false, size: 7, modified: 1, permissions: s("rw-r--r--") }
}

fn dir(name: &str) -> FileItem {
    FileItem { name: s(name), is_directory: true, size: 0, modified: 1, permissions: s("rwxr-xr-x") }
}

fn app_with(left: Vec<FileItem>, right: Vec<FileItem>) -> App {
    let mut app = App::new(s("/work/left"), s("/work/right"));
    app.left_panel.load_files(true, left, 0);
    app.right_panel.load_files(true, right, 0);
    app
}

#[test]
fn sorting_again_by_the_same_key_turns_the_order_round() {
    let mut app = app_with(vec![file("a"), file("b")], vec![]);
    app.move_cursor(2);
    app.toggle_sort_by_name();
    assert_eq!((app.left_panel.sort_by, app.left_panel.sort_order), (SortBy::Name, SortOrder::Desc));
    assert_eq!(app.left_panel.selected_index, 0);
    app.toggle_sort_by_size();
    assert_eq!((app.left_panel.sort_by, app.left_panel.sort_order), (SortBy::Size, SortOrder::Asc));
    app.toggle_sort_by_date();
    assert_eq!((app.left_panel.sort_by, app.left_panel.sort_order), (SortBy::Modified, SortOrder::Asc));
    app.toggle_sort_by_type();
    app.toggle_sort_by_type();
    assert_eq!((app.left_panel.sort_by, app.left_panel.sort_order), (SortBy::Type, SortOrder::Desc));
    assert_eq!(app.right_panel.sort_by, SortBy::Name);
}

#[test]
fn copy_and_move_dialogs_offer_the_other_folder() {
    let mut app = app_with(vec![file("a.txt"), file("b.txt")], vec![]);
    app.move_cursor(1);
    app.show_copy_dialog();
    let d = app.dialog.clone().unwrap();
    assert_eq!(d.dialog_type, DialogType::Copy);
    assert_eq!(d.input, "/work/right/");
    assert_eq!(d.cursor_pos, 12);
    assert_eq!(d.message, "a.txt");
    assert!(d.completion.is_some());
    app.show_move_dialog();
    let d = app.dialog.clone().unwrap();
    assert_eq!(d.dialog_type, DialogType::Move);
    assert_eq!(d.input, "/work/right/");
    assert!(app.message.is_none());
}

#[test]
fn dialogs_for_files_want_a_file() {
    let mut app = app_with(vec![file("a.txt")], vec![]);
    // the cursor is on the folder above
    app.show_copy_dialog();
    assert!(app.dialog.is_none());
    assert_eq!(app.message.as_deref(), Some("No files selected"));
    app.message = None;
    app.show_delete_dialog();
    assert!(app.dialog.is_none());
    assert_eq!(app.message.as_deref(), Some("No files selected"));
    app.message = None;
    app.show_tar_dialog();
    assert_eq!(app.message.as_deref(), Some("No files selected"));
    app.show_rename_dialog();
    assert!(app.dialog.is_none());
    assert_eq!(app.message.as_deref(), Some("Select a file to rename"));
}

#[test]
fn delete_and_tar_dialogs_name_the_files() {
    let mut app = app_with(vec![file("a"), file("b"), file("c"), file("d")], vec![]);
    app.toggle_all_selection();
    app.show_delete_dialog();
    let d = app.dialog.clone().unwrap();
    assert_eq!(d.dialog_type, DialogType::Delete);
    assert_eq!(d.message, "Delete a, b and 2 more?");
    assert_eq!(d.selected_button, 1);
    app.show_tar_dialog();
    let d = app.dialog.clone().unwrap();
    assert_eq!(d.dialog_type, DialogType::Tar);
    assert_eq!(d.input, "a.tar.gz");
    assert_eq!(d.cursor_pos, 8);
    assert_eq!(d.message, "a, b and 2 more");
}

#[test]
fn rename_dialog_selects_the_name_before_the_ending() {
    let mut app = app_with(vec![file("notes.txt")], vec![]);
    app.move_cursor(1);
    app.show_rename_dialog();
    let d = app.dialog.clone().unwrap();
    assert_eq!(d.dialog_type, DialogType::Rename);
    assert_eq!(d.input, "notes.txt");
    assert_eq!(d.selection, Some((0, 5)));
    assert_eq!(d.cursor_pos, 5);
}

#[test]
fn goto_and_search_dialogs() {
    let mut app = app_with(vec![], vec![]);
    app.show_goto_dialog();
    let d = app.dialog.clone().unwrap();
    assert_eq!(d.dialog_type, DialogType::Goto);
    assert_eq!(d.input, "/work/left");
    assert_eq!(d.selection, Some((0, 10)));
    assert_eq!(d.message, "Go to path:");
    app.show_search_dialog();
    let d = app.dialog.clone().unwrap();
    assert_eq!(d.dialog_type, DialogType::Search);
    assert_eq!(d.message, "Search for:");
    assert_eq!(d.input, "");
}

#[test]
fn screens_are_switched() {
    let mut app = app_with(vec![], vec![]);
    app.show_process_manager();
    assert_eq!(app.current_screen, Screen::ProcessManager);
    app.show_system_info();
    assert_eq!(app.current_screen, Screen::SystemInfo);
}

#[test]
fn going_up_remembers_the_folder_left() {
    let mut app = app_with(vec![file("a"), file("b")], vec![]);
    app.move_cursor(2);
    app.toggle_selection();
    assert!(app.go_to_parent(Some(s("left")), Some(s("/work"))));
    assert_eq!(app.left_panel.path, "/work");
    assert_eq!(app.left_panel.selected_index, 0);
    assert!(app.left_panel.selected_files.is_empty());
    assert_eq!(app.left_panel.pending_focus.as_deref(), Some("left"));
    app.left_panel.load_files(false, vec![dir("left"), dir("alpha"), dir("right")], 0);
    assert_eq!(app.left_panel.files[app.left_panel.selected_index].name, "left");
    assert_eq!(app.right_panel.path, "/work/right");
}

#[test]
fn the_root_has_no_folder_above() {
    let mut app = App::new(s("/"), s("/x"));
    app.left_panel.load_files(false, vec![dir("etc"), dir("usr")], 0);
    app.move_cursor(1);
    assert!(!app.go_to_parent(None, None));
    assert_eq!(app.left_panel.path, "/");
    assert_eq!(app.left_panel.selected_index, 1);
    assert!(app.left_panel.pending_focus.is_none());
}

#[test]
fn going_to_a_folder_with_focus() {
    let mut app = app_with(vec![file("a")], vec![file("b")]);
    app.switch_panel();
    app.goto_directory_with_focus(s("/srv/data"), Some(s("x.bin")));
    assert_eq!(app.right_panel.path, "/srv/data");
    assert_eq!(app.right_panel.pending_focus.as_deref(), Some("x.bin"));
    assert_eq!(app.right_panel.selected_index, 0);
    assert_eq!(app.left_panel.path, "/work/left");
}

#[test]
fn refreshing_takes_the_marks_away() {
    let mut app = app_with(vec![file("a")], vec![file("b")]);
    app.toggle_all_selection();
    assert!(!app.left_panel.selected_files.is_empty());
    app.refresh_panels();
    assert!(app.left_panel.selected_files.is_empty());
    assert!(app.right_panel.selected_files.is_empty());
    assert_eq!(app.left_panel.files.len(), 2);
}

/// A move across file systems whose copy ended as `copy` says.
fn moved(copy: Option<&str>) -> MoveFile {
    let mut m = MoveFile::new();
    m.step(None);
    m.step(Some(s("Invalid cross-device link")));
    if m.step(copy.map(s)) == MoveAction::RemoveSource {
        m.step(None);
    }
    m
}

fn renamed() -> MoveFile {
    let mut m = MoveFile::new();
    m.step(None);
    m.step(None);
    m
}

#[test]
fn a_file_counts_as_moved_only_where_its_move_is_whole() {
    let mut app = app_with(vec![file("a")], vec![]);
    // the source could not be removed: the copy is there, the file is not moved
    let mut kept = MoveFile::new();
    kept.step(None);
    kept.step(Some(s("EXDEV")));
    kept.step(None);
    kept.step(Some(s("busy")));
    assert!(kept.copied);
    // a move that has not ended
    let mut halfway = MoveFile::new();
    halfway.step(None);
    app.execute_move_to(&vec![renamed(), kept, moved(None)]);
    assert_eq!(
        app.message.as_deref(),
        Some("Moved 2/3. Error: Copied, but the source could not be removed: busy")
    );
    app.execute_move_to(&vec![renamed(), halfway]);
    assert_eq!(app.message.as_deref(), Some("Moved 1/2. Error: The move did not end"));
    app.execute_move_to(&vec![]);
    assert_eq!(app.message.as_deref(), Some("Moved 0 file(s)"));
}

#[test]
fn a_run_is_summed_up_on_the_status_line() {
    let mut app = app_with(vec![file("a"), file("b")], vec![]);
    app.toggle_all_selection();
    app.execute_copy_to(&vec![None, None]);
    assert_eq!(app.message.as_deref(), Some("Copied 2 file(s)"));
    assert!(app.left_panel.selected_files.is_empty());
    app.execute_move_to(&vec![moved(None), moved(Some("denied")), moved(Some("no space")), renamed()]);
    assert_eq!(app.message.as_deref(), Some("Moved 2/4. Error: no space"));
    app.execute_delete(&vec![Some(s("busy"))]);
    assert_eq!(app.message.as_deref(), Some("Deleted 0/1. Error: busy"));
    app.execute_delete(&vec![]);
    assert_eq!(app.message.as_deref(), Some("Deleted 0 file(s)"));
    assert_eq!(app.message_timer, 10);
}

#[test]
fn settle_counts_and_keeps_the_last_reason() {
    assert_eq!(settle("Copied", &vec![]), "Copied 0 file(s)");
    assert_eq!(settle("Copied", &vec![None]), "Copied 1 file(s)");
    assert_eq!(settle("Moved", &vec![Some(s("x")), None, Some(s("y"))]), "Moved 1/3. Error: y");
    assert_eq!(settle("Deleted", &vec![Some(s("x")), None]), "Deleted 1/2. Error: x");
}

#[test]
fn deleting_the_picture_shown_goes_back_to_the_panels() {
    let mut app = app_with(vec![file("p.png")], vec![]);
    app.current_screen = Screen::ImageViewer;
    app.execute_delete(&vec![]);
    assert_eq!(app.current_screen, Screen::ImageViewer);
    assert!(app.message.is_none());
    app.execute_delete(&vec![Some(s("read-only"))]);
    assert_eq!(app.current_screen, Screen::ImageViewer);
    assert_eq!(app.message.as_deref(), Some("Delete failed: read-only"));
    app.execute_delete(&vec![None]);
    assert_eq!(app.current_screen, Screen::DualPanel);
    assert_eq!(app.message.as_deref(), Some("Deleted image"));
}

#[test]
fn viewing_a_file() {
    let mut app = app_with(vec![dir("sub"), file("a.txt"), file("p.png")], vec![]);
    // the folder above
    assert_eq!(app.view_file(false, true, 0), ViewStep::Nothing);
    assert_eq!(app.message.as_deref(), Some("Select a file to view"));
    app.move_cursor(2);
    assert_eq!(app.view_file(false, false, u64::MAX), ViewStep::Load(s("/work/left/a.txt")));
    assert_eq!(app.current_screen, Screen::DualPanel);
    app.viewer_loaded(Some("not text"));
    assert_eq!(app.message.as_deref(), Some("Cannot read file: not text"));
    app.viewer_loaded(None);
    assert_eq!(app.current_screen, Screen::FileViewer);
}

#[test]
fn viewing_a_picture_asks_first_where_it_may_go_wrong() {
    let mut app = app_with(vec![file("p.png")], vec![]);
    app.move_cursor(1);
    assert_eq!(app.view_file(true, false, 10), ViewStep::Asked);
    let d = app.dialog.clone().unwrap();
    assert_eq!(d.dialog_type, DialogType::TrueColorWarning);
    assert_eq!(d.message, "Terminal doesn't support true color. Open anyway?");
    assert_eq!(d.selected_button, 1);
    assert_eq!(app.pending_large_image.as_deref(), Some("/work/left/p.png"));

    let mut app = app_with(vec![file("p.png")], vec![]);
    app.move_cursor(1);
    assert_eq!(app.view_file(true, true, 50 * 1024 * 1024), ViewStep::ShowImage(s("/work/left/p.png")));
    assert_eq!(app.current_screen, Screen::ImageViewer);
    assert!(app.dialog.is_none());

    let mut app = app_with(vec![file("p.png")], vec![]);
    app.move_cursor(1);
    assert_eq!(app.view_file(true, true, 50 * 1024 * 1024 + 1), ViewStep::Asked);
    let d = app.dialog.clone().unwrap();
    assert_eq!(d.dialog_type, DialogType::LargeImageConfirm);
    assert_eq!(d.message, "This image is 50.0MB. Open anyway?");
    assert_eq!(app.execute_open_large_image(), Some(s("/work/left/p.png")));
    assert_eq!(app.current_screen, Screen::ImageViewer);
    assert_eq!(app.execute_open_large_image(), None);
}

#[test]
fn editing_a_file() {
    let mut app = app_with(vec![dir("sub"), file("a.txt")], vec![]);
    app.move_cursor(1);
    assert_eq!(app.edit_file(), None);
    assert_eq!(app.message.as_deref(), Some("Select a file to edit"));
    app.move_cursor(1);
    assert_eq!(app.edit_file(), Some(s("/work/left/a.txt")));
    app.editor_loaded(Some("too large"));
    assert_eq!(app.message.as_deref(), Some("Cannot open file: too large"));
    assert_eq!(app.current_screen, Screen::DualPanel);
    app.editor_loaded(None);
    assert_eq!(app.current_screen, Screen::FileEditor);
    app.pending_large_file = Some(s("/big"));
    assert_eq!(app.execute_open_large_file(), Some(s("/big")));
    assert_eq!(app.execute_open_large_file(), None);
}

#[test]
fn file_info_is_not_for_the_folder_above() {
    let mut app = app_with(vec![dir("sub"), file("a.txt")], vec![]);
    assert_eq!(app.show_file_info(), None);
    assert_eq!(app.message.as_deref(), Some("Select a file for info"));
    assert_eq!(app.current_screen, Screen::DualPanel);
    app.move_cursor(1);
    assert_eq!(app.show_file_info(), Some((s("/work/left/sub"), true)));
    assert_eq!(app.current_screen, Screen::FileInfo);
    let mut empty = App::new(s("/a"), s("/b"));
    assert_eq!(empty.show_file_info(), None);
    assert!(empty.message.is_none());
}

#[test]
fn a_search_wants_a_term_and_a_hit() {
    let mut app = app_with(vec![], vec![]);
    assert!(!app.execute_search("  \t", 5));
    assert_eq!(app.message.as_deref(), Some("Please enter a search term"));
    assert!(!app.execute_search("needle", 0));
    assert_eq!(app.message.as_deref(), Some("No files found matching \"needle\""));
    assert_eq!(app.current_screen, Screen::DualPanel);
    assert!(app.execute_search("needle", 3));
    assert_eq!(app.current_screen, Screen::SearchResult);
}

#[test]
fn going_to_what_was_found() {
    let mut app = app_with(vec![file("a")], vec![]);
    app.current_screen = Screen::SearchResult;
    app.goto_search_result(None);
    assert_eq!(app.current_screen, Screen::SearchResult);
    app.goto_search_result(Some(SearchHit {
        full_path: s("/work/left/deep/x.txt"),
        parent: Some(s("/work/left/deep")),
        name: s("x.txt"),
        relative_path: s("deep/x.txt"),
        is_directory: false,
    }));
    assert_eq!(app.current_screen, Screen::DualPanel);
    assert_eq!(app.left_panel.path, "/work/left/deep");
    assert_eq!(app.left_panel.pending_focus.as_deref(), Some("x.txt"));
    assert_eq!(app.message.as_deref(), Some("Moved to: deep/x.txt"));
    app.goto_search_result(Some(SearchHit {
        full_path: s("/work/left/deep/dir"),
        parent: Some(s("/work/left/deep")),
        name: s("dir"),
        relative_path: s("deep/dir"),
        is_directory: true,
    }));
    assert_eq!(app.left_panel.path, "/work/left/deep/dir");
    assert!(app.left_panel.pending_focus.is_none());
}

#[test]
fn the_assistant_takes_the_other_side_and_gives_it_back() {
    let mut app = app_with(vec![file("a")], vec![file("b")]);
    assert!(!app.is_ai_mode());
    app.show_ai_screen();
    assert!(app.is_ai_mode());
    assert_eq!(app.ai_panel_side, Some(PanelSide::Right));
    assert_eq!(app.ai_previous_panel, Some(PanelSide::Left));
    assert_eq!(app.active_panel, PanelSide::Right);
    assert_eq!(app.ai_state.as_deref(), Some("/work/left"));
    app.close_ai_screen();
    assert!(!app.is_ai_mode());
    assert_eq!(app.active_panel, PanelSide::Left);
    assert!(app.ai_panel_side.is_none());
    assert!(app.ai_previous_panel.is_none());
}

#[test]
fn a_search_marks_what_it_found() {
    let mut app = app_with(vec![file("a"), file("b"), file("c")], vec![file("z")]);
    app.toggle_all_selection();
    // the entries are: "..", a, b, c
    app.execute_advanced_search(&vec![true, false, true, true]);
    assert!(!app.left_panel.selected_files.contains("a"));
    assert!(app.left_panel.selected_files.contains("b"));
    assert!(app.left_panel.selected_files.contains("c"));
    assert!(!app.left_panel.selected_files.contains(".."));
    assert_eq!(app.message.as_deref(), Some("Found 2 matching file(s)"));
    app.execute_advanced_search(&vec![true]);
    assert!(app.left_panel.selected_files.is_empty());
    assert_eq!(app.message.as_deref(), Some("No files match the criteria"));
    app.execute_advanced_search(&vec![false, true, true, true, true, true]);
    assert_eq!(app.message.as_deref(), Some("Found 3 matching file(s)"));
    assert!(app.right_panel.selected_files.is_empty());
}

#[test]
fn going_home_takes_the_panel_to_the_home_directory_if_there_is_one() {
    let mut app = app_with(vec![file("a"), file("b")], vec![]);
    app.move_cursor(2);
    app.toggle_selection();
    let moved = app.goto_home();
    if moved {
        assert_eq!(app.left_panel.selected_index, 0);
        assert!(app.left_panel.selected_files.is_empty());
        assert!(app.left_panel.pending_focus.is_none());
        assert_eq!(app.left_panel.files.len(), 3);
    } else {
        assert_eq!(app.left_panel.path, "/work/left");
        assert!(!app.left_panel.selected_files.is_empty());
    }
    assert_eq!(app.right_panel.path, "/work/right");
}

#[test]
fn the_folder_is_opened_outside_the_program() {
    let mut app = app_with(vec![], vec![]);
    app.open_in_finder(None);
    assert_eq!(app.message.as_deref(), Some("Opened in Finder: /work/left"));
    app.open_in_finder(Some("no such command"));
    assert_eq!(app.message.as_deref(), Some("Failed to open: no such command"));
    app.message = None;
    assert_eq!(app.open_in_vscode(true, true), Some("code"));
    assert_eq!(app.open_in_vscode(false, true), Some("code-insiders"));
    assert!(app.message.is_none());
    assert_eq!(app.open_in_vscode(false, false), None);
    assert_eq!(app.message.as_deref(), Some("VS Code not found (tried: code, code-insiders)"));
    app.vscode_opened("code", None);
    assert_eq!(app.message.as_deref(), Some("Opened in code: /work/left"));
    app.vscode_opened("code-insiders", Some("denied"));
    assert_eq!(app.message.as_deref(), Some("Failed to open code-insiders: denied"));
}

#[test]
fn the_failure_of_all_handlers_is_shown() {
    let mut app = app_with(vec![], vec![]);
    app.show_extension_handler_error("Command failed: xdg-open {{FILEPATH}}");
    let d = app.dialog.clone().unwrap();
    assert_eq!(d.dialog_type, DialogType::ExtensionHandlerError);
    assert_eq!(d.message, "Command failed: xdg-open {{FILEPATH}}");
    assert_eq!(d.selected_button, 0);
}

#[test]
fn the_active_panel_can_be_changed_in_place() {
    let mut app = app_with(vec![file("a")], vec![file("b")]);
    app.active_panel_mut().selected_index = 1;
    assert_eq!(app.left_panel.selected_index, 1);
    app.switch_panel();
    app.active_panel_mut().path = s("/elsewhere");
    assert_eq!(app.right_panel.path, "/elsewhere");
    assert_eq!(app.left_panel.path, "/work/left");
    assert_eq!(app.reload_theme(), "light");
}

#[test]
fn a_copy_and_a_move_to_the_other_panel_are_summed_up() {
    let mut app = app_with(vec![file("a")], vec![]);
    app.execute_copy(&vec![None]);
    assert_eq!(app.message.as_deref(), Some("Copied 1 file(s)"));
    app.execute_move(&vec![moved(Some("busy"))]);
    assert_eq!(app.message.as_deref(), Some("Moved 0/1. Error: busy"));
}

#[test]
fn the_home_directory_that_was_found_is_gone_to() {
    let mut app = app_with(vec![file("a"), file("b")], vec![]);
    app.move_cursor(2);
    app.toggle_selection();
    assert!(!app.go_home(None));
    assert_eq!(app.left_panel.path, "/work/left");
    assert!(!app.left_panel.selected_files.is_empty());
    assert!(app.go_home(Some(s("/home/user"))));
    assert_eq!(app.left_panel.path, "/home/user");
    assert_eq!(app.left_panel.selected_index, 0);
    assert!(app.left_panel.selected_files.is_empty());
    assert_eq!(app.left_panel.files.len(), 3);
    assert_eq!(app.right_panel.path, "/work/right");
}
