use cokacdir::listing::FileItem;
use cokacdir::navigate::EnterStep;
use cokacdir::operations::OpenStep;
use cokacdir::state::{DialogType, Screen};
use cokacdir::workspace::App;

fn s(t: &str) -> String {
    t.to_string()
}

fn file(name: &str) -> FileItem {
    FileItem { name: s(name), is_directory: false, size: 7, modified: 1, permissions: s("rw-r--r--") }
}

fn dir(name: &str) -> FileItem {
    FileItem { name: s(name), is_directory: true, size: 0, modified: 1, permissions: s("rwxr-xr-x") }
}

fn app() -> App {
    let mut app = App::new(s("/work/left"), s("/work/right"));
    app.left_panel.load_files(true, vec![dir("sub"), file("a.txt"), file("b.tar.gz")], 0);
    app.right_panel.load_files(true, vec![file("z")], 0);
    app
}

#[test]
fn going_to_a_path_moves_the_panel_or_says_why_not() {
    let mut a = app();
    a.move_cursor(2);
    a.toggle_selection();
    assert!(a.execute_goto(false, false, "/srv/data", "/srv/data"));
    assert_eq!(a.left_panel.path, "/srv/data");
    assert_eq!(a.left_panel.selected_index, 0);
    assert!(a.left_panel.selected_files.is_empty());
    assert_eq!(a.message.as_deref(), Some("Moved to: /srv/data"));

    assert!(a.execute_goto(false, false, "/srv/data/gone/deeper", "/srv"));
    assert_eq!(a.message.as_deref(), Some("Moved to nearest valid: /srv"));
    assert_eq!(a.left_panel.path, "/srv");

    assert!(!a.execute_goto(false, false, "/srv", "/srv"));
    assert_eq!(a.message.as_deref(), Some("Already at: /srv"));

    assert!(!a.execute_goto(false, false, "/nowhere", "/srv"));
    assert_eq!(a.message.as_deref(), Some("Error: Path not found or not accessible"));

    assert!(!a.execute_goto(true, false, "/a/../b", "/srv"));
    assert_eq!(a.message.as_deref(), Some("Error: Invalid path"));
    assert!(a.execute_goto(true, true, "/a/../b", "/b"));
    assert_eq!(a.message.as_deref(), Some("Moved to: /b"));
    assert_eq!(a.right_panel.path, "/work/right");
}

#[test]
fn enter_goes_up_or_down_or_leaves_the_file_to_the_caller() {
    let mut a = app();
    let step = a.enter_selected(Some("left"), Some(s("/work")));
    assert_eq!(step, EnterStep::GoToParent { focus: Some(s("left")) });
    assert_eq!(a.left_panel.path, "/work");
    assert_eq!(a.left_panel.pending_focus.as_deref(), Some("left"));

    let mut a = app();
    let step = a.enter_selected(None, None);
    assert_eq!(step, EnterStep::GoToParent { focus: None });
    assert_eq!(a.left_panel.path, "/work/left");

    let mut a = app();
    a.move_cursor(1);
    a.toggle_selection();
    a.move_cursor(-1);
    let step = a.enter_selected(Some("left"), Some(s("/work")));
    assert_eq!(step, EnterStep::EnterDirectory { name: s("sub") });
    assert_eq!(a.left_panel.path, "/work/left/sub");
    assert_eq!(a.left_panel.selected_index, 0);
    assert!(a.left_panel.selected_files.is_empty());
    assert!(a.left_panel.pending_focus.is_none());

    let mut a = app();
    a.move_cursor(2);
    assert_eq!(a.enter_selected(Some("left"), Some(s("/work"))), EnterStep::OpenFile { name: s("a.txt") });
    assert_eq!(a.left_panel.path, "/work/left");
    assert_eq!(a.left_panel.selected_index, 2);

    let mut empty = App::new(s("/a"), s("/b"));
    assert_eq!(empty.enter_selected(None, None), EnterStep::Nothing);
}

#[test]
fn a_file_is_unpacked_shown_or_edited() {
    let mut a = app();
    assert_eq!(a.open_file("b.TAR.gz", u64::MAX, true, false), OpenStep::Extract(s("/work/left/b.TAR.gz")));
    assert!(a.dialog.is_none());
    assert_eq!(a.open_file("a.txt", 10, false, true), OpenStep::Edit(s("/work/left/a.txt")));
    assert_eq!(a.open_file("p.png", 10, true, true), OpenStep::ShowImage(s("/work/left/p.png")));
    assert_eq!(a.current_screen, Screen::ImageViewer);
}

#[test]
fn the_user_is_asked_before_a_large_file_is_opened() {
    let mut a = app();
    assert_eq!(a.open_file("big.iso", 52428801, false, true), OpenStep::Asked);
    let d = a.dialog.clone().unwrap();
    assert_eq!(d.dialog_type, DialogType::LargeFileConfirm);
    assert_eq!(d.message, "This file is 50.0MB. Open anyway?");
    assert_eq!(d.selected_button, 1);
    assert_eq!(a.pending_large_file.as_deref(), Some("/work/left/big.iso"));
    assert!(a.pending_large_image.is_none());
    assert_eq!(a.execute_open_large_file(), Some(s("/work/left/big.iso")));

    let mut a = app();
    assert_eq!(a.open_file("big.png", 104857600, true, false), OpenStep::Asked);
    assert_eq!(a.dialog.clone().unwrap().dialog_type, DialogType::LargeImageConfirm);
    assert_eq!(a.dialog.clone().unwrap().message, "This image is 100.0MB. Open anyway?");
    assert_eq!(a.pending_large_image.as_deref(), Some("/work/left/big.png"));

    let mut a = app();
    assert_eq!(a.open_file("p.png", 52428800, true, false), OpenStep::Asked);
    assert_eq!(a.dialog.clone().unwrap().dialog_type, DialogType::TrueColorWarning);
    assert_eq!(a.pending_large_image.as_deref(), Some("/work/left/p.png"));
    assert_eq!(a.current_screen, Screen::DualPanel);
}

#[test]
fn a_directory_is_made_after_its_name_was_checked() {
    let mut a = app();
    assert_eq!(a.execute_mkdir("new", Some("/work/left"), Some("/work/left/new")), Some(s("/work/left/new")));
    assert!(a.message.is_none());
    assert_eq!(a.execute_mkdir("", None, None), None);
    assert!(a.message.clone().unwrap().starts_with("Error: "));
    assert_eq!(a.execute_mkdir("new", Some("/work/left"), Some("/etc/new")), None);
    assert_eq!(a.message.as_deref(), Some("Error: Path traversal attempt detected"));
    assert_eq!(a.execute_mkdir("a/b", None, None), None);
    a.toggle_all_selection();
    a.mkdir_done("new", None);
    assert_eq!(a.message.as_deref(), Some("Created directory: new"));
    assert!(a.left_panel.selected_files.is_empty());
    a.mkdir_done("new", Some("File exists"));
    assert_eq!(a.message.as_deref(), Some("Error: File exists"));
}

#[test]
fn an_entry_is_renamed_after_the_new_name_was_checked() {
    let mut a = app();
    a.move_cursor(2);
    assert_eq!(
        a.execute_rename("c.txt", Some("/work/left"), Some("/work/left")),
        Some((s("/work/left/a.txt"), s("/work/left/c.txt")))
    );
    assert!(a.message.is_none());
    assert_eq!(a.execute_rename("c.txt", Some("/work/left"), Some("/work")), None);
    assert_eq!(a.message.as_deref(), Some("Error: Path traversal attempt detected"));
    assert_eq!(a.execute_rename("-rf", None, None), None);
    assert!(a.message.clone().unwrap().starts_with("Error: "));
    let mut empty = App::new(s("/a"), s("/b"));
    assert_eq!(empty.execute_rename("x", None, None), None);
    assert!(empty.message.is_none());
    a.rename_done("c.txt", None);
    assert_eq!(a.message.as_deref(), Some("Renamed to: c.txt"));
    a.rename_done("c.txt", Some("Permission denied"));
    assert_eq!(a.message.as_deref(), Some("Error: Permission denied"));
}
