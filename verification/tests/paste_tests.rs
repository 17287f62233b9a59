use cokacdir::batch::{BatchStep, FileOutcome};
use cokacdir::paste::{
    choose_by_flag, clipboard_paste, contains_text, destination_paths, destination_taken,
    detect_operation_conflicts, detect_paste_conflicts, execute_copy_to_with_progress,
    execute_paste_with_conflicts, generate_dup_filename, paste_message, execute_same_folder_paste,
    Clipboard, ClipboardOperation, ConflictResolution, ConflictState, CopyDecision,
    DuplicatePlan, PasteDecision, PastePlan, PasteProbe,
};
use cokacdir::progress::{FileOperationType, ProgressMessage};
use cokacdir::state::CopyExcludeState;

fn s(t: &str) -> String {
    t.to_string()
}

fn strings(list: &[&str]) -> Vec<String> {
    list.iter().map(|t| t.to_string()).collect()
}

fn clipboard(op: ClipboardOperation) -> Clipboard {
    Clipboard { files: strings(&["a.txt", "b.txt"]), source_path: s("/src"), operation: op }
}

#[test]
fn conflicts_are_found_where_the_destination_exists() {
    let files = strings(&["a.txt", "b.txt"]);
    assert_eq!(destination_paths("/dst", &files), strings(&["/dst/a.txt", "/dst/b.txt"]));
    let conflicts = detect_operation_conflicts("/src", "/dst", &files, &vec![false, true]);
    assert_eq!(conflicts, vec![(s("/src/b.txt"), s("/dst/b.txt"), s("b.txt"))]);
    assert_eq!(detect_operation_conflicts("/src", "/dst", &files, &vec![false, false]), vec![]);
    assert_eq!(detect_operation_conflicts("/src", "/dst", &files, &vec![true]).len(), 1);
    assert_eq!(detect_operation_conflicts("/src", "/dst", &files, &vec![true, true, true]).len(), 2);
    assert_eq!(
        detect_paste_conflicts(&clipboard(ClipboardOperation::Copy), "/dst/", &files, &vec![true, false]),
        vec![(s("/src/a.txt"), s("/dst/a.txt"), s("a.txt"))]
    );
}

#[test]
fn overwrite_after_conflict_copies_every_file() {
    // copying a.txt and b.txt from /src to /dst where /dst/b.txt is there
    let files = strings(&["a.txt", "b.txt"]);
    let d = execute_copy_to_with_progress(files, s("/src"), s("/dst"), vec![], &vec![false, true], false);
    let mut state = match d {
        CopyDecision::Conflicts { state } => state,
        _ => panic!("expected conflicts"),
    };
    assert_eq!(state.conflicts, vec![(s("/src/b.txt"), s("/dst/b.txt"), s("b.txt"))]);
    assert!(!state.is_move_operation);
    assert_eq!(state.target_path, "/dst");
    assert!(state.resolve(ConflictResolution::Overwrite));
    assert_eq!(state.files_to_overwrite, strings(&["/src/b.txt"]));
    assert!(state.files_to_skip.is_empty());
    match execute_paste_with_conflicts(state) {
        PastePlan::Run { operation, source_path, target_path, mut job, keep } => {
            assert_eq!(operation, FileOperationType::Copy);
            assert_eq!(source_path, "/src");
            assert_eq!(target_path, "/dst");
            assert_eq!(keep.unwrap().files, strings(&["a.txt", "b.txt"]));
            assert_eq!(job.begin(false).0, BatchStep::Run(0));
            job.finish(FileOutcome::Done);
            assert_eq!(job.begin(false).0, BatchStep::Run(1));
            job.finish(FileOutcome::Done);
            assert_eq!(job.begin(false), (BatchStep::Finished, vec![ProgressMessage::Completed(2, 0)]));
        }
        _ => panic!("expected a job"),
    }
}

#[test]
fn skipping_every_conflict_writes_nothing() {
    let files = strings(&["a.txt", "b.txt", "c.txt"]);
    let conflicts = detect_operation_conflicts("/src", "/dst", &files, &vec![true, true, true]);
    assert_eq!(conflicts.len(), 3);
    let cb = Clipboard { files, source_path: s("/src"), operation: ClipboardOperation::Copy };
    let mut state = ConflictState::new(conflicts.clone(), cb.clone(), false, s("/dst"));
    assert!(!state.is_resolved());
    assert!(!state.resolve(ConflictResolution::Skip));
    assert!(state.resolve(ConflictResolution::SkipAll));
    assert!(state.is_resolved());
    assert_eq!(state.files_to_skip, strings(&["/src/a.txt", "/src/b.txt", "/src/c.txt"]));
    match execute_paste_with_conflicts(state) {
        PastePlan::AllSkipped { restore } => assert_eq!(restore, Some(cb.clone())),
        _ => panic!("expected all skipped"),
    }
    // a cut clipboard is not put back
    let cut = Clipboard { operation: ClipboardOperation::Cut, ..cb.clone() };
    let mut state = ConflictState::new(conflicts, cut, true, s("/dst"));
    state.resolve(ConflictResolution::SkipAll);
    match execute_paste_with_conflicts(state) {
        PastePlan::AllSkipped { restore } => assert!(restore.is_none()),
        _ => panic!("expected all skipped"),
    }
}

#[test]
fn skipped_files_are_left_out_of_the_job() {
    let files = strings(&["a.txt", "b.txt", "c.txt"]);
    let conflicts = detect_operation_conflicts("/src", "/dst", &files, &vec![true, false, true]);
    let cb = Clipboard { files, source_path: s("/src"), operation: ClipboardOperation::Cut };
    let mut state = ConflictState::new(conflicts, cb, true, s("/dst"));
    assert!(!state.resolve(ConflictResolution::Skip));
    assert_eq!(state.current_index, 1);
    assert!(state.resolve(ConflictResolution::Overwrite));
    // answers after the last clash change nothing
    let before = state.clone();
    assert!(state.resolve(ConflictResolution::SkipAll));
    assert_eq!(state, before);
    assert_eq!(state.files_to_skip, strings(&["/src/a.txt"]));
    assert_eq!(state.files_to_overwrite, strings(&["/src/c.txt"]));
    match execute_paste_with_conflicts(state) {
        PastePlan::Run { operation, mut job, keep, .. } => {
            assert_eq!(operation, FileOperationType::Move);
            assert!(keep.is_none());
            assert_eq!(job.begin(false), (BatchStep::Run(1), vec![ProgressMessage::FileStarted(s("b.txt"))]));
            job.finish(FileOutcome::Done);
            assert_eq!(job.begin(false).0, BatchStep::Run(2));
            job.finish(FileOutcome::Done);
            assert_eq!(job.begin(false).0, BatchStep::Finished);
            assert_eq!(job.attempted(), 2);
        }
        _ => panic!("expected a job"),
    }
}

#[test]
fn overwrite_all_settles_what_is_left() {
    let files = strings(&["a", "b", "c"]);
    let conflicts = detect_operation_conflicts("/s", "/d", &files, &vec![true, true, true]);
    let cb = Clipboard { files, source_path: s("/s"), operation: ClipboardOperation::Copy };
    let mut state = ConflictState::new(conflicts, cb, false, s("/d"));
    state.resolve(ConflictResolution::Skip);
    assert!(state.resolve(ConflictResolution::OverwriteAll));
    assert_eq!(state.files_to_skip, strings(&["/s/a"]));
    assert_eq!(state.files_to_overwrite, strings(&["/s/b", "/s/c"]));
    assert_eq!(state.current_index, 3);
}

#[test]
fn paste_plan_without_clipboard_is_nothing() {
    let state = ConflictState {
        conflicts: vec![],
        current_index: 0,
        files_to_overwrite: vec![],
        files_to_skip: vec![],
        clipboard_backup: None,
        is_move_operation: false,
        target_path: s("/d"),
    };
    assert!(matches!(execute_paste_with_conflicts(state), PastePlan::Nothing));
}

#[test]
fn duplicate_names_never_take_an_existing_name() {
    assert_eq!(generate_dup_filename("a.txt", &strings(&["a.txt"]), 0), "a_dup.txt");
    assert_eq!(generate_dup_filename("a.txt", &strings(&["a.txt", "a_dup.txt"]), 0), "a_dup2.txt");
    assert_eq!(
        generate_dup_filename("a.txt", &strings(&["a_dup.txt", "a_dup2.txt", "a_dup4.txt"]), 0),
        "a_dup3.txt"
    );
    assert_eq!(generate_dup_filename("notes", &strings(&["notes_dup"]), 0), "notes_dup2");
    assert_eq!(generate_dup_filename("a.tar.gz", &vec![], 0), "a.tar_dup.gz");
    assert_eq!(generate_dup_filename(".bashrc", &vec![], 0), "_dup.bashrc");
    assert_eq!(generate_dup_filename("dir.", &vec![], 0), "dir_dup.");
    assert_eq!(generate_dup_filename("", &vec![], 0), "_dup");
}

#[test]
fn duplicate_name_of_last_resort_uses_the_stamp() {
    let mut taken: Vec<String> = vec![s("f_dup.x")];
    for k in 2..=10000 {
        taken.push(format!("f_dup{}.x", k));
    }
    assert_eq!(generate_dup_filename("f.x", &taken, 1700000000123), "f_dup1700000000123.x");
    taken.remove(9999);
    assert_eq!(generate_dup_filename("f.x", &taken, 5), "f_dup10000.x");
}

#[test]
fn same_folder_paste_plans_duplicates() {
    let cb = Clipboard {
        files: strings(&["a.txt", "..", "gone.txt", "d"]),
        source_path: s("/w"),
        operation: ClipboardOperation::Copy,
    };
    let existing = strings(&["a.txt", "a_dup.txt", "d"]);
    match execute_same_folder_paste(&cb, &vec![true, true, false, true], &existing, 9) {
        DuplicatePlan::Run { pairs, mut job } => {
            assert_eq!(
                pairs,
                vec![(s("/w/a.txt"), s("/w/a_dup2.txt")), (s("/w/d"), s("/w/d_dup"))]
            );
            assert_eq!(job.begin(false), (BatchStep::Run(0), vec![ProgressMessage::FileStarted(s("a.txt"))]));
            // the name was taken in the meantime: nothing is written over
            assert_eq!(
                job.finish(destination_taken()),
                vec![ProgressMessage::Error(s("a.txt"), s("destination already exists"))]
            );
            assert_eq!(job.begin(false).0, BatchStep::Run(1));
            job.finish(FileOutcome::Done);
            assert_eq!(job.begin(false), (BatchStep::Finished, vec![ProgressMessage::Completed(1, 1)]));
        }
        DuplicatePlan::Nothing => panic!("expected a job"),
    }
    assert!(matches!(execute_same_folder_paste(&cb, &vec![false, true, false], &existing, 9), DuplicatePlan::Nothing));
    let none = Clipboard { files: vec![], source_path: s("/w"), operation: ClipboardOperation::Copy };
    assert!(matches!(execute_same_folder_paste(&none, &vec![], &existing, 9), DuplicatePlan::Nothing));
}

fn probe() -> PasteProbe {
    PasteProbe {
        same_folder: false,
        source_exists: true,
        target_is_dir: true,
        into_itself: vec![false, false],
        dest_exists: vec![false, false],
    }
}

#[test]
fn test_clipboard_empty_rejected() {
    let d = clipboard_paste(None, "/dst", &probe());
    assert!(matches!(d, PasteDecision::EmptyClipboard));
    assert!(paste_message(&d).is_some());
    assert_eq!(paste_message(&d), Some(s("Clipboard is empty")));
}

#[test]
fn paste_into_the_same_folder() {
    let p = PasteProbe { same_folder: true, ..probe() };
    let d = clipboard_paste(Some(clipboard(ClipboardOperation::Cut)), "/src", &p);
    assert_eq!(paste_message(&d), Some(s("Cannot move files to the same folder")));
    match d {
        PasteDecision::SameFolderMove { restore } => assert_eq!(restore, clipboard(ClipboardOperation::Cut)),
        _ => panic!(),
    }
    let d = clipboard_paste(Some(clipboard(ClipboardOperation::Copy)), "/src", &p);
    assert_eq!(paste_message(&d), None);
    match d {
        PasteDecision::Duplicate { clipboard: cb } => assert_eq!(cb, clipboard(ClipboardOperation::Copy)),
        _ => panic!(),
    }
}

#[test]
fn paste_checks_source_and_target() {
    let d = clipboard_paste(
        Some(clipboard(ClipboardOperation::Copy)),
        "/dst",
        &PasteProbe { source_exists: false, target_is_dir: false, ..probe() },
    );
    assert!(matches!(d, PasteDecision::SourceGone));
    assert_eq!(paste_message(&d), Some(s("Source folder no longer exists")));
    let d = clipboard_paste(
        Some(clipboard(ClipboardOperation::Copy)),
        "/dst",
        &PasteProbe { target_is_dir: false, ..probe() },
    );
    assert_eq!(paste_message(&d), Some(s("Target is not a valid directory")));
    assert!(matches!(d, PasteDecision::InvalidTarget { .. }));
}

#[test]
fn paste_rejects_directories_that_go_into_themselves() {
    let d = clipboard_paste(
        Some(clipboard(ClipboardOperation::Copy)),
        "/src/a.txt/sub",
        &PasteProbe { into_itself: vec![true, true], ..probe() },
    );
    assert_eq!(paste_message(&d), Some(s("Cannot copy 'b.txt' into itself")));
    match d {
        PasteDecision::NothingValid { restore, rejected } => {
            assert_eq!(restore, clipboard(ClipboardOperation::Copy));
            assert_eq!(rejected, strings(&["a.txt", "b.txt"]));
        }
        _ => panic!(),
    }
    let d = clipboard_paste(
        Some(clipboard(ClipboardOperation::Cut)),
        "/dst",
        &PasteProbe { into_itself: vec![true], dest_exists: vec![true, false], ..probe() },
    );
    assert_eq!(paste_message(&d), Some(s("Cannot copy 'a.txt' into itself")));
    match d {
        PasteDecision::Run { operation, source_path, mut job, keep, rejected } => {
            assert_eq!(operation, FileOperationType::Move);
            assert_eq!(source_path, "/src");
            assert!(keep.is_none());
            assert_eq!(rejected, strings(&["a.txt"]));
            assert_eq!(job.begin(false), (BatchStep::Run(0), vec![ProgressMessage::FileStarted(s("b.txt"))]));
        }
        _ => panic!(),
    }
}

#[test]
fn paste_asks_about_conflicts() {
    let d = clipboard_paste(
        Some(clipboard(ClipboardOperation::Cut)),
        "/dst",
        &PasteProbe { dest_exists: vec![false, true], ..probe() },
    );
    assert_eq!(paste_message(&d), None);
    match d {
        PasteDecision::Conflicts { state, rejected } => {
            assert!(rejected.is_empty());
            assert_eq!(state.conflicts, vec![(s("/src/b.txt"), s("/dst/b.txt"), s("b.txt"))]);
            assert!(state.is_move_operation);
            assert_eq!(state.clipboard_backup, Some(clipboard(ClipboardOperation::Cut)));
            assert_eq!(state.target_path, "/dst");
            assert_eq!(state.current_index, 0);
        }
        _ => panic!(),
    }
    let d = clipboard_paste(Some(clipboard(ClipboardOperation::Copy)), "/dst", &probe());
    match d {
        PasteDecision::Run { operation, keep, rejected, .. } => {
            assert_eq!(operation, FileOperationType::Copy);
            assert_eq!(keep, Some(clipboard(ClipboardOperation::Copy)));
            assert!(rejected.is_empty());
        }
        _ => panic!(),
    }
}

#[test]
fn copy_dialog_decisions() {
    assert!(matches!(
        execute_copy_to_with_progress(vec![], s("/s"), s("/d"), strings(&["x"]), &vec![], false),
        CopyDecision::NoFiles
    ));
    match execute_copy_to_with_progress(strings(&["a"]), s("/s"), s("/d"), strings(&["a/link"]), &vec![true], true) {
        CopyDecision::ConfirmExclusions { state } => assert_eq!(
            state,
            CopyExcludeState {
                target_path: s("/d"),
                excluded_paths: strings(&["a/link"]),
                scroll_offset: 0,
                is_move: true,
            }
        ),
        _ => panic!(),
    }
    match execute_copy_to_with_progress(strings(&["a"]), s("/s"), s("/d"), vec![], &vec![true], true) {
        CopyDecision::Conflicts { state } => {
            assert!(state.is_move_operation);
            assert_eq!(
                state.clipboard_backup,
                Some(Clipboard { files: strings(&["a"]), source_path: s("/s"), operation: ClipboardOperation::Cut })
            );
        }
        _ => panic!(),
    }
    match execute_copy_to_with_progress(strings(&["a", "b"]), s("/s"), s("/d"), vec![], &vec![], true) {
        CopyDecision::Run { operation, mut job } => {
            assert_eq!(operation, FileOperationType::Move);
            assert_eq!(job.begin(false).0, BatchStep::Run(0));
        }
        _ => panic!(),
    }
}

#[test]
fn helpers_choose_and_find() {
    let items = strings(&["a", "b", "c"]);
    assert_eq!(choose_by_flag(&items, &vec![true, false], true), strings(&["a"]));
    assert_eq!(choose_by_flag(&items, &vec![true, false], false), strings(&["b", "c"]));
    assert!(contains_text(&items, "b"));
    assert!(!contains_text(&items, "bb"));
    assert!(!contains_text(&vec![], ""));
}

#[test]
fn a_move_asked_for_in_a_dialog_is_decided_like_a_copy() {
    let d = cokacdir::paste::execute_move_to_with_progress(
        strings(&["a.txt"]),
        s("/src"),
        s("/dst"),
        vec![],
        &vec![true],
    );
    match d {
        CopyDecision::Conflicts { state } => {
            assert!(state.is_move_operation);
            assert_eq!(state.conflicts, vec![(s("/src/a.txt"), s("/dst/a.txt"), s("a.txt"))]);
            assert_eq!(state.clipboard_backup.unwrap().operation, ClipboardOperation::Cut);
        }
        _ => panic!("a clash was expected"),
    }
    let d = cokacdir::paste::execute_move_to_with_progress(strings(&["a.txt"]), s("/src"), s("/dst"), vec![], &vec![false]);
    assert!(matches!(d, CopyDecision::Run { operation: cokacdir::progress::FileOperationType::Move, .. }));
}
