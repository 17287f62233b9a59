use cokacdir::progress::{
    completion_message, FileOperationProgress, FileOperationResult, FileOperationType,
    ProgressMessage,
};

fn s(t: &str) -> String {
    t.to_string()
}

#[test]
fn progress_starts_idle() {
    let p = FileOperationProgress::new(FileOperationType::Copy);
    assert_eq!(p.operation_type, FileOperationType::Copy);
    assert!(!p.is_active);
    assert!(!p.cancel_requested);
    assert!(!p.is_preparing);
    assert_eq!(p.preparing_message, "");
    assert_eq!(p.current_file, "");
    assert_eq!((p.current_file_done, p.current_file_total), (0, 0));
    assert_eq!((p.completed_files, p.total_files), (0, 0));
    assert_eq!((p.completed_bytes, p.total_bytes), (0, 0));
    assert!(p.result.is_none());
    assert!(p.last_error.is_none());
    assert_eq!(p.overall_progress(), (0, 0));
}

#[test]
fn poll_on_idle_state_changes_nothing() {
    let mut p = FileOperationProgress::new(FileOperationType::Copy);
    assert!(!p.poll(vec![ProgressMessage::Completed(1, 0)], false));
    assert!(p.result.is_none());
    assert!(!p.is_active);
}

#[test]
fn poll_follows_the_events() {
    let mut p = FileOperationProgress::new(FileOperationType::Move);
    p.is_active = true;
    assert!(p.poll(vec![ProgressMessage::Preparing(s("Scanning"))], false));
    assert!(p.is_preparing);
    assert_eq!(p.preparing_message, "Scanning");
    assert!(p.poll(
        vec![
            ProgressMessage::PrepareComplete,
            ProgressMessage::TotalProgress(0, 2, 0, 300),
            ProgressMessage::FileStarted(s("a.txt")),
            ProgressMessage::FileProgress(50, 100),
        ],
        false,
    ));
    assert!(!p.is_preparing);
    assert_eq!(p.preparing_message, "");
    assert_eq!(p.current_file, "a.txt");
    assert_eq!((p.current_file_done, p.current_file_total), (50, 100));
    assert_eq!(p.overall_progress(), (0, 300));
    // a progress event without a total is ignored
    assert!(p.poll(vec![ProgressMessage::FileProgress(70, 0)], false));
    assert_eq!((p.current_file_done, p.current_file_total), (50, 100));
    assert!(p.poll(
        vec![
            ProgressMessage::FileCompleted(s("a.txt")),
            ProgressMessage::TotalProgress(1, 2, 100, 300),
        ],
        false,
    ));
    assert_eq!((p.current_file_done, p.current_file_total), (1, 1));
    assert_eq!(p.overall_progress(), (100, 300));
    assert!(p.poll(vec![ProgressMessage::FileStarted(s("b.txt"))], false));
    assert_eq!((p.current_file_done, p.current_file_total), (0, 0));
    assert!(!p.poll(
        vec![
            ProgressMessage::Error(s("b.txt"), s("disk full")),
            ProgressMessage::Completed(1, 1),
            ProgressMessage::FileStarted(s("never read")),
        ],
        false,
    ));
    assert!(!p.is_active);
    assert_eq!(p.current_file, "b.txt");
    assert_eq!(
        p.result,
        Some(FileOperationResult {
            success_count: 1,
            failure_count: 1,
            last_error: Some(s("disk full")),
        })
    );
    assert!(p.last_error.is_none());
    // the result is made once: later polls change nothing
    assert!(!p.poll(vec![ProgressMessage::Completed(9, 9)], false));
    assert_eq!(p.result.as_ref().unwrap().success_count, 1);
}

#[test]
fn poll_notes_a_vanished_worker() {
    let mut p = FileOperationProgress::new(FileOperationType::Copy);
    p.is_active = true;
    assert!(!p.poll(vec![ProgressMessage::FileStarted(s("a"))], true));
    assert!(!p.is_active);
    assert!(p.result.is_none());
    assert_eq!(p.current_file, "a");
}

#[test]
fn apply_reads_one_event() {
    let mut p = FileOperationProgress::new(FileOperationType::Tar);
    p.is_active = true;
    assert!(p.apply(ProgressMessage::Error(s(""), s("first"))));
    assert!(p.apply(ProgressMessage::Error(s("x"), s("second"))));
    assert_eq!(p.last_error, Some(s("second")));
    assert!(!p.apply(ProgressMessage::Completed(0, 1)));
    assert_eq!(p.result.unwrap().last_error, Some(s("second")));
}

#[test]
fn cancel_only_records_the_request() {
    let mut p = FileOperationProgress::new(FileOperationType::Copy);
    p.is_active = true;
    p.cancel();
    assert!(p.cancel_requested);
    assert!(p.is_active);
}

#[test]
fn overall_progress_prefers_bytes_over_files() {
    let mut p = FileOperationProgress::new(FileOperationType::Copy);
    p.total_files = 4;
    p.completed_files = 1;
    assert_eq!(p.overall_progress(), (1, 4));
    p.total_bytes = 10;
    p.completed_bytes = 3;
    assert_eq!(p.overall_progress(), (3, 10));
}

fn result(s: usize, f: usize, e: Option<&str>) -> FileOperationResult {
    FileOperationResult { success_count: s, failure_count: f, last_error: e.map(|t| t.to_string()) }
}

#[test]
fn completion_message_summarises_the_job() {
    assert_eq!(completion_message(FileOperationType::Copy, &result(3, 0, None), None), "Copied 3 file(s)");
    assert_eq!(completion_message(FileOperationType::Move, &result(0, 0, None), None), "Moved 0 file(s)");
    assert_eq!(
        completion_message(FileOperationType::Copy, &result(2, 1, Some("denied")), None),
        "Copied 2/3. Error: denied"
    );
    assert_eq!(
        completion_message(FileOperationType::Download, &result(0, 2, None), None),
        "Downloaded 0/2. Error: Unknown error"
    );
    assert_eq!(completion_message(FileOperationType::Encrypt, &result(1, 0, None), Some("x")), "Encrypted 1 file(s)");
    assert_eq!(completion_message(FileOperationType::Decrypt, &result(12, 0, None), None), "Decrypted 12 file(s)");
    assert_eq!(completion_message(FileOperationType::Tar, &result(5, 0, None), Some("a.tar.gz")), "Created: a.tar.gz");
    assert_eq!(completion_message(FileOperationType::Tar, &result(5, 0, None), None), "Archived 5 file(s)");
    assert_eq!(
        completion_message(FileOperationType::Tar, &result(0, 1, Some("tar: boom")), Some("a.tar")),
        "Error: tar: boom"
    );
    assert_eq!(completion_message(FileOperationType::Tar, &result(0, 1, None), None), "Error: Archive failed");
    assert_eq!(completion_message(FileOperationType::Untar, &result(7, 0, None), Some("dir")), "Extracted to: dir");
    assert_eq!(completion_message(FileOperationType::Untar, &result(7, 0, None), None), "Extracted 7 file(s)");
    assert_eq!(completion_message(FileOperationType::Untar, &result(0, 1, None), Some("dir")), "Error: Extract failed");
    assert_eq!(
        completion_message(FileOperationType::Copy, &result(usize::MAX, usize::MAX, Some("e")), None),
        format!("Copied {}/{}. Error: e", usize::MAX, 2 * (usize::MAX as u128))
    );
}
