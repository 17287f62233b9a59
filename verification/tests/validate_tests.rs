use cokacdir::archive_job::{ArchiveAction, ArchiveInput};
use cokacdir::cancel::CancelState;
use cokacdir::state::TarExcludeState;
use cokacdir::validate::{
    execute_tar, execute_tar_with_excludes, execute_untar, filter_symlinks_for_tar,
    is_valid_filename, path_is_within, validation_message, SymlinkEntry, TarDecision,
    UntarDecision, ValidationError,
};

fn s(t: &str) -> String {
    t.to_string()
}

fn strings(list: &[&str]) -> Vec<String> {
    list.iter().map(|t| t.to_string()).collect()
}

#[test]
fn plain_file_names_pass() {
    for name in ["a.txt", "with space", "한글", ".hidden", "a-b", "...", "a..b"] {
        assert_eq!(is_valid_filename(name), Ok(()), "{}", name);
    }
}

#[test]
fn faulty_names_are_refused_with_their_fault() {
    assert_eq!(is_valid_filename(""), Err(ValidationError::Empty));
    assert_eq!(is_valid_filename("."), Err(ValidationError::Traversal));
    assert_eq!(is_valid_filename(".."), Err(ValidationError::Traversal));
    assert_eq!(is_valid_filename("a/b"), Err(ValidationError::Separator));
    assert_eq!(is_valid_filename("../x"), Err(ValidationError::Separator));
    assert_eq!(is_valid_filename("a\\b"), Err(ValidationError::Separator));
    assert_eq!(is_valid_filename("/"), Err(ValidationError::Separator));
    assert_eq!(is_valid_filename("a\nb"), Err(ValidationError::ControlCharacter));
    assert_eq!(is_valid_filename("a\u{0}"), Err(ValidationError::ControlCharacter));
    assert_eq!(is_valid_filename("a\u{7f}"), Err(ValidationError::ControlCharacter));
    assert_eq!(is_valid_filename("-rf"), Err(ValidationError::LeadingDash));
    assert_eq!(is_valid_filename("-a/b"), Err(ValidationError::Separator));
    assert_eq!(is_valid_filename("-\t"), Err(ValidationError::ControlCharacter));
    assert_eq!(validation_message(ValidationError::Empty), "Name cannot be empty");
    assert_eq!(validation_message(ValidationError::Traversal), "Name cannot be '.' or '..'");
    assert_eq!(validation_message(ValidationError::Separator), "Name cannot contain path separators");
    assert_eq!(validation_message(ValidationError::ControlCharacter), "Name cannot contain control characters");
    assert_eq!(validation_message(ValidationError::LeadingDash), "Name cannot start with '-'");
}

fn rejected(d: TarDecision) -> String {
    match d {
        TarDecision::Rejected { message } => message,
        _ => panic!("expected a refusal"),
    }
}

#[test]
fn archive_requests_are_checked_before_anything_runs() {
    assert_eq!(
        rejected(execute_tar("../x.tar", strings(&["a"]), false, vec![], Some(s("tar")))),
        "Error: Name cannot contain path separators"
    );
    assert_eq!(rejected(execute_tar("x.tar", vec![], true, vec![], Some(s("tar")))), "No files to archive");
    assert_eq!(
        rejected(execute_tar("x.tar", strings(&["a", "-b", ""]), true, vec![], Some(s("tar")))),
        "Invalid filename '-b': Name cannot start with '-'"
    );
    assert_eq!(rejected(execute_tar("x.tar", strings(&["a"]), true, strings(&["l"]), Some(s("tar")))), "Error: x.tar already exists");
    match execute_tar("x.tar", strings(&["a", "d"]), false, strings(&["d/l"]), Some(s("tar"))) {
        TarDecision::ConfirmExclusions { state } => assert_eq!(
            state,
            TarExcludeState {
                archive_name: s("x.tar"),
                files: strings(&["a", "d"]),
                excluded_paths: strings(&["d/l"]),
                scroll_offset: 0,
            }
        ),
        _ => panic!(),
    }
    match execute_tar("x.tar", strings(&["a"]), false, vec![], Some(s("/opt/tar"))) {
        TarDecision::Run { mut job } => {
            assert_eq!(job.subject(), "x.tar");
            assert_eq!(job.step(ArchiveInput::Start, false).action, ArchiveAction::Probe(s("stdbuf")));
            job.step(ArchiveInput::Probed(false), false);
            match job.step(ArchiveInput::Measured(cokacdir::archive::calculate_tar_sizes(&vec![])), false).action {
                ArchiveAction::Spawn(cmd) => assert_eq!(cmd.program, "/opt/tar"),
                _ => panic!(),
            }
        }
        _ => panic!(),
    }
    let mut job =
        execute_tar_with_excludes("x.tar", &strings(&["a"]), &strings(&["a/l"]), Some(s("gtar"))).unwrap();
    assert_eq!(job.step(ArchiveInput::Start, false).action, ArchiveAction::Probe(s("stdbuf")));
    job.step(ArchiveInput::Probed(true), false);
    match job.step(ArchiveInput::Measured(cokacdir::archive::calculate_tar_sizes(&vec![])), false).action {
        ArchiveAction::Spawn(cmd) => {
            assert_eq!(cmd.program, "stdbuf");
            assert_eq!(cmd.args, strings(&["-o0", "-e0", "gtar", "cvfp", "x.tar", "--exclude=./a/l", "./a"]));
        }
        _ => panic!(),
    }
}

#[test]
fn a_missing_archiving_tool_is_told_before_any_job_exists() {
    assert_eq!(rejected(execute_tar("x.tar", strings(&["a"]), false, vec![], None)), "tar command not found");
    // links out of the tree are asked about first, whatever the tool
    match execute_tar("x.tar", strings(&["a", "d"]), false, strings(&["d/l"]), None) {
        TarDecision::ConfirmExclusions { state } => assert_eq!(
            state,
            TarExcludeState {
                archive_name: s("x.tar"),
                files: strings(&["a", "d"]),
                excluded_paths: strings(&["d/l"]),
                scroll_offset: 0,
            }
        ),
        _ => panic!("expected the question about the links"),
    }
    // what is wrong with the request itself is told first
    assert_eq!(rejected(execute_tar("x.tar", vec![], false, vec![], None)), "No files to archive");
    assert_eq!(
        execute_tar_with_excludes("x.tar", &strings(&["a"]), &strings(&[]), None).err(),
        Some(s("tar command not found"))
    );
    assert_eq!(
        refused(execute_untar("/w/a.tar.gz", Some("a.tar.gz"), true, true, false, None)),
        "tar command not found"
    );
    assert_eq!(refused(execute_untar("/w/a.tgz", Some("a.tgz"), true, false, false, None)), "Archive not found: a.tgz");
}

fn refused(d: UntarDecision) -> String {
    match d {
        UntarDecision::Rejected { message } => message,
        _ => panic!("expected a refusal"),
    }
}

#[test]
fn extract_requests_are_checked_before_anything_runs() {
    assert_eq!(refused(execute_untar("/", None, false, true, false, Some(s("gtar")))), "Invalid archive path");
    assert_eq!(
        refused(execute_untar("/w/a.tgz", Some("a.tgz"), true, false, true, Some(s("gtar")))),
        "Archive not found: a.tgz"
    );
    assert_eq!(refused(execute_untar("a.tgz", Some("a.tgz"), false, true, false, Some(s("gtar")))), "Invalid archive path");
    assert_eq!(
        refused(execute_untar("/w/a.tar.gz", Some("a.tar.gz"), true, true, true, Some(s("gtar")))),
        "Error: a already exists"
    );
    match execute_untar("/w/a.tar.gz", Some("a.tar.gz"), true, true, false, Some(s("gtar"))) {
        UntarDecision::Run { mut job, extract_dir } => {
            assert_eq!(extract_dir, "a");
            assert_eq!(job.subject(), "a");
            assert_eq!(job.step(ArchiveInput::Start, false).action, ArchiveAction::Probe(s("stdbuf")));
            assert_eq!(
                job.step(ArchiveInput::Probed(false), false).action,
                ArchiveAction::List(cokacdir::command::CommandLine {
                    program: s("gtar"),
                    args: strings(&["tvfz", "/w/a.tar.gz"]),
                })
            );
        }
        _ => panic!(),
    }
}

#[test]
fn links_that_leave_the_tree_are_picked_out() {
    assert!(path_is_within("/w", "/w"));
    assert!(path_is_within("/w/", "/w/a/b"));
    assert!(path_is_within("/w", "/w/a"));
    assert!(!path_is_within("/w", "/wx"));
    assert!(!path_is_within("/w", "/"));
    assert!(!path_is_within("/w/a", "/w"));
    assert!(path_is_within("/", "/etc/passwd"));
    assert!(!path_is_within("/w", "w/a"));
    let links = vec![
        SymlinkEntry { path: s("in"), target: Some(s("/w/a/file")) },
        SymlinkEntry { path: s("d/out"), target: Some(s("/etc/passwd")) },
        SymlinkEntry { path: s("d/broken"), target: None },
        SymlinkEntry { path: s("self"), target: Some(s("/w")) },
        SymlinkEntry { path: s("near"), target: Some(s("/w2/file")) },
    ];
    assert_eq!(filter_symlinks_for_tar("/w", &links), strings(&["d/out", "d/broken", "near"]));
    assert_eq!(filter_symlinks_for_tar("/w", &vec![]), Vec::<String>::new());
}

#[test]
fn cancel_state_is_never_taken_back() {
    let mut c = CancelState::new();
    assert!(!c.is_cancelled());
    assert!(c.may_start());
    assert!(!c.register_child(41));
    assert_eq!(c.child_pid, Some(41));
    assert_eq!(c.cancel(), Some(41));
    assert!(c.is_cancelled());
    assert!(!c.may_start());
    c.release_child();
    assert!(c.is_cancelled());
    assert_eq!(c.cancel(), None);
    // a child that is registered after the request is told to end at once
    assert!(c.register_child(42));
    assert!(c.is_cancelled());
    assert_eq!(c.cancel(), Some(42));
}

#[test]
fn a_directory_does_not_go_into_itself() {
    let f = cokacdir::validate::goes_into_itself;
    assert!(f(true, Some("/w/d"), Some("/w/d")));
    assert!(f(true, Some("/w/d"), Some("/w/d/sub/deep")));
    assert!(!f(true, Some("/w/d"), Some("/w/dx")));
    assert!(!f(true, Some("/w/d"), Some("/w")));
    assert!(!f(false, Some("/w/d"), Some("/w/d/sub")));
    assert!(!f(true, None, Some("/w/d")));
    assert!(!f(true, Some("/w/d"), None));
}
