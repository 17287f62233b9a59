use cokacdir::batch::{BatchStep, FileOutcome};
use cokacdir::copying::{copy_job, plan_copy, CopyStep, FileCopy, TreeNode};
use cokacdir::progress::ProgressMessage;

fn s(t: &str) -> String {
    t.to_string()
}

fn file(path: &str, size: u64) -> TreeNode {
    TreeNode { path: s(path), is_directory: false, size }
}

fn dir(path: &str, size: u64) -> TreeNode {
    TreeNode { path: s(path), is_directory: true, size }
}

fn step(path: &str, is_directory: bool, size: u64, skip: bool) -> CopyStep {
    CopyStep { path: s(path), is_directory, size, skip }
}

#[test]
fn plan_lists_a_directory_file_by_file() {
    let names = vec![s("a.txt"), s("docs")];
    let walks = vec![
        vec![file("a.txt", 5)],
        vec![dir("docs", 4096), file("docs/x", 7), dir("docs/sub", 4096), file("docs/sub/y", 9)],
    ];
    let plan = plan_copy(&names, &vec![false, false], &walks).unwrap();
    assert_eq!(
        plan,
        vec![
            step("a.txt", false, 5, false),
            step("docs", true, 0, false),
            step("docs/x", false, 7, false),
            step("docs/sub", true, 0, false),
            step("docs/sub/y", false, 9, false),
        ]
    );
}

#[test]
fn plan_keeps_one_step_for_an_entry_left_out_or_not_found() {
    let names = vec![s("skipped"), s("gone"), s("b")];
    let walks = vec![vec![dir("skipped", 1), file("skipped/x", 3)], vec![], vec![file("b", 2)]];
    let plan = plan_copy(&names, &vec![true, false, false], &walks).unwrap();
    assert_eq!(
        plan,
        vec![
            step("skipped", false, 0, true),
            step("gone", false, 0, false),
            step("b", false, 2, false),
        ]
    );
}

#[test]
fn plan_wants_lists_of_one_length() {
    assert!(plan_copy(&vec![s("a")], &vec![], &vec![vec![]]).is_none());
    assert!(plan_copy(&vec![s("a")], &vec![false], &vec![]).is_none());
    assert_eq!(plan_copy(&vec![], &vec![], &vec![]), Some(vec![]));
}

#[test]
fn copy_job_reports_a_pair_of_events_for_every_step() {
    let steps = vec![
        step("docs", true, 0, false),
        step("docs/x", false, 7, false),
        step("skipped", false, 0, true),
        step("b", false, 2, false),
    ];
    let (mut job, opening) = copy_job(&steps);
    assert_eq!(opening, vec![ProgressMessage::TotalProgress(0, 3, 0, 9)]);
    assert_eq!(job.begin(false), (BatchStep::Run(0), vec![ProgressMessage::FileStarted(s("docs"))]));
    assert_eq!(
        job.finish(FileOutcome::Done),
        vec![ProgressMessage::FileCompleted(s("docs")), ProgressMessage::TotalProgress(1, 3, 0, 9)]
    );
    assert_eq!(job.begin(false), (BatchStep::Run(1), vec![ProgressMessage::FileStarted(s("docs/x"))]));
    assert_eq!(
        job.finish(FileOutcome::Failed(s("disk full"))),
        vec![ProgressMessage::Error(s("docs/x"), s("disk full"))]
    );
    assert_eq!(job.begin(false), (BatchStep::Run(3), vec![ProgressMessage::FileStarted(s("b"))]));
    assert_eq!(
        job.finish(FileOutcome::Done),
        vec![ProgressMessage::FileCompleted(s("b")), ProgressMessage::TotalProgress(2, 3, 2, 9)]
    );
    assert_eq!(job.begin(false), (BatchStep::Finished, vec![ProgressMessage::Completed(2, 1)]));
    assert_eq!(job.success_count() + job.failure_count(), job.attempted());
}

#[test]
fn file_copy_reports_first_chunk_then_waits_for_the_interval() {
    let mut copy = FileCopy::new(100, 50);
    assert_eq!(copy.advance(10, 0), Some(ProgressMessage::FileProgress(10, 100)));
    assert_eq!(copy.advance(10, 49), None);
    assert_eq!(copy.copied, 20);
    assert_eq!(copy.advance(10, 50), Some(ProgressMessage::FileProgress(30, 100)));
    assert_eq!(copy.advance(10, 99), None);
    assert_eq!(copy.advance(10, 100), Some(ProgressMessage::FileProgress(50, 100)));
}

#[test]
fn file_copy_always_reports_the_last_byte() {
    let mut copy = FileCopy::new(30, 1000);
    assert_eq!(copy.advance(10, 0), Some(ProgressMessage::FileProgress(10, 30)));
    assert_eq!(copy.advance(10, 1), None);
    assert_eq!(copy.advance(10, 2), Some(ProgressMessage::FileProgress(30, 30)));
}

#[test]
fn file_copy_reports_when_the_clock_was_set_back() {
    let mut copy = FileCopy::new(100, 50);
    assert_eq!(copy.advance(1, 500), Some(ProgressMessage::FileProgress(1, 100)));
    assert_eq!(copy.advance(1, 400), Some(ProgressMessage::FileProgress(2, 100)));
    assert_eq!(copy.last_report, Some(400));
}

#[test]
fn file_copy_count_stops_at_the_largest_number() {
    let mut copy = FileCopy::new(u64::MAX, 0);
    copy.advance(u64::MAX - 1, 0);
    assert_eq!(copy.advance(5, 1), Some(ProgressMessage::FileProgress(u64::MAX, u64::MAX)));
}

#[test]
fn batch_hands_out_its_names_and_flags() {
    let job = cokacdir::batch::BatchJob::new(vec![s("a"), s("b")], vec![false, true]).unwrap();
    assert_eq!(job.names(), &vec![s("a"), s("b")]);
    assert_eq!(job.skips(), &vec![false, true]);
}
