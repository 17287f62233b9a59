use cokacdir::archive::{
    calculate_tar_sizes, child_tar_path, classify_output_line, compression, extract_dir_name,
    failure_text, is_archive_file, is_archive_name, list_archive_contents, root_tar_path,
    tar_create_args, tar_create_options, tar_extract_args, tar_extract_options, tar_list_args,
    resolve_tar_tool, tar_list_options, tool_command, Buffering, Compression, OutputLine,
    SourceEntry, ToolProbe,
};
use cokacdir::archive_job::{
    ArchiveAction, ArchiveInput, ArchiveJob, ArchiveStep, ExitReport,
};
use cokacdir::command::CommandLine;
use cokacdir::progress::ProgressMessage;

fn s(t: &str) -> String {
    t.to_string()
}

fn strings(list: &[&str]) -> Vec<String> {
    list.iter().map(|t| t.to_string()).collect()
}

#[test]
fn compression_goes_by_the_ending() {
    assert_eq!(compression("a.tar.gz"), Compression::Gzip);
    assert_eq!(compression("a.tgz"), Compression::Gzip);
    assert_eq!(compression("a.tar.bz2"), Compression::Bzip2);
    assert_eq!(compression("a.tbz2"), Compression::Bzip2);
    assert_eq!(compression("a.tar.xz"), Compression::Xz);
    assert_eq!(compression("a.txz"), Compression::Xz);
    assert_eq!(compression("a.tar"), Compression::Plain);
    assert_eq!(compression("a.TAR.GZ"), Compression::Plain);
    assert_eq!(compression("gz"), Compression::Plain);
    assert_eq!(tar_create_options("x.tar.gz"), "cvfpz");
    assert_eq!(tar_create_options("x.tbz2"), "cvfpj");
    assert_eq!(tar_create_options("x.txz"), "cvfpJ");
    assert_eq!(tar_create_options("x.zip"), "cvfp");
    assert_eq!(tar_list_options("x.tgz"), "tvfz");
    assert_eq!(tar_list_options("x.tar"), "tvf");
    assert_eq!(tar_extract_options("x.tar.xz"), "xvfpJ");
    assert_eq!(tar_extract_options("x.tar.bz2"), "xvfpj");
}

#[test]
fn archive_names_are_known_whatever_their_case() {
    for name in ["a.tar", "a.tar.gz", "a.tgz", "a.tar.bz2", "a.tbz2", "a.tar.xz", "a.txz", "A.TAR.GZ", "b.Tgz"] {
        assert!(is_archive_file(name), "{}", name);
    }
    for name in ["a.zip", "tar", "a.tar.gz.bak", "", "a.gz"] {
        assert!(!is_archive_file(name), "{}", name);
    }
    assert!(!is_archive_name("A.TAR"));
    assert!(is_archive_name("a.tar"));
}

#[test]
fn extract_dir_name_cuts_archive_endings() {
    assert_eq!(extract_dir_name("data.tar.gz"), "data");
    assert_eq!(extract_dir_name("data.tgz"), "data");
    assert_eq!(extract_dir_name("data.tar.bz2"), "data");
    assert_eq!(extract_dir_name("data.tbz2"), "data");
    assert_eq!(extract_dir_name("data.tar.xz"), "data");
    assert_eq!(extract_dir_name("data.txz"), "data");
    assert_eq!(extract_dir_name("data.tar"), "data");
    assert_eq!(extract_dir_name("data.tar.tar"), "data");
    assert_eq!(extract_dir_name("data.tar.gz.tar.gz"), "data");
    assert_eq!(extract_dir_name("data.tar.tgz"), "data");
    assert_eq!(extract_dir_name("data.tgz.tar.gz"), "data");
    assert_eq!(extract_dir_name("data.tar.gz.tgz"), "data.tar.gz");
    assert_eq!(extract_dir_name("data.zip"), "data.zip");
    assert_eq!(extract_dir_name(".tar"), "");
}

#[test]
fn create_args_list_options_name_excludes_files() {
    assert_eq!(
        tar_create_args("out.tar.gz", &strings(&["a", "dir b"]), &strings(&["dir b/link"])),
        strings(&["cvfpz", "out.tar.gz", "--exclude=./dir b/link", "./a", "./dir b"])
    );
    assert_eq!(tar_create_args("o.tar", &strings(&[]), &strings(&[])), strings(&["cvfp", "o.tar"]));
    assert_eq!(tar_list_args("o.tgz", "/p/o.tgz"), strings(&["tvfz", "/p/o.tgz"]));
    assert_eq!(tar_extract_args("o.tar.xz", "/p/o.tar.xz"), strings(&["xvfpJ", "/p/o.tar.xz"]));
}

#[test]
fn tool_command_goes_through_stdbuf_when_there() {
    let args = strings(&["cvfp", "o.tar", "./a"]);
    assert_eq!(
        tool_command(true, Buffering::Off, "gtar", &args),
        CommandLine { program: s("stdbuf"), args: strings(&["-o0", "-e0", "gtar", "cvfp", "o.tar", "./a"]) }
    );
    assert_eq!(
        tool_command(true, Buffering::Line, "tar", &args),
        CommandLine { program: s("stdbuf"), args: strings(&["-oL", "-eL", "tar", "cvfp", "o.tar", "./a"]) }
    );
    assert_eq!(
        tool_command(false, Buffering::Line, "/opt/tar", &args),
        CommandLine { program: s("/opt/tar"), args: args.clone() }
    );
}

#[test]
fn output_lines_are_entries_or_complaints() {
    assert_eq!(classify_output_line("./a/b.txt\n"), OutputLine::Entry(s("./a/b.txt")));
    assert_eq!(classify_output_line("./a b  \r\n"), OutputLine::Entry(s("./a b")));
    assert_eq!(classify_output_line("tar: ./x: Cannot open\n"), OutputLine::Failure(s("tar: ./x: Cannot open")));
    assert_eq!(classify_output_line("gtar: oops"), OutputLine::Failure(s("gtar: oops")));
    assert_eq!(classify_output_line("  tar: indented"), OutputLine::Entry(s("  tar: indented")));
    assert_eq!(classify_output_line("\n"), OutputLine::Blank);
    assert_eq!(classify_output_line("   "), OutputLine::Blank);
    assert_eq!(classify_output_line(""), OutputLine::Blank);
}

#[test]
fn failure_text_prefers_the_complaint() {
    assert_eq!(failure_text(&Some(s("tar: bad")), "other\n", "fallback"), "tar: bad");
    assert_eq!(failure_text(&None, "first line\nsecond\n", "fallback"), "first line");
    assert_eq!(failure_text(&None, "  \n\t", "fallback"), "fallback");
    assert_eq!(failure_text(&None, "", "fallback"), "fallback");
    assert_eq!(failure_text(&None, "\nafter blank", "fallback"), "");
}

#[test]
fn listing_is_read_from_the_table_of_contents() {
    let out = "-rw-r--r-- user/group    1234 2024-01-01 12:00 ./a.txt\n\
               drwxr-xr-x user/group       0 2024-01-01 12:00 ./dir/\n\
               -rw-r--r-- user/group      10 2024-01-01 12:00 ./dir/with space.txt\n\
               short line\n\
               -rw-r--r-- user/group     big 2024-01-01 12:00 ./odd\n";
    let l = list_archive_contents(Some(out));
    assert_eq!(l.total_files, 4);
    assert_eq!(l.total_bytes, 1244);
    assert_eq!(l.sizes.len(), 3);
    assert_eq!(l.sizes.get("./a.txt"), Some(&1234));
    assert_eq!(l.sizes.get("./dir/"), Some(&0));
    assert_eq!(l.sizes.get("./dir/with space.txt"), Some(&10));
    assert_eq!(l.sizes.get("./odd"), None);
    let none = list_archive_contents(None);
    assert_eq!((none.total_files, none.total_bytes, none.sizes.len()), (0, 0, 0));
    let empty = list_archive_contents(Some(""));
    assert_eq!(empty.total_files, 0);
    let huge = format!("- u {} d t a\n- u {} d t b\n", u64::MAX, 5);
    assert_eq!(list_archive_contents(Some(&huge)).total_bytes, u64::MAX);
}

#[test]
fn sizes_are_added_up_from_what_is_on_disk() {
    let entries = vec![
        SourceEntry { tar_path: root_tar_path("dir"), size: 4096, is_directory: true },
        SourceEntry { tar_path: child_tar_path("./dir", "a"), size: 100, is_directory: false },
        SourceEntry { tar_path: child_tar_path("./dir", "b"), size: 20, is_directory: false },
        SourceEntry { tar_path: s("./dir/b"), size: 25, is_directory: false },
    ];
    let l = calculate_tar_sizes(&entries);
    assert_eq!(l.total_files, 3);
    assert_eq!(l.total_bytes, 145);
    assert_eq!(l.sizes.get("./dir"), Some(&0));
    assert_eq!(l.sizes.get("./dir/a"), Some(&100));
    assert_eq!(l.sizes.get("./dir/b"), Some(&25));
    let none = calculate_tar_sizes(&[].to_vec());
    assert_eq!((none.total_files, none.total_bytes), (0, 0));
}

fn step(job: &mut ArchiveJob, input: ArchiveInput, cancelled: bool) -> (Vec<ProgressMessage>, bool, bool, ArchiveAction) {
    let ArchiveStep { messages, kill, cleanup, action } = job.step(input, cancelled);
    (messages, kill, cleanup, action)
}

fn create_job_up_to_reading(custom: Option<&str>) -> ArchiveJob {
    let tool = custom.unwrap_or("tar");
    let mut job = ArchiveJob::create("out.tar.gz", &strings(&["a", "d"]), &strings(&["d/l"]), s(tool));
    assert_eq!(job.subject(), "out.tar.gz");
    assert_eq!(
        step(&mut job, ArchiveInput::Start, false),
        (vec![ProgressMessage::Preparing(s("Checking tar command..."))], false, false, ArchiveAction::Probe(s("stdbuf")))
    );
    assert_eq!(
        step(&mut job, ArchiveInput::Probed(false), false),
        (vec![ProgressMessage::Preparing(s("Calculating file sizes..."))], false, false, ArchiveAction::Measure)
    );
    let listing = calculate_tar_sizes(&vec![
        SourceEntry { tar_path: s("./a"), size: 10, is_directory: false },
        SourceEntry { tar_path: s("./d"), size: 0, is_directory: true },
        SourceEntry { tar_path: s("./d/x"), size: 5, is_directory: false },
    ]);
    assert_eq!(
        step(&mut job, ArchiveInput::Measured(listing), false),
        (
            vec![ProgressMessage::PrepareComplete, ProgressMessage::TotalProgress(0, 3, 0, 15)],
            false,
            false,
            ArchiveAction::Spawn(CommandLine {
                program: s(tool),
                args: strings(&["cvfpz", "out.tar.gz", "--exclude=./d/l", "./a", "./d"]),
            })
        )
    );
    assert_eq!(step(&mut job, ArchiveInput::Spawned(None), false), (vec![], false, false, ArchiveAction::ReadLine));
    job
}

#[test]
fn archive_creation_runs_to_success() {
    let mut job = create_job_up_to_reading(None);
    assert_eq!(
        step(&mut job, ArchiveInput::Line(Some(s("./a\n"))), false),
        (
            vec![
                ProgressMessage::FileStarted(s("./a")),
                ProgressMessage::FileCompleted(s("./a")),
                ProgressMessage::TotalProgress(1, 3, 10, 15),
            ],
            false,
            false,
            ArchiveAction::ReadLine
        )
    );
    assert_eq!(step(&mut job, ArchiveInput::Line(Some(s("\n"))), false), (vec![], false, false, ArchiveAction::ReadLine));
    assert_eq!(
        step(&mut job, ArchiveInput::Line(Some(s("./unknown\n"))), false).0[2],
        ProgressMessage::TotalProgress(2, 3, 10, 15)
    );
    assert_eq!(step(&mut job, ArchiveInput::Line(None), false), (vec![], false, false, ArchiveAction::Wait));
    assert!(!job.is_finished());
    assert_eq!(
        step(&mut job, ArchiveInput::Exited(ExitReport::Success), false),
        (vec![ProgressMessage::Completed(2, 0)], false, false, ArchiveAction::Done)
    );
    assert!(job.is_finished());
    assert!(job.succeeded());
    assert_eq!(step(&mut job, ArchiveInput::Start, true), (vec![], false, false, ArchiveAction::Done));
}

#[test]
fn archive_creation_killed_mid_run_removes_the_partial_archive() {
    // the tool fails
    let mut job = create_job_up_to_reading(Some("/opt/tar"));
    step(&mut job, ArchiveInput::Line(Some(s("./a"))), false);
    step(&mut job, ArchiveInput::Line(Some(s("tar: ./d: Cannot stat"))), false);
    step(&mut job, ArchiveInput::Line(None), false);
    assert_eq!(
        step(&mut job, ArchiveInput::Exited(ExitReport::Failed(s("stderr text\n"))), false),
        (
            vec![ProgressMessage::Error(s("out.tar.gz"), s("tar: ./d: Cannot stat")), ProgressMessage::Completed(0, 1)],
            false,
            true,
            ArchiveAction::Done
        )
    );
    assert!(job.is_finished());
    assert!(!job.succeeded());
    // the tool fails without a complaint on its output
    let mut job = create_job_up_to_reading(None);
    step(&mut job, ArchiveInput::Line(None), false);
    assert_eq!(
        step(&mut job, ArchiveInput::Exited(ExitReport::Failed(s("disk full\nmore\n"))), false),
        (
            vec![ProgressMessage::Error(s("out.tar.gz"), s("disk full")), ProgressMessage::Completed(0, 1)],
            false,
            true,
            ArchiveAction::Done
        )
    );
    let mut job = create_job_up_to_reading(None);
    step(&mut job, ArchiveInput::Line(None), false);
    assert_eq!(
        step(&mut job, ArchiveInput::Exited(ExitReport::Failed(s(""))), false).0[0],
        ProgressMessage::Error(s("out.tar.gz"), s("tar command failed"))
    );
    // waiting fails
    let mut job = create_job_up_to_reading(None);
    step(&mut job, ArchiveInput::Line(None), false);
    assert_eq!(
        step(&mut job, ArchiveInput::Exited(ExitReport::WaitFailed(s("EINTR"))), false),
        (
            vec![ProgressMessage::Error(s("out.tar.gz"), s("EINTR")), ProgressMessage::Completed(0, 1)],
            false,
            true,
            ArchiveAction::Done
        )
    );
    // the user cancels while the tool runs
    let mut job = create_job_up_to_reading(None);
    step(&mut job, ArchiveInput::Line(Some(s("./a"))), false);
    assert_eq!(
        step(&mut job, ArchiveInput::Line(Some(s("./d"))), true),
        (
            vec![ProgressMessage::Error(s("out.tar.gz"), s("Cancelled")), ProgressMessage::Completed(1, 0)],
            true,
            true,
            ArchiveAction::Done
        )
    );
    assert!(job.is_finished());
}

#[test]
fn no_job_exists_when_no_tool_answers() {
    let none = ToolProbe { configured: false, gtar: false, tar: false };
    assert_eq!(resolve_tar_tool(&None, none), None);
    assert_eq!(resolve_tar_tool(&None, ToolProbe { configured: false, gtar: true, tar: true }), Some(s("gtar")));
    assert_eq!(resolve_tar_tool(&None, ToolProbe { configured: false, gtar: false, tar: true }), Some(s("tar")));
    assert_eq!(resolve_tar_tool(&None, ToolProbe { configured: true, gtar: false, tar: false }), None);
    // a tool named in the settings is the only one tried
    let all_but_it = ToolProbe { configured: false, gtar: true, tar: true };
    assert_eq!(resolve_tar_tool(&Some(s("/x/tar")), all_but_it), None);
    assert_eq!(
        resolve_tar_tool(&Some(s("/x/tar")), ToolProbe { configured: true, gtar: true, tar: true }),
        Some(s("/x/tar"))
    );
}

#[test]
fn archive_job_cancelled_before_spawning_leaves_nothing_to_clean() {
    let mut job = ArchiveJob::create("o.tar", &strings(&["a"]), &strings(&[]), s("tar"));
    assert_eq!(
        step(&mut job, ArchiveInput::Start, true),
        (
            vec![ProgressMessage::Error(s("o.tar"), s("Cancelled")), ProgressMessage::Completed(0, 0)],
            false,
            false,
            ArchiveAction::Done
        )
    );
    let mut job = ArchiveJob::create("o.tar", &strings(&["a"]), &strings(&[]), s("tar"));
    step(&mut job, ArchiveInput::Start, false);
    assert_eq!(step(&mut job, ArchiveInput::Probed(true), true).2, false);
    let mut job = ArchiveJob::create("o.tar", &strings(&["a"]), &strings(&[]), s("tar"));
    step(&mut job, ArchiveInput::Start, false);
    step(&mut job, ArchiveInput::Probed(true), false);
    assert_eq!(
        step(&mut job, ArchiveInput::Measured(calculate_tar_sizes(&vec![])), true),
        (
            vec![ProgressMessage::Error(s("o.tar"), s("Cancelled")), ProgressMessage::Completed(0, 0)],
            false,
            false,
            ArchiveAction::Done
        )
    );
}

#[test]
fn archive_job_spawn_failure_cleans_up() {
    let mut job = ArchiveJob::create("o.tar", &strings(&["a"]), &strings(&[]), s("gtar"));
    step(&mut job, ArchiveInput::Start, false);
    let (_, _, _, action) = step(&mut job, ArchiveInput::Probed(true), false);
    assert_eq!(action, ArchiveAction::Measure);
    let (_, _, _, action) = step(&mut job, ArchiveInput::Measured(calculate_tar_sizes(&vec![])), false);
    assert_eq!(
        action,
        ArchiveAction::Spawn(CommandLine {
            program: s("stdbuf"),
            args: strings(&["-o0", "-e0", "gtar", "cvfp", "o.tar", "./a"]),
        })
    );
    assert_eq!(
        step(&mut job, ArchiveInput::Spawned(Some(s("ENOENT"))), false),
        (
            vec![ProgressMessage::Error(s("o.tar"), s("Failed to run tar: ENOENT")), ProgressMessage::Completed(0, 1)],
            false,
            true,
            ArchiveAction::Done
        )
    );
}

#[test]
fn archive_job_rejects_reports_out_of_turn() {
    let mut job = ArchiveJob::create("o.tar", &strings(&["a"]), &strings(&[]), s("tar"));
    assert_eq!(
        step(&mut job, ArchiveInput::Probed(true), false),
        (
            vec![ProgressMessage::Error(s("o.tar"), s("Unexpected event")), ProgressMessage::Completed(0, 1)],
            false,
            false,
            ArchiveAction::Done
        )
    );
    let mut job = create_job_up_to_reading(None);
    assert_eq!(step(&mut job, ArchiveInput::Start, false).1, true);
    assert!(job.is_finished());
}

#[test]
fn archive_extraction_lists_makes_the_directory_and_runs() {
    let mut job = ArchiveJob::extract("/w/data.tar.gz", "data.tar.gz", s("gtar"));
    assert_eq!(job.subject(), "data");
    step(&mut job, ArchiveInput::Start, false);
    assert_eq!(
        step(&mut job, ArchiveInput::Probed(true), false),
        (
            vec![ProgressMessage::Preparing(s("Reading archive contents..."))],
            false,
            false,
            ArchiveAction::List(CommandLine { program: s("gtar"), args: strings(&["tvfz", "/w/data.tar.gz"]) })
        )
    );
    let listing = list_archive_contents(Some("-rw-r--r-- u/g 7 2024-01-01 12:00 a.txt\n"));
    assert_eq!(step(&mut job, ArchiveInput::Measured(listing), false), (vec![], false, false, ArchiveAction::MakeDirectory));
    assert_eq!(
        step(&mut job, ArchiveInput::DirectoryMade(None), false),
        (
            vec![ProgressMessage::PrepareComplete, ProgressMessage::TotalProgress(0, 1, 0, 7)],
            false,
            false,
            ArchiveAction::Spawn(CommandLine {
                program: s("stdbuf"),
                args: strings(&["-oL", "-eL", "gtar", "xvfpz", "/w/data.tar.gz"]),
            })
        )
    );
    step(&mut job, ArchiveInput::Spawned(None), false);
    assert_eq!(
        step(&mut job, ArchiveInput::Line(Some(s("a.txt"))), false).0[2],
        ProgressMessage::TotalProgress(1, 1, 7, 7)
    );
    step(&mut job, ArchiveInput::Line(None), false);
    assert_eq!(
        step(&mut job, ArchiveInput::Exited(ExitReport::Failed(s(" "))), false),
        (
            vec![ProgressMessage::Error(s("data"), s("tar extraction failed")), ProgressMessage::Completed(0, 1)],
            false,
            true,
            ArchiveAction::Done
        )
    );
}

#[test]
fn archive_extraction_stops_on_empty_listing_or_directory_failure() {
    let mut job = ArchiveJob::extract("/w/d.tar", "d.tar", s("gtar"));
    step(&mut job, ArchiveInput::Start, false);
    step(&mut job, ArchiveInput::Probed(false), false);
    assert_eq!(
        step(&mut job, ArchiveInput::Measured(list_archive_contents(None)), false),
        (
            vec![
                ProgressMessage::Error(s("d"), s("Archive appears to be empty or corrupted")),
                ProgressMessage::Completed(0, 1)
            ],
            false,
            false,
            ArchiveAction::Done
        )
    );
    let mut job = ArchiveJob::extract("/w/d.tar", "d.tar", s("gtar"));
    step(&mut job, ArchiveInput::Start, false);
    step(&mut job, ArchiveInput::Probed(false), false);
    step(&mut job, ArchiveInput::Measured(list_archive_contents(Some("a b 1 d t n\n"))), false);
    assert_eq!(
        step(&mut job, ArchiveInput::DirectoryMade(Some(s("exists"))), false),
        (
            vec![
                ProgressMessage::Error(s("d"), s("Failed to create directory: exists")),
                ProgressMessage::Completed(0, 1)
            ],
            false,
            false,
            ArchiveAction::Done
        )
    );
    // cancelled right after the directory was made: the directory is removed
    let mut job = ArchiveJob::extract("/w/d.tar", "d.tar", s("gtar"));
    step(&mut job, ArchiveInput::Start, false);
    step(&mut job, ArchiveInput::Probed(false), false);
    step(&mut job, ArchiveInput::Measured(list_archive_contents(Some("a b 1 d t n\n"))), false);
    step(&mut job, ArchiveInput::DirectoryMade(None), false);
    // the tool has been started when the job sees that it is to stop: it is killed too
    assert_eq!(
        step(&mut job, ArchiveInput::Spawned(None), true),
        (
            vec![ProgressMessage::Error(s("d"), s("Cancelled")), ProgressMessage::Completed(0, 0)],
            true,
            true,
            ArchiveAction::Done
        )
    );
    // the tool could not be started: there is none to kill
    let mut job = ArchiveJob::extract("/w/d.tar", "d.tar", s("gtar"));
    step(&mut job, ArchiveInput::Start, false);
    step(&mut job, ArchiveInput::Probed(false), false);
    step(&mut job, ArchiveInput::Measured(list_archive_contents(Some("a b 1 d t n\n"))), false);
    step(&mut job, ArchiveInput::DirectoryMade(None), false);
    assert_eq!(step(&mut job, ArchiveInput::Spawned(Some(s("ENOENT"))), true).1, false);
}

#[test]
fn cancel_seen_with_the_directory_made_removes_the_directory() {
    let mut job = ArchiveJob::extract("/w/d.tar", "d.tar", s("tar"));
    step(&mut job, ArchiveInput::Start, false);
    step(&mut job, ArchiveInput::Probed(false), false);
    step(&mut job, ArchiveInput::Measured(list_archive_contents(Some("a b 1 d t n\n"))), false);
    assert_eq!(
        step(&mut job, ArchiveInput::DirectoryMade(None), true),
        (
            vec![ProgressMessage::Error(s("d"), s("Cancelled")), ProgressMessage::Completed(0, 0)],
            false,
            true,
            ArchiveAction::Done
        )
    );
    assert!(job.is_finished());
    // the directory could not be made: it is not the job's to remove
    let mut job = ArchiveJob::extract("/w/d.tar", "d.tar", s("tar"));
    step(&mut job, ArchiveInput::Start, false);
    step(&mut job, ArchiveInput::Probed(false), false);
    step(&mut job, ArchiveInput::Measured(list_archive_contents(Some("a b 1 d t n\n"))), false);
    assert_eq!(step(&mut job, ArchiveInput::DirectoryMade(Some(s("File exists"))), true).2, false);
    // a report that the directory was made, out of turn, makes nothing the job's own
    let mut job = ArchiveJob::extract("/w/d.tar", "d.tar", s("tar"));
    step(&mut job, ArchiveInput::Start, false);
    assert_eq!(step(&mut job, ArchiveInput::DirectoryMade(None), true).2, false);
}

#[test]
fn a_tool_that_has_ended_well_is_not_undone_by_a_late_cancel() {
    let mut job = create_job_up_to_reading(None);
    step(&mut job, ArchiveInput::Line(Some(s("./a"))), false);
    step(&mut job, ArchiveInput::Line(None), false);
    assert_eq!(
        step(&mut job, ArchiveInput::Exited(ExitReport::Success), true),
        (vec![ProgressMessage::Completed(1, 0)], false, false, ArchiveAction::Done)
    );
    assert!(job.succeeded());
    // the tool failed: what it left is removed, and there is no tool left to kill
    let mut job = create_job_up_to_reading(None);
    step(&mut job, ArchiveInput::Line(None), false);
    assert_eq!(
        step(&mut job, ArchiveInput::Exited(ExitReport::Failed(s("killed"))), true),
        (
            vec![ProgressMessage::Error(s("out.tar.gz"), s("Cancelled")), ProgressMessage::Completed(0, 0)],
            false,
            true,
            ArchiveAction::Done
        )
    );
    // the output has ended but the tool has not: it is killed
    let mut job = create_job_up_to_reading(None);
    assert_eq!(step(&mut job, ArchiveInput::Line(None), true).1, true);
}
