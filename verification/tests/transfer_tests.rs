use cokacdir::batch::FileOutcome;
use cokacdir::command::CommandLine;
use cokacdir::progress::ProgressMessage;
use cokacdir::staged_job::{
    staging_dir_name, transfer_remote_to_remote_with_progress, StagedAction, StagedInput,
    StagedJob, StagedStep,
};
use cokacdir::transfer::{
    build_remote_spec, build_ssh_option, endpoints, expand_key_path, join_path,
    login_needs_sshpass, parse_rsync_progress, rsync_command, scp_command, select_transport,
    sftp_transfer, source_path, ssh_option, wrap_with_sshpass, RemoteAuth, RemoteProfile,
    SftpTransfer, TransferConfig, TransferDirection, Transport,
};
use cokacdir::transfer_job::{
    exit_outcome, file_action, is_same_login, Session, transfer_files_with_progress, watch_tool, ToolExit, ToolReport,
    TransferAction, WatchAction,
};

fn s(t: &str) -> String {
    t.to_string()
}

fn strings(list: &[&str]) -> Vec<String> {
    list.iter().map(|t| t.to_string()).collect()
}

fn key_profile() -> RemoteProfile {
    RemoteProfile {
        host: s("example.org"),
        port: 2222,
        user: s("alice"),
        auth: RemoteAuth::KeyFile { path: s("~/.ssh/id_ed25519"), passphrase: None },
    }
}

fn password_profile() -> RemoteProfile {
    RemoteProfile {
        host: s("h"),
        port: 22,
        user: s("bob"),
        auth: RemoteAuth::Password { password: s("pw") },
    }
}

const HOST_KEY_OPTIONS: &str =
    " -o StrictHostKeyChecking=no -o UserKnownHostsFile=/dev/null -o LogLevel=ERROR";

#[test]
fn remote_spec_joins_user_host_and_path() {
    assert_eq!(build_remote_spec(&key_profile(), "/data/x"), "alice@example.org:/data/x");
    assert_eq!(build_remote_spec(&password_profile(), ""), "bob@h:");
}

#[test]
fn paths_are_joined_like_the_system_does() {
    assert_eq!(join_path("/src", "b.txt"), "/src/b.txt");
    assert_eq!(join_path("/src/", "b.txt"), "/src/b.txt");
    assert_eq!(join_path("/src", "/abs"), "/abs");
    assert_eq!(join_path("", "b"), "b");
    assert_eq!(join_path("/home/u", ""), "/home/u/");
    assert_eq!(join_path("/", "x"), "/x");
    for (d, n) in [("/src", "b.txt"), ("/src/", "b"), ("/src", "/abs"), ("", "b"), ("/h", ""), ("a", "b/c")] {
        assert_eq!(join_path(d, n), std::path::Path::new(d).join(n).to_string_lossy());
    }
}

#[test]
fn key_paths_are_taken_from_home() {
    assert_eq!(expand_key_path("~/.ssh/id", Some("/home/a")), "/home/a/.ssh/id");
    assert_eq!(expand_key_path("~~//k", Some("/home/a/")), "/home/a/k");
    assert_eq!(expand_key_path("~", Some("/home/a")), "/home/a/");
    assert_eq!(expand_key_path("~/.ssh/id", None), "~/.ssh/id");
    assert_eq!(expand_key_path("/etc/key", Some("/home/a")), "/etc/key");
    assert_eq!(expand_key_path("", Some("/home/a")), "");
}

#[test]
fn ssh_option_names_port_and_key() {
    assert_eq!(
        ssh_option(&key_profile(), Some("/home/alice")),
        format!("ssh -p 2222 -i '/home/alice/.ssh/id_ed25519'{}", HOST_KEY_OPTIONS)
    );
    assert_eq!(ssh_option(&password_profile(), Some("/home/x")), format!("ssh{}", HOST_KEY_OPTIONS));
    assert_eq!(build_ssh_option(&password_profile()), format!("ssh{}", HOST_KEY_OPTIONS));
    let mut p = password_profile();
    p.port = 65535;
    assert_eq!(ssh_option(&p, None), format!("ssh -p 65535{}", HOST_KEY_OPTIONS));
    p.port = 0;
    assert_eq!(ssh_option(&p, None), format!("ssh -p 0{}", HOST_KEY_OPTIONS));
    let built = build_ssh_option(&key_profile());
    assert!(built.starts_with("ssh -p 2222 -i '"));
    assert!(built.ends_with(HOST_KEY_OPTIONS));
}

#[test]
fn sshpass_wraps_password_logins_only() {
    let cmd = CommandLine { program: s("scp"), args: strings(&["-r", "a", "b"]) };
    assert_eq!(
        wrap_with_sshpass(cmd.clone(), &password_profile(), true),
        CommandLine { program: s("sshpass"), args: strings(&["-p", "pw", "scp", "-r", "a", "b"]) }
    );
    assert_eq!(wrap_with_sshpass(cmd.clone(), &password_profile(), false), cmd);
    assert_eq!(wrap_with_sshpass(cmd.clone(), &key_profile(), true), cmd);
}

fn upload_config(profile: RemoteProfile) -> TransferConfig {
    TransferConfig {
        direction: TransferDirection::LocalToRemote,
        profile,
        source_files: strings(&["a.txt", "dir/b"]),
        source_base: s("/local/base//"),
        target_path: s("/remote/target"),
    }
}

#[test]
fn endpoints_follow_the_direction() {
    assert_eq!(source_path("/base/", "f"), "/base/f");
    assert_eq!(source_path("/base", "f"), "/base/f");
    assert_eq!(source_path("/", "f"), "/f");
    assert_eq!(source_path("", "f"), "/f");
    let up = upload_config(key_profile());
    assert_eq!(endpoints(&up, "a.txt"), (s("/local/base/a.txt"), s("alice@example.org:/remote/target")));
    let mut down = upload_config(key_profile());
    down.direction = TransferDirection::RemoteToLocal;
    assert_eq!(endpoints(&down, "a.txt"), (s("alice@example.org:/local/base/a.txt"), s("/remote/target")));
}

#[test]
fn rsync_and_scp_commands() {
    let up = upload_config(key_profile());
    assert_eq!(
        rsync_command(&up, "a.txt", Some("/home/alice"), false),
        CommandLine {
            program: s("rsync"),
            args: vec![
                s("-avz"),
                s("--info=progress2"),
                s("--no-inc-recursive"),
                s("-e"),
                format!("ssh -p 2222 -i '/home/alice/.ssh/id_ed25519'{}", HOST_KEY_OPTIONS),
                s("/local/base/a.txt"),
                s("alice@example.org:/remote/target"),
            ],
        }
    );
    assert_eq!(
        scp_command(&up, "a.txt", Some("/home/alice"), true),
        CommandLine {
            program: s("scp"),
            args: strings(&[
                "-r", "-P", "2222", "-i", "/home/alice/.ssh/id_ed25519",
                "-o", "StrictHostKeyChecking=no", "-o", "UserKnownHostsFile=/dev/null",
                "-o", "LogLevel=ERROR", "/local/base/a.txt", "alice@example.org:/remote/target",
            ]),
        }
    );
    let pw = upload_config(password_profile());
    assert_eq!(
        scp_command(&pw, "a.txt", None, true),
        CommandLine {
            program: s("sshpass"),
            args: strings(&[
                "-p", "pw", "scp", "-r",
                "-o", "StrictHostKeyChecking=no", "-o", "UserKnownHostsFile=/dev/null",
                "-o", "LogLevel=ERROR", "/local/base/a.txt", "bob@h:/remote/target",
            ]),
        }
    );
    assert_eq!(rsync_command(&pw, "x", None, true).program, "sshpass");
    assert_eq!(rsync_command(&pw, "x", None, true).args[..3], strings(&["-p", "pw", "rsync"])[..]);
}

#[test]
fn sftp_transfers_name_both_paths() {
    let up = upload_config(password_profile());
    assert_eq!(
        sftp_transfer(&up, "dir/b"),
        SftpTransfer {
            direction: TransferDirection::LocalToRemote,
            local: s("/local/base/dir/b"),
            remote: s("/remote/target/dir/b"),
        }
    );
    let mut down = upload_config(password_profile());
    down.direction = TransferDirection::RemoteToLocal;
    assert_eq!(
        sftp_transfer(&down, "a.txt"),
        SftpTransfer {
            direction: TransferDirection::RemoteToLocal,
            local: s("/remote/target/a.txt"),
            remote: s("/local/base/a.txt"),
        }
    );
}

#[test]
fn transport_cascade() {
    assert!(login_needs_sshpass(&password_profile()));
    assert!(!login_needs_sshpass(&key_profile()));
    assert_eq!(select_transport(&key_profile(), false, true), Transport::Rsync);
    assert_eq!(select_transport(&key_profile(), false, false), Transport::Scp);
    assert_eq!(select_transport(&key_profile(), true, false), Transport::Scp);
    assert_eq!(select_transport(&password_profile(), true, true), Transport::Rsync);
    assert_eq!(select_transport(&password_profile(), true, false), Transport::Scp);
    assert_eq!(select_transport(&password_profile(), false, true), Transport::Sftp);
    assert_eq!(select_transport(&password_profile(), false, false), Transport::Sftp);
}

#[test]
fn rsync_progress_lines() {
    assert_eq!(parse_rsync_progress("  1,234,567  42%  1.23MB/s  0:01:23"), Some((1234567, 2939445)));
    assert_eq!(parse_rsync_progress("100 100%"), Some((100, 100)));
    assert_eq!(parse_rsync_progress("0 0% 0.00kB/s 0:00:00"), None);
    assert_eq!(parse_rsync_progress("512 0% x"), Some((0, 512)));
    assert_eq!(parse_rsync_progress("sending incremental file list"), None);
    assert_eq!(parse_rsync_progress("a.txt"), None);
    assert_eq!(parse_rsync_progress(""), None);
    assert_eq!(parse_rsync_progress("12 x%"), None);
    assert_eq!(parse_rsync_progress("12 50%%"), Some((12, 24)));
    assert_eq!(parse_rsync_progress("12 %"), None);
    assert_eq!(parse_rsync_progress(",,1,, 50"), Some((1, 2)));
    assert_eq!(parse_rsync_progress("+7 +7%"), Some((7, 100)));
    assert_eq!(parse_rsync_progress("-7 7%"), None);
    assert_eq!(parse_rsync_progress("18446744073709551615 1%"), Some((u64::MAX, u64::MAX)));
    assert_eq!(parse_rsync_progress("18446744073709551616 1%"), None);
    assert_eq!(parse_rsync_progress("\u{3000}10\u{00a0}20%"), Some((10, 50)));
}

#[test]
fn transfer_job_hands_out_one_command_per_file() {
    let (mut job, opening) =
        transfer_files_with_progress(upload_config(key_profile()), false, true, Some(s("/home/alice")));
    assert_eq!(
        opening,
        vec![ProgressMessage::Preparing(s("Transferring 2 file(s)...")), ProgressMessage::PrepareComplete]
    );
    assert_eq!(job.transport(), Transport::Rsync);
    let (action, msgs) = job.next(false);
    assert_eq!(msgs, vec![ProgressMessage::FileStarted(s("a.txt"))]);
    assert_eq!(
        action,
        TransferAction::Run(rsync_command(&upload_config(key_profile()), "a.txt", Some("/home/alice"), false))
    );
    assert_eq!(job.finish(FileOutcome::Done), vec![ProgressMessage::FileCompleted(s("a.txt"))]);
    let (action, msgs) = job.next(false);
    assert_eq!(msgs, vec![ProgressMessage::FileStarted(s("dir/b"))]);
    assert_eq!(
        action,
        file_action(&upload_config(key_profile()), Transport::Rsync, "dir/b", Some("/home/alice"), false)
    );
    assert_eq!(
        job.finish(FileOutcome::Failed(s("rsync exited with code 23"))),
        vec![ProgressMessage::Error(s("dir/b"), s("rsync exited with code 23"))]
    );
    assert_eq!(job.next(false), (TransferAction::Done, vec![ProgressMessage::Completed(1, 1)]));
    assert!(job.is_finished());
    assert_eq!(job.next(false), (TransferAction::Done, vec![]));
}

#[test]
fn transfer_job_falls_back_to_the_built_in_client() {
    let (mut job, _) = transfer_files_with_progress(upload_config(password_profile()), false, true, None);
    assert_eq!(job.transport(), Transport::Sftp);
    let (action, _) = job.next(false);
    assert_eq!(action, TransferAction::Sftp(sftp_transfer(&upload_config(password_profile()), "a.txt")));
    // the connection is refused: the batch ends
    assert_eq!(
        job.finish(FileOutcome::Aborted(s("SFTP connection failed: refused"))),
        vec![
            ProgressMessage::Error(s("a.txt"), s("SFTP connection failed: refused")),
            ProgressMessage::Completed(0, 1)
        ]
    );
    assert_eq!(job.next(false).0, TransferAction::Done);
    let (mut job, _) = transfer_files_with_progress(upload_config(password_profile()), true, false, None);
    assert_eq!(job.transport(), Transport::Scp);
    let (action, _) = job.next(false);
    assert_eq!(action, TransferAction::Run(scp_command(&upload_config(password_profile()), "a.txt", None, true)));
}

#[test]
fn transfer_job_cancelled() {
    let (mut job, _) = transfer_files_with_progress(upload_config(key_profile()), false, false, None);
    job.next(false);
    job.finish(FileOutcome::Done);
    assert_eq!(
        job.next(true),
        (
            TransferAction::Done,
            vec![ProgressMessage::Error(s(""), s("Cancelled")), ProgressMessage::Completed(1, 0)]
        )
    );
}

fn staged() -> StagedJob {
    transfer_remote_to_remote_with_progress(
        key_profile(),
        password_profile(),
        strings(&["a", "b"]),
        s("/from"),
        s("/to"),
        s("/home/u/.cokacdir/tmp/r2r_17"),
        false,
        true,
        Some(s("/home/u")),
    )
}

fn sstep(job: &mut StagedJob, input: StagedInput, cancelled: bool) -> (bool, Vec<ProgressMessage>, StagedAction) {
    let StagedStep { remove_temp, messages, action } = job.step(input, cancelled);
    (remove_temp, messages, action)
}

fn download_config() -> TransferConfig {
    TransferConfig {
        direction: TransferDirection::RemoteToLocal,
        profile: key_profile(),
        source_files: strings(&["a", "b"]),
        source_base: s("/from"),
        target_path: s("/home/u/.cokacdir/tmp/r2r_17"),
    }
}

fn upload_from_temp() -> TransferConfig {
    TransferConfig {
        direction: TransferDirection::LocalToRemote,
        profile: password_profile(),
        source_files: strings(&["a", "b"]),
        source_base: s("/home/u/.cokacdir/tmp/r2r_17"),
        target_path: s("/to"),
    }
}

fn staged_after_downloads() -> StagedJob {
    let mut job = staged();
    assert_eq!(
        sstep(&mut job, StagedInput::Start, false),
        (
            false,
            vec![ProgressMessage::Preparing(s("Transferring 2 file(s) between remote servers..."))],
            StagedAction::MakeTemp(s("/home/u/.cokacdir/tmp/r2r_17"))
        )
    );
    assert_eq!(
        sstep(&mut job, StagedInput::TempMade(None), false),
        (
            false,
            vec![ProgressMessage::PrepareComplete, ProgressMessage::FileStarted(s("a"))],
            StagedAction::Transfer(file_action(&download_config(), Transport::Rsync, "a", Some("/home/u"), false))
        )
    );
    assert_eq!(
        sstep(&mut job, StagedInput::Outcome(FileOutcome::Done), false),
        (
            false,
            vec![ProgressMessage::FileCompleted(s("a")), ProgressMessage::FileStarted(s("b"))],
            StagedAction::Transfer(file_action(&download_config(), Transport::Rsync, "b", Some("/home/u"), false))
        )
    );
    assert_eq!(
        sstep(&mut job, StagedInput::Outcome(FileOutcome::Done), false),
        (
            false,
            vec![ProgressMessage::FileCompleted(s("b")), ProgressMessage::FileStarted(s("a"))],
            StagedAction::Transfer(file_action(&upload_from_temp(), Transport::Sftp, "a", Some("/home/u"), false))
        )
    );
    job
}

#[test]
fn staged_transfer_succeeds_and_removes_its_directory() {
    let mut job = staged_after_downloads();
    assert_eq!(job.uploaded(), 0);
    assert_eq!(
        sstep(&mut job, StagedInput::Outcome(FileOutcome::Done), false),
        (
            false,
            vec![ProgressMessage::FileCompleted(s("a")), ProgressMessage::FileStarted(s("b"))],
            StagedAction::Transfer(file_action(&upload_from_temp(), Transport::Sftp, "b", Some("/home/u"), false))
        )
    );
    assert_eq!(
        sstep(&mut job, StagedInput::Outcome(FileOutcome::Done), false),
        (
            true,
            vec![ProgressMessage::FileCompleted(s("b")), ProgressMessage::Completed(2, 0)],
            StagedAction::Done
        )
    );
    assert!(job.is_finished());
    assert_eq!(sstep(&mut job, StagedInput::Start, false), (false, vec![], StagedAction::Done));
}

#[test]
fn staged_transfer_failure_removes_its_directory() {
    let mut job = staged_after_downloads();
    assert_eq!(
        sstep(&mut job, StagedInput::Outcome(FileOutcome::Aborted(s("denied"))), false),
        (
            true,
            vec![
                ProgressMessage::Error(s("a"), s("denied")),
                ProgressMessage::Error(s(""), s("Upload failed: denied")),
                ProgressMessage::Completed(0, 2),
            ],
            StagedAction::Done
        )
    );
    let mut job = staged();
    sstep(&mut job, StagedInput::Start, false);
    sstep(&mut job, StagedInput::TempMade(None), false);
    assert_eq!(
        sstep(&mut job, StagedInput::Outcome(FileOutcome::Aborted(s("no route"))), false),
        (
            true,
            vec![
                ProgressMessage::Error(s("a"), s("no route")),
                ProgressMessage::Error(s(""), s("Download failed: no route")),
                ProgressMessage::Completed(0, 1),
            ],
            StagedAction::Done
        )
    );
    // the directory could not be made: there is nothing to remove
    let mut job = staged();
    sstep(&mut job, StagedInput::Start, false);
    assert_eq!(
        sstep(&mut job, StagedInput::TempMade(Some(s("read-only"))), false),
        (
            false,
            vec![
                ProgressMessage::Error(s(""), s("Failed to create temp dir: read-only")),
                ProgressMessage::Completed(0, 0),
            ],
            StagedAction::Done
        )
    );
    // a report out of turn ends the job
    let mut job = staged();
    assert_eq!(
        sstep(&mut job, StagedInput::TempMade(None), false).1,
        vec![ProgressMessage::Error(s(""), s("Unexpected event")), ProgressMessage::Completed(0, 0)]
    );
}

#[test]
fn staged_transfer_counts_what_reached_the_target_and_what_was_taken_up() {
    // the transport fails for the second file on its way up: one has arrived, one has not
    let mut job = staged_after_downloads();
    sstep(&mut job, StagedInput::Outcome(FileOutcome::Done), false);
    assert_eq!(
        sstep(&mut job, StagedInput::Outcome(FileOutcome::Aborted(s("reset"))), false),
        (
            true,
            vec![
                ProgressMessage::Error(s("b"), s("reset")),
                ProgressMessage::Error(s(""), s("Upload failed: reset")),
                ProgressMessage::Completed(1, 1),
            ],
            StagedAction::Done
        )
    );
    // the transport fails for the second file on its way down: both were taken up, none has arrived
    let mut job = staged();
    sstep(&mut job, StagedInput::Start, false);
    sstep(&mut job, StagedInput::TempMade(None), false);
    sstep(&mut job, StagedInput::Outcome(FileOutcome::Done), false);
    assert_eq!(
        sstep(&mut job, StagedInput::Outcome(FileOutcome::Aborted(s("gone"))), false).1[2],
        ProgressMessage::Completed(0, 2)
    );
    // a report out of turn while files are on their way up
    let mut job = staged_after_downloads();
    sstep(&mut job, StagedInput::Outcome(FileOutcome::Done), false);
    assert_eq!(
        sstep(&mut job, StagedInput::Start, false),
        (
            true,
            vec![ProgressMessage::Error(s(""), s("Unexpected event")), ProgressMessage::Completed(1, 1)],
            StagedAction::Done
        )
    );
}

#[test]
fn one_files_failure_does_not_end_a_staged_transfer() {
    // the first file fails on its way up: the second is sent all the same
    let mut job = staged_after_downloads();
    assert_eq!(
        sstep(&mut job, StagedInput::Outcome(FileOutcome::Failed(s("denied"))), false),
        (
            false,
            vec![ProgressMessage::Error(s("a"), s("denied")), ProgressMessage::FileStarted(s("b"))],
            StagedAction::Transfer(file_action(&upload_from_temp(), Transport::Sftp, "b", Some("/home/u"), false))
        )
    );
    assert!(!job.is_finished());
    assert_eq!(
        sstep(&mut job, StagedInput::Outcome(FileOutcome::Done), false),
        (
            true,
            vec![ProgressMessage::FileCompleted(s("b")), ProgressMessage::Completed(1, 1)],
            StagedAction::Done
        )
    );
    // the last file fails on its way up
    let mut job = staged_after_downloads();
    sstep(&mut job, StagedInput::Outcome(FileOutcome::Done), false);
    assert_eq!(
        sstep(&mut job, StagedInput::Outcome(FileOutcome::Failed(s("quota"))), false),
        (
            true,
            vec![ProgressMessage::Error(s("b"), s("quota")), ProgressMessage::Completed(1, 1)],
            StagedAction::Done
        )
    );
    // the first file fails on its way down: the second is fetched, and only the second is sent on
    let mut job = staged();
    sstep(&mut job, StagedInput::Start, false);
    sstep(&mut job, StagedInput::TempMade(None), false);
    assert_eq!(
        sstep(&mut job, StagedInput::Outcome(FileOutcome::Failed(s("no such file"))), false),
        (
            false,
            vec![ProgressMessage::Error(s("a"), s("no such file")), ProgressMessage::FileStarted(s("b"))],
            StagedAction::Transfer(file_action(&download_config(), Transport::Rsync, "b", Some("/home/u"), false))
        )
    );
    assert_eq!(
        sstep(&mut job, StagedInput::Outcome(FileOutcome::Done), false),
        (
            false,
            vec![ProgressMessage::FileCompleted(s("b")), ProgressMessage::FileStarted(s("b"))],
            StagedAction::Transfer(file_action(&upload_from_temp(), Transport::Sftp, "b", Some("/home/u"), false))
        )
    );
    assert_eq!(
        sstep(&mut job, StagedInput::Outcome(FileOutcome::Done), false),
        (
            true,
            vec![ProgressMessage::FileCompleted(s("b")), ProgressMessage::Completed(1, 1)],
            StagedAction::Done
        )
    );
    // the second file fails on its way down: the first is sent on, then the job is over
    let mut job = staged();
    sstep(&mut job, StagedInput::Start, false);
    sstep(&mut job, StagedInput::TempMade(None), false);
    sstep(&mut job, StagedInput::Outcome(FileOutcome::Done), false);
    assert_eq!(
        sstep(&mut job, StagedInput::Outcome(FileOutcome::Failed(s("gone"))), false).1,
        vec![ProgressMessage::Error(s("b"), s("gone")), ProgressMessage::FileStarted(s("a"))]
    );
    assert_eq!(
        sstep(&mut job, StagedInput::Outcome(FileOutcome::Done), false),
        (
            true,
            vec![ProgressMessage::FileCompleted(s("a")), ProgressMessage::Completed(1, 1)],
            StagedAction::Done
        )
    );
    // every file fails on its way down: nothing is sent on, and the directory is removed
    let mut job = staged();
    sstep(&mut job, StagedInput::Start, false);
    sstep(&mut job, StagedInput::TempMade(None), false);
    sstep(&mut job, StagedInput::Outcome(FileOutcome::Failed(s("x"))), false);
    assert_eq!(
        sstep(&mut job, StagedInput::Outcome(FileOutcome::Failed(s("y"))), false),
        (
            true,
            vec![ProgressMessage::Error(s("b"), s("y")), ProgressMessage::Completed(0, 2)],
            StagedAction::Done
        )
    );
}

#[test]
fn cancel_seen_with_the_directory_made_removes_it() {
    let mut job = staged();
    sstep(&mut job, StagedInput::Start, false);
    assert_eq!(
        sstep(&mut job, StagedInput::TempMade(None), true),
        (
            true,
            vec![ProgressMessage::Error(s(""), s("Cancelled")), ProgressMessage::Completed(0, 0)],
            StagedAction::Done
        )
    );
    assert!(job.is_finished());
    // the directory was there already, or could not be made: it is not the job's to remove
    let mut job = staged();
    sstep(&mut job, StagedInput::Start, false);
    assert_eq!(sstep(&mut job, StagedInput::TempMade(Some(s("File exists"))), true).0, false);
    let mut job = staged();
    sstep(&mut job, StagedInput::Start, false);
    assert_eq!(sstep(&mut job, StagedInput::TempMade(Some(s("File exists"))), false).0, false);
    // the word that the directory was made, out of turn, makes nothing the job's own
    let mut job = staged();
    assert_eq!(sstep(&mut job, StagedInput::TempMade(None), true).0, false);
}

#[test]
fn staged_transfer_cancelled_mid_transfer_removes_its_directory() {
    let mut job = staged_after_downloads();
    sstep(&mut job, StagedInput::Outcome(FileOutcome::Done), false);
    assert_eq!(job.uploaded(), 1);
    assert_eq!(
        sstep(&mut job, StagedInput::Outcome(FileOutcome::Interrupted), false),
        (
            true,
            vec![ProgressMessage::Error(s("b"), s("Cancelled")), ProgressMessage::Completed(1, 0)],
            StagedAction::Done
        )
    );
    // the file at hand has reached the target when the job sees that it is to stop: it counts
    let mut job = staged_after_downloads();
    assert_eq!(
        sstep(&mut job, StagedInput::Outcome(FileOutcome::Done), true),
        (
            true,
            vec![
                ProgressMessage::FileCompleted(s("a")),
                ProgressMessage::Error(s(""), s("Cancelled")),
                ProgressMessage::Completed(1, 0),
            ],
            StagedAction::Done
        )
    );
    assert_eq!(job.uploaded(), 1);
    // the file at hand failed when the job sees that it is to stop
    let mut job = staged_after_downloads();
    assert_eq!(
        sstep(&mut job, StagedInput::Outcome(FileOutcome::Failed(s("denied"))), true),
        (
            true,
            vec![ProgressMessage::Error(s("a"), s("Cancelled")), ProgressMessage::Completed(0, 0)],
            StagedAction::Done
        )
    );
    // a file that was fetched has not reached the target yet
    let mut job = staged();
    sstep(&mut job, StagedInput::Start, false);
    sstep(&mut job, StagedInput::TempMade(None), false);
    assert_eq!(
        sstep(&mut job, StagedInput::Outcome(FileOutcome::Done), true),
        (
            true,
            vec![
                ProgressMessage::FileCompleted(s("a")),
                ProgressMessage::Error(s(""), s("Cancelled")),
                ProgressMessage::Completed(0, 0),
            ],
            StagedAction::Done
        )
    );
    // cancelled before the directory exists
    let mut job = staged();
    assert_eq!(
        sstep(&mut job, StagedInput::Start, true),
        (
            false,
            vec![ProgressMessage::Error(s(""), s("Cancelled")), ProgressMessage::Completed(0, 0)],
            StagedAction::Done
        )
    );
}

#[test]
fn staged_transfer_of_nothing_still_cleans_up() {
    let mut job = transfer_remote_to_remote_with_progress(
        key_profile(), key_profile(), vec![], s("/f"), s("/t"), s("/tmp/r2r_1"), false, false, None,
    );
    sstep(&mut job, StagedInput::Start, false);
    assert_eq!(
        sstep(&mut job, StagedInput::TempMade(None), false),
        (true, vec![ProgressMessage::PrepareComplete, ProgressMessage::Completed(0, 0)], StagedAction::Done)
    );
    assert_eq!(staging_dir_name(1712345678901234567), "r2r_1712345678901234567");
    assert_eq!(staging_dir_name(0), "r2r_0");
}

fn tool(program: &str) -> CommandLine {
    CommandLine { program: s(program), args: strings(&["-r", "a", "u@h:/t"]) }
}

fn behind_helper(program: &str) -> CommandLine {
    CommandLine { program: s("sshpass"), args: strings(&["-p", "pw", program, "-r", "a", "u@h:/t"]) }
}

fn failed(stderr: &str, code: Option<i32>) -> ToolExit {
    ToolExit::Failed { stderr: s(stderr), code }
}

#[test]
fn the_end_of_a_tool_decides_how_the_file_went() {
    assert_eq!(exit_outcome(&tool("rsync"), ToolExit::Success), FileOutcome::Done);
    assert_eq!(
        exit_outcome(&tool("rsync"), ToolExit::NotStarted(s("No such file or directory"))),
        FileOutcome::Aborted(s("Failed to start rsync: No such file or directory"))
    );
    assert_eq!(
        exit_outcome(&behind_helper("scp"), ToolExit::NotStarted(s("ENOENT"))),
        FileOutcome::Aborted(s("Failed to start scp: ENOENT"))
    );
    assert_eq!(
        exit_outcome(&tool("scp"), failed("Permission denied\n", Some(1))),
        FileOutcome::Failed(s("Permission denied\n"))
    );
    assert_eq!(exit_outcome(&tool("scp"), failed(" \n", Some(2))), FileOutcome::Failed(s("scp exited with code 2")));
    assert_eq!(exit_outcome(&tool("scp"), failed("", None)), FileOutcome::Failed(s("scp exited with code -1")));
    assert_eq!(
        exit_outcome(&tool("scp"), failed("", Some(i32::MIN))),
        FileOutcome::Failed(s("scp exited with code -2147483648"))
    );
    assert_eq!(
        exit_outcome(&tool("rsync"), ToolExit::WaitFailed(s("interrupted"))),
        FileOutcome::Failed(s("rsync wait failed: interrupted"))
    );
}

#[test]
fn a_refused_connection_or_login_ends_the_batch() {
    assert_eq!(
        exit_outcome(&tool("rsync"), failed("ssh: connect to host h port 22: Connection refused\n", Some(255))),
        FileOutcome::Aborted(s("ssh: connect to host h port 22: Connection refused\n"))
    );
    assert_eq!(exit_outcome(&tool("scp"), failed(" \n", Some(255))), FileOutcome::Aborted(s("scp exited with code 255")));
    assert_eq!(
        exit_outcome(&behind_helper("scp"), failed("", Some(5))),
        FileOutcome::Aborted(s("scp exited with code 5"))
    );
    assert_eq!(
        exit_outcome(&behind_helper("rsync"), failed("Host key verification failed.", Some(6))),
        FileOutcome::Aborted(s("Host key verification failed."))
    );
    // the secure-copy tool may end with 1 where the connection failed: its words tell
    assert_eq!(
        exit_outcome(&tool("scp"), failed("ssh: connect to host h port 22: Connection refused\r\nlost connection\n", Some(1))),
        FileOutcome::Aborted(s("ssh: connect to host h port 22: Connection refused\r\nlost connection\n"))
    );
    assert_eq!(
        exit_outcome(&tool("rsync"), failed("u@h: Permission denied (publickey,password).", Some(12))),
        FileOutcome::Aborted(s("u@h: Permission denied (publickey,password)."))
    );
    for words in [
        "ssh: connect to host h port 22: Connection timed out",
        "ssh: connect to host h port 22: No route to host",
        "ssh: Could not resolve hostname h: Name or service not known",
        "Host key verification failed.",
    ] {
        assert_eq!(exit_outcome(&tool("scp"), failed(words, Some(1))), FileOutcome::Aborted(s(words)));
    }
    // a file that may not be read is that file's failure
    assert_eq!(
        exit_outcome(&tool("scp"), failed("scp: /t/a: Permission denied", Some(1))),
        FileOutcome::Failed(s("scp: /t/a: Permission denied"))
    );
    // without the password helper these codes are the tool's own
    assert_eq!(exit_outcome(&tool("rsync"), failed("", Some(5))), FileOutcome::Failed(s("rsync exited with code 5")));
    assert_eq!(exit_outcome(&tool("scp"), failed("", Some(6))), FileOutcome::Failed(s("scp exited with code 6")));
    assert_eq!(exit_outcome(&behind_helper("scp"), failed("", Some(1))), FileOutcome::Failed(s("scp exited with code 1")));
    // the batch ends with the file that could not be carried
    let mut job = transfer_files_with_progress(upload_config(key_profile()), false, true, None).0;
    let (action, _) = job.next(false);
    let cmd = match action {
        TransferAction::Run(cmd) => cmd,
        _ => panic!(),
    };
    let messages = job.finish(exit_outcome(&cmd, failed("Connection refused", Some(255))));
    assert_eq!(messages.last(), Some(&ProgressMessage::Completed(0, 1)));
    assert_eq!(job.next(false).0, TransferAction::Done);
}

#[test]
fn a_running_tool_is_watched_line_by_line() {
    let cmd = tool("rsync");
    let step = watch_tool(&cmd, ToolReport::Line(s("  1,024  50%  1.0MB/s  0:00:01")), false);
    assert_eq!((step.kill, step.action), (false, WatchAction::ReadLine));
    assert_eq!(step.messages, vec![ProgressMessage::FileProgress(1024, 2048)]);
    let step = watch_tool(&cmd, ToolReport::Line(s("sending incremental file list")), false);
    assert_eq!((step.kill, step.messages, step.action), (false, vec![], WatchAction::ReadLine));
    let step = watch_tool(&cmd, ToolReport::OutputEnded, false);
    assert_eq!((step.kill, step.messages, step.action), (false, vec![], WatchAction::Wait));
    let step = watch_tool(&cmd, ToolReport::Ended(failed("x", Some(255))), false);
    assert_eq!((step.kill, step.action), (false, WatchAction::Finish(FileOutcome::Aborted(s("x")))));
    // once the job is to stop the tool is killed and the file counts as cut short
    let step = watch_tool(&cmd, ToolReport::Line(s("  1,024  50%  1.0MB/s  0:00:01")), true);
    assert_eq!((step.kill, step.messages, step.action), (true, vec![], WatchAction::Finish(FileOutcome::Interrupted)));
    let step = watch_tool(&cmd, ToolReport::OutputEnded, true);
    assert_eq!((step.kill, step.action), (true, WatchAction::Finish(FileOutcome::Interrupted)));
    // a tool that has ended is not killed; where it ended well the file is done
    let step = watch_tool(&cmd, ToolReport::Ended(ToolExit::Success), true);
    assert_eq!((step.kill, step.action), (false, WatchAction::Finish(FileOutcome::Done)));
    let step = watch_tool(&cmd, ToolReport::Ended(failed("killed", None)), true);
    assert_eq!((step.kill, step.action), (false, WatchAction::Finish(FileOutcome::Interrupted)));
}

#[test]
fn the_tool_behind_the_password_helper_is_named() {
    let plain = cokacdir::command::CommandLine { program: "rsync".to_string(), args: vec!["-avz".to_string()] };
    assert_eq!(cokacdir::transfer_job::tool_name(&plain), "rsync");
    let wrapped = cokacdir::command::CommandLine {
        program: "sshpass".to_string(),
        args: vec!["-p".to_string(), "secret".to_string(), "scp".to_string(), "-r".to_string()],
    };
    assert_eq!(cokacdir::transfer_job::tool_name(&wrapped), "scp");
    let short = cokacdir::command::CommandLine { program: "sshpass".to_string(), args: vec!["-p".to_string()] };
    assert_eq!(cokacdir::transfer_job::tool_name(&short), "sshpass");
}

#[test]
fn a_host_that_cannot_be_reached_ends_the_batch() {
    assert_eq!(
        cokacdir::transfer_job::connection_failure("Connection refused"),
        FileOutcome::Aborted("SFTP connection failed: Connection refused".to_string())
    );
}

#[test]
fn one_session_serves_a_whole_job() {
    let mut session = Session::new();
    assert!(session.must_connect(&password_profile()));
    session.connected(password_profile());
    assert!(!session.must_connect(&password_profile()));
    assert!(!session.must_connect(&password_profile()));
    // another login needs a session of its own
    assert!(session.must_connect(&key_profile()));
    session.connected(key_profile());
    assert!(!session.must_connect(&key_profile()));
    assert!(session.must_connect(&password_profile()));
}

#[test]
fn logins_are_told_apart_by_every_part() {
    let base = password_profile();
    assert!(is_same_login(&base, &password_profile()));
    assert!(is_same_login(&key_profile(), &key_profile()));
    assert!(!is_same_login(&base, &key_profile()));
    let mut other = password_profile();
    other.port = other.port.wrapping_add(1);
    assert!(!is_same_login(&base, &other));
    let mut other = password_profile();
    other.host.push('x');
    assert!(!is_same_login(&base, &other));
    let mut other = password_profile();
    other.user.push('x');
    assert!(!is_same_login(&base, &other));
    let mut other = password_profile();
    other.auth = RemoteAuth::Password { password: s("another") };
    assert!(!is_same_login(&base, &other));
    let with = |path: &str, passphrase: Option<&str>| RemoteProfile {
        auth: RemoteAuth::KeyFile { path: s(path), passphrase: passphrase.map(s) },
        ..password_profile()
    };
    assert!(is_same_login(&with("~/k", None), &with("~/k", None)));
    assert!(is_same_login(&with("~/k", Some("p")), &with("~/k", Some("p"))));
    assert!(!is_same_login(&with("~/k", Some("p")), &with("~/k", None)));
    assert!(!is_same_login(&with("~/k", Some("p")), &with("~/k", Some("q"))));
    assert!(!is_same_login(&with("~/k", None), &with("~/j", None)));
}
