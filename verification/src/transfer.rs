//! Planning for transfers to and from a remote host: which transport is
//! used, which command runs for each file, and how the sync tool's progress
//! lines are read. Remote paths are built by joining texts; nothing here
//! opens a connection or starts a process.

use vstd::prelude::*;
use crate::command::{CommandLine, CommandView};
use crate::text::{
    append_chars, append_decimal, append_str, chars_of, decimal, parse_u64, parse_u64_chars, rows,
    split_words, string_of, subvec, texts, trim, trim_chars, words,
};

verus! {

/// Which way a transfer goes.
#[derive(Debug, Clone, Copy, PartialEq, Eq, Structural)]
pub enum TransferDirection {
    LocalToRemote,
    RemoteToLocal,
}

/// How a login on the remote host is proved.
#[derive(Debug, Clone, PartialEq, Eq)]
pub enum RemoteAuth {
    Password { password: String },
    KeyFile { path: String, passphrase: Option<String> },
}

/// A remote host and the login on it.
#[derive(Debug, Clone, PartialEq, Eq)]
pub struct RemoteProfile {
    pub host: String,
    pub port: u16,
    pub user: String,
    pub auth: RemoteAuth,
}

/// One transfer: the files named in `source_files`, each a path below
/// `source_base`, go to `target_path`.
#[derive(Debug, Clone, PartialEq, Eq)]
pub struct TransferConfig {
    pub direction: TransferDirection,
    pub profile: RemoteProfile,
    pub source_files: Vec<String>,
    pub source_base: String,
    pub target_path: String,
}

/// The remote side of a copy as the tools want it: `user@host:path`.
pub open spec fn remote_spec_of(profile: RemoteProfile, path: Seq<char>) -> Seq<char> {
    profile.user@ + "@"@ + profile.host@ + ":"@ + path
}

/// The remote side of a copy as the tools want it: `user@host:path`.
pub fn build_remote_spec(profile: &RemoteProfile, path: &str) -> (spec: String)
    ensures
        spec@ == remote_spec_of(*profile, path@),
{
    let mut out: Vec<char> = Vec::new();
    append_str(&mut out, profile.user.as_str());
    append_str(&mut out, "@");
    append_str(&mut out, profile.host.as_str());
    append_str(&mut out, ":");
    append_str(&mut out, path);
    string_of(&out)
}

/// How many copies of `c` stand at the start of `s`.
pub open spec fn leading_count(s: Seq<char>, c: char) -> nat
    decreases s.len(),
{
    if s.len() > 0 && s[0] == c {
        1 + leading_count(s.drop_first(), c)
    } else {
        0
    }
}

/// How many copies of `c` stand at the end of `s`.
pub open spec fn trailing_count(s: Seq<char>, c: char) -> nat
    decreases s.len(),
{
    if s.len() > 0 && s.last() == c {
        1 + trailing_count(s.drop_last(), c)
    } else {
        0
    }
}

/// `s` without the copies of `c` at its start.
pub open spec fn without_leading(s: Seq<char>, c: char) -> Seq<char> {
    s.subrange(leading_count(s, c) as int, s.len() as int)
}

/// `s` without the copies of `c` at its end.
pub open spec fn without_trailing(s: Seq<char>, c: char) -> Seq<char> {
    s.subrange(0, s.len() - trailing_count(s, c))
}

/// `v` without the copies of `c` at its start.
pub fn strip_leading(v: &Vec<char>, c: char) -> (out: Vec<char>)
    ensures
        out@ == without_leading(v@, c),
{
    let mut start: usize = 0;
    assert(v@.subrange(0, v.len() as int) == v@);
    while start < v.len() && v[start] == c
        invariant
            start <= v.len(),
            leading_count(v@, c) == start + leading_count(
                v@.subrange(start as int, v.len() as int),
                c,
            ),
        decreases v.len() - start,
    {
        assert(v@.subrange(start as int, v.len() as int).drop_first() == v@.subrange(
            start + 1,
            v.len() as int,
        ));
        start += 1;
    }
    subvec(v, start, v.len())
}

/// `v` without the copies of `c` at its end.
pub fn strip_trailing(v: &Vec<char>, c: char) -> (out: Vec<char>)
    ensures
        out@ == without_trailing(v@, c),
{
    let mut end: usize = v.len();
    assert(v@.subrange(0, v.len() as int) == v@);
    while end > 0 && v[end - 1] == c
        invariant
            end <= v.len(),
            trailing_count(v@, c) == (v.len() - end) + trailing_count(v@.subrange(0, end as int), c),
        decreases end,
    {
        assert(v@.subrange(0, end as int).drop_last() == v@.subrange(0, end - 1));
        end -= 1;
    }
    subvec(v, 0, end)
}

/// `name` below the directory `dir`, as paths are joined on this system: a
/// `name` that starts at the root stands for itself; else it follows `dir`,
/// with one `/` between them unless `dir` is empty or ends in one.
pub open spec fn joined_path(dir: Seq<char>, name: Seq<char>) -> Seq<char> {
    if name.len() > 0 && name[0] == '/' {
        name
    } else if dir.len() == 0 || dir.last() == '/' {
        dir + name
    } else {
        dir + "/"@ + name
    }
}

/// `name` below the directory `dir`.
pub fn join_path(dir: &str, name: &str) -> (p: String)
    ensures
        p@ == joined_path(dir@, name@),
{
    let d = chars_of(dir);
    let n = chars_of(name);
    if n.len() > 0 && n[0] == '/' {
        string_of(&n)
    } else {
        let mut out: Vec<char> = Vec::new();
        append_chars(&mut out, &d);
        if !(d.len() == 0 || d[d.len() - 1] == '/') {
            append_str(&mut out, "/");
        }
        append_chars(&mut out, &n);
        string_of(&out)
    }
}

/// The key file to hand to the tools: a path that starts with `~` is taken
/// from the home directory `home`, where there is one.
pub open spec fn expanded_key_path(path: Seq<char>, home: Option<Seq<char>>) -> Seq<char> {
    if path.len() > 0 && path[0] == '~' {
        match home {
            Some(h) => joined_path(h, without_leading(without_leading(path, '~'), '/')),
            None => path,
        }
    } else {
        path
    }
}

/// The key file to hand to the tools.
pub fn expand_key_path(path: &str, home: Option<&str>) -> (p: String)
    ensures
        p@ == expanded_key_path(
            path@,
            match home {
                Some(h) => Some(h@),
                None => None,
            },
        ),
{
    let v = chars_of(path);
    if v.len() > 0 && v[0] == '~' {
        match home {
            Some(h) => {
                let rest = strip_leading(&strip_leading(&v, '~'), '/');
                let rest = string_of(&rest);
                join_path(h, rest.as_str())
            },
            None => String::from_str(path),
        }
    } else {
        String::from_str(path)
    }
}

/// The options that switch off host-key checks, as one text.
pub open spec fn host_key_options() -> Seq<char> {
    " -o StrictHostKeyChecking=no -o UserKnownHostsFile=/dev/null -o LogLevel=ERROR"@
}

/// The secure-shell command that the sync tool is told to connect with.
pub open spec fn ssh_option_of(profile: RemoteProfile, home: Option<Seq<char>>) -> Seq<char> {
    "ssh"@ + (if profile.port != 22 {
        " -p "@ + decimal(profile.port as nat)
    } else {
        Seq::empty()
    }) + (match profile.auth {
        RemoteAuth::KeyFile { path, .. } => " -i '"@ + expanded_key_path(path@, home) + "'"@,
        RemoteAuth::Password { .. } => Seq::empty(),
    }) + host_key_options()
}

/// The secure-shell command that the sync tool is told to connect with:
/// the port where it is not 22, the key file where the login uses one, and
/// host-key checks switched off. `home` is the user's home directory.
pub fn ssh_option(profile: &RemoteProfile, home: Option<&str>) -> (o: String)
    ensures
        o@ == ssh_option_of(
            *profile,
            match home {
                Some(h) => Some(h@),
                None => None,
            },
        ),
{
    let mut out: Vec<char> = Vec::new();
    append_str(&mut out, "ssh");
    if profile.port != 22 {
        append_str(&mut out, " -p ");
        append_decimal(&mut out, profile.port as u128);
    }
    match &profile.auth {
        RemoteAuth::KeyFile { path, .. } => {
            append_str(&mut out, " -i '");
            let expanded = expand_key_path(path.as_str(), home);
            append_str(&mut out, expanded.as_str());
            append_str(&mut out, "'");
        },
        RemoteAuth::Password { .. } => {},
    }
    append_str(&mut out, " -o StrictHostKeyChecking=no -o UserKnownHostsFile=/dev/null -o LogLevel=ERROR");
    string_of(&out)
}

/// Whether the login needs the helper that hands a password to the tools.
pub open spec fn needs_sshpass(profile: RemoteProfile) -> bool {
    profile.auth is Password
}

/// The command `cmd`, run through the password helper where the login is by
/// password and the helper is there: the helper, `-p`, the password, then
/// `cmd` as it was.
pub open spec fn with_sshpass_of(cmd: CommandView, profile: RemoteProfile, has_sshpass: bool) -> CommandView {
    match profile.auth {
        RemoteAuth::Password { password } => if has_sshpass {
            CommandView {
                program: "sshpass"@,
                args: seq!["-p"@, password@, cmd.program] + cmd.args,
            }
        } else {
            cmd
        },
        RemoteAuth::KeyFile { .. } => cmd,
    }
}

/// The command `cmd`, run through the password helper where the login is by
/// password and `has_sshpass` says that the helper is there.
pub fn wrap_with_sshpass(cmd: CommandLine, profile: &RemoteProfile, has_sshpass: bool) -> (out:
    CommandLine)
    ensures
        out@ == with_sshpass_of(cmd@, *profile, has_sshpass),
{
    match &profile.auth {
        RemoteAuth::Password { password } => {
            if has_sshpass {
                let mut args: Vec<String> = Vec::new();
                args.push(String::from_str("-p"));
                args.push(password.clone());
                args.push(cmd.program.clone());
                assert(texts(args@) == seq!["-p"@, password@, cmd.program@]);
                crate::command::extend_strings(&mut args, &cmd.args);
                CommandLine { program: String::from_str("sshpass"), args }
            } else {
                cmd
            }
        },
        RemoteAuth::KeyFile { .. } => cmd,
    }
}

/// The full path of the file `file` below `base`.
pub open spec fn source_path_of(base: Seq<char>, file: Seq<char>) -> Seq<char> {
    without_trailing(base, '/') + "/"@ + file
}

/// The full path of the file `file` below `base`: the two joined by one `/`.
pub fn source_path(base: &str, file: &str) -> (p: String)
    ensures
        p@ == source_path_of(base@, file@),
{
    let b = strip_trailing(&chars_of(base), '/');
    let mut out: Vec<char> = Vec::new();
    append_chars(&mut out, &b);
    append_str(&mut out, "/");
    append_str(&mut out, file);
    string_of(&out)
}

/// Where the file `file` of a transfer comes from and where it goes to, as
/// the copying tools want the two named.
pub open spec fn endpoints_of(config: TransferConfig, file: Seq<char>) -> (Seq<char>, Seq<char>) {
    let full = source_path_of(config.source_base@, file);
    match config.direction {
        TransferDirection::LocalToRemote => (
            full,
            remote_spec_of(config.profile, config.target_path@),
        ),
        TransferDirection::RemoteToLocal => (
            remote_spec_of(config.profile, full),
            config.target_path@,
        ),
    }
}

/// Where the file `file` of a transfer comes from and where it goes to.
pub fn endpoints(config: &TransferConfig, file: &str) -> (r: (String, String))
    ensures
        (r.0@, r.1@) == endpoints_of(*config, file@),
{
    let full = source_path(config.source_base.as_str(), file);
    match config.direction {
        TransferDirection::LocalToRemote => {
            let dst = build_remote_spec(&config.profile, config.target_path.as_str());
            (full, dst)
        },
        TransferDirection::RemoteToLocal => {
            let src = build_remote_spec(&config.profile, full.as_str());
            (src, config.target_path.clone())
        },
    }
}


/// The program that carries a transfer.
#[derive(Debug, Clone, Copy, PartialEq, Eq, Structural)]
pub enum Transport {
    /// The sync tool, which reports progress while it copies.
    Rsync,
    /// The plain secure-copy tool, which reports only that a file is done.
    Scp,
    /// The built-in file-transfer client.
    Sftp,
}

/// The transport for a login: an outside tool where the login is by key, or
/// by password with the password helper at hand (the sync tool if it is
/// there, else secure copy); the built-in client otherwise.
pub open spec fn transport_of(profile: RemoteProfile, has_sshpass: bool, has_rsync: bool) -> Transport {
    if !needs_sshpass(profile) || has_sshpass {
        if has_rsync {
            Transport::Rsync
        } else {
            Transport::Scp
        }
    } else {
        Transport::Sftp
    }
}

/// Whether the login on `profile` needs the password helper.
pub fn login_needs_sshpass(profile: &RemoteProfile) -> (r: bool)
    ensures
        r == needs_sshpass(*profile),
{
    match &profile.auth {
        RemoteAuth::Password { .. } => true,
        RemoteAuth::KeyFile { .. } => false,
    }
}

/// Picks the transport for a login on `profile`, given which tools answered
/// their probes.
pub fn select_transport(profile: &RemoteProfile, has_sshpass: bool, has_rsync: bool) -> (t:
    Transport)
    ensures
        t == transport_of(*profile, has_sshpass, has_rsync),
{
    if !login_needs_sshpass(profile) || has_sshpass {
        if has_rsync {
            Transport::Rsync
        } else {
            Transport::Scp
        }
    } else {
        Transport::Sftp
    }
}

/// The sync tool's command for one file.
pub open spec fn rsync_command_of(
    config: TransferConfig,
    file: Seq<char>,
    home: Option<Seq<char>>,
    has_sshpass: bool,
) -> CommandView {
    with_sshpass_of(
        CommandView {
            program: "rsync"@,
            args: seq![
                "-avz"@,
                "--info=progress2"@,
                "--no-inc-recursive"@,
                "-e"@,
                ssh_option_of(config.profile, home),
                endpoints_of(config, file).0,
                endpoints_of(config, file).1,
            ],
        },
        config.profile,
        has_sshpass,
    )
}

/// The text of an optional borrowed string.
pub open spec fn opt_str(o: Option<&str>) -> Option<Seq<char>> {
    match o {
        Some(t) => Some(t@),
        None => None,
    }
}

/// The sync tool's command for the file `file` of a transfer: archive mode,
/// compressed, with one progress line for the whole run.
pub fn rsync_command(config: &TransferConfig, file: &str, home: Option<&str>, has_sshpass: bool) -> (cmd:
    CommandLine)
    ensures
        cmd@ == rsync_command_of(*config, file@, opt_str(home), has_sshpass),
{
    let (src, dst) = endpoints(config, file);
    let mut args: Vec<String> = Vec::new();
    args.push(String::from_str("-avz"));
    args.push(String::from_str("--info=progress2"));
    args.push(String::from_str("--no-inc-recursive"));
    args.push(String::from_str("-e"));
    args.push(ssh_option(&config.profile, home));
    args.push(src);
    args.push(dst);
    assert(texts(args@) == seq![
        "-avz"@,
        "--info=progress2"@,
        "--no-inc-recursive"@,
        "-e"@,
        ssh_option_of(config.profile, opt_str(home)),
        endpoints_of(*config, file@).0,
        endpoints_of(*config, file@).1,
    ]);
    wrap_with_sshpass(
        CommandLine { program: String::from_str("rsync"), args },
        &config.profile,
        has_sshpass,
    )
}

/// The secure-copy command for one file.
pub open spec fn scp_command_of(
    config: TransferConfig,
    file: Seq<char>,
    home: Option<Seq<char>>,
    has_sshpass: bool,
) -> CommandView {
    with_sshpass_of(
        CommandView {
            program: "scp"@,
            args: seq!["-r"@] + (if config.profile.port != 22 {
                seq!["-P"@, decimal(config.profile.port as nat)]
            } else {
                Seq::empty()
            }) + (match config.profile.auth {
                RemoteAuth::KeyFile { path, .. } => seq!["-i"@, expanded_key_path(path@, home)],
                RemoteAuth::Password { .. } => Seq::empty(),
            }) + seq![
                "-o"@,
                "StrictHostKeyChecking=no"@,
                "-o"@,
                "UserKnownHostsFile=/dev/null"@,
                "-o"@,
                "LogLevel=ERROR"@,
                endpoints_of(config, file).0,
                endpoints_of(config, file).1,
            ],
        },
        config.profile,
        has_sshpass,
    )
}

/// The secure-copy command for the file `file` of a transfer; directories
/// are copied with what is in them.
pub fn scp_command(config: &TransferConfig, file: &str, home: Option<&str>, has_sshpass: bool) -> (cmd:
    CommandLine)
    ensures
        cmd@ == scp_command_of(*config, file@, opt_str(home), has_sshpass),
{
    let (src, dst) = endpoints(config, file);
    let mut args: Vec<String> = Vec::new();
    args.push(String::from_str("-r"));
    assert(texts(args@) == seq!["-r"@]);
    if config.profile.port != 22 {
        let ghost before = texts(args@);
        args.push(String::from_str("-P"));
        args.push(crate::text::decimal_string(config.profile.port as u128));
        assert(texts(args@) == before + seq!["-P"@, decimal(config.profile.port as nat)]);
    } else {
        assert(texts(args@) == texts(args@) + Seq::<Seq<char>>::empty());
    }
    let ghost mid = texts(args@);
    match &config.profile.auth {
        RemoteAuth::KeyFile { path, .. } => {
            args.push(String::from_str("-i"));
            args.push(expand_key_path(path.as_str(), home));
            assert(texts(args@) == mid + seq!["-i"@, expanded_key_path(path@, opt_str(home))]);
        },
        RemoteAuth::Password { .. } => {
            assert(texts(args@) == mid + Seq::<Seq<char>>::empty());
        },
    }
    let ghost late = texts(args@);
    args.push(String::from_str("-o"));
    args.push(String::from_str("StrictHostKeyChecking=no"));
    args.push(String::from_str("-o"));
    args.push(String::from_str("UserKnownHostsFile=/dev/null"));
    args.push(String::from_str("-o"));
    args.push(String::from_str("LogLevel=ERROR"));
    args.push(src);
    args.push(dst);
    assert(texts(args@) == late + seq![
        "-o"@,
        "StrictHostKeyChecking=no"@,
        "-o"@,
        "UserKnownHostsFile=/dev/null"@,
        "-o"@,
        "LogLevel=ERROR"@,
        endpoints_of(*config, file@).0,
        endpoints_of(*config, file@).1,
    ]);
    wrap_with_sshpass(
        CommandLine { program: String::from_str("scp"), args },
        &config.profile,
        has_sshpass,
    )
}

/// One file for the built-in client to carry: its path on this machine and
/// its path on the remote host. The direction of the transfer says which is
/// read and which is written; a directory is carried with what is in it.
#[derive(Debug, Clone, PartialEq, Eq)]
pub struct SftpTransfer {
    pub direction: TransferDirection,
    pub local: String,
    pub remote: String,
}

/// An `SftpTransfer` with its paths as character sequences.
pub struct SftpView {
    pub direction: TransferDirection,
    pub local: Seq<char>,
    pub remote: Seq<char>,
}

impl View for SftpTransfer {
    type V = SftpView;

    open spec fn view(&self) -> SftpView {
        SftpView { direction: self.direction, local: self.local@, remote: self.remote@ }
    }
}

/// What the built-in client carries for one file: from the file's full path
/// to the path of the same name below the target.
pub open spec fn sftp_transfer_of(config: TransferConfig, file: Seq<char>) -> SftpView {
    let source = source_path_of(config.source_base@, file);
    let target = source_path_of(config.target_path@, file);
    match config.direction {
        TransferDirection::RemoteToLocal => SftpView {
            direction: config.direction,
            local: target,
            remote: source,
        },
        TransferDirection::LocalToRemote => SftpView {
            direction: config.direction,
            local: source,
            remote: target,
        },
    }
}

/// What the built-in client carries for the file `file` of a transfer.
pub fn sftp_transfer(config: &TransferConfig, file: &str) -> (t: SftpTransfer)
    ensures
        t@ == sftp_transfer_of(*config, file@),
{
    let source = source_path(config.source_base.as_str(), file);
    let target = source_path(config.target_path.as_str(), file);
    match config.direction {
        TransferDirection::RemoteToLocal => SftpTransfer {
            direction: config.direction,
            local: target,
            remote: source,
        },
        TransferDirection::LocalToRemote => SftpTransfer {
            direction: config.direction,
            local: source,
            remote: target,
        },
    }
}

/// `s` without its commas.
pub open spec fn without_commas(s: Seq<char>) -> Seq<char> {
    s.filter(|c: char| c != ',')
}

fn strip_commas(v: &Vec<char>) -> (out: Vec<char>)
    ensures
        out@ == without_commas(v@),
{
    let mut out: Vec<char> = Vec::new();
    let mut i: usize = 0;
    assert(v@.subrange(0, 0) == Seq::<char>::empty());
    while i < v.len()
        invariant
            i <= v.len(),
            out@ == without_commas(v@.subrange(0, i as int)),
        decreases v.len() - i,
    {
        assert(v@.subrange(0, i + 1).drop_last() == v@.subrange(0, i as int));
        assert(v@.subrange(0, i + 1).last() == v@[i as int]);
        reveal(Seq::filter);
        if v[i] != ',' {
            out.push(v[i]);
        }
        i += 1;
    }
    assert(v@.subrange(0, v.len() as int) == v@);
    out
}

/// The pair of bytes done and bytes in all that bytes done and a percentage
/// stand for; `None` where neither is above zero. The total is worked out
/// from the percentage, and is the largest number where it would not fit.
pub open spec fn progress_pair(transferred: u64, pct: u64) -> Option<(u64, u64)> {
    if pct > 0 {
        let total = transferred * 100 / (pct as int);
        Some((transferred, if total > u64::MAX { u64::MAX } else { total as u64 }))
    } else if transferred > 0 {
        Some((0u64, transferred))
    } else {
        None
    }
}

/// What a progress line of the sync tool says: its first word is the bytes
/// done, with commas between the thousands; its second the percentage, with
/// `%` behind it. `None` for a line of any other shape.
pub open spec fn rsync_progress_of(line: Seq<char>) -> Option<(u64, u64)> {
    let w = words(trim(line));
    if w.len() >= 2 {
        match parse_u64(without_commas(w[0])) {
            Some(transferred) => match parse_u64(without_trailing(w[1], '%')) {
                Some(pct) => progress_pair(transferred, pct),
                None => None,
            },
            None => None,
        }
    } else {
        None
    }
}

/// Reads one line of the sync tool's output. Returns bytes done and bytes in
/// all where the line reports progress.
pub fn parse_rsync_progress(line: &str) -> (r: Option<(u64, u64)>)
    ensures
        r == rsync_progress_of(line@),
{
    let v = trim_chars(&chars_of(line));
    let parts = split_words(&v);
    if parts.len() >= 2 {
        assert(rows(parts@)[0] == parts@[0]@);
        assert(rows(parts@)[1] == parts@[1]@);
        let bytes = strip_commas(&parts[0]);
        match parse_u64_chars(&bytes) {
            None => None,
            Some(transferred) => {
                let pct_chars = strip_trailing(&parts[1], '%');
                match parse_u64_chars(&pct_chars) {
                    None => None,
                    Some(pct) => {
                        if pct > 0 {
                            let wide: u128 = transferred as u128 * 100 / (pct as u128);
                            let total: u64 = if wide > u64::MAX as u128 {
                                u64::MAX
                            } else {
                                wide as u64
                            };
                            Some((transferred, total))
                        } else if transferred > 0 {
                            Some((0, transferred))
                        } else {
                            None
                        }
                    },
                }
            },
        }
    } else {
        None
    }
}

/// The user's home directory, where one can be found.
///
/// Trusted: this is `dirs::home_dir`, which reads the environment and the
/// user database; the path is turned into text as it is displayed. Nothing is
/// promised of the result.
#[verifier::external_body]
pub(crate) fn home_dir() -> Option<String> {
    dirs::home_dir().map(|p| p.to_string_lossy().into_owned())
}

/// The secure-shell command that the sync tool is told to connect with, for
/// the home directory of the user who runs this program.
pub fn build_ssh_option(profile: &RemoteProfile) -> (o: String)
    ensures
        exists|home: Option<Seq<char>>| o@ == ssh_option_of(*profile, home),
        forall|home: Option<Seq<char>>|
            profile.auth is Password ==> o@ == #[trigger] ssh_option_of(*profile, home),
{
    let home = home_dir();
    match &home {
        Some(h) => {
            let o = ssh_option(profile, Some(h.as_str()));
            assert(o@ == ssh_option_of(*profile, Some(h@)));
            o
        },
        None => {
            let o = ssh_option(profile, None);
            assert(o@ == ssh_option_of(*profile, None));
            o
        },
    }
}

} // verus!
