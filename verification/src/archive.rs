//! Planning for the archive jobs: which options the archiving tool gets, how
//! its listing and its verbose output are read, and what is reported when it
//! fails. Nothing here starts a process or touches the disk.

use vstd::prelude::*;
use crate::command::{extend_prefixed, extend_strings, prefixed, CommandLine, CommandView};
use crate::text::{
    chars_of, concat2, ends_with, has_prefix, has_suffix, join_rows, joined, lines, lowercase_of,
    parse_u64, parse_u64_chars, rows, split_lines, split_words, starts_with, str_ends_with,
    string_of, subvec, texts, to_lowercase, trim, trim_chars, trim_end, trim_end_chars, words,
};

verus! {

/// How an archive is compressed, as its name says.
#[derive(Debug, Clone, Copy, PartialEq, Eq, Structural)]
pub enum Compression {
    Gzip,
    Bzip2,
    Xz,
    Plain,
}

/// The compression that the name of an archive stands for.
pub open spec fn compression_of(name: Seq<char>) -> Compression {
    if ends_with(name, ".tar.gz"@) || ends_with(name, ".tgz"@) {
        Compression::Gzip
    } else if ends_with(name, ".tar.bz2"@) || ends_with(name, ".tbz2"@) {
        Compression::Bzip2
    } else if ends_with(name, ".tar.xz"@) || ends_with(name, ".txz"@) {
        Compression::Xz
    } else {
        Compression::Plain
    }
}

/// The compression that the name of an archive stands for.
pub fn compression(archive_name: &str) -> (c: Compression)
    ensures
        c == compression_of(archive_name@),
{
    if str_ends_with(archive_name, ".tar.gz") || str_ends_with(archive_name, ".tgz") {
        Compression::Gzip
    } else if str_ends_with(archive_name, ".tar.bz2") || str_ends_with(archive_name, ".tbz2") {
        Compression::Bzip2
    } else if str_ends_with(archive_name, ".tar.xz") || str_ends_with(archive_name, ".txz") {
        Compression::Xz
    } else {
        Compression::Plain
    }
}

/// The letter that asks the tool for a compression; none for a plain archive.
pub open spec fn compression_letter(c: Compression) -> Seq<char> {
    match c {
        Compression::Gzip => "z"@,
        Compression::Bzip2 => "j"@,
        Compression::Xz => "J"@,
        Compression::Plain => ""@,
    }
}

fn compression_letter_str(c: Compression) -> (s: &'static str)
    ensures
        s@ == compression_letter(c),
{
    match c {
        Compression::Gzip => "z",
        Compression::Bzip2 => "j",
        Compression::Xz => "J",
        Compression::Plain => "",
    }
}

/// The option word for making the archive `archive_name`: create, verbose,
/// to a file, keeping permissions, and the compression its name asks for.
pub fn tar_create_options(archive_name: &str) -> (o: String)
    ensures
        o@ == "cvfp"@ + compression_letter(compression_of(archive_name@)),
{
    concat2("cvfp", compression_letter_str(compression(archive_name)))
}

/// The option word for listing the archive `archive_name` with sizes.
pub fn tar_list_options(archive_name: &str) -> (o: String)
    ensures
        o@ == "tvf"@ + compression_letter(compression_of(archive_name@)),
{
    concat2("tvf", compression_letter_str(compression(archive_name)))
}

/// The option word for unpacking the archive `archive_name`.
pub fn tar_extract_options(archive_name: &str) -> (o: String)
    ensures
        o@ == "xvfp"@ + compression_letter(compression_of(archive_name@)),
{
    concat2("xvfp", compression_letter_str(compression(archive_name)))
}

/// Whether a lower-case file name ends like an archive this program unpacks.
pub open spec fn has_archive_suffix(lower: Seq<char>) -> bool {
    ||| ends_with(lower, ".tar"@)
    ||| ends_with(lower, ".tar.gz"@)
    ||| ends_with(lower, ".tgz"@)
    ||| ends_with(lower, ".tar.bz2"@)
    ||| ends_with(lower, ".tbz2"@)
    ||| ends_with(lower, ".tar.xz"@)
    ||| ends_with(lower, ".txz"@)
}

/// Whether the lower-case file name `lower` ends like an archive.
pub fn is_archive_name(lower: &str) -> (r: bool)
    ensures
        r == has_archive_suffix(lower@),
{
    str_ends_with(lower, ".tar") || str_ends_with(lower, ".tar.gz") || str_ends_with(lower, ".tgz")
        || str_ends_with(lower, ".tar.bz2") || str_ends_with(lower, ".tbz2") || str_ends_with(
        lower,
        ".tar.xz",
    ) || str_ends_with(lower, ".txz")
}

/// Whether `filename` names an archive this program unpacks, whatever the
/// case of its letters.
pub fn is_archive_file(filename: &str) -> (r: bool)
    ensures
        r == has_archive_suffix(lowercase_of(filename@)),
{
    let lower = to_lowercase(filename);
    is_archive_name(lower.as_str())
}

/// `s` with every copy of `p` at its end cut off.
pub open spec fn without_suffixes(s: Seq<char>, p: Seq<char>) -> Seq<char>
    decreases s.len(),
{
    if p.len() > 0 && ends_with(s, p) {
        without_suffixes(s.subrange(0, s.len() - p.len()), p)
    } else {
        s
    }
}

fn strip_suffixes(v: Vec<char>, p: &str) -> (out: Vec<char>)
    ensures
        out@ == without_suffixes(v@, p@),
{
    let pv = chars_of(p);
    if pv.len() == 0 {
        return v;
    }
    let mut cur = v;
    while has_suffix(&cur, &pv)
        invariant
            pv@ == p@,
            pv.len() > 0,
            without_suffixes(v@, p@) == without_suffixes(cur@, p@),
        decreases cur.len(),
    {
        cur = subvec(&cur, 0, cur.len() - pv.len());
    }
    cur
}

/// The name of the directory an archive is unpacked into: the archive's name
/// with its archive endings cut off.
pub open spec fn extract_dir_of(name: Seq<char>) -> Seq<char> {
    without_suffixes(
        without_suffixes(
            without_suffixes(
                without_suffixes(
                    without_suffixes(
                        without_suffixes(without_suffixes(name, ".tar.gz"@), ".tgz"@),
                        ".tar.bz2"@,
                    ),
                    ".tbz2"@,
                ),
                ".tar.xz"@,
            ),
            ".txz"@,
        ),
        ".tar"@,
    )
}

/// The name of the directory that `archive_name` is unpacked into.
pub fn extract_dir_name(archive_name: &str) -> (dir: String)
    ensures
        dir@ == extract_dir_of(archive_name@),
{
    let v = chars_of(archive_name);
    let v = strip_suffixes(v, ".tar.gz");
    let v = strip_suffixes(v, ".tgz");
    let v = strip_suffixes(v, ".tar.bz2");
    let v = strip_suffixes(v, ".tbz2");
    let v = strip_suffixes(v, ".tar.xz");
    let v = strip_suffixes(v, ".txz");
    let v = strip_suffixes(v, ".tar");
    string_of(&v)
}

/// The arguments for making an archive: the option word, the archive's name,
/// one `--exclude` for each path left out, then the files, each as a path
/// from the current directory.
pub open spec fn create_args_of(
    archive_name: Seq<char>,
    files: Seq<Seq<char>>,
    excluded: Seq<Seq<char>>,
) -> Seq<Seq<char>> {
    seq!["cvfp"@ + compression_letter(compression_of(archive_name)), archive_name] + prefixed(
        "--exclude=./"@,
        excluded,
    ) + prefixed("./"@, files)
}

/// The arguments for making the archive `archive_name` of `files`, leaving
/// out the paths in `excluded`.
pub fn tar_create_args(archive_name: &str, files: &Vec<String>, excluded: &Vec<String>) -> (args:
    Vec<String>)
    ensures
        texts(args@) == create_args_of(archive_name@, texts(files@), texts(excluded@)),
{
    let mut args: Vec<String> = Vec::new();
    args.push(tar_create_options(archive_name));
    args.push(String::from_str(archive_name));
    assert(texts(args@) == seq![
        "cvfp"@ + compression_letter(compression_of(archive_name@)),
        archive_name@,
    ]);
    extend_prefixed(&mut args, "--exclude=./", excluded);
    extend_prefixed(&mut args, "./", files);
    args
}

/// The arguments for listing the archive at `archive_path`, named `archive_name`.
pub fn tar_list_args(archive_name: &str, archive_path: &str) -> (args: Vec<String>)
    ensures
        texts(args@) == seq![
            "tvf"@ + compression_letter(compression_of(archive_name@)),
            archive_path@,
        ],
{
    let mut args: Vec<String> = Vec::new();
    args.push(tar_list_options(archive_name));
    args.push(String::from_str(archive_path));
    assert(texts(args@) == seq![
        "tvf"@ + compression_letter(compression_of(archive_name@)),
        archive_path@,
    ]);
    args
}

/// The arguments for unpacking the archive at `archive_path`, named `archive_name`.
pub fn tar_extract_args(archive_name: &str, archive_path: &str) -> (args: Vec<String>)
    ensures
        texts(args@) == seq![
            "xvfp"@ + compression_letter(compression_of(archive_name@)),
            archive_path@,
        ],
{
    let mut args: Vec<String> = Vec::new();
    args.push(tar_extract_options(archive_name));
    args.push(String::from_str(archive_path));
    assert(texts(args@) == seq![
        "xvfp"@ + compression_letter(compression_of(archive_name@)),
        archive_path@,
    ]);
    args
}

/// How the tool's output is buffered when the buffering wrapper is there.
#[derive(Debug, Clone, Copy, PartialEq, Eq, Structural)]
pub enum Buffering {
    /// No buffering at all (`-o0 -e0`).
    Off,
    /// One line at a time (`-oL -eL`).
    Line,
}

/// The command that runs `tool` with `args`: through the buffering wrapper
/// where `has_stdbuf` says it is there, else `tool` itself.
pub open spec fn tool_command_of(
    has_stdbuf: bool,
    buffering: Buffering,
    tool: Seq<char>,
    args: Seq<Seq<char>>,
) -> CommandView {
    if has_stdbuf {
        CommandView {
            program: "stdbuf"@,
            args: (match buffering {
                Buffering::Off => seq!["-o0"@, "-e0"@, tool],
                Buffering::Line => seq!["-oL"@, "-eL"@, tool],
            }) + args,
        }
    } else {
        CommandView { program: tool, args }
    }
}

/// The command that runs `tool` with `args`, with its output unbuffered where
/// the buffering wrapper is available: a buffered tool shows its lines too
/// late to be of use as progress.
pub fn tool_command(has_stdbuf: bool, buffering: Buffering, tool: &str, args: &Vec<String>) -> (cmd:
    CommandLine)
    ensures
        cmd@ == tool_command_of(has_stdbuf, buffering, tool@, texts(args@)),
{
    if has_stdbuf {
        let mut all: Vec<String> = Vec::new();
        match buffering {
            Buffering::Off => {
                all.push(String::from_str("-o0"));
                all.push(String::from_str("-e0"));
            },
            Buffering::Line => {
                all.push(String::from_str("-oL"));
                all.push(String::from_str("-eL"));
            },
        }
        all.push(String::from_str(tool));
        assert(texts(all@) == match buffering {
            Buffering::Off => seq!["-o0"@, "-e0"@, tool@],
            Buffering::Line => seq!["-oL"@, "-eL"@, tool@],
        });
        extend_strings(&mut all, args);
        CommandLine { program: String::from_str("stdbuf"), args: all }
    } else {
        let mut all: Vec<String> = Vec::new();
        assert(texts(all@) == Seq::<Seq<char>>::empty());
        extend_strings(&mut all, args);
        assert(texts(all@) == texts(args@));
        CommandLine { program: String::from_str(tool), args: all }
    }
}

/// What one line of the tool's verbose output says.
#[derive(Debug, Clone, PartialEq, Eq)]
pub enum OutputLine {
    /// Nothing but white space.
    Blank,
    /// A complaint of the tool: the line starts with the tool's own name and a colon.
    Failure(String),
    /// The path of an entry the tool has just handled.
    Entry(String),
}

/// An `OutputLine` with its text as a character sequence.
pub enum OutputLineView {
    Blank,
    Failure(Seq<char>),
    Entry(Seq<char>),
}

impl View for OutputLine {
    type V = OutputLineView;

    open spec fn view(&self) -> OutputLineView {
        match *self {
            OutputLine::Blank => OutputLineView::Blank,
            OutputLine::Failure(t) => OutputLineView::Failure(t@),
            OutputLine::Entry(t) => OutputLineView::Entry(t@),
        }
    }
}

/// What the line `line` of the tool's verbose output says, trailing white
/// space aside.
pub open spec fn output_line_of(line: Seq<char>) -> OutputLineView {
    let t = trim_end(line);
    if starts_with(t, "tar:"@) || starts_with(t, "gtar:"@) {
        OutputLineView::Failure(t)
    } else if t.len() > 0 {
        OutputLineView::Entry(t)
    } else {
        OutputLineView::Blank
    }
}

/// Reads one line of the tool's verbose output.
pub fn classify_output_line(line: &str) -> (r: OutputLine)
    ensures
        r@ == output_line_of(line@),
{
    let v = chars_of(line);
    let t = trim_end_chars(&v);
    let tar = chars_of("tar:");
    let gtar = chars_of("gtar:");
    if has_prefix(&t, &tar) || has_prefix(&t, &gtar) {
        OutputLine::Failure(string_of(&t))
    } else if t.len() > 0 {
        OutputLine::Entry(string_of(&t))
    } else {
        OutputLine::Blank
    }
}

/// The first line of `s`, or `fallback` where `s` has no line.
pub open spec fn first_line_or(s: Seq<char>, fallback: Seq<char>) -> Seq<char> {
    if lines(s).len() > 0 {
        lines(s)[0]
    } else {
        fallback
    }
}

/// The text that says why the tool failed: its last complaint on standard
/// output; else the first line of what it wrote to standard error, unless
/// that is nothing but white space; else `fallback`.
pub open spec fn failure_text_of(
    complaint: Option<Seq<char>>,
    stderr: Seq<char>,
    fallback: Seq<char>,
) -> Seq<char> {
    match complaint {
        Some(t) => t,
        None => if trim(stderr).len() > 0 {
            first_line_or(stderr, fallback)
        } else {
            fallback
        },
    }
}

/// The text that says why the tool failed.
pub fn failure_text(complaint: &Option<String>, stderr: &str, fallback: &str) -> (msg: String)
    ensures
        msg@ == failure_text_of(
            match *complaint {
                Some(t) => Some(t@),
                None => None,
            },
            stderr@,
            fallback@,
        ),
{
    match complaint {
        Some(t) => t.clone(),
        None => {
            let v = chars_of(stderr);
            let t = trim_chars(&v);
            if t.len() > 0 {
                let ls = split_lines(&v);
                if ls.len() > 0 {
                    assert(rows(ls@)[0] == ls@[0]@);
                    string_of(&ls[0])
                } else {
                    String::from_str(fallback)
                }
            } else {
                String::from_str(fallback)
            }
        },
    }
}


/// What the archiving tools answered when each was asked for its version:
/// the tool named in the settings, the GNU-flavoured tool `gtar`, and the
/// plain `tar`. The answer for a tool that was not asked, because the
/// settings name none, is `false`.
#[derive(Debug, Clone, Copy, PartialEq, Eq)]
pub struct ToolProbe {
    pub configured: bool,
    pub gtar: bool,
    pub tar: bool,
}

/// The archiving tool to use, where there is one: the tool named in the
/// settings if the settings name one, and then no other; else `gtar` where
/// it answers, else `tar` where it answers.
pub open spec fn tool_found(configured: Option<Seq<char>>, probe: ToolProbe) -> Option<Seq<char>> {
    match configured {
        Some(t) => if probe.configured {
            Some(t)
        } else {
            None
        },
        None => if probe.gtar {
            Some("gtar"@)
        } else if probe.tar {
            Some("tar"@)
        } else {
            None
        },
    }
}

/// What the user is told where no archiving tool answers.
pub open spec fn tool_missing_text() -> Seq<char> {
    "tar command not found"@
}

/// Picks the archiving tool from the tool named in the settings and the
/// answers to the probes; `None` where none can be used.
pub fn resolve_tar_tool(configured: &Option<String>, probe: ToolProbe) -> (r: Option<String>)
    ensures
        match tool_found(
            match configured {
                Some(t) => Some(t@),
                None => None,
            },
            probe,
        ) {
            Some(t) => r matches Some(tool) && tool@ == t,
            None => r is None,
        },
{
    match configured {
        Some(t) => if probe.configured {
            Some(t.clone())
        } else {
            None
        },
        None => if probe.gtar {
            Some(String::from_str("gtar"))
        } else if probe.tar {
            Some(String::from_str("tar"))
        } else {
            None
        },
    }
}

/// A configured tool is the only one tried; and where a tool is found, it
/// has answered its probe.
pub proof fn lemma_tool_found_has_answered(configured: Option<Seq<char>>, probe: ToolProbe)
    ensures
        configured is Some ==> (tool_found(configured, probe) is Some <==> probe.configured),
        configured is None ==> (tool_found(configured, probe) is Some <==> probe.gtar || probe.tar),
        configured is None && probe.gtar ==> tool_found(configured, probe) == Some("gtar"@),
{
}

/// The sum of `a` and `b`, or the largest number where the sum does not fit.
pub open spec fn add_capped(a: u64, b: u64) -> u64 {
    if a + b > u64::MAX {
        u64::MAX
    } else {
        (a + b) as u64
    }
}

/// The sizes known before an archive job runs: how many entries there are,
/// how many bytes in all, and the size of each path.
pub struct ArchiveListing {
    pub total_files: usize,
    pub total_bytes: u64,
    pub sizes: vstd::hash_map::StringHashMap<u64>,
}

/// An `ArchiveListing` with its paths as character sequences.
pub struct ListingView {
    pub total_files: usize,
    pub total_bytes: u64,
    pub sizes: Map<Seq<char>, u64>,
}

impl View for ArchiveListing {
    type V = ListingView;

    open spec fn view(&self) -> ListingView {
        ListingView {
            total_files: self.total_files,
            total_bytes: self.total_bytes,
            sizes: self.sizes@,
        }
    }
}

/// The listing that knows of nothing.
pub open spec fn empty_listing() -> ListingView {
    ListingView { total_files: 0, total_bytes: 0, sizes: Map::empty() }
}

/// `n` and one more, unless `n` is already the largest number.
pub open spec fn next_count(n: usize) -> usize {
    if n < usize::MAX {
        (n + 1) as usize
    } else {
        n
    }
}

/// The listing after one more line of the tool's table of contents. A line of
/// six words or more stands for an entry. Its third word is the size, its
/// sixth and later words are the path; where the third word is no number the
/// entry is counted but its size stays unknown.
pub open spec fn listing_after_line(l: ListingView, line: Seq<char>) -> ListingView {
    let w = words(line);
    if w.len() >= 6 {
        match parse_u64(w[2]) {
            Some(size) => ListingView {
                total_files: next_count(l.total_files),
                total_bytes: add_capped(l.total_bytes, size),
                sizes: l.sizes.insert(joined(w.subrange(5, w.len() as int), " "@), size),
            },
            None => ListingView { total_files: next_count(l.total_files), ..l },
        }
    } else {
        l
    }
}

/// The listing that the lines `ls` of a table of contents add up to.
pub open spec fn listing_of_lines(ls: Seq<Seq<char>>) -> ListingView
    decreases ls.len(),
{
    if ls.len() == 0 {
        empty_listing()
    } else {
        listing_after_line(listing_of_lines(ls.drop_last()), ls.last())
    }
}

/// The listing that the tool's table of contents `output` adds up to; the
/// empty listing where the tool gave none.
pub open spec fn listing_of(output: Option<Seq<char>>) -> ListingView {
    match output {
        Some(text) => listing_of_lines(lines(text)),
        None => empty_listing(),
    }
}

fn capped_add(a: u64, b: u64) -> (r: u64)
    ensures
        r == add_capped(a, b),
{
    if a > u64::MAX - b {
        u64::MAX
    } else {
        a + b
    }
}

fn count_up(n: usize) -> (r: usize)
    ensures
        r == next_count(n),
{
    if n < usize::MAX {
        n + 1
    } else {
        n
    }
}

/// Reads the tool's table of contents: `output` is what the listing command
/// wrote, or `None` where it failed.
pub fn list_archive_contents(output: Option<&str>) -> (l: ArchiveListing)
    ensures
        l@ == listing_of(
            match output {
                Some(t) => Some(t@),
                None => None,
            },
        ),
{
    let mut listing = ArchiveListing {
        total_files: 0,
        total_bytes: 0,
        sizes: vstd::hash_map::StringHashMap::new(),
    };
    match output {
        None => listing,
        Some(text) => {
            let v = chars_of(text);
            let ls = split_lines(&v);
            let mut i: usize = 0;
            assert(rows(ls@).subrange(0, 0) == Seq::<Seq<char>>::empty());
            while i < ls.len()
                invariant
                    i <= ls.len(),
                    listing@ == listing_of_lines(rows(ls@).subrange(0, i as int)),
                decreases ls.len() - i,
            {
                let w = split_words(&ls[i]);
                assert(rows(ls@).subrange(0, i + 1).drop_last() == rows(ls@).subrange(0, i as int));
                assert(rows(ls@).subrange(0, i + 1).last() == ls@[i as int]@);
                if w.len() >= 6 {
                    assert(rows(w@)[2] == w@[2]@);
                    match parse_u64_chars(&w[2]) {
                        Some(size) => {
                            let name = join_rows(&w, 5, " ");
                            listing.sizes.insert(string_of(&name), size);
                            listing.total_bytes = capped_add(listing.total_bytes, size);
                        },
                        None => {},
                    }
                    listing.total_files = count_up(listing.total_files);
                }
                i += 1;
            }
            assert(rows(ls@).subrange(0, ls.len() as int) == rows(ls@));
            listing
        },
    }
}

/// One thing found on disk under the files chosen for an archive.
#[derive(Debug, Clone, PartialEq, Eq)]
pub struct SourceEntry {
    /// Its path as the tool will print it: from the current directory, `./` first.
    pub tar_path: String,
    /// Its size in bytes.
    pub size: u64,
    pub is_directory: bool,
}

/// A `SourceEntry` with its path as a character sequence.
pub struct SourceEntryView {
    pub tar_path: Seq<char>,
    pub size: u64,
    pub is_directory: bool,
}

impl View for SourceEntry {
    type V = SourceEntryView;

    open spec fn view(&self) -> SourceEntryView {
        SourceEntryView {
            tar_path: self.tar_path@,
            size: self.size,
            is_directory: self.is_directory,
        }
    }
}

/// The views of a list of source entries.
pub open spec fn entry_views(es: Seq<SourceEntry>) -> Seq<SourceEntryView> {
    es.map_values(|e: SourceEntry| e@)
}

/// Sizes and total after the entries `es`: a directory has size 0, anything
/// else adds its size to the total.
pub open spec fn sizes_of_entries(es: Seq<SourceEntryView>) -> ListingView
    decreases es.len(),
{
    if es.len() == 0 {
        empty_listing()
    } else {
        let l = sizes_of_entries(es.drop_last());
        let e = es.last();
        if e.is_directory {
            ListingView { sizes: l.sizes.insert(e.tar_path, 0), ..l }
        } else {
            ListingView {
                total_bytes: add_capped(l.total_bytes, e.size),
                sizes: l.sizes.insert(e.tar_path, e.size),
                ..l
            }
        }
    }
}

/// The listing for making an archive of what was found on disk: the size of
/// each path, their total, and as the number of entries the number of
/// different paths.
pub fn calculate_tar_sizes(entries: &Vec<SourceEntry>) -> (l: ArchiveListing)
    ensures
        l@.sizes == sizes_of_entries(entry_views(entries@)).sizes,
        l@.total_bytes == sizes_of_entries(entry_views(entries@)).total_bytes,
        l@.total_files == l@.sizes.len(),
{
    let mut listing = ArchiveListing {
        total_files: 0,
        total_bytes: 0,
        sizes: vstd::hash_map::StringHashMap::new(),
    };
    let ghost all = entry_views(entries@);
    let mut i: usize = 0;
    assert(all.subrange(0, 0) == Seq::<SourceEntryView>::empty());
    while i < entries.len()
        invariant
            i <= entries.len(),
            all == entry_views(entries@),
            listing.total_files == 0,
            listing@ == sizes_of_entries(all.subrange(0, i as int)),
        decreases entries.len() - i,
    {
        assert(all.subrange(0, i + 1).drop_last() == all.subrange(0, i as int));
        assert(all.subrange(0, i + 1).last() == entries@[i as int]@);
        let e = &entries[i];
        if e.is_directory {
            listing.sizes.insert(e.tar_path.clone(), 0);
        } else {
            listing.sizes.insert(e.tar_path.clone(), e.size);
            listing.total_bytes = capped_add(listing.total_bytes, e.size);
        }
        i += 1;
    }
    assert(all.subrange(0, entries.len() as int) == all);
    listing.total_files = listing.sizes.len();
    listing
}

/// The path under which the tool prints the chosen file `file`.
pub fn root_tar_path(file: &str) -> (p: String)
    ensures
        p@ == "./"@ + file@,
{
    concat2("./", file)
}

/// The path under which the tool prints the entry `name` of the directory
/// that it prints as `parent`.
pub fn child_tar_path(parent: &str, name: &str) -> (p: String)
    ensures
        p@ == parent@ + "/"@ + name@,
{
    crate::text::concat3(parent, "/", name)
}

} // verus!
