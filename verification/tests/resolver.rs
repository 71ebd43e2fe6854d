use projsync::gitignore::{listed_paths, ls_files_command, probe_paths, retain_existing};
use projsync::text::{decode, split_nonempty_lines};
use projsync::{gitignore_files, Invocation, ProcessOutput, ResolverError, ResolverReplies, ResolverStep};

fn strings(items: &[&str]) -> Vec<String> {
    items.iter().map(|item| item.to_string()).collect()
}

fn finished(code: Option<i32>, stdout: &[u8], stderr: &[u8]) -> Result<ProcessOutput, String> {
    Ok(ProcessOutput { code, stdout: stdout.to_vec(), stderr: stderr.to_vec() })
}

fn replies(
    listing: Option<Result<ProcessOutput, String>>,
    presence: Option<Vec<bool>>,
) -> ResolverReplies {
    ResolverReplies { listing, presence }
}

#[test]
fn listing_command_is_scoped_to_the_root() {
    let command = ls_files_command("/home/u/proj");
    assert_eq!(
        command,
        Invocation {
            executable: "git".to_string(),
            arguments: strings(&[
                "-C",
                "/home/u/proj",
                "ls-files",
                "--exclude-standard",
                "-oi",
                "--directory",
            ]),
        }
    );
}

#[test]
fn resolver_starts_by_running_the_tool() {
    let step = gitignore_files("/home/u/proj", &replies(None, None));
    assert_eq!(step, ResolverStep::RunTool(ls_files_command("/home/u/proj")));
}

#[test]
fn resolver_runs_the_tool_before_it_looks_at_presence() {
    let step = gitignore_files("proj", &replies(None, Some(vec![true, false])));
    assert_eq!(step, ResolverStep::RunTool(ls_files_command("proj")));
}

#[test]
fn resolver_probes_each_listed_path_under_the_root() {
    let listing = finished(Some(0), b"dist/\n*.log\n", b"");
    let step = gitignore_files("/home/u/proj", &replies(Some(listing), None));
    assert_eq!(
        step,
        ResolverStep::Probe(strings(&["/home/u/proj/dist/", "/home/u/proj/*.log"]))
    );
}

#[test]
fn probe_paths_adjoin_root_and_entry() {
    let paths = probe_paths("/srv/tree", &strings(&["target", "a/b.txt"]));
    assert_eq!(paths, strings(&["/srv/tree/target", "/srv/tree/a/b.txt"]));
    assert_ne!(paths, strings(&["target", "a/b.txt"]));
}

#[test]
fn probed_locations_follow_the_listing_in_number_and_order() {
    let lines = strings(&["b", "a", "b", "c/d/"]);
    let paths = probe_paths("/r", &lines);
    assert_eq!(paths, strings(&["/r/b", "/r/a", "/r/b", "/r/c/d/"]));
    let listing = finished(Some(0), b"b\na\n\nb\nc/d/\n", b"");
    assert_eq!(
        gitignore_files("/r", &replies(Some(listing), None)),
        ResolverStep::Probe(paths)
    );
    assert_eq!(probe_paths("/r", &Vec::new()), Vec::<String>::new());
}

#[test]
fn resolver_keeps_listed_paths_that_are_present() {
    let listing = finished(Some(0), b"dist/\n*.log\n", b"");
    let step = gitignore_files("/home/u/proj", &replies(Some(listing), Some(vec![true, true])));
    assert_eq!(step, ResolverStep::Done(Ok(strings(&["dist/", "*.log"]))));
}

#[test]
fn resolver_drops_listed_paths_that_are_absent() {
    let listing = finished(Some(0), b"a\nb\nc\nd\n", b"");
    let step = gitignore_files(
        "/r",
        &replies(Some(listing), Some(vec![true, false, false, true])),
    );
    assert_eq!(step, ResolverStep::Done(Ok(strings(&["a", "d"]))));
}

#[test]
fn resolver_drops_everything_when_nothing_is_present() {
    let listing = finished(Some(0), b"a\nb\n", b"");
    let step = gitignore_files("/r", &replies(Some(listing), Some(vec![false, false])));
    assert_eq!(step, ResolverStep::Done(Ok(Vec::new())));
}

#[test]
fn a_path_without_a_mark_counts_as_absent() {
    let kept = retain_existing(&strings(&["a", "b", "c"]), &vec![true]);
    assert_eq!(kept, strings(&["a"]));
    let kept = retain_existing(&strings(&["a", "b", "c"]), &Vec::new());
    assert_eq!(kept, Vec::<String>::new());
}

#[test]
fn marks_beyond_the_listing_are_ignored() {
    let kept = retain_existing(&strings(&["a", "b"]), &vec![false, true, true, true]);
    assert_eq!(kept, strings(&["b"]));
}

#[test]
fn duplicates_in_the_listing_are_kept() {
    let kept = retain_existing(&strings(&["x", "x", "y", "x"]), &vec![true, false, true, true]);
    assert_eq!(kept, strings(&["x", "y", "x"]));
}

#[test]
fn silent_tool_lists_nothing() {
    let listing = finished(Some(0), b"", b"");
    assert_eq!(listed_paths(&listing), Ok(Vec::new()));
    let step = gitignore_files("/r", &replies(Some(listing), None));
    assert_eq!(step, ResolverStep::Probe(Vec::new()));
    let listing = finished(Some(0), b"", b"");
    let step = gitignore_files("/r", &replies(Some(listing), Some(Vec::new())));
    assert_eq!(step, ResolverStep::Done(Ok(Vec::new())));
}

#[test]
fn launch_failure_ends_the_resolution() {
    let listing = Err("No such file or directory (os error 2)".to_string());
    let step = gitignore_files("/r", &replies(Some(listing), None));
    assert_eq!(
        step,
        ResolverStep::Done(Err(ResolverError::LaunchFailure(
            "No such file or directory (os error 2)".to_string()
        )))
    );
}

#[test]
fn launch_failure_wins_over_presence() {
    let listing = Err("denied".to_string());
    let step = gitignore_files("/r", &replies(Some(listing), Some(vec![true])));
    assert_eq!(
        step,
        ResolverStep::Done(Err(ResolverError::LaunchFailure("denied".to_string())))
    );
}

#[test]
fn nonzero_exit_reports_the_error_stream() {
    let listing = finished(Some(128), b"ignored\n", b"fatal: not a git repository\n");
    assert_eq!(
        listed_paths(&listing),
        Err(ResolverError::ToolFailure("fatal: not a git repository\n".to_string()))
    );
}

#[test]
fn signal_exit_is_a_tool_failure() {
    let listing = finished(None, b"a\n", b"killed");
    assert_eq!(listed_paths(&listing), Err(ResolverError::ToolFailure("killed".to_string())));
}

#[test]
fn undecodable_error_stream_reads_unknown_error() {
    let listing = finished(Some(1), b"", &[0xff, 0xfe]);
    assert_eq!(
        listed_paths(&listing),
        Err(ResolverError::ToolFailure("Unknown error".to_string()))
    );
}

#[test]
fn undecodable_listing_fails_the_resolution() {
    let listing = finished(Some(0), &[b'a', b'\n', 0xc3, 0x28, b'\n'], b"");
    assert_eq!(listed_paths(&listing), Err(ResolverError::UndecodableOutput));
    let listing = finished(Some(0), &[0x80], b"");
    let step = gitignore_files("/r", &replies(Some(listing), Some(vec![true])));
    assert_eq!(step, ResolverStep::Done(Err(ResolverError::UndecodableOutput)));
}

#[test]
fn resolver_error_messages() {
    assert_eq!(
        ResolverError::LaunchFailure("program not found".to_string()).message("/home/u/proj"),
        "Failed to run git ls-files at /home/u/proj: program not found"
    );
    assert_eq!(
        ResolverError::ToolFailure("fatal: bad\n".to_string()).message("."),
        "Failed to run git ls-files at .: fatal: bad\n"
    );
    assert_eq!(
        ResolverError::UndecodableOutput.message("C:\\work"),
        "Failed to run git ls-files at C:\\work: output is not valid UTF-8"
    );
}

#[test]
fn resolution_repeats_on_unchanged_answers() {
    let first = gitignore_files(
        "/r",
        &replies(Some(finished(Some(0), b"x\ny\nz", b"")), Some(vec![true, false, true])),
    );
    let second = gitignore_files(
        "/r",
        &replies(Some(finished(Some(0), b"x\ny\nz", b"")), Some(vec![true, false, true])),
    );
    assert_eq!(first, second);
    assert_eq!(first, ResolverStep::Done(Ok(strings(&["x", "z"]))));
}

#[test]
fn lines_are_split_at_newlines_only() {
    assert_eq!(split_nonempty_lines("a\nb"), strings(&["a", "b"]));
    assert_eq!(split_nonempty_lines("a\nb\n"), strings(&["a", "b"]));
    assert_eq!(split_nonempty_lines("\n\na\n\n\nb\n\n"), strings(&["a", "b"]));
    assert_eq!(split_nonempty_lines("a b\tc\r\nd"), strings(&["a b\tc\r", "d"]));
    assert_eq!(split_nonempty_lines(" "), strings(&[" "]));
}

#[test]
fn text_without_lines_gives_nothing() {
    assert_eq!(split_nonempty_lines(""), Vec::<String>::new());
    assert_eq!(split_nonempty_lines("\n"), Vec::<String>::new());
    assert_eq!(split_nonempty_lines("\n\n\n"), Vec::<String>::new());
}

#[test]
fn lines_keep_characters_outside_ascii() {
    assert_eq!(
        split_nonempty_lines("caf\u{e9}/\n\u{65e5}\u{672c}\u{8a9e}.txt\n\u{1f600}"),
        strings(&["caf\u{e9}/", "\u{65e5}\u{672c}\u{8a9e}.txt", "\u{1f600}"])
    );
}

#[test]
fn decode_accepts_text_and_nothing_else() {
    assert_eq!(decode(&b"dist/\n".to_vec()), Some("dist/\n".to_string()));
    assert_eq!(decode(&vec![0xe2, 0x82, 0xac]), Some("\u{20ac}".to_string()));
    assert_eq!(decode(&Vec::new()), Some(String::new()));
    assert_eq!(decode(&vec![0xe2, 0x82]), None);
    assert_eq!(decode(&vec![0xed, 0xa0, 0x80]), None);
    assert_eq!(decode(&vec![0xc0, 0x80]), None);
}
