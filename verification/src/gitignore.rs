//! The ignore-set resolver: which paths of a source tree the version-control
//! ignore rules exclude, restricted to those that are present on disk.
//!
//! The resolver never runs anything itself. [`gitignore_files`] looks at what
//! has been answered so far and names the next thing to do.

use vstd::prelude::*;
use vstd::string::StringExecFns;
use vstd::utf8::{decode_utf8, valid_utf8};
use crate::process::{
    exited_cleanly, is_success, Invocation, InvocationView, ProcessOutput, ProcessOutputView,
};
use crate::text::{concat, decode, lines, nonempty_lines, split_nonempty_lines};

verus! {

/// Why the resolver has no list to give.
#[derive(Debug, PartialEq, Eq)]
pub enum ResolverError {
    /// The ignore-rule tool could not be launched; holds the cause.
    LaunchFailure(String),
    /// The tool ran and reported failure; holds what it wrote to its error
    /// stream, or `Unknown error` where that is not text.
    ToolFailure(String),
    /// The tool reported success but its listing is not text.
    UndecodableOutput,
}

/// The mathematical content of a [`ResolverError`].
pub enum ResolverErrorView {
    LaunchFailure(Seq<char>),
    ToolFailure(Seq<char>),
    UndecodableOutput,
}

impl View for ResolverError {
    type V = ResolverErrorView;

    open spec fn view(&self) -> ResolverErrorView {
        match self {
            ResolverError::LaunchFailure(cause) => ResolverErrorView::LaunchFailure(cause@),
            ResolverError::ToolFailure(text) => ResolverErrorView::ToolFailure(text@),
            ResolverError::UndecodableOutput => ResolverErrorView::UndecodableOutput,
        }
    }
}

/// What went wrong, without the place: the cause of a failed launch, what a
/// failed tool wrote, or a fixed remark on a listing that is not text.
pub open spec fn error_cause(error: ResolverErrorView) -> Seq<char> {
    match error {
        ResolverErrorView::LaunchFailure(cause) => cause,
        ResolverErrorView::ToolFailure(text) => text,
        ResolverErrorView::UndecodableOutput => "output is not valid UTF-8"@,
    }
}

/// The message of a resolver error for the tree at `root`.
pub open spec fn error_message(error: ResolverErrorView, root: Seq<char>) -> Seq<char> {
    "Failed to run git ls-files at "@ + root + ": "@ + error_cause(error)
}

impl ResolverError {
    /// Renders this error for the tree at `root`.
    pub fn message(&self, root: &str) -> (text: String)
        ensures
            text@ == error_message(self@, root@),
    {
        let mut text = concat("Failed to run git ls-files at ", root);
        text.append(": ");
        match self {
            ResolverError::LaunchFailure(cause) => text.append(cause.as_str()),
            ResolverError::ToolFailure(output) => text.append(output.as_str()),
            ResolverError::UndecodableOutput => text.append("output is not valid UTF-8"),
        }
        text
    }
}

/// The arguments that make the ignore-rule tool list, one per line, the
/// untracked and ignored paths below `root`, whole directories collapsed.
pub open spec fn ls_files_arguments(root: Seq<char>) -> Seq<Seq<char>> {
    seq!["-C"@, root, "ls-files"@, "--exclude-standard"@, "-oi"@, "--directory"@]
}

/// The full command for the listing of `root`.
pub open spec fn ls_files_invocation(root: Seq<char>) -> InvocationView {
    InvocationView { executable: "git"@, arguments: ls_files_arguments(root) }
}

/// Builds the command that lists the ignored paths below `root`.
pub fn ls_files_command(root: &str) -> (command: Invocation)
    ensures
        command@ == ls_files_invocation(root@),
{
    let mut arguments: Vec<String> = Vec::new();
    arguments.push("-C".to_owned());
    arguments.push(root.to_owned());
    arguments.push("ls-files".to_owned());
    arguments.push("--exclude-standard".to_owned());
    arguments.push("-oi".to_owned());
    arguments.push("--directory".to_owned());
    let command = Invocation { executable: "git".to_owned(), arguments };
    assert(command@.arguments == ls_files_arguments(root@));
    command
}

/// What the tool's error stream says: its text, or `Unknown error` where the
/// bytes are not text.
pub open spec fn failure_text(stderr: Seq<u8>) -> Seq<char> {
    if valid_utf8(stderr) {
        decode_utf8(stderr)
    } else {
        "Unknown error"@
    }
}

/// The view of what running the tool gave: its output, or why it did not start.
pub open spec fn run_view(run: Result<ProcessOutput, String>) -> Result<
    ProcessOutputView,
    Seq<char>,
> {
    match run {
        Ok(output) => Ok(output@),
        Err(cause) => Err(cause@),
    }
}

/// The view of a resolver result.
pub open spec fn resolution_view(result: Result<Vec<String>, ResolverError>) -> Result<
    Seq<Seq<char>>,
    ResolverErrorView,
> {
    match result {
        Ok(paths) => Ok(paths.deep_view()),
        Err(error) => Err(error@),
    }
}

/// The paths that a run of the tool lists: the non-empty lines of its
/// standard output, in the order it wrote them. A tool that did not start,
/// exited with anything but zero, or wrote something that is not text gives
/// no list.
pub open spec fn listed(run: Result<ProcessOutputView, Seq<char>>) -> Result<
    Seq<Seq<char>>,
    ResolverErrorView,
> {
    match run {
        Err(cause) => Err(ResolverErrorView::LaunchFailure(cause)),
        Ok(output) => if !exited_cleanly(output.code) {
            Err(ResolverErrorView::ToolFailure(failure_text(output.stderr)))
        } else if !valid_utf8(output.stdout) {
            Err(ResolverErrorView::UndecodableOutput)
        } else {
            Ok(nonempty_lines(decode_utf8(output.stdout)))
        },
    }
}

/// A tool that succeeds and writes nothing lists nothing.
pub proof fn lemma_silent_tool_lists_nothing(output: ProcessOutputView)
    requires
        exited_cleanly(output.code),
        output.stdout.len() == 0,
    ensures
        listed(Ok(output)) == Ok::<Seq<Seq<char>>, ResolverErrorView>(Seq::empty()),
{
    reveal_with_fuel(Seq::filter, 2);
    assert(lines(decode_utf8(output.stdout)) == seq![Seq::<char>::empty()]);
    assert(seq![Seq::<char>::empty()].drop_last() == Seq::<Seq<char>>::empty());
}

/// Reads the listing out of a run of the ignore-rule tool.
pub fn listed_paths(run: &Result<ProcessOutput, String>) -> (result: Result<
    Vec<String>,
    ResolverError,
>)
    ensures
        resolution_view(result) == listed(run_view(*run)),
{
    match run {
        Err(cause) => Err(ResolverError::LaunchFailure(cause.clone())),
        Ok(output) => {
            if !is_success(output.code) {
                let text = match decode(&output.stderr) {
                    Some(text) => text,
                    None => "Unknown error".to_owned(),
                };
                Err(ResolverError::ToolFailure(text))
            } else {
                match decode(&output.stdout) {
                    Some(text) => Ok(split_nonempty_lines(text.as_str())),
                    None => Err(ResolverError::UndecodableOutput),
                }
            }
        },
    }
}

/// Whether position `i` is marked as present on disk. A position without a
/// mark counts as absent.
pub open spec fn present_at(marks: Seq<bool>, i: int) -> bool {
    0 <= i < marks.len() && marks[i]
}

/// The listed paths that are present on disk: `lines[i]` stays exactly when
/// `marks[i]` says so, and what stays keeps its order.
pub open spec fn existing(lines: Seq<Seq<char>>, marks: Seq<bool>) -> Seq<Seq<char>>
    decreases lines.len(),
{
    if lines.len() == 0 {
        Seq::empty()
    } else {
        let kept = existing(lines.drop_last(), marks);
        if present_at(marks, lines.len() - 1) {
            kept.push(lines.last())
        } else {
            kept
        }
    }
}

/// Every path that stays was listed at a position marked as present: a
/// listed path whose location is absent cannot be in the result.
pub proof fn lemma_existing_are_present(lines: Seq<Seq<char>>, marks: Seq<bool>, j: int)
    requires
        0 <= j < existing(lines, marks).len(),
    ensures
        exists|i: int|
            0 <= i < lines.len() && present_at(marks, i) && #[trigger] lines[i] == existing(
                lines,
                marks,
            )[j],
    decreases lines.len(),
{
    let kept = existing(lines.drop_last(), marks);
    let last = lines.len() - 1;
    if j < kept.len() {
        lemma_existing_are_present(lines.drop_last(), marks, j);
        let i = choose|i: int|
            0 <= i < lines.drop_last().len() && present_at(marks, i)
                && #[trigger] lines.drop_last()[i] == kept[j];
        assert(lines[i] == existing(lines, marks)[j]);
    } else {
        assert(present_at(marks, last));
        assert(lines[last] == existing(lines, marks)[j]);
    }
}

/// A path listed only at positions that are absent is not in the result.
pub proof fn lemma_absent_are_dropped(lines: Seq<Seq<char>>, marks: Seq<bool>, path: Seq<char>)
    requires
        forall|i: int|
            0 <= i < lines.len() && #[trigger] lines[i] == path ==> !present_at(marks, i),
    ensures
        !existing(lines, marks).contains(path),
{
    if existing(lines, marks).contains(path) {
        let kept = existing(lines, marks);
        let j = choose|j: int| 0 <= j < kept.len() && kept[j] == path;
        lemma_existing_are_present(lines, marks, j);
    }
}

/// Where every listed path is present, the whole listing stays, in order.
pub proof fn lemma_all_present_keeps_all(lines: Seq<Seq<char>>, marks: Seq<bool>)
    requires
        forall|i: int| 0 <= i < lines.len() ==> present_at(marks, i),
    ensures
        existing(lines, marks) == lines,
    decreases lines.len(),
{
    if lines.len() > 0 {
        lemma_all_present_keeps_all(lines.drop_last(), marks);
        assert(lines.drop_last().push(lines.last()) == lines);
    }
}

/// Drops the listed paths that are not present on disk.
pub fn retain_existing(lines: &Vec<String>, marks: &Vec<bool>) -> (kept: Vec<String>)
    ensures
        kept.deep_view() == existing(lines.deep_view(), marks@),
{
    let mut kept: Vec<String> = Vec::new();
    let mut i: usize = 0;
    assert(lines.deep_view().take(0) == Seq::<Seq<char>>::empty());
    assert(kept.deep_view() == Seq::<Seq<char>>::empty());
    while i < lines.len()
        invariant
            i <= lines.len(),
            kept.deep_view() == existing(lines.deep_view().take(i as int), marks@),
        decreases lines.len() - i,
    {
        let ghost shown = kept.deep_view();
        proof {
            let next = lines.deep_view().take(i + 1);
            assert(next.drop_last() == lines.deep_view().take(i as int));
            assert(next.last() == lines[i as int]@);
        }
        if i < marks.len() && marks[i] {
            kept.push(lines[i].clone());
            assert(kept.deep_view() == shown.push(lines[i as int]@));
        }
        i = i + 1;
    }
    assert(lines.deep_view().take(lines.len() as int) == lines.deep_view());
    kept
}

/// The text of the path that `camino::Utf8Path::join` gives for `entry`
/// adjoined to `root`. The join is lexical: it reads neither the disk nor
/// the environment, so the text depends on the two arguments alone. Which
/// separator it puts between them, and when `entry` replaces `root`, follows
/// the path conventions that the program is built for.
pub uninterp spec fn joined_path(root: Seq<char>, entry: Seq<char>) -> Seq<char>;

/// `camino::Utf8Path::join`, on `camino::Utf8Path::new(root)`, with the
/// result taken by `camino::Utf8PathBuf::into_string`: the path `entry`
/// adjoined to `root`, as text. The claim is that the text is the one
/// [`joined_path`] names for these two arguments.
#[verifier::external_body]
fn adjoin(root: &str, entry: &str) -> (path: String)
    ensures
        path@ == joined_path(root@, entry@),
{
    camino::Utf8Path::new(root).join(entry).into_string()
}

/// The locations to look up on disk: each listed path adjoined to `root`,
/// one for each listed path and in the same order.
pub open spec fn probe_locations(root: Seq<char>, lines: Seq<Seq<char>>) -> Seq<Seq<char>> {
    lines.map_values(|line: Seq<char>| joined_path(root, line))
}

/// Adjoins each listed path to `root`.
pub fn probe_paths(root: &str, lines: &Vec<String>) -> (paths: Vec<String>)
    ensures
        paths.deep_view() == probe_locations(root@, lines.deep_view()),
{
    let mut paths: Vec<String> = Vec::new();
    let mut i: usize = 0;
    assert(paths.deep_view() == probe_locations(root@, lines.deep_view().take(0)));
    while i < lines.len()
        invariant
            i <= lines.len(),
            paths.deep_view() == probe_locations(root@, lines.deep_view().take(i as int)),
        decreases lines.len() - i,
    {
        let ghost shown = paths.deep_view();
        paths.push(adjoin(root, lines[i].as_str()));
        proof {
            assert(paths.deep_view() == shown.push(joined_path(root@, lines[i as int]@)));
            assert(probe_locations(root@, lines.deep_view().take(i + 1)) == probe_locations(
                root@,
                lines.deep_view().take(i as int),
            ).push(joined_path(root@, lines[i as int]@)));
        }
        i = i + 1;
    }
    assert(lines.deep_view().take(lines.len() as int) == lines.deep_view());
    paths
}

/// What the outside world has answered to the resolver so far.
#[derive(Debug, PartialEq, Eq)]
pub struct ResolverReplies {
    /// What running the listing command gave, once it has been run: the
    /// finished process, or why it could not be launched.
    pub listing: Option<Result<ProcessOutput, String>>,
    /// Whether each probed location is present on disk, in the order the
    /// locations were asked for, once they have been probed.
    pub presence: Option<Vec<bool>>,
}

/// The mathematical content of [`ResolverReplies`].
pub struct ResolverRepliesView {
    pub listing: Option<Result<ProcessOutputView, Seq<char>>>,
    pub presence: Option<Seq<bool>>,
}

impl View for ResolverReplies {
    type V = ResolverRepliesView;

    open spec fn view(&self) -> ResolverRepliesView {
        ResolverRepliesView {
            listing: match self.listing {
                Some(run) => Some(run_view(run)),
                None => None,
            },
            presence: match self.presence {
                Some(marks) => Some(marks@),
                None => None,
            },
        }
    }
}

/// What the resolver asks for next, or its result.
#[derive(Debug, PartialEq, Eq)]
pub enum ResolverStep {
    /// Run this command, capture its output, and answer in `listing`.
    RunTool(Invocation),
    /// Say of each of these locations whether it is present on disk, and
    /// answer in `presence`.
    Probe(Vec<String>),
    /// Nothing is left to do: the ignored paths, relative to the root and
    /// in the order the tool listed them, or the reason there are none.
    Done(Result<Vec<String>, ResolverError>),
}

/// The mathematical content of a [`ResolverStep`].
pub enum ResolverStepView {
    RunTool(InvocationView),
    Probe(Seq<Seq<char>>),
    Done(Result<Seq<Seq<char>>, ResolverErrorView>),
}

impl View for ResolverStep {
    type V = ResolverStepView;

    open spec fn view(&self) -> ResolverStepView {
        match self {
            ResolverStep::RunTool(command) => ResolverStepView::RunTool(command@),
            ResolverStep::Probe(paths) => ResolverStepView::Probe(paths.deep_view()),
            ResolverStep::Done(result) => ResolverStepView::Done(resolution_view(*result)),
        }
    }
}

/// The resolver's result once the tool has run and the listed paths have
/// been probed: the listed paths that are present, or the tool's failure.
pub open spec fn resolved(run: Result<ProcessOutputView, Seq<char>>, marks: Seq<bool>) -> Result<
    Seq<Seq<char>>,
    ResolverErrorView,
> {
    match listed(run) {
        Ok(lines) => Ok(existing(lines, marks)),
        Err(error) => Err(error),
    }
}

/// Resolving twice over the same answers gives the same result: the
/// result is a function of what the tool wrote and of what is on disk.
pub proof fn lemma_resolution_repeats(
    first_run: Result<ProcessOutputView, Seq<char>>,
    first_marks: Seq<bool>,
    second_run: Result<ProcessOutputView, Seq<char>>,
    second_marks: Seq<bool>,
)
    requires
        first_run == second_run,
        first_marks == second_marks,
    ensures
        resolved(first_run, first_marks) == resolved(second_run, second_marks),
{
}

/// Whatever is on disk, a resolution gives only paths that the tool listed
/// and that were found present.
pub proof fn lemma_resolved_are_listed_and_present(
    run: Result<ProcessOutputView, Seq<char>>,
    marks: Seq<bool>,
    j: int,
)
    requires
        resolved(run, marks) is Ok,
        0 <= j < resolved(run, marks)->Ok_0.len(),
    ensures
        listed(run) is Ok,
        exists|i: int|
            0 <= i < listed(run)->Ok_0.len() && present_at(marks, i)
                && #[trigger] listed(run)->Ok_0[i] == resolved(run, marks)->Ok_0[j],
{
    lemma_existing_are_present(listed(run)->Ok_0, marks, j);
}

/// The next step of the resolver. It runs the tool first; a failed run ends
/// the resolution at once; each listed path is looked up under the root
/// before the listing is filtered.
pub open spec fn resolver_step(root: Seq<char>, replies: ResolverRepliesView) -> ResolverStepView {
    match replies.listing {
        None => ResolverStepView::RunTool(ls_files_invocation(root)),
        Some(run) => match (listed(run), replies.presence) {
            (Err(error), _) => ResolverStepView::Done(Err(error)),
            (Ok(lines), None) => ResolverStepView::Probe(probe_locations(root, lines)),
            (Ok(lines), Some(marks)) => ResolverStepView::Done(Ok(existing(lines, marks))),
        },
    }
}

/// The locations handed out for probing are the listed paths, each adjoined
/// to the root, one for each and in the order of the listing: the mark at a
/// position is about the path listed at that position.
pub proof fn lemma_probe_follows_listing(
    root: Seq<char>,
    run: Result<ProcessOutputView, Seq<char>>,
    i: int,
)
    requires
        listed(run) is Ok,
        0 <= i < listed(run)->Ok_0.len(),
    ensures
        resolver_step(root, (ResolverRepliesView { listing: Some(run), presence: None }))
            is Probe,
        resolver_step(
            root,
            (ResolverRepliesView { listing: Some(run), presence: None }),
        )->Probe_0.len() == listed(run)->Ok_0.len(),
        resolver_step(
            root,
            (ResolverRepliesView { listing: Some(run), presence: None }),
        )->Probe_0[i] == joined_path(root, listed(run)->Ok_0[i]),
{
}

/// Once the tool has run and its listing has been probed, the resolver is
/// done, with the listed paths that are present or with the tool's failure.
pub proof fn lemma_resolver_ends_resolved(
    root: Seq<char>,
    run: Result<ProcessOutputView, Seq<char>>,
    marks: Seq<bool>,
)
    ensures
        resolver_step(
            root,
            (ResolverRepliesView { listing: Some(run), presence: Some(marks) }),
        ) == ResolverStepView::Done(resolved(run, marks)),
{
}

/// A failed run is final whatever is found on disk afterwards, and the tool
/// is not run again.
pub proof fn lemma_failed_run_is_final(
    root: Seq<char>,
    run: Result<ProcessOutputView, Seq<char>>,
    presence: Option<Seq<bool>>,
)
    requires
        listed(run) is Err,
    ensures
        resolver_step(root, (ResolverRepliesView { listing: Some(run), presence }))
            == ResolverStepView::Done(Err(listed(run)->Err_0)),
{
}

/// Every answer advances the resolver: the tool is run once, a listing is
/// probed once, and then the resolver is done.
pub proof fn lemma_resolver_advances(
    root: Seq<char>,
    run: Result<ProcessOutputView, Seq<char>>,
    marks: Seq<bool>,
)
    ensures
        resolver_step(root, (ResolverRepliesView { listing: None, presence: None })) is RunTool,
        !(resolver_step(root, (ResolverRepliesView { listing: Some(run), presence: None }))
            is RunTool),
        resolver_step(
            root,
            (ResolverRepliesView { listing: Some(run), presence: Some(marks) }),
        ) is Done,
{
}

/// Decides what the resolver for `root` does next, given what has been
/// answered so far.
pub fn gitignore_files(root: &str, replies: &ResolverReplies) -> (step: ResolverStep)
    ensures
        step@ == resolver_step(root@, replies@),
{
    match &replies.listing {
        None => ResolverStep::RunTool(ls_files_command(root)),
        Some(run) => match listed_paths(run) {
            Err(error) => ResolverStep::Done(Err(error)),
            Ok(lines) => match &replies.presence {
                None => ResolverStep::Probe(probe_paths(root, &lines)),
                Some(marks) => ResolverStep::Done(Ok(retain_existing(&lines, marks))),
            },
        },
    }
}

} // verus!
