//! The sync orchestrator: from a request and the host platform to the one
//! transfer command that is run, and from that command's exit to the result.
//!
//! Like the resolver, the orchestrator runs nothing. [`rsync`] looks at what
//! has been answered so far and names the next thing to do.

use vstd::prelude::*;
use vstd::string::StringExecFns;
use crate::gitignore::{
    error_message, existing, lemma_silent_tool_lists_nothing, resolution_view, resolved,
    ResolverError, ResolverErrorView,
};
use crate::process::{exited_cleanly, Invocation, InvocationView, ProcessOutputView};
use crate::remote::{mode_of, names_local, raw_of, select_mode, Platform, TransferMode};
use crate::request::{SyncError, SyncErrorView, SyncRequest, SyncRequestView};
use crate::text::{concat, decimal, push_decimal};
use crate::transfer::{
    build_invocation, conclude, conclusion, exclude_flags, exclude_set, executable,
    fixed_options, leading_arguments, outcome_view, result_view, transfer_invocation,
};

verus! {

/// The view of what the path-translation utility gave: the translated path,
/// or why there is none.
pub open spec fn translation_view(outcome: Result<String, String>) -> Result<Seq<char>, Seq<char>> {
    match outcome {
        Ok(path) => Ok(path@),
        Err(cause) => Err(cause@),
    }
}

/// The view of a translation that may not have been asked for yet.
pub open spec fn translated_view(translated: Option<Result<String, String>>) -> Option<
    Result<Seq<char>, Seq<char>>,
> {
    match translated {
        Some(outcome) => Some(translation_view(outcome)),
        None => None,
    }
}

/// What finding the transfer tool's form of a path comes to: a question to
/// the path-translation utility, or the answer.
#[derive(Debug, PartialEq, Eq)]
pub enum PathStep {
    /// Ask the path-translation utility for the equivalent of this path.
    Translate(String),
    /// The path as the transfer tool expects it, or why there is none.
    Done(Result<String, SyncError>),
}

/// The mathematical content of a [`PathStep`].
pub enum PathStepView {
    Translate(Seq<char>),
    Done(Result<Seq<char>, SyncErrorView>),
}

impl View for PathStep {
    type V = PathStepView;

    open spec fn view(&self) -> PathStepView {
        match self {
            PathStep::Translate(path) => PathStepView::Translate(path@),
            PathStep::Done(Ok(path)) => PathStepView::Done(Ok(path@)),
            PathStep::Done(Err(error)) => PathStepView::Done(Err(error@)),
        }
    }
}

/// The path in the form the transfer tool expects on `platform`. On 64-bit
/// Windows that is what the path-translation utility makes of it, and its
/// failure is the failure of the whole; anywhere else it is the path itself.
pub open spec fn posix_path(
    path: Seq<char>,
    platform: Platform,
    translated: Option<Result<Seq<char>, Seq<char>>>,
) -> PathStepView {
    match platform {
        Platform::Other => PathStepView::Done(Ok(path)),
        Platform::Windows64 => match translated {
            None => PathStepView::Translate(path),
            Some(Ok(posix)) => PathStepView::Done(Ok(posix)),
            Some(Err(cause)) => PathStepView::Done(
                Err(SyncErrorView::PathTranslationFailure(cause)),
            ),
        },
    }
}

/// Finds the form of `path` that the transfer tool expects on `platform`,
/// given what the path-translation utility has answered, if it was asked.
pub fn to_posix_path(
    path: &str,
    platform: Platform,
    translated: &Option<Result<String, String>>,
) -> (step: PathStep)
    ensures
        step@ == posix_path(path@, platform, translated_view(*translated)),
{
    match platform {
        Platform::Other => PathStep::Done(Ok(path.to_owned())),
        Platform::Windows64 => match translated {
            None => PathStep::Translate(path.to_owned()),
            Some(Ok(posix)) => PathStep::Done(Ok(posix.clone())),
            Some(Err(cause)) => PathStep::Done(
                Err(SyncError::PathTranslationFailure(cause.clone())),
            ),
        },
    }
}

/// The patterns that the resolver contributes: its list, or nothing where
/// it failed.
pub open spec fn discovered(resolved: Result<Seq<Seq<char>>, ResolverErrorView>) -> Seq<
    Seq<char>,
> {
    match resolved {
        Ok(paths) => paths,
        Err(_) => Seq::empty(),
    }
}

/// The warning that a failed resolution for the tree at `root` leaves
/// behind; a resolution that succeeded leaves none.
pub open spec fn warning(resolved: Result<Seq<Seq<char>>, ResolverErrorView>, root: Seq<char>) -> Option<
    Seq<char>,
> {
    match resolved {
        Ok(_) => None,
        Err(error) => Some(
            "Failed to get gitignored files: "@ + error_message(error, root)
                + "\nConsidering no git ignored files."@,
        ),
    }
}

/// The line that announces a transfer: source, target, remote and port.
pub open spec fn notice(request: SyncRequestView, posix: Seq<char>) -> Seq<char> {
    "Syncing "@ + posix + " to "@ + request.target + " at "@ + raw_of(request.remote) + ":"@
        + decimal(request.port)
}

/// What the outside world has answered to the orchestrator so far.
#[derive(Debug, PartialEq, Eq)]
pub struct SyncReplies {
    /// What the path-translation utility made of the source, once asked.
    pub translated: Option<Result<String, String>>,
    /// What the ignore-set resolver gave, once asked.
    pub ignored: Option<Result<Vec<String>, ResolverError>>,
    /// How launching the transfer command went, once done: the exit code of
    /// the finished process, or why it could not be launched.
    pub transfer: Option<Result<Option<i32>, String>>,
}

/// The mathematical content of [`SyncReplies`].
pub struct SyncRepliesView {
    pub translated: Option<Result<Seq<char>, Seq<char>>>,
    pub ignored: Option<Result<Seq<Seq<char>>, ResolverErrorView>>,
    pub transfer: Option<Result<Option<i32>, Seq<char>>>,
}

impl View for SyncReplies {
    type V = SyncRepliesView;

    open spec fn view(&self) -> SyncRepliesView {
        SyncRepliesView {
            translated: translated_view(self.translated),
            ignored: match self.ignored {
                Some(resolved) => Some(resolution_view(resolved)),
                None => None,
            },
            transfer: match self.transfer {
                Some(outcome) => Some(outcome_view(outcome)),
                None => None,
            },
        }
    }
}

/// What the orchestrator asks for next, or the result of the sync.
#[derive(Debug, PartialEq, Eq)]
pub enum SyncStep {
    /// Ask the path-translation utility for the equivalent of this path, and
    /// answer in `translated`.
    TranslatePath(String),
    /// Resolve the ignored paths of the tree at this root, and answer in
    /// `ignored`.
    ResolveIgnored(String),
    /// Launch this command, wait for it, and answer in `transfer`.
    Transfer {
        /// The command to launch.
        invocation: Invocation,
        /// The line that announces the transfer.
        notice: String,
        /// The warning to record first, where the resolver failed.
        warning: Option<String>,
    },
    /// Nothing is left to do: the sync succeeded or failed.
    Done(Result<(), SyncError>),
}

/// The mathematical content of a [`SyncStep`].
pub enum SyncStepView {
    TranslatePath(Seq<char>),
    ResolveIgnored(Seq<char>),
    Transfer { invocation: InvocationView, notice: Seq<char>, warning: Option<Seq<char>> },
    Done(Result<(), SyncErrorView>),
}

impl View for SyncStep {
    type V = SyncStepView;

    open spec fn view(&self) -> SyncStepView {
        match self {
            SyncStep::TranslatePath(path) => SyncStepView::TranslatePath(path@),
            SyncStep::ResolveIgnored(root) => SyncStepView::ResolveIgnored(root@),
            SyncStep::Transfer { invocation, notice, warning } => SyncStepView::Transfer {
                invocation: invocation@,
                notice: notice@,
                warning: match warning {
                    Some(text) => Some(text@),
                    None => None,
                },
            },
            SyncStep::Done(result) => SyncStepView::Done(result_view(*result)),
        }
    }
}

/// Whether a sync is refused because it would copy a tree onto itself:
/// through the shim, with a source that, in the transfer tool's form, is
/// the very string of the target.
pub open spec fn syncs_onto_itself(mode: TransferMode, posix: Seq<char>, target: Seq<char>) -> bool {
    mode is VirtualizedLocal && posix == target
}

/// The next step of a sync. The source path is settled first. A sync onto
/// itself is refused before anything else is asked for. The ignored paths
/// are resolved next, for the source as the request names it; a failed
/// resolution costs a warning and contributes nothing. Then the one transfer
/// command is launched, and its outcome is the result.
pub open spec fn sync_step(
    request: SyncRequestView,
    platform: Platform,
    replies: SyncRepliesView,
) -> SyncStepView {
    match posix_path(request.source, platform, replies.translated) {
        PathStepView::Translate(path) => SyncStepView::TranslatePath(path),
        PathStepView::Done(Err(error)) => SyncStepView::Done(Err(error)),
        PathStepView::Done(Ok(posix)) => {
            let mode = mode_of(request.remote, platform);
            if syncs_onto_itself(mode, posix, request.target) {
                SyncStepView::Done(Err(SyncErrorView::SelfSyncError(request.target)))
            } else {
                match (replies.ignored, replies.transfer) {
                    (None, _) => SyncStepView::ResolveIgnored(request.source),
                    (Some(resolved), None) => SyncStepView::Transfer {
                        invocation: transfer_invocation(mode, request, posix, discovered(resolved)),
                        notice: notice(request, posix),
                        warning: warning(resolved, request.source),
                    },
                    (Some(_), Some(outcome)) => SyncStepView::Done(conclusion(outcome)),
                }
            }
        },
    }
}

/// Renders the line that announces a transfer.
fn render_notice(request: &SyncRequest, posix: &str) -> (text: String)
    ensures
        text@ == notice(request@, posix@),
{
    let mut text = concat("Syncing ", posix);
    text.append(" to ");
    text.append(request.target.as_str());
    text.append(" at ");
    let raw = request.remote.raw();
    text.append(raw.as_str());
    text.append(":");
    push_decimal(&mut text, request.port as u64);
    text
}

/// Renders the warning that a failed resolution leaves behind.
fn render_warning(error: &ResolverError, root: &str) -> (text: String)
    ensures
        Some(text@) == warning(Err(error@), root@),
{
    let message = error.message(root);
    let mut text = concat("Failed to get gitignored files: ", message.as_str());
    text.append("\nConsidering no git ignored files.");
    text
}

/// Decides what a sync does next, given the request, the host platform and
/// what has been answered so far.
pub fn rsync(request: &SyncRequest, platform: Platform, replies: &SyncReplies) -> (step: SyncStep)
    ensures
        step@ == sync_step(request@, platform, replies@),
{
    match to_posix_path(request.source.as_str(), platform, &replies.translated) {
        PathStep::Translate(path) => SyncStep::TranslatePath(path),
        PathStep::Done(Err(error)) => SyncStep::Done(Err(error)),
        PathStep::Done(Ok(posix)) => {
            let mode = select_mode(&request.remote, platform);
            if mode == TransferMode::VirtualizedLocal && posix == request.target {
                return SyncStep::Done(Err(SyncError::SelfSyncError(request.target.clone())));
            }
            match &replies.ignored {
                None => SyncStep::ResolveIgnored(request.source.clone()),
                Some(resolved) => match &replies.transfer {
                    Some(outcome) => SyncStep::Done(conclude(outcome)),
                    None => {
                        let notice = render_notice(request, posix.as_str());
                        match resolved {
                            Ok(paths) => SyncStep::Transfer {
                                invocation: build_invocation(mode, request, posix.as_str(), paths),
                                notice,
                                warning: None,
                            },
                            Err(error) => {
                                let nothing: Vec<String> = Vec::new();
                                assert(nothing.deep_view() == Seq::<Seq<char>>::empty());
                                SyncStep::Transfer {
                                    invocation: build_invocation(
                                        mode,
                                        request,
                                        posix.as_str(),
                                        &nothing,
                                    ),
                                    notice,
                                    warning: Some(render_warning(error, request.source.as_str())),
                                }
                            },
                        }
                    },
                },
            }
        },
    }
}

/// Where the ignore-rule tool succeeds and writes nothing, the patterns
/// left out are the explicit ones exactly, in their order, whatever is on
/// disk.
pub proof fn lemma_silent_tool_keeps_explicit_excludes(
    explicit: Seq<Seq<char>>,
    output: ProcessOutputView,
    marks: Seq<bool>,
)
    requires
        exited_cleanly(output.code),
        output.stdout.len() == 0,
    ensures
        exclude_set(explicit, discovered(resolved(Ok(output), marks))) == explicit,
        exclude_flags(exclude_set(explicit, discovered(resolved(Ok(output), marks))))
            == exclude_flags(explicit),
{
    lemma_silent_tool_lists_nothing(output);
    assert(existing(Seq::<Seq<char>>::empty(), marks) == Seq::<Seq<char>>::empty());
    assert(explicit + Seq::<Seq<char>>::empty() == explicit);
}

/// Where the ignore-rule tool succeeds and writes nothing, the command
/// that is launched ends in the exclude arguments of the explicit patterns
/// exactly, and no warning is left behind.
pub proof fn lemma_silent_tool_transfers_explicit_excludes(
    request: SyncRequestView,
    platform: Platform,
    replies: SyncRepliesView,
    output: ProcessOutputView,
    marks: Seq<bool>,
)
    requires
        exited_cleanly(output.code),
        output.stdout.len() == 0,
        replies.ignored == Some(resolved(Ok(output), marks)),
        sync_step(request, platform, replies) is Transfer,
    ensures
        sync_step(request, platform, replies)->invocation.arguments == leading_arguments(
            mode_of(request.remote, platform),
            request,
            posix_path(request.source, platform, replies.translated)->Done_0->Ok_0,
        ) + fixed_options() + exclude_flags(request.explicit_excludes),
        sync_step(request, platform, replies)->warning is None,
{
    lemma_silent_tool_keeps_explicit_excludes(request.explicit_excludes, output, marks);
}

/// A failed resolution contributes nothing either: the patterns left out
/// are the explicit ones exactly, and a warning is left behind.
pub proof fn lemma_failed_resolution_keeps_explicit_excludes(
    explicit: Seq<Seq<char>>,
    error: ResolverErrorView,
    root: Seq<char>,
)
    ensures
        exclude_set(explicit, discovered(Err(error))) == explicit,
        warning(Err(error), root) is Some,
{
    assert(explicit + Seq::<Seq<char>>::empty() == explicit);
}

/// Rendering the exclude arguments twice over the same explicit patterns,
/// the same tool output and the same state of the disk gives the same
/// arguments.
pub proof fn lemma_exclude_rendering_repeats(
    first_explicit: Seq<Seq<char>>,
    first_run: Result<ProcessOutputView, Seq<char>>,
    first_marks: Seq<bool>,
    second_explicit: Seq<Seq<char>>,
    second_run: Result<ProcessOutputView, Seq<char>>,
    second_marks: Seq<bool>,
)
    requires
        first_explicit == second_explicit,
        first_run == second_run,
        first_marks == second_marks,
    ensures
        exclude_flags(exclude_set(first_explicit, discovered(resolved(first_run, first_marks))))
            == exclude_flags(
            exclude_set(second_explicit, discovered(resolved(second_run, second_marks))),
        ),
{
}

/// The command that a sync launches is the one of the mode that the remote
/// and the platform select, whatever the port, the patterns and the answers
/// are: the shim exactly for the local environment on 64-bit Windows, the
/// transfer tool itself in every other case.
pub proof fn lemma_transfer_follows_mode(
    request: SyncRequestView,
    platform: Platform,
    replies: SyncRepliesView,
)
    requires
        sync_step(request, platform, replies) is Transfer,
    ensures
        sync_step(request, platform, replies)->invocation.executable == executable(
            mode_of(request.remote, platform),
        ),
        names_local(request.remote) && platform == Platform::Windows64 ==> sync_step(
            request,
            platform,
            replies,
        )->invocation.executable == "wsl"@,
        !(names_local(request.remote) && platform == Platform::Windows64)
            ==> sync_step(request, platform, replies)->invocation.executable == "rsync"@,
{
}

/// Through the shim, a source whose translated path is the very string of
/// the target is refused: the sync ends with the self-sync error, and
/// whatever else has been answered, no transfer is launched.
pub proof fn lemma_self_sync_is_refused(request: SyncRequestView, replies: SyncRepliesView)
    requires
        names_local(request.remote),
        replies.translated == Some(Ok::<Seq<char>, Seq<char>>(request.target)),
    ensures
        sync_step(request, Platform::Windows64, replies) == SyncStepView::Done(
            Err(SyncErrorView::SelfSyncError(request.target)),
        ),
        !(sync_step(request, Platform::Windows64, replies) is Transfer),
{
}

/// The self-sync error has no other cause.
pub proof fn lemma_self_sync_error_only_through_shim(
    request: SyncRequestView,
    platform: Platform,
    replies: SyncRepliesView,
)
    requires
        sync_step(request, platform, replies) matches SyncStepView::Done(
            Err(SyncErrorView::SelfSyncError(_)),
        ),
    ensures
        names_local(request.remote),
        platform == Platform::Windows64,
        replies.translated == Some(Ok::<Seq<char>, Seq<char>>(request.target)),
{
}

/// Whether `later` holds every answer that `earlier` holds.
pub open spec fn answers_kept(earlier: SyncRepliesView, later: SyncRepliesView) -> bool {
    &&& earlier.translated is Some ==> later.translated == earlier.translated
    &&& earlier.ignored is Some ==> later.ignored == earlier.ignored
    &&& earlier.transfer is Some ==> later.transfer == earlier.transfer
}

/// Nothing is asked twice: a question that has its answer is not put again.
/// In particular the transfer command is launched at most once, and the
/// resolver is consulted at most once.
pub proof fn lemma_nothing_is_asked_twice(
    request: SyncRequestView,
    platform: Platform,
    replies: SyncRepliesView,
)
    ensures
        replies.translated is Some ==> !(sync_step(request, platform, replies) is TranslatePath),
        replies.ignored is Some ==> !(sync_step(request, platform, replies) is ResolveIgnored),
        replies.transfer is Some ==> !(sync_step(request, platform, replies) is Transfer),
{
}

/// Every answer advances the sync: after the answer to what was asked, the
/// next question comes later in the order translation, resolution,
/// transfer, or the sync is done. A sync therefore ends after at most three
/// answers.
pub proof fn lemma_every_answer_advances(
    request: SyncRequestView,
    platform: Platform,
    replies: SyncRepliesView,
    translation: Result<Seq<char>, Seq<char>>,
    resolution: Result<Seq<Seq<char>>, ResolverErrorView>,
    outcome: Result<Option<i32>, Seq<char>>,
)
    ensures
        sync_step(request, platform, replies) is TranslatePath ==> !(sync_step(
            request,
            platform,
            (SyncRepliesView { translated: Some(translation), ..replies }),
        ) is TranslatePath),
        sync_step(request, platform, replies) is TranslatePath && translation is Err ==> sync_step(
            request,
            platform,
            (SyncRepliesView { translated: Some(translation), ..replies }),
        ) == SyncStepView::Done(
            Err(SyncErrorView::PathTranslationFailure(translation->Err_0)),
        ),
        sync_step(request, platform, replies) is ResolveIgnored ==> sync_step(
            request,
            platform,
            (SyncRepliesView { ignored: Some(resolution), ..replies }),
        ) is Transfer || sync_step(
            request,
            platform,
            (SyncRepliesView { ignored: Some(resolution), ..replies }),
        ) is Done,
        sync_step(request, platform, replies) is Transfer ==> sync_step(
            request,
            platform,
            (SyncRepliesView { transfer: Some(outcome), ..replies }),
        ) is Done,
{
}

/// A result stands: once a sync has succeeded or failed, no further answer
/// changes that. Every failure is final, and nothing is tried again.
pub proof fn lemma_result_stands(
    request: SyncRequestView,
    platform: Platform,
    earlier: SyncRepliesView,
    later: SyncRepliesView,
)
    requires
        sync_step(request, platform, earlier) is Done,
        answers_kept(earlier, later),
    ensures
        sync_step(request, platform, later) == sync_step(request, platform, earlier),
{
}

/// Once the transfer command has run, its exit code is the result: zero is
/// success, and every other code is a transfer failure that carries it.
pub proof fn lemma_exit_code_is_the_result(
    request: SyncRequestView,
    platform: Platform,
    replies: SyncRepliesView,
    code: i32,
)
    requires
        sync_step(request, platform, replies) is Transfer,
    ensures
        code == 0 ==> sync_step(
            request,
            platform,
            (SyncRepliesView { transfer: Some(Ok(Some(code))), ..replies }),
        ) == SyncStepView::Done(Ok(())),
        code != 0 ==> sync_step(
            request,
            platform,
            (SyncRepliesView { transfer: Some(Ok(Some(code))), ..replies }),
        ) == SyncStepView::Done(Err(SyncErrorView::TransferFailure(Some(code)))),
{
}

} // verus!
