//! The transfer command: how it is put together for each mode, and how its
//! exit is read.

use vstd::prelude::*;
use vstd::string::StringExecFns;
use crate::process::{exited_cleanly, is_success, Invocation, InvocationView};
use crate::remote::{raw_of, RemoteView, TransferMode};
use crate::request::{SyncError, SyncErrorView, SyncRequest, SyncRequestView};
use crate::text::{concat, decimal, push_decimal};

verus! {

/// The program that is launched in each mode: the virtualization shim, or
/// the transfer tool itself.
pub open spec fn executable(mode: TransferMode) -> Seq<char> {
    match mode {
        TransferMode::VirtualizedLocal => "wsl"@,
        TransferMode::RemoteTransfer => "rsync"@,
    }
}

/// The remote shell that the transfer tool uses to reach `port`.
pub open spec fn remote_shell(port: nat) -> Seq<char> {
    "ssh -p "@ + decimal(port)
}

/// Where the tree goes on a remote host: the raw remote string and the
/// target, joined by a colon.
pub open spec fn destination(remote: RemoteView, target: Seq<char>) -> Seq<char> {
    raw_of(remote) + ":"@ + target
}

/// The arguments that depend on the mode. Through the shim: the transfer
/// tool's name, then the source and the target. Directly: the remote shell
/// for the port, then the source and the destination.
pub open spec fn leading_arguments(
    mode: TransferMode,
    request: SyncRequestView,
    posix: Seq<char>,
) -> Seq<Seq<char>> {
    match mode {
        TransferMode::VirtualizedLocal => seq!["rsync"@, posix, request.target],
        TransferMode::RemoteTransfer => seq![
            "-e"@,
            remote_shell(request.port),
            posix,
            destination(request.remote, request.target),
        ],
    }
}

/// The options every transfer carries, in this order: archive, delete what
/// the source lacks, human-readable sizes, skip what is newer at the
/// destination, report progress.
pub open spec fn fixed_options() -> Seq<Seq<char>> {
    seq!["--archive"@, "--delete"@, "--human-readable"@, "--update"@, "--progress"@]
}

/// The argument that excludes one pattern.
pub open spec fn exclude_flag(pattern: Seq<char>) -> Seq<char> {
    "--exclude="@ + pattern
}

/// One exclude argument for each pattern, in the patterns' order.
pub open spec fn exclude_flags(patterns: Seq<Seq<char>>) -> Seq<Seq<char>> {
    patterns.map_values(|pattern: Seq<char>| exclude_flag(pattern))
}

/// The patterns a transfer leaves out: the explicit ones first, then the
/// discovered ones, nothing removed.
pub open spec fn exclude_set(explicit: Seq<Seq<char>>, discovered: Seq<Seq<char>>) -> Seq<
    Seq<char>,
> {
    explicit + discovered
}

/// The transfer command: the mode's program, then the mode's arguments, the
/// fixed options and the exclude arguments.
pub open spec fn transfer_invocation(
    mode: TransferMode,
    request: SyncRequestView,
    posix: Seq<char>,
    discovered: Seq<Seq<char>>,
) -> InvocationView {
    InvocationView {
        executable: executable(mode),
        arguments: leading_arguments(mode, request, posix) + fixed_options() + exclude_flags(
            exclude_set(request.explicit_excludes, discovered),
        ),
    }
}

/// Appends one exclude argument for each of `patterns`.
fn push_exclude_flags(arguments: &mut Vec<String>, patterns: &Vec<String>)
    ensures
        final(arguments).deep_view() == old(arguments).deep_view() + exclude_flags(
            patterns.deep_view(),
        ),
{
    let ghost before = arguments.deep_view();
    let mut i: usize = 0;
    assert(arguments.deep_view() == before + exclude_flags(patterns.deep_view().take(0)));
    while i < patterns.len()
        invariant
            i <= patterns.len(),
            arguments.deep_view() == before + exclude_flags(patterns.deep_view().take(i as int)),
        decreases patterns.len() - i,
    {
        let ghost shown = arguments.deep_view();
        arguments.push(concat("--exclude=", patterns[i].as_str()));
        proof {
            assert(arguments.deep_view() == shown.push(exclude_flag(patterns[i as int]@)));
            assert(exclude_flags(patterns.deep_view().take(i + 1)) == exclude_flags(
                patterns.deep_view().take(i as int),
            ).push(exclude_flag(patterns[i as int]@)));
        }
        i = i + 1;
    }
    assert(patterns.deep_view().take(patterns.len() as int) == patterns.deep_view());
}

/// Builds the transfer command for a request whose source, in the transfer
/// tool's form, is `posix`, leaving out the request's own patterns and then
/// the `discovered` ones.
pub fn build_invocation(
    mode: TransferMode,
    request: &SyncRequest,
    posix: &str,
    discovered: &Vec<String>,
) -> (invocation: Invocation)
    ensures
        invocation@ == transfer_invocation(mode, request@, posix@, discovered.deep_view()),
{
    let mut arguments: Vec<String> = Vec::new();
    let executable = match mode {
        TransferMode::VirtualizedLocal => {
            arguments.push("rsync".to_owned());
            arguments.push(posix.to_owned());
            arguments.push(request.target.clone());
            "wsl".to_owned()
        },
        TransferMode::RemoteTransfer => {
            let mut shell = "ssh -p ".to_owned();
            push_decimal(&mut shell, request.port as u64);
            let mut place = request.remote.raw();
            place.append(":");
            place.append(request.target.as_str());
            arguments.push("-e".to_owned());
            arguments.push(shell);
            arguments.push(posix.to_owned());
            arguments.push(place);
            "rsync".to_owned()
        },
    };
    assert(arguments.deep_view() == leading_arguments(mode, request@, posix@));
    arguments.push("--archive".to_owned());
    arguments.push("--delete".to_owned());
    arguments.push("--human-readable".to_owned());
    arguments.push("--update".to_owned());
    arguments.push("--progress".to_owned());
    assert(arguments.deep_view() == leading_arguments(mode, request@, posix@) + fixed_options());
    push_exclude_flags(&mut arguments, &request.explicit_excludes);
    push_exclude_flags(&mut arguments, discovered);
    proof {
        let explicit = request.explicit_excludes.deep_view();
        let found = discovered.deep_view();
        let fixed = leading_arguments(mode, request@, posix@) + fixed_options();
        assert(exclude_flags(explicit) + exclude_flags(found) == exclude_flags(
            exclude_set(explicit, found),
        ));
        assert(fixed + exclude_flags(explicit) + exclude_flags(found) == fixed + (exclude_flags(
            explicit,
        ) + exclude_flags(found)));
    }
    Invocation { executable, arguments }
}

/// The view of what launching the transfer command gave: the exit code of
/// the finished process, or why it could not be launched.
pub open spec fn outcome_view(outcome: Result<Option<i32>, String>) -> Result<
    Option<i32>,
    Seq<char>,
> {
    match outcome {
        Ok(code) => Ok(code),
        Err(cause) => Err(cause@),
    }
}

/// The view of the result of a sync.
pub open spec fn result_view(result: Result<(), SyncError>) -> Result<(), SyncErrorView> {
    match result {
        Ok(()) => Ok(()),
        Err(error) => Err(error@),
    }
}

/// The result of a sync whose transfer command was launched with this
/// outcome: success for exit code zero, and a failure that carries the code
/// for every other exit.
pub open spec fn conclusion(outcome: Result<Option<i32>, Seq<char>>) -> Result<
    (),
    SyncErrorView,
> {
    match outcome {
        Err(cause) => Err(SyncErrorView::LaunchFailure(cause)),
        Ok(code) => if exited_cleanly(code) {
            Ok(())
        } else {
            Err(SyncErrorView::TransferFailure(code))
        },
    }
}

/// Reads the result of a sync off the outcome of its transfer command.
pub fn conclude(outcome: &Result<Option<i32>, String>) -> (result: Result<(), SyncError>)
    ensures
        result_view(result) == conclusion(outcome_view(*outcome)),
{
    match outcome {
        Err(cause) => Err(SyncError::LaunchFailure(cause.clone())),
        Ok(code) => if is_success(*code) {
            Ok(())
        } else {
            Err(SyncError::TransferFailure(*code))
        },
    }
}

/// The exclude arguments are one per pattern and in the patterns' order:
/// the explicit ones first, then the discovered ones.
pub proof fn lemma_exclude_flags_in_order(explicit: Seq<Seq<char>>, found: Seq<Seq<char>>)
    ensures
        exclude_flags(exclude_set(explicit, found)).len() == explicit.len() + found.len(),
        forall|i: int|
            0 <= i < explicit.len() ==> #[trigger] exclude_flags(exclude_set(explicit, found))[i]
                == exclude_flag(explicit[i]),
        forall|i: int|
            0 <= i < found.len() ==> #[trigger] exclude_flags(exclude_set(explicit, found))[explicit.len()
                + i] == exclude_flag(found[i]),
{
}

} // verus!
