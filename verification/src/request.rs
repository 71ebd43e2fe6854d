//! What a sync is asked to do, and how it can fail.

use vstd::prelude::*;
use vstd::string::StringExecFns;
use crate::remote::{RemoteDescriptor, RemoteView};
use crate::text::{concat, push_signed_decimal, signed_decimal};

verus! {

/// One sync, as the caller asks for it. It does not change while the sync
/// is under way.
#[derive(Debug, PartialEq, Eq)]
pub struct SyncRequest {
    /// The local tree to copy.
    pub source: String,
    /// Where to put it at the destination.
    pub target: String,
    /// The destination.
    pub remote: RemoteDescriptor,
    /// The port of the remote shell.
    pub port: usize,
    /// Patterns to leave out, besides what the ignore rules give.
    pub explicit_excludes: Vec<String>,
}

/// The mathematical content of a [`SyncRequest`].
pub struct SyncRequestView {
    pub source: Seq<char>,
    pub target: Seq<char>,
    pub remote: RemoteView,
    pub port: nat,
    pub explicit_excludes: Seq<Seq<char>>,
}

impl View for SyncRequest {
    type V = SyncRequestView;

    open spec fn view(&self) -> SyncRequestView {
        SyncRequestView {
            source: self.source@,
            target: self.target@,
            remote: self.remote@,
            port: self.port as nat,
            explicit_excludes: self.explicit_excludes.deep_view(),
        }
    }
}

/// Why a sync failed.
#[derive(Debug, PartialEq, Eq)]
pub enum SyncError {
    /// The source path has no equivalent inside the local Linux
    /// environment; holds the cause.
    PathTranslationFailure(String),
    /// Source and target are the same location; holds the target.
    SelfSyncError(String),
    /// The transfer tool could not be launched; holds the cause.
    LaunchFailure(String),
    /// The transfer tool did not exit with success; holds its exit code,
    /// absent where a signal ended it.
    TransferFailure(Option<i32>),
}

/// The mathematical content of a [`SyncError`].
pub enum SyncErrorView {
    PathTranslationFailure(Seq<char>),
    SelfSyncError(Seq<char>),
    LaunchFailure(Seq<char>),
    TransferFailure(Option<i32>),
}

impl View for SyncError {
    type V = SyncErrorView;

    open spec fn view(&self) -> SyncErrorView {
        match self {
            SyncError::PathTranslationFailure(cause) => SyncErrorView::PathTranslationFailure(
                cause@,
            ),
            SyncError::SelfSyncError(target) => SyncErrorView::SelfSyncError(target@),
            SyncError::LaunchFailure(cause) => SyncErrorView::LaunchFailure(cause@),
            SyncError::TransferFailure(code) => SyncErrorView::TransferFailure(*code),
        }
    }
}

/// An exit code the way it is shown in a message.
pub open spec fn shown_code(code: Option<i32>) -> Seq<char> {
    match code {
        Some(n) => "Some("@ + signed_decimal(n as int) + ")"@,
        None => "None"@,
    }
}

/// The message of a sync error.
pub open spec fn sync_error_message(error: SyncErrorView) -> Seq<char> {
    match error {
        SyncErrorView::PathTranslationFailure(cause) => "Failed to convert path to WSL: "@ + cause,
        SyncErrorView::SelfSyncError(target) =>
            "Cannot sync a directory with itself. target and source were: "@ + target,
        SyncErrorView::LaunchFailure(cause) => cause,
        SyncErrorView::TransferFailure(code) =>
            "Failed to sync the project via rsync. Exit status: "@ + shown_code(code),
    }
}

impl SyncError {
    /// Renders this error.
    pub fn message(&self) -> (text: String)
        ensures
            text@ == sync_error_message(self@),
    {
        match self {
            SyncError::PathTranslationFailure(cause) => concat(
                "Failed to convert path to WSL: ",
                cause.as_str(),
            ),
            SyncError::SelfSyncError(target) => concat(
                "Cannot sync a directory with itself. target and source were: ",
                target.as_str(),
            ),
            SyncError::LaunchFailure(cause) => cause.clone(),
            SyncError::TransferFailure(code) => {
                let mut text = "Failed to sync the project via rsync. Exit status: ".to_owned();
                match code {
                    Some(n) => {
                        let ghost lead = text@;
                        text.append("Some(");
                        push_signed_decimal(&mut text, *n);
                        text.append(")");
                        assert(text@ == lead + ("Some("@ + signed_decimal(*n as int) + ")"@));
                    },
                    None => text.append("None"),
                }
                text
            },
        }
    }
}

} // verus!
