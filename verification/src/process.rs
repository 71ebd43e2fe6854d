//! Plain descriptions of external commands and of what they answered.

use vstd::prelude::*;

verus! {

/// An external command: the program to launch and its arguments, in order.
#[derive(Debug, PartialEq, Eq)]
pub struct Invocation {
    pub executable: String,
    pub arguments: Vec<String>,
}

/// The mathematical content of an [`Invocation`].
pub struct InvocationView {
    pub executable: Seq<char>,
    pub arguments: Seq<Seq<char>>,
}

impl View for Invocation {
    type V = InvocationView;

    open spec fn view(&self) -> InvocationView {
        InvocationView { executable: self.executable@, arguments: self.arguments.deep_view() }
    }
}

/// What a finished process left behind: its exit code (absent when a signal
/// ended it) and the bytes it wrote to its two output streams.
#[derive(Debug, PartialEq, Eq)]
pub struct ProcessOutput {
    pub code: Option<i32>,
    pub stdout: Vec<u8>,
    pub stderr: Vec<u8>,
}

/// The mathematical content of a [`ProcessOutput`].
pub struct ProcessOutputView {
    pub code: Option<i32>,
    pub stdout: Seq<u8>,
    pub stderr: Seq<u8>,
}

impl View for ProcessOutput {
    type V = ProcessOutputView;

    open spec fn view(&self) -> ProcessOutputView {
        ProcessOutputView { code: self.code, stdout: self.stdout@, stderr: self.stderr@ }
    }
}

/// A process succeeded when it exited, and with code zero.
pub open spec fn exited_cleanly(code: Option<i32>) -> bool {
    code == Some(0i32)
}

/// Whether `code` reports success.
pub fn is_success(code: Option<i32>) -> (ok: bool)
    ensures
        ok == exited_cleanly(code),
{
    match code {
        Some(n) => n == 0,
        None => false,
    }
}

} // verus!
