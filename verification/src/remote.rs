//! Where a sync goes: the host platform, the remote descriptor, and the
//! transfer mode that the two select.

use vstd::prelude::*;

verus! {

/// The platform of the executing host, as far as a sync cares.
#[derive(Debug, Clone, Copy, PartialEq, Eq, Structural)]
pub enum Platform {
    /// A 64-bit Windows machine.
    Windows64,
    /// Anything else, 32-bit Windows included.
    Other,
}

/// How the transfer tool is reached.
#[derive(Debug, Clone, Copy, PartialEq, Eq, Structural)]
pub enum TransferMode {
    /// Through the virtualization shim, into the Linux environment hosted on
    /// this machine.
    VirtualizedLocal,
    /// Directly, over a remote shell.
    RemoteTransfer,
}

/// The destination of a sync. What a descriptor names is settled by its raw
/// string: one whose raw string is the sentinel names the local
/// environment, whichever way it was built.
#[derive(Debug, PartialEq, Eq)]
pub enum RemoteDescriptor {
    /// The Linux environment hosted on the same Windows machine.
    LocalVirtualizedLinux,
    /// An SSH config alias or `user@host`.
    SshTarget(String),
}

/// The mathematical content of a [`RemoteDescriptor`].
pub enum RemoteView {
    LocalVirtualizedLinux,
    SshTarget(Seq<char>),
}

impl View for RemoteDescriptor {
    type V = RemoteView;

    open spec fn view(&self) -> RemoteView {
        match self {
            RemoteDescriptor::LocalVirtualizedLinux => RemoteView::LocalVirtualizedLinux,
            RemoteDescriptor::SshTarget(host) => RemoteView::SshTarget(host@),
        }
    }
}

/// The word that names the locally hosted Linux environment.
pub open spec fn sentinel() -> Seq<char> {
    "localwsl"@
}

/// The descriptor that a raw remote string stands for: the sentinel names
/// the local environment, every other string is an SSH target.
pub open spec fn remote_of(raw: Seq<char>) -> RemoteView {
    if raw == sentinel() {
        RemoteView::LocalVirtualizedLinux
    } else {
        RemoteView::SshTarget(raw)
    }
}

/// A descriptor is well formed when its tag alone says whether its raw
/// string is the sentinel: an SSH target never holds the sentinel.
pub open spec fn well_formed(remote: RemoteView) -> bool {
    remote matches RemoteView::SshTarget(host) ==> host != sentinel()
}

/// The raw string of a descriptor, as it appears in a destination.
pub open spec fn raw_of(remote: RemoteView) -> Seq<char> {
    match remote {
        RemoteView::LocalVirtualizedLinux => sentinel(),
        RemoteView::SshTarget(host) => host,
    }
}

/// Whether a descriptor names the locally hosted Linux environment: its raw
/// string is the sentinel.
pub open spec fn names_local(remote: RemoteView) -> bool {
    raw_of(remote) == sentinel()
}

/// The mode of a transfer: virtualized-local exactly when the destination is
/// the local environment and the host is 64-bit Windows.
pub open spec fn mode_of(remote: RemoteView, platform: Platform) -> TransferMode {
    if names_local(remote) && platform is Windows64 {
        TransferMode::VirtualizedLocal
    } else {
        TransferMode::RemoteTransfer
    }
}

impl RemoteDescriptor {
    /// Resolves a raw remote string, once, into a descriptor.
    pub fn parse(raw: String) -> (remote: RemoteDescriptor)
        ensures
            remote@ == remote_of(raw@),
            well_formed(remote@),
    {
        let word = "localwsl".to_owned();
        if raw == word {
            RemoteDescriptor::LocalVirtualizedLinux
        } else {
            RemoteDescriptor::SshTarget(raw)
        }
    }

    /// Whether this descriptor names the locally hosted Linux environment.
    pub fn names_local(&self) -> (local: bool)
        ensures
            local == names_local(self@),
    {
        match self {
            RemoteDescriptor::LocalVirtualizedLinux => true,
            RemoteDescriptor::SshTarget(host) => {
                let word = "localwsl".to_owned();
                *host == word
            },
        }
    }

    /// The raw string of this descriptor.
    pub fn raw(&self) -> (raw: String)
        ensures
            raw@ == raw_of(self@),
    {
        match self {
            RemoteDescriptor::LocalVirtualizedLinux => "localwsl".to_owned(),
            RemoteDescriptor::SshTarget(host) => host.clone(),
        }
    }
}

/// Selects the transfer mode for a destination on a platform.
pub fn select_mode(remote: &RemoteDescriptor, platform: Platform) -> (mode: TransferMode)
    ensures
        mode == mode_of(remote@, platform),
{
    match platform {
        Platform::Windows64 => if remote.names_local() {
            TransferMode::VirtualizedLocal
        } else {
            TransferMode::RemoteTransfer
        },
        Platform::Other => TransferMode::RemoteTransfer,
    }
}

/// Parsing a raw string loses nothing: the descriptor it gives is well
/// formed and gives the string back.
pub proof fn lemma_raw_of_remote_of(raw: Seq<char>)
    ensures
        well_formed(remote_of(raw)),
        raw_of(remote_of(raw)) == raw,
{
}

/// A well-formed descriptor is the one that its raw string stands for, and
/// its tag alone says whether it names the local environment.
pub proof fn lemma_remote_of_raw_of(remote: RemoteView)
    requires
        well_formed(remote),
    ensures
        remote_of(raw_of(remote)) == remote,
        names_local(remote) <==> remote is LocalVirtualizedLinux,
{
}

/// The mode goes by the raw string, not by the tag: two descriptors with the
/// same raw string select the same mode on every platform.
pub proof fn lemma_mode_goes_by_raw_string(first: RemoteView, second: RemoteView, platform: Platform)
    requires
        raw_of(first) == raw_of(second),
    ensures
        mode_of(first, platform) == mode_of(second, platform),
{
}

/// Mode selection depends on nothing but whether the raw remote string is
/// the sentinel and whether the host is 64-bit Windows: both together give
/// the virtualized-local mode, every other combination the remote-transfer
/// mode.
pub proof fn lemma_mode_selection(raw: Seq<char>, platform: Platform)
    ensures
        mode_of(remote_of(raw), platform) is VirtualizedLocal <==> raw == sentinel() && platform
            == Platform::Windows64,
        mode_of(remote_of(raw), platform) is RemoteTransfer <==> !(raw == sentinel() && platform
            == Platform::Windows64),
{
}

} // verus!
