//! The options of the command line, and the request they stand for.

use vstd::prelude::*;
use crate::remote::{remote_of, RemoteDescriptor};
use crate::request::{SyncRequest, SyncRequestView};

verus! {

/// The port of the remote shell where the command line names none.
pub const DEFAULT_PORT: usize = 22;

/// The options of the command line.
#[derive(Debug, PartialEq, Eq)]
pub struct Opts {
    /// The source path. Defaults to the current directory.
    pub source: Option<String>,
    /// The target directory. Defaults to `~`.
    pub target: Option<String>,
    /// The target remote: an alias of the SSH configuration,
    /// `username@remoteIP_or_name`, or `localwsl` for the Linux environment
    /// hosted on this machine.
    pub remote: String,
    /// The port of the remote shell. Defaults to 22.
    pub port: usize,
    /// Paths to leave out when syncing.
    pub exclude: Vec<String>,
}

/// The target where the command line names none: the home directory at the
/// destination.
pub open spec fn default_target() -> Seq<char> {
    "~"@
}

/// The target that the options name, or the default.
pub open spec fn target_of(target: Option<String>) -> Seq<char> {
    match target {
        Some(target) => target@,
        None => default_target(),
    }
}

impl Opts {
    /// The request that these options stand for, with `source` as the tree
    /// to copy: the `source` option once its home-directory shorthand is
    /// expanded, or the current directory where the option is absent.
    pub fn into_request(self, source: String) -> (request: SyncRequest)
        ensures
            request@ == (SyncRequestView {
                source: source@,
                target: target_of(self.target),
                remote: remote_of(self.remote@),
                port: self.port as nat,
                explicit_excludes: self.exclude.deep_view(),
            }),
    {
        let target = match self.target {
            Some(target) => target,
            None => "~".to_owned(),
        };
        SyncRequest {
            source,
            target,
            remote: RemoteDescriptor::parse(self.remote),
            port: self.port,
            explicit_excludes: self.exclude,
        }
    }
}

} // verus!
