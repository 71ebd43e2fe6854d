//! One-directional directory synchronisation: the rules that decide which
//! external commands a sync runs, with which arguments, and how their
//! outcomes are read.
//!
//! Nothing here touches a process or a file. Every function takes what the
//! outside world answered as plain values and says what to do next, so each
//! decision carries a machine-checked contract.

pub mod gitignore;
pub mod opts;
pub mod process;
pub mod remote;
pub mod request;
pub mod rsync;
pub mod text;
pub mod transfer;

pub use gitignore::{gitignore_files, ResolverError, ResolverReplies, ResolverStep};
pub use opts::{Opts, DEFAULT_PORT};
pub use process::{Invocation, ProcessOutput};
pub use remote::{Platform, RemoteDescriptor, TransferMode};
pub use request::{SyncError, SyncRequest};
pub use rsync::{rsync, to_posix_path, PathStep, SyncReplies, SyncStep};
