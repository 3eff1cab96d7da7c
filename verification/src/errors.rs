use vstd::prelude::*;

use crate::paths::FsPath;

verus! {

/// The failure taxonomy of the copy core.
///
/// Finalisation failures (permission copy, fsync) are deliberately absent:
/// they are swallowed by the shell that owns the descriptors, never surfaced.
#[derive(Clone, Debug)]
pub enum XcpError {
    /// A malformed configuration value; carries the offending text.
    InvalidArguments(String),
    /// A source path with no final component.
    InvalidSource,
    /// The target path already exists and the no-clobber policy is set.
    DestinationExists(FsPath),
    /// A no-clobber conflict halts the whole walk, not just the entry.
    EarlyShutdown,
    /// The reflink policy was `Always` and the clone attempt failed.
    ReflinkFailed,
    /// A directory entry of a kind the core does not recognise.
    UnknownFileType(FsPath),
    /// The receiving end of the status or work channel is gone.
    ChannelClosed,
}

} // verus!
