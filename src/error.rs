//! Failures that end a dispatch.
use vstd::prelude::*;

verus! {

/// Why a dispatch could not go on.
#[derive(Debug, Clone, Copy, PartialEq, Eq, Structural)]
pub enum ShimError {
    /// The network could not be reached (connection, name lookup, timeout).
    NetworkUnavailable,
    /// The server answered with a status that is not a success.
    UpstreamError { status: u16 },
    /// No `vX.Y.Z` token could be found where one was needed.
    MalformedVersion,
    /// A directory could not be created or a file could not be written.
    FilesystemError,
    /// The query binary could not be started.
    SubprocessError,
}

} // verus!
