//! The errors of trashing a path.

use vstd::prelude::*;

verus! {

/// Why trashing a path failed.
#[derive(Debug, Clone, PartialEq, Eq)]
pub enum Error {
    /// An OS call (open, read, write, rename, copy, delete) failed; holds
    /// the operating system's message.
    Io(String),
    /// The path has no final component to trash (`/`, for one).
    FailedToObtainFileName(Vec<u8>),
    /// A path held a NUL byte and could not be handed to the OS.
    InternalNulByte,
    /// The mount table could not be read.
    FailedToObtainMountPoints,
    /// A directory was expected at this path.
    NotADirectory(Vec<u8>),
    /// A path could not be converted to the OS's string form.
    UnixString(String),
    /// No mount point holds this path.
    MountPointNotFound(Vec<u8>),
    /// The metadata of a path could not be read.
    StatError,
    /// The source was copied but could not be removed afterwards: both the
    /// copy (first) and the source (second) are still on disk.
    SourceNotRemoved(Vec<u8>, Vec<u8>),
    /// A state machine was handed an outcome that does not answer the
    /// action it asked for.
    UnexpectedOutcome,
}

} // verus!
