//! The part of a file's metadata that trashing reads.

use vstd::prelude::*;

verus! {

/// The bits of a mode that give the file's type.
pub const TYPE_MASK: u32 = 0o170000;

/// The type bits of a directory.
pub const DIRECTORY_TYPE: u32 = 0o040000;

/// The permission bits of a mode: set-id, sticky and the rwx triples.
pub const PERMISSION_MASK: u32 = 0o7777;

/// What `lstat` reports of a file: its mode, the blocks allocated to it,
/// and its access and modification times in seconds since the epoch.
#[derive(Debug, Clone, Copy, PartialEq, Eq, Structural)]
pub struct Stat {
    pub mode: u32,
    pub blocks: i64,
    pub accessed: u64,
    pub modified: u64,
}

impl Stat {
    /// The metadata made of these four values.
    pub fn new(mode: u32, blocks: i64, accessed: u64, modified: u64) -> (r: Stat)
        ensures
            r == (Stat { mode, blocks, accessed, modified }),
    {
        Stat { mode, blocks, accessed, modified }
    }

    /// The file's type and permission bits.
    pub fn mode(&self) -> (r: u32)
        ensures
            r == self.mode,
    {
        self.mode
    }

    /// The number of blocks allocated to the file.
    pub fn blocks(&self) -> (r: i64)
        ensures
            r == self.blocks,
    {
        self.blocks
    }

    /// The time of last access, in seconds since the epoch.
    pub fn accessed(&self) -> (r: u64)
        ensures
            r == self.accessed,
    {
        self.accessed
    }

    /// The time of last modification, in seconds since the epoch.
    pub fn modified(&self) -> (r: u64)
        ensures
            r == self.modified,
    {
        self.modified
    }

    /// Whether the type bits name a directory.
    pub open spec fn is_directory(self) -> bool {
        self.mode & TYPE_MASK == DIRECTORY_TYPE
    }

    /// Whether the file is a directory.
    pub fn is_dir(&self) -> (r: bool)
        ensures
            r == self.is_directory(),
    {
        self.mode & TYPE_MASK == DIRECTORY_TYPE
    }

    /// The permission bits of the mode, as `chmod` takes them.
    pub fn permission_bits(&self) -> (r: u32)
        ensures
            r == self.mode & PERMISSION_MASK,
    {
        self.mode & PERMISSION_MASK
    }
}

} // verus!
