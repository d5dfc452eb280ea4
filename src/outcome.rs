//! What the caller reports after carrying out an action of a state machine.

use vstd::prelude::*;

use crate::error::Error;
use crate::stat::Stat;

verus! {

/// The result of the last action, as the caller observed it.
#[derive(Debug, Clone)]
pub enum Outcome {
    /// The action succeeded.
    Done,
    /// The names held by the directory that was listed.
    Names(Vec<Vec<u8>>),
    /// The metadata of the path that was inspected.
    Metadata(Stat),
    /// The metadata of each entry of the tree that was measured.
    Entries(Vec<Stat>),
    /// The action failed.
    Failed(Error),
}

} // verus!
