//! Moving a file or directory: a rename where the filesystem allows it,
//! else a copy that keeps the permission bits and times, then the removal
//! of the source.
//!
//! [`Mover`] decides; the caller carries out each [`MoveAction`] and hands
//! back its [`Outcome`] until the mover finishes or aborts.

use vstd::prelude::*;

use crate::error::Error;
use crate::outcome::Outcome;
use crate::path::to_bytes;
use crate::stat::{Stat, PERMISSION_MASK};

verus! {

/// Where a move stands.
#[derive(Debug, Clone, Copy, PartialEq, Eq, Structural)]
pub enum MoveStage {
    /// Nothing was asked yet.
    Start,
    /// The rename was asked for.
    Renaming,
    /// The rename failed; the source's metadata was asked for.
    Inspecting,
    /// The copy was asked for; the source's metadata is kept.
    Copying(Stat),
    /// The source's permission bits and times are being put on the copy.
    Restoring(Stat),
    /// The removal of the source was asked for.
    Removing,
    /// The entry is at its destination and gone from its source.
    Finished,
    /// The move was abandoned.
    Failed,
}

/// What the caller is asked to do next.
#[derive(Debug, Clone)]
pub enum MoveAction {
    /// Rename `from` to `to`.
    Rename { from: Vec<u8>, to: Vec<u8> },
    /// Read the metadata of `path`, without following a symbolic link.
    Inspect { path: Vec<u8> },
    /// Copy `from` to `to`, the whole tree where `recursive`.
    Copy { from: Vec<u8>, to: Vec<u8>, recursive: bool },
    /// Set these permission bits and times on `path`.
    Restore { path: Vec<u8>, permissions: u32, accessed: u64, modified: u64 },
    /// Remove `path`, the whole tree where `recursive`.
    RemoveSource { path: Vec<u8>, recursive: bool },
    /// The move is complete.
    Finish,
    /// The move failed with this error.
    Abort(Error),
}

/// The action that answers an outcome that does not fit.
pub open spec fn unexpected(next: MoveStage, a: MoveAction) -> bool {
    next == MoveStage::Failed && a == MoveAction::Abort(Error::UnexpectedOutcome)
}

/// One step of a move of `from` to `to`: in `stage`, on `outcome`, the
/// mover goes to `next` and asks for `a`. Any failure of the rename falls
/// back on the copy; any other failure ends the move.
pub open spec fn move_step(
    from: Seq<u8>,
    to: Seq<u8>,
    stage: MoveStage,
    outcome: Outcome,
    next: MoveStage,
    a: MoveAction,
) -> bool {
    match stage {
        MoveStage::Start => next == MoveStage::Renaming && (a matches MoveAction::Rename {
            from: f,
            to: t,
        } && f@ == from && t@ == to),
        MoveStage::Renaming => match outcome {
            Outcome::Done => next == MoveStage::Finished && a == MoveAction::Finish,
            Outcome::Failed(_) => next == MoveStage::Inspecting && (a matches MoveAction::Inspect {
                path,
            } && path@ == from),
            _ => unexpected(next, a),
        },
        MoveStage::Inspecting => match outcome {
            Outcome::Metadata(s) => next == MoveStage::Copying(s) && (a matches MoveAction::Copy {
                from: f,
                to: t,
                recursive,
            } && f@ == from && t@ == to && recursive == s.is_directory()),
            Outcome::Failed(e) => next == MoveStage::Failed && a == MoveAction::Abort(e),
            _ => unexpected(next, a),
        },
        MoveStage::Copying(s) => match outcome {
            Outcome::Done => next == MoveStage::Restoring(s) && (a matches MoveAction::Restore {
                path,
                permissions,
                accessed,
                modified,
            } && path@ == to && permissions == s.mode & PERMISSION_MASK && accessed == s.accessed
                && modified == s.modified),
            Outcome::Failed(e) => next == MoveStage::Failed && a == MoveAction::Abort(e),
            _ => unexpected(next, a),
        },
        MoveStage::Restoring(s) => match outcome {
            Outcome::Done => next == MoveStage::Removing && (a matches MoveAction::RemoveSource {
                path,
                recursive,
            } && path@ == from && recursive == s.is_directory()),
            Outcome::Failed(e) => next == MoveStage::Failed && a == MoveAction::Abort(e),
            _ => unexpected(next, a),
        },
        MoveStage::Removing => match outcome {
            Outcome::Done => next == MoveStage::Finished && a == MoveAction::Finish,
            Outcome::Failed(_) => next == MoveStage::Failed && (a matches MoveAction::Abort(
                Error::SourceNotRemoved(c, s),
            ) && c@ == to && s@ == from),
            _ => unexpected(next, a),
        },
        MoveStage::Finished | MoveStage::Failed => unexpected(next, a),
    }
}

/// A run of a move of `from` to `to`: the stages it went through, the
/// outcomes it was handed and the actions it asked for, one step per
/// outcome, from the start.
pub open spec fn is_move_run(
    from: Seq<u8>,
    to: Seq<u8>,
    stages: Seq<MoveStage>,
    outcomes: Seq<Outcome>,
    actions: Seq<MoveAction>,
) -> bool {
    &&& stages.len() == outcomes.len() + 1
    &&& actions.len() == outcomes.len()
    &&& stages[0] == MoveStage::Start
    &&& forall|i: int|
        0 <= i < outcomes.len() ==> move_step(
            from,
            to,
            stages[i],
            outcomes[i],
            stages[i + 1],
            #[trigger] actions[i],
        )
}

/// How many steps lead to a stage that is not over.
spec fn rank(stage: MoveStage) -> int {
    match stage {
        MoveStage::Start => 0,
        MoveStage::Renaming => 1,
        MoveStage::Inspecting => 2,
        MoveStage::Copying(_) => 3,
        MoveStage::Restoring(_) => 4,
        MoveStage::Removing => 5,
        MoveStage::Finished | MoveStage::Failed => -1,
    }
}

/// A stage that is not over is reached after exactly its rank of steps.
proof fn lemma_rank(
    from: Seq<u8>,
    to: Seq<u8>,
    stages: Seq<MoveStage>,
    outcomes: Seq<Outcome>,
    actions: Seq<MoveAction>,
    k: int,
)
    requires
        is_move_run(from, to, stages, outcomes, actions),
        0 <= k < stages.len(),
    ensures
        rank(stages[k]) == -1 || rank(stages[k]) == k,
    decreases k,
{
    if k > 0 {
        lemma_rank(from, to, stages, outcomes, actions, k - 1);
        assert(move_step(from, to, stages[k - 1], outcomes[k - 1], stages[k], actions[k - 1]));
    }
}

/// The source is removed only after its rename failed, its metadata was
/// read, the copy succeeded, and the permission bits and times read before
/// the copy were put back on the copy.
pub proof fn lemma_source_removed_after_copy(
    from: Seq<u8>,
    to: Seq<u8>,
    stages: Seq<MoveStage>,
    outcomes: Seq<Outcome>,
    actions: Seq<MoveAction>,
    i: int,
)
    requires
        is_move_run(from, to, stages, outcomes, actions),
        0 <= i < actions.len(),
        actions[i] is RemoveSource,
    ensures
        i == 4,
        actions[0] matches MoveAction::Rename { from: f, to: t } && f@ == from && t@ == to,
        outcomes[1] is Failed,
        outcomes[2] matches Outcome::Metadata(s) && {
            &&& actions[2] matches MoveAction::Copy { from: f, to: t, recursive } && f@ == from
                && t@ == to && recursive == s.is_directory()
            &&& actions[3] matches MoveAction::Restore { path, permissions, accessed, modified }
                && path@ == to && permissions == s.mode & PERMISSION_MASK && accessed == s.accessed
                && modified == s.modified
        },
        outcomes[3] is Done,
        outcomes[4] is Done,
{
    assert(move_step(from, to, stages[i], outcomes[i], stages[i + 1], actions[i]));
    lemma_rank(from, to, stages, outcomes, actions, i);
    assert(i == 4);
    assert(move_step(from, to, stages[0], outcomes[0], stages[1], actions[0]));
    assert(move_step(from, to, stages[1], outcomes[1], stages[2], actions[1]));
    assert(move_step(from, to, stages[2], outcomes[2], stages[3], actions[2]));
    assert(move_step(from, to, stages[3], outcomes[3], stages[4], actions[3]));
    lemma_rank(from, to, stages, outcomes, actions, 3);
    lemma_rank(from, to, stages, outcomes, actions, 2);
    lemma_rank(from, to, stages, outcomes, actions, 1);
}

/// A move that finishes either renamed the entry at once, or removed the
/// source as the last step of the copy.
pub proof fn lemma_finish(
    from: Seq<u8>,
    to: Seq<u8>,
    stages: Seq<MoveStage>,
    outcomes: Seq<Outcome>,
    actions: Seq<MoveAction>,
    i: int,
)
    requires
        is_move_run(from, to, stages, outcomes, actions),
        0 <= i < actions.len(),
        actions[i] is Finish,
    ensures
        (i == 1 && actions[0] is Rename && outcomes[1] is Done) || (i == 5
            && actions[4] is RemoveSource && outcomes[5] is Done),
{
    assert(move_step(from, to, stages[i], outcomes[i], stages[i + 1], actions[i]));
    lemma_rank(from, to, stages, outcomes, actions, i);
    if i == 1 {
        assert(move_step(from, to, stages[0], outcomes[0], stages[1], actions[0]));
    } else {
        assert(move_step(from, to, stages[4], outcomes[4], stages[5], actions[4]));
        lemma_rank(from, to, stages, outcomes, actions, 4);
    }
}

/// A move of the entry at `from` to `to`.
#[derive(Debug)]
pub struct Mover {
    pub from: Vec<u8>,
    pub to: Vec<u8>,
    pub stage: MoveStage,
}

impl Mover {
    /// A move of `from` to `to` that has not started.
    pub fn new(from: &[u8], to: &[u8]) -> (r: Mover)
        ensures
            r.from@ == from@,
            r.to@ == to@,
            r.stage == MoveStage::Start,
    {
        Mover { from: to_bytes(from), to: to_bytes(to), stage: MoveStage::Start }
    }

    /// Whether the move has finished or failed.
    pub fn is_over(&self) -> (r: bool)
        ensures
            r == (self.stage == MoveStage::Finished || self.stage == MoveStage::Failed),
    {
        match self.stage {
            MoveStage::Finished | MoveStage::Failed => true,
            _ => false,
        }
    }

    /// Takes the outcome of the last action (anything, at the start) and
    /// gives the next action.
    pub fn step(&mut self, outcome: Outcome) -> (a: MoveAction)
        ensures
            final(self).from == old(self).from,
            final(self).to == old(self).to,
            move_step(old(self).from@, old(self).to@, old(self).stage, outcome, final(self).stage, a),
    {
        let from = self.from.as_slice();
        let to = self.to.as_slice();
        let (next, a) = match self.stage {
            MoveStage::Start => (
                MoveStage::Renaming,
                MoveAction::Rename { from: to_bytes(from), to: to_bytes(to) },
            ),
            MoveStage::Renaming => match outcome {
                Outcome::Done => (MoveStage::Finished, MoveAction::Finish),
                Outcome::Failed(_) => (MoveStage::Inspecting, MoveAction::Inspect { path: to_bytes(from) }),
                _ => (MoveStage::Failed, MoveAction::Abort(Error::UnexpectedOutcome)),
            },
            MoveStage::Inspecting => match outcome {
                Outcome::Metadata(s) => (
                    MoveStage::Copying(s),
                    MoveAction::Copy { from: to_bytes(from), to: to_bytes(to), recursive: s.is_dir() },
                ),
                Outcome::Failed(e) => (MoveStage::Failed, MoveAction::Abort(e)),
                _ => (MoveStage::Failed, MoveAction::Abort(Error::UnexpectedOutcome)),
            },
            MoveStage::Copying(s) => match outcome {
                Outcome::Done => (
                    MoveStage::Restoring(s),
                    MoveAction::Restore {
                        path: to_bytes(to),
                        permissions: s.permission_bits(),
                        accessed: s.accessed,
                        modified: s.modified,
                    },
                ),
                Outcome::Failed(e) => (MoveStage::Failed, MoveAction::Abort(e)),
                _ => (MoveStage::Failed, MoveAction::Abort(Error::UnexpectedOutcome)),
            },
            MoveStage::Restoring(s) => match outcome {
                Outcome::Done => (
                    MoveStage::Removing,
                    MoveAction::RemoveSource { path: to_bytes(from), recursive: s.is_dir() },
                ),
                Outcome::Failed(e) => (MoveStage::Failed, MoveAction::Abort(e)),
                _ => (MoveStage::Failed, MoveAction::Abort(Error::UnexpectedOutcome)),
            },
            MoveStage::Removing => match outcome {
                Outcome::Done => (MoveStage::Finished, MoveAction::Finish),
                Outcome::Failed(_) => (
                    MoveStage::Failed,
                    MoveAction::Abort(Error::SourceNotRemoved(to_bytes(to), to_bytes(from))),
                ),
                _ => (MoveStage::Failed, MoveAction::Abort(Error::UnexpectedOutcome)),
            },
            MoveStage::Finished | MoveStage::Failed => (
                MoveStage::Failed,
                MoveAction::Abort(Error::UnexpectedOutcome),
            ),
        };
        self.stage = next;
        a
    }
}

} // verus!
