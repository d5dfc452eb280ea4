//! Trashing one path: the steps, in the order that the trash layout asks
//! for.
//!
//! A [`TrashRequest`] names the entry, has its info file written, has the
//! entry moved into the trash and, for a directory, has its size recorded.
//! The caller carries out each [`TrashAction`] and hands back its
//! [`Outcome`] until the request finishes or aborts. The names in the
//! trash are read and then used: two processes that trash into one
//! directory at once may pick the same name.

use vstd::prelude::*;

use crate::decimal::{decimal, decimal_bytes};
use crate::error::Error;
use crate::info_file::{build_info_file, info_file_contents, info_file_path, NEWLINE};
use crate::outcome::Outcome;
use crate::path::{extend_bytes, file_name, file_name_of, join, joined, to_bytes};
use crate::trash::{
    make_unique_file_name, saturated, total_blocks, total_block_count, unique_name_of, views, Trash,
};

verus! {

/// The space between the two fields of a size record.
pub const FIELD_SEPARATOR: u8 = 0x20;

/// Where a request stands.
#[derive(Debug, Clone, Copy, PartialEq, Eq, Structural)]
pub enum TrashStage {
    /// Nothing was asked yet.
    Start,
    /// The names in the trash's `files` directory were asked for.
    Naming,
    /// The info file was asked for.
    WritingInfo,
    /// The move of the entry into the trash was asked for.
    Moving,
    /// The metadata of the trashed entry was asked for.
    Inspecting,
    /// The metadata of the trashed directory's tree was asked for.
    Sizing,
    /// The size record of the trashed directory was asked for.
    Recording,
    /// The entry is in the trash.
    Finished,
    /// The request was abandoned.
    Failed,
}

/// What the caller is asked to do next.
#[derive(Debug, Clone)]
pub enum TrashAction {
    /// List the names held by the directory `dir`.
    ListNames { dir: Vec<u8> },
    /// Create the file at `path` with these contents.
    WriteInfo { path: Vec<u8>, contents: Vec<u8> },
    /// Move the entry at `from` to `to`, as a [`crate::move_file::Mover`]
    /// does it.
    Move { from: Vec<u8>, to: Vec<u8> },
    /// Read the metadata of `path`, without following a symbolic link.
    Inspect { path: Vec<u8> },
    /// Read the metadata of every entry of the tree at `path`, `path`
    /// included.
    Measure { path: Vec<u8> },
    /// Append `record` to the file at `path`.
    AppendSize { path: Vec<u8>, record: Vec<u8> },
    /// The entry is in the trash under this name.
    Finish(Vec<u8>),
    /// Trashing failed with this error.
    Abort(Error),
}

/// One request to trash the entry at `path`, on `deletion_date`.
#[derive(Debug)]
pub struct TrashRequest {
    /// The canonical path of the entry.
    pub path: Vec<u8>,
    /// The last component of `path`.
    pub file_name: Vec<u8>,
    /// Where the entry goes.
    pub trash: Trash,
    /// When the entry is trashed, as `YYYY-MM-DDThh:mm:ss`.
    pub deletion_date: Vec<u8>,
    /// The entry's name in the trash, once chosen.
    pub name: Vec<u8>,
    pub stage: TrashStage,
}

/// The size record of the trashed directory `name`: its size in blocks
/// and its name, on one line.
pub open spec fn size_record(blocks: u64, name: Seq<u8>) -> Seq<u8> {
    decimal(blocks as nat).push(FIELD_SEPARATOR) + name.push(NEWLINE)
}

/// The request after a step: all but the stage and the chosen name stay.
pub open spec fn keeps(r: TrashRequest, next: TrashRequest) -> bool {
    &&& next.path == r.path
    &&& next.file_name == r.file_name
    &&& next.trash == r.trash
    &&& next.deletion_date == r.deletion_date
}

/// The step that ends a request with `e`.
pub open spec fn fails_with(r: TrashRequest, next: TrashRequest, a: TrashAction, e: Error) -> bool {
    next.stage == TrashStage::Failed && next.name == r.name && a == TrashAction::Abort(e)
}

/// One step of a request: in `r`, on `outcome`, it becomes `next` and asks
/// for `a`. The info file is asked for before the move, under the name the
/// entry will have; any failure ends the request.
pub open spec fn trash_step(r: TrashRequest, outcome: Outcome, next: TrashRequest, a: TrashAction) -> bool {
    let entry = joined(r.trash.files@, r.name@);
    &&& keeps(r, next)
    &&& match r.stage {
        TrashStage::Start => next.stage == TrashStage::Naming && next.name == r.name && (
        a matches TrashAction::ListNames { dir } && dir@ == r.trash.files@),
        TrashStage::Naming => match outcome {
            Outcome::Names(names) => {
                &&& next.stage == TrashStage::WritingInfo
                &&& unique_name_of(r.file_name@, views(names@), next.name@)
                &&& a matches TrashAction::WriteInfo { path, contents } && path@ == info_file_path(
                    next.name@,
                    r.trash.info@,
                ) && contents@ == info_file_contents(r.path@, r.deletion_date@)
            },
            Outcome::Failed(e) => fails_with(r, next, a, e),
            _ => fails_with(r, next, a, Error::UnexpectedOutcome),
        },
        TrashStage::WritingInfo => match outcome {
            Outcome::Done => next.stage == TrashStage::Moving && next.name == r.name && (
            a matches TrashAction::Move { from, to } && from@ == r.path@ && to@ == entry),
            Outcome::Failed(e) => fails_with(r, next, a, e),
            _ => fails_with(r, next, a, Error::UnexpectedOutcome),
        },
        TrashStage::Moving => match outcome {
            Outcome::Done => next.stage == TrashStage::Inspecting && next.name == r.name && (
            a matches TrashAction::Inspect { path } && path@ == entry),
            Outcome::Failed(e) => fails_with(r, next, a, e),
            _ => fails_with(r, next, a, Error::UnexpectedOutcome),
        },
        TrashStage::Inspecting => match outcome {
            Outcome::Metadata(s) => if s.is_directory() {
                next.stage == TrashStage::Sizing && next.name == r.name && (
                a matches TrashAction::Measure { path } && path@ == entry)
            } else {
                next.stage == TrashStage::Finished && next.name == r.name && (
                a matches TrashAction::Finish(n) && n@ == r.name@)
            },
            Outcome::Failed(e) => fails_with(r, next, a, e),
            _ => fails_with(r, next, a, Error::UnexpectedOutcome),
        },
        TrashStage::Sizing => match outcome {
            Outcome::Entries(entries) => next.stage == TrashStage::Recording && next.name == r.name
                && (a matches TrashAction::AppendSize { path, record } && path@
                == r.trash.directory_sizes@ && record@ == size_record(
                saturated(total_blocks(entries@)),
                r.name@,
            )),
            Outcome::Failed(e) => fails_with(r, next, a, e),
            _ => fails_with(r, next, a, Error::UnexpectedOutcome),
        },
        TrashStage::Recording => match outcome {
            Outcome::Done => next.stage == TrashStage::Finished && next.name == r.name && (
            a matches TrashAction::Finish(n) && n@ == r.name@),
            Outcome::Failed(e) => fails_with(r, next, a, e),
            _ => fails_with(r, next, a, Error::UnexpectedOutcome),
        },
        TrashStage::Finished | TrashStage::Failed => fails_with(r, next, a, Error::UnexpectedOutcome),
    }
}

/// A run of a request: the states it went through, the outcomes it was
/// handed and the actions it asked for, one step per outcome, from the
/// start.
pub open spec fn is_trash_run(
    requests: Seq<TrashRequest>,
    outcomes: Seq<Outcome>,
    actions: Seq<TrashAction>,
) -> bool {
    &&& requests.len() == outcomes.len() + 1
    &&& actions.len() == outcomes.len()
    &&& requests[0].stage == TrashStage::Start
    &&& forall|i: int|
        0 <= i < outcomes.len() ==> trash_step(
            requests[i],
            outcomes[i],
            requests[i + 1],
            #[trigger] actions[i],
        )
}

/// No entry is moved into the trash before its info file is written: a
/// move into `files/<name>` is asked for only right after the info file
/// `info/<name>.trashinfo` was asked for and reported written, where
/// `name` is free among the names that `files` held.
pub proof fn lemma_info_file_before_move(
    requests: Seq<TrashRequest>,
    outcomes: Seq<Outcome>,
    actions: Seq<TrashAction>,
    i: int,
)
    requires
        is_trash_run(requests, outcomes, actions),
        0 <= i < actions.len(),
        actions[i] is Move,
    ensures
        i >= 1,
        outcomes[i] is Done,
        ({
            let trash = requests[0].trash;
            let name = requests[i].name@;
            &&& actions[i] matches TrashAction::Move { from, to } && from@ == requests[0].path@
                && to@ == joined(trash.files@, name)
            &&& actions[i - 1] matches TrashAction::WriteInfo { path, contents } && path@
                == info_file_path(name, trash.info@) && contents@ == info_file_contents(
                requests[0].path@,
                requests[0].deletion_date@,
            )
            &&& outcomes[i - 1] matches Outcome::Names(names) && unique_name_of(
                requests[0].file_name@,
                views(names@),
                name,
            )
        }),
{
    assert forall|k: int| 0 <= k <= i implies keeps(requests[0], #[trigger] requests[k]) by {
        lemma_keeps(requests, outcomes, actions, k);
    }
    assert(trash_step(requests[i], outcomes[i], requests[i + 1], actions[i]));
    assert(requests[i].stage == TrashStage::WritingInfo);
    assert(i >= 1);
    assert(trash_step(requests[i - 1], outcomes[i - 1], requests[i], actions[i - 1]));
}

/// What a request keeps, it keeps from its start.
proof fn lemma_keeps(
    requests: Seq<TrashRequest>,
    outcomes: Seq<Outcome>,
    actions: Seq<TrashAction>,
    k: int,
)
    requires
        is_trash_run(requests, outcomes, actions),
        0 <= k < requests.len(),
    ensures
        keeps(requests[0], requests[k]),
    decreases k,
{
    if k > 0 {
        lemma_keeps(requests, outcomes, actions, k - 1);
        assert(trash_step(requests[k - 1], outcomes[k - 1], requests[k], actions[k - 1]));
    }
}

impl TrashRequest {
    /// A request to trash the entry at the canonical `path` into `trash`,
    /// on `deletion_date`. Fails where `path` has no last component.
    pub fn new(path: &[u8], trash: Trash, deletion_date: &[u8]) -> (r: Result<TrashRequest, Error>)
        ensures
            match r {
                Ok(q) => {
                    &&& file_name_of(path@) == Some(q.file_name@)
                    &&& q.path@ == path@
                    &&& q.trash == trash
                    &&& q.deletion_date@ == deletion_date@
                    &&& q.stage == TrashStage::Start
                },
                Err(e) => file_name_of(path@) is None && (e matches Error::FailedToObtainFileName(
                    p,
                ) && p@ == path@),
            },
    {
        match file_name(path) {
            Some(n) => Ok(
                TrashRequest {
                    path: to_bytes(path),
                    file_name: n,
                    trash,
                    deletion_date: to_bytes(deletion_date),
                    name: Vec::new(),
                    stage: TrashStage::Start,
                },
            ),
            None => Err(Error::FailedToObtainFileName(to_bytes(path))),
        }
    }

    /// Whether the request has finished or failed.
    pub fn is_over(&self) -> (r: bool)
        ensures
            r == (self.stage == TrashStage::Finished || self.stage == TrashStage::Failed),
    {
        match self.stage {
            TrashStage::Finished | TrashStage::Failed => true,
            _ => false,
        }
    }

    /// Takes the outcome of the last action (anything, at the start) and
    /// gives the next action.
    pub fn step(&mut self, outcome: Outcome) -> (a: TrashAction)
        ensures
            trash_step(*old(self), outcome, *final(self), a),
    {
        let entry = join(self.trash.files.as_slice(), self.name.as_slice());
        match self.stage {
            TrashStage::Start => {
                self.stage = TrashStage::Naming;
                TrashAction::ListNames { dir: to_bytes(self.trash.files.as_slice()) }
            },
            TrashStage::Naming => match outcome {
                Outcome::Names(names) => {
                    self.name = make_unique_file_name(self.file_name.as_slice(), &names);
                    self.stage = TrashStage::WritingInfo;
                    let info = build_info_file(
                        self.path.as_slice(),
                        self.name.as_slice(),
                        &self.trash,
                        self.deletion_date.as_slice(),
                    );
                    TrashAction::WriteInfo { path: info.path, contents: info.contents }
                },
                Outcome::Failed(e) => self.fail(e),
                _ => self.fail(Error::UnexpectedOutcome),
            },
            TrashStage::WritingInfo => match outcome {
                Outcome::Done => {
                    self.stage = TrashStage::Moving;
                    TrashAction::Move { from: to_bytes(self.path.as_slice()), to: entry }
                },
                Outcome::Failed(e) => self.fail(e),
                _ => self.fail(Error::UnexpectedOutcome),
            },
            TrashStage::Moving => match outcome {
                Outcome::Done => {
                    self.stage = TrashStage::Inspecting;
                    TrashAction::Inspect { path: entry }
                },
                Outcome::Failed(e) => self.fail(e),
                _ => self.fail(Error::UnexpectedOutcome),
            },
            TrashStage::Inspecting => match outcome {
                Outcome::Metadata(s) => {
                    if s.is_dir() {
                        self.stage = TrashStage::Sizing;
                        TrashAction::Measure { path: entry }
                    } else {
                        self.stage = TrashStage::Finished;
                        TrashAction::Finish(to_bytes(self.name.as_slice()))
                    }
                },
                Outcome::Failed(e) => self.fail(e),
                _ => self.fail(Error::UnexpectedOutcome),
            },
            TrashStage::Sizing => match outcome {
                Outcome::Entries(entries) => {
                    let blocks = total_block_count(&entries);
                    let mut record = decimal_bytes(blocks as u128);
                    record.push(FIELD_SEPARATOR);
                    extend_bytes(&mut record, self.name.as_slice());
                    record.push(NEWLINE);
                    self.stage = TrashStage::Recording;
                    TrashAction::AppendSize {
                        path: to_bytes(self.trash.directory_sizes.as_slice()),
                        record,
                    }
                },
                Outcome::Failed(e) => self.fail(e),
                _ => self.fail(Error::UnexpectedOutcome),
            },
            TrashStage::Recording => match outcome {
                Outcome::Done => {
                    self.stage = TrashStage::Finished;
                    TrashAction::Finish(to_bytes(self.name.as_slice()))
                },
                Outcome::Failed(e) => self.fail(e),
                _ => self.fail(Error::UnexpectedOutcome),
            },
            TrashStage::Finished | TrashStage::Failed => self.fail(Error::UnexpectedOutcome),
        }
    }

    /// Ends the request with `e`.
    fn fail(&mut self, e: Error) -> (a: TrashAction)
        ensures
            keeps(*old(self), *final(self)),
            fails_with(*old(self), *final(self), a, e),
    {
        self.stage = TrashStage::Failed;
        TrashAction::Abort(e)
    }
}

} // verus!
