//! One reconciliation cycle as a state machine.
//!
//! A cycle asks the version-control engine for one thing at a time. Each
//! state names the request that is due; the answer decides the next state.
//! The machine itself touches nothing: whoever drives it performs the
//! requests and hands the answers back.

use crate::error::EngineError;
use crate::oid::{CommitId, TreeId};
use vstd::prelude::*;

verus! {

/// What a finished cycle did.
#[derive(Clone, Copy, Debug, PartialEq, Eq, Structural)]
pub enum Outcome {
    /// The working directory holds nothing trackable: no commit was attempted.
    NothingToTrack { base: CommitId },
    /// The snapshot is the tree that the shadow pointer's commit already has.
    Unchanged { base: CommitId },
    /// A checkpoint was recorded on top of `parent`, and the shadow pointer
    /// advanced to it.
    Checkpointed { parent: CommitId, tree: TreeId, commit: CommitId },
}

/// The five phases of a cycle.
#[derive(Clone, Copy, Debug, PartialEq, Eq, Structural)]
pub enum Phase {
    ResolveShadow,
    RepairIfStale,
    Snapshot,
    CompareAndCommit,
    Idle,
}

/// Where a cycle stands.
#[derive(Clone, Copy, Debug, PartialEq, Eq, Structural)]
pub enum Cycle {
    /// The shadow pointer is to be read.
    ResolveShadow,
    /// The shadow pointer exists; whether the checked-out position is still
    /// reachable from it is to be found out.
    CheckShadow { shadow: CommitId },
    /// The shadow pointer is absent or stale: it is to be repointed at the
    /// checked-out position.
    ResetShadow,
    /// The shadow pointer is `base` and consistent; the working directory is
    /// to be snapshotted.
    Snapshot { base: CommitId },
    /// The tree of `base` is to be loaded and held against `candidate`.
    Compare { base: CommitId, candidate: TreeId },
    /// `candidate` differs from the tree of `base`: a checkpoint is to be
    /// created.
    Commit { base: CommitId, candidate: TreeId },
    /// The cycle is over.
    Idle(Outcome),
    /// The cycle was given up.
    Failed(EngineError),
}

/// What the engine is asked to do.
#[derive(Clone, Copy, Debug, PartialEq, Eq, Structural)]
pub enum Request {
    /// Read the shadow pointer.
    ReadShadow,
    /// Resolve the checked-out position and its common ancestor with `shadow`.
    CheckAncestry { shadow: CommitId },
    /// Repoint the shadow pointer, creating it if absent, at the checked-out
    /// position.
    ResetShadow,
    /// Stage the working directory afresh and write it out as a tree.
    BuildSnapshot,
    /// Look up the tree of a commit.
    LoadTree { commit: CommitId },
    /// Create a commit with one parent and advance the shadow pointer to it.
    CreateCheckpoint { parent: CommitId, tree: TreeId },
}

/// What the engine answered.
#[derive(Clone, Copy, Debug, PartialEq, Eq, Structural)]
pub enum Response {
    /// The shadow pointer's target, if the pointer exists.
    Shadow(Option<CommitId>),
    /// The checked-out position, and its common ancestor with the shadow
    /// commit if they have one.
    Ancestry { head: CommitId, merge_base: Option<CommitId> },
    /// The shadow pointer now references this commit.
    ShadowReset(CommitId),
    /// The tree of the working directory, if anything is trackable.
    Snapshot(Option<TreeId>),
    /// The tree of the commit asked for.
    Tree(TreeId),
    /// The new checkpoint commit.
    Checkpoint(CommitId),
    /// The request could not be carried out.
    Failure,
}

/// The checked-out position is reachable from the shadow history exactly when
/// it is its own common ancestor with the shadow commit.
pub open spec fn consistent(head: CommitId, merge_base: Option<CommitId>) -> bool {
    merge_base == Some(head)
}

/// A checkpoint is due exactly when the snapshot differs from the tree that
/// the shadow pointer's commit has.
pub open spec fn checkpoint_due(candidate: TreeId, current: TreeId) -> bool {
    candidate != current
}

impl Cycle {
    /// The request that is due; none once the cycle is over.
    pub open spec fn spec_request(self) -> Option<Request> {
        match self {
            Cycle::ResolveShadow => Some(Request::ReadShadow),
            Cycle::CheckShadow { shadow } => Some(Request::CheckAncestry { shadow }),
            Cycle::ResetShadow => Some(Request::ResetShadow),
            Cycle::Snapshot { base } => Some(Request::BuildSnapshot),
            Cycle::Compare { base, candidate } => Some(Request::LoadTree { commit: base }),
            Cycle::Commit { base, candidate } => Some(
                Request::CreateCheckpoint { parent: base, tree: candidate },
            ),
            Cycle::Idle(_) => None,
            Cycle::Failed(_) => None,
        }
    }

    /// The kind of failure when the request of this state cannot be carried
    /// out: resolving is one kind, the object store the other.
    pub open spec fn spec_failure(self) -> EngineError {
        match self {
            Cycle::ResolveShadow => EngineError::RefResolutionFailure,
            Cycle::CheckShadow { shadow } => EngineError::RefResolutionFailure,
            Cycle::ResetShadow => EngineError::RefResolutionFailure,
            _ => EngineError::ObjectStoreFailure,
        }
    }

    /// The state after an answer. An answer that is none to the request due
    /// counts as that request failing; a finished cycle stays as it is.
    pub open spec fn spec_advance(self, response: Response) -> Cycle {
        match (self, response) {
            (Cycle::Idle(_), _) => self,
            (Cycle::Failed(_), _) => self,
            (Cycle::ResolveShadow, Response::Shadow(Some(shadow))) => Cycle::CheckShadow { shadow },
            (Cycle::ResolveShadow, Response::Shadow(None)) => Cycle::ResetShadow,
            (Cycle::CheckShadow { shadow }, Response::Ancestry { head, merge_base }) => {
                if consistent(head, merge_base) {
                    Cycle::Snapshot { base: shadow }
                } else {
                    Cycle::ResetShadow
                }
            },
            (Cycle::ResetShadow, Response::ShadowReset(head)) => Cycle::Snapshot { base: head },
            (Cycle::Snapshot { base }, Response::Snapshot(Some(candidate))) => Cycle::Compare {
                base,
                candidate,
            },
            (Cycle::Snapshot { base }, Response::Snapshot(None)) => Cycle::Idle(
                Outcome::NothingToTrack { base },
            ),
            (Cycle::Compare { base, candidate }, Response::Tree(current)) => {
                if checkpoint_due(candidate, current) {
                    Cycle::Commit { base, candidate }
                } else {
                    Cycle::Idle(Outcome::Unchanged { base })
                }
            },
            (Cycle::Commit { base, candidate }, Response::Checkpoint(commit)) => Cycle::Idle(
                Outcome::Checkpointed { parent: base, tree: candidate, commit },
            ),
            _ => Cycle::Failed(self.spec_failure()),
        }
    }

    /// Whether the cycle is over, one way or the other.
    pub open spec fn spec_finished(self) -> bool {
        self is Idle || self is Failed
    }

    /// The phase that this state belongs to.
    pub open spec fn spec_phase(self) -> Phase {
        match self {
            Cycle::ResolveShadow => Phase::ResolveShadow,
            Cycle::CheckShadow { shadow } => Phase::RepairIfStale,
            Cycle::ResetShadow => Phase::RepairIfStale,
            Cycle::Snapshot { base } => Phase::Snapshot,
            Cycle::Compare { base, candidate } => Phase::CompareAndCommit,
            Cycle::Commit { base, candidate } => Phase::CompareAndCommit,
            Cycle::Idle(_) => Phase::Idle,
            Cycle::Failed(_) => Phase::Idle,
        }
    }

    /// The commit that the snapshot is held against: the shadow pointer's
    /// target once the repair phase is over. None before that, and after a
    /// failure.
    pub open spec fn spec_base(self) -> Option<CommitId> {
        match self {
            Cycle::Snapshot { base } => Some(base),
            Cycle::Compare { base, candidate } => Some(base),
            Cycle::Commit { base, candidate } => Some(base),
            Cycle::Idle(Outcome::NothingToTrack { base }) => Some(base),
            Cycle::Idle(Outcome::Unchanged { base }) => Some(base),
            Cycle::Idle(Outcome::Checkpointed { parent, tree, commit }) => Some(parent),
            _ => None,
        }
    }

    /// How many requests a cycle in this state can still make at most.
    pub open spec fn spec_rank(self) -> nat {
        match self {
            Cycle::ResolveShadow => 6,
            Cycle::CheckShadow { shadow } => 5,
            Cycle::ResetShadow => 4,
            Cycle::Snapshot { base } => 3,
            Cycle::Compare { base, candidate } => 2,
            Cycle::Commit { base, candidate } => 1,
            Cycle::Idle(_) => 0,
            Cycle::Failed(_) => 0,
        }
    }

    /// What the cycle came to, once it is over.
    pub open spec fn spec_result(self) -> Option<Result<Outcome, EngineError>> {
        match self {
            Cycle::Idle(outcome) => Some(Ok(outcome)),
            Cycle::Failed(kind) => Some(Err(kind)),
            _ => None,
        }
    }

    /// A cycle at its start.
    pub fn start() -> (cycle: Cycle)
        ensures
            cycle == Cycle::ResolveShadow,
    {
        Cycle::ResolveShadow
    }

    /// The request that is due; none once the cycle is over.
    pub fn request(&self) -> (request: Option<Request>)
        ensures
            request == self.spec_request(),
            request is None <==> self.spec_finished(),
    {
        match *self {
            Cycle::ResolveShadow => Some(Request::ReadShadow),
            Cycle::CheckShadow { shadow } => Some(Request::CheckAncestry { shadow }),
            Cycle::ResetShadow => Some(Request::ResetShadow),
            Cycle::Snapshot { base: _ } => Some(Request::BuildSnapshot),
            Cycle::Compare { base, candidate: _ } => Some(Request::LoadTree { commit: base }),
            Cycle::Commit { base, candidate } => Some(
                Request::CreateCheckpoint { parent: base, tree: candidate },
            ),
            Cycle::Idle(_) => None,
            Cycle::Failed(_) => None,
        }
    }

    /// The kind of failure when the request of this state cannot be carried out.
    pub fn failure(&self) -> (kind: EngineError)
        ensures
            kind == self.spec_failure(),
    {
        match *self {
            Cycle::ResolveShadow => EngineError::RefResolutionFailure,
            Cycle::CheckShadow { shadow: _ } => EngineError::RefResolutionFailure,
            Cycle::ResetShadow => EngineError::RefResolutionFailure,
            _ => EngineError::ObjectStoreFailure,
        }
    }

    /// Takes the engine's answer and moves on.
    pub fn advance(self, response: Response) -> (next: Cycle)
        ensures
            next == self.spec_advance(response),
            !self.spec_finished() ==> next.spec_rank() < self.spec_rank(),
    {
        match self {
            Cycle::Idle(_) => self,
            Cycle::Failed(_) => self,
            Cycle::ResolveShadow => match response {
                Response::Shadow(Some(shadow)) => Cycle::CheckShadow { shadow },
                Response::Shadow(None) => Cycle::ResetShadow,
                _ => Cycle::Failed(EngineError::RefResolutionFailure),
            },
            Cycle::CheckShadow { shadow } => match response {
                Response::Ancestry { head, merge_base } => {
                    if is_consistent(head, merge_base) {
                        Cycle::Snapshot { base: shadow }
                    } else {
                        Cycle::ResetShadow
                    }
                },
                _ => Cycle::Failed(EngineError::RefResolutionFailure),
            },
            Cycle::ResetShadow => match response {
                Response::ShadowReset(head) => Cycle::Snapshot { base: head },
                _ => Cycle::Failed(EngineError::RefResolutionFailure),
            },
            Cycle::Snapshot { base } => match response {
                Response::Snapshot(Some(candidate)) => Cycle::Compare { base, candidate },
                Response::Snapshot(None) => Cycle::Idle(Outcome::NothingToTrack { base }),
                _ => Cycle::Failed(EngineError::ObjectStoreFailure),
            },
            Cycle::Compare { base, candidate } => match response {
                Response::Tree(current) => {
                    if is_checkpoint_due(candidate, current) {
                        Cycle::Commit { base, candidate }
                    } else {
                        Cycle::Idle(Outcome::Unchanged { base })
                    }
                },
                _ => Cycle::Failed(EngineError::ObjectStoreFailure),
            },
            Cycle::Commit { base, candidate } => match response {
                Response::Checkpoint(commit) => Cycle::Idle(
                    Outcome::Checkpointed { parent: base, tree: candidate, commit },
                ),
                _ => Cycle::Failed(EngineError::ObjectStoreFailure),
            },
        }
    }

    /// Whether the cycle is over, one way or the other.
    pub fn is_finished(&self) -> (done: bool)
        ensures
            done == self.spec_finished(),
    {
        match *self {
            Cycle::Idle(_) => true,
            Cycle::Failed(_) => true,
            _ => false,
        }
    }

    /// The phase that this state belongs to.
    pub fn phase(&self) -> (phase: Phase)
        ensures
            phase == self.spec_phase(),
    {
        match *self {
            Cycle::ResolveShadow => Phase::ResolveShadow,
            Cycle::CheckShadow { shadow: _ } => Phase::RepairIfStale,
            Cycle::ResetShadow => Phase::RepairIfStale,
            Cycle::Snapshot { base: _ } => Phase::Snapshot,
            Cycle::Compare { base: _, candidate: _ } => Phase::CompareAndCommit,
            Cycle::Commit { base: _, candidate: _ } => Phase::CompareAndCommit,
            Cycle::Idle(_) => Phase::Idle,
            Cycle::Failed(_) => Phase::Idle,
        }
    }

    /// The commit that the snapshot is held against, once the repair phase
    /// is over.
    pub fn base(&self) -> (base: Option<CommitId>)
        ensures
            base == self.spec_base(),
    {
        match *self {
            Cycle::Snapshot { base } => Some(base),
            Cycle::Compare { base, candidate: _ } => Some(base),
            Cycle::Commit { base, candidate: _ } => Some(base),
            Cycle::Idle(Outcome::NothingToTrack { base }) => Some(base),
            Cycle::Idle(Outcome::Unchanged { base }) => Some(base),
            Cycle::Idle(Outcome::Checkpointed { parent, tree: _, commit: _ }) => Some(parent),
            _ => None,
        }
    }

    /// What the cycle came to: its outcome, or the failure that ended it.
    /// None while the cycle is still under way.
    pub fn result(&self) -> (result: Option<Result<Outcome, EngineError>>)
        ensures
            result == self.spec_result(),
            result is Some <==> self.spec_finished(),
    {
        match *self {
            Cycle::Idle(outcome) => Some(Ok(outcome)),
            Cycle::Failed(kind) => Some(Err(kind)),
            _ => None,
        }
    }
}

impl Request {
    /// Whether `response` is an answer to this request: the answer of its
    /// kind, or a failure.
    pub open spec fn admits(self, response: Response) -> bool {
        response is Failure || match self {
            Request::ReadShadow => response is Shadow,
            Request::CheckAncestry { shadow } => response is Ancestry,
            Request::ResetShadow => response is ShadowReset,
            Request::BuildSnapshot => response is Snapshot,
            Request::LoadTree { commit } => response is Tree,
            Request::CreateCheckpoint { parent, tree } => response is Checkpoint,
        }
    }
}

/// The state that a cycle reaches from `cycle` on the given answers, taken
/// in turn.
pub open spec fn replay(cycle: Cycle, responses: Seq<Response>) -> Cycle
    decreases responses.len(),
{
    if responses.len() == 0 {
        cycle
    } else {
        replay(cycle, responses.drop_last()).spec_advance(responses.last())
    }
}

/// Each answer is an answer to the request that was due when it came.
pub open spec fn answered_in_turn(responses: Seq<Response>) -> bool
    decreases responses.len(),
{
    if responses.len() == 0 {
        true
    } else {
        &&& answered_in_turn(responses.drop_last())
        &&& replay(Cycle::ResolveShadow, responses.drop_last()).spec_request() matches Some(request)
        &&& request.admits(responses.last())
    }
}

/// A cycle is over after six requests at most: every answer brings the
/// machine closer to its end.
pub proof fn cycle_ends_within_six_requests(responses: Seq<Response>)
    requires
        answered_in_turn(responses),
    ensures
        responses.len() + replay(Cycle::ResolveShadow, responses).spec_rank() <= 6,
    decreases responses.len(),
{
    if responses.len() > 0 {
        cycle_ends_within_six_requests(responses.drop_last());
    }
}

/// Whether the checked-out position is its own common ancestor with the
/// shadow commit.
pub fn is_consistent(head: CommitId, merge_base: Option<CommitId>) -> (ok: bool)
    ensures
        ok == consistent(head, merge_base),
{
    match merge_base {
        Some(base) => base == head,
        None => false,
    }
}

/// Whether a snapshot calls for a new checkpoint.
pub fn is_checkpoint_due(candidate: TreeId, current: TreeId) -> (due: bool)
    ensures
        due == checkpoint_due(candidate, current),
{
    candidate != current
}

} // verus!
