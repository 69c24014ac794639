//! A mathematical model of the repository, in which the guarantees of a
//! cycle are stated.
//!
//! The model holds what a cycle reads and changes: the checked-out position,
//! the shadow pointer, the commits with their trees and parents, and the tree
//! that a snapshot of the working directory has. `answers` says what an
//! engine may answer to a request and how the repository then stands. No
//! code relies on it: it is the frame of the proofs. What `guarantees` proves
//! holds of every run of the machine in `cycle` against every engine that
//! answers so, while nothing else changes the repository.

use crate::cycle::{answered_in_turn, consistent, replay, Cycle, Outcome, Request, Response};
use crate::oid::{CommitId, TreeId};
use vstd::prelude::*;

verus! {

/// A commit in the model: its tree and its parents, first parent first.
pub struct CommitNode {
    pub tree: TreeId,
    pub parents: Seq<CommitId>,
}

/// The repository in the model.
pub struct Repo {
    /// The checked-out position; none while the history is unborn.
    pub head: Option<CommitId>,
    /// The shadow pointer's target, if the pointer exists.
    pub shadow: Option<CommitId>,
    /// The commits in the object store.
    pub commits: Map<CommitId, CommitNode>,
    /// The tree that a snapshot of the working directory has; none where
    /// staging it stages nothing, which is where `Watcher::write_out` writes
    /// no tree. The same content has the same tree.
    pub worktree: Option<TreeId>,
}

/// Each commit of `path` but the last has the next one among its parents.
pub open spec fn is_path(commits: Map<CommitId, CommitNode>, path: Seq<CommitId>) -> bool {
    forall|i: int|
        0 <= i < path.len() - 1 ==> commits.contains_key(#[trigger] path[i])
            && commits[path[i]].parents.contains(path[i + 1])
}

/// `to` is `from` or one of its ancestors.
pub open spec fn reaches(commits: Map<CommitId, CommitNode>, from: CommitId, to: CommitId) -> bool {
    exists|path: Seq<CommitId>|
        #![trigger is_path(commits, path)]
        is_path(commits, path) && path.len() > 0 && path[0] == from && path.last() == to
}

/// A checkpoint commit: the given tree on top of one parent.
pub open spec fn checkpoint_node(parent: CommitId, tree: TreeId) -> CommitNode {
    CommitNode { tree, parents: seq![parent] }
}

impl Repo {
    /// The checked-out position and the shadow pointer reference commits
    /// that exist.
    pub open spec fn wf(self) -> bool {
        &&& self.head matches Some(h) ==> self.commits.contains_key(h)
        &&& self.shadow matches Some(s) ==> self.commits.contains_key(s)
    }

    /// The shadow pointer exists and the checked-out position is reachable
    /// from it: nothing is to be repaired.
    pub open spec fn consistent(self) -> bool {
        &&& self.shadow matches Some(s)
        &&& self.head matches Some(h)
        &&& reaches(self.commits, s, h)
    }

    /// The repository as the repair phase leaves it: as it is where the
    /// pointer is consistent, else with the pointer at the checked-out
    /// position.
    pub open spec fn repaired(self) -> Repo {
        if self.consistent() {
            self
        } else {
            Repo { shadow: self.head, ..self }
        }
    }

    /// The shadow pointer is consistent and its commit already has the tree
    /// of the working directory, if that has one: a cycle finds nothing to do.
    pub open spec fn settled(self) -> bool {
        &&& self.consistent()
        &&& self.worktree matches Some(t) ==> self.commits[self.shadow->0].tree == t
    }
}

/// What the engine may answer to `request` in `pre`, and the repository
/// `post` that it leaves.
///
/// A request may fail. Then pointer, position and working directory are as
/// before, and so are the commits, except that a failed checkpoint may leave
/// objects behind. A checkpoint succeeds only on top of the shadow pointer's
/// present target, and its identity is either new or that of the very same
/// commit.
pub open spec fn answers(pre: Repo, request: Request, response: Response, post: Repo) -> bool {
    match response {
        Response::Failure => {
            &&& post.head == pre.head
            &&& post.shadow == pre.shadow
            &&& post.worktree == pre.worktree
            &&& if request is CreateCheckpoint {
                pre.commits.submap_of(post.commits)
            } else {
                post.commits == pre.commits
            }
        },
        _ => match request {
            Request::ReadShadow => post == pre && response == Response::Shadow(pre.shadow),
            Request::CheckAncestry { shadow } => {
                &&& post == pre
                &&& response matches Response::Ancestry { head, merge_base }
                &&& pre.head == Some(head)
                &&& consistent(head, merge_base) <==> reaches(pre.commits, shadow, head)
            },
            Request::ResetShadow => {
                &&& pre.head matches Some(head)
                &&& response == Response::ShadowReset(head)
                &&& post == Repo { shadow: Some(head), ..pre }
            },
            Request::BuildSnapshot => post == pre && response == Response::Snapshot(pre.worktree),
            Request::LoadTree { commit } => {
                &&& post == pre
                &&& pre.commits.contains_key(commit)
                &&& response == Response::Tree(pre.commits[commit].tree)
            },
            Request::CreateCheckpoint { parent, tree } => {
                &&& response matches Response::Checkpoint(commit)
                &&& pre.shadow is None || pre.shadow == Some(parent)
                &&& pre.commits.contains_key(parent)
                &&& !pre.commits.contains_key(commit) || pre.commits[commit] == checkpoint_node(
                    parent,
                    tree,
                )
                &&& post == Repo {
                    shadow: Some(commit),
                    commits: pre.commits.insert(commit, checkpoint_node(parent, tree)),
                    ..pre
                }
            },
        },
    }
}

/// One exchange with the engine: its answer, and the repository after it.
pub struct Step {
    pub response: Response,
    pub after: Repo,
}

/// The answers of the steps, in turn.
pub open spec fn responses(steps: Seq<Step>) -> Seq<Response> {
    Seq::new(steps.len(), |i: int| steps[i].response)
}

/// The state of the machine after the steps.
pub open spec fn run_cycle(cycle: Cycle, steps: Seq<Step>) -> Cycle {
    replay(cycle, responses(steps))
}

/// The repository after the steps.
pub open spec fn run_repo(repo: Repo, steps: Seq<Step>) -> Repo {
    if steps.len() == 0 {
        repo
    } else {
        steps.last().after
    }
}

/// Each step answers the request that is due when it is taken, on the
/// repository that the step before left.
pub open spec fn lawful(cycle: Cycle, repo: Repo, steps: Seq<Step>) -> bool
    decreases steps.len(),
{
    if steps.len() == 0 {
        true
    } else {
        &&& lawful(cycle, repo, steps.drop_last())
        &&& run_cycle(cycle, steps.drop_last()).spec_request() matches Some(request)
        &&& answers(
            run_repo(repo, steps.drop_last()),
            request,
            steps.last().response,
            steps.last().after,
        )
    }
}

/// What holds of machine and repository at every point of a cycle that
/// started in `origin`.
pub open spec fn inv(origin: Repo, cycle: Cycle, repo: Repo) -> bool {
    &&& origin.wf()
    &&& repo.wf()
    &&& repo.head == origin.head
    &&& repo.worktree == origin.worktree
    &&& origin.commits.submap_of(repo.commits)
    &&& origin.settled() ==> repo == origin && !(cycle is Commit) && !(cycle matches Cycle::Idle(
        Outcome::Checkpointed { .. },
    ))
    &&& origin.worktree is None ==> repo.commits == origin.commits
    &&& match cycle {
        Cycle::ResolveShadow => repo == origin,
        Cycle::CheckShadow { shadow } => repo == origin && origin.shadow == Some(shadow),
        Cycle::ResetShadow => repo == origin && !origin.consistent(),
        Cycle::Snapshot { base } => based(origin, repo, base),
        Cycle::Compare { base, candidate } => {
            &&& based(origin, repo, base)
            &&& origin.worktree == Some(candidate)
        },
        Cycle::Commit { base, candidate } => {
            &&& based(origin, repo, base)
            &&& origin.worktree == Some(candidate)
            &&& repo.commits[base].tree != candidate
        },
        Cycle::Idle(Outcome::NothingToTrack { base }) => {
            &&& based(origin, repo, base)
            &&& origin.worktree is None
        },
        Cycle::Idle(Outcome::Unchanged { base }) => {
            &&& based(origin, repo, base)
            &&& origin.worktree == Some(repo.commits[base].tree)
        },
        Cycle::Idle(Outcome::Checkpointed { parent, tree, commit }) => {
            &&& origin.repaired().shadow == Some(parent)
            &&& origin.worktree == Some(tree)
            &&& origin.commits[parent].tree != tree
            &&& repo.shadow == Some(commit)
            &&& repo.commits == origin.commits.insert(commit, checkpoint_node(parent, tree))
            &&& repo.consistent()
        },
        Cycle::Failed(_) => repo.shadow == origin.shadow || repo.shadow == origin.repaired().shadow,
    }
}

/// The repair phase is over: the repository is the repaired one, its shadow
/// pointer is `base`, and the checked-out position is reachable from it.
pub open spec fn based(origin: Repo, repo: Repo, base: CommitId) -> bool {
    &&& repo == origin.repaired()
    &&& repo.shadow == Some(base)
    &&& repo.consistent()
}

/// Every commit reaches itself.
pub proof fn lemma_reaches_self(commits: Map<CommitId, CommitNode>, commit: CommitId)
    ensures
        reaches(commits, commit, commit),
{
    let path = seq![commit];
    assert(is_path(commits, path));
    assert(path[0] == commit && path.last() == commit);
}

/// A checkpoint on top of `parent` reaches what `parent` reaches.
pub proof fn lemma_reaches_through_checkpoint(
    commits: Map<CommitId, CommitNode>,
    commit: CommitId,
    parent: CommitId,
    tree: TreeId,
    to: CommitId,
)
    requires
        reaches(commits, parent, to),
        !commits.contains_key(commit) || commits[commit] == checkpoint_node(parent, tree),
    ensures
        reaches(commits.insert(commit, checkpoint_node(parent, tree)), commit, to),
{
    let path = choose|path: Seq<CommitId>|
        #![trigger is_path(commits, path)]
        is_path(commits, path) && path.len() > 0 && path[0] == parent && path.last() == to;
    let after = commits.insert(commit, checkpoint_node(parent, tree));
    let longer = seq![commit] + path;
    assert forall|i: int| 0 <= i < longer.len() - 1 implies after.contains_key(
        #[trigger] longer[i],
    ) && after[longer[i]].parents.contains(longer[i + 1]) by {
        if i == 0 {
            assert(longer[1] == path[0]);
            assert(checkpoint_node(parent, tree).parents[0] == parent);
        } else {
            assert(longer[i] == path[i - 1]);
            assert(longer[i + 1] == path[i]);
            assert(commits.contains_key(path[i - 1]));
        }
    }
    assert(is_path(after, longer));
    assert(longer[0] == commit && longer.last() == to);
}

/// Every parent of a commit in the store is in the store.
pub open spec fn closed(commits: Map<CommitId, CommitNode>) -> bool {
    forall|commit: CommitId, i: int|
        commits.contains_key(commit) && 0 <= i < commits[commit].parents.len()
            ==> commits.contains_key(#[trigger] commits[commit].parents[i])
}

/// From a commit with one parent, whatever else it reaches it reaches
/// through that parent.
pub proof fn lemma_reaches_through_parent(
    commits: Map<CommitId, CommitNode>,
    commit: CommitId,
    parent: CommitId,
    to: CommitId,
)
    requires
        reaches(commits, commit, to),
        commit != to,
        commits.contains_key(commit) ==> commits[commit].parents == seq![parent],
    ensures
        reaches(commits, parent, to),
{
    let path = choose|path: Seq<CommitId>|
        #![trigger is_path(commits, path)]
        is_path(commits, path) && path.len() > 0 && path[0] == commit && path.last() == to;
    assert(path.len() >= 2);
    assert(commits.contains_key(path[0]) && commits[path[0]].parents.contains(path[1]));
    assert(path[1] == parent);
    let rest = path.drop_first();
    assert forall|i: int| 0 <= i < rest.len() - 1 implies commits.contains_key(
        #[trigger] rest[i],
    ) && commits[rest[i]].parents.contains(rest[i + 1]) by {
        assert(rest[i] == path[i + 1]);
        assert(rest[i + 1] == path[i + 2]);
        assert(commits.contains_key(path[i + 1]));
    }
    assert(is_path(commits, rest));
    assert(rest[0] == parent && rest.last() == to);
}

/// A path that starts in a closed store stays in it when a commit is added
/// that the store did not hold.
proof fn lemma_path_stays_in_store(
    commits: Map<CommitId, CommitNode>,
    added: CommitId,
    node: CommitNode,
    path: Seq<CommitId>,
    i: int,
)
    requires
        closed(commits),
        !commits.contains_key(added),
        is_path(commits.insert(added, node), path),
        path.len() > 0,
        commits.contains_key(path[0]),
        0 <= i < path.len(),
    ensures
        commits.contains_key(path[i]),
    decreases i,
{
    if i > 0 {
        lemma_path_stays_in_store(commits, added, node, path, i - 1);
        let after = commits.insert(added, node);
        let before = path[i - 1];
        assert(after.contains_key(before) && after[before].parents.contains(path[i - 1 + 1]));
        assert(before != added);
        assert(after[before] == commits[before]);
        let j = choose|j: int|
            0 <= j < commits[before].parents.len() && commits[before].parents[j] == path[i];
        assert(commits.contains_key(commits[before].parents[j]));
    }
}

/// A commit that the store did not hold, added to a closed store, makes no
/// commit of the store reach what it did not reach.
pub proof fn lemma_added_commit_joins_nothing(
    commits: Map<CommitId, CommitNode>,
    added: CommitId,
    node: CommitNode,
    from: CommitId,
    to: CommitId,
)
    requires
        closed(commits),
        !commits.contains_key(added),
        commits.contains_key(from),
        reaches(commits.insert(added, node), from, to),
    ensures
        reaches(commits, from, to),
{
    let after = commits.insert(added, node);
    let path = choose|path: Seq<CommitId>|
        #![trigger is_path(after, path)]
        is_path(after, path) && path.len() > 0 && path[0] == from && path.last() == to;
    assert forall|i: int| 0 <= i < path.len() - 1 implies commits.contains_key(
        #[trigger] path[i],
    ) && commits[path[i]].parents.contains(path[i + 1]) by {
        lemma_path_stays_in_store(commits, added, node, path, i);
        assert(after.contains_key(path[i]) && after[path[i]].parents.contains(path[i + 1]));
        assert(path[i] != added);
    }
    assert(is_path(commits, path));
}

/// An answer that is no failure never makes the machine give up.
pub proof fn lemma_answer_keeps_going(cycle: Cycle, repo: Repo, step: Step)
    requires
        !(cycle is Failed),
        !(step.response is Failure),
        cycle.spec_request() matches Some(request) && answers(
            repo,
            request,
            step.response,
            step.after,
        ),
    ensures
        !(cycle.spec_advance(step.response) is Failed),
{
}

/// One lawful step keeps the invariant.
pub proof fn lemma_step(origin: Repo, cycle: Cycle, repo: Repo, step: Step)
    requires
        inv(origin, cycle, repo),
        cycle.spec_request() matches Some(request) && answers(
            repo,
            request,
            step.response,
            step.after,
        ),
    ensures
        inv(origin, cycle.spec_advance(step.response), step.after),
{
    let next = cycle.spec_advance(step.response);
    let post = step.after;
    match step.response {
        Response::Failure => {
            assert(next is Failed);
            if origin.settled() {
                assert(post.commits == repo.commits);
                assert(post == repo);
            }
        },
        _ => {
            match cycle {
                Cycle::ResolveShadow => {
                    if origin.shadow is None {
                        assert(!origin.consistent());
                    }
                },
                Cycle::CheckShadow { shadow } => {},
                Cycle::ResetShadow => {
                    let head = repo.head->0;
                    lemma_reaches_self(post.commits, head);
                    assert(post == origin.repaired());
                },
                Cycle::Snapshot { base } => {},
                Cycle::Compare { base, candidate } => {},
                Cycle::Commit { base, candidate } => {
                    let commit = step.response->Checkpoint_0;
                    let head = repo.head->0;
                    lemma_reaches_through_checkpoint(repo.commits, commit, base, candidate, head);
                    assert(repo.commits == origin.commits);
                    assert(origin.commits.submap_of(post.commits)) by {
                        assert forall|k: CommitId| #[trigger]
                            origin.commits.dom().contains(k) implies post.commits.dom().contains(k)
                            && origin.commits[k] == post.commits[k] by {}
                    }
                },
                Cycle::Idle(_) => {},
                Cycle::Failed(_) => {},
            }
        },
    }
}

/// The machine after the steps is the machine before the last step, moved on
/// by that step's answer.
pub proof fn lemma_run_cycle_last(cycle: Cycle, steps: Seq<Step>)
    requires
        steps.len() > 0,
    ensures
        run_cycle(cycle, steps) == run_cycle(cycle, steps.drop_last()).spec_advance(
            steps.last().response,
        ),
{
    assert(responses(steps).drop_last() =~= responses(steps.drop_last()));
}

/// Lawful steps keep the invariant.
pub proof fn lemma_run(origin: Repo, cycle: Cycle, repo: Repo, steps: Seq<Step>)
    requires
        inv(origin, cycle, repo),
        lawful(cycle, repo, steps),
    ensures
        inv(origin, run_cycle(cycle, steps), run_repo(repo, steps)),
    decreases steps.len(),
{
    if steps.len() > 0 {
        let before = steps.drop_last();
        lemma_run(origin, cycle, repo, before);
        lemma_run_cycle_last(cycle, steps);
        lemma_step(origin, run_cycle(cycle, before), run_repo(repo, before), steps.last());
    }
}

/// What the engine of the model answers is an answer to the request that was
/// due, each time: the runs of the model are among those that a driver of
/// the machine can see.
pub proof fn lemma_lawful_is_answered_in_turn(repo: Repo, steps: Seq<Step>)
    requires
        lawful(Cycle::ResolveShadow, repo, steps),
    ensures
        answered_in_turn(responses(steps)),
    decreases steps.len(),
{
    if steps.len() > 0 {
        lemma_lawful_is_answered_in_turn(repo, steps.drop_last());
        assert(responses(steps).drop_last() =~= responses(steps.drop_last()));
    }
}

/// A cycle starts in a state of which the invariant holds.
pub proof fn lemma_start(origin: Repo)
    requires
        origin.wf(),
    ensures
        inv(origin, Cycle::ResolveShadow, origin),
{
}

} // verus!
