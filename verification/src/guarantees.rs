//! What every cycle guarantees, proved of the machine in `cycle` against the
//! repository of `model`.

use crate::cycle::{Cycle, Outcome};
use crate::model::{
    checkpoint_node, closed, inv, is_path, lawful, lemma_added_commit_joins_nothing,
    lemma_answer_keeps_going, lemma_reaches_through_parent, lemma_run, lemma_run_cycle_last,
    lemma_start, reaches, run_cycle, run_repo, Repo, Step,
};
use vstd::prelude::*;

verus! {

/// Cycle after cycle, each from the start and on the repository that the one
/// before left.
pub open spec fn lawful_cycles(repo: Repo, cycles: Seq<Seq<Step>>) -> bool
    decreases cycles.len(),
{
    if cycles.len() == 0 {
        true
    } else {
        &&& lawful(Cycle::ResolveShadow, repo, cycles[0])
        &&& lawful_cycles(run_repo(repo, cycles[0]), cycles.drop_first())
    }
}

/// The repository after the cycles.
pub open spec fn run_cycles(repo: Repo, cycles: Seq<Seq<Step>>) -> Repo
    decreases cycles.len(),
{
    if cycles.len() == 0 {
        repo
    } else {
        run_cycles(run_repo(repo, cycles[0]), cycles.drop_first())
    }
}

/// The shadow pointer never references a commit that does not exist: at every
/// point of a cycle, also after a failure, pointer and checked-out position
/// reference commits in the store.
pub proof fn shadow_stays_durable(origin: Repo, steps: Seq<Step>)
    requires
        origin.wf(),
        lawful(Cycle::ResolveShadow, origin, steps),
    ensures
        run_repo(origin, steps).wf(),
{
    lemma_start(origin);
    lemma_run(origin, Cycle::ResolveShadow, origin, steps);
}

/// A cycle that runs to its end leaves the shadow pointer consistent, on a
/// commit that has the tree of the working directory.
pub proof fn finished_cycle_settles(origin: Repo, steps: Seq<Step>)
    requires
        origin.wf(),
        lawful(Cycle::ResolveShadow, origin, steps),
        run_cycle(Cycle::ResolveShadow, steps) is Idle,
    ensures
        run_repo(origin, steps).wf(),
        run_repo(origin, steps).settled(),
{
    lemma_start(origin);
    lemma_run(origin, Cycle::ResolveShadow, origin, steps);
}

/// Where the shadow pointer is consistent and its commit has the tree of the
/// working directory, a cycle changes nothing and records no checkpoint,
/// wherever it ends.
pub proof fn settled_cycle_records_nothing(origin: Repo, steps: Seq<Step>)
    requires
        origin.wf(),
        origin.settled(),
        lawful(Cycle::ResolveShadow, origin, steps),
    ensures
        run_repo(origin, steps) == origin,
        !(run_cycle(Cycle::ResolveShadow, steps) matches Cycle::Idle(
            Outcome::Checkpointed { .. },
        )),
{
    lemma_start(origin);
    lemma_run(origin, Cycle::ResolveShadow, origin, steps);
}

/// Running a cycle a second time, with nothing changed in between, records no
/// second checkpoint: the repository stays as the first cycle left it.
pub proof fn cycle_is_idempotent(origin: Repo, first: Seq<Step>, second: Seq<Step>)
    requires
        origin.wf(),
        lawful(Cycle::ResolveShadow, origin, first),
        run_cycle(Cycle::ResolveShadow, first) is Idle,
        lawful(Cycle::ResolveShadow, run_repo(origin, first), second),
    ensures
        run_repo(run_repo(origin, first), second) == run_repo(origin, first),
        !(run_cycle(Cycle::ResolveShadow, second) matches Cycle::Idle(
            Outcome::Checkpointed { .. },
        )),
{
    finished_cycle_settles(origin, first);
    settled_cycle_records_nothing(run_repo(origin, first), second);
}

/// After one finished cycle, any number of further cycles on an unchanged
/// working directory and checked-out position leave the repository as it is.
pub proof fn settled_repository_stays(origin: Repo, cycles: Seq<Seq<Step>>)
    requires
        origin.wf(),
        origin.settled(),
        lawful_cycles(origin, cycles),
    ensures
        run_cycles(origin, cycles) == origin,
    decreases cycles.len(),
{
    if cycles.len() > 0 {
        settled_cycle_records_nothing(origin, cycles[0]);
        settled_repository_stays(origin, cycles.drop_first());
    }
}

/// Two cycles whose snapshots are the same tree do not record two
/// checkpoints: where the second cycle starts from what the first left, with
/// a working directory that snapshots to the same tree again, it records none
/// and the commits stay as they are.
pub proof fn same_tree_records_once(
    origin: Repo,
    first: Seq<Step>,
    later: Repo,
    second: Seq<Step>,
)
    requires
        origin.wf(),
        lawful(Cycle::ResolveShadow, origin, first),
        run_cycle(Cycle::ResolveShadow, first) is Idle,
        later.worktree == origin.worktree,
        later == (Repo { worktree: later.worktree, ..run_repo(origin, first) }),
        lawful(Cycle::ResolveShadow, later, second),
    ensures
        !(run_cycle(Cycle::ResolveShadow, second) matches Cycle::Idle(
            Outcome::Checkpointed { .. },
        )),
        run_repo(later, second).commits == run_repo(origin, first).commits,
        run_repo(later, second).shadow == run_repo(origin, first).shadow,
{
    lemma_start(origin);
    lemma_run(origin, Cycle::ResolveShadow, origin, first);
    finished_cycle_settles(origin, first);
    assert(later == run_repo(origin, first));
    settled_cycle_records_nothing(later, second);
}

/// Where the shadow pointer is absent or stale, it is repointed at exactly
/// the checked-out position before a snapshot is compared: once the cycle is
/// past its repair phase, the commit that the snapshot is held against is the
/// checked-out position, and until a checkpoint is recorded the pointer
/// references it.
pub proof fn stale_pointer_is_repaired_first(origin: Repo, steps: Seq<Step>)
    requires
        origin.wf(),
        !origin.consistent(),
        lawful(Cycle::ResolveShadow, origin, steps),
    ensures
        run_cycle(Cycle::ResolveShadow, steps).spec_base() matches Some(base) ==> {
            &&& origin.head == Some(base)
            &&& !(run_cycle(Cycle::ResolveShadow, steps) matches Cycle::Idle(
                Outcome::Checkpointed { .. },
            )) ==> run_repo(origin, steps).shadow == Some(base)
        },
{
    lemma_start(origin);
    lemma_run(origin, Cycle::ResolveShadow, origin, steps);
}

/// A checkpoint has exactly one parent, the commit that the shadow pointer
/// referenced when the cycle started, and the tree of the snapshot; the
/// pointer advances to it.
pub proof fn checkpoint_extends_shadow(origin: Repo, steps: Seq<Step>)
    requires
        origin.wf(),
        origin.consistent(),
        lawful(Cycle::ResolveShadow, origin, steps),
    ensures
        run_cycle(Cycle::ResolveShadow, steps) matches Cycle::Idle(
            Outcome::Checkpointed { parent, tree, commit },
        ) ==> {
            &&& origin.shadow == Some(parent)
            &&& origin.worktree == Some(tree)
            &&& run_repo(origin, steps).shadow == Some(commit)
            &&& run_repo(origin, steps).commits[commit] == checkpoint_node(parent, tree)
        },
{
    lemma_start(origin);
    lemma_run(origin, Cycle::ResolveShadow, origin, steps);
}

/// At a reset boundary, where the shadow pointer was absent or stale when the
/// cycle started, the one parent of a checkpoint is the checked-out position.
pub proof fn checkpoint_after_reset_extends_head(origin: Repo, steps: Seq<Step>)
    requires
        origin.wf(),
        !origin.consistent(),
        lawful(Cycle::ResolveShadow, origin, steps),
    ensures
        run_cycle(Cycle::ResolveShadow, steps) matches Cycle::Idle(
            Outcome::Checkpointed { parent, tree, commit },
        ) ==> {
            &&& origin.head == Some(parent)
            &&& origin.worktree == Some(tree)
            &&& run_repo(origin, steps).shadow == Some(commit)
            &&& run_repo(origin, steps).commits[commit] == checkpoint_node(parent, tree)
        },
{
    lemma_start(origin);
    lemma_run(origin, Cycle::ResolveShadow, origin, steps);
}

/// A checkpoint is recorded exactly when the snapshot differs from the tree
/// of the commit that the repaired shadow pointer references: a cycle that
/// runs to its end reports what the trees call for.
pub proof fn checkpoint_iff_tree_differs(origin: Repo, steps: Seq<Step>)
    requires
        origin.wf(),
        lawful(Cycle::ResolveShadow, origin, steps),
        run_cycle(Cycle::ResolveShadow, steps) is Idle,
    ensures
        origin.repaired().shadow is Some,
        (run_cycle(Cycle::ResolveShadow, steps) matches Cycle::Idle(
            Outcome::Checkpointed { .. },
        )) <==> (origin.worktree is Some && origin.commits[origin.repaired().shadow->0].tree
            != origin.worktree->0),
{
    lemma_start(origin);
    lemma_run(origin, Cycle::ResolveShadow, origin, steps);
}

/// While the working directory holds nothing trackable, no commit is ever
/// created, over any number of cycles.
pub proof fn empty_directory_records_nothing(origin: Repo, cycles: Seq<Seq<Step>>)
    requires
        origin.wf(),
        origin.worktree is None,
        lawful_cycles(origin, cycles),
    ensures
        run_cycles(origin, cycles).commits == origin.commits,
    decreases cycles.len(),
{
    if cycles.len() > 0 {
        lemma_start(origin);
        lemma_run(origin, Cycle::ResolveShadow, origin, cycles[0]);
        empty_directory_records_nothing(run_repo(origin, cycles[0]), cycles.drop_first());
    }
}

/// No answer of the steps is a failure.
pub open spec fn unfailing(steps: Seq<Step>) -> bool {
    forall|i: int| 0 <= i < steps.len() ==> !((#[trigger] steps[i]).response is Failure)
}

/// Where the engine fails on no request, the cycle is not given up: once it
/// is over, it has an outcome.
pub proof fn unfailing_engine_ends_well(origin: Repo, steps: Seq<Step>)
    requires
        lawful(Cycle::ResolveShadow, origin, steps),
        unfailing(steps),
    ensures
        !(run_cycle(Cycle::ResolveShadow, steps) is Failed),
    decreases steps.len(),
{
    if steps.len() > 0 {
        let before = steps.drop_last();
        assert(unfailing(before)) by {
            assert forall|i: int| 0 <= i < before.len() implies !((#[trigger] before[i]).response
                is Failure) by {
                assert(before[i] == steps[i]);
            }
        }
        unfailing_engine_ends_well(origin, before);
        lemma_run_cycle_last(Cycle::ResolveShadow, steps);
        assert(!(steps[steps.len() - 1].response is Failure));
        lemma_answer_keeps_going(
            run_cycle(Cycle::ResolveShadow, before),
            run_repo(origin, before),
            steps.last(),
        );
    }
}

/// How a cycle that runs to its end leaves the repository. Without a
/// checkpoint it is the repository it started on, repaired: the pointer at
/// its old target where that was consistent, else at the checked-out
/// position, and the commits as they were. With a checkpoint, that one
/// commit is added on top of the repaired pointer's target, with the
/// snapshot as its tree, and the pointer references it.
pub proof fn finished_cycle_leaves(origin: Repo, steps: Seq<Step>)
    requires
        origin.wf(),
        lawful(Cycle::ResolveShadow, origin, steps),
        run_cycle(Cycle::ResolveShadow, steps) is Idle,
    ensures
        match run_cycle(Cycle::ResolveShadow, steps) {
            Cycle::Idle(Outcome::NothingToTrack { base }) => {
                &&& origin.worktree is None
                &&& origin.repaired().shadow == Some(base)
                &&& run_repo(origin, steps) == origin.repaired()
            },
            Cycle::Idle(Outcome::Unchanged { base }) => {
                &&& origin.worktree == Some(origin.commits[base].tree)
                &&& origin.repaired().shadow == Some(base)
                &&& run_repo(origin, steps) == origin.repaired()
            },
            Cycle::Idle(Outcome::Checkpointed { parent, tree, commit }) => {
                &&& origin.worktree == Some(tree)
                &&& origin.commits[parent].tree != tree
                &&& origin.repaired().shadow == Some(parent)
                &&& run_repo(origin, steps) == (Repo {
                    shadow: Some(commit),
                    commits: origin.commits.insert(commit, checkpoint_node(parent, tree)),
                    ..origin
                })
            },
            _ => true,
        },
{
    lemma_start(origin);
    lemma_run(origin, Cycle::ResolveShadow, origin, steps);
}

/// A reset abandons the old checkpoints and does not merge them. Where the
/// pointer was stale and its old target is no ancestor of the checked-out
/// position either, a cycle that runs to its end leaves the pointer on a
/// commit that reaches the checked-out position and does not reach the old
/// target; the old target stays in the store.
pub proof fn abandoned_lineage_is_unreachable(origin: Repo, steps: Seq<Step>)
    requires
        origin.wf(),
        closed(origin.commits),
        origin.shadow is Some,
        origin.head is Some,
        !reaches(origin.commits, origin.shadow->0, origin.head->0),
        !reaches(origin.commits, origin.head->0, origin.shadow->0),
        lawful(Cycle::ResolveShadow, origin, steps),
        run_cycle(Cycle::ResolveShadow, steps) is Idle,
    ensures
        run_repo(origin, steps).shadow is Some,
        run_repo(origin, steps).commits.contains_key(origin.shadow->0),
        reaches(run_repo(origin, steps).commits, run_repo(origin, steps).shadow->0, origin.head->0),
        !reaches(
            run_repo(origin, steps).commits,
            run_repo(origin, steps).shadow->0,
            origin.shadow->0,
        ),
{
    lemma_start(origin);
    lemma_run(origin, Cycle::ResolveShadow, origin, steps);
    finished_cycle_leaves(origin, steps);
    let old_target = origin.shadow->0;
    let head = origin.head->0;
    let after = run_repo(origin, steps);
    match run_cycle(Cycle::ResolveShadow, steps) {
        Cycle::Idle(Outcome::Checkpointed { parent, tree, commit }) => {
            let node = checkpoint_node(parent, tree);
            assert(parent == head);
            if reaches(after.commits, commit, old_target) {
                if origin.commits.contains_key(commit) {
                    assert(origin.commits[commit] == node);
                    assert(after.commits =~= origin.commits);
                    if commit == old_target {
                        let path = seq![commit, head];
                        assert(is_path(origin.commits, path));
                        assert(path[0] == old_target && path.last() == head);
                        assert(reaches(origin.commits, old_target, head));
                    } else {
                        lemma_reaches_through_parent(origin.commits, commit, head, old_target);
                    }
                } else {
                    lemma_reaches_through_parent(after.commits, commit, head, old_target);
                    lemma_added_commit_joins_nothing(
                        origin.commits,
                        commit,
                        node,
                        head,
                        old_target,
                    );
                }
                assert(false);
            }
        },
        _ => {},
    }
}

} // verus!
