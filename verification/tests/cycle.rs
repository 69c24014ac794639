use eis::cycle::{is_checkpoint_due, is_consistent, Cycle, Outcome, Phase, Request, Response};
use eis::error::EngineError;
use eis::oid::{CommitId, ObjectId, TreeId};

fn commit(n: u32) -> CommitId {
    CommitId(ObjectId { w0: n, w1: 0, w2: 0, w3: 0, w4: 1 })
}

fn tree(n: u32) -> TreeId {
    TreeId(ObjectId { w0: n, w1: 0, w2: 0, w3: 0, w4: 2 })
}

#[test]
fn a_cycle_starts_by_resolving_the_shadow_pointer() {
    let cycle = Cycle::start();
    assert_eq!(cycle, Cycle::ResolveShadow);
    assert_eq!(cycle.request(), Some(Request::ReadShadow));
    assert_eq!(cycle.phase(), Phase::ResolveShadow);
    assert!(!cycle.is_finished());
    assert_eq!(cycle.result(), None);
    assert_eq!(cycle.base(), None);
}

#[test]
fn absent_pointer_is_created_at_the_checked_out_position() {
    let c0 = commit(10);
    let t1 = tree(1);
    let t0 = tree(0);
    let s1 = commit(11);

    let cycle = Cycle::start().advance(Response::Shadow(None));
    assert_eq!(cycle, Cycle::ResetShadow);
    assert_eq!(cycle.request(), Some(Request::ResetShadow));
    assert_eq!(cycle.phase(), Phase::RepairIfStale);

    let cycle = cycle.advance(Response::ShadowReset(c0));
    assert_eq!(cycle, Cycle::Snapshot { base: c0 });
    assert_eq!(cycle.request(), Some(Request::BuildSnapshot));
    assert_eq!(cycle.base(), Some(c0));

    let cycle = cycle.advance(Response::Snapshot(Some(t1)));
    assert_eq!(cycle, Cycle::Compare { base: c0, candidate: t1 });
    assert_eq!(cycle.request(), Some(Request::LoadTree { commit: c0 }));

    let cycle = cycle.advance(Response::Tree(t0));
    assert_eq!(cycle, Cycle::Commit { base: c0, candidate: t1 });
    assert_eq!(cycle.request(), Some(Request::CreateCheckpoint { parent: c0, tree: t1 }));
    assert_eq!(cycle.phase(), Phase::CompareAndCommit);

    let cycle = cycle.advance(Response::Checkpoint(s1));
    let outcome = Outcome::Checkpointed { parent: c0, tree: t1, commit: s1 };
    assert_eq!(cycle, Cycle::Idle(outcome));
    assert_eq!(cycle.result(), Some(Ok(outcome)));
    assert_eq!(cycle.request(), None);
    assert!(cycle.is_finished());
    assert_eq!(cycle.phase(), Phase::Idle);
    assert_eq!(cycle.base(), Some(c0));
}

#[test]
fn unchanged_directory_records_nothing() {
    let c0 = commit(10);
    let s0 = commit(20);
    let t0 = tree(5);

    let cycle = Cycle::start().advance(Response::Shadow(Some(s0)));
    assert_eq!(cycle, Cycle::CheckShadow { shadow: s0 });
    assert_eq!(cycle.request(), Some(Request::CheckAncestry { shadow: s0 }));

    let cycle = cycle.advance(Response::Ancestry { head: c0, merge_base: Some(c0) });
    assert_eq!(cycle, Cycle::Snapshot { base: s0 });

    let cycle = cycle.advance(Response::Snapshot(Some(t0)));
    let cycle = cycle.advance(Response::Tree(t0));
    assert_eq!(cycle, Cycle::Idle(Outcome::Unchanged { base: s0 }));
    assert_eq!(cycle.result(), Some(Ok(Outcome::Unchanged { base: s0 })));
}

#[test]
fn stale_pointer_is_reset_before_the_snapshot() {
    let c0 = commit(10);
    let c1 = commit(30);
    let s0 = commit(20);

    let cycle = Cycle::start().advance(Response::Shadow(Some(s0)));
    // the common ancestor is c0, not the checked-out c1
    let cycle = cycle.advance(Response::Ancestry { head: c1, merge_base: Some(c0) });
    assert_eq!(cycle, Cycle::ResetShadow);
    assert_eq!(cycle.request(), Some(Request::ResetShadow));

    let cycle = cycle.advance(Response::ShadowReset(c1));
    assert_eq!(cycle, Cycle::Snapshot { base: c1 });
    assert_eq!(cycle.base(), Some(c1));
}

#[test]
fn pointer_without_common_ancestor_is_reset() {
    let c1 = commit(30);
    let s0 = commit(20);
    let cycle = Cycle::start()
        .advance(Response::Shadow(Some(s0)))
        .advance(Response::Ancestry { head: c1, merge_base: None });
    assert_eq!(cycle, Cycle::ResetShadow);
}

#[test]
fn empty_directory_ends_the_cycle_without_a_commit() {
    let s0 = commit(20);
    let c0 = commit(10);
    let cycle = Cycle::start()
        .advance(Response::Shadow(Some(s0)))
        .advance(Response::Ancestry { head: c0, merge_base: Some(c0) })
        .advance(Response::Snapshot(None));
    assert_eq!(cycle, Cycle::Idle(Outcome::NothingToTrack { base: s0 }));
    assert_eq!(cycle.request(), None);
}

#[test]
fn failures_are_named_by_the_phase_they_happen_in() {
    let s0 = commit(20);
    let c0 = commit(10);
    let t1 = tree(1);
    let t0 = tree(0);

    let resolve = Cycle::start();
    assert_eq!(resolve.failure(), EngineError::RefResolutionFailure);
    assert_eq!(
        resolve.advance(Response::Failure),
        Cycle::Failed(EngineError::RefResolutionFailure)
    );

    let check = resolve.advance(Response::Shadow(Some(s0)));
    assert_eq!(
        check.advance(Response::Failure),
        Cycle::Failed(EngineError::RefResolutionFailure)
    );

    let reset = resolve.advance(Response::Shadow(None));
    assert_eq!(
        reset.advance(Response::Failure),
        Cycle::Failed(EngineError::RefResolutionFailure)
    );

    let snapshot = check.advance(Response::Ancestry { head: c0, merge_base: Some(c0) });
    assert_eq!(snapshot.failure(), EngineError::ObjectStoreFailure);
    assert_eq!(
        snapshot.advance(Response::Failure),
        Cycle::Failed(EngineError::ObjectStoreFailure)
    );

    let compare = snapshot.advance(Response::Snapshot(Some(t1)));
    assert_eq!(
        compare.advance(Response::Failure),
        Cycle::Failed(EngineError::ObjectStoreFailure)
    );

    let create = compare.advance(Response::Tree(t0));
    let failed = create.advance(Response::Failure);
    assert_eq!(failed, Cycle::Failed(EngineError::ObjectStoreFailure));
    assert_eq!(failed.result(), Some(Err(EngineError::ObjectStoreFailure)));
    assert!(failed.is_finished());
    assert_eq!(failed.request(), None);
}

#[test]
fn an_answer_to_another_request_counts_as_a_failure() {
    let t1 = tree(1);
    assert_eq!(
        Cycle::start().advance(Response::Tree(t1)),
        Cycle::Failed(EngineError::RefResolutionFailure)
    );
    let snapshot = Cycle::Snapshot { base: commit(1) };
    assert_eq!(
        snapshot.advance(Response::Shadow(None)),
        Cycle::Failed(EngineError::ObjectStoreFailure)
    );
}

#[test]
fn a_finished_cycle_takes_no_more_answers() {
    let idle = Cycle::Idle(Outcome::Unchanged { base: commit(1) });
    assert_eq!(idle.advance(Response::Checkpoint(commit(2))), idle);
    assert_eq!(idle.advance(Response::Failure), idle);
    let failed = Cycle::Failed(EngineError::ObjectStoreFailure);
    assert_eq!(failed.advance(Response::Shadow(None)), failed);
}

#[test]
fn consistency_is_the_merge_base_being_the_checked_out_position() {
    let c0 = commit(10);
    let c1 = commit(30);
    assert!(is_consistent(c0, Some(c0)));
    assert!(!is_consistent(c1, Some(c0)));
    assert!(!is_consistent(c1, None));
}

#[test]
fn a_checkpoint_is_due_exactly_when_the_trees_differ() {
    assert!(is_checkpoint_due(tree(1), tree(0)));
    assert!(!is_checkpoint_due(tree(1), tree(1)));
}
