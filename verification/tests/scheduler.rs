use eis::error::EngineError;
use eis::scheduler::{
    Decision, Directive, FailurePolicy, LoopPhase, Scheduler, Signal, PERIOD_SECONDS,
};

fn at(phase: LoopPhase, stop_requested: bool, policy: FailurePolicy) -> Scheduler {
    Scheduler { phase, stop_requested, policy }
}

#[test]
fn the_period_is_five_seconds() {
    assert_eq!(PERIOD_SECONDS, 5);
}

#[test]
fn a_new_scheduler_waits() {
    let scheduler = Scheduler::new(FailurePolicy::Continue);
    assert_eq!(scheduler, at(LoopPhase::Waiting, false, FailurePolicy::Continue));
    assert!(!scheduler.is_busy());
}

#[test]
fn a_tick_starts_a_cycle() {
    let decision = Scheduler::new(FailurePolicy::Continue).on(Signal::Tick);
    assert_eq!(
        decision,
        Decision {
            next: at(LoopPhase::Cycling, false, FailurePolicy::Continue),
            directive: Directive::RunCycle,
            report: None,
        }
    );
    assert!(decision.next.is_busy());
}

#[test]
fn a_cycle_that_ends_well_leads_back_to_waiting() {
    let cycling = at(LoopPhase::Cycling, false, FailurePolicy::Continue);
    let decision = cycling.on(Signal::CycleEnded(None));
    assert_eq!(decision.next.phase, LoopPhase::Waiting);
    assert_eq!(decision.directive, Directive::Wait);
    assert_eq!(decision.report, None);
}

#[test]
fn a_failed_cycle_is_reported_and_the_loop_goes_on() {
    let cycling = at(LoopPhase::Cycling, false, FailurePolicy::Continue);
    let decision = cycling.on(Signal::CycleEnded(Some(EngineError::ObjectStoreFailure)));
    assert_eq!(decision.next.phase, LoopPhase::Waiting);
    assert_eq!(decision.directive, Directive::Wait);
    assert_eq!(decision.report, Some(EngineError::ObjectStoreFailure));
}

#[test]
fn a_failed_cycle_ends_the_loop_under_the_stop_policy() {
    let cycling = at(LoopPhase::Cycling, false, FailurePolicy::Stop);
    let decision = cycling.on(Signal::CycleEnded(Some(EngineError::RefResolutionFailure)));
    assert_eq!(decision.next.phase, LoopPhase::Stopped);
    assert_eq!(decision.directive, Directive::Exit(Some(EngineError::RefResolutionFailure)));
    assert_eq!(decision.report, None);
    let fine = cycling.on(Signal::CycleEnded(None));
    assert_eq!(fine.next.phase, LoopPhase::Waiting);
    assert_eq!(fine.directive, Directive::Wait);
}

#[test]
fn an_interrupt_at_a_wait_runs_one_last_cycle() {
    let decision = Scheduler::new(FailurePolicy::Continue).on(Signal::Interrupt);
    assert_eq!(decision.next.phase, LoopPhase::Flushing);
    assert_eq!(decision.directive, Directive::RunCycle);

    let ended = decision.next.on(Signal::CycleEnded(None));
    assert_eq!(ended.next.phase, LoopPhase::Stopped);
    assert_eq!(ended.directive, Directive::Exit(None));
}

#[test]
fn the_loop_ends_even_if_the_last_cycle_fails() {
    let flushing = at(LoopPhase::Flushing, false, FailurePolicy::Continue);
    let ended = flushing.on(Signal::CycleEnded(Some(EngineError::ObjectStoreFailure)));
    assert_eq!(ended.next.phase, LoopPhase::Stopped);
    assert_eq!(ended.directive, Directive::Exit(Some(EngineError::ObjectStoreFailure)));
}

#[test]
fn an_interrupt_during_a_cycle_is_only_recorded() {
    let cycling = at(LoopPhase::Cycling, false, FailurePolicy::Continue);
    let decision = cycling.on(Signal::Interrupt);
    assert_eq!(decision.next, at(LoopPhase::Cycling, true, FailurePolicy::Continue));
    assert_eq!(decision.directive, Directive::Proceed);

    let ended = decision.next.on(Signal::CycleEnded(Some(EngineError::ObjectStoreFailure)));
    assert_eq!(ended.next.phase, LoopPhase::Flushing);
    assert_eq!(ended.directive, Directive::RunCycle);
    assert_eq!(ended.report, Some(EngineError::ObjectStoreFailure));
}

#[test]
fn ticks_during_a_cycle_start_no_second_cycle() {
    let cycling = at(LoopPhase::Cycling, false, FailurePolicy::Continue);
    let decision = cycling.on(Signal::Tick);
    assert_eq!(decision.next, cycling);
    assert_eq!(decision.directive, Directive::Proceed);
    let flushing = at(LoopPhase::Flushing, false, FailurePolicy::Continue);
    assert_eq!(flushing.on(Signal::Tick).directive, Directive::Proceed);
    assert_eq!(flushing.on(Signal::Interrupt).directive, Directive::Proceed);
    assert_eq!(flushing.on(Signal::Interrupt).next, flushing);
}

#[test]
fn a_stopped_loop_stays_stopped() {
    let stopped = at(LoopPhase::Stopped, false, FailurePolicy::Continue);
    for signal in [Signal::Tick, Signal::Interrupt, Signal::CycleEnded(None)] {
        let decision = stopped.on(signal);
        assert_eq!(decision.next, stopped);
        assert_eq!(decision.directive, Directive::Proceed);
    }
    assert!(!stopped.is_busy());
}

#[test]
fn a_cycle_end_while_waiting_changes_nothing() {
    let waiting = Scheduler::new(FailurePolicy::Stop);
    let decision = waiting.on(Signal::CycleEnded(Some(EngineError::ObjectStoreFailure)));
    assert_eq!(decision.next, waiting);
    assert_eq!(decision.directive, Directive::Proceed);
    assert_eq!(decision.report, None);
}
