//! The driving loop: when a cycle runs, and when the loop ends.
//!
//! The loop waits, runs a cycle, and waits again; cycles never overlap. A
//! request to stop is only recorded when it arrives. It is acted on at the
//! next wait: one last cycle flushes what is pending, and the loop ends
//! whether that cycle succeeds or not.
//!
//! What a failed cycle means for the loop is a policy that is fixed when the
//! scheduler is made. `Continue` reports the failure and waits for the next
//! tick, so that one passing fault does not end the history; `Stop` ends the
//! loop with the failure.

use crate::error::EngineError;
use vstd::prelude::*;

verus! {

/// The seconds between two cycles where no period is given.
pub const PERIOD_SECONDS: u64 = 5;

/// What a failed cycle means for the loop.
#[derive(Clone, Copy, Debug, PartialEq, Eq, Structural)]
pub enum FailurePolicy {
    /// Report the failure and go on with the next tick.
    Continue,
    /// End the loop with the failure.
    Stop,
}

/// Where the loop stands.
#[derive(Clone, Copy, Debug, PartialEq, Eq, Structural)]
pub enum LoopPhase {
    /// Between two cycles.
    Waiting,
    /// A cycle is running.
    Cycling,
    /// The last cycle is running.
    Flushing,
    /// The loop is over.
    Stopped,
}

/// What the loop is told.
#[derive(Clone, Copy, Debug, PartialEq, Eq, Structural)]
pub enum Signal {
    /// The period is over.
    Tick,
    /// The process is asked to end.
    Interrupt,
    /// The cycle that was running has ended, well or with a failure.
    CycleEnded(Option<EngineError>),
}

/// What the loop is to do next.
#[derive(Clone, Copy, Debug, PartialEq, Eq, Structural)]
pub enum Directive {
    /// Nothing new: go on as before.
    Proceed,
    /// Wait for the next tick or a request to stop.
    Wait,
    /// Run one cycle and report how it ended.
    RunCycle,
    /// End the process: cleanly, or with the failure of the last cycle.
    Exit(Option<EngineError>),
}

/// The scheduler of the driving loop.
#[derive(Clone, Copy, Debug, PartialEq, Eq, Structural)]
pub struct Scheduler {
    pub phase: LoopPhase,
    /// A request to stop arrived while a cycle was running.
    pub stop_requested: bool,
    pub policy: FailurePolicy,
}

/// What the scheduler decided on a signal.
#[derive(Clone, Copy, Debug, PartialEq, Eq, Structural)]
pub struct Decision {
    pub next: Scheduler,
    pub directive: Directive,
    /// A failure to report, where the loop goes on in spite of it.
    pub report: Option<EngineError>,
}

impl Scheduler {
    /// What the scheduler decides on a signal.
    pub open spec fn spec_on(self, signal: Signal) -> Decision {
        match (self.phase, signal) {
            (LoopPhase::Waiting, Signal::Tick) => Decision {
                next: Scheduler { phase: LoopPhase::Cycling, ..self },
                directive: Directive::RunCycle,
                report: None,
            },
            (LoopPhase::Waiting, Signal::Interrupt) => Decision {
                next: Scheduler { phase: LoopPhase::Flushing, ..self },
                directive: Directive::RunCycle,
                report: None,
            },
            (LoopPhase::Cycling, Signal::Interrupt) => Decision {
                next: Scheduler { stop_requested: true, ..self },
                directive: Directive::Proceed,
                report: None,
            },
            (LoopPhase::Cycling, Signal::CycleEnded(failure)) => {
                if failure is Some && self.policy == FailurePolicy::Stop {
                    Decision {
                        next: Scheduler { phase: LoopPhase::Stopped, ..self },
                        directive: Directive::Exit(failure),
                        report: None,
                    }
                } else if self.stop_requested {
                    Decision {
                        next: Scheduler { phase: LoopPhase::Flushing, ..self },
                        directive: Directive::RunCycle,
                        report: failure,
                    }
                } else {
                    Decision {
                        next: Scheduler { phase: LoopPhase::Waiting, ..self },
                        directive: Directive::Wait,
                        report: failure,
                    }
                }
            },
            (LoopPhase::Flushing, Signal::CycleEnded(failure)) => Decision {
                next: Scheduler { phase: LoopPhase::Stopped, ..self },
                directive: Directive::Exit(failure),
                report: None,
            },
            _ => Decision { next: self, directive: Directive::Proceed, report: None },
        }
    }

    /// A scheduler before its first wait.
    pub fn new(policy: FailurePolicy) -> (scheduler: Scheduler)
        ensures
            scheduler == (Scheduler { phase: LoopPhase::Waiting, stop_requested: false, policy }),
    {
        Scheduler { phase: LoopPhase::Waiting, stop_requested: false, policy }
    }

    /// Takes a signal and decides what the loop does next.
    pub fn on(self, signal: Signal) -> (decision: Decision)
        ensures
            decision == self.spec_on(signal),
    {
        let proceed = Decision { next: self, directive: Directive::Proceed, report: None };
        match self.phase {
            LoopPhase::Waiting => match signal {
                Signal::Tick => Decision {
                    next: Scheduler { phase: LoopPhase::Cycling, ..self },
                    directive: Directive::RunCycle,
                    report: None,
                },
                Signal::Interrupt => Decision {
                    next: Scheduler { phase: LoopPhase::Flushing, ..self },
                    directive: Directive::RunCycle,
                    report: None,
                },
                Signal::CycleEnded(_) => proceed,
            },
            LoopPhase::Cycling => match signal {
                Signal::Tick => proceed,
                Signal::Interrupt => Decision {
                    next: Scheduler { stop_requested: true, ..self },
                    directive: Directive::Proceed,
                    report: None,
                },
                Signal::CycleEnded(failure) => {
                    let fatal = match (failure, self.policy) {
                        (Some(_), FailurePolicy::Stop) => true,
                        _ => false,
                    };
                    if fatal {
                        Decision {
                            next: Scheduler { phase: LoopPhase::Stopped, ..self },
                            directive: Directive::Exit(failure),
                            report: None,
                        }
                    } else if self.stop_requested {
                        Decision {
                            next: Scheduler { phase: LoopPhase::Flushing, ..self },
                            directive: Directive::RunCycle,
                            report: failure,
                        }
                    } else {
                        Decision {
                            next: Scheduler { phase: LoopPhase::Waiting, ..self },
                            directive: Directive::Wait,
                            report: failure,
                        }
                    }
                },
            },
            LoopPhase::Flushing => match signal {
                Signal::CycleEnded(failure) => Decision {
                    next: Scheduler { phase: LoopPhase::Stopped, ..self },
                    directive: Directive::Exit(failure),
                    report: None,
                },
                _ => proceed,
            },
            LoopPhase::Stopped => proceed,
        }
    }

    /// Whether a cycle is running.
    pub open spec fn spec_busy(self) -> bool {
        self.phase == LoopPhase::Cycling || self.phase == LoopPhase::Flushing
    }

    /// Whether a cycle is running.
    pub fn is_busy(&self) -> (busy: bool)
        ensures
            busy == self.spec_busy(),
    {
        match self.phase {
            LoopPhase::Cycling => true,
            LoopPhase::Flushing => true,
            _ => false,
        }
    }
}

/// Cycles never overlap: a cycle is started only while none is running, or as
/// the one before ends, and after it one is running.
pub proof fn cycles_never_overlap(scheduler: Scheduler, signal: Signal)
    ensures
        scheduler.spec_on(signal).directive == Directive::RunCycle ==> {
            &&& !scheduler.spec_busy() || signal is CycleEnded
            &&& scheduler.spec_on(signal).next.spec_busy()
        },
        scheduler.spec_busy() && !(signal is CycleEnded) ==> scheduler.spec_on(
            signal,
        ).next.spec_busy() && scheduler.spec_on(signal).directive == Directive::Proceed,
{
}

/// A request to stop that is seen at a wait lets exactly one more cycle run:
/// the loop then ends however that cycle ended, and with its failure if it
/// had one.
pub proof fn stop_flushes_once(scheduler: Scheduler, ended: Option<EngineError>)
    requires
        scheduler.phase == LoopPhase::Waiting,
    ensures
        scheduler.spec_on(Signal::Interrupt).directive == Directive::RunCycle,
        scheduler.spec_on(Signal::Interrupt).next.spec_on(Signal::CycleEnded(ended)).directive
            == Directive::Exit(ended),
        scheduler.spec_on(Signal::Interrupt).next.spec_on(Signal::CycleEnded(ended)).next.phase
            == LoopPhase::Stopped,
{
}

/// A request to stop that arrives while a cycle runs is only recorded; it is
/// acted on when that cycle has ended, with the one last cycle, unless the
/// loop ends on that cycle's failure.
pub proof fn stop_waits_for_the_cycle(scheduler: Scheduler, ended: Option<EngineError>)
    requires
        scheduler.phase == LoopPhase::Cycling,
    ensures
        scheduler.spec_on(Signal::Interrupt).directive == Directive::Proceed,
        scheduler.spec_on(Signal::Interrupt).next.phase == LoopPhase::Cycling,
        ended is None || scheduler.policy == FailurePolicy::Continue ==> scheduler.spec_on(
            Signal::Interrupt,
        ).next.spec_on(Signal::CycleEnded(ended)).directive == Directive::RunCycle
            && scheduler.spec_on(Signal::Interrupt).next.spec_on(
            Signal::CycleEnded(ended),
        ).next.phase == LoopPhase::Flushing,
{
}

/// Once the loop is over, nothing starts it again.
pub proof fn stopped_stays_stopped(scheduler: Scheduler, signal: Signal)
    requires
        scheduler.phase == LoopPhase::Stopped,
    ensures
        scheduler.spec_on(signal).next == scheduler,
        scheduler.spec_on(signal).directive == Directive::Proceed,
{
}

} // verus!
