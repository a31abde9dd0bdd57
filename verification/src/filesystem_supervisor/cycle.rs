//! When the supervisor reconciles, waits, and stops everything.
use vstd::prelude::*;

verus! {

/// How long the supervisor sleeps when no retry is due, in milliseconds.
pub const IDLE_SLEEP: u128 = 86_400_000;

/// Where the supervisor's loop stands.
#[derive(Clone, Copy, Debug, PartialEq, Eq, Structural)]
pub struct SupervisorCycle {
    pub reconcile_now: bool,
    pub next_retry: Option<u128>,
    pub suspended: bool,
}

/// What the loop does next.
#[derive(Clone, Copy, Debug, PartialEq, Eq, Structural)]
pub enum CycleAction {
    /// Stop every runtime and end.
    StopAllAndExit,
    /// Run one reconciliation pass over everything.
    Reconcile,
    /// Wait for a change, for at most this many milliseconds.
    Wait { sleep: u128 },
}

/// What the loop was told.
#[allow(inconsistent_fields)]
#[derive(Clone, Copy, Debug, PartialEq, Eq, Structural)]
pub enum CycleEvent {
    /// A pass over everything ended, and names the next retry.
    PassCompleted { next_retry: Option<u128> },
    /// A pass was interrupted; whoever asked for that is still waiting.
    PassInterrupted,
    /// Desired, served or attached state changed, or its source closed.
    Changed { open: bool },
    /// Everything was stopped on request.
    StoppedAll,
    /// The next retry is due.
    RetryDue,
    /// The shutdown signal changed, or its source closed.
    Shutdown { open: bool, requested: bool },
}

impl SupervisorCycle {
    /// A fresh supervisor looks at everything at once.
    pub fn new() -> (cycle: Self)
        ensures
            cycle == (SupervisorCycle { reconcile_now: true, next_retry: None, suspended: false }),
    {
        SupervisorCycle { reconcile_now: true, next_retry: None, suspended: false }
    }

    /// What the loop does next.
    pub open spec fn next_action(self, shutdown_requested: bool) -> CycleAction {
        if shutdown_requested {
            CycleAction::StopAllAndExit
        } else if self.reconcile_now && !self.suspended {
            CycleAction::Reconcile
        } else {
            CycleAction::Wait {
                sleep: match self.next_retry {
                    Some(delay) => delay,
                    None => IDLE_SLEEP,
                },
            }
        }
    }

    /// Decides what the loop does next.
    pub fn decide(&self, shutdown_requested: bool) -> (action: CycleAction)
        ensures
            action == self.next_action(shutdown_requested),
    {
        if shutdown_requested {
            return CycleAction::StopAllAndExit;
        }
        if self.reconcile_now && !self.suspended {
            return CycleAction::Reconcile;
        }
        match self.next_retry {
            Some(delay) => CycleAction::Wait { sleep: delay },
            None => CycleAction::Wait { sleep: IDLE_SLEEP },
        }
    }

    /// The loop after an event.
    pub open spec fn told(self, event: CycleEvent) -> SupervisorCycle {
        match event {
            CycleEvent::PassCompleted { next_retry } => SupervisorCycle {
                reconcile_now: false,
                next_retry,
                ..self
            },
            CycleEvent::PassInterrupted => SupervisorCycle {
                reconcile_now: false,
                next_retry: None,
                ..self
            },
            CycleEvent::Changed { open } => if open {
                SupervisorCycle { reconcile_now: !self.suspended, ..self }
            } else {
                self
            },
            CycleEvent::StoppedAll => SupervisorCycle {
                suspended: true,
                reconcile_now: false,
                ..self
            },
            CycleEvent::RetryDue => SupervisorCycle { reconcile_now: !self.suspended, ..self },
            CycleEvent::Shutdown { .. } => self,
        }
    }

    /// Whether an event ends the supervisor.
    pub open spec fn ends_on(event: CycleEvent) -> bool {
        match event {
            CycleEvent::Changed { open } => !open,
            CycleEvent::Shutdown { open, requested } => !open || requested,
            _ => false,
        }
    }

    /// Tells the loop of an event, and says whether everything is to be
    /// stopped and the supervisor to end.
    pub fn tell(&mut self, event: CycleEvent) -> (ends: bool)
        ensures
            *final(self) == old(self).told(event),
            ends == Self::ends_on(event),
    {
        match event {
            CycleEvent::PassCompleted { next_retry } => {
                self.next_retry = next_retry;
                self.reconcile_now = false;
                false
            },
            CycleEvent::PassInterrupted => {
                self.next_retry = None;
                self.reconcile_now = false;
                false
            },
            CycleEvent::Changed { open } => {
                if !open {
                    return true;
                }
                self.reconcile_now = !self.suspended;
                false
            },
            CycleEvent::StoppedAll => {
                self.suspended = true;
                self.reconcile_now = false;
                false
            },
            CycleEvent::RetryDue => {
                self.reconcile_now = !self.suspended;
                false
            },
            CycleEvent::Shutdown { open, requested } => !open || requested,
        }
    }
}

/// Once everything was stopped on request, no later event starts another
/// reconciliation.
pub proof fn a_stopped_supervisor_stays_stopped(cycle: SupervisorCycle, event: CycleEvent, shutdown: bool)
    requires
        cycle.suspended,
    ensures
        cycle.told(event).suspended,
        cycle.told(event).next_action(shutdown) != CycleAction::Reconcile,
{
}

/// Until then every change of what is desired, served or attached leads to a
/// reconciliation.
pub proof fn every_change_is_reconciled(cycle: SupervisorCycle)
    requires
        !cycle.suspended,
    ensures
        cycle.told(CycleEvent::Changed { open: true }).next_action(false) == CycleAction::Reconcile,
        cycle.told(CycleEvent::RetryDue).next_action(false) == CycleAction::Reconcile,
{
}

} // verus!
