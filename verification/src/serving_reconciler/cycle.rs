//! When the reconciler runs, waits, and ends.
use vstd::prelude::*;

verus! {

/// Where the reconciler's loop stands.
#[derive(Clone, Copy, Debug, PartialEq, Eq, Structural)]
pub struct ReconcilerCycle {
    pub reconcile_now: bool,
}

/// What the loop does next.
#[derive(Clone, Copy, Debug, PartialEq, Eq, Structural)]
pub enum ReconcilerAction {
    /// End, after the drains have been abandoned.
    Exit,
    /// Run from the desired resources to a served generation.
    Reconcile,
    /// Wait for a change.
    Wait,
}

/// What the loop was told.
#[allow(inconsistent_fields)]
#[derive(Clone, Copy, Debug, PartialEq, Eq, Structural)]
pub enum ReconcilerEvent {
    /// A run was published or failed for good.
    Settled,
    /// A run was overtaken by a later revision.
    Superseded,
    /// A run was cut short by shutdown.
    CutShort,
    /// The desired revision changed, and has work to do or not.
    Revision { requires_reconcile: bool },
    /// An action or a refreshed credential came in.
    Work,
    /// Artifacts were imported, of which a mount uses one or none.
    Imported { used: bool },
    /// A retired generation has drained.
    Drained,
    /// The shutdown signal changed.
    Shutdown { requested: bool },
    /// The source of a change closed.
    Closed,
}

impl ReconcilerCycle {
    /// A fresh reconciler runs at once.
    pub fn new() -> (cycle: Self)
        ensures
            cycle == (ReconcilerCycle { reconcile_now: true }),
    {
        ReconcilerCycle { reconcile_now: true }
    }

    /// What the loop does next.
    pub open spec fn next_action(self, shutdown_requested: bool) -> ReconcilerAction {
        if shutdown_requested {
            ReconcilerAction::Exit
        } else if self.reconcile_now {
            ReconcilerAction::Reconcile
        } else {
            ReconcilerAction::Wait
        }
    }

    /// Decides what the loop does next.
    pub fn decide(&self, shutdown_requested: bool) -> (action: ReconcilerAction)
        ensures
            action == self.next_action(shutdown_requested),
    {
        if shutdown_requested {
            ReconcilerAction::Exit
        } else if self.reconcile_now {
            ReconcilerAction::Reconcile
        } else {
            ReconcilerAction::Wait
        }
    }

    /// The loop after an event.
    pub open spec fn told(self, event: ReconcilerEvent) -> ReconcilerCycle {
        ReconcilerCycle {
            reconcile_now: match event {
                ReconcilerEvent::Settled => false,
                ReconcilerEvent::Superseded | ReconcilerEvent::Work => true,
                ReconcilerEvent::Revision { requires_reconcile } => requires_reconcile,
                ReconcilerEvent::Imported { used } => self.reconcile_now || used,
                ReconcilerEvent::CutShort
                | ReconcilerEvent::Drained
                | ReconcilerEvent::Shutdown { .. }
                | ReconcilerEvent::Closed => self.reconcile_now,
            },
        }
    }

    /// Whether an event ends the reconciler.
    pub open spec fn ends_on(event: ReconcilerEvent) -> bool {
        match event {
            ReconcilerEvent::CutShort | ReconcilerEvent::Closed => true,
            ReconcilerEvent::Shutdown { requested } => requested,
            _ => false,
        }
    }

    /// Tells the loop of an event, and says whether the reconciler ends.
    pub fn tell(&mut self, event: ReconcilerEvent) -> (ends: bool)
        ensures
            *final(self) == old(self).told(event),
            ends == Self::ends_on(event),
    {
        match event {
            ReconcilerEvent::Settled => {
                self.reconcile_now = false;
                false
            },
            ReconcilerEvent::Superseded | ReconcilerEvent::Work => {
                self.reconcile_now = true;
                false
            },
            ReconcilerEvent::Revision { requires_reconcile } => {
                self.reconcile_now = requires_reconcile;
                false
            },
            ReconcilerEvent::Imported { used } => {
                self.reconcile_now = self.reconcile_now || used;
                false
            },
            ReconcilerEvent::Drained => false,
            ReconcilerEvent::Shutdown { requested } => requested,
            ReconcilerEvent::CutShort | ReconcilerEvent::Closed => true,
        }
    }
}

/// A run that was overtaken is followed by another at once, and one that
/// settled is followed only by a change.
pub proof fn a_superseded_run_is_followed_by_another(cycle: ReconcilerCycle)
    ensures
        cycle.told(ReconcilerEvent::Superseded).next_action(false) == ReconcilerAction::Reconcile,
        cycle.told(ReconcilerEvent::Settled).next_action(false) == ReconcilerAction::Wait,
        cycle.told(ReconcilerEvent::Settled).told(ReconcilerEvent::Work).next_action(false)
            == ReconcilerAction::Reconcile,
{
}

} // verus!
