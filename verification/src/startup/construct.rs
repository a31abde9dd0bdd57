//! The steps in which the runtime is built on an open store, and what is closed
//! again when one of them fails.
use crate::name::ResourceRevision;
use crate::startup::{FailureView, StartupFailure};
use vstd::prelude::*;

verus! {

/// One step of the construction.
#[derive(Clone, Copy, Debug, PartialEq, Eq, Structural)]
pub enum BuildStep {
    EnqueueProviders,
    OpenHost,
    PrepareEmptyGeneration,
    OpenResources,
    StartDaemon,
    InstallReconciler,
    InstallSupervisor,
}

impl BuildStep {
    /// The step after this one.
    pub open spec fn next(self) -> Option<BuildStep> {
        match self {
            BuildStep::EnqueueProviders => Some(BuildStep::OpenHost),
            BuildStep::OpenHost => Some(BuildStep::PrepareEmptyGeneration),
            BuildStep::PrepareEmptyGeneration => Some(BuildStep::OpenResources),
            BuildStep::OpenResources => Some(BuildStep::StartDaemon),
            BuildStep::StartDaemon => Some(BuildStep::InstallReconciler),
            BuildStep::InstallReconciler => Some(BuildStep::InstallSupervisor),
            BuildStep::InstallSupervisor => None,
        }
    }

    fn step_after(self) -> (next: Option<BuildStep>)
        ensures
            next == self.next(),
    {
        match self {
            BuildStep::EnqueueProviders => Some(BuildStep::OpenHost),
            BuildStep::OpenHost => Some(BuildStep::PrepareEmptyGeneration),
            BuildStep::PrepareEmptyGeneration => Some(BuildStep::OpenResources),
            BuildStep::OpenResources => Some(BuildStep::StartDaemon),
            BuildStep::StartDaemon => Some(BuildStep::InstallReconciler),
            BuildStep::InstallReconciler => Some(BuildStep::InstallSupervisor),
            BuildStep::InstallSupervisor => None,
        }
    }
}

/// What is closed after a step failed.
#[derive(Clone, Copy, Debug, PartialEq, Eq, Structural)]
pub enum Teardown {
    /// The store, which nothing uses yet or any more.
    CloseStore,
    /// The daemon that did not start, and the store with it.
    StopDaemon,
}

/// What is to be done next.
#[derive(Clone, Copy, Debug, PartialEq, Eq, Structural)]
pub enum BuildAsk {
    Run(BuildStep),
    /// The runtime is complete.
    Serve,
    /// The revisions are read for the failure, and the runtime is closed.
    Close(Teardown),
}

/// What is to be done after a step.
pub open spec fn asked_after(step: BuildStep, failed: bool) -> BuildAsk {
    if failed {
        BuildAsk::Close(
            if step == BuildStep::StartDaemon {
                Teardown::StopDaemon
            } else {
                Teardown::CloseStore
            },
        )
    } else {
        match step.next() {
            Some(next) => BuildAsk::Run(next),
            None => BuildAsk::Serve,
        }
    }
}

/// The first step.
pub fn begin_build() -> (ask: BuildAsk)
    ensures
        ask == BuildAsk::Run(BuildStep::EnqueueProviders),
{
    BuildAsk::Run(BuildStep::EnqueueProviders)
}

/// What is to be done after a step, which failed or not.
pub fn after_step(step: BuildStep, failed: bool) -> (ask: BuildAsk)
    ensures
        ask == asked_after(step, failed),
{
    if failed {
        match step {
            BuildStep::StartDaemon => BuildAsk::Close(Teardown::StopDaemon),
            _ => BuildAsk::Close(Teardown::CloseStore),
        }
    } else {
        match step.step_after() {
            Some(next) => BuildAsk::Run(next),
            None => BuildAsk::Serve,
        }
    }
}

/// The failure of a runtime: its error, with the revisions that could be read.
pub fn runtime_failure(
    error: String,
    durable: Result<ResourceRevision, String>,
    serving: Result<ResourceRevision, String>,
) -> (failure: StartupFailure)
    ensures
        failure@ == (FailureView::Runtime {
            error: error@,
            durable_revision: match durable {
                Ok(revision) => Some(revision),
                Err(_) => None,
            },
            serving_revision: match serving {
                Ok(revision) => Some(revision),
                Err(_) => None,
            },
        }),
{
    StartupFailure::Runtime {
        error,
        durable_revision: match durable {
            Ok(revision) => Some(revision),
            Err(_) => None,
        },
        serving_revision: match serving {
            Ok(revision) => Some(revision),
            Err(_) => None,
        },
    }
}

/// Where the construction stands after so many steps without a failure.
pub open spec fn reached(steps: nat) -> BuildAsk
    decreases steps,
{
    if steps == 0 {
        BuildAsk::Run(BuildStep::EnqueueProviders)
    } else {
        match reached((steps - 1) as nat) {
            BuildAsk::Run(step) => asked_after(step, false),
            done => done,
        }
    }
}

/// The runtime serves after seven steps and not before, and the daemon is
/// started after its resources are open and before anything is installed in it.
pub proof fn a_runtime_serves_only_complete(steps: nat)
    ensures
        reached(steps) == BuildAsk::Serve <==> steps >= 7,
        reached(4) == BuildAsk::Run(BuildStep::StartDaemon),
    decreases steps,
{
    reveal_with_fuel(reached, 8);
    if steps > 7 {
        a_runtime_serves_only_complete((steps - 1) as nat);
    }
}

} // verus!
