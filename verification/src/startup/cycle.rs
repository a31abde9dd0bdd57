//! The loop from the start to the stop: open the store, build the runtime, serve;
//! and, for as long as either fails, show the failure and wait for a repair.
use crate::control::DaemonRecovery;
use crate::startup::{FailureView, RecoverySequence, StartupFailure};
use vstd::prelude::*;

verus! {

/// How far the daemon has come.
#[derive(Debug, PartialEq, Eq)]
pub enum StartupStage {
    Opening,
    Building,
    /// Waiting for a repair or for the stop.
    Recovering { failure: StartupFailure },
    Repairing { failure: StartupFailure },
    Serving,
    /// Nothing more happens, with what went wrong, if something did.
    Stopped { error: Option<String> },
}

/// [`StartupStage`] by what it spells.
pub enum StageView {
    Opening,
    Building,
    Recovering { failure: FailureView },
    Repairing { failure: FailureView },
    Serving,
    Stopped { error: Option<Seq<char>> },
}

impl View for StartupStage {
    type V = StageView;

    open spec fn view(&self) -> StageView {
        match self {
            StartupStage::Opening => StageView::Opening,
            StartupStage::Building => StageView::Building,
            StartupStage::Recovering { failure } => StageView::Recovering { failure: failure@ },
            StartupStage::Repairing { failure } => StageView::Repairing { failure: failure@ },
            StartupStage::Serving => StageView::Serving,
            StartupStage::Stopped { error } => StageView::Stopped {
                error: crate::text::opt_text(*error),
            },
        }
    }
}

/// What happened. A failure comes with its text.
#[derive(Debug)]
pub enum StartupEvent {
    StoreOpened { error: Option<String> },
    RuntimeBuilt { failure: Option<StartupFailure> },
    /// The shutdown signal changed, or can no longer change.
    ShutdownChanged { closed: bool, requested: bool },
    RepairRequested,
    RepairQueueClosed,
    Repaired { error: Option<String> },
    Supervised { error: Option<String> },
}

/// What is to be done.
#[derive(Debug)]
pub enum StartupAsk {
    Build,
    Show(DaemonRecovery),
    Repair,
    Supervise,
    Stop,
    /// What happened was not waited for.
    Nothing,
}

/// Where a store leads that was opened or repaired.
pub open spec fn with_store(error: Option<String>) -> StageView {
    match error {
        None => StageView::Building,
        Some(error) => StageView::Recovering { failure: FailureView::Store { error: error@ } },
    }
}

/// Where an event leads; none where the stage does not wait for it.
pub open spec fn after(stage: StageView, event: StartupEvent) -> Option<StageView> {
    match (stage, event) {
        (StageView::Opening, StartupEvent::StoreOpened { error }) => Some(with_store(error)),
        (StageView::Building, StartupEvent::RuntimeBuilt { failure }) => Some(
            match failure {
                None => StageView::Serving,
                Some(failure) => StageView::Recovering { failure: failure@ },
            },
        ),
        (StageView::Recovering { failure }, StartupEvent::ShutdownChanged { closed, requested }) => {
            Some(
                if !closed && requested {
                    StageView::Stopped { error: None }
                } else {
                    StageView::Recovering { failure }
                },
            )
        },
        (StageView::Recovering { failure }, StartupEvent::RepairRequested) => Some(
            StageView::Repairing { failure },
        ),
        (StageView::Recovering { .. }, StartupEvent::RepairQueueClosed) => Some(
            StageView::Stopped { error: Some("control repair queue closed"@) },
        ),
        (StageView::Repairing { .. }, StartupEvent::Repaired { error }) => Some(with_store(error)),
        (StageView::Serving, StartupEvent::Supervised { error }) => Some(
            StageView::Stopped { error: crate::text::opt_text(error) },
        ),
        _ => None,
    }
}

/// Whether an ask is what a stage is entered with. The offer of a recovery that
/// is shown carries this number.
pub open spec fn is_asked(stage: Option<StageView>, next: u64, ask: StartupAsk) -> bool {
    match stage {
        None => ask is Nothing,
        Some(StageView::Opening) => ask is Nothing,
        Some(StageView::Building) => ask is Build,
        Some(StageView::Recovering { failure }) => ask matches StartupAsk::Show(recovery)
            && recovery@ == crate::startup::shown_after(failure, recovery@.repair)
            && crate::startup::is_offered(failure, next, recovery@.repair),
        Some(StageView::Repairing { .. }) => ask is Repair,
        Some(StageView::Serving) => ask is Supervise,
        Some(StageView::Stopped { .. }) => ask is Stop,
    }
}

/// The number of the next offer after a stage was entered.
pub open spec fn numbered(stage: Option<StageView>, next: u64) -> u64 {
    match stage {
        Some(StageView::Recovering { failure }) => crate::startup::offers_after(failure, next),
        _ => next,
    }
}

/// The daemon's life, with the numbers of the offers it has made.
#[derive(Debug)]
pub struct StartupCycle {
    pub stage: StartupStage,
    pub sequence: RecoverySequence,
}

impl StartupCycle {
    /// A daemon that opens its store first. Its control socket answers already.
    pub fn begin(sequence: RecoverySequence) -> (cycle: Self)
        ensures
            cycle.stage@ == StageView::Opening,
            cycle.sequence == sequence,
    {
        StartupCycle { stage: StartupStage::Opening, sequence }
    }

    fn enter(&mut self, stage: StartupStage) -> (ask: StartupAsk)
        requires
            stage@ !is Opening,
        ensures
            final(self).stage@ == stage@,
            is_asked(Some(stage@), old(self).sequence.next, ask),
            final(self).sequence.next == numbered(Some(stage@), old(self).sequence.next),
    {
        let ask = match &stage {
            StartupStage::Opening => StartupAsk::Nothing,
            StartupStage::Building => StartupAsk::Build,
            StartupStage::Recovering { failure } => StartupAsk::Show(
                failure.recovery(&mut self.sequence),
            ),
            StartupStage::Repairing { .. } => StartupAsk::Repair,
            StartupStage::Serving => StartupAsk::Supervise,
            StartupStage::Stopped { .. } => StartupAsk::Stop,
        };
        self.stage = stage;
        ask
    }

    /// Goes on after an event, and says what is to be done. An event that is not
    /// waited for changes nothing.
    pub fn resume(&mut self, event: StartupEvent) -> (ask: StartupAsk)
        ensures
            final(self).stage@ == (match after(old(self).stage@, event) {
                Some(stage) => stage,
                None => old(self).stage@,
            }),
            is_asked(after(old(self).stage@, event), old(self).sequence.next, ask),
            final(self).sequence.next == numbered(
                after(old(self).stage@, event),
                old(self).sequence.next,
            ),
    {
        let mut stage = StartupStage::Opening;
        std::mem::swap(&mut stage, &mut self.stage);
        match (stage, event) {
            (StartupStage::Opening, StartupEvent::StoreOpened { error })
            | (StartupStage::Repairing { .. }, StartupEvent::Repaired { error }) => match error {
                None => self.enter(StartupStage::Building),
                Some(error) => self.enter(
                    StartupStage::Recovering { failure: StartupFailure::Store { error } },
                ),
            },
            (StartupStage::Building, StartupEvent::RuntimeBuilt { failure }) => match failure {
                None => self.enter(StartupStage::Serving),
                Some(failure) => self.enter(StartupStage::Recovering { failure }),
            },
            (
                StartupStage::Recovering { failure },
                StartupEvent::ShutdownChanged { closed, requested },
            ) => if !closed && requested {
                self.enter(StartupStage::Stopped { error: None })
            } else {
                self.enter(StartupStage::Recovering { failure })
            },
            (StartupStage::Recovering { failure }, StartupEvent::RepairRequested) => self.enter(
                StartupStage::Repairing { failure },
            ),
            (StartupStage::Recovering { .. }, StartupEvent::RepairQueueClosed) => self.enter(
                StartupStage::Stopped { error: Some("control repair queue closed".to_owned()) },
            ),
            (StartupStage::Serving, StartupEvent::Supervised { error }) => self.enter(
                StartupStage::Stopped { error },
            ),
            (stage, _) => {
                self.stage = stage;
                StartupAsk::Nothing
            },
        }
    }
}

} // verus!
