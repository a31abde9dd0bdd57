//! One reconciliation pass over one filesystem.
//!
//! A pass asks for one outside effect at a time and is resumed with what came
//! of it. Each durable fence is asked for, and granted, before the effect that
//! relies on it.
use crate::filesystem_supervisor::{
    clone_spec, namespace_ready, retry_delay, DesiredFilesystem, FilesystemFailure,
    FilesystemInstance, FilesystemPhase, ObservationChange, MAX_RETRY_ATTEMPTS,
};
use crate::fs_runtime::driver::ConfirmedRuntime;
use crate::name::{ActionId, FilesystemSpec, ResourceName, ResourceRevision};
use crate::records::{
    ActionPhase, ActionReceipt, FilesystemProgressStage, ResourcePhase, ServingProgress,
};
use vstd::prelude::*;

verus! {

/// The time at which a reply arrived.
#[derive(Clone, Copy, Debug, PartialEq, Eq, Structural)]
pub struct Clock {
    pub unix_seconds: i64,
    pub unix_millis: u64,
}

/// One filesystem that is to be reconciled.
#[derive(Debug, PartialEq, Eq)]
pub struct Work {
    pub name: ResourceName,
    pub instance: FilesystemInstance,
    pub action: Option<ActionReceipt>,
    pub retry_count: u32,
}

/// How one pass ended.
#[derive(Clone, Copy, Debug, PartialEq, Eq, Structural)]
pub enum WorkOutcome {
    Done,
    Retry,
}

/// What an identity probe of a recorded runtime found.
#[derive(Debug, PartialEq, Eq)]
pub enum ProbeOutcome {
    /// The recorded specification cannot be driven on this host.
    InvalidSpec,
    /// Nothing runs under the recorded identity.
    Absent,
    /// The recorded identity runs and was proved.
    Present(ConfirmedRuntime),
    /// Something runs, and its identity could not be proved.
    Unproved,
}

/// What came of waiting for the session of a proved runtime.
#[derive(Debug, PartialEq, Eq)]
pub enum ConfirmedSession {
    Attached,
    Stopped(ConfirmedRuntime),
    Absent,
    TimedOut(ConfirmedRuntime),
}

/// What came of a launch.
#[derive(Clone, Copy, Debug, PartialEq, Eq, Structural)]
pub enum LaunchOutcome {
    InvalidSpec,
    Failed,
    Started,
}

/// The outside effect a pass waits for.
#[allow(inconsistent_fields)]
#[derive(Debug, PartialEq, Eq)]
pub enum Request {
    /// Move the action to a phase.
    TransitionAction { action: ActionId, phase: ActionPhase, failure: Option<FilesystemFailure> },
    /// Read what the serving namespace has reached.
    ReadServing,
    /// Record a change, unless the record was replaced meanwhile.
    Observe { change: ObservationChange },
    /// Probe a recorded identity.
    Probe { spec: FilesystemSpec, runtime_instance: String },
    /// Wait for the session of a proved runtime, while it runs.
    AwaitRetainedSession { spec: FilesystemSpec, runtime_instance: String },
    /// Stop exactly the proved runtime.
    StopExact { spec: FilesystemSpec, runtime_instance: String, confirmed: ConfirmedRuntime },
    /// Draw a fresh runtime instance.
    DrawInstance,
    /// Launch a runtime under a recorded identity.
    Launch { spec: FilesystemSpec, runtime_instance: String },
    /// Wait for the session of a launched runtime.
    AwaitSession { spec: FilesystemSpec, runtime_instance: String },
    /// Read the filesystems that are desired now.
    ReadDesired,
    /// Mark the filesystem ready in a revision, and say whether that revision
    /// is complete.
    MarkReady { revision: ResourceRevision },
    /// Wait until no session of an instance is left.
    AwaitSessionAbsence { runtime_instance: String },
    /// Drop the record of a deleted filesystem, unless it is desired again.
    ClearInstance { runtime_instance: Option<String> },
    /// Drop the status of a deleted filesystem, and say whether its revision
    /// is complete.
    ClearDeleted { revision: ResourceRevision },
}

/// What came of a [`Request`].
#[derive(Debug, PartialEq, Eq)]
pub enum Reply {
    Action(ActionReceipt),
    Serving(Option<ServingProgress>),
    Observed(Option<FilesystemInstance>),
    Probed(ProbeOutcome),
    Session(ConfirmedSession),
    Stopped(bool),
    Drawn(String),
    Launched(LaunchOutcome),
    Attached(bool),
    Desired(Vec<DesiredFilesystem>),
    Terminal(bool),
    Drained(bool),
    Cleared(bool),
}

/// A fact to publish, in order, before the next request.
#[allow(inconsistent_fields)]
#[derive(Debug, PartialEq, Eq)]
pub enum Notice {
    MarkPhase {
        revision: ResourceRevision,
        phase: ResourcePhase,
        failure: Option<FilesystemFailure>,
    },
    PublishPhase {
        stage: FilesystemProgressStage,
        retry_count: u32,
        failure: Option<FilesystemFailure>,
        next_retry_unix_ms: Option<u64>,
    },
    PublishDeletion,
    ActionCompleted { receipt: ActionReceipt },
    ActionFailed { receipt: ActionReceipt, failure: FilesystemFailure },
    RevisionReady { revision: ResourceRevision },
    RevisionFailed { revision: ResourceRevision, failure: FilesystemFailure },
}

/// Why a pass cannot be carried on at all.
#[derive(Clone, Copy, Debug, PartialEq, Eq, Structural)]
pub enum PassError {
    /// A record names an observed specification without its version.
    ObservedSpecWithoutVersion,
}

/// What a pass does next.
#[derive(Debug, PartialEq, Eq)]
pub enum Next {
    Ask(Request),
    Finish(WorkOutcome),
    Abort(PassError),
    /// The reply does not answer what the pass waits for; nothing changed.
    Unanswered,
}

/// What a pass over a desired filesystem waits for.
#[derive(Debug, PartialEq, Eq)]
pub enum DesiredStage {
    CheckingNamespace,
    RecordingWait,
    Probing,
    AwaitingRetained,
    RecordingReady,
    RecordingStop { confirmed: ConfirmedRuntime },
    StoppingObserved,
    Clearing,
    DrawingInstance,
    RecordingStart { runtime_instance: String },
    Launching { runtime_instance: String },
    AwaitingSession { runtime_instance: String },
    CheckingCurrent { runtime_instance: String },
    ProbingSuperseded { runtime_instance: String },
    StoppingSuperseded,
    MarkingReady,
    MarkingCurrentReady,
    CompletingAction,
    RecordingRetry { failure: FilesystemFailure, delay: u64 },
    RetryingAction { failure: FilesystemFailure, delay: u64 },
    RecordingFailure { failure: FilesystemFailure },
    FailingAction { failure: FilesystemFailure },
}

/// What a pass over a removed filesystem waits for.
#[derive(Clone, Copy, Debug, PartialEq, Eq, Structural)]
pub enum DeletionStage {
    FailingAction,
    Recording,
    Probing,
    Stopping,
    AwaitingAbsence,
    ProvingAbsence,
    ClearingInstance,
    ClearingDeleted,
    RecordingRetry,
    RecordingFailure { failure: FilesystemFailure },
}

/// What a pass waits for.
#[allow(inconsistent_fields)]
#[derive(Debug, PartialEq, Eq)]
pub enum Stage {
    StartingAction { desired: Option<DesiredFilesystem> },
    Desired { desired: DesiredFilesystem, at: DesiredStage },
    Deleting { at: DeletionStage },
    Finished,
}

/// One pass over one filesystem, seen from one desired revision.
#[derive(Debug, PartialEq, Eq)]
pub struct FilesystemPass {
    pub revision: ResourceRevision,
    pub work: Work,
    pub stage: Stage,
}

/// One step of a pass: the pass after it, what to publish, and what is next.
#[derive(Debug, PartialEq, Eq)]
pub struct Step {
    pub pass: FilesystemPass,
    pub notices: Vec<Notice>,
    pub next: Next,
}

/// [`Step`] by the order of its notices.
pub struct StepView {
    pub pass: FilesystemPass,
    pub notices: Seq<Notice>,
    pub next: Next,
}

impl View for Step {
    type V = StepView;

    open spec fn view(&self) -> StepView {
        StepView { pass: self.pass, notices: self.notices@, next: self.next }
    }
}

/// The pass asks for an effect on its way to a desired filesystem.
pub open spec fn asks(
    revision: ResourceRevision,
    work: Work,
    desired: DesiredFilesystem,
    at: DesiredStage,
    notices: Seq<Notice>,
    request: Request,
) -> StepView {
    StepView {
        pass: FilesystemPass { revision, work, stage: Stage::Desired { desired, at } },
        notices,
        next: Next::Ask(request),
    }
}

/// The pass asks for an effect on its way to a removed filesystem.
pub open spec fn asks_deleting(
    revision: ResourceRevision,
    work: Work,
    at: DeletionStage,
    notices: Seq<Notice>,
    request: Request,
) -> StepView {
    StepView {
        pass: FilesystemPass { revision, work, stage: Stage::Deleting { at } },
        notices,
        next: Next::Ask(request),
    }
}

/// The pass is over.
pub open spec fn finishes(
    revision: ResourceRevision,
    work: Work,
    notices: Seq<Notice>,
    outcome: WorkOutcome,
) -> StepView {
    StepView {
        pass: FilesystemPass { revision, work, stage: Stage::Finished },
        notices,
        next: Next::Finish(outcome),
    }
}

/// The reply was for something else.
pub open spec fn unanswered(pass: FilesystemPass) -> StepView {
    StepView { pass, notices: Seq::empty(), next: Next::Unanswered }
}

/// The work with the record that was granted.
pub open spec fn granted(work: Work, instance: FilesystemInstance) -> Work {
    Work { instance, ..work }
}

/// The work with the action as it now stands.
pub open spec fn acted(work: Work, receipt: ActionReceipt) -> Work {
    Work { action: Some(receipt), ..work }
}

/// A mark of the phase in the pass's revision.
pub open spec fn mark(
    revision: ResourceRevision,
    phase: ResourcePhase,
    failure: Option<FilesystemFailure>,
) -> Notice {
    Notice::MarkPhase { revision, phase, failure }
}

/// Progress of the filesystem in its own desired revision.
pub open spec fn publish(stage: FilesystemProgressStage, retry_count: u32) -> Notice {
    Notice::PublishPhase { stage, retry_count, failure: None, next_retry_unix_ms: None }
}

/// A filesystem is given up: record that first.
pub open spec fn fails(
    revision: ResourceRevision,
    work: Work,
    desired: DesiredFilesystem,
    failure: FilesystemFailure,
) -> StepView {
    asks(
        revision,
        work,
        desired,
        DesiredStage::RecordingFailure { failure },
        Seq::empty(),
        Request::Observe { change: ObservationChange::Failed { failure } },
    )
}

/// The number of failures including the one at hand.
pub open spec fn attempts(work: Work) -> u32 {
    if work.retry_count < u32::MAX {
        (work.retry_count + 1) as u32
    } else {
        u32::MAX
    }
}

/// `a + b`, held at the largest value.
pub open spec fn held_seconds(a: i64, b: int) -> i64 {
    if a + b <= i64::MAX {
        (a + b) as i64
    } else {
        i64::MAX
    }
}

/// `a + b`, held at the largest value.
pub open spec fn held_millis(a: u64, b: u64) -> u64 {
    if a + b <= u64::MAX {
        (a + b) as u64
    } else {
        u64::MAX
    }
}

/// The next try is at least a second away.
pub open spec fn retry_seconds(delay: u64) -> int {
    if delay / 1000 > 1 {
        (delay / 1000) as int
    } else {
        1
    }
}

/// A filesystem is tried again after a while, until the attempts run out.
pub open spec fn retries_or_fails(
    revision: ResourceRevision,
    work: Work,
    desired: DesiredFilesystem,
    failure: FilesystemFailure,
    clock: Clock,
) -> StepView {
    if attempts(work) >= MAX_RETRY_ATTEMPTS {
        fails(revision, work, desired, failure)
    } else {
        let delay = crate::filesystem_supervisor::retry_delay_spec(attempts(work));
        asks(
            revision,
            work,
            desired,
            DesiredStage::RecordingRetry { failure, delay },
            Seq::empty(),
            Request::Observe {
                change: ObservationChange::Retrying {
                    at: held_seconds(clock.unix_seconds, retry_seconds(delay)),
                    failure,
                },
            },
        )
    }
}

/// A granted retry is published, and ends the pass.
pub open spec fn publishes_retry(
    revision: ResourceRevision,
    work: Work,
    failure: FilesystemFailure,
    delay: u64,
    clock: Clock,
) -> StepView {
    finishes(
        revision,
        work,
        seq![
            Notice::PublishPhase {
                stage: FilesystemProgressStage::Retrying,
                retry_count: attempts(work),
                failure: Some(failure),
                next_retry_unix_ms: Some(held_millis(clock.unix_millis, delay)),
            },
            mark(revision, ResourcePhase::Retrying, Some(failure)),
        ],
        WorkOutcome::Retry,
    )
}

/// The runtime is proved gone: record that before anything is launched.
pub open spec fn clears(revision: ResourceRevision, work: Work, desired: DesiredFilesystem) -> StepView {
    asks(
        revision,
        work,
        desired,
        DesiredStage::Clearing,
        Seq::empty(),
        Request::Observe { change: ObservationChange::Cleared },
    )
}

/// The exact launch identity is recorded before any launch.
pub open spec fn records_start(
    revision: ResourceRevision,
    work: Work,
    desired: DesiredFilesystem,
    runtime_instance: String,
    notices: Seq<Notice>,
) -> StepView {
    asks(
        revision,
        work,
        desired,
        DesiredStage::RecordingStart { runtime_instance },
        notices,
        Request::Observe {
            change: ObservationChange::Starting {
                version: desired.version,
                spec: desired.spec,
                runtime_instance,
            },
        },
    )
}

/// A launch keeps a recorded instance and draws one where there is none.
pub open spec fn prepares_launch(
    revision: ResourceRevision,
    work: Work,
    desired: DesiredFilesystem,
    notices: Seq<Notice>,
) -> StepView {
    match work.instance.runtime_instance {
        Some(runtime_instance) => records_start(
            revision,
            work,
            desired,
            runtime_instance,
            notices,
        ),
        None => asks(
            revision,
            work,
            desired,
            DesiredStage::DrawingInstance,
            notices,
            Request::DrawInstance,
        ),
    }
}

/// Whether the recorded runtime has to be replaced even if it runs.
pub open spec fn must_restart(work: Work, desired: DesiredFilesystem) -> bool {
    work.action is Some || work.instance.observed_version != Some(desired.version)
}

/// With the namespace reached: prove a recorded runtime, or launch one.
pub open spec fn proceeds(revision: ResourceRevision, work: Work, desired: DesiredFilesystem) -> StepView {
    match (work.instance.observed_spec, work.instance.runtime_instance) {
        (Some(spec), Some(runtime_instance)) => if work.instance.observed_version is None {
            StepView {
                pass: FilesystemPass { revision, work, stage: Stage::Finished },
                notices: Seq::empty(),
                next: Next::Abort(PassError::ObservedSpecWithoutVersion),
            }
        } else {
            asks(
                revision,
                work,
                desired,
                DesiredStage::Probing,
                Seq::empty(),
                Request::Probe { spec, runtime_instance },
            )
        },
        _ => prepares_launch(revision, work, desired, Seq::empty()),
    }
}

/// A desired filesystem serves its session.
pub open spec fn is_ready(
    revision: ResourceRevision,
    work: Work,
    desired: DesiredFilesystem,
) -> StepView {
    asks(
        revision,
        work,
        desired,
        DesiredStage::MarkingReady,
        seq![publish(FilesystemProgressStage::Ready, 0)],
        Request::MarkReady { revision: desired.revision },
    )
}

/// A ready filesystem completes the action that asked for it.
pub open spec fn completes_action(
    revision: ResourceRevision,
    work: Work,
    desired: DesiredFilesystem,
    notices: Seq<Notice>,
) -> StepView {
    match work.action {
        Some(action) => asks(
            revision,
            work,
            desired,
            DesiredStage::CompletingAction,
            notices,
            Request::TransitionAction {
                action: action.action_id,
                phase: ActionPhase::Ready,
                failure: None,
            },
        ),
        None => finishes(revision, work, notices, WorkOutcome::Done),
    }
}

/// A complete revision is announced.
pub open spec fn announces(terminal: bool, revision: ResourceRevision) -> Seq<Notice> {
    if terminal {
        seq![Notice::RevisionReady { revision }]
    } else {
        Seq::empty()
    }
}

/// Whether the version is still the desired one.
pub open spec fn still_desired(latest: Seq<DesiredFilesystem>, name: Seq<char>, desired: DesiredFilesystem) -> bool {
    exists|i: int|
        0 <= i < latest.len() && (#[trigger] latest[i]).name@ == name && latest[i].version
            == desired.version
}

/// The step of a desired filesystem on the reply it waits for.
pub open spec fn resumed_desired(
    revision: ResourceRevision,
    work: Work,
    desired: DesiredFilesystem,
    at: DesiredStage,
    reply: Reply,
    clock: Clock,
) -> StepView {
    match (at, reply) {
        (DesiredStage::CheckingNamespace, Reply::Serving(serving)) =>
            if crate::filesystem_supervisor::namespace_reached(serving, desired.revision) {
                proceeds(revision, work, desired)
            } else {
                asks(
                    revision,
                    work,
                    desired,
                    DesiredStage::RecordingWait,
                    Seq::empty(),
                    Request::Observe { change: ObservationChange::Waiting },
                )
            },
        (DesiredStage::Probing, Reply::Probed(outcome)) => match outcome {
            ProbeOutcome::InvalidSpec => fails(
                revision,
                work,
                desired,
                FilesystemFailure::StoredSpecInvalid,
            ),
            ProbeOutcome::Unproved => fails(
                revision,
                work,
                desired,
                FilesystemFailure::IdentityConflict,
            ),
            ProbeOutcome::Absent => clears(revision, work, desired),
            ProbeOutcome::Present(confirmed) =>
                match (work.instance.observed_spec, work.instance.runtime_instance) {
                    (Some(spec), Some(runtime_instance)) =>
                        if !must_restart(work, desired) && confirmed.running() {
                            asks(
                                revision,
                                work,
                                desired,
                                DesiredStage::AwaitingRetained,
                                Seq::empty(),
                                Request::AwaitRetainedSession { spec, runtime_instance },
                            )
                        } else {
                            asks(
                                revision,
                                work,
                                desired,
                                DesiredStage::RecordingStop { confirmed },
                                Seq::empty(),
                                Request::Observe { change: ObservationChange::Stopping },
                            )
                        },
                    _ => unanswered(
                        FilesystemPass { revision, work, stage: Stage::Desired { desired, at } },
                    ),
                },
        },
        (DesiredStage::AwaitingRetained, Reply::Session(session)) => match session {
            ConfirmedSession::Attached => asks(
                revision,
                work,
                desired,
                DesiredStage::RecordingReady,
                Seq::empty(),
                Request::Observe { change: ObservationChange::Ready },
            ),
            ConfirmedSession::Absent => clears(revision, work, desired),
            ConfirmedSession::Stopped(confirmed) => stops_observed(
                revision,
                work,
                desired,
                confirmed,
                Seq::empty(),
            ),
            ConfirmedSession::TimedOut(confirmed) => stops_observed(
                revision,
                work,
                desired,
                confirmed,
                Seq::empty(),
            ),
        },
        (DesiredStage::StoppingObserved, Reply::Stopped(stopped)) => if stopped {
            clears(revision, work, desired)
        } else {
            retries_or_fails(revision, work, desired, FilesystemFailure::StopFailed, clock)
        },
        (DesiredStage::DrawingInstance, Reply::Drawn(runtime_instance)) => records_start(
            revision,
            work,
            desired,
            runtime_instance,
            Seq::empty(),
        ),
        (DesiredStage::Launching { runtime_instance }, Reply::Launched(outcome)) =>
            match outcome {
                LaunchOutcome::InvalidSpec => fails(
                    revision,
                    work,
                    desired,
                    FilesystemFailure::DesiredSpecInvalid,
                ),
                LaunchOutcome::Failed => retries_or_fails(
                    revision,
                    work,
                    desired,
                    FilesystemFailure::LaunchFailed,
                    clock,
                ),
                LaunchOutcome::Started => asks(
                    revision,
                    work,
                    desired,
                    DesiredStage::AwaitingSession { runtime_instance },
                    Seq::empty(),
                    Request::AwaitSession { spec: desired.spec, runtime_instance },
                ),
            },
        (DesiredStage::AwaitingSession { runtime_instance }, Reply::Attached(attached)) =>
            if attached {
                asks(
                    revision,
                    work,
                    desired,
                    DesiredStage::CheckingCurrent { runtime_instance },
                    Seq::empty(),
                    Request::ReadDesired,
                )
            } else {
                retries_or_fails(revision, work, desired, FilesystemFailure::SessionTimeout, clock)
            },
        (DesiredStage::CheckingCurrent { runtime_instance }, Reply::Desired(latest)) =>
            if still_desired(latest@, work.name@, desired) {
                asks(
                    revision,
                    work,
                    desired,
                    DesiredStage::RecordingReady,
                    Seq::empty(),
                    Request::Observe { change: ObservationChange::Ready },
                )
            } else {
                asks(
                    revision,
                    work,
                    desired,
                    DesiredStage::ProbingSuperseded { runtime_instance },
                    Seq::empty(),
                    Request::Probe { spec: desired.spec, runtime_instance },
                )
            },
        (DesiredStage::ProbingSuperseded { runtime_instance }, Reply::Probed(outcome)) =>
            match outcome {
                ProbeOutcome::Present(confirmed) => asks(
                    revision,
                    work,
                    desired,
                    DesiredStage::StoppingSuperseded,
                    Seq::empty(),
                    Request::StopExact { spec: desired.spec, runtime_instance, confirmed },
                ),
                _ => finishes(revision, work, Seq::empty(), WorkOutcome::Done),
            },
        (DesiredStage::StoppingSuperseded, Reply::Stopped(_)) => finishes(
            revision,
            work,
            Seq::empty(),
            WorkOutcome::Done,
        ),
        (DesiredStage::MarkingReady, Reply::Terminal(terminal)) => {
            let notices = announces(terminal, desired.revision);
            if revision != desired.revision {
                asks(
                    revision,
                    work,
                    desired,
                    DesiredStage::MarkingCurrentReady,
                    notices,
                    Request::MarkReady { revision },
                )
            } else {
                completes_action(revision, work, desired, notices)
            }
        },
        (DesiredStage::MarkingCurrentReady, Reply::Terminal(terminal)) => completes_action(
            revision,
            work,
            desired,
            announces(terminal, revision),
        ),
        (DesiredStage::CompletingAction, Reply::Action(receipt)) => finishes(
            revision,
            work,
            seq![Notice::ActionCompleted { receipt }],
            WorkOutcome::Done,
        ),
        (DesiredStage::RetryingAction { failure, delay }, Reply::Action(receipt)) =>
            publishes_retry(revision, acted(work, receipt), failure, delay, clock),
        (DesiredStage::FailingAction { failure }, Reply::Action(receipt)) => finishes(
            revision,
            work,
            seq![Notice::ActionFailed { receipt, failure }],
            WorkOutcome::Done,
        ),
        (at, Reply::Observed(observed)) => match observed {
            None => if awaits_record(at) {
                finishes(revision, work, Seq::empty(), WorkOutcome::Done)
            } else {
                unanswered(FilesystemPass { revision, work, stage: Stage::Desired { desired, at } })
            },
            Some(instance) => recorded_desired(revision, work, desired, at, instance, clock),
        },
        _ => unanswered(FilesystemPass { revision, work, stage: Stage::Desired { desired, at } }),
    }
}

/// A proved runtime that does not serve is stopped.
pub open spec fn stops_observed(
    revision: ResourceRevision,
    work: Work,
    desired: DesiredFilesystem,
    confirmed: ConfirmedRuntime,
    notices: Seq<Notice>,
) -> StepView {
    match (work.instance.observed_spec, work.instance.runtime_instance) {
        (Some(spec), Some(runtime_instance)) => asks(
            revision,
            work,
            desired,
            DesiredStage::StoppingObserved,
            notices,
            Request::StopExact { spec, runtime_instance, confirmed },
        ),
        _ => finishes(revision, work, notices, WorkOutcome::Done),
    }
}

/// Whether the pass waits for a record to be granted.
pub open spec fn awaits_record(at: DesiredStage) -> bool {
    match at {
        DesiredStage::RecordingWait => true,
        DesiredStage::RecordingReady => true,
        DesiredStage::RecordingStop { .. } => true,
        DesiredStage::Clearing => true,
        DesiredStage::RecordingStart { .. } => true,
        DesiredStage::RecordingRetry { .. } => true,
        DesiredStage::RecordingFailure { .. } => true,
        _ => false,
    }
}

/// The step of a desired filesystem once its record is granted.
pub open spec fn recorded_desired(
    revision: ResourceRevision,
    work: Work,
    desired: DesiredFilesystem,
    at: DesiredStage,
    instance: FilesystemInstance,
    clock: Clock,
) -> StepView {
    let now = granted(work, instance);
    match at {
        DesiredStage::RecordingWait => finishes(
            revision,
            now,
            seq![
                mark(revision, ResourcePhase::Pending, None),
                publish(FilesystemProgressStage::WaitingForNamespace, work.retry_count),
            ],
            WorkOutcome::Done,
        ),
        DesiredStage::RecordingReady => is_ready(revision, now, desired),
        DesiredStage::RecordingStop { confirmed } => {
            let notices = seq![
                mark(revision, ResourcePhase::Preparing, None),
                publish(FilesystemProgressStage::Stopping, work.retry_count),
            ];
            match (work.instance.observed_spec, work.instance.runtime_instance) {
                (Some(spec), Some(runtime_instance)) => asks(
                    revision,
                    now,
                    desired,
                    DesiredStage::StoppingObserved,
                    notices,
                    Request::StopExact { spec, runtime_instance, confirmed },
                ),
                _ => finishes(revision, now, notices, WorkOutcome::Done),
            }
        },
        DesiredStage::Clearing => prepares_launch(
            revision,
            now,
            desired,
            seq![mark(revision, ResourcePhase::Pending, None)],
        ),
        DesiredStage::RecordingStart { runtime_instance } => asks(
            revision,
            now,
            desired,
            DesiredStage::Launching { runtime_instance },
            seq![
                mark(revision, ResourcePhase::Preparing, None),
                publish(FilesystemProgressStage::Starting, work.retry_count),
            ],
            Request::Launch { spec: desired.spec, runtime_instance },
        ),
        DesiredStage::RecordingRetry { failure, delay } => match work.action {
            Some(action) => asks(
                revision,
                now,
                desired,
                DesiredStage::RetryingAction { failure, delay },
                Seq::empty(),
                Request::TransitionAction {
                    action: action.action_id,
                    phase: ActionPhase::Retrying,
                    failure: None,
                },
            ),
            None => publishes_retry(revision, now, failure, delay, clock),
        },
        DesiredStage::RecordingFailure { failure } => {
            let notices = seq![
                Notice::PublishPhase {
                    stage: FilesystemProgressStage::Failed,
                    retry_count: work.retry_count,
                    failure: Some(failure),
                    next_retry_unix_ms: None,
                },
                mark(revision, ResourcePhase::Failed, Some(failure)),
                Notice::RevisionFailed { revision: desired.revision, failure },
            ];
            match work.action {
                Some(action) => asks(
                    revision,
                    now,
                    desired,
                    DesiredStage::FailingAction { failure },
                    notices,
                    Request::TransitionAction {
                        action: action.action_id,
                        phase: ActionPhase::Failed,
                        failure: Some(failure),
                    },
                ),
                None => finishes(revision, now, notices, WorkOutcome::Done),
            }
        },
        _ => unanswered(FilesystemPass { revision, work, stage: Stage::Desired { desired, at } }),
    }
}

/// The removal is recorded before the runtime is touched.
pub open spec fn records_deletion(revision: ResourceRevision, work: Work, notices: Seq<Notice>) -> StepView {
    asks_deleting(
        revision,
        work,
        DeletionStage::Recording,
        notices,
        Request::Observe { change: ObservationChange::Deleting },
    )
}

/// A removal fails an action that still asked for the filesystem.
pub open spec fn begins_deletion(revision: ResourceRevision, work: Work) -> StepView {
    match work.action {
        Some(action) => asks_deleting(
            revision,
            work,
            DeletionStage::FailingAction,
            Seq::empty(),
            Request::TransitionAction {
                action: action.action_id,
                phase: ActionPhase::Failed,
                failure: Some(FilesystemFailure::Deleted),
            },
        ),
        None => records_deletion(revision, work, Seq::empty()),
    }
}

/// A removal is tried again a second later.
pub open spec fn retries_deletion(
    revision: ResourceRevision,
    work: Work,
    failure: FilesystemFailure,
    clock: Clock,
) -> StepView {
    asks_deleting(
        revision,
        work,
        DeletionStage::RecordingRetry,
        Seq::empty(),
        Request::Observe {
            change: ObservationChange::Retrying { at: held_seconds(clock.unix_seconds, 1), failure },
        },
    )
}

/// The record goes last.
pub open spec fn clears_instance(
    revision: ResourceRevision,
    work: Work,
    notices: Seq<Notice>,
) -> StepView {
    asks_deleting(
        revision,
        work,
        DeletionStage::ClearingInstance,
        notices,
        Request::ClearInstance { runtime_instance: work.instance.runtime_instance },
    )
}

/// The step of a removed filesystem on the reply it waits for.
pub open spec fn resumed_deleting(
    revision: ResourceRevision,
    work: Work,
    at: DeletionStage,
    reply: Reply,
    clock: Clock,
) -> StepView {
    let unchanged = unanswered(FilesystemPass { revision, work, stage: Stage::Deleting { at } });
    match (at, reply) {
        (DeletionStage::FailingAction, Reply::Action(receipt)) => records_deletion(
            revision,
            acted(work, receipt),
            seq![Notice::ActionFailed { receipt, failure: FilesystemFailure::Deleted }],
        ),
        (DeletionStage::Recording, Reply::Observed(None)) => finishes(
            revision,
            work,
            Seq::empty(),
            WorkOutcome::Done,
        ),
        (DeletionStage::Recording, Reply::Observed(Some(instance))) => {
            let now = granted(work, instance);
            match (instance.observed_spec, instance.runtime_instance) {
                (Some(spec), Some(runtime_instance)) => asks_deleting(
                    revision,
                    now,
                    DeletionStage::Probing,
                    seq![Notice::PublishDeletion],
                    Request::Probe { spec, runtime_instance },
                ),
                _ => clears_instance(revision, now, seq![Notice::PublishDeletion]),
            }
        },
        (DeletionStage::Probing, Reply::Probed(outcome)) =>
            match (work.instance.observed_spec, work.instance.runtime_instance) {
                (Some(spec), Some(runtime_instance)) => match outcome {
                    ProbeOutcome::InvalidSpec => retries_deletion(
                        revision,
                        work,
                        FilesystemFailure::DeleteSpecInvalid,
                        clock,
                    ),
                    ProbeOutcome::Unproved => asks_deleting(
                        revision,
                        work,
                        DeletionStage::RecordingFailure {
                            failure: FilesystemFailure::DeleteIdentityConflict,
                        },
                        Seq::empty(),
                        Request::Observe {
                            change: ObservationChange::Failed {
                                failure: FilesystemFailure::DeleteIdentityConflict,
                            },
                        },
                    ),
                    ProbeOutcome::Present(confirmed) => asks_deleting(
                        revision,
                        work,
                        DeletionStage::Stopping,
                        Seq::empty(),
                        Request::StopExact { spec, runtime_instance, confirmed },
                    ),
                    ProbeOutcome::Absent => asks_deleting(
                        revision,
                        work,
                        DeletionStage::AwaitingAbsence,
                        Seq::empty(),
                        Request::AwaitSessionAbsence { runtime_instance },
                    ),
                },
                _ => unchanged,
            },
        (DeletionStage::Stopping, Reply::Stopped(stopped)) => match (
            stopped,
            work.instance.runtime_instance,
        ) {
            (true, Some(runtime_instance)) => asks_deleting(
                revision,
                work,
                DeletionStage::AwaitingAbsence,
                Seq::empty(),
                Request::AwaitSessionAbsence { runtime_instance },
            ),
            (true, None) => unchanged,
            (false, _) => retries_deletion(
                revision,
                work,
                FilesystemFailure::DeleteStopFailed,
                clock,
            ),
        },
        (DeletionStage::AwaitingAbsence, Reply::Drained(drained)) => match (
            drained,
            work.instance.observed_spec,
            work.instance.runtime_instance,
        ) {
            (true, Some(spec), Some(runtime_instance)) => asks_deleting(
                revision,
                work,
                DeletionStage::ProvingAbsence,
                Seq::empty(),
                Request::Probe { spec, runtime_instance },
            ),
            (true, _, _) => unchanged,
            (false, _, _) => retries_deletion(
                revision,
                work,
                FilesystemFailure::DeleteSessionDrainFailed,
                clock,
            ),
        },
        (DeletionStage::ProvingAbsence, Reply::Probed(outcome)) => match outcome {
            ProbeOutcome::Absent => clears_instance(revision, work, Seq::empty()),
            ProbeOutcome::Present(_) => retries_deletion(
                revision,
                work,
                FilesystemFailure::DeleteIncomplete,
                clock,
            ),
            ProbeOutcome::InvalidSpec => retries_deletion(
                revision,
                work,
                FilesystemFailure::DeleteProbeFailed,
                clock,
            ),
            ProbeOutcome::Unproved => retries_deletion(
                revision,
                work,
                FilesystemFailure::DeleteProbeFailed,
                clock,
            ),
        },
        (DeletionStage::ClearingInstance, Reply::Cleared(cleared)) => if cleared {
            asks_deleting(
                revision,
                work,
                DeletionStage::ClearingDeleted,
                Seq::empty(),
                Request::ClearDeleted { revision },
            )
        } else {
            finishes(revision, work, Seq::empty(), WorkOutcome::Done)
        },
        (DeletionStage::ClearingDeleted, Reply::Terminal(terminal)) => finishes(
            revision,
            work,
            announces(terminal, revision),
            WorkOutcome::Done,
        ),
        (DeletionStage::RecordingRetry, Reply::Observed(None)) => finishes(
            revision,
            work,
            Seq::empty(),
            WorkOutcome::Done,
        ),
        (DeletionStage::RecordingRetry, Reply::Observed(Some(instance))) => finishes(
            revision,
            granted(work, instance),
            seq![Notice::PublishDeletion],
            WorkOutcome::Retry,
        ),
        (DeletionStage::RecordingFailure { failure }, Reply::Observed(None)) => finishes(
            revision,
            work,
            Seq::empty(),
            WorkOutcome::Done,
        ),
        (DeletionStage::RecordingFailure { failure }, Reply::Observed(Some(instance))) => finishes(
            revision,
            granted(work, instance),
            seq![
                mark(revision, ResourcePhase::Failed, Some(failure)),
                Notice::RevisionFailed { revision, failure },
            ],
            WorkOutcome::Done,
        ),
        _ => unchanged,
    }
}

/// With the action running: delete, leave alone, or look at the namespace.
pub open spec fn started(
    revision: ResourceRevision,
    work: Work,
    desired: Option<DesiredFilesystem>,
) -> StepView {
    match desired {
        None => begins_deletion(revision, work),
        Some(desired) => if work.instance.phase == FilesystemPhase::Failed
            && work.instance.observed_version == Some(desired.version) && work.action is None {
            finishes(revision, work, Seq::empty(), WorkOutcome::Done)
        } else {
            asks(
                revision,
                work,
                desired,
                DesiredStage::CheckingNamespace,
                Seq::empty(),
                Request::ReadServing,
            )
        },
    }
}

impl FilesystemPass {
    /// The first step: an action that is not running yet is moved to running.
    pub open spec fn begun(
        revision: ResourceRevision,
        work: Work,
        desired: Option<DesiredFilesystem>,
    ) -> StepView {
        match work.action {
            Some(action) => if action.phase != ActionPhase::Running {
                StepView {
                    pass: FilesystemPass { revision, work, stage: Stage::StartingAction { desired } },
                    notices: Seq::empty(),
                    next: Next::Ask(
                        Request::TransitionAction {
                            action: action.action_id,
                            phase: ActionPhase::Running,
                            failure: None,
                        },
                    ),
                }
            } else {
                started(revision, work, desired)
            },
            None => started(revision, work, desired),
        }
    }

    /// The step on a reply.
    pub open spec fn resumed(self, reply: Reply, clock: Clock) -> StepView {
        match self.stage {
            Stage::StartingAction { desired } => match reply {
                Reply::Action(receipt) => started(self.revision, acted(self.work, receipt), desired),
                _ => unanswered(self),
            },
            Stage::Desired { desired, at } => resumed_desired(
                self.revision,
                self.work,
                desired,
                at,
                reply,
                clock,
            ),
            Stage::Deleting { at } => resumed_deleting(self.revision, self.work, at, reply, clock),
            Stage::Finished => unanswered(self),
        }
    }
}

/// A step that asks for an effect toward a desired filesystem.
fn ask(
    revision: ResourceRevision,
    work: Work,
    desired: DesiredFilesystem,
    at: DesiredStage,
    notices: Vec<Notice>,
    request: Request,
) -> (step: Step)
    ensures
        step@ == asks(revision, work, desired, at, notices@, request),
{
    Step {
        pass: FilesystemPass { revision, work, stage: Stage::Desired { desired, at } },
        notices,
        next: Next::Ask(request),
    }
}

/// A step that asks for an effect toward a removed filesystem.
fn ask_deleting(
    revision: ResourceRevision,
    work: Work,
    at: DeletionStage,
    notices: Vec<Notice>,
    request: Request,
) -> (step: Step)
    ensures
        step@ == asks_deleting(revision, work, at, notices@, request),
{
    Step {
        pass: FilesystemPass { revision, work, stage: Stage::Deleting { at } },
        notices,
        next: Next::Ask(request),
    }
}

/// A step that ends the pass.
fn finish(revision: ResourceRevision, work: Work, notices: Vec<Notice>, outcome: WorkOutcome) -> (step: Step)
    ensures
        step@ == finishes(revision, work, notices@, outcome),
{
    Step {
        pass: FilesystemPass { revision, work, stage: Stage::Finished },
        notices,
        next: Next::Finish(outcome),
    }
}

/// A step that changes nothing.
fn unanswer(pass: FilesystemPass) -> (step: Step)
    ensures
        step@ == unanswered(pass),
{
    Step { pass, notices: Vec::new(), next: Next::Unanswered }
}

/// The first of a step's notices.
fn one(notice: Notice) -> (notices: Vec<Notice>)
    ensures
        notices@ == seq![notice],
{
    let mut notices: Vec<Notice> = Vec::new();
    notices.push(notice);
    assert(notices@ =~= seq![notice]);
    notices
}

/// Two notices in order.
fn two(first: Notice, second: Notice) -> (notices: Vec<Notice>)
    ensures
        notices@ == seq![first, second],
{
    let mut notices: Vec<Notice> = Vec::new();
    notices.push(first);
    notices.push(second);
    assert(notices@ =~= seq![first, second]);
    notices
}

/// Three notices in order.
fn three(first: Notice, second: Notice, third: Notice) -> (notices: Vec<Notice>)
    ensures
        notices@ == seq![first, second, third],
{
    let mut notices: Vec<Notice> = Vec::new();
    notices.push(first);
    notices.push(second);
    notices.push(third);
    assert(notices@ =~= seq![first, second, third]);
    notices
}

/// A mark of the phase in the pass's revision.
fn mark_phase(
    revision: ResourceRevision,
    phase: ResourcePhase,
    failure: Option<FilesystemFailure>,
) -> (notice: Notice)
    ensures
        notice == mark(revision, phase, failure),
{
    Notice::MarkPhase { revision, phase, failure }
}

/// Progress of the filesystem in its own desired revision.
fn publish_phase(stage: FilesystemProgressStage, retry_count: u32) -> (notice: Notice)
    ensures
        notice == publish(stage, retry_count),
{
    Notice::PublishPhase { stage, retry_count, failure: None, next_retry_unix_ms: None }
}

/// The announcement of a complete revision.
fn announce(terminal: bool, revision: ResourceRevision) -> (notices: Vec<Notice>)
    ensures
        notices@ == announces(terminal, revision),
{
    if terminal {
        one(Notice::RevisionReady { revision })
    } else {
        Vec::new()
    }
}

fn add_held_seconds(a: i64, b: i64) -> (sum: i64)
    requires
        b >= 0,
    ensures
        sum == held_seconds(a, b as int),
{
    if a <= i64::MAX - b {
        a + b
    } else {
        i64::MAX
    }
}

fn add_held_millis(a: u64, b: u64) -> (sum: u64)
    ensures
        sum == held_millis(a, b),
{
    if a <= u64::MAX - b {
        a + b
    } else {
        u64::MAX
    }
}

/// Gives a filesystem up, once that is recorded.
pub fn terminal_failure(
    revision: ResourceRevision,
    work: Work,
    desired: DesiredFilesystem,
    failure: FilesystemFailure,
) -> (step: Step)
    ensures
        step@ == fails(revision, work, desired, failure),
{
    ask(
        revision,
        work,
        desired,
        DesiredStage::RecordingFailure { failure },
        Vec::new(),
        Request::Observe { change: ObservationChange::Failed { failure } },
    )
}

fn attempts_of(work: &Work) -> (count: u32)
    ensures
        count == attempts(*work),
{
    if work.retry_count < u32::MAX {
        work.retry_count + 1
    } else {
        u32::MAX
    }
}

/// Schedules another try of a filesystem, or gives it up.
pub fn retry_or_fail(
    revision: ResourceRevision,
    work: Work,
    desired: DesiredFilesystem,
    failure: FilesystemFailure,
    clock: Clock,
) -> (step: Step)
    ensures
        step@ == retries_or_fails(revision, work, desired, failure, clock),
{
    let count: u32 = attempts_of(&work);
    if count >= MAX_RETRY_ATTEMPTS {
        return terminal_failure(revision, work, desired, failure);
    }
    let delay: u64 = retry_delay(count);
    let whole: u64 = delay / 1000;
    let seconds: i64 = if whole > 1 {
        whole as i64
    } else {
        1
    };
    let at: i64 = add_held_seconds(clock.unix_seconds, seconds);
    ask(
        revision,
        work,
        desired,
        DesiredStage::RecordingRetry { failure, delay },
        Vec::new(),
        Request::Observe { change: ObservationChange::Retrying { at, failure } },
    )
}

fn publish_retry(
    revision: ResourceRevision,
    work: Work,
    failure: FilesystemFailure,
    delay: u64,
    clock: Clock,
) -> (step: Step)
    ensures
        step@ == publishes_retry(revision, work, failure, delay, clock),
{
    let notices = two(
        Notice::PublishPhase {
            stage: FilesystemProgressStage::Retrying,
            retry_count: attempts_of(&work),
            failure: Some(failure),
            next_retry_unix_ms: Some(add_held_millis(clock.unix_millis, delay)),
        },
        mark_phase(revision, ResourcePhase::Retrying, Some(failure)),
    );
    finish(revision, work, notices, WorkOutcome::Retry)
}

/// Records that a runtime is proved gone.
pub fn clear_observed(revision: ResourceRevision, work: Work, desired: DesiredFilesystem) -> (step: Step)
    ensures
        step@ == clears(revision, work, desired),
{
    ask(
        revision,
        work,
        desired,
        DesiredStage::Clearing,
        Vec::new(),
        Request::Observe { change: ObservationChange::Cleared },
    )
}

fn record_start(
    revision: ResourceRevision,
    work: Work,
    desired: DesiredFilesystem,
    runtime_instance: String,
    notices: Vec<Notice>,
) -> (step: Step)
    ensures
        step@ == records_start(revision, work, desired, runtime_instance, notices@),
{
    let change = ObservationChange::Starting {
        version: desired.version,
        spec: desired.spec.clone(),
        runtime_instance: runtime_instance.clone(),
    };
    ask(
        revision,
        work,
        desired,
        DesiredStage::RecordingStart { runtime_instance },
        notices,
        Request::Observe { change },
    )
}

fn prepare_launch(
    revision: ResourceRevision,
    work: Work,
    desired: DesiredFilesystem,
    notices: Vec<Notice>,
) -> (step: Step)
    ensures
        step@ == prepares_launch(revision, work, desired, notices@),
{
    let recorded = work.instance.runtime_instance.clone();
    match recorded {
        Some(runtime_instance) => record_start(revision, work, desired, runtime_instance, notices),
        None => ask(
            revision,
            work,
            desired,
            DesiredStage::DrawingInstance,
            notices,
            Request::DrawInstance,
        ),
    }
}

fn proceed(revision: ResourceRevision, work: Work, desired: DesiredFilesystem) -> (step: Step)
    ensures
        step@ == proceeds(revision, work, desired),
{
    let spec = clone_spec(&work.instance.observed_spec);
    let instance = work.instance.runtime_instance.clone();
    match (spec, instance) {
        (Some(spec), Some(runtime_instance)) => {
            if work.instance.observed_version.is_none() {
                Step {
                    pass: FilesystemPass { revision, work, stage: Stage::Finished },
                    notices: Vec::new(),
                    next: Next::Abort(PassError::ObservedSpecWithoutVersion),
                }
            } else {
                ask(
                    revision,
                    work,
                    desired,
                    DesiredStage::Probing,
                    Vec::new(),
                    Request::Probe { spec, runtime_instance },
                )
            }
        },
        _ => prepare_launch(revision, work, desired, Vec::new()),
    }
}

/// Publishes a ready filesystem.
pub fn finish_ready(revision: ResourceRevision, work: Work, desired: DesiredFilesystem) -> (step: Step)
    ensures
        step@ == is_ready(revision, work, desired),
{
    let ready = desired.revision;
    ask(
        revision,
        work,
        desired,
        DesiredStage::MarkingReady,
        one(publish_phase(FilesystemProgressStage::Ready, 0)),
        Request::MarkReady { revision: ready },
    )
}

fn complete_action(
    revision: ResourceRevision,
    work: Work,
    desired: DesiredFilesystem,
    notices: Vec<Notice>,
) -> (step: Step)
    ensures
        step@ == completes_action(revision, work, desired, notices@),
{
    match &work.action {
        Some(action) => {
            let action: ActionId = action.action_id;
            ask(
                revision,
                work,
                desired,
                DesiredStage::CompletingAction,
                notices,
                Request::TransitionAction { action, phase: ActionPhase::Ready, failure: None },
            )
        },
        None => finish(revision, work, notices, WorkOutcome::Done),
    }
}

fn stop_observed(
    revision: ResourceRevision,
    work: Work,
    desired: DesiredFilesystem,
    confirmed: ConfirmedRuntime,
    notices: Vec<Notice>,
) -> (step: Step)
    ensures
        step@ == stops_observed(revision, work, desired, confirmed, notices@),
{
    let spec = clone_spec(&work.instance.observed_spec);
    let instance = work.instance.runtime_instance.clone();
    match (spec, instance) {
        (Some(spec), Some(runtime_instance)) => ask(
            revision,
            work,
            desired,
            DesiredStage::StoppingObserved,
            notices,
            Request::StopExact { spec, runtime_instance, confirmed },
        ),
        _ => finish(revision, work, notices, WorkOutcome::Done),
    }
}

fn is_still_desired(latest: &Vec<DesiredFilesystem>, name: &ResourceName, desired: &DesiredFilesystem) -> (still:
    bool)
    ensures
        still == still_desired(latest@, name@, *desired),
{
    let mut i: usize = 0;
    while i < latest.len()
        invariant
            i <= latest@.len(),
            forall|j: int|
                0 <= j < i ==> !((#[trigger] latest@[j]).name@ == name@ && latest@[j].version
                    == desired.version),
        decreases latest@.len() - i,
    {
        if latest[i].name.same(name) && latest[i].version == desired.version {
            assert(latest@[i as int].name@ == name@);
            return true;
        }
        i = i + 1;
    }
    false
}

/// Goes on with a desired filesystem.
fn resume_desired(
    revision: ResourceRevision,
    work: Work,
    desired: DesiredFilesystem,
    at: DesiredStage,
    reply: Reply,
    clock: Clock,
) -> (step: Step)
    ensures
        step@ == resumed_desired(revision, work, desired, at, reply, clock),
{
    match (at, reply) {
        (DesiredStage::CheckingNamespace, Reply::Serving(serving)) => {
            if namespace_ready(&serving, desired.revision) {
                proceed(revision, work, desired)
            } else {
                ask(
                    revision,
                    work,
                    desired,
                    DesiredStage::RecordingWait,
                    Vec::new(),
                    Request::Observe { change: ObservationChange::Waiting },
                )
            }
        },
        (DesiredStage::Probing, Reply::Probed(outcome)) => match outcome {
            ProbeOutcome::InvalidSpec => terminal_failure(
                revision,
                work,
                desired,
                FilesystemFailure::StoredSpecInvalid,
            ),
            ProbeOutcome::Unproved => terminal_failure(
                revision,
                work,
                desired,
                FilesystemFailure::IdentityConflict,
            ),
            ProbeOutcome::Absent => clear_observed(revision, work, desired),
            ProbeOutcome::Present(confirmed) => {
                let spec = clone_spec(&work.instance.observed_spec);
                let instance = work.instance.runtime_instance.clone();
                match (spec, instance) {
                    (Some(spec), Some(runtime_instance)) => {
                        let restart = work.action.is_some() || work.instance.observed_version
                            != Some(desired.version);
                        if !restart && confirmed.is_running() {
                            ask(
                                revision,
                                work,
                                desired,
                                DesiredStage::AwaitingRetained,
                                Vec::new(),
                                Request::AwaitRetainedSession { spec, runtime_instance },
                            )
                        } else {
                            ask(
                                revision,
                                work,
                                desired,
                                DesiredStage::RecordingStop { confirmed },
                                Vec::new(),
                                Request::Observe { change: ObservationChange::Stopping },
                            )
                        }
                    },
                    _ => unanswer(
                        FilesystemPass {
                            revision,
                            work,
                            stage: Stage::Desired { desired, at: DesiredStage::Probing },
                        },
                    ),
                }
            },
        },
        (DesiredStage::AwaitingRetained, Reply::Session(session)) => match session {
            ConfirmedSession::Attached => ask(
                revision,
                work,
                desired,
                DesiredStage::RecordingReady,
                Vec::new(),
                Request::Observe { change: ObservationChange::Ready },
            ),
            ConfirmedSession::Absent => clear_observed(revision, work, desired),
            ConfirmedSession::Stopped(confirmed) => stop_observed(
                revision,
                work,
                desired,
                confirmed,
                Vec::new(),
            ),
            ConfirmedSession::TimedOut(confirmed) => stop_observed(
                revision,
                work,
                desired,
                confirmed,
                Vec::new(),
            ),
        },
        (DesiredStage::StoppingObserved, Reply::Stopped(stopped)) => {
            if stopped {
                clear_observed(revision, work, desired)
            } else {
                retry_or_fail(revision, work, desired, FilesystemFailure::StopFailed, clock)
            }
        },
        (DesiredStage::DrawingInstance, Reply::Drawn(runtime_instance)) => record_start(
            revision,
            work,
            desired,
            runtime_instance,
            Vec::new(),
        ),
        (DesiredStage::Launching { runtime_instance }, Reply::Launched(outcome)) =>
            match outcome {
                LaunchOutcome::InvalidSpec => terminal_failure(
                    revision,
                    work,
                    desired,
                    FilesystemFailure::DesiredSpecInvalid,
                ),
                LaunchOutcome::Failed => retry_or_fail(
                    revision,
                    work,
                    desired,
                    FilesystemFailure::LaunchFailed,
                    clock,
                ),
                LaunchOutcome::Started => {
                    let spec = desired.spec.clone();
                    let instance = runtime_instance.clone();
                    ask(
                        revision,
                        work,
                        desired,
                        DesiredStage::AwaitingSession { runtime_instance },
                        Vec::new(),
                        Request::AwaitSession { spec, runtime_instance: instance },
                    )
                },
            },
        (DesiredStage::AwaitingSession { runtime_instance }, Reply::Attached(attached)) => {
            if attached {
                ask(
                    revision,
                    work,
                    desired,
                    DesiredStage::CheckingCurrent { runtime_instance },
                    Vec::new(),
                    Request::ReadDesired,
                )
            } else {
                retry_or_fail(revision, work, desired, FilesystemFailure::SessionTimeout, clock)
            }
        },
        (DesiredStage::CheckingCurrent { runtime_instance }, Reply::Desired(latest)) => {
            if is_still_desired(&latest, &work.name, &desired) {
                ask(
                    revision,
                    work,
                    desired,
                    DesiredStage::RecordingReady,
                    Vec::new(),
                    Request::Observe { change: ObservationChange::Ready },
                )
            } else {
                let spec = desired.spec.clone();
                let instance = runtime_instance.clone();
                ask(
                    revision,
                    work,
                    desired,
                    DesiredStage::ProbingSuperseded { runtime_instance },
                    Vec::new(),
                    Request::Probe { spec, runtime_instance: instance },
                )
            }
        },
        (DesiredStage::ProbingSuperseded { runtime_instance }, Reply::Probed(outcome)) =>
            match outcome {
                ProbeOutcome::Present(confirmed) => {
                    let spec = desired.spec.clone();
                    ask(
                        revision,
                        work,
                        desired,
                        DesiredStage::StoppingSuperseded,
                        Vec::new(),
                        Request::StopExact { spec, runtime_instance, confirmed },
                    )
                },
                _ => finish(revision, work, Vec::new(), WorkOutcome::Done),
            },
        (DesiredStage::StoppingSuperseded, Reply::Stopped(_)) => finish(
            revision,
            work,
            Vec::new(),
            WorkOutcome::Done,
        ),
        (DesiredStage::MarkingReady, Reply::Terminal(terminal)) => {
            let notices = announce(terminal, desired.revision);
            if revision != desired.revision {
                ask(
                    revision,
                    work,
                    desired,
                    DesiredStage::MarkingCurrentReady,
                    notices,
                    Request::MarkReady { revision },
                )
            } else {
                complete_action(revision, work, desired, notices)
            }
        },
        (DesiredStage::MarkingCurrentReady, Reply::Terminal(terminal)) => complete_action(
            revision,
            work,
            desired,
            announce(terminal, revision),
        ),
        (DesiredStage::CompletingAction, Reply::Action(receipt)) => finish(
            revision,
            work,
            one(Notice::ActionCompleted { receipt }),
            WorkOutcome::Done,
        ),
        (DesiredStage::RetryingAction { failure, delay }, Reply::Action(receipt)) => {
            let now = act(work, receipt);
            publish_retry(revision, now, failure, delay, clock)
        },
        (DesiredStage::FailingAction { failure }, Reply::Action(receipt)) => finish(
            revision,
            work,
            one(Notice::ActionFailed { receipt, failure }),
            WorkOutcome::Done,
        ),
        (at, Reply::Observed(observed)) => match observed {
            None => match at {
                DesiredStage::RecordingWait
                | DesiredStage::RecordingReady
                | DesiredStage::RecordingStop { .. }
                | DesiredStage::Clearing
                | DesiredStage::RecordingStart { .. }
                | DesiredStage::RecordingRetry { .. }
                | DesiredStage::RecordingFailure { .. } => finish(
                    revision,
                    work,
                    Vec::new(),
                    WorkOutcome::Done,
                ),
                at => unanswer(
                    FilesystemPass { revision, work, stage: Stage::Desired { desired, at } },
                ),
            },
            Some(instance) => record_desired(revision, work, desired, at, instance, clock),
        },
        (at, _) => unanswer(FilesystemPass { revision, work, stage: Stage::Desired { desired, at } }),
    }
}

fn act(work: Work, receipt: ActionReceipt) -> (now: Work)
    ensures
        now == acted(work, receipt),
{
    Work { name: work.name, instance: work.instance, action: Some(receipt), retry_count: work.retry_count }
}

fn grant(work: Work, instance: FilesystemInstance) -> (now: Work)
    ensures
        now == granted(work, instance),
{
    Work { name: work.name, instance, action: work.action, retry_count: work.retry_count }
}

/// Goes on with a desired filesystem whose record was granted.
fn record_desired(
    revision: ResourceRevision,
    work: Work,
    desired: DesiredFilesystem,
    at: DesiredStage,
    instance: FilesystemInstance,
    clock: Clock,
) -> (step: Step)
    ensures
        step@ == recorded_desired(revision, work, desired, at, instance, clock),
{
    let retry_count: u32 = work.retry_count;
    match at {
        DesiredStage::RecordingWait => finish(
            revision,
            grant(work, instance),
            two(
                mark_phase(revision, ResourcePhase::Pending, None),
                publish_phase(FilesystemProgressStage::WaitingForNamespace, retry_count),
            ),
            WorkOutcome::Done,
        ),
        DesiredStage::RecordingReady => finish_ready(revision, grant(work, instance), desired),
        DesiredStage::RecordingStop { confirmed } => {
            let notices = two(
                mark_phase(revision, ResourcePhase::Preparing, None),
                publish_phase(FilesystemProgressStage::Stopping, retry_count),
            );
            let spec = clone_spec(&work.instance.observed_spec);
            let recorded = work.instance.runtime_instance.clone();
            match (spec, recorded) {
                (Some(spec), Some(runtime_instance)) => ask(
                    revision,
                    grant(work, instance),
                    desired,
                    DesiredStage::StoppingObserved,
                    notices,
                    Request::StopExact { spec, runtime_instance, confirmed },
                ),
                _ => finish(revision, grant(work, instance), notices, WorkOutcome::Done),
            }
        },
        DesiredStage::Clearing => prepare_launch(
            revision,
            grant(work, instance),
            desired,
            one(mark_phase(revision, ResourcePhase::Pending, None)),
        ),
        DesiredStage::RecordingStart { runtime_instance } => {
            let spec = desired.spec.clone();
            let launched = runtime_instance.clone();
            ask(
                revision,
                grant(work, instance),
                desired,
                DesiredStage::Launching { runtime_instance },
                two(
                    mark_phase(revision, ResourcePhase::Preparing, None),
                    publish_phase(FilesystemProgressStage::Starting, retry_count),
                ),
                Request::Launch { spec, runtime_instance: launched },
            )
        },
        DesiredStage::RecordingRetry { failure, delay } => {
            let now = grant(work, instance);
            match &now.action {
                Some(action) => {
                    let action: ActionId = action.action_id;
                    ask(
                        revision,
                        now,
                        desired,
                        DesiredStage::RetryingAction { failure, delay },
                        Vec::new(),
                        Request::TransitionAction {
                            action,
                            phase: ActionPhase::Retrying,
                            failure: None,
                        },
                    )
                },
                None => publish_retry(revision, now, failure, delay, clock),
            }
        },
        DesiredStage::RecordingFailure { failure } => {
            let notices = three(
                Notice::PublishPhase {
                    stage: FilesystemProgressStage::Failed,
                    retry_count,
                    failure: Some(failure),
                    next_retry_unix_ms: None,
                },
                mark_phase(revision, ResourcePhase::Failed, Some(failure)),
                Notice::RevisionFailed { revision: desired.revision, failure },
            );
            let now = grant(work, instance);
            match &now.action {
                Some(action) => {
                    let action: ActionId = action.action_id;
                    ask(
                        revision,
                        now,
                        desired,
                        DesiredStage::FailingAction { failure },
                        notices,
                        Request::TransitionAction {
                            action,
                            phase: ActionPhase::Failed,
                            failure: Some(failure),
                        },
                    )
                },
                None => finish(revision, now, notices, WorkOutcome::Done),
            }
        },
        at => unanswer(FilesystemPass { revision, work, stage: Stage::Desired { desired, at } }),
    }
}

fn record_deletion(revision: ResourceRevision, work: Work, notices: Vec<Notice>) -> (step: Step)
    ensures
        step@ == records_deletion(revision, work, notices@),
{
    ask_deleting(
        revision,
        work,
        DeletionStage::Recording,
        notices,
        Request::Observe { change: ObservationChange::Deleting },
    )
}

/// Begins the removal of a filesystem.
pub fn reconcile_deletion(revision: ResourceRevision, work: Work) -> (step: Step)
    ensures
        step@ == begins_deletion(revision, work),
{
    match &work.action {
        Some(action) => {
            let action: ActionId = action.action_id;
            ask_deleting(
                revision,
                work,
                DeletionStage::FailingAction,
                Vec::new(),
                Request::TransitionAction {
                    action,
                    phase: ActionPhase::Failed,
                    failure: Some(FilesystemFailure::Deleted),
                },
            )
        },
        None => record_deletion(revision, work, Vec::new()),
    }
}

/// Schedules another try of a removal.
pub fn retry_deleted(
    revision: ResourceRevision,
    work: Work,
    failure: FilesystemFailure,
    clock: Clock,
) -> (step: Step)
    ensures
        step@ == retries_deletion(revision, work, failure, clock),
{
    let at: i64 = add_held_seconds(clock.unix_seconds, 1);
    ask_deleting(
        revision,
        work,
        DeletionStage::RecordingRetry,
        Vec::new(),
        Request::Observe { change: ObservationChange::Retrying { at, failure } },
    )
}

fn clear_instance(revision: ResourceRevision, work: Work, notices: Vec<Notice>) -> (step: Step)
    ensures
        step@ == clears_instance(revision, work, notices@),
{
    let runtime_instance = work.instance.runtime_instance.clone();
    ask_deleting(
        revision,
        work,
        DeletionStage::ClearingInstance,
        notices,
        Request::ClearInstance { runtime_instance },
    )
}

/// Goes on with a removed filesystem whose record was asked for.
fn deletion_recorded(
    revision: ResourceRevision,
    work: Work,
    at: DeletionStage,
    observed: Option<FilesystemInstance>,
    clock: Clock,
) -> (step: Step)
    ensures
        step@ == resumed_deleting(revision, work, at, Reply::Observed(observed), clock),
{
    match (at, observed) {
        (DeletionStage::Recording, None) => finish(
            revision,
            work,
            Vec::new(),
            WorkOutcome::Done,
        ),
        (DeletionStage::Recording, Some(instance)) => {
            let spec = clone_spec(&instance.observed_spec);
            let recorded = instance.runtime_instance.clone();
            let now = grant(work, instance);
            match (spec, recorded) {
                (Some(spec), Some(runtime_instance)) => ask_deleting(
                    revision,
                    now,
                    DeletionStage::Probing,
                    one(Notice::PublishDeletion),
                    Request::Probe { spec, runtime_instance },
                ),
                _ => clear_instance(revision, now, one(Notice::PublishDeletion)),
            }
        },
        (DeletionStage::RecordingRetry, None) => finish(
            revision,
            work,
            Vec::new(),
            WorkOutcome::Done,
        ),
        (DeletionStage::RecordingRetry, Some(instance)) => finish(
            revision,
            grant(work, instance),
            one(Notice::PublishDeletion),
            WorkOutcome::Retry,
        ),
        (DeletionStage::RecordingFailure { failure: _ }, None) => finish(
            revision,
            work,
            Vec::new(),
            WorkOutcome::Done,
        ),
        (DeletionStage::RecordingFailure { failure }, Some(instance)) => finish(
            revision,
            grant(work, instance),
            two(
                mark_phase(revision, ResourcePhase::Failed, Some(failure)),
                Notice::RevisionFailed { revision, failure },
            ),
            WorkOutcome::Done,
        ),
        (at, _) => unanswer(FilesystemPass { revision, work, stage: Stage::Deleting { at } }),
    }
}

/// Goes on with a removed filesystem whose runtime was probed.
fn deletion_probed(
    revision: ResourceRevision,
    work: Work,
    at: DeletionStage,
    outcome: ProbeOutcome,
    clock: Clock,
) -> (step: Step)
    ensures
        step@ == resumed_deleting(revision, work, at, Reply::Probed(outcome), clock),
{
    let spec = clone_spec(&work.instance.observed_spec);
    let recorded = work.instance.runtime_instance.clone();
    match (at, outcome) {
        (DeletionStage::Probing, outcome) => match (spec, recorded) {
            (Some(spec), Some(runtime_instance)) => match outcome {
                ProbeOutcome::InvalidSpec => retry_deleted(
                    revision,
                    work,
                    FilesystemFailure::DeleteSpecInvalid,
                    clock,
                ),
                ProbeOutcome::Unproved => {
                    let failure = FilesystemFailure::DeleteIdentityConflict;
                    ask_deleting(
                        revision,
                        work,
                        DeletionStage::RecordingFailure { failure },
                        Vec::new(),
                        Request::Observe { change: ObservationChange::Failed { failure } },
                    )
                },
                ProbeOutcome::Present(confirmed) => ask_deleting(
                    revision,
                    work,
                    DeletionStage::Stopping,
                    Vec::new(),
                    Request::StopExact { spec, runtime_instance, confirmed },
                ),
                ProbeOutcome::Absent => ask_deleting(
                    revision,
                    work,
                    DeletionStage::AwaitingAbsence,
                    Vec::new(),
                    Request::AwaitSessionAbsence { runtime_instance },
                ),
            },
            _ => unanswer(FilesystemPass { revision, work, stage: Stage::Deleting { at } }),
        },
        (DeletionStage::ProvingAbsence, outcome) => match outcome {
            ProbeOutcome::Absent => clear_instance(revision, work, Vec::new()),
            ProbeOutcome::Present(_) => retry_deleted(
                revision,
                work,
                FilesystemFailure::DeleteIncomplete,
                clock,
            ),
            ProbeOutcome::InvalidSpec => retry_deleted(
                revision,
                work,
                FilesystemFailure::DeleteProbeFailed,
                clock,
            ),
            ProbeOutcome::Unproved => retry_deleted(
                revision,
                work,
                FilesystemFailure::DeleteProbeFailed,
                clock,
            ),
        },
        (at, _) => unanswer(FilesystemPass { revision, work, stage: Stage::Deleting { at } }),
    }
}

/// Goes on with a removed filesystem.
fn resume_deleting(
    revision: ResourceRevision,
    work: Work,
    at: DeletionStage,
    reply: Reply,
    clock: Clock,
) -> (step: Step)
    ensures
        step@ == resumed_deleting(revision, work, at, reply, clock),
{
    let spec = clone_spec(&work.instance.observed_spec);
    let recorded = work.instance.runtime_instance.clone();
    match (at, reply) {
        (at, Reply::Observed(observed)) => deletion_recorded(revision, work, at, observed, clock),
        (at, Reply::Probed(outcome)) => deletion_probed(revision, work, at, outcome, clock),
        (DeletionStage::FailingAction, Reply::Action(receipt)) => {
            let notices = one(
                Notice::ActionFailed {
                    receipt: receipt.clone(),
                    failure: FilesystemFailure::Deleted,
                },
            );
            record_deletion(revision, act(work, receipt), notices)
        },
        (DeletionStage::Stopping, Reply::Stopped(stopped)) => match (stopped, recorded) {
            (true, Some(runtime_instance)) => ask_deleting(
                revision,
                work,
                DeletionStage::AwaitingAbsence,
                Vec::new(),
                Request::AwaitSessionAbsence { runtime_instance },
            ),
            (true, None) => unanswer(FilesystemPass { revision, work, stage: Stage::Deleting { at } }),
            (false, _) => retry_deleted(revision, work, FilesystemFailure::DeleteStopFailed, clock),
        },
        (DeletionStage::AwaitingAbsence, Reply::Drained(drained)) => match (drained, spec, recorded) {
            (true, Some(spec), Some(runtime_instance)) => ask_deleting(
                revision,
                work,
                DeletionStage::ProvingAbsence,
                Vec::new(),
                Request::Probe { spec, runtime_instance },
            ),
            (true, _, _) => unanswer(
                FilesystemPass { revision, work, stage: Stage::Deleting { at } },
            ),
            (false, _, _) => retry_deleted(
                revision,
                work,
                FilesystemFailure::DeleteSessionDrainFailed,
                clock,
            ),
        },
        (DeletionStage::ClearingInstance, Reply::Cleared(cleared)) => {
            if cleared {
                ask_deleting(
                    revision,
                    work,
                    DeletionStage::ClearingDeleted,
                    Vec::new(),
                    Request::ClearDeleted { revision },
                )
            } else {
                finish(revision, work, Vec::new(), WorkOutcome::Done)
            }
        },
        (DeletionStage::ClearingDeleted, Reply::Terminal(terminal)) => finish(
            revision,
            work,
            announce(terminal, revision),
            WorkOutcome::Done,
        ),
        (at, _) => unanswer(FilesystemPass { revision, work, stage: Stage::Deleting { at } }),
    }
}

fn start(revision: ResourceRevision, work: Work, desired: Option<DesiredFilesystem>) -> (step: Step)
    ensures
        step@ == started(revision, work, desired),
{
    match desired {
        None => reconcile_deletion(revision, work),
        Some(desired) => {
            if work.instance.phase == FilesystemPhase::Failed && work.instance.observed_version
                == Some(desired.version) && work.action.is_none() {
                finish(revision, work, Vec::new(), WorkOutcome::Done)
            } else {
                ask(
                    revision,
                    work,
                    desired,
                    DesiredStage::CheckingNamespace,
                    Vec::new(),
                    Request::ReadServing,
                )
            }
        },
    }
}

impl FilesystemPass {
    /// Begins a pass.
    pub fn begin(revision: ResourceRevision, work: Work, desired: Option<DesiredFilesystem>) -> (step: Step)
        ensures
            step@ == Self::begun(revision, work, desired),
    {
        let waiting: Option<ActionId> = match &work.action {
            Some(action) => if action.phase != ActionPhase::Running {
                Some(action.action_id)
            } else {
                None
            },
            None => None,
        };
        match waiting {
            Some(action) => Step {
                pass: FilesystemPass { revision, work, stage: Stage::StartingAction { desired } },
                notices: Vec::new(),
                next: Next::Ask(
                    Request::TransitionAction {
                        action,
                        phase: ActionPhase::Running,
                        failure: None,
                    },
                ),
            },
            None => start(revision, work, desired),
        }
    }

    /// Resumes a pass with what came of its request.
    pub fn resume(self, reply: Reply, clock: Clock) -> (step: Step)
        ensures
            step@ == self.resumed(reply, clock),
    {
        match self.stage {
            Stage::StartingAction { desired } => match reply {
                Reply::Action(receipt) => start(self.revision, act(self.work, receipt), desired),
                _ => unanswer(
                    FilesystemPass {
                        revision: self.revision,
                        work: self.work,
                        stage: Stage::StartingAction { desired },
                    },
                ),
            },
            Stage::Desired { desired, at } => resume_desired(
                self.revision,
                self.work,
                desired,
                at,
                reply,
                clock,
            ),
            Stage::Deleting { at } => resume_deleting(self.revision, self.work, at, reply, clock),
            Stage::Finished => unanswer(
                FilesystemPass { revision: self.revision, work: self.work, stage: Stage::Finished },
            ),
        }
    }
}

} // verus!
