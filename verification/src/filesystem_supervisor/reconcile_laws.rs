//! How a pass brings one filesystem to what is declared of it: which answer of
//! the outside world calls for which effect.
use crate::filesystem_supervisor::pass::{
    Clock, ConfirmedSession, DeletionStage, DesiredStage, FilesystemPass, LaunchOutcome, Next,
    Notice, ProbeOutcome, Reply, Request, Stage, StepView, Work, WorkOutcome,
};
use crate::filesystem_supervisor::{
    DesiredFilesystem, FilesystemFailure, FilesystemInstance, FilesystemPhase, ObservationChange,
};
use crate::fs_runtime::driver::ConfirmedRuntime;
use crate::name::{FilesystemSpec, ResourceRevision};
use crate::records::{
    ActionPhase, ActionReceipt, FilesystemProgressStage, ResourcePhase, ServingProgress,
    ServingProgressStage,
};
use vstd::prelude::*;

verus! {

/// A step that asks for an effect at a stage toward a desired filesystem.
pub open spec fn asks_at(step: StepView, desired: DesiredFilesystem, at: DesiredStage, request: Request) -> bool {
    step.next == Next::Ask(request) && step.pass.stage == (Stage::Desired { desired, at })
}

/// A step that asks for an effect at a stage toward a removed filesystem.
pub open spec fn asks_removing(step: StepView, at: DeletionStage, request: Request) -> bool {
    step.next == Next::Ask(request) && step.pass.stage == (Stage::Deleting { at })
}

/// A running runtime of the declared version is kept while no action asks for
/// another; in every other case it is replaced, and the first step to that is the
/// record that it stops.
pub proof fn a_runtime_is_kept_only_if_nothing_asks_for_another(
    pass: FilesystemPass,
    desired: DesiredFilesystem,
    spec: FilesystemSpec,
    runtime_instance: String,
    confirmed: ConfirmedRuntime,
    clock: Clock,
)
    requires
        pass.stage == (Stage::Desired { desired, at: DesiredStage::Probing }),
        pass.work.instance.observed_spec == Some(spec),
        pass.work.instance.runtime_instance == Some(runtime_instance),
    ensures
        ({
            let step = pass.resumed(Reply::Probed(ProbeOutcome::Present(confirmed)), clock);
            let keeps = step.next == Next::Ask(
                Request::AwaitRetainedSession { spec, runtime_instance },
            ) && step.pass.stage == (Stage::Desired { desired, at: DesiredStage::AwaitingRetained });
            let replaces = step.next == Next::Ask(
                Request::Observe { change: ObservationChange::Stopping },
            ) && step.pass.stage == (Stage::Desired {
                desired,
                at: DesiredStage::RecordingStop { confirmed },
            });
            let runs = match confirmed {
                ConfirmedRuntime::Host(_) => true,
                ConfirmedRuntime::Docker(_, running) => running,
                ConfirmedRuntime::Libkrun(_, running) => running,
            };
            &&& pass.work.action is Some ==> replaces
            &&& pass.work.instance.observed_version != Some(desired.version) ==> replaces
            &&& !runs ==> replaces
            &&& pass.work.action is None && pass.work.instance.observed_version == Some(
                desired.version,
            ) && runs ==> keeps
        }),
{
}

/// A kept runtime counts once its session is back. One that stopped, that does not
/// attach in time, or that is gone makes room for another.
pub proof fn a_kept_runtime_must_serve(
    pass: FilesystemPass,
    desired: DesiredFilesystem,
    spec: FilesystemSpec,
    runtime_instance: String,
    confirmed: ConfirmedRuntime,
    clock: Clock,
)
    requires
        pass.stage == (Stage::Desired { desired, at: DesiredStage::AwaitingRetained }),
        pass.work.instance.observed_spec == Some(spec),
        pass.work.instance.runtime_instance == Some(runtime_instance),
    ensures
        asks_at(
            pass.resumed(Reply::Session(ConfirmedSession::Attached), clock),
            desired,
            DesiredStage::RecordingReady,
            Request::Observe { change: ObservationChange::Ready },
        ),
        asks_at(
            pass.resumed(Reply::Session(ConfirmedSession::Absent), clock),
            desired,
            DesiredStage::Clearing,
            Request::Observe { change: ObservationChange::Cleared },
        ),
        asks_at(
            pass.resumed(Reply::Session(ConfirmedSession::Stopped(confirmed)), clock),
            desired,
            DesiredStage::StoppingObserved,
            Request::StopExact { spec, runtime_instance, confirmed },
        ),
        asks_at(
            pass.resumed(Reply::Session(ConfirmedSession::TimedOut(confirmed)), clock),
            desired,
            DesiredStage::StoppingObserved,
            Request::StopExact { spec, runtime_instance, confirmed },
        ),
{
}

/// A runtime that is replaced is stopped exactly as it was recorded and proved, and
/// its record is cleared only once it is gone.
pub proof fn a_replaced_runtime_is_stopped_and_cleared(
    pass: FilesystemPass,
    desired: DesiredFilesystem,
    spec: FilesystemSpec,
    runtime_instance: String,
    confirmed: ConfirmedRuntime,
    instance: FilesystemInstance,
    clock: Clock,
)
    requires
        pass.work.instance.observed_spec == Some(spec),
        pass.work.instance.runtime_instance == Some(runtime_instance),
    ensures
        pass.stage == (Stage::Desired { desired, at: DesiredStage::RecordingStop { confirmed } })
            ==> asks_at(
            pass.resumed(Reply::Observed(Some(instance)), clock),
            desired,
            DesiredStage::StoppingObserved,
            Request::StopExact { spec, runtime_instance, confirmed },
        ),
        pass.stage == (Stage::Desired { desired, at: DesiredStage::StoppingObserved }) ==> asks_at(
            pass.resumed(Reply::Stopped(true), clock),
            desired,
            DesiredStage::Clearing,
            Request::Observe { change: ObservationChange::Cleared },
        ),
        pass.stage == (Stage::Desired { desired, at: DesiredStage::Probing }) ==> asks_at(
            pass.resumed(Reply::Probed(ProbeOutcome::Absent), clock),
            desired,
            DesiredStage::Clearing,
            Request::Observe { change: ObservationChange::Cleared },
        ),
{
}

/// A runtime that cannot be driven, or whose identity cannot be proved, is given up
/// with what is wrong.
pub proof fn an_unusable_record_is_given_up(
    pass: FilesystemPass,
    desired: DesiredFilesystem,
    clock: Clock,
)
    requires
        pass.stage == (Stage::Desired { desired, at: DesiredStage::Probing }),
    ensures
        asks_at(
            pass.resumed(Reply::Probed(ProbeOutcome::InvalidSpec), clock),
            desired,
            DesiredStage::RecordingFailure { failure: FilesystemFailure::StoredSpecInvalid },
            Request::Observe {
                change: ObservationChange::Failed { failure: FilesystemFailure::StoredSpecInvalid },
            },
        ),
        asks_at(
            pass.resumed(Reply::Probed(ProbeOutcome::Unproved), clock),
            desired,
            DesiredStage::RecordingFailure { failure: FilesystemFailure::IdentityConflict },
            Request::Observe {
                change: ObservationChange::Failed { failure: FilesystemFailure::IdentityConflict },
            },
        ),
{
}

/// A filesystem waits until its revision, or a later one, is served: published and
/// ready, or published while older requests drain. From then on a recorded runtime
/// is probed under its recorded identity, and where none is recorded one is
/// launched.
pub proof fn a_filesystem_waits_for_its_namespace(
    pass: FilesystemPass,
    desired: DesiredFilesystem,
    serving: Option<ServingProgress>,
    clock: Clock,
)
    requires
        pass.stage == (Stage::Desired { desired, at: DesiredStage::CheckingNamespace }),
    ensures
        ({
            let step = pass.resumed(Reply::Serving(serving), clock);
            let served = serving matches Some(progress) && progress.revision.value
                >= desired.revision.value && (progress.stage == ServingProgressStage::Ready
                || progress.stage == ServingProgressStage::Draining || progress.stage
                == ServingProgressStage::Degraded);
            let instance = pass.work.instance;
            &&& !served ==> asks_at(
                step,
                desired,
                DesiredStage::RecordingWait,
                Request::Observe { change: ObservationChange::Waiting },
            )
            &&& served ==> (match (instance.observed_spec, instance.runtime_instance) {
                (Some(spec), Some(runtime_instance)) => if instance.observed_version is Some {
                    asks_at(
                        step,
                        desired,
                        DesiredStage::Probing,
                        Request::Probe { spec, runtime_instance },
                    )
                } else {
                    step.next is Abort
                },
                (None, Some(runtime_instance)) => asks_at(
                    step,
                    desired,
                    DesiredStage::RecordingStart { runtime_instance },
                    Request::Observe {
                        change: ObservationChange::Starting {
                            version: desired.version,
                            spec: desired.spec,
                            runtime_instance,
                        },
                    },
                ),
                (_, None) => asks_at(
                    step,
                    desired,
                    DesiredStage::DrawingInstance,
                    Request::DrawInstance,
                ),
            })
        }),
{
}

/// A cleared record goes on under an instance that is still recorded, or under one that
/// is drawn for it.
pub proof fn a_cleared_record_is_followed_by_an_instance(
    pass: FilesystemPass,
    desired: DesiredFilesystem,
    instance: FilesystemInstance,
    runtime_instance: String,
    clock: Clock,
)
    ensures
        pass.stage == (Stage::Desired { desired, at: DesiredStage::Clearing })
            && instance.runtime_instance is None ==> asks_at(
            pass.resumed(Reply::Observed(Some(instance)), clock),
            desired,
            DesiredStage::DrawingInstance,
            Request::DrawInstance,
        ),
        pass.stage == (Stage::Desired { desired, at: DesiredStage::Clearing })
            && instance.runtime_instance == Some(runtime_instance) ==> asks_at(
            pass.resumed(Reply::Observed(Some(instance)), clock),
            desired,
            DesiredStage::RecordingStart { runtime_instance },
            Request::Observe {
                change: ObservationChange::Starting {
                    version: desired.version,
                    spec: desired.spec,
                    runtime_instance,
                },
            },
        ),
{
}

/// An instance that was drawn is recorded, with what is declared, before anything is
/// launched under it.
pub proof fn a_drawn_instance_is_recorded_before_its_launch(
    pass: FilesystemPass,
    desired: DesiredFilesystem,
    runtime_instance: String,
    clock: Clock,
)
    ensures
        pass.stage == (Stage::Desired { desired, at: DesiredStage::DrawingInstance }) ==> asks_at(
            pass.resumed(Reply::Drawn(runtime_instance), clock),
            desired,
            DesiredStage::RecordingStart { runtime_instance },
            Request::Observe {
                change: ObservationChange::Starting {
                    version: desired.version,
                    spec: desired.spec,
                    runtime_instance,
                },
            },
        ),
{
}

/// What was recorded is launched, as it is declared and under the recorded instance.
pub proof fn a_recorded_start_is_followed_by_its_launch(
    pass: FilesystemPass,
    desired: DesiredFilesystem,
    instance: FilesystemInstance,
    runtime_instance: String,
    clock: Clock,
)
    ensures
        pass.stage == (Stage::Desired {
            desired,
            at: DesiredStage::RecordingStart { runtime_instance },
        }) ==> asks_at(
            pass.resumed(Reply::Observed(Some(instance)), clock),
            desired,
            DesiredStage::Launching { runtime_instance },
            Request::Launch { spec: desired.spec, runtime_instance },
        ),
{
}

/// A launched runtime is waited for until exactly it serves, and then what is declared
/// is looked at again.
pub proof fn a_launched_runtime_has_to_serve(
    pass: FilesystemPass,
    desired: DesiredFilesystem,
    runtime_instance: String,
    clock: Clock,
)
    ensures
        pass.stage == (Stage::Desired {
            desired,
            at: DesiredStage::Launching { runtime_instance },
        }) ==> asks_at(
            pass.resumed(Reply::Launched(LaunchOutcome::Started), clock),
            desired,
            DesiredStage::AwaitingSession { runtime_instance },
            Request::AwaitSession { spec: desired.spec, runtime_instance },
        ),
        pass.stage == (Stage::Desired {
            desired,
            at: DesiredStage::AwaitingSession { runtime_instance },
        }) ==> asks_at(
            pass.resumed(Reply::Attached(true), clock),
            desired,
            DesiredStage::CheckingCurrent { runtime_instance },
            Request::ReadDesired,
        ),
{
}

/// A launched runtime counts only while exactly its version is still declared under
/// its name; one that was overtaken meanwhile is looked for.
pub proof fn a_launch_counts_only_while_it_is_declared(
    pass: FilesystemPass,
    desired: DesiredFilesystem,
    runtime_instance: String,
    latest: Vec<DesiredFilesystem>,
    clock: Clock,
)
    ensures
        pass.stage == (Stage::Desired {
            desired,
            at: DesiredStage::CheckingCurrent { runtime_instance },
        }) ==> ({
            let step = pass.resumed(Reply::Desired(latest), clock);
            &&& (exists|i: int|
                0 <= i < latest@.len() && (#[trigger] latest@[i]).name@ == pass.work.name@
                    && latest@[i].version == desired.version) ==> asks_at(
                step,
                desired,
                DesiredStage::RecordingReady,
                Request::Observe { change: ObservationChange::Ready },
            )
            &&& (forall|i: int|
                0 <= i < latest@.len() && (#[trigger] latest@[i]).name@ == pass.work.name@
                    ==> latest@[i].version != desired.version) ==> asks_at(
                step,
                desired,
                DesiredStage::ProbingSuperseded { runtime_instance },
                Request::Probe { spec: desired.spec, runtime_instance },
            )
        }),
{
}

/// An overtaken runtime that is there is stopped, and the pass ends.
pub proof fn an_overtaken_launch_is_stopped(
    pass: FilesystemPass,
    desired: DesiredFilesystem,
    runtime_instance: String,
    confirmed: ConfirmedRuntime,
    clock: Clock,
)
    ensures
        pass.stage == (Stage::Desired {
            desired,
            at: DesiredStage::ProbingSuperseded { runtime_instance },
        }) ==> asks_at(
            pass.resumed(Reply::Probed(ProbeOutcome::Present(confirmed)), clock),
            desired,
            DesiredStage::StoppingSuperseded,
            Request::StopExact { spec: desired.spec, runtime_instance, confirmed },
        ) && pass.resumed(Reply::Probed(ProbeOutcome::Absent), clock).next == Next::Finish(
            WorkOutcome::Done,
        ),
        pass.stage == (Stage::Desired { desired, at: DesiredStage::StoppingSuperseded }) ==> forall|
            stopped: bool|
            (#[trigger] pass.resumed(Reply::Stopped(stopped), clock)).next == Next::Finish(
                WorkOutcome::Done,
            ),
{
}

/// A ready filesystem is shown ready and marked so in the revision that declares it.
pub proof fn a_ready_filesystem_is_marked(
    pass: FilesystemPass,
    desired: DesiredFilesystem,
    instance: FilesystemInstance,
    clock: Clock,
)
    ensures
        pass.stage == (Stage::Desired { desired, at: DesiredStage::RecordingReady }) ==> ({
            let step = pass.resumed(Reply::Observed(Some(instance)), clock);
            &&& asks_at(
                step,
                desired,
                DesiredStage::MarkingReady,
                Request::MarkReady { revision: desired.revision },
            )
            &&& step.pass.work.instance == instance
            &&& step.notices =~= seq![
                Notice::PublishPhase {
                    stage: FilesystemProgressStage::Ready,
                    retry_count: 0,
                    failure: None,
                    next_retry_unix_ms: None,
                },
            ]
        }),
{
}

/// Where the pass was begun for another revision, a ready filesystem is marked in that
/// one too; a revision is announced exactly where that makes it complete.
pub proof fn a_ready_filesystem_is_marked_where_it_was_asked_for(
    pass: FilesystemPass,
    desired: DesiredFilesystem,
    terminal: bool,
    clock: Clock,
)
    ensures
        pass.stage == (Stage::Desired { desired, at: DesiredStage::MarkingReady }) ==> ({
            let step = pass.resumed(Reply::Terminal(terminal), clock);
            &&& step.notices =~= (if terminal {
                seq![Notice::RevisionReady { revision: desired.revision }]
            } else {
                Seq::<Notice>::empty()
            })
            &&& pass.revision != desired.revision ==> asks_at(
                step,
                desired,
                DesiredStage::MarkingCurrentReady,
                Request::MarkReady { revision: pass.revision },
            )
            &&& pass.revision == desired.revision ==> (match pass.work.action {
                Some(action) => asks_at(
                    step,
                    desired,
                    DesiredStage::CompletingAction,
                    Request::TransitionAction {
                        action: action.action_id,
                        phase: ActionPhase::Ready,
                        failure: None,
                    },
                ),
                None => step.next == Next::Finish(WorkOutcome::Done),
            })
        }),
{
}

/// What asked for a filesystem is completed after it is marked, and the revision that
/// is complete with it is announced.
pub proof fn a_marked_filesystem_is_announced(
    pass: FilesystemPass,
    desired: DesiredFilesystem,
    terminal: bool,
    clock: Clock,
)
    ensures
        pass.stage == (Stage::Desired { desired, at: DesiredStage::MarkingCurrentReady }) ==> ({
            let step = pass.resumed(Reply::Terminal(terminal), clock);
            &&& step.notices =~= (if terminal {
                seq![Notice::RevisionReady { revision: pass.revision }]
            } else {
                Seq::<Notice>::empty()
            })
            &&& (match pass.work.action {
                Some(action) => asks_at(
                    step,
                    desired,
                    DesiredStage::CompletingAction,
                    Request::TransitionAction {
                        action: action.action_id,
                        phase: ActionPhase::Ready,
                        failure: None,
                    },
                ),
                None => step.next == Next::Finish(WorkOutcome::Done),
            })
        }),
{
}

/// A restart is told as completed, and the pass ends with it.
pub proof fn a_completed_restart_is_told(
    pass: FilesystemPass,
    desired: DesiredFilesystem,
    receipt: ActionReceipt,
    clock: Clock,
)
    ensures
        pass.stage == (Stage::Desired { desired, at: DesiredStage::CompletingAction }) ==> ({
            let step = pass.resumed(Reply::Action(receipt), clock);
            step.next == Next::Finish(WorkOutcome::Done) && step.notices =~= seq![
                Notice::ActionCompleted { receipt },
            ]
        }),
{
}

/// A failed stop, launch or session is tried again, up to four times: the first
/// three tries wait one second in the record and 250, 500 and 1000 milliseconds to
/// be shown, the fourth two seconds and 2000 milliseconds. The fifth failure is
/// final.
#[verifier::rlimit(40)]
pub proof fn a_failed_start_is_tried_again_four_times(
    pass: FilesystemPass,
    desired: DesiredFilesystem,
    runtime_instance: String,
    reply: Reply,
    failure: FilesystemFailure,
    clock: Clock,
)
    requires
        clock.unix_seconds + 2 <= i64::MAX,
        ({
            ||| pass.stage == (Stage::Desired { desired, at: DesiredStage::StoppingObserved }) && reply
                == Reply::Stopped(false) && failure == FilesystemFailure::StopFailed
            ||| pass.stage == (Stage::Desired {
                desired,
                at: DesiredStage::Launching { runtime_instance },
            }) && reply == Reply::Launched(LaunchOutcome::Failed) && failure
                == FilesystemFailure::LaunchFailed
            ||| pass.stage == (Stage::Desired {
                desired,
                at: DesiredStage::AwaitingSession { runtime_instance },
            }) && reply == Reply::Attached(false) && failure == FilesystemFailure::SessionTimeout
        }),
    ensures
        ({
            let step = pass.resumed(reply, clock);
            let count = pass.work.retry_count;
            let millis: u64 = if count == 0 {
                250
            } else if count == 1 {
                500
            } else if count == 2 {
                1000
            } else {
                2000
            };
            let seconds: int = if count == 3 {
                2
            } else {
                1
            };
            &&& count >= 4 ==> asks_at(
                step,
                desired,
                DesiredStage::RecordingFailure { failure },
                Request::Observe { change: ObservationChange::Failed { failure } },
            )
            &&& count < 4 ==> asks_at(
                step,
                desired,
                DesiredStage::RecordingRetry { failure, delay: millis },
                Request::Observe {
                    change: ObservationChange::Retrying {
                        at: (clock.unix_seconds + seconds) as i64,
                        failure,
                    },
                },
            )
        }),
{
    reveal_with_fuel(crate::filesystem_supervisor::doubled, 6);
}

/// A launch that the declaration itself makes impossible is given up at once.
pub proof fn an_impossible_launch_is_given_up(
    pass: FilesystemPass,
    desired: DesiredFilesystem,
    runtime_instance: String,
    clock: Clock,
)
    requires
        pass.stage == (Stage::Desired {
            desired,
            at: DesiredStage::Launching { runtime_instance },
        }),
    ensures
        asks_at(
            pass.resumed(Reply::Launched(LaunchOutcome::InvalidSpec), clock),
            desired,
            DesiredStage::RecordingFailure { failure: FilesystemFailure::DesiredSpecInvalid },
            Request::Observe {
                change: ObservationChange::Failed { failure: FilesystemFailure::DesiredSpecInvalid },
            },
        ),
{
}

/// A recorded retry is shown with its failure and its time, the action that waits
/// for it is moved to retrying first, and the pass asks to be run again.
#[verifier::rlimit(40)]
pub proof fn a_recorded_retry_is_shown(
    pass: FilesystemPass,
    desired: DesiredFilesystem,
    failure: FilesystemFailure,
    delay: u64,
    instance: FilesystemInstance,
    receipt: ActionReceipt,
    clock: Clock,
)
    requires
        clock.unix_millis + delay <= u64::MAX,
        pass.work.retry_count < u32::MAX,
    ensures
        ({
            let shown = seq![
                Notice::PublishPhase {
                    stage: FilesystemProgressStage::Retrying,
                    retry_count: (pass.work.retry_count + 1) as u32,
                    failure: Some(failure),
                    next_retry_unix_ms: Some((clock.unix_millis + delay) as u64),
                },
                Notice::MarkPhase {
                    revision: pass.revision,
                    phase: ResourcePhase::Retrying,
                    failure: Some(failure),
                },
            ];
            &&& pass.stage == (Stage::Desired {
                desired,
                at: DesiredStage::RecordingRetry { failure, delay },
            }) ==> ({
                let step = pass.resumed(Reply::Observed(Some(instance)), clock);
                match pass.work.action {
                    Some(action) => asks_at(
                        step,
                        desired,
                        DesiredStage::RetryingAction { failure, delay },
                        Request::TransitionAction {
                            action: action.action_id,
                            phase: ActionPhase::Retrying,
                            failure: None,
                        },
                    ),
                    None => step.next == Next::Finish(WorkOutcome::Retry) && step.notices =~= shown,
                }
            })
            &&& pass.stage == (Stage::Desired {
                desired,
                at: DesiredStage::RetryingAction { failure, delay },
            }) ==> ({
                let step = pass.resumed(Reply::Action(receipt), clock);
                step.next == Next::Finish(WorkOutcome::Retry) && step.notices =~= shown
            })
        }),
{
}

/// A recorded failure is shown, fails the revision that declares the filesystem, and
/// fails the action that waits for it.
#[verifier::rlimit(40)]
pub proof fn a_recorded_failure_is_shown(
    pass: FilesystemPass,
    desired: DesiredFilesystem,
    failure: FilesystemFailure,
    instance: FilesystemInstance,
    receipt: ActionReceipt,
    clock: Clock,
)
    ensures
        pass.stage == (Stage::Desired {
            desired,
            at: DesiredStage::RecordingFailure { failure },
        }) ==> ({
            let step = pass.resumed(Reply::Observed(Some(instance)), clock);
            &&& step.notices =~= seq![
                Notice::PublishPhase {
                    stage: FilesystemProgressStage::Failed,
                    retry_count: pass.work.retry_count,
                    failure: Some(failure),
                    next_retry_unix_ms: None,
                },
                Notice::MarkPhase {
                    revision: pass.revision,
                    phase: ResourcePhase::Failed,
                    failure: Some(failure),
                },
                Notice::RevisionFailed { revision: desired.revision, failure },
            ]
            &&& (match pass.work.action {
                Some(action) => asks_at(
                    step,
                    desired,
                    DesiredStage::FailingAction { failure },
                    Request::TransitionAction {
                        action: action.action_id,
                        phase: ActionPhase::Failed,
                        failure: Some(failure),
                    },
                ),
                None => step.next == Next::Finish(WorkOutcome::Done),
            })
        }),
        pass.stage == (Stage::Desired { desired, at: DesiredStage::FailingAction { failure } })
            ==> ({
            let step = pass.resumed(Reply::Action(receipt), clock);
            step.next == Next::Finish(WorkOutcome::Done) && step.notices =~= seq![
                Notice::ActionFailed { receipt, failure },
            ]
        }),
{
}

/// Each step toward a runtime is shown when it is recorded: a wait, a stop, a clear
/// record, a start.
#[verifier::rlimit(40)]
pub proof fn each_recorded_step_is_shown(
    pass: FilesystemPass,
    desired: DesiredFilesystem,
    confirmed: ConfirmedRuntime,
    runtime_instance: String,
    instance: FilesystemInstance,
    clock: Clock,
)
    ensures
        ({
            let step = pass.resumed(Reply::Observed(Some(instance)), clock);
            let phase = |phase: ResourcePhase| Notice::MarkPhase {
                revision: pass.revision,
                phase,
                failure: None,
            };
            let stage = |stage: FilesystemProgressStage| Notice::PublishPhase {
                stage,
                retry_count: pass.work.retry_count,
                failure: None,
                next_retry_unix_ms: None,
            };
            &&& pass.stage == (Stage::Desired { desired, at: DesiredStage::RecordingWait }) ==> {
                &&& step.next == Next::Finish(WorkOutcome::Done)
                &&& step.notices =~= seq![
                    phase(ResourcePhase::Pending),
                    stage(FilesystemProgressStage::WaitingForNamespace),
                ]
            }
            &&& pass.stage == (Stage::Desired {
                desired,
                at: DesiredStage::RecordingStop { confirmed },
            }) ==> step.notices =~= seq![
                phase(ResourcePhase::Preparing),
                stage(FilesystemProgressStage::Stopping),
            ]
            &&& pass.stage == (Stage::Desired { desired, at: DesiredStage::Clearing })
                ==> step.notices =~= seq![phase(ResourcePhase::Pending)]
            &&& pass.stage == (Stage::Desired {
                desired,
                at: DesiredStage::RecordingStart { runtime_instance },
            }) ==> step.notices =~= seq![
                phase(ResourcePhase::Preparing),
                stage(FilesystemProgressStage::Starting),
            ]
        }),
{
}

/// A pass begins by moving its action to running, and goes on with what is declared:
/// a declared filesystem looks at the namespace, unless its version was given up and
/// nothing asks for it; one that is no longer declared is removed, after the action
/// that still asked for it has failed.
#[verifier::rlimit(40)]
pub proof fn a_pass_begins_with_what_is_declared(
    revision: ResourceRevision,
    work: Work,
    desired: Option<DesiredFilesystem>,
    receipt: ActionReceipt,
    clock: Clock,
)
    ensures
        ({
            let step = FilesystemPass::begun(revision, work, desired);
            let waiting = work.action matches Some(action) && action.phase != ActionPhase::Running;
            &&& step.pass.revision == revision && step.pass.work == work
            &&& step.notices.len() == 0
            &&& waiting ==> step.next == Next::Ask(
                Request::TransitionAction {
                    action: work.action->0.action_id,
                    phase: ActionPhase::Running,
                    failure: None,
                },
            ) && step.pass.stage == (Stage::StartingAction { desired })
            &&& !waiting ==> (match desired {
                Some(desired) => if work.action is Some || work.instance.phase
                    != FilesystemPhase::Failed || work.instance.observed_version != Some(
                    desired.version,
                ) {
                    asks_at(step, desired, DesiredStage::CheckingNamespace, Request::ReadServing)
                } else {
                    step.next == Next::Finish(WorkOutcome::Done)
                },
                None => match work.action {
                    Some(action) => asks_removing(
                        step,
                        DeletionStage::FailingAction,
                        Request::TransitionAction {
                            action: action.action_id,
                            phase: ActionPhase::Failed,
                            failure: Some(FilesystemFailure::Deleted),
                        },
                    ),
                    None => asks_removing(
                        step,
                        DeletionStage::Recording,
                        Request::Observe { change: ObservationChange::Deleting },
                    ),
                },
            })
        }),
        ({
            let pass = FilesystemPass { revision, work, stage: Stage::StartingAction { desired } };
            let step = pass.resumed(Reply::Action(receipt), clock);
            match desired {
                Some(desired) => asks_at(
                    step,
                    desired,
                    DesiredStage::CheckingNamespace,
                    Request::ReadServing,
                ) && step.pass.work == (Work { action: Some(receipt), ..work }),
                None => asks_removing(
                    step,
                    DeletionStage::FailingAction,
                    Request::TransitionAction {
                        action: receipt.action_id,
                        phase: ActionPhase::Failed,
                        failure: Some(FilesystemFailure::Deleted),
                    },
                ),
            }
        }),
{
}

/// A restart of a filesystem that is no longer declared has failed, and is told so
/// before the filesystem is removed.
pub proof fn a_restart_fails_with_its_removal(
    pass: FilesystemPass,
    spec: FilesystemSpec,
    runtime_instance: String,
    instance: FilesystemInstance,
    receipt: ActionReceipt,
    clock: Clock,
)
    requires
        pass.work.instance.observed_spec == Some(spec),
        pass.work.instance.runtime_instance == Some(runtime_instance),
    ensures
        pass.stage == (Stage::Deleting { at: DeletionStage::FailingAction }) ==> ({
            let step = pass.resumed(Reply::Action(receipt), clock);
            asks_removing(
                step,
                DeletionStage::Recording,
                Request::Observe { change: ObservationChange::Deleting },
            ) && step.notices =~= seq![
                Notice::ActionFailed { receipt, failure: FilesystemFailure::Deleted },
            ]
        }),
{
}

/// A removal is shown, and goes on with the runtime that is recorded, or with the record
/// alone where there is none.
pub proof fn a_removed_filesystem_is_looked_for(
    pass: FilesystemPass,
    spec: FilesystemSpec,
    runtime_instance: String,
    instance: FilesystemInstance,
    clock: Clock,
)
    requires
        pass.work.instance.observed_spec == Some(spec),
        pass.work.instance.runtime_instance == Some(runtime_instance),
    ensures
        pass.stage == (Stage::Deleting { at: DeletionStage::Recording }) ==> ({
            let step = pass.resumed(Reply::Observed(Some(instance)), clock);
            &&& step.notices =~= seq![Notice::PublishDeletion]
            &&& (match (instance.observed_spec, instance.runtime_instance) {
                (Some(spec), Some(runtime_instance)) => asks_removing(
                    step,
                    DeletionStage::Probing,
                    Request::Probe { spec, runtime_instance },
                ),
                _ => asks_removing(
                    step,
                    DeletionStage::ClearingInstance,
                    Request::ClearInstance { runtime_instance: instance.runtime_instance },
                ),
            })
        }),
{
}

/// A runtime of a removed filesystem that is there is stopped exactly; once it is
/// stopped or gone its session is waited for.
pub proof fn a_removed_runtime_is_stopped(
    pass: FilesystemPass,
    spec: FilesystemSpec,
    runtime_instance: String,
    confirmed: ConfirmedRuntime,
    instance: FilesystemInstance,
    clock: Clock,
)
    requires
        pass.work.instance.observed_spec == Some(spec),
        pass.work.instance.runtime_instance == Some(runtime_instance),
    ensures
        pass.stage == (Stage::Deleting { at: DeletionStage::Probing }) ==> asks_removing(
            pass.resumed(Reply::Probed(ProbeOutcome::Present(confirmed)), clock),
            DeletionStage::Stopping,
            Request::StopExact { spec, runtime_instance, confirmed },
        ) && asks_removing(
            pass.resumed(Reply::Probed(ProbeOutcome::Absent), clock),
            DeletionStage::AwaitingAbsence,
            Request::AwaitSessionAbsence { runtime_instance },
        ),
        pass.stage == (Stage::Deleting { at: DeletionStage::Stopping }) ==> asks_removing(
            pass.resumed(Reply::Stopped(true), clock),
            DeletionStage::AwaitingAbsence,
            Request::AwaitSessionAbsence { runtime_instance },
        ),
{
}

/// Once a session has drained its runtime is looked for again, and only one that is gone
/// has its record dropped.
pub proof fn a_removed_runtime_is_proved_gone(
    pass: FilesystemPass,
    spec: FilesystemSpec,
    runtime_instance: String,
    instance: FilesystemInstance,
    clock: Clock,
)
    requires
        pass.work.instance.observed_spec == Some(spec),
        pass.work.instance.runtime_instance == Some(runtime_instance),
    ensures
        pass.stage == (Stage::Deleting { at: DeletionStage::AwaitingAbsence }) ==> asks_removing(
            pass.resumed(Reply::Drained(true), clock),
            DeletionStage::ProvingAbsence,
            Request::Probe { spec, runtime_instance },
        ),
        pass.stage == (Stage::Deleting { at: DeletionStage::ProvingAbsence }) ==> asks_removing(
            pass.resumed(Reply::Probed(ProbeOutcome::Absent), clock),
            DeletionStage::ClearingInstance,
            Request::ClearInstance { runtime_instance: Some(runtime_instance) },
        ),
{
}

/// The status of a removed filesystem is dropped after its record; a record that was
/// replaced meanwhile is left, and the pass ends.
pub proof fn a_removed_record_is_followed_by_its_status(
    pass: FilesystemPass,
    spec: FilesystemSpec,
    runtime_instance: String,
    instance: FilesystemInstance,
    clock: Clock,
)
    requires
        pass.work.instance.observed_spec == Some(spec),
        pass.work.instance.runtime_instance == Some(runtime_instance),
    ensures
        pass.stage == (Stage::Deleting { at: DeletionStage::ClearingInstance }) ==> asks_removing(
            pass.resumed(Reply::Cleared(true), clock),
            DeletionStage::ClearingDeleted,
            Request::ClearDeleted { revision: pass.revision },
        ) && pass.resumed(Reply::Cleared(false), clock).next == Next::Finish(WorkOutcome::Done),
{
}

/// The revision that is complete with a removal is announced.
pub proof fn a_removal_can_complete_a_revision(
    pass: FilesystemPass,
    spec: FilesystemSpec,
    runtime_instance: String,
    instance: FilesystemInstance,
    terminal: bool,
    clock: Clock,
)
    requires
        pass.work.instance.observed_spec == Some(spec),
        pass.work.instance.runtime_instance == Some(runtime_instance),
    ensures
        pass.stage == (Stage::Deleting { at: DeletionStage::ClearingDeleted }) ==> ({
            let step = pass.resumed(Reply::Terminal(terminal), clock);
            step.next == Next::Finish(WorkOutcome::Done) && step.notices =~= (if terminal {
                seq![Notice::RevisionReady { revision: pass.revision }]
            } else {
                Seq::<Notice>::empty()
            })
        }),
{
}

/// A removal that does not go through is recorded with what went wrong and tried
/// again a second later.
#[verifier::rlimit(40)]
pub proof fn a_failed_removal_is_tried_again(
    pass: FilesystemPass,
    reply: Reply,
    failure: FilesystemFailure,
    instance: FilesystemInstance,
    confirmed: ConfirmedRuntime,
    clock: Clock,
)
    requires
        clock.unix_seconds < i64::MAX,
        pass.work.instance.observed_spec is Some,
        pass.work.instance.runtime_instance is Some,
    ensures
        ({
            ||| pass.stage == (Stage::Deleting { at: DeletionStage::Probing }) && reply
                == Reply::Probed(ProbeOutcome::InvalidSpec) && failure
                == FilesystemFailure::DeleteSpecInvalid
            ||| pass.stage == (Stage::Deleting { at: DeletionStage::Stopping }) && reply
                == Reply::Stopped(false) && failure == FilesystemFailure::DeleteStopFailed
            ||| pass.stage == (Stage::Deleting { at: DeletionStage::AwaitingAbsence }) && reply
                == Reply::Drained(false) && failure == FilesystemFailure::DeleteSessionDrainFailed
            ||| pass.stage == (Stage::Deleting { at: DeletionStage::ProvingAbsence }) && reply
                == Reply::Probed(ProbeOutcome::Present(confirmed)) && failure
                == FilesystemFailure::DeleteIncomplete
            ||| pass.stage == (Stage::Deleting { at: DeletionStage::ProvingAbsence }) && (reply
                == Reply::Probed(ProbeOutcome::InvalidSpec) || reply == Reply::Probed(
                ProbeOutcome::Unproved,
            )) && failure == FilesystemFailure::DeleteProbeFailed
        }) ==> asks_removing(
            pass.resumed(reply, clock),
            DeletionStage::RecordingRetry,
            Request::Observe {
                change: ObservationChange::Retrying {
                    at: (clock.unix_seconds + 1) as i64,
                    failure,
                },
            },
        ),
{
}

/// A removal that is to be tried again is shown, and asks to be run again.
pub proof fn a_removal_that_is_tried_again_is_shown(
    pass: FilesystemPass,
    instance: FilesystemInstance,
    clock: Clock,
)
    requires
        clock.unix_seconds < i64::MAX,
        pass.work.instance.observed_spec is Some,
        pass.work.instance.runtime_instance is Some,
    ensures
        pass.stage == (Stage::Deleting { at: DeletionStage::RecordingRetry }) ==> ({
            let step = pass.resumed(Reply::Observed(Some(instance)), clock);
            step.next == Next::Finish(WorkOutcome::Retry) && step.notices =~= seq![
                Notice::PublishDeletion,
            ]
        }),
{
}

/// A runtime whose identity cannot be proved is left, and its removal given up and told
/// as failed.
pub proof fn a_removal_of_the_unproved_is_given_up(
    pass: FilesystemPass,
    failure: FilesystemFailure,
    instance: FilesystemInstance,
    clock: Clock,
)
    requires
        clock.unix_seconds < i64::MAX,
        pass.work.instance.observed_spec is Some,
        pass.work.instance.runtime_instance is Some,
    ensures
        pass.stage == (Stage::Deleting { at: DeletionStage::Probing }) ==> asks_removing(
            pass.resumed(Reply::Probed(ProbeOutcome::Unproved), clock),
            DeletionStage::RecordingFailure { failure: FilesystemFailure::DeleteIdentityConflict },
            Request::Observe {
                change: ObservationChange::Failed {
                    failure: FilesystemFailure::DeleteIdentityConflict,
                },
            },
        ),
        pass.stage == (Stage::Deleting { at: DeletionStage::RecordingFailure { failure } }) ==> ({
            let step = pass.resumed(Reply::Observed(Some(instance)), clock);
            step.next == Next::Finish(WorkOutcome::Done) && step.notices =~= seq![
                Notice::MarkPhase {
                    revision: pass.revision,
                    phase: ResourcePhase::Failed,
                    failure: Some(failure),
                },
                Notice::RevisionFailed { revision: pass.revision, failure },
            ]
        }),
{
}

/// Where a pass stands after it was told of a list of answers.
#[verifier::opaque]
pub open spec fn run_of(first: StepView, heard: Seq<(Reply, Clock)>) -> StepView
    decreases heard.len(),
{
    if heard.len() == 0 {
        first
    } else {
        run_of(first, heard.drop_last()).pass.resumed(heard.last().0, heard.last().1)
    }
}

/// Whether an answer tells that the recorded runtime is stopped or gone.
pub open spec fn tells_of_an_end(reply: Reply) -> bool {
    ||| reply == Reply::Stopped(true)
    ||| reply == Reply::Probed(ProbeOutcome::Absent)
    ||| reply == Reply::Session(ConfirmedSession::Absent)
}

/// Whether a launch was asked for in a run, after the runtime that was recorded
/// before had ended.
pub open spec fn launches_anew(first: StepView, heard: Seq<(Reply, Clock)>, n: int) -> bool {
    &&& 0 <= n <= heard.len()
    &&& run_of(first, heard.take(n)).next matches Next::Ask(Request::Launch { .. })
    &&& first.pass.work.instance.observed_spec is Some
        && first.pass.work.instance.runtime_instance is Some ==> exists|m: int|
        0 <= m < n && #[trigger] tells_of_an_end(heard[m].0)
}

/// Whether the way to a launch is behind a stage.
spec fn is_late(stage: Stage) -> bool {
    stage matches Stage::Desired { desired: _, at } && match at {
        DesiredStage::Launching { .. } => true,
        DesiredStage::AwaitingSession { .. } => true,
        DesiredStage::CheckingCurrent { .. } => true,
        DesiredStage::ProbingSuperseded { .. } => true,
        DesiredStage::StoppingSuperseded => true,
        DesiredStage::RecordingReady => true,
        DesiredStage::MarkingReady => true,
        DesiredStage::MarkingCurrentReady => true,
        DesiredStage::CompletingAction => true,
        _ => false,
    }
}

/// Whether a stage comes before the recorded runtime has ended.
spec fn is_early(stage: Stage) -> bool {
    match stage {
        Stage::StartingAction { .. } => true,
        Stage::Desired { desired: _, at } => at is CheckingNamespace || at is Probing,
        _ => false,
    }
}

/// Whether a stage comes between the end of a runtime and the next launch.
spec fn is_between(stage: Stage) -> bool {
    stage matches Stage::Desired { desired: _, at } && (at is Clearing || at is DrawingInstance || at
        is RecordingStart)
}

/// Whether a step completes the action.
spec fn completes(step: StepView) -> bool {
    ||| step.next matches Next::Ask(Request::TransitionAction { action: _, phase, failure: _ })
        && phase == ActionPhase::Ready
    ||| exists|i: int| 0 <= i < step.notices.len() && #[trigger] step.notices[i] is ActionCompleted
}

/// Whether a runtime is recorded.
spec fn is_recorded(instance: FilesystemInstance) -> bool {
    instance.observed_spec is Some && instance.runtime_instance is Some
}

/// Whether a pass waits for the session of a kept runtime.
spec fn keeps_a_runtime(stage: Stage) -> bool {
    stage matches Stage::Desired { desired: _, at } && at is AwaitingRetained
}

#[verifier::rlimit(40)]
proof fn an_answer_brings_a_restart_forward(pass: FilesystemPass, reply: Reply, clock: Clock)
    requires
        pass.work.action is Some,
        !keeps_a_runtime(pass.stage),
    ensures
        ({
            let step = pass.resumed(reply, clock);
            &&& step.pass.work.action is Some
            &&& !keeps_a_runtime(step.pass.stage)
            &&& is_early(step.pass.stage) ==> is_early(pass.stage) && step.pass.work.instance
                == pass.work.instance
            &&& is_between(step.pass.stage) ==> is_between(pass.stage) || tells_of_an_end(reply) || (
            is_early(pass.stage) && !is_recorded(pass.work.instance))
            &&& is_late(step.pass.stage) ==> is_late(pass.stage) || (is_between(pass.stage)
                && step.next matches Next::Ask(Request::Launch { .. }))
            &&& completes(step) ==> is_late(pass.stage)
        }),
{
}

proof fn a_run_is_brought_forward(first: StepView, heard: Seq<(Reply, Clock)>)
    requires
        heard.len() > 0,
        run_of(first, heard.drop_last()).pass.work.action is Some,
        !keeps_a_runtime(run_of(first, heard.drop_last()).pass.stage),
    ensures
        ({
            let before = run_of(first, heard.drop_last()).pass;
            let step = run_of(first, heard);
            &&& step.pass.work.action is Some
            &&& !keeps_a_runtime(step.pass.stage)
            &&& is_early(step.pass.stage) ==> is_early(before.stage) && step.pass.work.instance
                == before.work.instance
            &&& is_between(step.pass.stage) ==> is_between(before.stage) || tells_of_an_end(
                heard.last().0,
            ) || (is_early(before.stage) && !is_recorded(before.work.instance))
            &&& is_late(step.pass.stage) ==> is_late(before.stage) || (is_between(before.stage)
                && step.next matches Next::Ask(Request::Launch { .. }))
            &&& completes(step) ==> is_late(before.stage)
        }),
{
    reveal(run_of);
    an_answer_brings_a_restart_forward(
        run_of(first, heard.drop_last()).pass,
        heard.last().0,
        heard.last().1,
    );
}

/// A launch that a shorter run asked for was asked for in the longer one too.
proof fn a_launch_stays_asked_for(first: StepView, heard: Seq<(Reply, Clock)>)
    requires
        heard.len() > 0,
        exists|n: int| #[trigger] launches_anew(first, heard.drop_last(), n),
    ensures
        exists|n: int| #[trigger] launches_anew(first, heard, n),
{
    let earlier = heard.drop_last();
    let n = choose|n: int| #[trigger] launches_anew(first, earlier, n);
    assert(earlier.take(n) =~= heard.take(n));
    if is_recorded(first.pass.work.instance) {
        let m = choose|m: int| 0 <= m < n && #[trigger] tells_of_an_end(earlier[m].0);
        assert(heard[m] == earlier[m]);
        assert(tells_of_an_end(heard[m].0));
    }
    assert(launches_anew(first, heard, n));
}

proof fn a_run_with_an_action_goes_to_a_launch(first: StepView, heard: Seq<(Reply, Clock)>)
    requires
        first.pass.work.action is Some,
        is_early(first.pass.stage),
    ensures
        ({
            let step = run_of(first, heard);
            &&& step.pass.work.action is Some
            &&& !keeps_a_runtime(step.pass.stage)
            &&& is_early(step.pass.stage) ==> step.pass.work.instance == first.pass.work.instance
            &&& is_between(step.pass.stage) && is_recorded(first.pass.work.instance) ==> exists|
                m: int|
                0 <= m < heard.len() && #[trigger] tells_of_an_end(heard[m].0)
            &&& is_late(step.pass.stage) ==> exists|n: int| #[trigger] launches_anew(first, heard, n)
        }),
    decreases heard.len(),
{
    if heard.len() > 0 {
        let earlier = heard.drop_last();
        a_run_with_an_action_goes_to_a_launch(first, earlier);
        a_run_is_brought_forward(first, heard);
        let before = run_of(first, earlier);
        let step = run_of(first, heard);
        let last = heard.len() - 1;
        let recorded = is_recorded(first.pass.work.instance);
        if is_between(before.pass.stage) && recorded {
            let m = choose|m: int| 0 <= m < earlier.len() && #[trigger] tells_of_an_end(earlier[m].0);
            assert(heard[m] == earlier[m]);
            assert(tells_of_an_end(heard[m].0));
        } else if is_between(step.pass.stage) && recorded {
            assert(tells_of_an_end(heard[last].0));
        }
        if is_late(before.pass.stage) {
            a_launch_stays_asked_for(first, heard);
        } else if is_late(step.pass.stage) {
            assert(heard.take(heard.len() as int) =~= heard);
            assert(launches_anew(first, heard, heard.len() as int));
        }
    } else {
        reveal(run_of);
    }
}

proof fn a_restart_begins_early(revision: ResourceRevision, work: Work, desired: DesiredFilesystem)
    requires
        work.action is Some,
    ensures
        ({
            let first = FilesystemPass::begun(revision, work, Some(desired));
            first.pass.work == work && is_early(first.pass.stage) && !completes(first)
        }),
{
}

/// A restart is completed only by a fresh runtime: whatever the outside world
/// answers, a pass with an action asks to complete it, and tells that it is
/// completed, only after it asked for a launch, and where a runtime was recorded
/// before, only after that one was stopped or found to be gone.
pub proof fn a_restart_is_completed_by_a_fresh_runtime(
    revision: ResourceRevision,
    work: Work,
    desired: DesiredFilesystem,
    heard: Seq<(Reply, Clock)>,
)
    requires
        work.action is Some,
        ({
            let step = run_of(FilesystemPass::begun(revision, work, Some(desired)), heard);
            ||| step.next matches Next::Ask(
                Request::TransitionAction { action: _, phase, failure: _ },
            ) && phase == ActionPhase::Ready
            ||| exists|i: int|
                0 <= i < step.notices.len() && #[trigger] step.notices[i] is ActionCompleted
        }),
    ensures
        exists|n: int| #[trigger]
            launches_anew(FilesystemPass::begun(revision, work, Some(desired)), heard, n),
{
    let first = FilesystemPass::begun(revision, work, Some(desired));
    a_restart_begins_early(revision, work, desired);
    a_completed_run_launched(first, heard);
}

proof fn a_completed_run_launched(first: StepView, heard: Seq<(Reply, Clock)>)
    requires
        first.pass.work.action is Some,
        is_early(first.pass.stage),
        !completes(first),
        completes(run_of(first, heard)),
    ensures
        exists|n: int| #[trigger] launches_anew(first, heard, n),
{
    if heard.len() > 0 {
        a_run_with_an_action_goes_to_a_launch(first, heard.drop_last());
        a_run_is_brought_forward(first, heard);
        a_launch_stays_asked_for(first, heard);
    } else {
        reveal(run_of);
    }
}

/// Whatever it is told, a pass stays with its revision, its filesystem and the failures
/// counted so far; its record changes only with one that is granted, and its action
/// only with a receipt.
#[verifier::rlimit(60)]
pub proof fn a_pass_keeps_what_it_is_for(pass: FilesystemPass, reply: Reply, clock: Clock)
    ensures
        ({
            let after = pass.resumed(reply, clock).pass;
            &&& after.revision == pass.revision
            &&& after.work.name == pass.work.name
            &&& after.work.retry_count == pass.work.retry_count
            &&& !(reply is Observed) ==> after.work.instance == pass.work.instance
            &&& !(reply is Action) ==> after.work.action == pass.work.action
        }),
{
}

/// A pass goes on with the record that was granted.
#[verifier::rlimit(60)]
pub proof fn a_granted_record_is_gone_on_with(
    pass: FilesystemPass,
    instance: FilesystemInstance,
    clock: Clock,
)
    ensures
        ({
            let step = pass.resumed(Reply::Observed(Some(instance)), clock);
            !(step.next is Unanswered) ==> step.pass.work.instance == instance
        }),
{
}

/// A time that cannot be counted any more is held at the last that can.
pub proof fn a_time_is_held_at_the_last(pass: FilesystemPass, desired: DesiredFilesystem, clock: Clock)
    requires
        clock.unix_seconds == i64::MAX,
    ensures
        pass.stage == (Stage::Desired { desired, at: DesiredStage::StoppingObserved })
            && pass.work.retry_count < 4 ==> (pass.resumed(Reply::Stopped(false), clock).next
            matches Next::Ask(
            Request::Observe { change: ObservationChange::Retrying { at, failure: _ } },
        ) && at == i64::MAX),
        pass.stage == (Stage::Deleting { at: DeletionStage::Stopping }) ==> (pass.resumed(
            Reply::Stopped(false),
            clock,
        ).next matches Next::Ask(
            Request::Observe { change: ObservationChange::Retrying { at, failure: _ } },
        ) && at == i64::MAX),
{
    reveal_with_fuel(crate::filesystem_supervisor::doubled, 6);
}

} // verus!
