//! What every reconciliation pass keeps, whatever the outside world answers.
use crate::filesystem_supervisor::pass::{
    Clock, ConfirmedSession, DeletionStage, DesiredStage, FilesystemPass, Next, Notice,
    ProbeOutcome, Reply, Request, Stage, Work, WorkOutcome,
};
use crate::filesystem_supervisor::{
    DesiredFilesystem, ObservationChange, MAX_RETRY_ATTEMPTS,
};
use crate::fs_runtime::driver::ConfirmedRuntime;
use crate::name::ResourceRevision;
use vstd::prelude::*;

verus! {

/// How many answers a pass can still take, at most.
pub open spec fn answers_left(stage: Stage) -> nat {
    match stage {
        Stage::StartingAction { .. } => 30,
        Stage::Finished => 0,
        Stage::Deleting { at } => match at {
            DeletionStage::FailingAction => 25,
            DeletionStage::Recording => 24,
            DeletionStage::Probing => 23,
            DeletionStage::Stopping => 22,
            DeletionStage::AwaitingAbsence => 21,
            DeletionStage::ProvingAbsence => 20,
            DeletionStage::ClearingInstance => 19,
            DeletionStage::ClearingDeleted => 18,
            DeletionStage::RecordingRetry => 17,
            DeletionStage::RecordingFailure { .. } => 17,
        },
        Stage::Desired { desired: _, at } => match at {
            DesiredStage::CheckingNamespace => 20,
            DesiredStage::Probing => 19,
            DesiredStage::AwaitingRetained => 18,
            DesiredStage::RecordingStop { .. } => 17,
            DesiredStage::StoppingObserved => 16,
            DesiredStage::Clearing => 15,
            DesiredStage::DrawingInstance => 14,
            DesiredStage::RecordingStart { .. } => 13,
            DesiredStage::Launching { .. } => 12,
            DesiredStage::AwaitingSession { .. } => 11,
            DesiredStage::CheckingCurrent { .. } => 10,
            DesiredStage::ProbingSuperseded { .. } => 9,
            DesiredStage::StoppingSuperseded => 8,
            DesiredStage::RecordingReady => 7,
            DesiredStage::MarkingReady => 6,
            DesiredStage::MarkingCurrentReady => 5,
            DesiredStage::CompletingAction => 4,
            DesiredStage::RecordingRetry { .. } => 3,
            DesiredStage::RecordingFailure { .. } => 3,
            DesiredStage::RetryingAction { .. } => 2,
            DesiredStage::FailingAction { .. } => 2,
            DesiredStage::RecordingWait => 1,
        },
    }
}

/// Every answer brings a pass nearer to its end: no sequence of outside
/// results can keep one pass going.
pub proof fn answers_end_a_pass(pass: FilesystemPass, reply: Reply, clock: Clock)
    ensures
        pass.resumed(reply, clock).next != Next::Unanswered ==> answers_left(
            pass.resumed(reply, clock).pass.stage,
        ) < answers_left(pass.stage),
{
}

/// A reply that was not waited for changes nothing and publishes nothing.
pub proof fn stray_replies_change_nothing(pass: FilesystemPass, reply: Reply, clock: Clock)
    ensures
        pass.resumed(reply, clock).next == Next::Unanswered ==> pass.resumed(reply, clock).pass
            == pass && pass.resumed(reply, clock).notices.len() == 0,
{
}

/// A pass that has ended asks for nothing more.
pub proof fn a_finished_pass_stays_finished(pass: FilesystemPass, reply: Reply, clock: Clock)
    requires
        pass.stage is Finished,
    ensures
        pass.resumed(reply, clock).next == Next::Unanswered,
{
}

/// A runtime is launched only right after the record of exactly that identity
/// was granted.
pub proof fn a_launch_follows_its_granted_identity(
    pass: FilesystemPass,
    reply: Reply,
    clock: Clock,
)
    ensures
        pass.resumed(reply, clock).next matches Next::Ask(
            Request::Launch { spec, runtime_instance },
        ) ==> {
            &&& pass.stage matches Stage::Desired { desired, at }
            &&& at == (DesiredStage::RecordingStart { runtime_instance })
            &&& spec == desired.spec
            &&& reply matches Reply::Observed(Some(_))
        },
{
}

/// While a pass waits to start a runtime, what it asked to record is exactly
/// the identity it is about to launch.
pub proof fn a_start_records_the_launch_identity(
    pass: FilesystemPass,
    reply: Reply,
    clock: Clock,
    desired: DesiredFilesystem,
    runtime_instance: String,
)
    requires
        pass.resumed(reply, clock).next != Next::Unanswered,
        pass.resumed(reply, clock).pass.stage == (Stage::Desired {
            desired,
            at: DesiredStage::RecordingStart { runtime_instance },
        }),
    ensures
        pass.resumed(reply, clock).next == Next::Ask(
            Request::Observe {
                change: ObservationChange::Starting {
                    version: desired.version,
                    spec: desired.spec,
                    runtime_instance,
                },
            },
        ),
{
}

/// No pass launches or stops a runtime as its very first request.
pub proof fn a_pass_begins_without_touching_a_runtime(
    revision: ResourceRevision,
    work: Work,
    desired: Option<DesiredFilesystem>,
)
    ensures
        FilesystemPass::begun(revision, work, desired).next matches Next::Ask(request) ==> !(request
            is Launch) && !(request is StopExact) && !(request is ClearInstance),
{
}

/// Whether a reply proves this runtime.
pub open spec fn proves(reply: Reply, confirmed: ConfirmedRuntime) -> bool {
    ||| reply == Reply::Probed(ProbeOutcome::Present(confirmed))
    ||| reply == Reply::Session(ConfirmedSession::Stopped(confirmed))
    ||| reply == Reply::Session(ConfirmedSession::TimedOut(confirmed))
}

/// A runtime is stopped only on the proof of its identity: the reply at hand,
/// or the proof kept while its stop was being recorded.
pub proof fn a_stop_needs_a_proved_identity(pass: FilesystemPass, reply: Reply, clock: Clock)
    ensures
        pass.resumed(reply, clock).next matches Next::Ask(
            Request::StopExact { spec: _, runtime_instance: _, confirmed },
        ) ==> proves(reply, confirmed) || (pass.stage matches Stage::Desired { desired: _, at } && at
            == (DesiredStage::RecordingStop { confirmed })),
        pass.resumed(reply, clock).next != Next::Unanswered ==> (pass.resumed(
            reply,
            clock,
        ).pass.stage matches Stage::Desired {
            desired: _,
            at: DesiredStage::RecordingStop { confirmed },
        } ==> proves(reply, confirmed)),
{
}

/// A runtime whose identity could not be proved is neither stopped nor
/// replaced, and its record is kept.
pub proof fn an_unproved_runtime_is_left_alone(pass: FilesystemPass, clock: Clock)
    ensures
        pass.resumed(Reply::Probed(ProbeOutcome::Unproved), clock).next matches Next::Ask(request)
            ==> !(request is StopExact) && !(request is Launch) && !(request is ClearInstance)
            && request != (Request::Observe { change: ObservationChange::Cleared }),
{
}

/// The record of a removed filesystem is dropped only after its runtime was
/// proved absent, or where no runtime was ever recorded.
pub proof fn a_record_goes_after_its_runtime(pass: FilesystemPass, reply: Reply, clock: Clock)
    ensures
        pass.resumed(reply, clock).next matches Next::Ask(Request::ClearInstance { .. }) ==> {
            ||| pass.stage == (Stage::Deleting { at: DeletionStage::ProvingAbsence }) && reply
                == Reply::Probed(ProbeOutcome::Absent)
            ||| reply matches Reply::Observed(Some(instance)) && (instance.observed_spec is None
                || instance.runtime_instance is None)
        },
{
}

/// When a record was replaced meanwhile the pass ends there: it publishes
/// nothing and touches nothing.
pub proof fn a_replaced_record_ends_the_pass(pass: FilesystemPass, clock: Clock)
    ensures
        ({
            let step = pass.resumed(Reply::Observed(None), clock);
            step.next == Next::Unanswered || (step.next == Next::Finish(WorkOutcome::Done)
                && step.notices.len() == 0 && step.pass.work == pass.work)
        }),
{
}

/// A filesystem is recorded ready only once its session is attached and, after
/// a launch, only while the launched version is still the desired one.
pub proof fn ready_needs_a_session(pass: FilesystemPass, reply: Reply, clock: Clock)
    ensures
        pass.resumed(reply, clock).next == Next::Ask(
            Request::Observe { change: ObservationChange::Ready },
        ) ==> {
            ||| reply == Reply::Session(ConfirmedSession::Attached)
            ||| (pass.stage matches Stage::Desired { desired, at } && at is CheckingCurrent && (reply
                matches Reply::Desired(latest)
                && crate::filesystem_supervisor::pass::still_desired(
                latest@,
                pass.work.name@,
                desired,
            )))
        },
{
}

/// The last allowed attempt is never followed by another: from then on every
/// failed start is final.
pub proof fn attempts_run_out(pass: FilesystemPass, reply: Reply, clock: Clock)
    requires
        pass.work.retry_count + 1 >= MAX_RETRY_ATTEMPTS,
        pass.stage is Desired,
    ensures
        pass.resumed(reply, clock).next matches Next::Ask(Request::Observe { change }) ==> !(change
            is Retrying),
{
}

/// A pass stays with its filesystem: neither its name, its count of earlier
/// failures, nor the revision it was begun for ever changes.
pub proof fn a_pass_keeps_its_filesystem(pass: FilesystemPass, reply: Reply, clock: Clock)
    ensures
        pass.resumed(reply, clock).pass.work.name == pass.work.name,
        pass.resumed(reply, clock).pass.work.retry_count == pass.work.retry_count,
        pass.resumed(reply, clock).pass.revision == pass.revision,
{
}

/// A filesystem that was given up and is still wanted in the same version is
/// left alone until an action asks for it.
pub proof fn a_given_up_version_is_not_retried(
    revision: ResourceRevision,
    work: Work,
    desired: DesiredFilesystem,
)
    requires
        work.action is None,
        work.instance.phase == crate::filesystem_supervisor::FilesystemPhase::Failed,
        work.instance.observed_version == Some(desired.version),
    ensures
        FilesystemPass::begun(revision, work, Some(desired)).next == Next::Finish(WorkOutcome::Done),
        FilesystemPass::begun(revision, work, Some(desired)).notices == Seq::<Notice>::empty(),
{
}

} // verus!
