//! Passes over filesystems and the supervisor's loop.
use omnifs_daemon::filesystem_supervisor::cycle::{CycleAction, CycleEvent, SupervisorCycle};
use omnifs_daemon::filesystem_supervisor::pass::{
    finish_ready, reconcile_deletion, retry_or_fail, Clock, ConfirmedSession, FilesystemPass,
    LaunchOutcome, Next, Notice, ProbeOutcome, Reply, Request, Step, Work, WorkOutcome,
};
use omnifs_daemon::filesystem_supervisor::plan::{plan_pass, settle, RetryCount};
use omnifs_daemon::filesystem_supervisor::stop::{
    absence_step, remaining_filesystems, resume_stop, stop_exact, AbsenceStep, Session, Shutdown,
    ShutdownNext, ShutdownReply, ShutdownRequest, StopAll, StopError, StopNext, StopReply,
    StopRequest,
};
use omnifs_daemon::filesystem_supervisor::{
    update_observation, DesiredFilesystem, FilesystemFailure, FilesystemInstance, FilesystemPhase,
    ObservationChange, MAX_RETRY_ATTEMPTS,
};
use omnifs_daemon::fs_runtime::docker::DockerContainerIdentity;
use omnifs_daemon::fs_runtime::driver::ConfirmedRuntime;
use omnifs_daemon::name::{
    ActionId, FilesystemProtocol, FilesystemRuntime, FilesystemSpec, FilesystemVersion,
    ResourceKey, ResourceKind, ResourceName, ResourceRevision,
};
use omnifs_daemon::records::{
    ActionKind, ActionPhase, ActionReceipt, FilesystemProgressStage, ServingProgress,
    ServingProgressStage,
};

const CLOCK: Clock = Clock { unix_seconds: 100, unix_millis: 100_000 };

fn name() -> ResourceName {
    ResourceName::new("main")
}

fn spec() -> FilesystemSpec {
    FilesystemSpec {
        protocol: FilesystemProtocol::Fuse,
        runtime: FilesystemRuntime::Docker,
        location: "/omnifs".to_owned(),
        docker_image: None,
        libkrun_guest_image: None,
    }
}

fn version() -> FilesystemVersion {
    FilesystemVersion { high: 1, low: 2 }
}

fn desired() -> DesiredFilesystem {
    DesiredFilesystem {
        name: name(),
        spec: spec(),
        version: version(),
        revision: ResourceRevision::new(1),
    }
}

fn recorded(runtime_instance: Option<&str>) -> FilesystemInstance {
    let mut instance = FilesystemInstance::pending(name());
    instance.desired_version = Some(version());
    instance.desired_spec = Some(spec());
    if let Some(runtime_instance) = runtime_instance {
        instance.observed_version = Some(version());
        instance.observed_spec = Some(spec());
        instance.runtime_instance = Some(runtime_instance.to_owned());
    }
    instance
}

fn work(instance: FilesystemInstance) -> Work {
    Work { name: name(), instance, action: None, retry_count: 0 }
}

fn serving(revision: u64) -> ServingProgress {
    ServingProgress {
        revision: ResourceRevision::new(revision),
        stage: ServingProgressStage::Ready,
        completed: 1,
        total: 1,
        error_code: None,
        detail: None,
        queued_generations: 0,
        retry_count: 0,
        next_retry_unix_ms: None,
    }
}

fn restart(phase: ActionPhase) -> ActionReceipt {
    ActionReceipt {
        action_id: ActionId { value: 0x61 },
        kind: ActionKind::RestartFilesystem,
        target: ResourceKey::new(ResourceKind::Filesystem, name()),
        action_generation: 1,
        phase,
        error_code: None,
        detail: None,
    }
}

fn docker(instance: &str) -> ConfirmedRuntime {
    ConfirmedRuntime::Docker(
        DockerContainerIdentity { id: "c".to_owned(), runtime_instance: instance.to_owned() },
        true,
    )
}

/// Carries out a change as the store does, while the record is still current.
fn observed(step: &Step, change: &ObservationChange) -> FilesystemInstance {
    recorded_after(&step.pass.work.instance, change)
}

/// The record of a filesystem after a change.
fn recorded_after(before: &FilesystemInstance, change: &ObservationChange) -> FilesystemInstance {
    let copy = match change {
        ObservationChange::Waiting => ObservationChange::Waiting,
        ObservationChange::Starting { version, spec, runtime_instance } => {
            ObservationChange::Starting {
                version: *version,
                spec: spec.clone(),
                runtime_instance: runtime_instance.clone(),
            }
        }
        ObservationChange::Ready => ObservationChange::Ready,
        ObservationChange::Stopping => ObservationChange::Stopping,
        ObservationChange::Cleared => ObservationChange::Cleared,
        ObservationChange::Deleting => ObservationChange::Deleting,
        ObservationChange::Retrying { at, failure } => {
            ObservationChange::Retrying { at: *at, failure: *failure }
        }
        ObservationChange::Failed { failure } => ObservationChange::Failed { failure: *failure },
    };
    let after = update_observation(before, copy);
    FilesystemInstance {
        name: name(),
        desired_version: before.desired_version,
        desired_spec: before.desired_spec.clone(),
        observed_version: after.observed_version,
        observed_spec: after.observed_spec,
        runtime_instance: after.runtime_instance,
        phase: after.phase,
        retry_at: after.retry_at,
        last_error_code: after.last_error_code,
        last_error_detail: after.last_error_detail,
        deleting: before.deleting,
    }
}

/// Follows a pass to its end, with a scripted world.
fn follow(mut step: Step, mut world: impl FnMut(&Request) -> Option<Reply>) -> (Step, Vec<Notice>) {
    let mut notices: Vec<Notice> = Vec::new();
    for _ in 0..40 {
        notices.append(&mut step.notices);
        let reply = match &step.next {
            Next::Ask(Request::Observe { change }) => Reply::Observed(Some(observed(&step, change))),
            Next::Ask(request) => world(request).expect("an unexpected request"),
            Next::Finish(_) | Next::Abort(_) | Next::Unanswered => return (step, notices),
        };
        step = step.pass.resume(reply, CLOCK);
    }
    panic!("the pass does not end");
}

fn shows(notices: &[Notice], stage: FilesystemProgressStage) -> bool {
    notices
        .iter()
        .any(|notice| matches!(notice, Notice::PublishPhase { stage: shown, .. } if *shown == stage))
}

#[test]
fn waits_for_a_matching_serving_revision_before_runtime_work() {
    let step = FilesystemPass::begin(ResourceRevision::new(1), work(recorded(None)), Some(desired()));
    let (step, notices) = follow(step, |request| match request {
        Request::ReadServing => Some(Reply::Serving(None)),
        _ => None,
    });
    assert_eq!(step.next, Next::Finish(WorkOutcome::Done));
    assert_eq!(step.pass.work.instance.phase, FilesystemPhase::WaitingForNamespace);
    assert!(step.pass.work.instance.runtime_instance.is_none());
    assert!(shows(&notices, FilesystemProgressStage::WaitingForNamespace));
}

#[test]
fn a_fresh_filesystem_is_launched_and_marked_ready() {
    let step = FilesystemPass::begin(ResourceRevision::new(1), work(recorded(None)), Some(desired()));
    let (step, notices) = follow(step, |request| match request {
        Request::ReadServing => Some(Reply::Serving(Some(serving(1)))),
        Request::DrawInstance => Some(Reply::Drawn("fresh".to_owned())),
        Request::Launch { runtime_instance, .. } => {
            assert_eq!(runtime_instance, "fresh");
            Some(Reply::Launched(LaunchOutcome::Started))
        }
        Request::AwaitSession { .. } => Some(Reply::Attached(true)),
        Request::ReadDesired => Some(Reply::Desired(vec![desired()])),
        Request::MarkReady { .. } => Some(Reply::Terminal(true)),
        _ => None,
    });
    assert_eq!(step.next, Next::Finish(WorkOutcome::Done));
    assert_eq!(step.pass.work.instance.phase, FilesystemPhase::Ready);
    assert_eq!(step.pass.work.instance.runtime_instance.as_deref(), Some("fresh"));
    assert!(notices.iter().any(|notice| matches!(notice, Notice::RevisionReady { .. })));
}

#[test]
fn a_retained_runtime_is_kept_when_its_session_comes_back() {
    let step = FilesystemPass::begin(
        ResourceRevision::new(1),
        work(recorded(Some("old"))),
        Some(desired()),
    );
    let (step, _) = follow(step, |request| match request {
        Request::ReadServing => Some(Reply::Serving(Some(serving(2)))),
        Request::Probe { runtime_instance, .. } => {
            assert_eq!(runtime_instance, "old");
            Some(Reply::Probed(ProbeOutcome::Present(docker("old"))))
        }
        Request::AwaitRetainedSession { .. } => {
            Some(Reply::Session(ConfirmedSession::Attached))
        }
        Request::MarkReady { .. } => Some(Reply::Terminal(false)),
        Request::ReadDesired => Some(Reply::Desired(vec![desired()])),
        _ => None,
    });
    assert_eq!(step.next, Next::Finish(WorkOutcome::Done));
    assert_eq!(step.pass.work.instance.phase, FilesystemPhase::Ready);
    assert_eq!(step.pass.work.instance.runtime_instance.as_deref(), Some("old"));
}

#[test]
fn an_unproved_runtime_is_never_touched() {
    let step = FilesystemPass::begin(
        ResourceRevision::new(1),
        work(recorded(Some("old"))),
        Some(desired()),
    );
    let (step, notices) = follow(step, |request| match request {
        Request::ReadServing => Some(Reply::Serving(Some(serving(1)))),
        Request::Probe { .. } => Some(Reply::Probed(ProbeOutcome::Unproved)),
        _ => None,
    });
    assert!(matches!(step.next, Next::Finish(_)));
    assert_eq!(
        step.pass.work.instance.last_error_code.as_deref(),
        Some(FilesystemFailure::IdentityConflict.code())
    );
    assert!(!notices.iter().any(|notice| matches!(notice, Notice::RevisionReady { .. })));
}

#[test]
fn deleting_an_filesystem_finishes_its_pending_restart_action() {
    let mut deleted = work(recorded(None));
    deleted.action = Some(restart(ActionPhase::Accepted));
    let step = reconcile_deletion(ResourceRevision::new(2), deleted);
    let (step, notices) = follow(step, |request| match request {
        Request::TransitionAction { phase, failure, .. } => {
            assert_eq!(*phase, ActionPhase::Failed);
            assert_eq!(*failure, Some(FilesystemFailure::Deleted));
            Some(Reply::Action(restart(ActionPhase::Failed)))
        }
        Request::ClearInstance { .. } => Some(Reply::Cleared(true)),
        Request::ClearDeleted { .. } => Some(Reply::Terminal(true)),
        Request::Probe { .. } => Some(Reply::Probed(ProbeOutcome::Absent)),
        Request::AwaitSessionAbsence { .. } => Some(Reply::Drained(true)),
        _ => None,
    });
    assert_eq!(step.next, Next::Finish(WorkOutcome::Done));
    assert!(notices.iter().any(|notice| matches!(
        notice,
        Notice::ActionFailed { failure: FilesystemFailure::Deleted, .. }
    )));
}

#[test]
fn retry_limit_records_a_terminal_failure_without_more_attempts() {
    for attempt in 1..MAX_RETRY_ATTEMPTS {
        let mut failing = work(recorded(None));
        failing.retry_count = attempt - 1;
        let step = retry_or_fail(
            ResourceRevision::new(1),
            failing,
            desired(),
            FilesystemFailure::LaunchFailed,
            CLOCK,
        );
        let (step, _) = follow(step, |_request| None);
        assert_eq!(step.next, Next::Finish(WorkOutcome::Retry));
        assert_eq!(step.pass.work.instance.phase, FilesystemPhase::Retrying);
        assert!(step.pass.work.instance.retry_at.is_some());
    }
    let mut failing = work(recorded(None));
    failing.retry_count = MAX_RETRY_ATTEMPTS - 1;
    let step = retry_or_fail(
        ResourceRevision::new(1),
        failing,
        desired(),
        FilesystemFailure::LaunchFailed,
        CLOCK,
    );
    let (step, _) = follow(step, |_request| None);
    assert_eq!(step.next, Next::Finish(WorkOutcome::Done));
    let instance = &step.pass.work.instance;
    assert_eq!(instance.phase, FilesystemPhase::Failed);
    assert_eq!(instance.last_error_code.as_deref(), Some("filesystem_launch_failed"));
    assert_eq!(instance.retry_at, None);
}

#[test]
fn superseded_work_cannot_publish_a_stale_retry_observation() {
    let step = retry_or_fail(
        ResourceRevision::new(1),
        work(recorded(None)),
        desired(),
        FilesystemFailure::LaunchFailed,
        CLOCK,
    );
    assert!(matches!(step.next, Next::Ask(Request::Observe { .. })));
    // The record was replaced meanwhile, so the store refuses the change.
    let step = step.pass.resume(Reply::Observed(None), CLOCK);
    assert_eq!(step.next, Next::Finish(WorkOutcome::Done));
    assert!(step.notices.is_empty());
    assert_eq!(step.pass.work.instance.phase, FilesystemPhase::Pending);
    assert_eq!(step.pass.work.instance.last_error_code, None);
    assert_eq!(step.pass.work.instance.retry_at, None);
}

#[test]
fn retained_filesystem_readiness_tracks_the_current_restart_revision() {
    let step = finish_ready(ResourceRevision::new(2), work(recorded(Some("old"))), desired());
    let mut marked = Vec::new();
    let (step, _) = follow(step, |request| match request {
        Request::MarkReady { revision } => {
            marked.push(*revision);
            Some(Reply::Terminal(false))
        }
        _ => None,
    });
    assert_eq!(step.next, Next::Finish(WorkOutcome::Done));
    assert!(marked.contains(&ResourceRevision::new(2)));
}

#[test]
fn a_stray_reply_changes_nothing() {
    let step = FilesystemPass::begin(ResourceRevision::new(1), work(recorded(None)), Some(desired()));
    let step = step.pass.resume(Reply::Stopped(true), CLOCK);
    assert_eq!(step.next, Next::Unanswered);
    assert!(step.notices.is_empty());
}

#[test]
fn one_pass_leaves_out_what_still_waits() {
    let mut waiting = recorded(None);
    waiting.retry_at = Some(130);
    let plan = plan_pass(&vec![desired()], &vec![waiting], &Vec::new(), &Vec::new(), 100);
    assert!(plan.work.is_empty());
    assert_eq!(plan.earliest_retry, Some(30_000));
    let plan = plan_pass(&vec![desired()], &Vec::new(), &Vec::new(), &Vec::new(), 100);
    assert_eq!(plan.work.len(), 1);
    assert_eq!(plan.work[0].work.name, name());
    assert!(plan.work[0].desired.is_some());

    let mut retries: Vec<RetryCount> = Vec::new();
    assert_eq!(settle(&mut retries, None, name(), WorkOutcome::Retry), Some(250));
    assert_eq!(settle(&mut retries, None, name(), WorkOutcome::Retry), Some(500));
    assert_eq!(settle(&mut retries, Some(7), name(), WorkOutcome::Done), Some(7));
    assert_eq!(settle(&mut retries, None, name(), WorkOutcome::Retry), Some(250));
}

#[test]
fn an_exact_stop_refuses_another_instance() {
    let step = stop_exact("expected", docker("other"));
    assert_eq!(step.next, StopNext::Failed(StopError::InstanceChanged));
    assert!(StopError::InstanceChanged.message().contains("instance changed"));
    let mut step = stop_exact("expected", docker("expected"));
    let mut asked = 0;
    while let StopNext::Ask(request) = &step.next {
        if asked == 0 {
            assert_eq!(*request, StopRequest::BeginSessionStop);
        }
        asked += 1;
        step = resume_stop(step.stage, StopReply::Succeeded);
    }
    assert_eq!(step.next, StopNext::Stopped);
    assert_eq!(asked, 6);
}

#[test]
fn stop_all_joins_without_deleting_desired_filesystems() {
    let mut cycle = SupervisorCycle::new();
    assert_eq!(cycle.decide(false), CycleAction::Reconcile);
    cycle.tell(CycleEvent::PassCompleted { next_retry: None });
    assert!(!cycle.tell(CycleEvent::StoppedAll));
    // A stopped supervisor starts nothing anew, whatever changes.
    cycle.tell(CycleEvent::Changed { open: true });
    assert!(matches!(cycle.decide(false), CycleAction::Wait { .. }));
    assert_eq!(cycle.decide(true), CycleAction::StopAllAndExit);

    // What was never started needs nothing.
    assert!(Shutdown::begin(recorded(None)).is_none());
    assert!(remaining_filesystems(StopAll::new().stragglers, Vec::<Session>::new()).is_empty());

    // What runs is stopped, and its record is cleared and kept.
    let mut all = StopAll::new();
    let mut asked = Vec::new();
    let mut step = Shutdown::begin(recorded(Some("run"))).unwrap();
    while let ShutdownNext::Ask(request) = step.next {
        let reply = match &request {
            ShutdownRequest::Observe { change } => {
                ShutdownReply::Observed(Some(recorded_after(&step.shutdown.instance, change)))
            }
            ShutdownRequest::Probe { .. } => {
                ShutdownReply::Probed(ProbeOutcome::Present(docker("run")))
            }
            ShutdownRequest::StopExact { runtime_instance, .. } => {
                assert_eq!(runtime_instance, "run");
                ShutdownReply::Stopped(true)
            }
            ShutdownRequest::AwaitSessionAbsence { .. } => ShutdownReply::Drained(true),
            ShutdownRequest::ClearInstance { .. } => panic!("a desired filesystem is dropped"),
        };
        asked.push(request);
        step = step.shutdown.resume(reply);
    }
    all.ended(&name(), &step.next);
    assert_eq!(step.next, ShutdownNext::Clean);
    assert_eq!(
        asked[0],
        ShutdownRequest::Observe { change: ObservationChange::Stopping }
    );
    assert_eq!(
        asked[4],
        ShutdownRequest::Observe { change: ObservationChange::Cleared }
    );
    assert_eq!(asked.len(), 5);
    let kept = step.shutdown.instance;
    assert_eq!(kept.desired_version, Some(version()));
    assert_eq!(kept.desired_spec, Some(spec()));
    assert!(!kept.deleting);
    assert_eq!(kept.runtime_instance, None);
    assert!(remaining_filesystems(all.stragglers, Vec::<Session>::new()).is_empty());
}

#[test]
fn a_deleted_filesystem_is_dropped_at_a_stop() {
    let mut instance = recorded(Some("run"));
    instance.deleting = true;
    let step = Shutdown::begin(instance.clone()).unwrap();
    let step = step.shutdown.resume(ShutdownReply::Observed(Some(instance)));
    let step = step.shutdown.resume(ShutdownReply::Probed(ProbeOutcome::Absent));
    let step = step.shutdown.resume(ShutdownReply::Drained(true));
    assert_eq!(
        step.next,
        ShutdownNext::Ask(ShutdownRequest::ClearInstance {
            runtime_instance: Some("run".to_owned()),
        })
    );
    let step = step.shutdown.resume(ShutdownReply::Cleared(true));
    assert_eq!(step.next, ShutdownNext::Clean);
}

#[test]
fn a_session_that_stays_is_given_up_in_time() {
    assert_eq!(absence_step(false, false), AbsenceStep::Gone);
    assert_eq!(absence_step(false, true), AbsenceStep::Gone);
    assert_eq!(absence_step(true, true), AbsenceStep::GiveUp);
    assert_eq!(absence_step(true, false), AbsenceStep::Wait);
}
