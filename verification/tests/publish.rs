//! What watchers are told.
use omnifs_daemon::filesystem_supervisor::pass::{
    clear_observed, retry_deleted, terminal_failure, Clock, Next, Notice, Request, Work,
};
use omnifs_daemon::filesystem_supervisor::publish::{
    forward_runtime_event, publish_deletion, publish_notice, publish_phase,
    publish_revision_ready, record_filesystem_progress, Load,
};
use omnifs_daemon::filesystem_supervisor::{
    DesiredFilesystem, FilesystemFailure, FilesystemInstance, FilesystemObservation,
    ObservationChange,
};
use omnifs_daemon::fs_runtime::events::{Artifact, RuntimeEvent};
use omnifs_daemon::name::{
    ActionId, FilesystemProtocol, FilesystemRuntime, FilesystemSpec, FilesystemVersion,
    ProviderId, ResourceKey, ResourceKind, ResourceName, ResourceRevision,
};
use omnifs_daemon::order::{is_bytes_before, is_text_before};
use omnifs_daemon::progress::{
    event_is_terminal, target_accepts, tidy, ProgressEvent, ProgressEventKind, ProgressHub,
    ProgressSnapshot, ProgressTarget,
};
use omnifs_daemon::provider_preparer::actor::ProviderPreparer;
use omnifs_daemon::provider_preparer::{
    readiness, ProviderPreparationJob, ProviderPreparationPhase, ProviderPriority, Readiness,
};
use omnifs_daemon::records::{
    ActionKind, ActionPhase, ActionReceipt, CredentialProgressStage, FilesystemProgress,
    FilesystemProgressStage, ProviderPreparationStage, ResourcePhase, ResourceStatus,
    ServingProgressStage,
};
use omnifs_daemon::serving_reconciler::finish::{
    pending_revoke_exists, pending_step, show_pending, PendingStep, Publication,
};
use omnifs_daemon::serving_reconciler::pass::{actions_unavailable, ServingPass, ServingReply};
use omnifs_daemon::serving_reconciler::publish::{
    earlier_attempts, publish_failed_action, publish_failure, record_credential_progress,
    serving_progress,
};
use omnifs_daemon::serving_reconciler::{
    artifact_named, names_artifact, provider_is_mounted, DesiredResource,
};
use omnifs_daemon::startup::{provider_progress, record_provider_progress};

const NOW: u128 = 1_000;
const LOAD: Load = Load { queued: 2, active: 1 };

fn name(value: &str) -> ResourceName {
    ResourceName::new(value)
}

fn revision(value: u64) -> ResourceRevision {
    ResourceRevision::new(value)
}

fn hub() -> ProgressHub {
    ProgressHub::new("daemon".to_owned(), ProgressSnapshot::empty(revision(2)))
}

fn spec() -> FilesystemSpec {
    FilesystemSpec {
        protocol: FilesystemProtocol::Fuse,
        runtime: FilesystemRuntime::Docker,
        location: "/omnifs".to_owned(),
        docker_image: None,
        libkrun_guest_image: None,
    }
}

fn desired() -> DesiredFilesystem {
    DesiredFilesystem {
        name: name("work"),
        spec: spec(),
        version: FilesystemVersion { high: 0, low: 1 },
        revision: revision(2),
    }
}

fn receipt(kind: ActionKind, phase: ActionPhase) -> ActionReceipt {
    ActionReceipt {
        action_id: ActionId { value: 9 },
        kind,
        target: ResourceKey::new(ResourceKind::Credential, name("account")),
        action_generation: 1,
        phase,
        error_code: None,
        detail: None,
    }
}

fn work() -> Work {
    Work {
        name: name("work"),
        instance: FilesystemInstance::pending(name("work")),
        action: None,
        retry_count: 1,
    }
}

fn targets(events: &[ProgressEvent]) -> Vec<ProgressTarget> {
    events.iter().map(|event| event.target).collect()
}

#[test]
fn a_phase_is_told_to_the_revision_and_the_action() {
    let mut hub = hub();
    let action = Some(receipt(ActionKind::RestartFilesystem, ActionPhase::Running));
    publish_phase(
        &mut hub,
        &desired(),
        &action,
        FilesystemProgressStage::Failed,
        3,
        Some(FilesystemFailure::LaunchFailed),
        None,
        LOAD,
    );
    let events = hub.take_events();
    assert_eq!(
        targets(&events),
        vec![
            ProgressTarget::DesiredRevision(revision(2)),
            ProgressTarget::Action(ActionId { value: 9 }),
        ]
    );
    match &events[0].event {
        ProgressEventKind::FilesystemProgress(progress) => {
            assert_eq!(progress.stage, FilesystemProgressStage::Failed);
            assert_eq!(progress.retry_count, 3);
            assert_eq!(progress.queued_filesystems, 2);
            assert_eq!(progress.active_filesystems, 1);
            assert_eq!(progress.error_code.as_deref(), Some("filesystem_launch_failed"));
            assert_eq!(
                progress.detail.as_deref(),
                Some("the filesystem runtime could not start")
            );
        }
        other => panic!("unexpected event {other:?}"),
    }
}

#[test]
fn a_deletion_is_told_with_its_next_retry() {
    let mut hub = hub();
    let mut work = work();
    work.instance.retry_at = Some(7);
    publish_deletion(&mut hub, revision(2), &work, LOAD);
    let events = hub.take_events();
    assert_eq!(events.len(), 1);
    match &events[0].event {
        ProgressEventKind::FilesystemProgress(progress) => {
            assert_eq!(progress.stage, FilesystemProgressStage::Deleting);
            assert_eq!(progress.runtime, FilesystemRuntime::Host);
            assert_eq!(progress.next_retry_unix_ms, Some(7_000));
        }
        other => panic!("unexpected event {other:?}"),
    }
}

#[test]
fn runtime_events_become_progress() {
    let mut hub = hub();
    let download = RuntimeEvent::Download {
        artifact: Artifact::FilesystemImage,
        completed_bytes: 3,
        total_bytes: None,
        source: "ghcr.io".to_owned(),
    };
    forward_runtime_event(&mut hub, &desired(), &None, &download, LOAD);
    let events = hub.take_events();
    match &events[0].event {
        ProgressEventKind::FilesystemProgress(progress) => {
            assert_eq!(progress.stage, FilesystemProgressStage::PullingImage);
            assert_eq!(progress.completed_bytes, 3);
            assert_eq!(progress.total_bytes, None);
        }
        other => panic!("unexpected event {other:?}"),
    }
}

#[test]
fn notices_of_a_pass_reach_the_watchers() {
    let mut hub = hub();
    let failed = Notice::RevisionFailed {
        revision: revision(2),
        failure: FilesystemFailure::LaunchFailed,
    };
    publish_notice(&mut hub, revision(2), &work(), &Some(desired()), &failed, LOAD);
    publish_revision_ready(&mut hub, revision(2));
    let progress = FilesystemProgress {
        key: ResourceKey::new(ResourceKind::Filesystem, name("work")),
        desired_revision: revision(2),
        runtime: FilesystemRuntime::Docker,
        stage: FilesystemProgressStage::Ready,
        completed_bytes: 0,
        total_bytes: None,
        queued_filesystems: 0,
        active_filesystems: 0,
        error_code: None,
        detail: None,
        retry_count: 0,
        next_retry_unix_ms: None,
    };
    record_filesystem_progress(&mut hub, None, progress);
    let events = hub.take_events();
    assert_eq!(events.len(), 3);
    assert!(matches!(
        &events[0].event,
        ProgressEventKind::RevisionFailed { error_code, .. }
            if error_code == "filesystem_launch_failed"
    ));
    assert_eq!(events[1].event, ProgressEventKind::RevisionReady(revision(2)));
    assert_eq!(events[2].sequence, events[1].sequence + 1);
    assert_eq!(events[2].clone(), events[2]);
}

#[test]
fn failures_are_recorded_before_they_are_told() {
    let clock = Clock { unix_seconds: 10, unix_millis: 10_000 };
    let step =
        terminal_failure(revision(2), work(), desired(), FilesystemFailure::StopFailed);
    assert!(step.notices.is_empty());
    assert!(matches!(
        step.next,
        Next::Ask(Request::Observe { change: ObservationChange::Failed { .. } })
    ));
    let step = clear_observed(revision(2), work(), desired());
    assert!(matches!(
        step.next,
        Next::Ask(Request::Observe { change: ObservationChange::Cleared })
    ));
    let step =
        retry_deleted(revision(2), work(), FilesystemFailure::DeleteStopFailed, clock);
    assert!(matches!(
        step.next,
        Next::Ask(Request::Observe { change: ObservationChange::Retrying { at: 11, .. } })
    ));
    let observation = FilesystemObservation::from_instance(&work().instance);
    assert_eq!(observation.name, name("work"));
    assert_eq!(observation.runtime_instance, None);
}

#[test]
fn a_pending_action_is_started_or_told_again() {
    let accepted = receipt(ActionKind::RevokeCredential, ActionPhase::Accepted);
    assert_eq!(pending_step(&accepted), PendingStep::Start);
    let running = receipt(ActionKind::RevokeCredential, ActionPhase::Running);
    assert_eq!(pending_step(&running), PendingStep::Announce);
    let restart = receipt(ActionKind::RestartFilesystem, ActionPhase::Accepted);
    assert_eq!(pending_step(&restart), PendingStep::Skip);
    let mut hub = hub();
    show_pending(&mut hub, &running, true);
    let events = hub.take_events();
    assert_eq!(events.len(), 2);
    assert!(matches!(
        &events[1].event,
        ProgressEventKind::CredentialProgress(progress)
            if progress.stage == CredentialProgressStage::Revoking
    ));
    show_pending(&mut hub, &restart, true);
    assert!(hub.take_events().is_empty());
    assert!(pending_revoke_exists(&vec![None, Some(ActionKind::RevokeCredential)]));
    assert!(!pending_revoke_exists(&vec![None, Some(ActionKind::SetCredentialMaterial)]));
}

#[test]
fn an_action_fails_with_its_code() {
    let mut hub = hub();
    let failed = receipt(ActionKind::SetCredentialMaterial, ActionPhase::Failed);
    publish_failed_action(&mut hub, failed, "code", "detail");
    let events = hub.take_events();
    assert!(matches!(
        &events.last().unwrap().event,
        ProgressEventKind::ActionFailed { error_code, detail, .. }
            if error_code == "code" && detail == "detail"
    ));
    record_credential_progress(
        &mut hub,
        &receipt(ActionKind::SetCredentialMaterial, ActionPhase::Ready),
        CredentialProgressStage::Ready,
        None,
        None,
    );
    assert_eq!(hub.take_events().len(), 1);
    let resources = Vec::new();
    let (mut pass, _) =
        ServingPass::begin(&mut hub, revision(2), resources, Vec::new(), NOW);
    pass.resume(&mut hub, ServingReply::Enqueued(Err("broken".to_owned())), NOW);
    assert_eq!(
        pass.action_failure(),
        ("serving_reconcile_failed".to_owned(), "broken".to_owned())
    );
}

#[test]
fn a_publication_is_told_to_its_end() {
    let mut hub = hub();
    let action = ActionId { value: 9 };
    let mut publication = Publication::begin(&mut hub, revision(2), &vec![action], 2, NOW);
    assert_eq!(hub.take_events().len(), 2);
    let ready = receipt(ActionKind::SetCredentialMaterial, ActionPhase::Ready);
    publication.action_transitioned(&mut hub, "9", Ok(ready));
    assert!(matches!(
        hub.take_events().last().unwrap().event,
        ProgressEventKind::ActionCompleted(_)
    ));
    publication.show_errors(&mut hub, NOW);
    assert!(hub.take_events().is_empty());
    publication.action_transitioned(&mut hub, "9", Err("lost".to_owned()));
    assert_eq!(publication.errors, vec!["complete action 9: lost".to_owned()]);
    publication.show_errors(&mut hub, NOW);
    let serving = hub.snapshot.serving.clone().unwrap();
    assert_eq!(serving.stage, ServingProgressStage::Degraded);
    assert_eq!(serving.detail.as_deref(), Some("complete action 9: lost"));
    assert_eq!(serving.retry_count, 1);
    hub.take_events();
    publication.announce_ready(&mut hub, true);
    assert!(hub.take_events().is_empty());
    publication.announce_ready(&mut hub, false);
    assert_eq!(
        hub.take_events()[0].event,
        ProgressEventKind::RevisionReady(revision(2))
    );
    publication.show_drained(&mut hub, NOW);
    assert!(hub.take_events().is_empty());
    publication.show_stuck(&mut hub, 3, NOW);
    assert_eq!(
        hub.snapshot.serving.clone().unwrap().detail.as_deref(),
        Some("retired generation still has 3 active request(s); drain will retry")
    );
}

#[test]
fn a_failed_provider_takes_its_mounts_along() {
    let status = |kind: ResourceKind, value: &str| ResourceStatus {
        key: ResourceKey::new(kind, name(value)),
        desired_revision: revision(2),
        observed_revision: None,
        phase: ResourcePhase::Preparing,
        error_code: None,
        detail: None,
    };
    let mut snapshot = ProgressSnapshot::empty(revision(2));
    snapshot.resources = vec![
        status(ResourceKind::Provider, "p"),
        status(ResourceKind::Mount, "m"),
        status(ResourceKind::Mount, "n"),
    ];
    let resources = vec![
        DesiredResource::Provider { name: name("p"), artifact: ProviderId { high: 1, low: 0 } },
        DesiredResource::Provider { name: name("q"), artifact: ProviderId { high: 2, low: 0 } },
        DesiredResource::Mount { name: name("m"), provider: name("p"), credential: None },
        DesiredResource::Mount { name: name("n"), provider: name("q"), credential: None },
    ];
    let failed = ProviderId { high: 1, low: 0 };
    assert!(names_artifact(&resources, failed, &name("p")));
    assert!(!names_artifact(&resources, failed, &name("q")));
    assert_eq!(artifact_named(&resources, &name("p")), Some(failed));
    assert_eq!(artifact_named(&resources, &name("z")), None);
    assert!(provider_is_mounted(&resources, failed));
    assert!(!provider_is_mounted(&resources, ProviderId { high: 3, low: 0 }));
    let mut hub = ProgressHub::new("daemon".to_owned(), snapshot);
    publish_failure(
        &mut hub,
        revision(2),
        &resources,
        &Vec::new(),
        Some(failed),
        "broken",
        NOW,
    );
    let phase = |hub: &ProgressHub, place: usize| hub.snapshot.resources[place].phase;
    assert_eq!(phase(&hub, 0), ResourcePhase::Failed);
    assert_eq!(phase(&hub, 1), ResourcePhase::Failed);
    assert_ne!(phase(&hub, 2), ResourcePhase::Failed);
    assert_eq!(
        hub.snapshot.resources[0].error_code.as_deref(),
        Some("provider_preparation_failed")
    );
    actions_unavailable(&mut hub, revision(2), &resources, "no store", NOW);
    assert!(matches!(
        &hub.take_events().last().unwrap().event,
        ProgressEventKind::RevisionFailed { detail, .. } if detail == "no store"
    ));
}

#[test]
fn a_retry_names_its_time() {
    let progress =
        serving_progress(revision(2), ServingProgressStage::Retrying, 0, 1, 1, None, NOW);
    assert_eq!(progress.next_retry_unix_ms, Some(1_250));
    assert_eq!(progress.queued_generations, 0);
    let queued = serving_progress(revision(2), ServingProgressStage::Queued, 0, 1, 0, None, NOW);
    assert_eq!(queued.next_retry_unix_ms, None);
    assert_eq!(queued.queued_generations, 1);
    assert_eq!(earlier_attempts(1), 0);
    assert_eq!(earlier_attempts(0), 0);
}

#[test]
fn the_preparer_reports_what_it_does() {
    let id = ProviderId { high: 1, low: 0 };
    let mut preparer = ProviderPreparer::new(1);
    let job = ProviderPreparationJob::new(
        id,
        "catalog".to_owned(),
        vec![name("p")],
        vec![1, 2, 3],
        id,
    )
    .unwrap();
    preparer.enqueue(job, ProviderPriority::Desired, false).unwrap();
    let status = preparer.status(id).unwrap();
    assert_eq!(readiness(&status), Readiness::Pending);
    let progress = provider_progress(&status);
    assert_eq!(progress.stage, ProviderPreparationStage::Queued);
    assert_eq!(progress.total_bytes, Some(3));
    let mut hub = hub();
    assert!(!record_provider_progress(&mut hub, &status).is_empty());
    assert_eq!(hub.snapshot.providers.len(), 1);
    preparer.dispatch().unwrap();
    preparer.finish(id, Err("trap".to_owned()));
    let status = preparer.status(id).unwrap();
    assert!(status.phase.is_terminal());
    assert!(matches!(readiness(&status), Readiness::Failed { .. }));
    assert!(!ProviderPreparationPhase::Queued.is_terminal());
    assert!(ProviderPriority::Desired.above(ProviderPriority::Retained));
    assert!(!ProviderPriority::Embedded.above(ProviderPriority::Embedded));
}

#[test]
fn a_lost_worker_frees_its_place() {
    let id = ProviderId { high: 1, low: 0 };
    let mut preparer = ProviderPreparer::new(1);
    let job =
        ProviderPreparationJob::new(id, "a".to_owned(), Vec::new(), vec![1], id).unwrap();
    preparer.enqueue(job, ProviderPriority::Embedded, false).unwrap();
    preparer.dispatch().unwrap();
    assert_eq!(preparer.running, 1);
    preparer.lose_worker();
    assert_eq!(preparer.running, 0);
}

#[test]
fn names_and_bytes_are_ordered() {
    assert!(is_bytes_before(&[1, 2], &[1, 3]));
    assert!(is_bytes_before(&[1], &[1, 0]));
    assert!(!is_bytes_before(&[1], &[1]));
    assert!(is_text_before("a", "b"));
    assert!(is_text_before("a\u{ff}", "b"));
    assert_eq!(
        tidy(vec![name("b"), name("a"), name("b")]),
        vec![name("a"), name("b")]
    );
}

#[test]
fn a_watcher_of_everything_takes_every_event() {
    let of_revision = ProgressTarget::DesiredRevision(revision(2));
    assert!(target_accepts(ProgressTarget::Current, of_revision));
    assert!(target_accepts(of_revision, of_revision));
    assert!(!target_accepts(of_revision, ProgressTarget::DesiredRevision(revision(3))));
    let event = ProgressEvent {
        daemon_instance_id: "daemon".to_owned(),
        sequence: 1,
        target: of_revision,
        event: ProgressEventKind::RevisionReady(revision(2)),
    };
    assert!(event_is_terminal(&event, of_revision));
    assert!(!event_is_terminal(&event, ProgressTarget::Current));
}
