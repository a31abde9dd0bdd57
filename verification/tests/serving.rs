//! Runs from the desired resources to a served generation.
use omnifs_daemon::name::{
    ActionId, ProviderId, ResourceKey, ResourceKind, ResourceName, ResourceRevision,
};
use omnifs_daemon::progress::subscription::Subscription;
use omnifs_daemon::progress::{
    ProgressEventKind, ProgressHub, ProgressSnapshot, ProgressTarget, ProgressTargetState,
};
use omnifs_daemon::records::{
    ActionKind, ActionPhase, ActionReceipt, CredentialProgressStage, ResourcePhase, ResourceStatus,
    ServingProgressStage,
};
use omnifs_daemon::serving_reconciler::cycle::{ReconcilerAction, ReconcilerCycle, ReconcilerEvent};
use omnifs_daemon::serving_reconciler::finish::{
    drain_step, judge_revocation, ActionStep, DrainOutcome, DrainStep, Publication,
    RevocationActionOutcome, RevocationStep,
};
use omnifs_daemon::serving_reconciler::pass::{
    desired_unavailable, interrupt_step, required_failure, InterruptEvent, ReconcileInterrupt,
    ServingEnd, ServingPass, ServingReply, ServingRequest,
};
use omnifs_daemon::serving_reconciler::publish::{
    mark_resources_preparing, next_retry_unix_ms, publish_background_serving,
    publish_completed_action, publish_retry, publish_serving_targets, publish_superseded,
};
use omnifs_daemon::serving_reconciler::{
    coalesce_provider_import, pending_credential_action_stage, required_providers, requeues,
    revision_requires_reconcile, DesiredResource, ProviderImport,
};
use omnifs_daemon::provider_preparer::{ProviderPreparationPhase, ProviderPreparerError};

const NOW: u128 = 1_000;

fn name(value: &str) -> ResourceName {
    ResourceName::new(value)
}

fn receipt(action_id: ActionId, phase: ActionPhase) -> ActionReceipt {
    ActionReceipt {
        action_id,
        kind: ActionKind::SetCredentialMaterial,
        target: ResourceKey::new(ResourceKind::Credential, name("account")),
        action_generation: 1,
        phase,
        error_code: None,
        detail: None,
    }
}

fn snapshot(revision: u64, observed: Option<u64>) -> ProgressSnapshot {
    ProgressSnapshot {
        desired_revision: ResourceRevision::new(revision),
        observed_revision: observed.map(ResourceRevision::new),
        resources: vec![ResourceStatus {
            key: ResourceKey::new(ResourceKind::Mount, name("mount")),
            desired_revision: ResourceRevision::new(revision),
            observed_revision: observed.map(ResourceRevision::new),
            phase: ResourcePhase::Preparing,
            error_code: None,
            detail: None,
        }],
        actions: Vec::new(),
        providers: Vec::new(),
        serving: None,
        credentials: Vec::new(),
        filesystems: Vec::new(),
    }
}

fn hub(snapshot: ProgressSnapshot) -> ProgressHub {
    ProgressHub::new("reconciler-test".to_owned(), snapshot)
}

fn revision(value: u64) -> ProgressTarget {
    ProgressTarget::DesiredRevision(ResourceRevision::new(value))
}

fn artifact(value: u128) -> ProviderId {
    ProviderId { high: value, low: 0 }
}

#[test]
fn coalesced_imports_keep_the_repair_bit_for_one_digest() {
    let id = artifact(7);
    let mut imports = Vec::new();
    coalesce_provider_import(&mut imports, id, false);
    coalesce_provider_import(&mut imports, id, true);
    coalesce_provider_import(&mut imports, id, false);
    assert_eq!(imports.len(), 1);
    assert_eq!(imports[0], ProviderImport { provider_id: id, repaired: true });
}

#[test]
fn pending_credential_actions_recover_their_safe_stage_by_kind() {
    assert_eq!(
        pending_credential_action_stage(ActionKind::SetCredentialMaterial),
        Some(CredentialProgressStage::Refreshing)
    );
    assert_eq!(
        pending_credential_action_stage(ActionKind::RevokeCredential),
        Some(CredentialProgressStage::Revoking)
    );
    assert_eq!(pending_credential_action_stage(ActionKind::RestartFilesystem), None);
}

#[test]
fn stale_revision_is_terminal_without_replacing_the_last_good_snapshot() {
    let mut hub = hub(snapshot(2, Some(1)));
    let (mut stream, _) = Subscription::open(&hub, revision(2));
    publish_superseded(
        &mut hub,
        ResourceRevision::new(2),
        &Vec::new(),
        ResourceRevision::new(3),
        1,
        NOW,
    );
    assert_eq!(hub.target_state(revision(2)), ProgressTargetState::Watching);
    let (_, current) = hub.snapshot_for(ProgressTarget::Current);
    assert_eq!(current.observed_revision, Some(ResourceRevision::new(1)));
    let told: Vec<_> = hub
        .take_events()
        .into_iter()
        .filter_map(|event| stream.receive(&hub, event))
        .collect();
    assert_eq!(told.len(), 2);
    assert!(matches!(told[0].event.event, ProgressEventKind::ServingProgress(_)));
    assert!(matches!(told[1].event.event, ProgressEventKind::RevisionSuperseded { .. }));
    assert!(told[1].terminal);
}

#[test]
fn preparing_clears_a_stale_terminal_observation() {
    let mut hub = hub(snapshot(1, Some(1)));
    mark_resources_preparing(&mut hub, ResourceRevision::new(1));
    let (_, current) = hub.snapshot_for(ProgressTarget::Current);
    assert_eq!(current.observed_revision, None);
    assert_eq!(current.resources[0].phase, ResourcePhase::Preparing);
    assert_eq!(current.resources[0].observed_revision, None);
    assert_eq!(hub.target_state(revision(1)), ProgressTargetState::Watching);
}

#[test]
fn unchanged_terminal_revision_wakeup_does_not_rebuild_the_generation() {
    let mut ready = snapshot(1, Some(1));
    ready.resources[0].phase = ResourcePhase::Ready;
    let mut hub = hub(ready);
    assert!(!revision_requires_reconcile(&hub, ResourceRevision::new(1)));
    mark_resources_preparing(&mut hub, ResourceRevision::new(1));
    assert!(revision_requires_reconcile(&hub, ResourceRevision::new(1)));
}

#[test]
fn stable_failure_preserves_last_good_revision_and_marks_only_the_new_target_failed() {
    let mut hub = hub(snapshot(2, Some(1)));
    desired_unavailable(&mut hub, "synthetic generation failure", NOW);
    let (_, current) = hub.snapshot_for(ProgressTarget::Current);
    assert_eq!(current.observed_revision, Some(ResourceRevision::new(1)));
    assert_eq!(current.resources[0].phase, ResourcePhase::Failed);
    assert_eq!(current.resources[0].error_code.as_deref(), Some("serving_reconcile_failed"));
    assert_eq!(
        current.serving.as_ref().map(|serving| serving.stage),
        Some(ServingProgressStage::Failed)
    );
}

#[test]
fn retry_and_drain_degraded_stages_keep_action_correlation() {
    let action_id = ActionId { value: u128::from_be_bytes([8; 16]) };
    let mut hub = hub(snapshot(2, Some(1)));
    hub.record_action_receipt(receipt(action_id, ActionPhase::Running));
    publish_retry(&mut hub, ResourceRevision::new(2), &vec![action_id], 2, "retry me", NOW);
    publish_background_serving(
        &mut hub,
        ResourceRevision::new(2),
        &vec![action_id],
        ServingProgressStage::Degraded,
        2,
        Some("retired generation remains active".to_owned()),
        NOW,
    );
    let (_, current) = hub.snapshot_for(revision(2));
    assert_eq!(
        current.serving.as_ref().map(|serving| serving.stage),
        Some(ServingProgressStage::Degraded)
    );
    let (_, action) = hub.snapshot_for(ProgressTarget::Action(action_id));
    assert_eq!(action.serving, current.serving);
    assert_eq!(action.actions[0].phase, ActionPhase::Running);
}

#[test]
fn action_terminal_event_follows_the_correlated_serving_snapshot() {
    let action_id = ActionId { value: u128::from_be_bytes([9; 16]) };
    let mut hub = hub(snapshot(2, Some(1)));
    hub.record_action_receipt(receipt(action_id, ActionPhase::Running));
    let (mut stream, _) = Subscription::open(&hub, ProgressTarget::Action(action_id));
    hub.take_events();
    publish_serving_targets(
        &mut hub,
        ResourceRevision::new(2),
        &vec![action_id],
        ServingProgressStage::Building,
        0,
        1,
        0,
        None,
        NOW,
    );
    publish_completed_action(&mut hub, receipt(action_id, ActionPhase::Ready));
    let (_, action) = hub.snapshot_for(ProgressTarget::Action(action_id));
    assert_eq!(action.actions[0].phase, ActionPhase::Ready);
    assert_eq!(
        action.serving.as_ref().map(|serving| serving.stage),
        Some(ServingProgressStage::Building)
    );
    let told: Vec<_> = hub
        .take_events()
        .into_iter()
        .filter_map(|event| stream.receive(&hub, event))
        .collect();
    assert_eq!(told.len(), 4);
    assert!(matches!(told[0].event.event, ProgressEventKind::ServingProgress(_)));
    assert!(matches!(told[1].event.event, ProgressEventKind::CredentialProgress(_)));
    assert!(matches!(told[2].event.event, ProgressEventKind::Snapshot(_)));
    assert!(matches!(told[3].event.event, ProgressEventKind::ActionCompleted(_)));
    assert!(told[3].terminal);
}

#[test]
fn shutdown_interrupt_never_retargets_a_revision_stream() {
    let mut hub = hub(snapshot(2, Some(1)));
    let (mut pass, request) =
        ServingPass::begin(&mut hub, ResourceRevision::new(2), Vec::new(), Vec::new(), NOW);
    assert_eq!(request, ServingRequest::EnqueueProviders { retry_failed: false });
    pass.resume(&mut hub, ServingReply::Enqueued(Ok(vec![artifact(1)])), NOW);
    let request =
        pass.resume(&mut hub, ServingReply::Interrupted(ReconcileInterrupt::Shutdown), NOW);
    assert_eq!(request, ServingRequest::End(ServingEnd::Shutdown));
    assert_eq!(hub.target_state(revision(2)), ProgressTargetState::Watching);
}

#[test]
fn a_generation_is_published_once_its_artifacts_are_ready() {
    let mut hub = hub(snapshot(2, Some(1)));
    let (mut pass, _) =
        ServingPass::begin(&mut hub, ResourceRevision::new(2), Vec::new(), Vec::new(), NOW);
    let request = pass.resume(&mut hub, ServingReply::Enqueued(Ok(vec![artifact(1)])), NOW);
    assert_eq!(request, ServingRequest::WaitReady(artifact(1)));
    let request = pass.resume(&mut hub, ServingReply::Ready(Ok(())), NOW);
    assert_eq!(request, ServingRequest::Build);
    let request = pass.resume(&mut hub, ServingReply::Built(Ok(())), NOW);
    assert_eq!(request, ServingRequest::LatestRevision);
    let request =
        pass.resume(&mut hub, ServingReply::Latest(Ok(ResourceRevision::new(2))), NOW);
    assert_eq!(request, ServingRequest::CheckRevokes);
    let request = pass.resume(&mut hub, ServingReply::Revokes(Ok(true)), NOW);
    assert_eq!(request, ServingRequest::Publish { close_admission: true });
    let request = pass.resume(&mut hub, ServingReply::Published, NOW);
    assert_eq!(request, ServingRequest::End(ServingEnd::Published));
}

#[test]
fn an_overtaken_generation_is_not_published() {
    let mut hub = hub(snapshot(2, Some(1)));
    let (mut pass, _) =
        ServingPass::begin(&mut hub, ResourceRevision::new(2), Vec::new(), Vec::new(), NOW);
    pass.resume(&mut hub, ServingReply::Enqueued(Ok(Vec::new())), NOW);
    pass.resume(&mut hub, ServingReply::Built(Ok(())), NOW);
    let request =
        pass.resume(&mut hub, ServingReply::Latest(Ok(ResourceRevision::new(3))), NOW);
    assert_eq!(request, ServingRequest::End(ServingEnd::Superseded));
}

#[test]
fn a_failed_build_is_tried_three_times() {
    let mut hub = hub(snapshot(2, Some(1)));
    let (mut pass, _) =
        ServingPass::begin(&mut hub, ResourceRevision::new(2), Vec::new(), Vec::new(), NOW);
    for attempt in 1..=3 {
        pass.resume(&mut hub, ServingReply::Enqueued(Ok(Vec::new())), NOW);
        let request = pass.resume(&mut hub, ServingReply::Built(Err("broken".to_owned())), NOW);
        if attempt < 3 {
            assert_eq!(request, ServingRequest::Pause { millis: 250 });
            let request = pass.resume(&mut hub, ServingReply::Paused, NOW);
            assert_eq!(request, ServingRequest::EnqueueProviders { retry_failed: true });
        } else {
            assert_eq!(request, ServingRequest::End(ServingEnd::Failed));
        }
    }
}

#[test]
fn only_mounted_artifacts_are_required() {
    let resources = vec![
        DesiredResource::Provider { name: name("a"), artifact: artifact(1) },
        DesiredResource::Provider { name: name("b"), artifact: artifact(2) },
        DesiredResource::Provider { name: name("c"), artifact: artifact(1) },
        DesiredResource::Mount { name: name("m"), provider: name("a"), credential: None },
        DesiredResource::Mount { name: name("n"), provider: name("c"), credential: None },
    ];
    let required = required_providers(&resources).unwrap();
    assert_eq!(required.len(), 1);
    assert_eq!(required[0].digest, artifact(1));
    assert_eq!(required[0].names, vec![name("a"), name("c")]);
    let absent = vec![DesiredResource::Mount {
        name: name("m"),
        provider: name("gone"),
        credential: None,
    }];
    assert!(required_providers(&absent).unwrap_err().contains("gone"));
    assert!(requeues(true, Some(ProviderPreparationPhase::Failed)));
    assert!(!requeues(false, Some(ProviderPreparationPhase::Failed)));
}

#[test]
fn a_publication_collects_what_went_wrong() {
    let mut hub = hub(snapshot(2, Some(1)));
    let mut publication =
        Publication::begin(&mut hub, ResourceRevision::new(2), &Vec::new(), 1, NOW);
    publication.refreshes_activated(Err("store".to_owned()));
    publication.serving_marked(Ok(()));
    assert_eq!(publication.errors, vec!["credential refresh activation failed: store".to_owned()]);
    let action = ActionId { value: 4 };
    assert_eq!(
        publication.action_read(action, "4", Ok(Some(ActionKind::RevokeCredential))),
        ActionStep::AwaitDrain
    );
    assert_eq!(publication.revoke_actions, vec![action]);
    assert_eq!(publication.action_read(action, "4", Ok(None)), ActionStep::Skip);
}

#[test]
fn only_news_cuts_a_run_short() {
    let running = ResourceRevision::new(3);
    let newer = ResourceRevision::new(4);
    let heard = |latest| interrupt_step(InterruptEvent::Revision { latest }, running);
    assert_eq!(heard(Some(running)), None);
    assert_eq!(heard(Some(newer)), Some(ReconcileInterrupt::Superseded(newer)));
    assert_eq!(heard(None), Some(ReconcileInterrupt::Shutdown));
    let signalled = |requested| interrupt_step(InterruptEvent::Shutdown { requested }, running);
    assert_eq!(signalled(Some(false)), None);
    assert_eq!(signalled(Some(true)), Some(ReconcileInterrupt::Shutdown));
    assert_eq!(signalled(None), Some(ReconcileInterrupt::Shutdown));
}

#[test]
fn revocations_complete_only_after_the_drain() {
    assert_eq!(drain_step(DrainOutcome::Drained), DrainStep::Complete);
    assert_eq!(
        drain_step(DrainOutcome::Stuck { active: 2 }),
        DrainStep::Retry { active: 2, millis: 250 }
    );
}

#[test]
fn a_provider_that_cannot_be_prepared_is_named() {
    let error = ProviderPreparerError::PreparationFailed {
        provider_id: artifact(1),
        error_code: "compile".to_owned(),
        detail: "bad module".to_owned(),
    };
    assert_eq!(
        required_failure("abc", &error, ""),
        "prepare required provider abc: provider abc preparation failed (compile): bad module"
    );
}

#[test]
fn only_a_deletion_completes_a_revocation() {
    assert_eq!(judge_revocation(Ok(RevocationActionOutcome::Deleted)), RevocationStep::Complete);
    assert!(matches!(
        judge_revocation(Ok(RevocationActionOutcome::Unknown)),
        RevocationStep::Fail { error_code, .. } if error_code == "credential_revocation_unknown"
    ));
    assert!(matches!(
        judge_revocation(Err("no".to_owned())),
        RevocationStep::Fail { error_code, .. } if error_code == "credential_revocation_failed"
    ));
}

#[test]
fn the_reconciler_waits_once_it_is_settled() {
    let mut cycle = ReconcilerCycle::new();
    assert_eq!(cycle.decide(false), ReconcilerAction::Reconcile);
    assert!(!cycle.tell(ReconcilerEvent::Settled));
    assert_eq!(cycle.decide(false), ReconcilerAction::Wait);
    cycle.tell(ReconcilerEvent::Imported { used: true });
    assert_eq!(cycle.decide(false), ReconcilerAction::Reconcile);
    assert_eq!(cycle.decide(true), ReconcilerAction::Exit);
    assert_eq!(next_retry_unix_ms(1_000), 1_250);
    assert_eq!(next_retry_unix_ms(u128::MAX), u64::MAX);
}
