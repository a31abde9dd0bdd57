//! Progress snapshots, events and watchers.
use omnifs_daemon::filesystem_supervisor::{namespace_ready, retry_delay, RETRY_CAP};
use omnifs_daemon::name::{
    ActionId, ProviderId, ResourceKey, ResourceKind, ResourceName, ResourceRevision,
};
use omnifs_daemon::progress::subscription::Subscription;
use omnifs_daemon::progress::{
    ProgressEventKind, ProgressHub, ProgressSnapshot, ProgressTarget, ProgressTargetState,
    ProviderNames,
};
use omnifs_daemon::records::{
    ActionKind, ActionPhase, ActionReceipt, ProviderPreparationProgress, ProviderPreparationStage,
    ResourcePhase, ResourceStatus, ServingProgress, ServingProgressStage,
};

fn name(value: &str) -> ResourceName {
    ResourceName::new(value)
}

fn resource(revision: u64, phase: ResourcePhase) -> ResourceStatus {
    ResourceStatus {
        key: ResourceKey::new(ResourceKind::Provider, name("demo")),
        desired_revision: ResourceRevision::new(revision),
        observed_revision: (phase == ResourcePhase::Ready)
            .then_some(ResourceRevision::new(revision)),
        phase,
        error_code: None,
        detail: None,
    }
}

fn snapshot(revision: u64, phase: ResourcePhase) -> ProgressSnapshot {
    ProgressSnapshot {
        desired_revision: ResourceRevision::new(revision),
        observed_revision: (phase == ResourcePhase::Ready)
            .then_some(ResourceRevision::new(revision)),
        resources: vec![resource(revision, phase)],
        actions: Vec::new(),
        providers: Vec::new(),
        serving: None,
        credentials: Vec::new(),
        filesystems: Vec::new(),
    }
}

fn serving(revision: u64, stage: ServingProgressStage) -> ServingProgress {
    ServingProgress {
        revision: ResourceRevision::new(revision),
        stage,
        completed: 0,
        total: 1,
        error_code: None,
        detail: None,
        queued_generations: 0,
        retry_count: 0,
        next_retry_unix_ms: None,
    }
}

fn receipt(action_id: ActionId, phase: ActionPhase) -> ActionReceipt {
    ActionReceipt {
        action_id,
        kind: ActionKind::SetCredentialMaterial,
        target: ResourceKey::new(ResourceKind::Credential, name("account")),
        action_generation: 3,
        phase,
        error_code: None,
        detail: None,
    }
}

fn desired(revision: u64) -> ProgressTarget {
    ProgressTarget::DesiredRevision(ResourceRevision::new(revision))
}

#[test]
fn retry_backoff_is_capped() {
    assert_eq!(retry_delay(1), 250);
    assert_eq!(retry_delay(2), 500);
    assert_eq!(retry_delay(3), 1000);
    assert_eq!(retry_delay(99), RETRY_CAP);
}

#[test]
fn newer_serving_generation_satisfies_an_unchanged_filesystem() {
    let ready = Some(ServingProgress {
        completed: 1,
        ..serving(2, ServingProgressStage::Ready)
    });
    assert!(namespace_ready(&ready, ResourceRevision::new(1)));
    assert!(!namespace_ready(&ready, ResourceRevision::new(3)));
    assert!(!namespace_ready(&None, ResourceRevision::new(1)));
}

#[test]
fn stale_revision_updates_never_replace_the_current_snapshot() {
    let mut hub = ProgressHub::new("daemon".to_owned(), snapshot(1, ResourcePhase::Preparing));
    hub.update_snapshot(desired(2), |_current| snapshot(2, ResourcePhase::Pending));

    hub.record_serving_for_revision(
        ResourceRevision::new(1),
        serving(1, ServingProgressStage::Ready),
    );
    assert!(!hub.update_revision_snapshot(ResourceRevision::new(1), |mut current| {
        current.observed_revision = Some(ResourceRevision::new(1));
        current
    }));

    let (_, current) = hub.snapshot_for(ProgressTarget::Current);
    assert_eq!(current.desired_revision, ResourceRevision::new(2));
    assert_eq!(current.resources, vec![resource(2, ResourcePhase::Pending)]);
    assert!(current.serving.is_none());
    assert!(current.observed_revision.is_none());
}

#[test]
fn action_snapshot_keeps_its_correlated_serving_stage_across_reconnect() {
    let action_id = ActionId { value: u128::from_be_bytes([9; 16]) };
    let mut current = snapshot(1, ResourcePhase::Pending);
    current.actions.push(receipt(action_id, ActionPhase::Running));
    let mut hub = ProgressHub::new("daemon".to_owned(), current);
    hub.record_action_serving(action_id, serving(1, ServingProgressStage::Building));

    let (_, running) = hub.snapshot_for(ProgressTarget::Action(action_id));
    assert_eq!(running.serving, Some(serving(1, ServingProgressStage::Building)));
    let mut ready = running.actions[0].clone();
    ready.phase = ActionPhase::Ready;
    hub.record_action_receipt(ready);

    let (_, reconnected) = hub.snapshot_for(ProgressTarget::Action(action_id));
    assert_eq!(reconnected.actions[0].phase, ActionPhase::Ready);
    assert_eq!(reconnected.serving, Some(serving(1, ServingProgressStage::Building)));
    assert_eq!(hub.target_state(ProgressTarget::Action(action_id)), ProgressTargetState::Ready);
}

#[test]
fn subscribe_then_snapshot_closes_the_update_race_and_sequences_events() {
    let mut hub = ProgressHub::new("daemon".to_owned(), snapshot(1, ResourcePhase::Pending));
    let (mut watcher, first) = Subscription::open(&hub, desired(1));
    let sequence = hub.publish_snapshot(desired(1), snapshot(1, ResourcePhase::Ready));
    let mut events = hub.take_events();
    assert_eq!(events.len(), 1);
    let second = watcher.receive(&hub, events.remove(0)).unwrap();
    assert!(first.event.sequence < second.event.sequence);
    assert_eq!(second.event.sequence, sequence);
    assert!(matches!(second.event.event, ProgressEventKind::Snapshot(_)));
}

#[test]
fn lagged_consumers_resync_and_disconnect_never_blocks_publishers() {
    let mut hub = ProgressHub::new("daemon".to_owned(), snapshot(1, ResourcePhase::Pending));
    let (mut watcher, _) = Subscription::open(&hub, ProgressTarget::Current);
    for _ in 0..1024 {
        hub.publish(
            ProgressTarget::Current,
            ProgressEventKind::ServingProgress(serving(1, ServingProgressStage::Building)),
        );
    }
    let mut events = hub.take_events();
    let recovered = watcher.recover(&hub);
    assert!(matches!(recovered.event.event, ProgressEventKind::Resync(_)));
    // What the resync already shows is not sent again.
    assert!(watcher.receive(&hub, events.remove(0)).is_none());
}

#[test]
fn targets_filter_unrelated_work_and_snapshots_drive_terminal_state() {
    let action_id = ActionId { value: u128::from_be_bytes([7; 16]) };
    let mut complete = snapshot(2, ResourcePhase::Ready);
    complete.actions.push(receipt(action_id, ActionPhase::Ready));
    let mut hub = ProgressHub::new("daemon".to_owned(), complete);
    assert_eq!(hub.target_state(desired(2)), ProgressTargetState::Ready);
    assert_eq!(hub.target_state(desired(1)), ProgressTargetState::Superseded);
    assert_eq!(hub.target_state(ProgressTarget::Action(action_id)), ProgressTargetState::Ready);
    assert_eq!(hub.target_state(ProgressTarget::Current), ProgressTargetState::Current);

    let (mut revision, opening) = Subscription::open(&hub, desired(2));
    assert!(opening.terminal);
    hub.publish(
        ProgressTarget::Current,
        ProgressEventKind::ServingProgress(serving(2, ServingProgressStage::Building)),
    );
    let mut events = hub.take_events();
    assert!(revision.receive(&hub, events.remove(0)).is_none());
}

fn preparation(digest: ProviderId, stage: ProviderPreparationStage) -> ProviderPreparationProgress {
    ProviderPreparationProgress {
        digest,
        catalog_name: "catalog".to_owned(),
        resource_names: vec![name("old"), name("new")],
        stage,
        queue_position: None,
        completed_bytes: 1,
        total_bytes: Some(1),
        error_code: None,
        detail: None,
        queued_digests: 0,
        active_digests: 0,
        completed_digests: 1,
        retry_count: 0,
    }
}

#[test]
fn revision_provider_membership_is_exact_and_streams_close_at_terminal_event() {
    let digest = ProviderId { high: 5, low: 6 };
    let mut current = snapshot(3, ResourcePhase::Pending);
    current.providers.push(preparation(digest, ProviderPreparationStage::Ready));
    let mut hub = ProgressHub::new("daemon".to_owned(), current);
    hub.register_revision_providers(
        ResourceRevision::new(3),
        vec![ProviderNames { digest, names: vec![name("new")] }],
    );
    let (_, filtered) = hub.snapshot_for(desired(3));
    assert_eq!(filtered.providers[0].resource_names, vec![name("new")]);

    let (mut stream, opening) = Subscription::open(&hub, desired(3));
    assert!(!opening.terminal);
    hub.record_provider_status(&preparation(digest, ProviderPreparationStage::Compiling));
    let mut told = Vec::new();
    for event in hub.take_events() {
        if let Some(delivery) = stream.receive(&hub, event) {
            told.push(delivery);
        }
    }
    assert_eq!(told.len(), 1);
    match &told[0].event.event {
        ProgressEventKind::ProviderPreparation(progress) => {
            assert_eq!(progress.resource_names, vec![name("new")]);
        }
        other => panic!("unexpected event: {other:?}"),
    }
    hub.publish(desired(3), ProgressEventKind::RevisionReady(ResourceRevision::new(3)));
    let mut events = hub.take_events();
    assert!(stream.receive(&hub, events.remove(0)).unwrap().terminal);
}
