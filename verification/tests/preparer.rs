//! The preparation of provider artifacts.
use omnifs_daemon::name::{ProviderId, ResourceName};
use omnifs_daemon::provider_preparer::actor::{ProviderPreparer, Wait};
use omnifs_daemon::provider_preparer::{
    ProviderPreparationJob, ProviderPreparationPhase, ProviderPreparerError, ProviderPriority,
};

fn digest(label: u8) -> ProviderId {
    ProviderId { high: u128::from(label), low: 0 }
}

fn job(label: u8, name: &str) -> ProviderPreparationJob {
    named(label, name, &[name])
}

fn named(label: u8, catalog: &str, names: &[&str]) -> ProviderPreparationJob {
    let bytes = vec![label; usize::from(label) + 1];
    ProviderPreparationJob::new(
        digest(label),
        catalog.to_owned(),
        names.iter().map(|name| ResourceName::new(name)).collect(),
        bytes,
        digest(label),
    )
    .unwrap()
}

fn phase(preparer: &ProviderPreparer, label: u8) -> ProviderPreparationPhase {
    preparer.status(digest(label)).unwrap().phase
}

#[test]
fn an_artifact_is_filed_under_its_own_digest_only() {
    let error = ProviderPreparationJob::new(
        digest(1),
        "demo".to_owned(),
        Vec::new(),
        vec![1],
        digest(2),
    )
    .unwrap_err();
    assert_eq!(
        error,
        ProviderPreparerError::DigestMismatch { expected: digest(1), actual: digest(2) }
    );
}

#[test]
fn deduplicates_one_digest_and_merges_resource_identity() {
    let mut preparer = ProviderPreparer::new(1);
    preparer.enqueue(job(1, "blocker"), ProviderPriority::Desired, false).unwrap();
    assert_eq!(preparer.dispatch().unwrap().provider_id, digest(1));
    preparer.enqueue(job(2, "one"), ProviderPriority::Embedded, false).unwrap();
    preparer
        .enqueue(named(2, "one", &["one", "alias"]), ProviderPriority::Desired, false)
        .unwrap();
    assert!(preparer.dispatch().is_none());
    preparer.finish(digest(1), Ok(()));
    assert_eq!(preparer.dispatch().unwrap().provider_id, digest(2));
    preparer.finish(digest(2), Ok(()));
    assert!(preparer.dispatch().is_none());
    let status = preparer.status(digest(2)).unwrap();
    assert_eq!(status.phase, ProviderPreparationPhase::Ready);
    assert_eq!(status.priority, ProviderPriority::Desired);
    assert_eq!(
        status.resource_names,
        vec![ResourceName::new("alias"), ResourceName::new("one")]
    );
}

#[test]
fn queued_work_uses_desired_then_retained_then_embedded_priority() {
    let mut preparer = ProviderPreparer::new(1);
    preparer.enqueue(job(1, "active"), ProviderPriority::Embedded, false).unwrap();
    assert_eq!(preparer.dispatch().unwrap().provider_id, digest(1));
    for (label, priority) in [
        (2, ProviderPriority::Embedded),
        (3, ProviderPriority::Retained),
        (4, ProviderPriority::Desired),
    ] {
        preparer.enqueue(job(label, "waiting"), priority, false).unwrap();
    }
    let mut order = Vec::new();
    let mut running = digest(1);
    for _ in 0..3 {
        preparer.finish(running, Ok(()));
        running = preparer.dispatch().unwrap().provider_id;
        order.push(running);
    }
    assert_eq!(order, vec![digest(4), digest(3), digest(2)]);
    assert!(preparer.take_reports().iter().any(|status| {
        status.provider_id == digest(4) && status.phase == ProviderPreparationPhase::Preparing
    }));
}

#[test]
fn never_exceeds_configured_inflight_bound() {
    let mut preparer = ProviderPreparer::new(2);
    for label in 1..=3 {
        preparer.enqueue(job(label, "one"), ProviderPriority::Desired, false).unwrap();
    }
    assert!(preparer.dispatch().is_some());
    assert!(preparer.dispatch().is_some());
    assert!(preparer.dispatch().is_none());
    assert_eq!(preparer.status(digest(1)).unwrap().active_digests, 2);
}

#[test]
fn one_failure_does_not_stop_other_digests() {
    let mut preparer = ProviderPreparer::new(2);
    preparer.enqueue(job(1, "failed"), ProviderPriority::Desired, false).unwrap();
    preparer.enqueue(job(2, "healthy"), ProviderPriority::Desired, false).unwrap();
    preparer.dispatch();
    preparer.dispatch();
    preparer.finish(digest(1), Err("synthetic compile failure".to_owned()));
    preparer.finish(digest(2), Ok(()));
    assert_eq!(phase(&preparer, 1), ProviderPreparationPhase::Failed);
    assert_eq!(phase(&preparer, 2), ProviderPreparationPhase::Ready);
    let failed = preparer.status(digest(1)).unwrap();
    assert_eq!(failed.detail.as_deref(), Some("synthetic compile failure"));
}

#[test]
fn repaired_terminal_digest_requeues_and_retries() {
    let mut preparer = ProviderPreparer::new(1);
    preparer.enqueue(job(1, "repaired"), ProviderPriority::Retained, false).unwrap();
    preparer.dispatch();
    preparer.finish(digest(1), Err("broken".to_owned()));
    preparer.enqueue(job(1, "repaired"), ProviderPriority::Desired, true).unwrap();
    assert_eq!(preparer.dispatch().unwrap().provider_id, digest(1));
    preparer.finish(digest(1), Ok(()));
    let status = preparer.status(digest(1)).unwrap();
    assert_eq!(status.phase, ProviderPreparationPhase::Ready);
    assert_eq!(status.retry_count, 1);
    let phases: Vec<_> = preparer.take_reports().iter().map(|status| status.phase).collect();
    assert!(phases.windows(2).any(|phases| {
        phases == [ProviderPreparationPhase::Retrying, ProviderPreparationPhase::Queued]
    }));
}

#[test]
fn an_unrepaired_failure_is_not_tried_again() {
    let mut preparer = ProviderPreparer::new(1);
    preparer.enqueue(job(1, "broken"), ProviderPriority::Retained, false).unwrap();
    preparer.dispatch();
    preparer.finish(digest(1), Err("broken".to_owned()));
    preparer.enqueue(job(1, "broken"), ProviderPriority::Desired, false).unwrap();
    assert!(preparer.dispatch().is_none());
    assert_eq!(phase(&preparer, 1), ProviderPreparationPhase::Failed);
}

#[test]
fn shutdown_cancels_queued_work_and_joins_inflight_compilation() {
    let mut preparer = ProviderPreparer::new(1);
    preparer.enqueue(job(1, "active"), ProviderPriority::Desired, false).unwrap();
    preparer.enqueue(job(2, "queued"), ProviderPriority::Desired, false).unwrap();
    assert_eq!(preparer.dispatch().unwrap().provider_id, digest(1));
    assert!(preparer.begin_shutdown());
    assert!(!preparer.begin_shutdown());
    assert_eq!(preparer.awaited(), Wait::Completion);
    assert_eq!(
        preparer.enqueue(job(3, "late"), ProviderPriority::Desired, false),
        Err(ProviderPreparerError::ShuttingDown)
    );
    preparer.finish(digest(1), Ok(()));
    assert_eq!(preparer.awaited(), Wait::Finished);
    let queued = preparer.status(digest(2)).unwrap();
    assert_eq!(queued.phase, ProviderPreparationPhase::Failed);
    assert_eq!(queued.error_code.as_deref(), Some("provider_prepare_cancelled"));
    assert!(preparer.dispatch().is_none());
}

#[test]
fn startup_prepares_embedded_before_store_then_accepts_retained_without_waiting_for_compile() {
    let mut preparer = ProviderPreparer::new(1);
    preparer.enqueue(job(1, "embedded"), ProviderPriority::Embedded, false).unwrap();
    assert_eq!(preparer.dispatch().unwrap().provider_id, digest(1));
    assert_eq!(phase(&preparer, 1), ProviderPreparationPhase::Preparing);
    preparer.enqueue(job(2, "retained"), ProviderPriority::Retained, false).unwrap();
    assert_eq!(phase(&preparer, 2), ProviderPreparationPhase::Queued);
    assert_eq!(phase(&preparer, 1), ProviderPreparationPhase::Preparing);
    preparer.finish(digest(1), Ok(()));
    assert_eq!(preparer.dispatch().unwrap().provider_id, digest(2));
}

#[test]
fn full_or_dropped_progress_receiver_never_delays_workers() {
    let (slow_send, _slow_receive) = tokio::sync::mpsc::channel(1);
    let (dropped_send, dropped_receive) = tokio::sync::mpsc::channel(1);
    drop(dropped_receive);
    let mut preparer = ProviderPreparer::new(2);
    for (label, name) in [(1, "one"), (2, "two"), (3, "three")] {
        preparer.enqueue(job(label, name), ProviderPriority::Desired, false).unwrap();
    }
    while let Some(next) = preparer.dispatch() {
        for status in preparer.take_reports() {
            let _ = slow_send.try_send(status.phase);
            let _ = dropped_send.try_send(status.phase);
        }
        preparer.finish(next.provider_id, Ok(()));
    }
    for label in 1..=3 {
        assert_eq!(phase(&preparer, label), ProviderPreparationPhase::Ready);
    }
}

#[test]
fn each_error_says_what_it_is_about() {
    let expected = digest(1);
    let actual = digest(2);
    assert_eq!(
        ProviderPreparerError::DigestMismatch { expected, actual }.message("aa", "bb"),
        "provider digest mismatch: expected aa, computed bb"
    );
    assert_eq!(
        ProviderPreparerError::ShuttingDown.message("aa", ""),
        "provider preparer is shutting down"
    );
    assert_eq!(
        ProviderPreparerError::UnknownProvider(expected).message("aa", ""),
        "provider aa has not been queued"
    );
    let failed = ProviderPreparerError::PreparationFailed {
        provider_id: expected,
        error_code: "compile".to_owned(),
        detail: "bad module".to_owned(),
    };
    assert_eq!(failed.message("aa", ""), "provider aa preparation failed (compile): bad module");
    assert_eq!(
        ProviderPreparerError::Supervisor("lost".to_owned()).message("", ""),
        "provider preparer task failed: lost"
    );
}
