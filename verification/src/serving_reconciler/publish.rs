//! What watchers are told while desired resources become a serving
//! generation.
use crate::name::{ActionId, ProviderId, ResourceKind, ResourceName, ResourceRevision};
use crate::progress::{
    HubView, KindView, ProgressEventKind, ProgressHub, ProgressTarget, SnapshotView,
};
use crate::records::{
    ActionReceipt, CredentialProgress, CredentialProgressStage, CredentialView, ReceiptView,
    ResourcePhase, ServingProgress, ServingProgressStage, ServingView, StatusView,
};
use crate::serving_reconciler::{
    names_artifact, DesiredResource, DesiredView, MAX_RECONCILE_ATTEMPTS, RECONCILE_RETRY_DELAY,
};
use crate::text::{concat, decimal};
use vstd::prelude::*;

verus! {

/// When a reconciliation that failed now is tried again, in milliseconds of
/// Unix time.
pub open spec fn retry_time(now: u128) -> u64 {
    if now + RECONCILE_RETRY_DELAY <= u64::MAX {
        (now + RECONCILE_RETRY_DELAY) as u64
    } else {
        u64::MAX
    }
}

/// When a reconciliation that failed now is tried again, in milliseconds of
/// Unix time.
pub fn next_retry_unix_ms(now: u128) -> (at: u64)
    ensures
        at == retry_time(now),
{
    if now <= (u64::MAX - RECONCILE_RETRY_DELAY) as u128 {
        now as u64 + RECONCILE_RETRY_DELAY
    } else {
        u64::MAX
    }
}

/// A stage of a revision on its way to being served.
pub open spec fn serving_stage(
    revision: ResourceRevision,
    stage: ServingProgressStage,
    completed: u32,
    total: u32,
    retry_count: u32,
    detail: Option<Seq<char>>,
    now: u128,
) -> ServingView {
    ServingView {
        revision,
        stage,
        completed,
        total,
        error_code: None,
        detail,
        queued_generations: if stage == ServingProgressStage::Queued {
            1
        } else {
            0
        },
        retry_count,
        next_retry_unix_ms: if stage == ServingProgressStage::Retrying {
            Some(retry_time(now))
        } else {
            None
        },
    }
}

/// A stage of a revision on its way to being served.
pub fn serving_progress(
    revision: ResourceRevision,
    stage: ServingProgressStage,
    completed: u32,
    total: u32,
    retry_count: u32,
    detail: Option<String>,
    now: u128,
) -> (progress: ServingProgress)
    ensures
        progress@ == serving_stage(
            revision,
            stage,
            completed,
            total,
            retry_count,
            crate::text::opt_text(detail),
            now,
        ),
{
    ServingProgress {
        revision,
        stage,
        completed,
        total,
        error_code: None,
        detail,
        queued_generations: if stage == ServingProgressStage::Queued {
            1
        } else {
            0
        },
        retry_count,
        next_retry_unix_ms: if stage == ServingProgressStage::Retrying {
            Some(next_retry_unix_ms(now))
        } else {
            None
        },
    }
}

/// The hub after a stage was recorded for each action.
pub open spec fn told_actions(hub: HubView, actions: Seq<ActionId>, progress: ServingView) -> HubView
    decreases actions.len(),
{
    if actions.len() == 0 {
        hub
    } else {
        crate::progress::hub::action_serving_recorded(
            told_actions(hub, actions.drop_last(), progress),
            actions.last(),
            progress,
        )
    }
}

/// The hub after a stage was recorded for a revision and its actions.
pub open spec fn told_targets(hub: HubView, actions: Seq<ActionId>, progress: ServingView) -> HubView {
    told_actions(
        crate::progress::hub::serving_recorded(hub, progress.revision, progress),
        actions,
        progress,
    )
}

/// Recording a stage takes one number for the revision and one per action.
pub proof fn telling_actions_counts(hub: HubView, actions: Seq<ActionId>, progress: ServingView)
    requires
        hub.sequence + actions.len() <= u64::MAX,
    ensures
        told_actions(hub, actions, progress).sequence == hub.sequence + actions.len(),
    decreases actions.len(),
{
    if actions.len() > 0 {
        telling_actions_counts(hub, actions.drop_last(), progress);
    }
}

/// Records a stage for a revision and its actions.
pub fn tell_targets(hub: &mut ProgressHub, actions: &Vec<ActionId>, progress: ServingProgress)
    requires
        old(hub).sequence + 1 + actions@.len() <= u64::MAX,
    ensures
        final(hub)@ == told_targets(old(hub)@, actions@, progress@),
        final(hub).sequence == old(hub).sequence + 1 + actions@.len(),
{
    hub.record_serving_for_revision(progress.revision, progress.clone());
    let ghost started = hub@;
    let mut i: usize = 0;
    assert(actions@.take(0) =~= Seq::empty());
    while i < actions.len()
        invariant
            i <= actions@.len(),
            started.sequence + actions@.len() <= u64::MAX,
            hub@ == told_actions(started, actions@.take(i as int), progress@),
            hub.sequence == started.sequence + i,
        decreases actions@.len() - i,
    {
        assert(actions@.take(i + 1).drop_last() =~= actions@.take(i as int));
        hub.record_action_serving(actions[i], progress.clone());
        i = i + 1;
    }
    assert(actions@.take(i as int) =~= actions@);
}

/// The hub after a stage of a revision.
pub open spec fn staged(
    hub: HubView,
    revision: ResourceRevision,
    actions: Seq<ActionId>,
    stage: ServingProgressStage,
    completed: u32,
    total: u32,
    retry_count: u32,
    detail: Option<Seq<char>>,
    now: u128,
) -> HubView {
    told_targets(
        hub,
        actions,
        serving_stage(revision, stage, completed, total, retry_count, detail, now),
    )
}

/// Publishes a stage of a revision.
pub fn publish_serving_targets(
    hub: &mut ProgressHub,
    revision: ResourceRevision,
    actions: &Vec<ActionId>,
    stage: ServingProgressStage,
    completed: u32,
    total: u32,
    retry_count: u32,
    detail: Option<String>,
    now: u128,
)
    requires
        old(hub).sequence + 1 + actions@.len() <= u64::MAX,
    ensures
        final(hub)@ == staged(
            old(hub)@,
            revision,
            actions@,
            stage,
            completed,
            total,
            retry_count,
            crate::text::opt_text(detail),
            now,
        ),
        final(hub).sequence == old(hub).sequence + 1 + actions@.len(),
{
    let progress = serving_progress(revision, stage, completed, total, retry_count, detail, now);
    tell_targets(hub, actions, progress);
}

/// The stage of a generation that is served already.
pub open spec fn background(
    hub: HubView,
    revision: ResourceRevision,
    actions: Seq<ActionId>,
    stage: ServingProgressStage,
    retry_count: u32,
    detail: Option<Seq<char>>,
    now: u128,
) -> HubView {
    staged(hub, revision, actions, stage, 1, 1, retry_count, detail, now)
}

/// Publishes the stage of a generation that is served already.
pub fn publish_background_serving(
    hub: &mut ProgressHub,
    revision: ResourceRevision,
    actions: &Vec<ActionId>,
    stage: ServingProgressStage,
    retry_count: u32,
    detail: Option<String>,
    now: u128,
)
    requires
        old(hub).sequence + 1 + actions@.len() <= u64::MAX,
    ensures
        final(hub)@ == background(
            old(hub)@,
            revision,
            actions@,
            stage,
            retry_count,
            crate::text::opt_text(detail),
            now,
        ),
        final(hub).sequence == old(hub).sequence + 1 + actions@.len(),
{
    publish_serving_targets(hub, revision, actions, stage, 1, 1, retry_count, detail, now);
}

/// How often a reconciliation was tried before this attempt.
pub open spec fn earlier(attempt: u32) -> u32 {
    if attempt == 0 {
        0
    } else {
        (attempt - 1) as u32
    }
}

/// How often a reconciliation was tried before this attempt.
pub fn earlier_attempts(attempt: u32) -> (count: u32)
    ensures
        count == earlier(attempt),
{
    if attempt == 0 {
        0
    } else {
        attempt - 1
    }
}

/// The status of a resource whose revision is being prepared anew: nothing of
/// it is observed before it is served again.
pub open spec fn preparing(status: StatusView, revision: ResourceRevision) -> StatusView {
    if status.desired_revision != revision {
        status
    } else {
        StatusView {
            phase: if status.key.kind == ResourceKind::Filesystem {
                ResourcePhase::Pending
            } else {
                ResourcePhase::Preparing
            },
            observed_revision: None,
            error_code: None,
            detail: None,
            ..status
        }
    }
}

/// The hub after a revision began to be prepared.
pub open spec fn marked_preparing(hub: HubView, revision: ResourceRevision) -> HubView {
    if hub.snapshot.desired_revision != revision {
        hub
    } else {
        crate::progress::hub::shown(
            hub,
            ProgressTarget::DesiredRevision(revision),
            SnapshotView {
                observed_revision: None,
                resources: hub.snapshot.resources.map_values(
                    |status: StatusView| preparing(status, revision),
                ),
                ..hub.snapshot
            },
        )
    }
}

/// Marks the resources of a revision as being prepared, while it is current.
pub fn mark_resources_preparing(hub: &mut ProgressHub, revision: ResourceRevision)
    requires
        old(hub).sequence < u64::MAX,
    ensures
        final(hub)@ == marked_preparing(old(hub)@, revision),
        final(hub).sequence <= old(hub).sequence + 1,
{
    if hub.snapshot.desired_revision != revision {
        return;
    }
    let ghost before = hub@.snapshot.resources;
    let ghost change = |status: StatusView| preparing(status, revision);
    let mut snapshot = hub.snapshot.clone();
    let mut i: usize = 0;
    snapshot.observed_revision = None;
    let ghost rest = snapshot@;
    assert(before.take(0).map_values(change) + before.skip(0) =~= before);
    while i < snapshot.resources.len()
        invariant
            i <= snapshot.resources@.len(),
            snapshot.resources@.len() == before.len(),
            change == (|status: StatusView| preparing(status, revision)),
            snapshot@ == (SnapshotView { resources: snapshot@.resources, ..rest }),
            snapshot@.resources == before.take(i as int).map_values(change) + before.skip(
                i as int,
            ),
        decreases snapshot.resources@.len() - i,
    {
        let ghost at = i as int;
        let ghost prior = snapshot@.resources;
        assert(prior[at] == before[at]);
        if snapshot.resources[i].desired_revision == revision {
            let filesystem = match snapshot.resources[i].key.kind {
                ResourceKind::Filesystem => true,
                _ => false,
            };
            snapshot.resources[i].phase = if filesystem {
                ResourcePhase::Pending
            } else {
                ResourcePhase::Preparing
            };
            snapshot.resources[i].observed_revision = None;
            snapshot.resources[i].error_code = None;
            snapshot.resources[i].detail = None;
        }
        assert(snapshot@.resources =~= prior.update(at, preparing(before[at], revision)));
        assert(snapshot@.resources =~= before.take(at + 1).map_values(change) + before.skip(
            at + 1,
        ));
        i = i + 1;
    }
    assert(before.take(i as int).map_values(change) + before.skip(i as int)
        =~= before.map_values(change));
    hub.publish_snapshot(ProgressTarget::DesiredRevision(revision), snapshot);
}

/// What a revision says that was replaced.
pub open spec fn superseded_text(latest: ResourceRevision) -> Seq<char> {
    "superseded by desired revision "@ + crate::text::decimal_text(latest.value as nat)
}

/// The hub after a revision was replaced by a later one.
pub open spec fn superseded(
    hub: HubView,
    revision: ResourceRevision,
    actions: Seq<ActionId>,
    latest: ResourceRevision,
    attempt: u32,
    now: u128,
) -> HubView {
    crate::progress::hub::sent(
        staged(
            hub,
            revision,
            actions,
            ServingProgressStage::Superseded,
            0,
            1,
            earlier(attempt),
            Some(superseded_text(latest)),
            now,
        ),
        ProgressTarget::DesiredRevision(revision),
        KindView::RevisionSuperseded { revision, replaced_by: latest },
    )
}

/// Publishes that a revision was replaced by a later one.
pub fn publish_superseded(
    hub: &mut ProgressHub,
    revision: ResourceRevision,
    actions: &Vec<ActionId>,
    latest: ResourceRevision,
    attempt: u32,
    now: u128,
)
    requires
        old(hub).sequence + 2 + actions@.len() <= u64::MAX,
    ensures
        final(hub)@ == superseded(old(hub)@, revision, actions@, latest, attempt, now),
        final(hub).sequence == old(hub).sequence + 2 + actions@.len(),
{
    let text = concat(
        "superseded by desired revision ",
        decimal(latest.get()).as_str(),
    );
    publish_serving_targets(
        hub,
        revision,
        actions,
        ServingProgressStage::Superseded,
        0,
        1,
        earlier_attempts(attempt),
        Some(text),
        now,
    );
    hub.publish(
        ProgressTarget::DesiredRevision(revision),
        ProgressEventKind::RevisionSuperseded { revision, replaced_by: latest },
    );
}

/// The hub after an attempt failed that is followed by another.
pub open spec fn retrying(
    hub: HubView,
    revision: ResourceRevision,
    actions: Seq<ActionId>,
    attempt: u32,
    error: Seq<char>,
    now: u128,
) -> HubView {
    staged(
        hub,
        revision,
        actions,
        ServingProgressStage::Retrying,
        0,
        1,
        attempt,
        Some("retrying after reconcile failure: "@ + error),
        now,
    )
}

/// Publishes that an attempt failed and is followed by another.
pub fn publish_retry(
    hub: &mut ProgressHub,
    revision: ResourceRevision,
    actions: &Vec<ActionId>,
    attempt: u32,
    error: &str,
    now: u128,
)
    requires
        old(hub).sequence + 1 + actions@.len() <= u64::MAX,
    ensures
        final(hub)@ == retrying(old(hub)@, revision, actions@, attempt, error@, now),
        final(hub).sequence == old(hub).sequence + 1 + actions@.len(),
{
    let text = concat("retrying after reconcile failure: ", error);
    publish_serving_targets(
        hub,
        revision,
        actions,
        ServingProgressStage::Retrying,
        0,
        1,
        attempt,
        Some(text),
        now,
    );
}

/// Whether a credential belongs to a provider with this artifact.
pub open spec fn credential_fails(
    resources: Seq<DesiredView>,
    artifact: ProviderId,
    name: Seq<char>,
) -> bool {
    exists|i: int|
        0 <= i < resources.len() && (#[trigger] resources[i]) is Credential
            && resources[i]->Credential_name == name && crate::serving_reconciler::is_alias(
            resources,
            artifact,
            resources[i]->Credential_provider,
        )
}

/// Whether a mount depends on a provider with this artifact, by itself or
/// through its credential.
pub open spec fn mount_depends(
    resources: Seq<DesiredView>,
    artifact: ProviderId,
    mount: DesiredView,
) -> bool {
    crate::serving_reconciler::is_alias(resources, artifact, mount->Mount_provider) || (
    match mount->Mount_credential {
        Some(credential) => credential_fails(resources, artifact, credential),
        None => false,
    })
}

/// Whether a mount of this name depends on a provider with this artifact.
pub open spec fn mount_fails(
    resources: Seq<DesiredView>,
    artifact: ProviderId,
    name: Seq<char>,
) -> bool {
    exists|i: int|
        0 <= i < resources.len() && (#[trigger] resources[i]) is Mount
            && resources[i]->Mount_name == name && mount_depends(resources, artifact, resources[i])
}

fn credential_is_affected(
    resources: &Vec<DesiredResource>,
    artifact: ProviderId,
    name: &ResourceName,
) -> (affected: bool)
    ensures
        affected == credential_fails(crate::list::views(resources@), artifact, name@),
{
    let ghost all = crate::list::views(resources@);
    let mut i: usize = 0;
    while i < resources.len()
        invariant
            i <= resources@.len(),
            all == crate::list::views(resources@),
            forall|j: int|
                0 <= j < i && (#[trigger] all[j]) is Credential && all[j]->Credential_name == name@
                    ==> !crate::serving_reconciler::is_alias(
                    all,
                    artifact,
                    all[j]->Credential_provider,
                ),
        decreases resources@.len() - i,
    {
        assert(all[i as int] == resources@[i as int]@);
        if let DesiredResource::Credential { name: known, provider } = &resources[i] {
            if known.same(name) && names_artifact(resources, artifact, provider) {
                return true;
            }
        }
        i = i + 1;
    }
    false
}

fn mount_is_affected(
    resources: &Vec<DesiredResource>,
    artifact: ProviderId,
    name: &ResourceName,
) -> (affected: bool)
    ensures
        affected == mount_fails(crate::list::views(resources@), artifact, name@),
{
    let ghost all = crate::list::views(resources@);
    let mut i: usize = 0;
    while i < resources.len()
        invariant
            i <= resources@.len(),
            all == crate::list::views(resources@),
            forall|j: int|
                0 <= j < i && (#[trigger] all[j]) is Mount && all[j]->Mount_name == name@
                    ==> !mount_depends(all, artifact, all[j]),
        decreases resources@.len() - i,
    {
        assert(all[i as int] == resources@[i as int]@);
        if let DesiredResource::Mount { name: known, provider, credential } = &resources[i] {
            if known.same(name) {
                let depends = match credential {
                    Some(credential) => credential_is_affected(resources, artifact, credential),
                    None => false,
                };
                if depends || names_artifact(resources, artifact, provider) {
                    return true;
                }
            }
        }
        i = i + 1;
    }
    false
}

/// Whether a failure reaches a resource. That of one artifact reaches what
/// depends on the artifact; any other reaches every credential and mount.
/// Filesystems are never reached.
pub open spec fn reaches(
    resources: Seq<DesiredView>,
    provider: Option<ProviderId>,
    kind: ResourceKind,
    name: Seq<char>,
) -> bool {
    match provider {
        None => kind == ResourceKind::Credential || kind == ResourceKind::Mount,
        Some(artifact) => match kind {
            ResourceKind::Filesystem => false,
            ResourceKind::Provider => crate::serving_reconciler::is_alias(
                resources,
                artifact,
                name,
            ),
            ResourceKind::Credential => credential_fails(resources, artifact, name),
            ResourceKind::Mount => mount_fails(resources, artifact, name),
        },
    }
}

fn is_reached(
    resources: &Vec<DesiredResource>,
    provider: Option<ProviderId>,
    kind: ResourceKind,
    name: &ResourceName,
) -> (reached: bool)
    ensures
        reached == reaches(crate::list::views(resources@), provider, kind, name@),
{
    match provider {
        None => match kind {
            ResourceKind::Credential | ResourceKind::Mount => true,
            _ => false,
        },
        Some(artifact) => match kind {
            ResourceKind::Filesystem => false,
            ResourceKind::Provider => names_artifact(resources, artifact, name),
            ResourceKind::Credential => credential_is_affected(resources, artifact, name),
            ResourceKind::Mount => mount_is_affected(resources, artifact, name),
        },
    }
}

/// The code of a resource that a failure reached.
pub open spec fn failure_code(provider: Option<ProviderId>) -> Seq<char> {
    match provider {
        Some(_) => "provider_preparation_failed"@,
        None => "serving_reconcile_failed"@,
    }
}

/// The status of a resource after its revision failed: what the failure
/// reaches has failed, every other provider is ready.
pub open spec fn failed_status(
    status: StatusView,
    revision: ResourceRevision,
    resources: Seq<DesiredView>,
    provider: Option<ProviderId>,
    detail: Seq<char>,
) -> StatusView {
    if status.desired_revision != revision {
        status
    } else if reaches(resources, provider, status.key.kind, status.key.name) {
        StatusView {
            phase: ResourcePhase::Failed,
            error_code: Some(failure_code(provider)),
            detail: Some(detail),
            ..status
        }
    } else if status.key.kind == ResourceKind::Provider {
        StatusView { phase: ResourcePhase::Ready, error_code: None, detail: None, ..status }
    } else {
        status
    }
}

/// The hub after the statuses of a failed revision were marked, while it is
/// current.
pub open spec fn marked_failed(
    hub: HubView,
    revision: ResourceRevision,
    resources: Seq<DesiredView>,
    provider: Option<ProviderId>,
    detail: Seq<char>,
) -> HubView {
    if hub.snapshot.desired_revision != revision {
        hub
    } else {
        crate::progress::hub::shown(
            hub,
            ProgressTarget::DesiredRevision(revision),
            SnapshotView {
                resources: hub.snapshot.resources.map_values(
                    |status: StatusView|
                        failed_status(status, revision, resources, provider, detail),
                ),
                ..hub.snapshot
            },
        )
    }
}

fn mark_failed(
    hub: &mut ProgressHub,
    revision: ResourceRevision,
    resources: &Vec<DesiredResource>,
    provider: Option<ProviderId>,
    detail: &str,
)
    requires
        old(hub).sequence < u64::MAX,
    ensures
        final(hub)@ == marked_failed(
            old(hub)@,
            revision,
            crate::list::views(resources@),
            provider,
            detail@,
        ),
        final(hub).sequence <= old(hub).sequence + 1,
{
    if hub.snapshot.desired_revision != revision {
        return;
    }
    let ghost desired = crate::list::views(resources@);
    let ghost before = hub@.snapshot.resources;
    let ghost change = |status: StatusView|
        failed_status(status, revision, desired, provider, detail@);
    let mut snapshot = hub.snapshot.clone();
    let mut i: usize = 0;
    let ghost rest = snapshot@;
    assert(before.take(0).map_values(change) + before.skip(0) =~= before);
    while i < snapshot.resources.len()
        invariant
            i <= snapshot.resources@.len(),
            snapshot.resources@.len() == before.len(),
            desired == crate::list::views(resources@),
            change == (|status: StatusView|
                failed_status(status, revision, desired, provider, detail@)),
            snapshot@ == (SnapshotView { resources: snapshot@.resources, ..rest }),
            snapshot@.resources == before.take(i as int).map_values(change) + before.skip(
                i as int,
            ),
        decreases snapshot.resources@.len() - i,
    {
        let ghost at = i as int;
        let ghost prior = snapshot@.resources;
        assert(prior[at] == before[at]);
        if snapshot.resources[i].desired_revision == revision {
            let kind = snapshot.resources[i].key.kind;
            let reached = is_reached(resources, provider, kind, &snapshot.resources[i].key.name);
            let is_provider = match kind {
                ResourceKind::Provider => true,
                _ => false,
            };
            if reached {
                snapshot.resources[i].phase = ResourcePhase::Failed;
                let code = match provider {
                    Some(_) => "provider_preparation_failed".to_owned(),
                    None => "serving_reconcile_failed".to_owned(),
                };
                snapshot.resources[i].error_code = Some(code);
                snapshot.resources[i].detail = Some(detail.to_owned());
            } else if is_provider {
                snapshot.resources[i].phase = ResourcePhase::Ready;
                snapshot.resources[i].error_code = None;
                snapshot.resources[i].detail = None;
            }
        }
        assert(snapshot@.resources =~= prior.update(
            at,
            failed_status(before[at], revision, desired, provider, detail@),
        ));
        assert(snapshot@.resources =~= before.take(at + 1).map_values(change) + before.skip(
            at + 1,
        ));
        i = i + 1;
    }
    assert(before.take(i as int).map_values(change) + before.skip(i as int)
        =~= before.map_values(change));
    hub.publish_snapshot(ProgressTarget::DesiredRevision(revision), snapshot);
}

/// The hub after a revision failed for good.
pub open spec fn failed(
    hub: HubView,
    revision: ResourceRevision,
    resources: Seq<DesiredView>,
    actions: Seq<ActionId>,
    provider: Option<ProviderId>,
    detail: Seq<char>,
    now: u128,
) -> HubView {
    crate::progress::hub::sent(
        staged(
            marked_failed(hub, revision, resources, provider, detail),
            revision,
            actions,
            ServingProgressStage::Failed,
            0,
            1,
            MAX_RECONCILE_ATTEMPTS,
            Some(detail),
            now,
        ),
        ProgressTarget::DesiredRevision(revision),
        KindView::RevisionFailed {
            revision,
            error_code: "serving_reconcile_failed"@,
            detail,
        },
    )
}

/// Publishes that a revision failed for good.
pub fn publish_failure(
    hub: &mut ProgressHub,
    revision: ResourceRevision,
    resources: &Vec<DesiredResource>,
    actions: &Vec<ActionId>,
    provider: Option<ProviderId>,
    detail: &str,
    now: u128,
)
    requires
        old(hub).sequence + 3 + actions@.len() <= u64::MAX,
    ensures
        final(hub)@ == failed(
            old(hub)@,
            revision,
            crate::list::views(resources@),
            actions@,
            provider,
            detail@,
            now,
        ),
        final(hub).sequence <= old(hub).sequence + 3 + actions@.len(),
{
    mark_failed(hub, revision, resources, provider, detail);
    publish_serving_targets(
        hub,
        revision,
        actions,
        ServingProgressStage::Failed,
        0,
        1,
        MAX_RECONCILE_ATTEMPTS,
        Some(detail.to_owned()),
        now,
    );
    hub.publish(
        ProgressTarget::DesiredRevision(revision),
        ProgressEventKind::RevisionFailed {
            revision,
            error_code: "serving_reconcile_failed".to_owned(),
            detail: detail.to_owned(),
        },
    );
}

/// The hub after the credential of an action reached a stage.
pub open spec fn credential_staged(
    hub: HubView,
    action: ReceiptView,
    stage: CredentialProgressStage,
    error_code: Option<Seq<char>>,
    detail: Option<Seq<char>>,
) -> HubView {
    crate::progress::hub::credential_recorded(
        hub,
        ProgressTarget::Action(action.action_id),
        CredentialView { key: action.target, stage, error_code, detail },
    )
}

/// Records the stage of the credential that an action is about.
pub fn record_credential_progress(
    hub: &mut ProgressHub,
    action: &ActionReceipt,
    stage: CredentialProgressStage,
    error_code: Option<String>,
    detail: Option<String>,
)
    requires
        old(hub).sequence < u64::MAX,
    ensures
        final(hub)@ == credential_staged(
            old(hub)@,
            action@,
            stage,
            crate::text::opt_text(error_code),
            crate::text::opt_text(detail),
        ),
{
    hub.record_credential(
        ProgressTarget::Action(action.action_id),
        CredentialProgress { key: action.target.clone(), stage, error_code, detail },
    );
}

/// The hub after an action completed: its credential is ready, its receipt is
/// kept, and the completion is told.
pub open spec fn action_completed(hub: HubView, ready: ReceiptView) -> HubView {
    crate::progress::hub::sent(
        crate::progress::hub::receipt_recorded(
            credential_staged(hub, ready, CredentialProgressStage::Ready, None, None),
            ready,
        ),
        ProgressTarget::Action(ready.action_id),
        KindView::ActionCompleted(ready),
    )
}

/// Publishes that an action completed.
pub fn publish_completed_action(hub: &mut ProgressHub, ready: ActionReceipt)
    requires
        old(hub).sequence + 3 <= u64::MAX,
    ensures
        final(hub)@ == action_completed(old(hub)@, ready@),
{
    record_credential_progress(hub, &ready, CredentialProgressStage::Ready, None, None);
    hub.record_action_receipt(ready.clone());
    hub.publish(
        ProgressTarget::Action(ready.action_id),
        ProgressEventKind::ActionCompleted(ready),
    );
}

/// The hub after an action failed.
pub open spec fn action_failed(
    hub: HubView,
    receipt: ReceiptView,
    error_code: Seq<char>,
    detail: Seq<char>,
) -> HubView {
    crate::progress::hub::sent(
        crate::progress::hub::receipt_recorded(
            credential_staged(
                hub,
                receipt,
                CredentialProgressStage::Failed,
                Some(error_code),
                Some(detail),
            ),
            receipt,
        ),
        ProgressTarget::Action(receipt.action_id),
        KindView::ActionFailed { receipt, error_code, detail },
    )
}

/// Publishes that an action failed.
pub fn publish_failed_action(
    hub: &mut ProgressHub,
    receipt: ActionReceipt,
    error_code: &str,
    detail: &str,
)
    requires
        old(hub).sequence + 3 <= u64::MAX,
    ensures
        final(hub)@ == action_failed(old(hub)@, receipt@, error_code@, detail@),
{
    record_credential_progress(
        hub,
        &receipt,
        CredentialProgressStage::Failed,
        Some(error_code.to_owned()),
        Some(detail.to_owned()),
    );
    hub.record_action_receipt(receipt.clone());
    hub.publish(
        ProgressTarget::Action(receipt.action_id),
        ProgressEventKind::ActionFailed {
            receipt,
            error_code: error_code.to_owned(),
            detail: detail.to_owned(),
        },
    );
}

} // verus!
