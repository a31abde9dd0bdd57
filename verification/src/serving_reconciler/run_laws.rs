//! How a run brings the desired resources into service: what each answer calls for,
//! and what watchers are told of it.
use crate::name::{ActionId, ProviderId, ResourceKind, ResourceRevision};
use crate::progress::{HubView, KindView, ProgressTarget, ProgressTargetState};
use crate::provider_preparer::ProviderPreparationPhase;
use crate::records::{
    ActionKind, ActionPhase, ActionReceipt, CredentialProgressStage, ReceiptView, ResourcePhase,
    ServingProgressStage, ServingView, StatusView,
};
use crate::serving_reconciler::cycle::{ReconcilerAction, ReconcilerCycle, ReconcilerEvent};
use crate::serving_reconciler::finish::{
    judge_revocation, pending_revoke_exists, pending_step, ActionStep, DrainOutcome, DrainStep,
    PendingStep, PublicationView, RevocationActionOutcome, RevocationStep,
};
use crate::serving_reconciler::pass::{
    interrupt_step, InterruptEvent, ReconcileInterrupt, ServingEnd, ServingPassView,
    ServingReplyView, ServingRequest, ServingStage, ServingStep,
};
use crate::serving_reconciler::{requeues, DesiredView};
use vstd::prelude::*;

verus! {

/// Whether a step asks for something and waits for it.
pub open spec fn asks(step: ServingStep, stage: ServingStage, request: ServingRequest) -> bool {
    step.pass.stage == stage && step.request == request
}

/// A run waits for each required artifact in turn, builds, makes sure that its
/// revision is still the desired one, looks for revocations, publishes, and ends.
pub proof fn a_run_goes_from_artifacts_to_a_publication(
    pass: ServingPassView,
    hub: HubView,
    required: Seq<ProviderId>,
    latest: ResourceRevision,
    pending: bool,
    now: u128,
)
    ensures
        pass.stage == ServingStage::Enqueueing ==> ({
            let step = pass.resumed(hub, ServingReplyView::Enqueued(Ok(required)), now);
            &&& step.pass.required == required
            &&& required.len() == 0 ==> asks(step, ServingStage::Building, ServingRequest::Build)
            &&& required.len() > 0 ==> asks(
                step,
                ServingStage::Waiting { next: 0 },
                ServingRequest::WaitReady(required[0]),
            )
        }),
        pass.stage matches ServingStage::Waiting { next } ==> ({
            let step = pass.resumed(hub, ServingReplyView::Ready(Ok(())), now);
            &&& next + 1 >= pass.required.len() ==> asks(
                step,
                ServingStage::Building,
                ServingRequest::Build,
            )
            &&& next + 1 < pass.required.len() && next < usize::MAX ==> asks(
                step,
                ServingStage::Waiting { next: (next + 1) as usize },
                ServingRequest::WaitReady(pass.required[next + 1]),
            )
        }),
        pass.stage == ServingStage::Building ==> asks(
            pass.resumed(hub, ServingReplyView::Built(Ok(())), now),
            ServingStage::Fencing,
            ServingRequest::LatestRevision,
        ),
        pass.stage == ServingStage::Fencing ==> ({
            let step = pass.resumed(hub, ServingReplyView::Latest(Ok(latest)), now);
            &&& latest == pass.revision ==> asks(
                step,
                ServingStage::CheckingRevokes,
                ServingRequest::CheckRevokes,
            )
            &&& latest != pass.revision ==> asks(
                step,
                ServingStage::Ended,
                ServingRequest::End(ServingEnd::Superseded),
            )
        }),
        pass.stage == ServingStage::CheckingRevokes ==> asks(
            pass.resumed(hub, ServingReplyView::Revokes(Ok(pending)), now),
            ServingStage::Publishing,
            ServingRequest::Publish { close_admission: pending },
        ),
        pass.stage == ServingStage::Publishing ==> asks(
            pass.resumed(hub, ServingReplyView::Published, now),
            ServingStage::Ended,
            ServingRequest::End(ServingEnd::Published),
        ),
{
}

/// Whether a reply is an error at a stage, with its text.
pub open spec fn is_error(stage: ServingStage, reply: ServingReplyView, error: Seq<char>) -> bool {
    match stage {
        ServingStage::Enqueueing => reply == ServingReplyView::Enqueued(Err(error)),
        ServingStage::Waiting { .. } => reply == ServingReplyView::Ready(Err(error)),
        ServingStage::Building => reply == ServingReplyView::Built(Err(error)),
        ServingStage::Fencing => reply == ServingReplyView::Latest(Err(error)),
        ServingStage::CheckingRevokes => reply == ServingReplyView::Revokes(Err(error)),
        _ => false,
    }
}

/// Whatever goes wrong is tried again after a quarter of a second, twice; the third
/// failure ends the run as failed, and the revision is told to have failed with what
/// went wrong. A further attempt prepares anew what had failed, and the first does
/// not.
pub proof fn a_failed_attempt_is_made_again_twice(
    pass: ServingPassView,
    hub: HubView,
    reply: ServingReplyView,
    error: Seq<char>,
    now: u128,
)
    requires
        is_error(pass.stage, reply, error),
    ensures
        ({
            let step = pass.resumed(hub, reply, now);
            &&& step.pass.failure == error
            &&& step.pass.attempt == pass.attempt
            &&& pass.attempt < 3 ==> asks(
                step,
                ServingStage::Pausing,
                ServingRequest::Pause { millis: 250 },
            )
            &&& pass.attempt >= 3 ==> asks(
                step,
                ServingStage::Ended,
                ServingRequest::End(ServingEnd::Failed),
            ) && step.hub.outbox.last().target == ProgressTarget::DesiredRevision(pass.revision)
                && step.hub.outbox.last().event == (KindView::RevisionFailed {
                revision: pass.revision,
                error_code: "serving_reconcile_failed"@,
                detail: error,
            })
        }),
{
}

/// A pause is followed by the next attempt, which prepares anew what had failed; the
/// first attempt prepares nothing anew.
pub proof fn a_pause_is_followed_by_another_attempt(pass: ServingPassView, hub: HubView, now: u128)
    requires
        pass.stage == ServingStage::Pausing,
        1 <= pass.attempt < 3,
    ensures
        ({
            let step = pass.resumed(hub, ServingReplyView::Paused, now);
            asks(
                step,
                ServingStage::Enqueueing,
                ServingRequest::EnqueueProviders { retry_failed: true },
            ) && step.pass.attempt == pass.attempt + 1
        }),
        ({
            let first = ServingPassView { attempt: 1, ..pass };
            asks(
                first.attempted(hub, now),
                ServingStage::Enqueueing,
                ServingRequest::EnqueueProviders { retry_failed: false },
            )
        }),
{
}

/// A later revision, or a shutdown, ends a run wherever it waits; the watchers of the
/// revision are told by which one it was replaced, and of a shutdown nothing.
pub proof fn a_run_is_cut_short_where_it_waits(
    pass: ServingPassView,
    hub: HubView,
    latest: ResourceRevision,
    now: u128,
)
    requires
        pass.stage is Waiting || pass.stage == ServingStage::Building || pass.stage
            == ServingStage::Pausing,
    ensures
        ({
            let step = pass.resumed(
                hub,
                ServingReplyView::Interrupted(ReconcileInterrupt::Superseded(latest)),
                now,
            );
            asks(step, ServingStage::Ended, ServingRequest::End(ServingEnd::Superseded))
                && step.hub.outbox.last().target == ProgressTarget::DesiredRevision(pass.revision)
                && step.hub.outbox.last().event == (KindView::RevisionSuperseded {
                revision: pass.revision,
                replaced_by: latest,
            })
        }),
        ({
            let step = pass.resumed(
                hub,
                ServingReplyView::Interrupted(ReconcileInterrupt::Shutdown),
                now,
            );
            asks(step, ServingStage::Ended, ServingRequest::End(ServingEnd::Shutdown)) && step.hub
                == hub
        }),
{
}

/// Only news cuts a run short: a revision other than its own, a shutdown that is
/// requested, or the end of either source.
pub proof fn only_news_interrupts(
    event: InterruptEvent,
    revision: ResourceRevision,
    interrupt: Option<ReconcileInterrupt>,
)
    requires
        call_ensures(interrupt_step, (event, revision), interrupt),
    ensures
        event matches InterruptEvent::Revision { latest } ==> {
            &&& latest is None ==> interrupt == Some(ReconcileInterrupt::Shutdown)
            &&& latest == Some(revision) ==> interrupt is None
            &&& latest is Some && latest != Some(revision) ==> interrupt == Some(
                ReconcileInterrupt::Superseded(latest->Some_0),
            )
        },
        event matches InterruptEvent::Shutdown { requested } ==> {
            &&& requested == Some(false) ==> interrupt is None
            &&& requested != Some(false) ==> interrupt == Some(ReconcileInterrupt::Shutdown)
        },
{
}

/// An artifact is prepared anew only where it failed, and only in a further attempt;
/// there it always is.
pub proof fn what_failed_is_prepared_anew(
    retry_failed: bool,
    phase: Option<ProviderPreparationPhase>,
    anew: bool,
)
    requires
        call_ensures(requeues, (retry_failed, phase), anew),
    ensures
        anew <==> retry_failed && phase == Some(ProviderPreparationPhase::Failed),
{
}

/// A stage of a run is told for its revision and for each of its actions, and for no
/// other action; the snapshot follows while the revision is the desired one.
pub proof fn a_stage_is_told_to_all_that_follow_the_run(
    hub: HubView,
    revision: ResourceRevision,
    actions: Seq<ActionId>,
    stage: ServingProgressStage,
    completed: u32,
    total: u32,
    retry_count: u32,
    detail: Option<Seq<char>>,
    now: u128,
    action: ActionId,
)
    requires
        now + 250 <= u64::MAX,
    ensures
        ({
            let after = crate::serving_reconciler::publish::staged(
                hub,
                revision,
                actions,
                stage,
                completed,
                total,
                retry_count,
                detail,
                now,
            );
            let told = ServingView {
                revision,
                stage,
                completed,
                total,
                error_code: None,
                detail,
                queued_generations: if stage == ServingProgressStage::Queued {
                    1
                } else {
                    0
                },
                retry_count,
                next_retry_unix_ms: if stage == ServingProgressStage::Retrying {
                    Some((now + 250) as u64)
                } else {
                    None
                },
            };
            &&& after.outbox.len() == hub.outbox.len() + 1 + actions.len()
            &&& after.outbox[hub.outbox.len() as int].target == ProgressTarget::DesiredRevision(
                revision,
            )
            &&& after.outbox[hub.outbox.len() as int].event == KindView::ServingProgress(told)
            &&& actions.contains(action) ==> (after.action_serving)(action) == Some(told)
            &&& !actions.contains(action) ==> (after.action_serving)(action) == (hub.action_serving)(
                action,
            )
            &&& after.snapshot.resources == hub.snapshot.resources
            &&& after.snapshot.observed_revision == hub.snapshot.observed_revision
            &&& after.snapshot.desired_revision == hub.snapshot.desired_revision
            &&& after.snapshot.serving == (if hub.snapshot.desired_revision == revision {
                Some(told)
            } else {
                hub.snapshot.serving
            })
        }),
{
    let progress = crate::serving_reconciler::publish::serving_stage(
        revision,
        stage,
        completed,
        total,
        retry_count,
        detail,
        now,
    );
    let first = crate::progress::hub::serving_recorded(hub, revision, progress);
    telling_actions(first, actions, progress, action);
}

proof fn telling_actions(
    hub: HubView,
    actions: Seq<ActionId>,
    progress: ServingView,
    action: ActionId,
)
    ensures
        ({
            let after = crate::serving_reconciler::publish::told_actions(hub, actions, progress);
            &&& after.snapshot == hub.snapshot
            &&& after.outbox.len() == hub.outbox.len() + actions.len()
            &&& forall|i: int| 0 <= i < hub.outbox.len() ==> #[trigger] after.outbox[i] == hub.outbox[i]
            &&& actions.contains(action) ==> (after.action_serving)(action) == Some(progress)
            &&& !actions.contains(action) ==> (after.action_serving)(action) == (hub.action_serving)(
                action,
            )
        }),
    decreases actions.len(),
{
    if actions.len() > 0 {
        let rest = actions.drop_last();
        telling_actions(hub, rest, progress, action);
        let last = actions.len() - 1;
        assert(actions[last] == actions.last());
        if rest.contains(action) {
            let k = choose|k: int| 0 <= k < rest.len() && rest[k] == action;
            assert(actions[k] == action);
        }
        if actions.contains(action) && action != actions.last() {
            let k = choose|k: int| 0 <= k < actions.len() && actions[k] == action;
            assert(rest[k] == action);
        }
    }
}

/// A revision that is prepared anew shows nothing as observed: its filesystems are
/// pending, its other resources are being prepared, and no error of theirs is left.
/// Resources of other revisions stay as they are, and so does everything while the
/// revision is not the desired one.
pub proof fn a_revision_is_shown_as_being_prepared(
    hub: HubView,
    revision: ResourceRevision,
    i: int,
)
    requires
        0 <= i < hub.snapshot.resources.len(),
    ensures
        ({
            let after = crate::serving_reconciler::publish::marked_preparing(hub, revision);
            let before = hub.snapshot.resources[i];
            &&& hub.snapshot.desired_revision != revision ==> after == hub
            &&& hub.snapshot.desired_revision == revision ==> {
                &&& after.snapshot.observed_revision is None
                &&& after.snapshot.resources.len() == hub.snapshot.resources.len()
                &&& before.desired_revision != revision ==> after.snapshot.resources[i] == before
                &&& before.desired_revision == revision ==> {
                    let status = after.snapshot.resources[i];
                    &&& status.key == before.key
                    &&& status.desired_revision == revision
                    &&& status.observed_revision is None
                    &&& status.error_code is None
                    &&& status.detail is None
                    &&& status.phase == (if before.key.kind == ResourceKind::Filesystem {
                        ResourcePhase::Pending
                    } else {
                        ResourcePhase::Preparing
                    })
                }
            }
        }),
{
}

/// Whether a name is that of a provider with this artifact.
pub open spec fn provides(resources: Seq<DesiredView>, name: Seq<char>, artifact: ProviderId) -> bool {
    exists|j: int|
        0 <= j < resources.len() && #[trigger] resources[j] == (DesiredView::Provider {
            name,
            artifact,
        })
}

/// Whether a credential of this name is one for the artifact.
pub open spec fn is_credential_for(
    resources: Seq<DesiredView>,
    name: Seq<char>,
    artifact: ProviderId,
) -> bool {
    exists|i: int|
        {
            &&& 0 <= i < resources.len()
            &&& #[trigger] resources[i] matches DesiredView::Credential { name: known, provider }
            &&& known == name
            &&& provides(resources, provider, artifact)
        }
}

/// Whether a mount of this name needs the artifact, by its provider or by its
/// credential.
pub open spec fn is_mount_of(
    resources: Seq<DesiredView>,
    name: Seq<char>,
    artifact: ProviderId,
) -> bool {
    exists|i: int|
        {
            &&& 0 <= i < resources.len()
            &&& #[trigger] resources[i] matches DesiredView::Mount {
                name: known,
                provider,
                credential,
            }
            &&& known == name
            &&& provides(resources, provider, artifact) || (credential matches Some(credential)
                && is_credential_for(resources, credential, artifact))
        }
}

/// A failure reaches what depends on it: that of one artifact its providers, their
/// credentials, and the mounts that need either; a failure of the whole every
/// credential and mount. What it reaches fails with the code and the text of the
/// failure, every other provider is ready, and a filesystem is left as it is.
pub proof fn a_failure_reaches_what_depends_on_it(
    status: StatusView,
    revision: ResourceRevision,
    resources: Seq<DesiredView>,
    provider: Option<ProviderId>,
    detail: Seq<char>,
)
    requires
        status.desired_revision == revision,
    ensures
        ({
            let after = crate::serving_reconciler::publish::failed_status(
                status,
                revision,
                resources,
                provider,
                detail,
            );
            let name = status.key.name;
            let reached = match provider {
                None => status.key.kind == ResourceKind::Credential || status.key.kind
                    == ResourceKind::Mount,
                Some(artifact) => match status.key.kind {
                    ResourceKind::Filesystem => false,
                    ResourceKind::Provider => provides(resources, name, artifact),
                    ResourceKind::Credential => is_credential_for(resources, name, artifact),
                    ResourceKind::Mount => is_mount_of(resources, name, artifact),
                },
            };
            &&& after.key == status.key
            &&& after.desired_revision == revision
            &&& reached ==> after.phase == ResourcePhase::Failed && after.detail == Some(detail)
                && after.error_code == Some(
                if provider is Some {
                    "provider_preparation_failed"@
                } else {
                    "serving_reconcile_failed"@
                },
            )
            &&& !reached && status.key.kind == ResourceKind::Provider ==> after.phase
                == ResourcePhase::Ready && after.error_code is None && after.detail is None
            &&& !reached && status.key.kind != ResourceKind::Provider ==> after == status
        }),
{
    if let Some(artifact) = provider {
        let name = status.key.name;
        if status.key.kind == ResourceKind::Credential {
            a_credential_is_reached(resources, name, artifact);
        }
        if status.key.kind == ResourceKind::Mount {
            if is_mount_of(resources, name, artifact) {
                let i = choose|i: int|
                    {
                        &&& 0 <= i < resources.len()
                        &&& #[trigger] resources[i] matches DesiredView::Mount {
                            name: known,
                            provider,
                            credential,
                        }
                        &&& known == name
                        &&& provides(resources, provider, artifact) || (credential matches Some(
                            credential,
                        ) && is_credential_for(resources, credential, artifact))
                    };
                if let Some(credential) = resources[i]->Mount_credential {
                    a_credential_is_reached(resources, credential, artifact);
                }
                assert(crate::serving_reconciler::publish::mount_depends(
                    resources,
                    artifact,
                    resources[i],
                ));
            }
            if crate::serving_reconciler::publish::mount_fails(resources, artifact, name) {
                let i = choose|i: int|
                    0 <= i < resources.len() && (#[trigger] resources[i]) is Mount
                        && resources[i]->Mount_name == name
                        && crate::serving_reconciler::publish::mount_depends(
                        resources,
                        artifact,
                        resources[i],
                    );
                if let Some(credential) = resources[i]->Mount_credential {
                    a_credential_is_reached(resources, credential, artifact);
                }
                assert(is_mount_of(resources, name, artifact));
            }
        }
    }
}

proof fn a_credential_is_reached(
    resources: Seq<DesiredView>,
    name: Seq<char>,
    artifact: ProviderId,
)
    ensures
        crate::serving_reconciler::publish::credential_fails(resources, artifact, name)
            <==> is_credential_for(resources, name, artifact),
{
    if crate::serving_reconciler::publish::credential_fails(resources, artifact, name) {
        let i = choose|i: int|
            0 <= i < resources.len() && (#[trigger] resources[i]) is Credential
                && resources[i]->Credential_name == name && crate::serving_reconciler::is_alias(
                resources,
                artifact,
                resources[i]->Credential_provider,
            );
        assert(provides(resources, resources[i]->Credential_provider, artifact));
    }
    if is_credential_for(resources, name, artifact) {
        let i = choose|i: int|
            {
                &&& 0 <= i < resources.len()
                &&& #[trigger] resources[i] matches DesiredView::Credential { name: known, provider }
                &&& known == name
                &&& provides(resources, provider, artifact)
            };
        assert(crate::serving_reconciler::is_alias(
            resources,
            artifact,
            resources[i]->Credential_provider,
        ));
    }
}

/// A revision that failed for good stands as failed, each of its resources as the
/// failure reaches it, and its watchers are told so last.
pub proof fn a_failed_revision_stands_as_failed(
    hub: HubView,
    revision: ResourceRevision,
    resources: Seq<DesiredView>,
    actions: Seq<ActionId>,
    provider: Option<ProviderId>,
    detail: Seq<char>,
    now: u128,
    i: int,
)
    requires
        hub.snapshot.desired_revision == revision,
        0 <= i < hub.snapshot.resources.len(),
    ensures
        ({
            let after = crate::serving_reconciler::publish::failed(
                hub,
                revision,
                resources,
                actions,
                provider,
                detail,
                now,
            );
            &&& crate::progress::state_of(after.snapshot, ProgressTarget::DesiredRevision(revision))
                == ProgressTargetState::Failed
            &&& after.snapshot.resources[i] == crate::serving_reconciler::publish::failed_status(
                hub.snapshot.resources[i],
                revision,
                resources,
                provider,
                detail,
            )
            &&& after.outbox.last().target == ProgressTarget::DesiredRevision(revision)
            &&& after.outbox.last().event == (KindView::RevisionFailed {
                revision,
                error_code: "serving_reconcile_failed"@,
                detail,
            })
        }),
{
    let marked = crate::serving_reconciler::publish::marked_failed(
        hub,
        revision,
        resources,
        provider,
        detail,
    );
    let progress = crate::serving_reconciler::publish::serving_stage(
        revision,
        ServingProgressStage::Failed,
        0,
        1,
        crate::serving_reconciler::MAX_RECONCILE_ATTEMPTS,
        Some(detail),
        now,
    );
    telling_actions(
        crate::progress::hub::serving_recorded(marked, revision, progress),
        actions,
        progress,
        ActionId { value: 0 },
    );
}

/// An action that ended is told to have ended: its receipt and the stage of its
/// credential are recorded, and the last event says how it ended.
pub proof fn an_ended_action_is_told(
    hub: HubView,
    receipt: ReceiptView,
    error_code: Seq<char>,
    detail: Seq<char>,
)
    ensures
        ({
            let after = crate::serving_reconciler::publish::action_completed(hub, receipt);
            &&& after.outbox.len() == hub.outbox.len() + 3
            &&& after.outbox.last().target == ProgressTarget::Action(receipt.action_id)
            &&& after.outbox.last().event == KindView::ActionCompleted(receipt)
            &&& after.outbox[hub.outbox.len() as int].target == ProgressTarget::Action(
                receipt.action_id,
            )
            &&& after.outbox[hub.outbox.len() as int].event matches KindView::CredentialProgress(
                credential,
            )
            &&& credential.key == receipt.target
            &&& credential.stage == CredentialProgressStage::Ready
            &&& credential.error_code is None && credential.detail is None
        }),
        ({
            let after = crate::serving_reconciler::publish::action_failed(
                hub,
                receipt,
                error_code,
                detail,
            );
            &&& after.outbox.len() == hub.outbox.len() + 3
            &&& after.outbox.last().target == ProgressTarget::Action(receipt.action_id)
            &&& after.outbox.last().event == (KindView::ActionFailed { receipt, error_code, detail })
            &&& after.outbox[hub.outbox.len() as int].event matches KindView::CredentialProgress(
                credential,
            )
            &&& credential.key == receipt.target
            &&& credential.stage == CredentialProgressStage::Failed
            &&& credential.error_code == Some(error_code) && credential.detail == Some(detail)
        }),
{
}

/// Once a generation is published, a submitted credential is complete at once, and a
/// revocation once the replaced generation has drained; a restart of a filesystem is
/// not this reconciler's, and an action that cannot be read is told as an error.
pub proof fn a_published_action_is_completed_or_awaits_the_drain(
    publication: PublicationView,
    action: ActionId,
    text: Seq<char>,
    receipt: Result<Option<ActionKind>, Seq<char>>,
)
    ensures
        ({
            let step = crate::serving_reconciler::finish::action_step(receipt);
            let after = publication.action_read(action, text, receipt);
            &&& step == ActionStep::Complete <==> receipt == Ok::<Option<ActionKind>, Seq<char>>(
                Some(ActionKind::SetCredentialMaterial),
            )
            &&& step == ActionStep::AwaitDrain <==> receipt == Ok::<Option<ActionKind>, Seq<char>>(
                Some(ActionKind::RevokeCredential),
            )
            &&& after.revoke_actions =~= (if receipt == Ok::<Option<ActionKind>, Seq<char>>(
                Some(ActionKind::RevokeCredential),
            ) {
                publication.revoke_actions.push(action)
            } else {
                publication.revoke_actions
            })
            &&& receipt is Ok ==> after.errors == publication.errors
            &&& receipt is Err ==> after.errors.len() == publication.errors.len() + 1
            &&& after.revision == publication.revision && after.attempt == publication.attempt
        }),
{
}

/// A publication without errors is shown ready once the replaced generation has
/// drained; one with errors is shown degraded with all of them and stays so, and so
/// is one whose replaced generation does not drain.
pub proof fn a_publication_is_shown_as_it_stands(
    publication: PublicationView,
    hub: HubView,
    active: u64,
    now: u128,
)
    requires
        hub.snapshot.desired_revision == publication.revision,
        now + 250 <= u64::MAX,
    ensures
        ({
            let drained = publication.drained_shown(hub, now);
            let shown = publication.errors_shown(hub, now);
            let stuck = publication.stuck_shown(hub, active, now);
            &&& publication.errors.len() == 0 ==> shown == hub && (drained.snapshot.serving
                matches Some(serving) && serving.stage == ServingProgressStage::Ready
                && serving.revision == publication.revision)
            &&& publication.errors.len() > 0 ==> drained == hub && (shown.snapshot.serving
                matches Some(serving) && serving.stage == ServingProgressStage::Degraded
                && serving.revision == publication.revision && serving.detail == Some(
                crate::text::joined(publication.errors, "; "@),
            ))
            &&& stuck.snapshot.serving matches Some(serving) && serving.stage
                == ServingProgressStage::Degraded && serving.revision == publication.revision
                && serving.detail == Some(
                "retired generation still has "@ + crate::text::decimal_text(active as nat)
                    + " active request(s); drain will retry"@,
            )
        }),
{
    let count = crate::serving_reconciler::publish::earlier(publication.attempt);
    let none = ActionId { value: 0 };
    a_stage_is_told_to_all_that_follow_the_run(
        hub,
        publication.revision,
        publication.revoke_actions,
        ServingProgressStage::Ready,
        1,
        1,
        count,
        None,
        now,
        none,
    );
    a_stage_is_told_to_all_that_follow_the_run(
        hub,
        publication.revision,
        publication.revoke_actions,
        ServingProgressStage::Degraded,
        1,
        1,
        count,
        Some(crate::text::joined(publication.errors, "; "@)),
        now,
        none,
    );
    a_stage_is_told_to_all_that_follow_the_run(
        hub,
        publication.revision,
        publication.revoke_actions,
        ServingProgressStage::Degraded,
        1,
        1,
        count,
        Some(
            "retired generation still has "@ + crate::text::decimal_text(active as nat)
                + " active request(s); drain will retry"@,
        ),
        now,
        none,
    );
}

/// A revocation completes only with the deletion that the provider confirmed; an
/// unknown outcome and an error fail it, each under its own code.
pub proof fn only_a_deletion_completes_a_revocation(
    outcome: Result<RevocationActionOutcome, String>,
    step: RevocationStep,
)
    requires
        call_ensures(judge_revocation, (outcome,), step),
    ensures
        step is Complete <==> (outcome matches Ok(known) && known
            == RevocationActionOutcome::Deleted),
        step matches RevocationStep::Fail { error_code, detail } ==> (match outcome {
            Ok(_) => error_code@ == "credential_revocation_unknown"@,
            Err(error) => error_code@ == "credential_revocation_failed"@ && detail@ == error@,
        }),
{
}

/// A pending credential action is started where it was only accepted and taken up
/// where it runs already; a restart of a filesystem is passed over.
pub proof fn a_pending_credential_action_is_taken_up(receipt: ActionReceipt, step: PendingStep)
    requires
        call_ensures(pending_step, (&receipt,), step),
    ensures
        step == PendingStep::Skip <==> receipt.kind == ActionKind::RestartFilesystem,
        step == PendingStep::Start <==> receipt.kind != ActionKind::RestartFilesystem
            && receipt.phase == ActionPhase::Accepted,
        crate::serving_reconciler::credential_action_stage(ActionKind::SetCredentialMaterial)
            == Some(CredentialProgressStage::Refreshing),
        crate::serving_reconciler::credential_action_stage(ActionKind::RevokeCredential) == Some(
            CredentialProgressStage::Revoking,
        ),
{
}

/// A revocation is pending exactly where one of the receipts is that of one.
pub proof fn a_pending_revocation_is_found(kinds: Vec<Option<ActionKind>>, pending: bool)
    requires
        call_ensures(pending_revoke_exists, (&kinds,), pending),
    ensures
        pending <==> exists|i: int|
            0 <= i < kinds@.len() && #[trigger] kinds@[i] == Some(ActionKind::RevokeCredential),
{
}

/// The reconciler runs at once, and again whenever something has work for it: a later
/// revision, an action or a refreshed credential, a revision that is not settled, or
/// an imported artifact that a mount uses. It rests once a run has settled, and ends
/// with a shutdown, a run that one cut short, or a source that closed.
pub proof fn the_reconciler_runs_while_there_is_work(
    cycle: ReconcilerCycle,
    used: bool,
    requires_reconcile: bool,
    requested: bool,
    event: ReconcilerEvent,
)
    ensures
        cycle.next_action(true) == ReconcilerAction::Exit,
        cycle.told(ReconcilerEvent::Settled).next_action(false) == ReconcilerAction::Wait,
        cycle.told(ReconcilerEvent::Superseded).next_action(false) == ReconcilerAction::Reconcile,
        cycle.told(ReconcilerEvent::Work).next_action(false) == ReconcilerAction::Reconcile,
        cycle.told(ReconcilerEvent::Revision { requires_reconcile }).next_action(false) == (
        if requires_reconcile {
            ReconcilerAction::Reconcile
        } else {
            ReconcilerAction::Wait
        }),
        used ==> cycle.told(ReconcilerEvent::Imported { used }).next_action(false)
            == ReconcilerAction::Reconcile,
        !used ==> cycle.told(ReconcilerEvent::Imported { used }) == cycle,
        cycle.told(ReconcilerEvent::Drained) == cycle,
        cycle.told(ReconcilerEvent::Shutdown { requested }) == cycle,
        ReconcilerCycle::ends_on(event) <==> (event == ReconcilerEvent::CutShort || event
            == ReconcilerEvent::Closed || event == (ReconcilerEvent::Shutdown { requested: true })),
{
}

/// A failed attempt that is followed by another is told with the attempt, the error and
/// the time of the next; a served generation is told as complete.
pub proof fn a_retry_is_told_with_its_error(
    hub: HubView,
    revision: ResourceRevision,
    actions: Seq<ActionId>,
    attempt: u32,
    error: Seq<char>,
    now: u128,
    stage: ServingProgressStage,
    detail: Option<Seq<char>>,
)
    requires
        now + 250 <= u64::MAX,
    ensures
        ({
            let after = crate::serving_reconciler::publish::retrying(
                hub,
                revision,
                actions,
                attempt,
                error,
                now,
            );
            let told = after.outbox[hub.outbox.len() as int];
            let served = crate::serving_reconciler::publish::background(
                hub,
                revision,
                actions,
                stage,
                attempt,
                detail,
                now,
            );
            let shown = served.outbox[hub.outbox.len() as int];
            &&& after.outbox.len() == hub.outbox.len() + 1 + actions.len()
            &&& told.target == ProgressTarget::DesiredRevision(revision)
            &&& told.event is ServingProgress
            &&& told.event->ServingProgress_0.stage == ServingProgressStage::Retrying
            &&& told.event->ServingProgress_0.retry_count == attempt
            &&& told.event->ServingProgress_0.detail == Some(
                "retrying after reconcile failure: "@ + error,
            )
            &&& told.event->ServingProgress_0.next_retry_unix_ms == Some((now + 250) as u64)
            &&& shown.target == ProgressTarget::DesiredRevision(revision)
            &&& shown.event is ServingProgress
            &&& shown.event->ServingProgress_0.stage == stage
            &&& shown.event->ServingProgress_0.completed == 1
            &&& shown.event->ServingProgress_0.total == 1
            &&& shown.event->ServingProgress_0.retry_count == attempt
            &&& shown.event->ServingProgress_0.detail == detail
        }),
{
    let none = ActionId { value: 0 };
    a_stage_is_told_to_all_that_follow_the_run(
        hub,
        revision,
        actions,
        ServingProgressStage::Retrying,
        0,
        1,
        attempt,
        Some("retrying after reconcile failure: "@ + error),
        now,
        none,
    );
    a_stage_is_told_to_all_that_follow_the_run(
        hub,
        revision,
        actions,
        stage,
        1,
        1,
        attempt,
        detail,
        now,
        none,
    );
}

/// A revision that a later one replaced is told as such, by which one.
pub proof fn a_replaced_revision_is_told_by_which(
    hub: HubView,
    revision: ResourceRevision,
    actions: Seq<ActionId>,
    latest: ResourceRevision,
    attempt: u32,
    now: u128,
)
    requires
        now + 250 <= u64::MAX,
    ensures
        ({
            let after = crate::serving_reconciler::publish::superseded(
                hub,
                revision,
                actions,
                latest,
                attempt,
                now,
            );
            let told = after.outbox[hub.outbox.len() as int];
            &&& after.outbox.len() == hub.outbox.len() + 2 + actions.len()
            &&& told.target == ProgressTarget::DesiredRevision(revision)
            &&& told.event is ServingProgress
            &&& told.event->ServingProgress_0.stage == ServingProgressStage::Superseded
            &&& told.event->ServingProgress_0.detail == Some(
                "superseded by desired revision "@ + crate::text::decimal_text(
                    latest.value as nat,
                ),
            )
            &&& told.event->ServingProgress_0.retry_count == (if attempt == 0 {
                0
            } else {
                attempt - 1
            })
            &&& after.outbox.last().target == ProgressTarget::DesiredRevision(revision)
            &&& after.outbox.last().event == (KindView::RevisionSuperseded {
                revision,
                replaced_by: latest,
            })
        }),
{
    a_stage_is_told_to_all_that_follow_the_run(
        hub,
        revision,
        actions,
        ServingProgressStage::Superseded,
        0,
        1,
        crate::serving_reconciler::publish::earlier(attempt),
        Some("superseded by desired revision "@ + crate::text::decimal_text(latest.value as nat)),
        now,
        ActionId { value: 0 },
    );
}

/// A replaced generation is followed by a completion once it has drained, and by
/// another look a quarter of a second later while requests are left.
pub proof fn a_drain_is_tried_until_it_is_complete(active: u64)
    ensures
        crate::serving_reconciler::finish::drain_follows(DrainOutcome::Drained)
            == DrainStep::Complete,
        crate::serving_reconciler::finish::drain_follows(DrainOutcome::Stuck { active }) == (
        DrainStep::Retry { active, millis: 250 }),
{
}

/// Errors of a publication are kept in order, each under its own words, and what went
/// well adds none.
pub proof fn errors_of_a_publication_are_kept(
    publication: PublicationView,
    intro: Seq<char>,
    error: Seq<char>,
)
    ensures
        publication.after(intro, Ok(())) == publication,
        publication.after(intro, Err(error)) == (PublicationView {
            errors: publication.errors.push(intro + error),
            ..publication
        }),
        publication.errors.len() > 0 ==> crate::text::joined(
            publication.after(intro, Err(error)).errors,
            "; "@,
        ) == crate::text::joined(publication.errors, "; "@) + "; "@ + (intro + error),
{
    assert(publication.errors.push(intro + error).drop_last() =~= publication.errors);
}

/// Each step of a run is shown to all that follow it: what is waited for and how much
/// of it, that it is there, that a generation is built and is built, and that it is
/// about to be published.
pub proof fn each_step_of_a_run_is_shown(
    pass: ServingPassView,
    hub: HubView,
    required: Seq<ProviderId>,
    now: u128,
)
    requires
        1 <= pass.attempt,
        0 < required.len() <= u32::MAX,
        pass.required.len() <= u32::MAX,
    ensures
        ({
            let shown = |hub: HubView, stage: ServingProgressStage, completed: u32, total: u32|
                crate::serving_reconciler::publish::staged(
                    hub,
                    pass.revision,
                    pass.actions,
                    stage,
                    completed,
                    total,
                    (pass.attempt - 1) as u32,
                    None,
                    now,
                );
            let all = pass.required.len() as u32;
            &&& pass.attempted(hub, now).hub == shown(
                crate::serving_reconciler::publish::marked_preparing(hub, pass.revision),
                ServingProgressStage::Queued,
                0,
                1,
            )
            &&& pass.stage == ServingStage::Enqueueing ==> pass.resumed(
                hub,
                ServingReplyView::Enqueued(Ok(required)),
                now,
            ).hub == shown(hub, ServingProgressStage::WaitingProviders, 0, required.len() as u32)
            &&& pass.stage is Waiting && pass.stage->next + 1 < all ==> pass.resumed(
                hub,
                ServingReplyView::Ready(Ok(())),
                now,
            ).hub == hub
            &&& pass.stage is Waiting && pass.stage->next + 1 >= all ==> pass.resumed(
                hub,
                ServingReplyView::Ready(Ok(())),
                now,
            ).hub == shown(
                shown(hub, ServingProgressStage::ProvidersReady, all, all),
                ServingProgressStage::Building,
                0,
                1,
            )
            &&& pass.stage == ServingStage::Building ==> pass.resumed(
                hub,
                ServingReplyView::Built(Ok(())),
                now,
            ).hub == shown(hub, ServingProgressStage::Built, 1, 1)
            &&& pass.stage == ServingStage::Fencing ==> pass.resumed(
                hub,
                ServingReplyView::Latest(Ok(pass.revision)),
                now,
            ).hub == shown(hub, ServingProgressStage::Publishing, 0, 1)
        }),
{
}

/// A failed attempt is shown as one that is tried again, and the last as a failure:
/// that of an artifact as the artifact's, any other as no one's.
pub proof fn a_failure_is_shown_as_whose_it_is(
    pass: ServingPassView,
    hub: HubView,
    reply: ServingReplyView,
    error: Seq<char>,
    now: u128,
)
    requires
        is_error(pass.stage, reply, error),
    ensures
        ({
            let step = pass.resumed(hub, reply, now);
            let culprit = if pass.stage is Waiting {
                Some(pass.required[pass.stage->next as int])
            } else {
                None
            };
            &&& pass.attempt < 3 ==> step.hub == crate::serving_reconciler::publish::retrying(
                hub,
                pass.revision,
                pass.actions,
                pass.attempt,
                error,
                now,
            )
            &&& pass.attempt >= 3 ==> step.hub == crate::serving_reconciler::publish::failed(
                hub,
                pass.revision,
                pass.resources,
                pass.actions,
                culprit,
                error,
                now,
            )
        }),
{
}

/// Whatever it is told, a run stays with its revision, its resources and its actions;
/// what it requires changes only with what was enqueued.
pub proof fn a_run_keeps_what_it_is_for(
    pass: ServingPassView,
    hub: HubView,
    reply: ServingReplyView,
    now: u128,
)
    ensures
        ({
            let after = pass.resumed(hub, reply, now).pass;
            &&& after.revision == pass.revision && after.resources == pass.resources
            &&& after.actions == pass.actions
            &&& !(reply is Enqueued) ==> after.required == pass.required
            &&& !(reply is Paused) ==> after.attempt == pass.attempt
        }),
{
}

/// A pending credential action is shown as what is being done: a submitted credential
/// as refreshing, a revoked one as revoking. Its receipt is told first where it was
/// not told yet. An action on a filesystem is not shown here.
pub proof fn a_pending_credential_action_is_shown(hub: HubView, receipt: ReceiptView, announce: bool)
    ensures
        ({
            let after = crate::serving_reconciler::finish::pending_shown(hub, receipt, announce);
            let told = after.outbox.last();
            &&& receipt.kind == ActionKind::RestartFilesystem <==> after == hub
            &&& receipt.kind != ActionKind::RestartFilesystem ==> {
                &&& after.outbox.len() == hub.outbox.len() + (if announce {
                    2int
                } else {
                    1int
                })
                &&& told.target == ProgressTarget::Action(receipt.action_id)
                &&& told.event matches KindView::CredentialProgress(credential)
                &&& credential.key == receipt.target
                &&& credential.stage == CredentialProgressStage::Refreshing <==> receipt.kind
                    == ActionKind::SetCredentialMaterial
                &&& credential.stage == CredentialProgressStage::Revoking <==> receipt.kind
                    == ActionKind::RevokeCredential
                &&& credential.error_code is None && credential.detail is None
            }
            &&& receipt.kind != ActionKind::RestartFilesystem && announce ==> {
                let first = after.outbox[hub.outbox.len() as int];
                &&& first.target == ProgressTarget::Action(receipt.action_id)
                &&& first.event is Snapshot
                &&& first.event == KindView::Snapshot(
                    crate::progress::hub::receipt_recorded(hub, receipt).snapshot,
                )
            }
        }),
{
    assert(receipt.kind != ActionKind::RestartFilesystem ==>
        crate::serving_reconciler::finish::pending_shown(hub, receipt, announce).outbox.len()
        > hub.outbox.len());
}

} // verus!
