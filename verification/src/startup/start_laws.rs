//! The order of a start and of a stop, and what a daemon shows that cannot serve.
use crate::control::{DaemonPhase, HealthState, OfferView, RepairAction};
use crate::name::{ProviderId, ResourceName, ResourceRevision};
use crate::provider_preparer::{PreparationView, ProviderPreparationPhase, ProviderPriority};
use crate::records::ProviderPreparationStage;
use crate::serving_reconciler::{DesiredResource, DesiredView};
use crate::startup::construct::{runtime_failure, BuildAsk, BuildStep, Teardown};
use crate::startup::cycle::{StageView, StartupAsk, StartupEvent};
use crate::startup::lifecycle::{LifeReply, LifeStep, LifeView};
use crate::startup::{
    retained_job, unpublish_process_identity, FailureView, IdentityCleanup, StartupFailure,
};
use vstd::prelude::*;

verus! {

/// The process after a step that went well.
pub open spec fn after_done(life: LifeView) -> LifeStep {
    life.resumed(LifeReply::Done { error: None })->Some_0.step
}

/// A process binds control before anything that can take long, publishes itself
/// before control is served, and prepares before it serves.
pub proof fn a_start_runs_in_order(life: LifeView)
    ensures
        life.step == LifeStep::ResolveContext ==> after_done(life) == LifeStep::LoadEmbedded,
        life.step == LifeStep::LoadEmbedded ==> after_done(life) == LifeStep::PrepareDirs,
        life.step == LifeStep::PrepareDirs ==> after_done(life) == LifeStep::BindControl,
        life.step == LifeStep::BindControl ==> after_done(life) == LifeStep::PublishIdentity,
        life.step == LifeStep::PublishIdentity ==> after_done(life) == LifeStep::StartControl,
        life.step == LifeStep::StartControl ==> after_done(life) == LifeStep::PrepareEngine,
        life.step == LifeStep::PrepareEngine ==> after_done(life) == LifeStep::EnqueueEmbedded,
        life.step == LifeStep::EnqueueEmbedded ==> after_done(life) == LifeStep::Serve
            && life.resumed(LifeReply::Done { error: None })->Some_0.preparer,
{
}

/// A stop is shown first and told to everyone; control is joined before the runtime
/// is stopped, the runtime before the preparer, and the identity goes last.
pub proof fn a_stop_runs_in_order(life: LifeView, left_runtime: bool, error: Option<String>)
    ensures
        life.step == LifeStep::Serve ==> {
            let next = life.resumed(LifeReply::Served { error, left_runtime });
            next is Some && next->0.step == LifeStep::ShowShuttingDown && next->0.runtime
                == left_runtime && next->0.preparer == life.preparer
        },
        life.step == LifeStep::ShowShuttingDown ==> after_done(life) == LifeStep::SendShutdown,
        life.step == LifeStep::SendShutdown ==> after_done(life) == LifeStep::StopSignals,
        life.step == LifeStep::StopSignals ==> after_done(life) == LifeStep::JoinControl,
        life.step == LifeStep::JoinControl && life.runtime ==> after_done(life)
            == LifeStep::StopDaemon,
        life.step == LifeStep::JoinControl && !life.runtime && life.preparer ==> after_done(life)
            == LifeStep::StopPreparer,
        life.step == LifeStep::JoinControl && !life.runtime && !life.preparer ==> after_done(life)
            == LifeStep::UnpublishIdentity,
        life.step == LifeStep::StopDaemon && life.preparer ==> after_done(life)
            == LifeStep::StopPreparer,
        life.step == LifeStep::StopDaemon && !life.preparer ==> after_done(life)
            == LifeStep::UnpublishIdentity,
        life.step == LifeStep::StopPreparer ==> after_done(life) == LifeStep::UnpublishIdentity,
        life.step == LifeStep::UnpublishIdentity ==> after_done(life) == LifeStep::Exit,
        life.step == LifeStep::RemoveSocket ==> after_done(life) == LifeStep::Exit,
{
}

/// A start that fails ends with that failure: at once where nothing is published
/// yet, without the socket where it could not be published, and otherwise after
/// everything that was started is stopped.
pub proof fn a_failed_start_ends_with_its_failure(life: LifeView, error: String)
    ensures
        ({
            let failed = life.resumed(LifeReply::Done { error: Some(error) });
            let step = failed->Some_0.step;
            let early = life.step == LifeStep::ResolveContext || life.step == LifeStep::LoadEmbedded
                || life.step == LifeStep::PrepareDirs || life.step == LifeStep::BindControl;
            let late = life.step == LifeStep::PrepareEngine || life.step
                == LifeStep::EnqueueEmbedded;
            &&& early ==> step == LifeStep::Exit
            &&& life.step == LifeStep::PublishIdentity ==> step == LifeStep::RemoveSocket
            &&& late ==> step == LifeStep::ShowShuttingDown
            &&& early || life.step == LifeStep::PublishIdentity || late ==> failed is Some
                && failed->Some_0.aborted && failed->Some_0.results =~= seq![
                Err::<(), Seq<char>>(error@),
            ]
        }),
{
}

/// What goes wrong while control, the runtime and the preparer are stopped is kept,
/// that of control under its own words; a failure of any other step of a stop is
/// not. Control that was lost ends a process at once.
pub proof fn a_failed_stop_is_kept(life: LifeView, error: String)
    requires
        !life.aborted,
    ensures
        ({
            let failed = life.resumed(LifeReply::Done { error: Some(error) })->Some_0;
            let lost = life.resumed(LifeReply::Lost { error })->Some_0;
            &&& life.step == LifeStep::JoinControl ==> failed.results == life.results.push(
                Err("serve control socket: "@ + error@),
            )
            &&& life.step == LifeStep::StopDaemon || life.step == LifeStep::StopPreparer
                ==> failed.results == life.results.push(Err(error@))
            &&& life.step == LifeStep::ShowShuttingDown || life.step == LifeStep::SendShutdown
                || life.step == LifeStep::StopSignals || life.step == LifeStep::UnpublishIdentity
                ==> failed.results == life.results && !failed.aborted
            &&& life.step == LifeStep::JoinControl ==> lost.step == LifeStep::Exit && lost.results
                =~= seq![Err::<(), Seq<char>>("join control server: "@ + error@)]
        }),
{
}

/// A store that was opened or repaired is built on, and one that was not is shown; a
/// runtime that was built is served, and one that was not is shown.
pub proof fn a_store_is_built_on_once_it_is_open(
    failure: FailureView,
    rejected: StartupFailure,
    error: String,
)
    ensures
        crate::startup::cycle::after(
            StageView::Opening,
            StartupEvent::StoreOpened { error: None },
        ) == Some(StageView::Building),
        crate::startup::cycle::after(
            StageView::Opening,
            StartupEvent::StoreOpened { error: Some(error) },
        ) == Some(StageView::Recovering { failure: FailureView::Store { error: error@ } }),
        crate::startup::cycle::after(
            StageView::Repairing { failure },
            StartupEvent::Repaired { error: None },
        ) == Some(StageView::Building),
        crate::startup::cycle::after(
            StageView::Repairing { failure },
            StartupEvent::Repaired { error: Some(error) },
        ) == Some(StageView::Recovering { failure: FailureView::Store { error: error@ } }),
        crate::startup::cycle::after(
            StageView::Building,
            StartupEvent::RuntimeBuilt { failure: None },
        ) == Some(StageView::Serving),
        crate::startup::cycle::after(
            StageView::Building,
            StartupEvent::RuntimeBuilt { failure: Some(rejected) },
        ) == Some(StageView::Recovering { failure: rejected@ }),
{
}

/// A daemon that cannot serve repairs when it is asked to, stops when it is asked to,
/// and waits on otherwise; one that served stops with what went wrong.
pub proof fn a_recovering_daemon_waits_for_a_word(
    failure: FailureView,
    closed: bool,
    requested: bool,
    error: Option<String>,
)
    ensures
        crate::startup::cycle::after(
            StageView::Recovering { failure },
            StartupEvent::RepairRequested,
        ) == Some(StageView::Repairing { failure }),
        crate::startup::cycle::after(
            StageView::Recovering { failure },
            StartupEvent::ShutdownChanged { closed, requested },
        ) == (if requested && !closed {
            Some(StageView::Stopped { error: None })
        } else {
            Some(StageView::Recovering { failure })
        }),
        crate::startup::cycle::after(
            StageView::Recovering { failure },
            StartupEvent::RepairQueueClosed,
        ) == Some(StageView::Stopped { error: Some("control repair queue closed"@) }),
        crate::startup::cycle::after(StageView::Serving, StartupEvent::Supervised { error }) == Some(
            StageView::Stopped {
                error: match error {
                    Some(error) => Some(error@),
                    None => None,
                },
            },
        ),
{
}

/// A daemon that cannot serve says that it needs a recovery and that its store is
/// unhealthy; what it knows of revisions is shown where a runtime was rejected, and
/// no revision is shown where the store could not be opened.
pub proof fn a_recovery_shows_what_is_known(failure: FailureView, repair: Option<OfferView>)
    ensures
        ({
            let shown = crate::startup::shown_after(failure, repair);
            &&& shown.phase == DaemonPhase::RecoveryRequired
            &&& shown.store_health.state == HealthState::Unhealthy
            &&& shown.repair == repair
            &&& failure is Store ==> shown.durable_revision is None && shown.serving_revision is None
                && shown.store_health.detail == "control store could not be opened"@
            &&& failure is Runtime ==> shown.durable_revision == failure->Runtime_durable_revision
                && shown.serving_revision == failure->Runtime_serving_revision
                && shown.store_health.detail == "daemon runtime could not start"@
        }),
{
}

/// A store that could not be opened is offered under a number of its own: the next
/// offer has another.
pub proof fn each_offer_has_its_own_number(
    failure: FailureView,
    next: u64,
    repair: Option<OfferView>,
)
    requires
        crate::startup::is_offered(failure, next, repair),
    ensures
        failure is Store ==> repair is Some && repair->0.actions =~= seq![
            RepairAction::RecreateControlStore,
        ] && crate::startup::offers_after(failure, next) != next && repair->0.id
            != crate::startup::offer_bytes(crate::startup::offers_after(failure, next)),
        failure is Runtime ==> repair is None && crate::startup::offers_after(failure, next) == next,
        repair is Some ==> repair->0.id.len() == 16,
{
    if failure is Store {
        crate::startup::laws::offers_are_told_apart(
            next,
            crate::startup::offers_after(failure, next),
        );
    }
    bytes_have_their_length(next as nat, 16);
}

proof fn bytes_have_their_length(value: nat, len: nat)
    ensures
        crate::startup::low_bytes(value, len).len() == len,
    decreases len,
{
    if len > 0 {
        bytes_have_their_length(value / 256, (len - 1) as nat);
    }
}

proof fn every_alias_is_listed(resources: Seq<DesiredView>, artifact: ProviderId, name: Seq<char>)
    ensures
        crate::startup::aliases_of(resources, artifact).contains(name) <==> exists|i: int|
            0 <= i < resources.len() && #[trigger] resources[i] == (DesiredView::Provider {
                name,
                artifact,
            }),
    decreases resources.len(),
{
    if resources.len() > 0 {
        let front = resources.drop_last();
        let last = resources.len() - 1;
        let earlier = crate::startup::aliases_of(front, artifact);
        let all = crate::startup::aliases_of(resources, artifact);
        every_alias_is_listed(front, artifact, name);
        if earlier.contains(name) {
            let k = choose|k: int| 0 <= k < earlier.len() && earlier[k] == name;
            assert(all[k] == name);
            let i = choose|i: int|
                0 <= i < front.len() && #[trigger] front[i] == (DesiredView::Provider {
                    name,
                    artifact,
                });
            assert(resources[i] == front[i]);
        }
        if resources[last] == (DesiredView::Provider { name, artifact }) {
            assert(all[earlier.len() as int] == name);
        }
        if all.contains(name) && !earlier.contains(name) {
            let k = choose|k: int| 0 <= k < all.len() && all[k] == name;
            if k < earlier.len() {
                assert(earlier[k] == name);
            }
            assert(resources[last] == (DesiredView::Provider { name, artifact }));
        }
        if exists|i: int|
            0 <= i < resources.len() && #[trigger] resources[i] == (DesiredView::Provider {
                name,
                artifact,
            }) {
            let i = choose|i: int|
                0 <= i < resources.len() && #[trigger] resources[i] == (DesiredView::Provider {
                    name,
                    artifact,
                });
            if i < last {
                assert(front[i] == resources[i]);
            }
        }
    }
}

/// A retained artifact that a mount uses is prepared before the others, under every
/// name it is declared by; one that none uses waits behind, under no name.
pub proof fn a_retained_artifact_is_prepared_by_its_use(
    resources: &Vec<DesiredResource>,
    artifact: ProviderId,
    job: (ProviderPriority, Vec<ResourceName>),
    name: Seq<char>,
)
    requires
        call_ensures(retained_job, (resources, artifact), job),
    ensures
        ({
            let used = crate::serving_reconciler::is_mounted(
                crate::list::views(resources@),
                artifact,
            );
            &&& used ==> job.0 == ProviderPriority::Desired
            &&& !used ==> job.0 == ProviderPriority::Retained
            &&& crate::list::views(job.1@).contains(name) <==> used && exists|i: int|
                0 <= i < resources@.len() && (#[trigger] resources@[i])@ == (DesiredView::Provider {
                    name,
                    artifact,
                })
        }),
{
    let known = crate::list::views(resources@);
    every_alias_is_listed(known, artifact, name);
    if exists|i: int|
        0 <= i < known.len() && #[trigger] known[i] == (DesiredView::Provider { name, artifact }) {
        let i = choose|i: int|
            0 <= i < known.len() && #[trigger] known[i] == (DesiredView::Provider {
                name,
                artifact,
            });
        assert(resources@[i]@ == known[i]);
    }
    if exists|i: int|
        0 <= i < resources@.len() && (#[trigger] resources@[i])@ == (DesiredView::Provider {
            name,
            artifact,
        }) {
        let i = choose|i: int|
            0 <= i < resources@.len() && (#[trigger] resources@[i])@ == (DesiredView::Provider {
                name,
                artifact,
            });
        assert(known[i] == resources@[i]@);
    }
}

/// A preparation is shown at the stage that it is in, with all that is known of it.
pub proof fn a_preparation_is_shown_as_it_stands(status: PreparationView)
    requires
        0 <= status.completed_bytes <= u64::MAX,
        0 <= status.total_bytes <= u64::MAX,
    ensures
        ({
            let shown = crate::startup::progress_of(status);
            &&& (shown.stage == ProviderPreparationStage::Queued) == (status.phase
                == ProviderPreparationPhase::Queued)
            &&& (shown.stage == ProviderPreparationStage::Compiling) == (status.phase
                == ProviderPreparationPhase::Preparing)
            &&& (shown.stage == ProviderPreparationStage::Retrying) == (status.phase
                == ProviderPreparationPhase::Retrying)
            &&& (shown.stage == ProviderPreparationStage::Ready) == (status.phase
                == ProviderPreparationPhase::Ready)
            &&& (shown.stage == ProviderPreparationStage::Failed) == (status.phase
                == ProviderPreparationPhase::Failed)
            &&& shown.digest == status.provider_id && shown.catalog_name == status.catalog_name
            &&& shown.resource_names == status.resource_names
            &&& shown.queue_position == status.queue_position
            &&& shown.completed_bytes == status.completed_bytes
            &&& shown.total_bytes is Some && shown.total_bytes->0 == status.total_bytes
            &&& shown.error_code == status.error_code && shown.detail == status.detail
            &&& shown.queued_digests == status.queued_digests
            &&& shown.active_digests == status.active_digests
            &&& shown.completed_digests == status.completed_digests
            &&& shown.retry_count == status.retry_count
        }),
{
}

/// What a runtime is built of comes in order, and a failed step closes what was opened
/// before it: the daemon itself only where its start is what failed.
pub proof fn a_runtime_is_built_in_order(step: BuildStep)
    ensures
        crate::startup::construct::asked_after(BuildStep::EnqueueProviders, false)
            == BuildAsk::Run(BuildStep::OpenHost),
        crate::startup::construct::asked_after(BuildStep::OpenHost, false) == BuildAsk::Run(
            BuildStep::PrepareEmptyGeneration,
        ),
        crate::startup::construct::asked_after(BuildStep::PrepareEmptyGeneration, false)
            == BuildAsk::Run(BuildStep::OpenResources),
        crate::startup::construct::asked_after(BuildStep::OpenResources, false) == BuildAsk::Run(
            BuildStep::StartDaemon,
        ),
        crate::startup::construct::asked_after(BuildStep::StartDaemon, false) == BuildAsk::Run(
            BuildStep::InstallReconciler,
        ),
        crate::startup::construct::asked_after(BuildStep::InstallReconciler, false)
            == BuildAsk::Run(BuildStep::InstallSupervisor),
        crate::startup::construct::asked_after(BuildStep::InstallSupervisor, false)
            == BuildAsk::Serve,
        crate::startup::construct::asked_after(step, true) == BuildAsk::Close(
            if step == BuildStep::StartDaemon {
                Teardown::StopDaemon
            } else {
                Teardown::CloseStore
            },
        ),
{
}

/// A rejected runtime is shown with its error and with the revisions that could be
/// read.
pub proof fn a_rejected_runtime_is_shown_with_its_revisions(
    error: String,
    durable: Result<ResourceRevision, String>,
    serving: Result<ResourceRevision, String>,
    failure: StartupFailure,
)
    requires
        call_ensures(runtime_failure, (error, durable, serving), failure),
    ensures
        failure@ is Runtime,
        failure@->Runtime_error == error@,
        durable is Ok ==> failure@->Runtime_durable_revision == Some(durable->Ok_0),
        durable is Err ==> failure@->Runtime_durable_revision is None,
        serving is Ok ==> failure@->Runtime_serving_revision == Some(serving->Ok_0),
        serving is Err ==> failure@->Runtime_serving_revision is None,
{
}

/// An identity that was published is removed, left to the process that has it by now,
/// or could not be removed.
pub proof fn a_published_identity_is_removed_or_left(
    removed: Result<bool, String>,
    cleanup: IdentityCleanup,
)
    requires
        call_ensures(unpublish_process_identity, (removed,), cleanup),
    ensures
        cleanup == IdentityCleanup::Removed <==> removed == Ok::<bool, String>(true),
        cleanup == IdentityCleanup::LeftIntact <==> removed == Ok::<bool, String>(false),
        cleanup == IdentityCleanup::Failed <==> removed is Err,
{
}

/// Each stage of the daemon asks for its own work, and a failure is shown with the
/// repair that is on offer for it; what was not waited for asks for nothing.
pub proof fn a_stage_asks_for_its_own_work(
    failure: FailureView,
    error: Option<Seq<char>>,
    next: u64,
    ask: StartupAsk,
)
    ensures
        crate::startup::cycle::is_asked(None, next, ask) <==> ask is Nothing,
        crate::startup::cycle::is_asked(Some(StageView::Building), next, ask) <==> ask is Build,
        crate::startup::cycle::is_asked(Some(StageView::Repairing { failure }), next, ask)
            <==> ask is Repair,
        crate::startup::cycle::is_asked(Some(StageView::Serving), next, ask) <==> ask is Supervise,
        crate::startup::cycle::is_asked(Some(StageView::Stopped { error }), next, ask)
            <==> ask is Stop,
        crate::startup::cycle::is_asked(Some(StageView::Recovering { failure }), next, ask) ==> {
            &&& ask is Show
            &&& ask->Show_0@.phase == DaemonPhase::RecoveryRequired
            &&& ask->Show_0@.repair is Some <==> failure is Store
        },
{
}

/// Only an offer that was made uses up its number.
pub proof fn an_offer_uses_up_its_number(failure: FailureView, next: u64)
    ensures
        crate::startup::cycle::numbered(Some(StageView::Recovering { failure }), next) == next
            <==> failure is Runtime,
        crate::startup::cycle::numbered(Some(StageView::Building), next) == next,
        crate::startup::cycle::numbered(None, next) == next,
{
}

} // verus!
