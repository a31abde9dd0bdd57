//! What a pass works on, and when the supervisor looks again.
use crate::filesystem_supervisor::cycle::{CycleAction, CycleEvent, SupervisorCycle};
use crate::filesystem_supervisor::pass::ProbeOutcome;
use crate::filesystem_supervisor::plan::{plan_pass, PassPlan, RetryCount};
use crate::filesystem_supervisor::stop::{
    absence_step, AbsenceStep, Session, Shutdown, ShutdownNext, ShutdownReply, ShutdownRequest,
    ShutdownStage, ShutdownStep, StopError, StopReply, StopStage,
};
use crate::filesystem_supervisor::{
    namespace_ready, retry_delay, DesiredFilesystem, FilesystemFailure, FilesystemInstance,
    FilesystemPhase, ObservationChange, ObservationView,
};
use crate::fs_runtime::driver::ConfirmedRuntime;
use crate::name::{FilesystemSpec, FilesystemVersion, ResourceRevision};
use crate::records::{ActionKind, ActionReceipt, ServingProgress, ServingProgressStage};
use vstd::prelude::*;

verus! {

/// Whether a place in a listing is the last that holds a name.
pub open spec fn is_last(names: Seq<Seq<char>>, at: int, name: Seq<char>) -> bool {
    0 <= at < names.len() && names[at] == name && forall|j: int|
        at < j < names.len() ==> #[trigger] names[j] != name
}

/// The names that are declared.
pub open spec fn declared_names(desired: Seq<DesiredFilesystem>) -> Seq<Seq<char>> {
    desired.map_values(|filesystem: DesiredFilesystem| filesystem.name@)
}

/// The names that are recorded.
pub open spec fn recorded_names(instances: Seq<FilesystemInstance>) -> Seq<Seq<char>> {
    instances.map_values(|instance: FilesystemInstance| instance.name@)
}

/// Whether a restart of a filesystem is asked for at a place.
pub open spec fn restarts(actions: Seq<ActionReceipt>, at: int, name: Seq<char>) -> bool {
    0 <= at < actions.len() && actions[at].kind == ActionKind::RestartFilesystem
        && actions[at].target.name@ == name
}

proof fn the_last_declaration_counts(desired: Seq<DesiredFilesystem>, at: int, name: Seq<char>)
    ensures
        is_last(declared_names(desired), at, name)
            ==> crate::filesystem_supervisor::plan::last_desired(desired, name) == Some(desired[at]),
        !declared_names(desired).contains(name)
            ==> crate::filesystem_supervisor::plan::last_desired(desired, name) is None,
    decreases desired.len(),
{
    if desired.len() > 0 {
        let last = desired.len() - 1;
        let names = declared_names(desired);
        let front = declared_names(desired.drop_last());
        assert(names[last] == desired.last().name@);
        assert(front =~= names.drop_last());
        the_last_declaration_counts(desired.drop_last(), at, name);
        if !names.contains(name) && front.contains(name) {
            let k = choose|k: int| 0 <= k < front.len() && front[k] == name;
            assert(names[k] == name);
        }
        if is_last(names, at, name) && at < last {
            assert(names[last] != name);
            assert forall|j: int| at < j < front.len() implies #[trigger] front[j] != name by {
                assert(names[j] != name);
            }
            assert(is_last(front, at, name));
        }
    }
}

proof fn the_last_record_counts(instances: Seq<FilesystemInstance>, at: int, name: Seq<char>)
    ensures
        is_last(recorded_names(instances), at, name)
            ==> crate::filesystem_supervisor::plan::last_instance(instances, name) == Some(
            instances[at],
        ),
        !recorded_names(instances).contains(name)
            ==> crate::filesystem_supervisor::plan::last_instance(instances, name) is None,
    decreases instances.len(),
{
    if instances.len() > 0 {
        let last = instances.len() - 1;
        let names = recorded_names(instances);
        let front = recorded_names(instances.drop_last());
        assert(names[last] == instances.last().name@);
        assert(front =~= names.drop_last());
        the_last_record_counts(instances.drop_last(), at, name);
        if !names.contains(name) && front.contains(name) {
            let k = choose|k: int| 0 <= k < front.len() && front[k] == name;
            assert(names[k] == name);
        }
        if is_last(names, at, name) && at < last {
            assert(names[last] != name);
            assert forall|j: int| at < j < front.len() implies #[trigger] front[j] != name by {
                assert(names[j] != name);
            }
            assert(is_last(front, at, name));
        }
    }
}

proof fn the_last_restart_counts(actions: Seq<ActionReceipt>, at: int, name: Seq<char>)
    ensures
        restarts(actions, at, name) && (forall|j: int|
            at < j < actions.len() ==> !#[trigger] restarts(actions, j, name))
            ==> crate::filesystem_supervisor::plan::last_restart(actions, name) == Some(actions[at]),
        (forall|j: int| 0 <= j < actions.len() ==> !#[trigger] restarts(actions, j, name))
            ==> crate::filesystem_supervisor::plan::last_restart(actions, name) is None,
    decreases actions.len(),
{
    if actions.len() > 0 {
        let last = actions.len() - 1;
        let front = actions.drop_last();
        the_last_restart_counts(front, at, name);
        assert(restarts(actions, last, name) == (actions.last().kind
            == ActionKind::RestartFilesystem && actions.last().target.name@ == name));
        if forall|j: int| 0 <= j < actions.len() ==> !#[trigger] restarts(actions, j, name) {
            assert forall|j: int| 0 <= j < front.len() implies !#[trigger] restarts(front, j, name) by {
                assert(!restarts(actions, j, name));
            }
        }
        if restarts(actions, at, name) && at < last && (forall|j: int|
            at < j < actions.len() ==> !#[trigger] restarts(actions, j, name)) {
            assert(!restarts(actions, last, name));
            assert(restarts(front, at, name));
            assert forall|j: int| at < j < front.len() implies !#[trigger] restarts(front, j, name) by {
                assert(!restarts(actions, j, name));
            }
        }
    }
}

/// Planned work is for what was declared, recorded and asked for last of its
/// filesystem, with the failures that were counted for it: a name that is not declared
/// is worked on as one that is to go, one without a record as one that is pending, and
/// one without a restart as it is.
pub proof fn a_filesystem_is_worked_on_as_it_is_known(
    desired: &Vec<DesiredFilesystem>,
    instances: &Vec<FilesystemInstance>,
    actions: &Vec<ActionReceipt>,
    retries: &Vec<RetryCount>,
    now: i64,
    plan: PassPlan,
    i: int,
    at: int,
)
    requires
        call_ensures(plan_pass, (desired, instances, actions, retries, now), plan),
        0 <= i < plan.work@.len(),
    ensures
        ({
            let planned = plan.work@[i];
            let name = planned.work.name@;
            &&& is_last(declared_names(desired@), at, name) ==> planned.desired == Some(desired@[at])
            &&& !declared_names(desired@).contains(name) ==> planned.desired is None
            &&& is_last(recorded_names(instances@), at, name) ==> planned.work.instance
                == instances@[at]
            &&& !recorded_names(instances@).contains(name) ==> planned.work.instance.phase
                == FilesystemPhase::Pending && planned.work.instance.runtime_instance is None
                && !planned.work.instance.deleting
            &&& restarts(actions@, at, name) && (forall|j: int|
                at < j < actions@.len() ==> !#[trigger] restarts(actions@, j, name))
                ==> planned.work.action == Some(actions@[at])
            &&& (forall|j: int| 0 <= j < actions@.len() ==> !#[trigger] restarts(actions@, j, name))
                ==> planned.work.action is None
            &&& (forall|j: int| 0 <= j < retries@.len() ==> (#[trigger] retries@[j]).name@ != name)
                ==> planned.work.retry_count == 0
            &&& 0 <= at < retries@.len() && retries@[at].name@ == name && (forall|j: int|
                0 <= j < at ==> (#[trigger] retries@[j]).name@ != name) ==> planned.work.retry_count
                == retries@[at].attempts
        }),
{
    let name = plan.work@[i].work.name@;
    a_filesystem_keeps_its_own_count(retries@, name, at);
    the_last_declaration_counts(desired@, at, name);
    the_last_record_counts(instances@, at, name);
    the_last_restart_counts(actions@, at, name);
}

/// Whether a filesystem is declared, recorded, or to be restarted.
pub open spec fn is_concerned(
    desired: Seq<DesiredFilesystem>,
    instances: Seq<FilesystemInstance>,
    actions: Seq<ActionReceipt>,
    name: Seq<char>,
) -> bool {
    declared_names(desired).contains(name) || recorded_names(instances).contains(name) || exists|
        k: int,
    | #[trigger] restarts(actions, k, name)
}

proof fn the_concerned_are_listed(
    desired: Seq<DesiredFilesystem>,
    instances: Seq<FilesystemInstance>,
    actions: Seq<ActionReceipt>,
    name: Seq<char>,
)
    ensures
        crate::filesystem_supervisor::plan::concerned(desired, instances, actions).contains(name)
            <==> is_concerned(desired, instances, actions, name),
{
    let declared = desired.map_values(|filesystem: DesiredFilesystem| filesystem.name@);
    let recorded = instances.map_values(|instance: FilesystemInstance| instance.name@);
    let restart = |action: ActionReceipt| action.kind == ActionKind::RestartFilesystem;
    let asked = actions.filter(restart);
    let targets = asked.map_values(|action: ActionReceipt| action.target.name@);
    let all = declared + recorded + targets;
    assert(declared == declared_names(desired));
    assert(recorded == recorded_names(instances));
    crate::progress::tidied_is_the_strict_listing(all);
    if declared.contains(name) {
        let k = choose|k: int| 0 <= k < declared.len() && declared[k] == name;
        assert(all[k] == name);
    }
    if recorded.contains(name) {
        let k = choose|k: int| 0 <= k < recorded.len() && recorded[k] == name;
        assert(all[declared.len() + k] == name);
    }
    if exists|k: int| #[trigger] restarts(actions, k, name) {
        let k = choose|k: int| #[trigger] restarts(actions, k, name);
        actions.lemma_filter_contains(restart, k);
        let m = choose|m: int| 0 <= m < asked.len() && asked[m] == actions[k];
        assert(targets[m] == name);
        assert(all[declared.len() + recorded.len() + m] == name);
    }
    if all.contains(name) {
        let k = choose|k: int| 0 <= k < all.len() && all[k] == name;
        if k < declared.len() {
            assert(declared[k] == name);
        } else if k < declared.len() + recorded.len() {
            assert(recorded[k - declared.len()] == name);
        } else {
            let m = k - declared.len() - recorded.len();
            assert(targets[m] == name);
            assert(asked.contains(asked[m]));
            actions.lemma_filter_contains_rev(restart, asked[m]);
            let j = choose|j: int| 0 <= j < actions.len() && actions[j] == asked[m];
            actions.lemma_filter_pred(restart, m);
            assert(restarts(actions, j, name));
        }
    }
}

/// Everything that is declared, recorded or to be restarted is worked on, and
/// nothing else; only one whose recorded next try lies ahead is left for later.
pub proof fn a_pass_leaves_out_only_what_waits(
    desired: &Vec<DesiredFilesystem>,
    instances: &Vec<FilesystemInstance>,
    actions: &Vec<ActionReceipt>,
    retries: &Vec<RetryCount>,
    now: i64,
    plan: PassPlan,
    name: Seq<char>,
    at: int,
)
    requires
        call_ensures(plan_pass, (desired, instances, actions, retries, now), plan),
    ensures
        ({
            let planned = exists|i: int|
                0 <= i < plan.work@.len() && (#[trigger] plan.work@[i]).work.name@ == name;
            let known = is_concerned(desired@, instances@, actions@, name);
            &&& planned ==> known
            &&& known && !recorded_names(instances@).contains(name) ==> planned
            &&& is_last(recorded_names(instances@), at, name) ==> planned == (
            instances@[at].retry_at is None || instances@[at].retry_at->0 <= now)
            &&& is_last(recorded_names(instances@), at, name) && !planned
                ==> plan.earliest_retry is Some && plan.earliest_retry->0 <= (
            instances@[at].retry_at->0 - now) * 1000
        }),
{
    let all = crate::filesystem_supervisor::plan::concerned(desired@, instances@, actions@);
    let due = |name: Seq<char>|
        crate::filesystem_supervisor::plan::waits(instances@, name, now) is None;
    let names = crate::filesystem_supervisor::plan::planned_names(plan.work@);
    the_concerned_are_listed(desired@, instances@, actions@, name);
    the_last_record_counts(instances@, at, name);
    if is_last(recorded_names(instances@), at, name) {
        assert(recorded_names(instances@).contains(name));
    }
    if names.contains(name) {
        let i = choose|i: int| 0 <= i < names.len() && names[i] == name;
        assert(plan.work@[i].work.name@ == name);
    }
    if exists|i: int| 0 <= i < plan.work@.len() && (#[trigger] plan.work@[i]).work.name@ == name {
        let i = choose|i: int|
            0 <= i < plan.work@.len() && (#[trigger] plan.work@[i]).work.name@ == name;
        assert(names[i] == name);
        all.lemma_filter_contains_rev(due, name);
        all.lemma_filter_pred(due, i);
        assert(due(name));
    }
    if all.contains(name) && due(name) {
        let k = choose|k: int| 0 <= k < all.len() && all[k] == name;
        all.lemma_filter_contains(due, k);
    }
    if all.contains(name) && !due(name) {
        let k = choose|k: int| 0 <= k < all.len() && all[k] == name;
        assert(crate::filesystem_supervisor::plan::waits(instances@, all[k], now) is Some);
    }
}

/// The delay before a try doubles with each failure, from a quarter of a second up to
/// eight seconds.
pub proof fn the_delay_doubles_up_to_its_cap(attempt: u32, delay: u64, next: u64)
    requires
        attempt < u32::MAX,
        call_ensures(retry_delay, (attempt,), delay),
        call_ensures(retry_delay, ((attempt + 1) as u32,), next),
    ensures
        attempt <= 1 ==> delay == 250,
        attempt >= 1 ==> next == (if 2 * delay <= 8000 {
            2 * delay
        } else {
            8000
        }),
        delay <= 8000,
{
    if attempt >= 1 {
        let n = (attempt - 1) as nat;
        assert(crate::filesystem_supervisor::doubled(n + 1) == 2
            * crate::filesystem_supervisor::doubled(n));
    }
    assert(crate::filesystem_supervisor::doubled(0) == 1);
}

/// The supervisor reconciles as soon as there is something to look at, unless it was
/// told to stop everything; a request to shut down comes before all else, and with
/// nothing to do it sleeps until the next try.
pub proof fn the_supervisor_looks_when_it_should(cycle: SupervisorCycle)
    ensures
        cycle.next_action(true) == CycleAction::StopAllAndExit,
        cycle.next_action(false) == CycleAction::Reconcile <==> cycle.reconcile_now
            && !cycle.suspended,
        !(cycle.reconcile_now && !cycle.suspended) && cycle.next_retry is Some
            ==> cycle.next_action(false) == (CycleAction::Wait { sleep: cycle.next_retry->0 }),
        !(cycle.reconcile_now && !cycle.suspended) && cycle.next_retry is None
            ==> cycle.next_action(false) == (CycleAction::Wait { sleep: 86_400_000 }),
{
}

/// A finished pass is not repeated before its next try is due; a stop of everything
/// suspends the supervisor, and a closed source or a shutdown ends it.
pub proof fn the_supervisor_keeps_what_it_was_told(cycle: SupervisorCycle, next_retry: Option<u128>)
    ensures
        cycle.told(CycleEvent::PassCompleted { next_retry }) == (SupervisorCycle {
            reconcile_now: false,
            next_retry,
            suspended: cycle.suspended,
        }),
        !cycle.told(CycleEvent::PassInterrupted).reconcile_now,
        cycle.told(CycleEvent::PassInterrupted).next_retry is None,
        cycle.told(CycleEvent::StoppedAll).suspended,
        cycle.told(CycleEvent::Changed { open: true }).next_retry == cycle.next_retry,
        cycle.told(CycleEvent::RetryDue).next_retry == cycle.next_retry,
        SupervisorCycle::ends_on(CycleEvent::Changed { open: false }),
        !SupervisorCycle::ends_on(CycleEvent::Changed { open: true }),
        SupervisorCycle::ends_on(CycleEvent::Shutdown { open: false, requested: false }),
        SupervisorCycle::ends_on(CycleEvent::Shutdown { open: true, requested: true }),
        !SupervisorCycle::ends_on(CycleEvent::Shutdown { open: true, requested: false }),
        !SupervisorCycle::ends_on(CycleEvent::RetryDue),
        !SupervisorCycle::ends_on(CycleEvent::StoppedAll),
{
}

/// Each step of an exact stop that fails is told as itself.
pub proof fn a_failed_step_of_a_stop_is_named(confirmed: ConfirmedRuntime)
    ensures
        crate::filesystem_supervisor::stop::stop_error(
            StopStage::BeginningSessionStop { confirmed },
            StopReply::Failed,
        ) == StopError::SessionRefused,
        crate::filesystem_supervisor::stop::stop_error(
            StopStage::StoppingRuntime,
            StopReply::Failed,
        ) == StopError::RuntimeFailed,
        crate::filesystem_supervisor::stop::stop_error(StopStage::ProvingGone, StopReply::Present)
            == StopError::StillPresent,
        crate::filesystem_supervisor::stop::stop_error(StopStage::ProvingGone, StopReply::Failed)
            == StopError::ProbeFailed,
        crate::filesystem_supervisor::stop::stop_error(StopStage::ClosingSession, StopReply::Failed)
            == StopError::CloseFailed,
        crate::filesystem_supervisor::stop::stop_error(
            StopStage::AwaitingAbsence,
            StopReply::Failed,
        ) == StopError::SessionRemained,
        crate::filesystem_supervisor::stop::stop_error(
            StopStage::FinishingSessionStop,
            StopReply::Failed,
        ) == StopError::FinishFailed,
{
}

/// The sessions of a stopped runtime are waited for until none is left, or until the
/// time is up.
pub proof fn sessions_are_waited_for(remains: bool, expired: bool, step: AbsenceStep)
    requires
        call_ensures(absence_step, (remains, expired), step),
    ensures
        step == AbsenceStep::Gone <==> !remains,
        step == AbsenceStep::Wait <==> remains && !expired,
{
}

/// A session is attached only under the exact filesystem and the exact instance.
pub proof fn only_the_exact_session_is_attached(sessions: Seq<Session>, k: int)
    requires
        0 <= k < sessions.len(),
    ensures
        crate::filesystem_supervisor::stop::is_attached(
            sessions,
            sessions[k].filesystem@,
            sessions[k].runtime_instance@,
        ),
        forall|name: Seq<char>, instance: Seq<char>| #[trigger]
            crate::filesystem_supervisor::stop::is_attached(seq![sessions[k]], name, instance)
                <==> name == sessions[k].filesystem@ && instance == sessions[k].runtime_instance@,
{
    let one = seq![sessions[k]];
    assert forall|name: Seq<char>, instance: Seq<char>| #[trigger]
        crate::filesystem_supervisor::stop::is_attached(one, name, instance) <==> name
            == sessions[k].filesystem@ && instance == sessions[k].runtime_instance@ by {
        assert(one[0] == sessions[k]);
    }
}

/// A runtime without its session is absent where it is gone, stopped where it no
/// longer runs, and given up only once the time is up.
pub proof fn a_runtime_without_its_session_is_judged(runtime: ConfirmedRuntime, expired: bool)
    ensures
        ({
            let judged = crate::filesystem_supervisor::stop::judged(Some(runtime), expired);
            let gone = crate::filesystem_supervisor::stop::judged(None, expired);
            &&& gone is Some && gone->0 is Absent
            &&& !runtime.running() ==> judged is Some && judged->0 is Stopped
                && judged->0->Stopped_0 == runtime
            &&& runtime.running() && expired ==> judged is Some && judged->0 is TimedOut
                && judged->0->TimedOut_0 == runtime
            &&& runtime.running() && !expired ==> judged is None
        }),
{
}

/// At shutdown every recorded runtime is looked for under its recorded identity; one
/// that is there is stopped exactly, and one that cannot be proved is left as a
/// straggler.
pub proof fn a_shutdown_looks_for_every_recorded_runtime(
    shutdown: Shutdown,
    instance: FilesystemInstance,
    begun: Option<ShutdownStep>,
    confirmed: ConfirmedRuntime,
    drained: bool,
)
    requires
        call_ensures(Shutdown::begin, (instance,), begun),
    ensures
        begun is Some <==> instance.observed_spec is Some && instance.runtime_instance is Some,
        begun is Some ==> begun->0.next == ShutdownNext::Ask(
            ShutdownRequest::Observe { change: ObservationChange::Stopping },
        ) && begun->0.shutdown.runtime_instance == instance.runtime_instance->0
            && begun->0.shutdown.spec == instance.observed_spec->0 && begun->0.shutdown.stage
            == ShutdownStage::RecordingStop,
        shutdown.stage == ShutdownStage::RecordingStop ==> shutdown.resumed(
            ShutdownReply::Observed(Some(instance)),
        ).next == ShutdownNext::Ask(
            ShutdownRequest::Probe {
                spec: shutdown.spec,
                runtime_instance: shutdown.runtime_instance,
            },
        ) && shutdown.resumed(ShutdownReply::Observed(Some(instance))).shutdown.instance == instance
            && shutdown.resumed(ShutdownReply::Observed(None)).next == ShutdownNext::Straggler,
        shutdown.stage == ShutdownStage::Probing ==> shutdown.resumed(
            ShutdownReply::Probed(ProbeOutcome::Present(confirmed)),
        ).next == ShutdownNext::Ask(
            ShutdownRequest::StopExact {
                spec: shutdown.spec,
                runtime_instance: shutdown.runtime_instance,
                confirmed,
            },
        ) && shutdown.resumed(ShutdownReply::Probed(ProbeOutcome::Absent)).next == ShutdownNext::Ask(
            ShutdownRequest::AwaitSessionAbsence { runtime_instance: shutdown.runtime_instance },
        ) && shutdown.resumed(ShutdownReply::Probed(ProbeOutcome::InvalidSpec)).next
            == ShutdownNext::Straggler && shutdown.resumed(
            ShutdownReply::Probed(ProbeOutcome::Unproved),
        ).next == ShutdownNext::Straggler,
        shutdown.stage == ShutdownStage::Stopping ==> shutdown.resumed(
            ShutdownReply::Stopped(true),
        ).next == ShutdownNext::Ask(
            ShutdownRequest::AwaitSessionAbsence { runtime_instance: shutdown.runtime_instance },
        ) && shutdown.resumed(ShutdownReply::Stopped(false)).next == ShutdownNext::Straggler,
        shutdown.stage == ShutdownStage::AwaitingAbsence ==> shutdown.resumed(
            ShutdownReply::Drained(drained),
        ).next == (if !drained {
            ShutdownNext::Straggler
        } else if shutdown.instance.deleting || shutdown.instance.desired_version is None {
            ShutdownNext::Ask(
                ShutdownRequest::ClearInstance {
                    runtime_instance: shutdown.instance.runtime_instance,
                },
            )
        } else {
            ShutdownNext::Ask(ShutdownRequest::Observe { change: ObservationChange::Cleared })
        }),
        shutdown.stage == ShutdownStage::ClearingInstance ==> shutdown.resumed(
            ShutdownReply::Cleared(drained),
        ).next == ShutdownNext::Clean,
        shutdown.stage == ShutdownStage::RecordingCleared ==> shutdown.resumed(
            ShutdownReply::Observed(Some(instance)),
        ).next == ShutdownNext::Clean && shutdown.resumed(ShutdownReply::Observed(None)).next
            == ShutdownNext::Straggler,
{
}

/// A record names the exact runtime from before its launch until it is proved gone:
/// only a start sets what was observed, and only a clearing forgets it.
pub proof fn a_record_holds_its_runtime_until_it_is_gone(
    before: ObservationView,
    version: FilesystemVersion,
    spec: FilesystemSpec,
    runtime_instance: String,
    at: i64,
    failure: FilesystemFailure,
    change: ObservationChange,
)
    ensures
        ({
            let started = (ObservationChange::Starting { version, spec, runtime_instance }).applied(
                before,
            );
            let cleared = ObservationChange::Cleared.applied(before);
            let after = change.applied(before);
            &&& started.observed_version == Some(version) && started.observed_spec == Some(spec)
            &&& started.runtime_instance == Some(runtime_instance@)
            &&& cleared.observed_version is None && cleared.observed_spec is None
            &&& cleared.runtime_instance is None
            &&& !(change is Starting) && !(change is Cleared) ==> after.observed_version
                == before.observed_version && after.observed_spec == before.observed_spec
                && after.runtime_instance == before.runtime_instance
            &&& after.name == before.name
        }),
{
}

/// A record shows the phase of what happened, a time for the next try only where
/// there is one, and the failure that it stands for; it forgets a failure once it
/// waits, starts or is ready, and not before.
pub proof fn a_record_shows_what_happened(
    before: ObservationView,
    at: i64,
    failure: FilesystemFailure,
    change: ObservationChange,
)
    ensures
        ({
            let after = change.applied(before);
            &&& after.phase == (match change {
                ObservationChange::Waiting => FilesystemPhase::WaitingForNamespace,
                ObservationChange::Starting { .. } => FilesystemPhase::Starting,
                ObservationChange::Ready => FilesystemPhase::Ready,
                ObservationChange::Stopping => FilesystemPhase::Stopping,
                ObservationChange::Cleared => FilesystemPhase::Pending,
                ObservationChange::Deleting => FilesystemPhase::Deleting,
                ObservationChange::Retrying { .. } => FilesystemPhase::Retrying,
                ObservationChange::Failed { .. } => FilesystemPhase::Failed,
            })
            &&& after.retry_at is Some <==> change is Retrying
            &&& change == (ObservationChange::Retrying { at, failure }) ==> after.retry_at == Some(at)
                && after.last_error_code == Some(failure.code_text()) && after.last_error_detail
                == Some(failure.detail_text())
            &&& change == (ObservationChange::Failed { failure }) ==> after.last_error_code == Some(
                failure.code_text(),
            ) && after.last_error_detail == Some(failure.detail_text())
            &&& change is Waiting || change is Starting || change is Ready
                ==> after.last_error_code is None && after.last_error_detail is None
            &&& change is Stopping || change is Cleared || change is Deleting
                ==> after.last_error_code == before.last_error_code && after.last_error_detail
                == before.last_error_detail
        }),
{
}

/// A namespace has reached a revision once that one or a later one is published.
pub proof fn a_namespace_is_reached_once_it_is_published(
    serving: &Option<ServingProgress>,
    revision: ResourceRevision,
    ready: bool,
)
    requires
        call_ensures(namespace_ready, (serving, revision), ready),
    ensures
        ready ==> serving is Some && (serving->0).revision.value >= revision.value,
        serving is Some && (serving->0).revision.value >= revision.value ==> ready == ((
        serving->0).stage == ServingProgressStage::Ready || (serving->0).stage
            == ServingProgressStage::Draining || (serving->0).stage
            == ServingProgressStage::Degraded),
{
}

/// A filesystem goes on with the failures that were counted for its own name; one for
/// which none was counted starts at none.
pub proof fn a_filesystem_keeps_its_own_count(retries: Seq<RetryCount>, name: Seq<char>, at: int)
    ensures
        (forall|i: int| 0 <= i < retries.len() ==> (#[trigger] retries[i]).name@ != name)
            ==> crate::filesystem_supervisor::plan::count_of(retries, name) == 0,
        0 <= at < retries.len() && retries[at].name@ == name && (forall|i: int|
            0 <= i < at ==> (#[trigger] retries[i]).name@ != name)
            ==> crate::filesystem_supervisor::plan::count_of(retries, name)
            == retries[at].attempts,
    decreases retries.len(),
{
    if retries.len() > 0 && retries[0].name@ != name {
        let rest = retries.skip(1);
        assert(forall|i: int| 0 <= i < rest.len() ==> (#[trigger] rest[i]) == retries[i + 1]);
        a_filesystem_keeps_its_own_count(rest, name, at - 1);
        if 0 < at < retries.len() {
            assert(rest[at - 1] == retries[at]);
        }
    }
}

} // verus!
