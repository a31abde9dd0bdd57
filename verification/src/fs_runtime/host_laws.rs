//! When a host filesystem counts as started, as its own, and as gone.
use crate::fs_runtime::host::{
    check_stale, cleanup_wait, is_clean, judge_record, judge_stop, probe, HostLook, HostProof,
    HostStop, HostWait, PendingPhase, RunnerPhase, RunnerRecord, RunnerView, StopOutcome,
};
use crate::fs_runtime::process::{can_be_alive, poll_step, PollStep};
use crate::name::{FilesystemProtocol, FilesystemSpec, ResourceName};
use vstd::prelude::*;

verus! {

/// A host filesystem over FUSE needs the device; any other does not.
pub proof fn only_fuse_needs_its_device(
    protocol: FilesystemProtocol,
    exists_device: bool,
    probed: Result<(), String>,
)
    requires
        call_ensures(probe, (protocol, exists_device), probed),
    ensures
        probed is Err <==> protocol == FilesystemProtocol::Fuse && !exists_device,
{
}

/// A look at a starting host filesystem goes on to its phase only with a record of
/// this very start, for this filesystem as it is declared; without one it waits, and
/// an ended process or another's record ends the start.
pub proof fn a_start_is_followed_by_its_own_record(
    wait: &HostWait,
    exited: Option<&str>,
    record: Result<Option<&RunnerRecord>, String>,
    next: Result<HostLook, String>,
)
    requires
        call_ensures(HostWait::look, (wait, exited, record), next),
    ensures
        ({
            let own = record is Ok && record->Ok_0 is Some && (
            record->Ok_0->0).instance_id@ == wait.instance_id@ && (record->Ok_0->0).filesystem@
                == wait.filesystem@ && crate::name::same_spec(
                (record->Ok_0->0).spec@,
                wait.spec@,
            );
            &&& next == Ok::<HostLook, String>(HostLook::AskPhase) <==> exited is None && own
            &&& next == Ok::<HostLook, String>(HostLook::Wait) <==> exited is None && record is Ok
                && record->Ok_0 is None
        }),
{
}

/// A pending phase is remembered as itself, so that a start that is given up tells the
/// last one that was proved.
pub proof fn a_pending_phase_is_remembered(message: String)
    ensures
        crate::fs_runtime::host::pending_of(RunnerPhase::Preflight) == Some(
            PendingPhase::Preflight,
        ),
        crate::fs_runtime::host::pending_of(RunnerPhase::Attaching) == Some(
            PendingPhase::Attaching,
        ),
        crate::fs_runtime::host::pending_of(RunnerPhase::Mounting) == Some(PendingPhase::Mounting),
        crate::fs_runtime::host::pending_of(RunnerPhase::Stopping) == Some(PendingPhase::Stopping),
        crate::fs_runtime::host::pending_of(RunnerPhase::Busy) == Some(PendingPhase::Busy),
        crate::fs_runtime::host::pending_of(RunnerPhase::Mounted) is None,
        crate::fs_runtime::host::pending_of(RunnerPhase::Failed { message }) is None,
{
}

/// A host filesystem is absent only where neither its record nor its mount is there,
/// and is asked only under a record that is about it as it is declared.
pub proof fn a_host_filesystem_is_there_with_its_record(
    record: Option<&RunnerRecord>,
    filesystem: &ResourceName,
    spec: &FilesystemSpec,
    mount_active: bool,
    step: Result<HostProof, String>,
)
    requires
        call_ensures(judge_record, (record, filesystem, spec, mount_active), step),
    ensures
        step == Ok::<HostProof, String>(HostProof::Absent) <==> record is None && !mount_active,
        step == Ok::<HostProof, String>(HostProof::Ping) <==> record is Some
            && record->0.filesystem@ == filesystem@ && crate::name::same_spec(
            record->0.spec@,
            spec@,
        ),
{
}

/// Whether two records are of the same runner.
pub open spec fn is_same_runner(a: RunnerView, b: RunnerView) -> bool {
    a.version == b.version && a.instance_id == b.instance_id && a.pid == b.pid && a.process_group
        == b.process_group && a.filesystem == b.filesystem && crate::name::same_spec(a.spec, b.spec)
        && crate::text::path_parts(a.control_socket) == crate::text::path_parts(b.control_socket)
}

/// A runner is stopped only under the record that was proved; one that is gone leaves
/// no mount behind.
pub proof fn only_the_proved_runner_is_stopped(
    record: Option<&RunnerRecord>,
    expected: &RunnerRecord,
    mount_active: bool,
    stop: Result<HostStop, String>,
)
    requires
        call_ensures(judge_stop, (record, expected, mount_active), stop),
    ensures
        stop == Ok::<HostStop, String>(HostStop::Stop) <==> record is Some && is_same_runner(
            record->0@,
            expected@,
        ),
        stop == Ok::<HostStop, String>(HostStop::Gone) <==> record is None && !mount_active,
{
}

/// A stale record is removed only where it is the expected one, no one answers under
/// it, nothing is mounted and nothing of its process group is left.
pub proof fn only_a_dead_record_is_stale(
    record: Option<&RunnerRecord>,
    expected: &RunnerRecord,
    reachable: bool,
    mount_active: bool,
    process_group_exists: bool,
    checked: Result<(), String>,
)
    requires
        call_ensures(
            check_stale,
            (record, expected, reachable, mount_active, process_group_exists),
            checked,
        ),
    ensures
        checked is Ok <==> record is Some && is_same_runner(record->0@, expected@) && !reachable
            && !mount_active && !process_group_exists,
{
}

/// A stop is followed by a wait unless it failed, and a filesystem is clean only once
/// both its record and its mount are gone.
pub proof fn a_stop_is_followed_by_its_cleanup(
    outcome: StopOutcome,
    wait: Result<Option<String>, String>,
    record_gone: bool,
    mount_active: bool,
    clean: bool,
)
    requires
        call_ensures(cleanup_wait, (outcome,), wait),
        call_ensures(is_clean, (record_gone, mount_active), clean),
    ensures
        wait is Err <==> outcome is Failed,
        wait is Ok && outcome is Stopped ==> wait->Ok_0 is None,
        outcome is Busy ==> wait is Ok && wait->Ok_0 is Some && wait->Ok_0->0@
            == outcome->Busy_message@,
        clean <==> record_gone && !mount_active,
{
}

/// A wait ends with what it waits for, even when the time is up, and otherwise only
/// when it is.
pub proof fn a_wait_ends_with_what_it_waits_for(
    found: bool,
    now: u128,
    deadline: u128,
    step: PollStep,
    pid: u32,
    possible: bool,
)
    requires
        call_ensures(poll_step, (found, now, deadline), step),
        call_ensures(can_be_alive, (pid,), possible),
    ensures
        step == PollStep::Found <==> found,
        step == PollStep::Sleep <==> !found && now < deadline,
        !possible <==> pid == 0 || pid == 0xffff_ffff,
{
}

} // verus!
