//! Host filesystems: the runner process, its record, and its control socket.
use crate::fs_runtime::driver::Candidate;
use crate::fs_runtime::identity::{ensure_identity_unchanged, ensure_record_matches, Identity};
use crate::name::{FilesystemProtocol, FilesystemSpec, ResourceName, SpecView};
use crate::text::{concat, concat3, decimal, push_text, same_path, same_text};
use vstd::prelude::*;
use vstd::string::*;

verus! {

/// How long a host filesystem may take to mount, in milliseconds.
pub const STARTUP_TIMEOUT: u64 = 12_000;

/// How long a host filesystem may take to clean up, in milliseconds.
pub const STOP_TIMEOUT: u64 = 6_000;

/// How often a host filesystem is looked at, in milliseconds.
pub const POLL_INTERVAL: u64 = 100;

/// How many host filesystems are probed at the same time.
pub const OWNERSHIP_PROBE_CONCURRENCY: usize = 8;

/// What a running host filesystem has recorded about itself on disk.
#[derive(Debug, PartialEq, Eq)]
pub struct RunnerRecord {
    pub version: u32,
    pub instance_id: String,
    pub pid: u32,
    pub process_group: i32,
    pub filesystem: ResourceName,
    pub spec: FilesystemSpec,
    pub control_socket: String,
}

/// [`RunnerRecord`] by what it spells.
pub struct RunnerView {
    pub version: u32,
    pub instance_id: Seq<char>,
    pub pid: u32,
    pub process_group: i32,
    pub filesystem: Seq<char>,
    pub spec: SpecView,
    pub control_socket: Seq<char>,
}

impl View for RunnerRecord {
    type V = RunnerView;

    open spec fn view(&self) -> RunnerView {
        RunnerView {
            version: self.version,
            instance_id: self.instance_id@,
            pid: self.pid,
            process_group: self.process_group,
            filesystem: self.filesystem@,
            spec: self.spec@,
            control_socket: self.control_socket@,
        }
    }
}

/// Whether two records are of the same runner. The locations and sockets in
/// them are compared as paths.
pub open spec fn same_runner(a: RunnerView, b: RunnerView) -> bool {
    &&& a.version == b.version
    &&& a.instance_id == b.instance_id
    &&& a.pid == b.pid
    &&& a.process_group == b.process_group
    &&& a.filesystem == b.filesystem
    &&& crate::name::same_spec(a.spec, b.spec)
    &&& crate::text::path_parts(a.control_socket) == crate::text::path_parts(b.control_socket)
}

impl Identity for RunnerRecord {
    open spec fn identical(a: RunnerView, b: RunnerView) -> bool {
        same_runner(a, b)
    }

    fn is_same(&self, other: &Self) -> (same: bool) {
        self.version == other.version && self.pid == other.pid && self.process_group
            == other.process_group && same_text(
            self.instance_id.as_str(),
            other.instance_id.as_str(),
        ) && self.filesystem.same(&other.filesystem) && self.spec.same(&other.spec) && same_path(
            self.control_socket.as_str(),
            other.control_socket.as_str(),
        )
    }
}

/// How far a host filesystem says it is.
#[derive(Debug, PartialEq, Eq)]
pub enum RunnerPhase {
    Preflight,
    Attaching,
    Mounting,
    Mounted,
    Stopping,
    Busy,
    Failed { message: String },
}

impl Clone for RunnerRecord {
    fn clone(&self) -> (copy: Self)
        ensures
            copy == *self,
    {
        RunnerRecord {
            version: self.version,
            instance_id: self.instance_id.clone(),
            pid: self.pid,
            process_group: self.process_group,
            filesystem: self.filesystem.clone(),
            spec: self.spec.clone(),
            control_socket: self.control_socket.clone(),
        }
    }
}

/// Refuses a host that lacks what a protocol needs.
pub fn probe(protocol: FilesystemProtocol, fuse_device_exists: bool) -> (probed: Result<(), String>)
    ensures
        match probed {
            Ok(_) => protocol != FilesystemProtocol::Fuse || fuse_device_exists,
            Err(text) => protocol == FilesystemProtocol::Fuse && !fuse_device_exists && text@
                == "/dev/fuse is not available on this host"@,
        },
{
    if protocol == FilesystemProtocol::Fuse && !fuse_device_exists {
        return Err("/dev/fuse is not available on this host".to_owned());
    }
    Ok(())
}

/// The arguments of a host filesystem's process.
pub open spec fn runner_arguments(
    filesystem: Seq<char>,
    spec: SpecView,
    runtime_instance: Seq<char>,
    state_dir: Seq<char>,
    attach_socket: Seq<char>,
    control_socket: Seq<char>,
) -> Seq<Seq<char>> {
    seq![
        "run-fs"@,
        "--name"@,
        filesystem,
        "--protocol"@,
        spec.protocol.spelling(),
        "--runtime"@,
        "host"@,
        "--location"@,
        spec.location,
    ] + (match spec.docker_image {
        Some(image) => seq!["--docker-image"@, image],
        None => seq![],
    }) + (match spec.libkrun_guest_image {
        Some(image) => seq!["--libkrun-guest-image"@, image],
        None => seq![],
    }) + seq![
        "--runtime-instance"@,
        runtime_instance,
        "--state-dir"@,
        state_dir,
        "--attach"@,
        attach_socket,
        "--runner-instance"@,
        runtime_instance,
        "--runner-control"@,
        control_socket,
    ]
}

/// The arguments of a host filesystem's process.
pub fn runner_command(
    filesystem: &ResourceName,
    spec: &FilesystemSpec,
    runtime_instance: &str,
    state_dir: &str,
    attach_socket: &str,
    control_socket: &str,
) -> (arguments: Vec<String>)
    ensures
        crate::text::texts(arguments@) == runner_arguments(
            filesystem@,
            spec@,
            runtime_instance@,
            state_dir@,
            attach_socket@,
            control_socket@,
        ),
{
    let mut arguments: Vec<String> = Vec::new();
    push_text(&mut arguments, "run-fs");
    push_text(&mut arguments, "--name");
    push_text(&mut arguments, filesystem.as_str());
    push_text(&mut arguments, "--protocol");
    push_text(&mut arguments, spec.protocol.as_str());
    push_text(&mut arguments, "--runtime");
    push_text(&mut arguments, "host");
    push_text(&mut arguments, "--location");
    push_text(&mut arguments, spec.location.as_str());
    if let Some(image) = &spec.docker_image {
        push_text(&mut arguments, "--docker-image");
        push_text(&mut arguments, image.as_str());
    }
    if let Some(image) = &spec.libkrun_guest_image {
        push_text(&mut arguments, "--libkrun-guest-image");
        push_text(&mut arguments, image.as_str());
    }
    push_text(&mut arguments, "--runtime-instance");
    push_text(&mut arguments, runtime_instance);
    push_text(&mut arguments, "--state-dir");
    push_text(&mut arguments, state_dir);
    push_text(&mut arguments, "--attach");
    push_text(&mut arguments, attach_socket);
    push_text(&mut arguments, "--runner-instance");
    push_text(&mut arguments, runtime_instance);
    push_text(&mut arguments, "--runner-control");
    push_text(&mut arguments, control_socket);
    assert(crate::text::texts(arguments@) =~= runner_arguments(
        filesystem@,
        spec@,
        runtime_instance@,
        state_dir@,
        attach_socket@,
        control_socket@,
    ));
    arguments
}

/// Where a host filesystem's process is controlled: the socket that was asked
/// for, or else the one derived from its state directory.
pub fn runner_socket(configured: Option<&str>, derived: &str) -> (socket: String)
    ensures
        socket@ == (match configured {
            Some(configured) => configured@,
            None => derived@,
        }),
{
    match configured {
        Some(configured) => configured.to_owned(),
        None => derived.to_owned(),
    }
}

/// Where the log of a host filesystem is created, given the directory that
/// its path names, if it names one.
pub fn log_directory(parent: Option<&str>) -> (directory: Result<String, String>)
    ensures
        match (directory, parent) {
            (Ok(directory), Some(parent)) => directory@ == parent@,
            (Err(error), None) => error@ == "filesystem log path has no parent directory"@,
            _ => false,
        },
{
    match parent {
        Some(parent) => Ok(parent.to_owned()),
        None => Err("filesystem log path has no parent directory".to_owned()),
    }
}

/// What is told of a host filesystem whose process could not be started.
pub fn start_failure(protocol: FilesystemProtocol, executable: &str, error: &str) -> (text: String)
    ensures
        text@ == "start host "@ + protocol.spelling() + " filesystem with "@ + executable@ + ": "@
            + error@,
{
    let text = concat3("start host ", protocol.as_str(), " filesystem with ");
    let text = concat3(text.as_str(), executable, ": ");
    concat(text.as_str(), error)
}

/// A phase in which a host filesystem is neither mounted nor failed.
#[derive(Clone, Copy, Debug, PartialEq, Eq, Structural)]
pub enum PendingPhase {
    Preflight,
    Attaching,
    Mounting,
    Stopping,
    Busy,
}

/// The last proved phase in words.
pub open spec fn phase_text(phase: Option<PendingPhase>) -> Seq<char> {
    match phase {
        None => "unconfirmed"@,
        Some(PendingPhase::Preflight) => "Preflight"@,
        Some(PendingPhase::Attaching) => "Attaching"@,
        Some(PendingPhase::Mounting) => "Mounting"@,
        Some(PendingPhase::Stopping) => "Stopping"@,
        Some(PendingPhase::Busy) => "Busy"@,
    }
}

/// The last proved phase in words.
pub fn phase_label(phase: Option<PendingPhase>) -> (label: &'static str)
    ensures
        label@ == phase_text(phase),
{
    match phase {
        None => "unconfirmed",
        Some(PendingPhase::Preflight) => "Preflight",
        Some(PendingPhase::Attaching) => "Attaching",
        Some(PendingPhase::Mounting) => "Mounting",
        Some(PendingPhase::Stopping) => "Stopping",
        Some(PendingPhase::Busy) => "Busy",
    }
}

/// The wait for a host filesystem that was just started.
#[derive(Debug, PartialEq, Eq)]
pub struct HostWait {
    pub filesystem: ResourceName,
    pub spec: FilesystemSpec,
    pub instance_id: String,
    pub state_dir: String,
    pub log_path: String,
    pub last_phase: Option<PendingPhase>,
}

/// What a look at a starting host filesystem calls for.
#[derive(Clone, Copy, Debug, PartialEq, Eq, Structural)]
pub enum HostLook {
    /// Ask the runner for its phase.
    AskPhase,
    /// Look again later.
    Wait,
}

impl HostWait {
    /// What is wrong with a starting host filesystem, given how its process
    /// ended, if it did, and what it has recorded.
    pub open spec fn look_error(
        self,
        exited: Option<Seq<char>>,
        record: Result<Option<RunnerView>, Seq<char>>,
    ) -> Option<Seq<char>> {
        match exited {
            Some(status) => Some(
                "host filesystem `"@ + self.filesystem@ + "` exited with "@ + status + "; see "@
                    + self.log_path@,
            ),
            None => match record {
                Err(error) => Some(error),
                Ok(None) => None,
                Ok(Some(record)) => if record.instance_id != self.instance_id@ {
                    Some(
                        "host filesystem state at "@ + self.state_dir@ + " belongs to runner "@
                            + record.instance_id + "; run `omnifs doctor` to diagnose"@,
                    )
                } else if !(record.filesystem == self.filesystem@ && crate::name::same_spec(
                    record.spec,
                    self.spec@,
                )) {
                    Some(crate::fs_runtime::identity::mismatch_text(self.filesystem@))
                } else {
                    None
                },
            },
        }
    }

    /// Judges a look at a starting host filesystem: an ended process, a
    /// record that cannot be read, or one of another runner ends the wait.
    pub fn look(&self, exited: Option<&str>, record: Result<Option<&RunnerRecord>, String>) -> (next:
        Result<HostLook, String>)
        ensures
            ({
                let recorded: Result<Option<RunnerView>, Seq<char>> = match record {
                    Ok(Some(record)) => Ok(Some(record@)),
                    Ok(None) => Ok(None),
                    Err(error) => Err(error@),
                };
                let error = self.look_error(
                    crate::fs_runtime::image::opt_str(exited),
                    recorded,
                );
                match next {
                    Err(text) => error == Some(text@),
                    Ok(look) => error is None && look == (if recorded matches Ok(Some(_)) {
                        HostLook::AskPhase
                    } else {
                        HostLook::Wait
                    }),
                }
            }),
    {
        if let Some(status) = exited {
            let text = concat3("host filesystem `", self.filesystem.as_str(), "` exited with ");
            let text = concat3(text.as_str(), status, "; see ");
            return Err(concat(text.as_str(), self.log_path.as_str()));
        }
        match record {
            Err(error) => Err(error),
            Ok(None) => Ok(HostLook::Wait),
            Ok(Some(record)) => {
                if !same_text(record.instance_id.as_str(), self.instance_id.as_str()) {
                    let text = concat3(
                        "host filesystem state at ",
                        self.state_dir.as_str(),
                        " belongs to runner ",
                    );
                    return Err(
                        concat3(
                            text.as_str(),
                            record.instance_id.as_str(),
                            "; run `omnifs doctor` to diagnose",
                        ),
                    );
                }
                match ensure_record_matches(
                    &record.filesystem,
                    &record.spec,
                    &self.filesystem,
                    &self.spec,
                ) {
                    Ok(_) => Ok(HostLook::AskPhase),
                    Err(text) => Err(text),
                }
            },
        }
    }

    /// Takes the phase that the runner answered, if it did. True once it is
    /// mounted; a failure ends the wait.
    pub fn phase_seen(&mut self, phase: Option<RunnerPhase>) -> (mounted: Result<bool, String>)
        ensures
            match phase {
                None => mounted == Ok::<bool, String>(false) && *final(self) == *old(self),
                Some(RunnerPhase::Mounted) => mounted == Ok::<bool, String>(true) && *final(self)
                    == *old(self),
                Some(RunnerPhase::Failed { message }) => *final(self) == *old(self) && (
                mounted matches Err(text) && text@ == "host filesystem `"@ + old(
                    self,
                ).filesystem@ + "` failed: "@ + message@ + "; see "@ + old(self).log_path@),
                Some(pending) => mounted == Ok::<bool, String>(false) && *final(self) == (HostWait {
                    last_phase: pending_of(pending),
                    ..*old(self)
                }),
            },
    {
        match phase {
            None => Ok(false),
            Some(RunnerPhase::Mounted) => Ok(true),
            Some(RunnerPhase::Failed { message }) => {
                let text = concat3("host filesystem `", self.filesystem.as_str(), "` failed: ");
                let text = concat3(text.as_str(), message.as_str(), "; see ");
                Err(concat(text.as_str(), self.log_path.as_str()))
            },
            Some(RunnerPhase::Preflight) => {
                self.last_phase = Some(PendingPhase::Preflight);
                Ok(false)
            },
            Some(RunnerPhase::Attaching) => {
                self.last_phase = Some(PendingPhase::Attaching);
                Ok(false)
            },
            Some(RunnerPhase::Mounting) => {
                self.last_phase = Some(PendingPhase::Mounting);
                Ok(false)
            },
            Some(RunnerPhase::Stopping) => {
                self.last_phase = Some(PendingPhase::Stopping);
                Ok(false)
            },
            Some(RunnerPhase::Busy) => {
                self.last_phase = Some(PendingPhase::Busy);
                Ok(false)
            },
        }
    }

    /// What is told of a host filesystem that did not mount in time. Its
    /// runner is left alive.
    pub fn mount_startup_timeout(&self) -> (text: String)
        ensures
            text@ == "host filesystem `"@ + self.filesystem@
                + "` did not confirm mount startup within "@ + crate::text::decimal_text(
                (STARTUP_TIMEOUT / 1000) as nat,
            ) + "s; last proved phase was "@ + phase_text(self.last_phase) + "; runner "@
                + self.instance_id@ + " was left alive for safe cleanup; see "@ + self.log_path@,
    {
        let text = concat3(
            "host filesystem `",
            self.filesystem.as_str(),
            "` did not confirm mount startup within ",
        );
        let text = concat3(
            text.as_str(),
            decimal(STARTUP_TIMEOUT / 1000).as_str(),
            "s; last proved phase was ",
        );
        let text = concat3(text.as_str(), phase_label(self.last_phase), "; runner ");
        let text = concat3(
            text.as_str(),
            self.instance_id.as_str(),
            " was left alive for safe cleanup; see ",
        );
        concat(text.as_str(), self.log_path.as_str())
    }
}

/// A pending phase as such.
pub open spec fn pending_of(phase: RunnerPhase) -> Option<PendingPhase> {
    match phase {
        RunnerPhase::Preflight => Some(PendingPhase::Preflight),
        RunnerPhase::Attaching => Some(PendingPhase::Attaching),
        RunnerPhase::Mounting => Some(PendingPhase::Mounting),
        RunnerPhase::Stopping => Some(PendingPhase::Stopping),
        RunnerPhase::Busy => Some(PendingPhase::Busy),
        _ => None,
    }
}

/// How a host filesystem answered the request to stop.
#[derive(Debug, PartialEq, Eq)]
pub enum StopOutcome {
    Stopped,
    Busy { message: String },
    Failed { message: String },
}

/// Whether a stop is followed by a wait for the cleanup, and what a runner
/// that is busy said.
pub fn cleanup_wait(outcome: StopOutcome) -> (wait: Result<Option<String>, String>)
    ensures
        match (outcome, wait) {
            (StopOutcome::Stopped, Ok(None)) => true,
            (StopOutcome::Busy { message }, Ok(Some(busy))) => busy@ == message@,
            (StopOutcome::Failed { message }, Err(text)) => text@ == message@,
            _ => false,
        },
{
    match outcome {
        StopOutcome::Stopped => Ok(None),
        StopOutcome::Busy { message } => Ok(Some(message)),
        StopOutcome::Failed { message } => Err(message),
    }
}

/// Whether a host filesystem is cleaned up: its record and its mount are both
/// gone.
pub fn is_clean(record_gone: bool, mount_active: bool) -> (clean: bool)
    ensures
        clean == (record_gone && !mount_active),
{
    record_gone && !mount_active
}

/// What is told of a cleanup that did not finish in time.
pub fn cleanup_timeout(busy: Option<String>, mount_point: &str) -> (text: String)
    ensures
        text@ == (match busy {
            Some(message) => message@ + "; cleanup did not finish within "@
                + crate::text::decimal_text((STOP_TIMEOUT / 1000) as nat) + "s"@,
            None => "host filesystem reported stopped but cleanup at "@ + mount_point@
                + " did not finish within "@ + crate::text::decimal_text(
                (STOP_TIMEOUT / 1000) as nat,
            ) + "s"@,
        }),
{
    let seconds = decimal(STOP_TIMEOUT / 1000);
    match busy {
        Some(message) => {
            let text = concat3(
                message.as_str(),
                "; cleanup did not finish within ",
                seconds.as_str(),
            );
            concat(text.as_str(), "s")
        },
        None => {
            let text = concat3(
                "host filesystem reported stopped but cleanup at ",
                mount_point,
                " did not finish within ",
            );
            concat3(text.as_str(), seconds.as_str(), "s")
        },
    }
}

/// What a confirmation of a host filesystem goes on with.
#[derive(Clone, Copy, Debug, PartialEq, Eq, Structural)]
pub enum HostProof {
    /// Nothing runs.
    Absent,
    /// The recorded runner is asked for its phase.
    Ping,
}

/// Judges the record of a host filesystem: without one, no mount may be
/// active, and one must be about this filesystem.
pub fn judge_record(
    record: Option<&RunnerRecord>,
    filesystem: &ResourceName,
    spec: &FilesystemSpec,
    mount_active: bool,
) -> (proof_step: Result<HostProof, String>)
    ensures
        match (record, proof_step) {
            (None, Ok(step)) => !mount_active && step == HostProof::Absent,
            (None, Err(text)) => mount_active && text@ == "host filesystem state exists at "@
                + spec@.location + " without a runner record; run `omnifs doctor` to diagnose"@,
            (Some(record), Ok(step)) => record@.filesystem == filesystem@
                && crate::name::same_spec(record@.spec, spec@) && step == HostProof::Ping,
            (Some(record), Err(text)) => !(record@.filesystem == filesystem@
                && crate::name::same_spec(record@.spec, spec@)) && text@ == crate::fs_runtime::identity::mismatch_text(filesystem@),
        },
{
    match record {
        None => {
            if mount_active {
                return Err(
                    concat3(
                        "host filesystem state exists at ",
                        spec.location.as_str(),
                        " without a runner record; run `omnifs doctor` to diagnose",
                    ),
                );
            }
            Ok(HostProof::Absent)
        },
        Some(record) => match ensure_record_matches(
            &record.filesystem,
            &record.spec,
            filesystem,
            spec,
        ) {
            Ok(_) => Ok(HostProof::Ping),
            Err(text) => Err(text),
        },
    }
}

/// What is told of a runner that does not answer.
pub fn unconfirmed_runner(record: &RunnerRecord, spec: &FilesystemSpec, error: &str) -> (text:
    String)
    ensures
        text@ == "host filesystem at "@ + spec@.location + " could not confirm runner "@
            + record@.instance_id + "; run `omnifs doctor` to diagnose: "@ + error@,
{
    let text = concat3(
        "host filesystem at ",
        spec.location.as_str(),
        " could not confirm runner ",
    );
    let text = concat3(
        text.as_str(),
        record.instance_id.as_str(),
        "; run `omnifs doctor` to diagnose: ",
    );
    concat(text.as_str(), error)
}

/// What a stop of a proved host filesystem goes on with.
#[derive(Clone, Copy, Debug, PartialEq, Eq, Structural)]
pub enum HostStop {
    /// It is gone already.
    Gone,
    /// The runner is asked to stop, or if it does not answer only waited for.
    Stop,
}

/// Judges the record of a host filesystem that is to be stopped: a record
/// that is gone leaves no mount behind, and one must be the proved one.
pub fn judge_stop(
    record: Option<&RunnerRecord>,
    expected: &RunnerRecord,
    mount_active: bool,
) -> (stop: Result<HostStop, String>)
    ensures
        match (record, stop) {
            (None, Ok(step)) => !mount_active && step == HostStop::Gone,
            (None, Err(text)) => mount_active && text@
                == "runner record disappeared while its exact mount remained active"@,
            (Some(record), Ok(step)) => same_runner(record@, expected@) && step
                == HostStop::Stop,
            (Some(record), Err(text)) => !same_runner(record@, expected@) && text@
                == crate::fs_runtime::identity::changed_text("runner"@),
        },
{
    match record {
        None => {
            if mount_active {
                return Err(
                    "runner record disappeared while its exact mount remained active".to_owned(),
                );
            }
            Ok(HostStop::Gone)
        },
        Some(_) => match ensure_identity_unchanged(record, expected, "runner") {
            Ok(_) => Ok(HostStop::Stop),
            Err(text) => Err(text),
        },
    }
}

/// What keeps a stale record from being removed, if anything does: it must
/// still be the same one, of a runner that does not answer, without a mount
/// and without processes.
pub open spec fn stale_error(
    record: Option<RunnerView>,
    expected: RunnerView,
    reachable: bool,
    mount_active: bool,
    process_group_exists: bool,
) -> Option<Seq<char>> {
    match record {
        None => Some("runner record disappeared before stale cleanup"@),
        Some(record) => if !same_runner(record, expected) {
            Some("runner identity changed before stale cleanup"@)
        } else if reachable {
            Some("runner became reachable before stale cleanup"@)
        } else if mount_active {
            Some("mount became active before stale cleanup"@)
        } else if process_group_exists {
            Some(
                "recorded process group "@ + crate::fs_runtime::docker::signed_text(
                    record.process_group as int,
                ) + " still exists; refusing stale cleanup"@,
            )
        } else {
            None
        },
    }
}

/// Decides whether a stale record may be removed.
pub fn check_stale(
    record: Option<&RunnerRecord>,
    expected: &RunnerRecord,
    reachable: bool,
    mount_active: bool,
    process_group_exists: bool,
) -> (checked: Result<(), String>)
    ensures
        ({
            let known = match record {
                Some(record) => Some(record@),
                None => None,
            };
            let error = stale_error(
                known,
                expected@,
                reachable,
                mount_active,
                process_group_exists,
            );
            match checked {
                Ok(_) => error is None,
                Err(text) => error == Some(text@),
            }
        }),
{
    match record {
        None => Err("runner record disappeared before stale cleanup".to_owned()),
        Some(record) => {
            if !record.is_same(expected) {
                return Err("runner identity changed before stale cleanup".to_owned());
            }
            if reachable {
                return Err("runner became reachable before stale cleanup".to_owned());
            }
            if mount_active {
                return Err("mount became active before stale cleanup".to_owned());
            }
            if process_group_exists {
                let group: i64 = record.process_group as i64;
                let spelled = if group < 0 {
                    concat("-", decimal((-group) as u64).as_str())
                } else {
                    decimal(group as u64)
                };
                return Err(
                    concat3(
                        "recorded process group ",
                        spelled.as_str(),
                        " still exists; refusing stale cleanup",
                    ),
                );
            }
            Ok(())
        },
    }
}

/// One directory in a scan of host filesystems.
#[derive(Debug, PartialEq, Eq)]
pub enum ScannedHost {
    /// The directory could not be listed.
    Unlisted { error: String },
    /// The record of the directory could not be read.
    Unreadable { state_dir: String, error: String },
    /// There is no record.
    Empty,
    /// The record, and what its runner answered.
    Recorded { state_dir: String, record: RunnerRecord, confirmed: Result<RunnerPhase, String> },
}

/// What a scanned directory is taken for.
pub fn host_candidate(scanned: ScannedHost, state_root: &str) -> (candidate: Option<Candidate>)
    ensures
        match (scanned, candidate) {
            (ScannedHost::Empty, None) => true,
            (
                ScannedHost::Unlisted { error },
                Some(Candidate::Invalid { backend, target, error: shown }),
            ) => backend@ == "host"@ && crate::text::opt_text(target) == Some(state_root@) && shown
                == error,
            (
                ScannedHost::Unreadable { state_dir, error },
                Some(Candidate::Invalid { backend, target, error: shown }),
            ) => backend@ == "host"@ && target == Some(state_dir) && shown == error,
            (
                ScannedHost::Recorded { state_dir, record, confirmed },
                Some(Candidate::Host { state_dir: dir, record: kept, confirmed: phase }),
            ) => dir == state_dir && kept == record && phase == confirmed,
            _ => false,
        },
{
    match scanned {
        ScannedHost::Empty => None,
        ScannedHost::Unlisted { error } => Some(
            Candidate::Invalid {
                backend: "host".to_owned(),
                target: Some(state_root.to_owned()),
                error,
            },
        ),
        ScannedHost::Unreadable { state_dir, error } => Some(
            Candidate::Invalid { backend: "host".to_owned(), target: Some(state_dir), error },
        ),
        ScannedHost::Recorded { state_dir, record, confirmed } => Some(
            Candidate::Host { state_dir, record, confirmed },
        ),
    }
}

} // verus!
