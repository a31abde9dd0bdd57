//! Daemon-owned reconciliation of desired filesystems into exact runtimes.
use crate::name::{FilesystemSpec, FilesystemVersion, ResourceName, ResourceRevision};
use crate::records::{ServingProgress, ServingProgressStage};
use vstd::prelude::*;

pub mod cycle;
pub mod pass;
pub mod pass_laws;
pub mod plan;
pub mod plan_laws;
pub mod publish;
pub mod publish_laws;
pub mod reconcile_laws;
pub mod stop;

verus! {

/// The first retry delay, in milliseconds.
pub const RETRY_BASE: u64 = 250;

/// The longest retry delay, in milliseconds.
pub const RETRY_CAP: u64 = 8_000;

/// The failed launches after which a filesystem is given up.
pub const MAX_RETRY_ATTEMPTS: u32 = 5;

/// `two` to the power `n`.
pub open spec fn doubled(n: nat) -> nat
    decreases n,
{
    if n == 0 {
        1
    } else {
        2 * doubled((n - 1) as nat)
    }
}

/// The delay before the given attempt: the base delay doubled once for each
/// earlier attempt, and never more than the cap.
pub open spec fn retry_delay_spec(attempt: u32) -> u64 {
    let doublings: nat = if attempt == 0 {
        0
    } else {
        (attempt - 1) as nat
    };
    let delay = RETRY_BASE as nat * doubled(doublings);
    if delay < RETRY_CAP {
        delay as u64
    } else {
        RETRY_CAP
    }
}

proof fn doubled_grows(n: nat, m: nat)
    requires
        n <= m,
    ensures
        1 <= doubled(n) <= doubled(m),
    decreases m,
{
    if n < m {
        doubled_grows(n, (m - 1) as nat);
    } else if n > 0 {
        doubled_grows((n - 1) as nat, (n - 1) as nat);
    }
}

/// The delay before the given attempt, in milliseconds.
pub fn retry_delay(attempt: u32) -> (delay: u64)
    ensures
        delay == retry_delay_spec(attempt),
{
    let mut doublings: u32 = if attempt == 0 {
        0
    } else {
        attempt - 1
    };
    if doublings > 5 {
        proof {
            reveal_with_fuel(doubled, 7);
            doubled_grows(6, doublings as nat);
            assert(RETRY_BASE as nat * doubled(doublings as nat) >= RETRY_CAP) by (nonlinear_arith)
                requires
                    doubled(doublings as nat) >= 64,
            ;
        }
        return RETRY_CAP;
    }
    let ghost wanted: nat = doublings as nat;
    proof {
        reveal_with_fuel(doubled, 7);
        doubled_grows(wanted, 5);
    }
    let mut delay: u64 = RETRY_BASE;
    while doublings > 0
        invariant
            doublings <= wanted <= 5,
            RETRY_BASE <= delay,
            delay * doubled(doublings as nat) == RETRY_BASE * doubled(wanted),
            delay <= RETRY_CAP,
            doubled(wanted) <= 32,
            wanted == (if attempt == 0 { 0int } else { attempt - 1 }),
        decreases doublings,
    {
        proof {
            doubled_grows(0, (doublings - 1) as nat);
        }
        assert(delay * doubled(doublings as nat) == (2 * delay) * doubled((doublings - 1) as nat))
            by (nonlinear_arith)
            requires
                doubled(doublings as nat) == 2 * doubled((doublings - 1) as nat),
        ;
        assert(2 * delay <= RETRY_CAP) by (nonlinear_arith)
            requires
                (2 * delay) * doubled((doublings - 1) as nat) <= RETRY_BASE * 32,
                doubled((doublings - 1) as nat) >= 1,
        ;
        delay = 2 * delay;
        doublings = doublings - 1;
    }
    assert(delay * doubled(0) == delay) by (nonlinear_arith)
        requires
            doubled(0) == 1,
    ;
    delay
}

/// Whole seconds since the epoch as a signed count, held at its largest value.
pub fn unix_seconds(since_epoch: u64) -> (seconds: i64)
    ensures
        seconds == (if since_epoch <= i64::MAX { since_epoch as int } else { i64::MAX as int }),
{
    if since_epoch <= 0x7fff_ffff_ffff_ffff {
        since_epoch as i64
    } else {
        i64::MAX
    }
}

/// Whole milliseconds since the epoch, held at their largest value.
pub fn unix_millis(since_epoch: u128) -> (millis: u64)
    ensures
        millis == (if since_epoch <= u64::MAX { since_epoch as int } else { u64::MAX as int }),
{
    if since_epoch <= 0xffff_ffff_ffff_ffff {
        since_epoch as u64
    } else {
        u64::MAX
    }
}

/// The lifecycle of one filesystem as it is recorded.
#[derive(Clone, Copy, Debug, PartialEq, Eq, Structural)]
pub enum FilesystemPhase {
    Pending,
    WaitingForNamespace,
    Starting,
    Ready,
    Stopping,
    Retrying,
    Failed,
    Deleting,
}

/// Why a filesystem could not be brought to its desired state.
#[derive(Clone, Copy, Debug, PartialEq, Eq, Structural)]
pub enum FilesystemFailure {
    StoredSpecInvalid,
    DesiredSpecInvalid,
    IdentityConflict,
    StopFailed,
    LaunchFailed,
    SessionTimeout,
    Deleted,
    DeleteSpecInvalid,
    DeleteStopFailed,
    DeleteIdentityConflict,
    DeleteSessionDrainFailed,
    DeleteIncomplete,
    DeleteProbeFailed,
}

impl FilesystemFailure {
    /// The stable code of the failure.
    pub open spec fn code_text(self) -> Seq<char> {
        match self {
            FilesystemFailure::StoredSpecInvalid => "filesystem_runtime_config_invalid"@,
            FilesystemFailure::DesiredSpecInvalid => "filesystem_runtime_config_invalid"@,
            FilesystemFailure::IdentityConflict => "filesystem_identity_conflict"@,
            FilesystemFailure::StopFailed => "filesystem_stop_failed"@,
            FilesystemFailure::LaunchFailed => "filesystem_launch_failed"@,
            FilesystemFailure::SessionTimeout => "filesystem_session_timeout"@,
            FilesystemFailure::Deleted => "filesystem_deleted"@,
            FilesystemFailure::DeleteSpecInvalid => "filesystem_delete_runtime_config_invalid"@,
            FilesystemFailure::DeleteStopFailed => "filesystem_delete_stop_failed"@,
            FilesystemFailure::DeleteIdentityConflict => "filesystem_delete_identity_conflict"@,
            FilesystemFailure::DeleteSessionDrainFailed => "filesystem_delete_session_drain_failed"@,
            FilesystemFailure::DeleteIncomplete => "filesystem_delete_incomplete"@,
            FilesystemFailure::DeleteProbeFailed => "filesystem_delete_probe_failed"@,
        }
    }

    /// What a reader of the failure is told.
    pub open spec fn detail_text(self) -> Seq<char> {
        match self {
            FilesystemFailure::StoredSpecInvalid =>
                "the stored filesystem runtime specification is invalid"@,
            FilesystemFailure::DesiredSpecInvalid =>
                "the desired filesystem runtime specification is invalid"@,
            FilesystemFailure::IdentityConflict =>
                "the existing filesystem runtime does not match its durable identity"@,
            FilesystemFailure::StopFailed =>
                "the previous filesystem runtime could not be stopped"@,
            FilesystemFailure::LaunchFailed => "the filesystem runtime could not start"@,
            FilesystemFailure::SessionTimeout =>
                "the filesystem runtime did not establish its exact VFS session"@,
            FilesystemFailure::Deleted =>
                "the filesystem was removed from desired state before restart completed"@,
            FilesystemFailure::DeleteSpecInvalid =>
                "the deleting filesystem runtime specification is invalid"@,
            FilesystemFailure::DeleteStopFailed => "the deleting runtime could not be stopped"@,
            FilesystemFailure::DeleteIdentityConflict =>
                "the deleting runtime no longer matches its durable identity"@,
            FilesystemFailure::DeleteSessionDrainFailed =>
                "the deleting filesystem session did not drain"@,
            FilesystemFailure::DeleteIncomplete =>
                "the filesystem runtime is still present after stop"@,
            FilesystemFailure::DeleteProbeFailed => "the deleting runtime absence check failed"@,
        }
    }

    /// The stable code of the failure.
    pub fn code(self) -> (code: &'static str)
        ensures
            code@ == self.code_text(),
    {
        match self {
            FilesystemFailure::StoredSpecInvalid => "filesystem_runtime_config_invalid",
            FilesystemFailure::DesiredSpecInvalid => "filesystem_runtime_config_invalid",
            FilesystemFailure::IdentityConflict => "filesystem_identity_conflict",
            FilesystemFailure::StopFailed => "filesystem_stop_failed",
            FilesystemFailure::LaunchFailed => "filesystem_launch_failed",
            FilesystemFailure::SessionTimeout => "filesystem_session_timeout",
            FilesystemFailure::Deleted => "filesystem_deleted",
            FilesystemFailure::DeleteSpecInvalid => "filesystem_delete_runtime_config_invalid",
            FilesystemFailure::DeleteStopFailed => "filesystem_delete_stop_failed",
            FilesystemFailure::DeleteIdentityConflict => "filesystem_delete_identity_conflict",
            FilesystemFailure::DeleteSessionDrainFailed => "filesystem_delete_session_drain_failed",
            FilesystemFailure::DeleteIncomplete => "filesystem_delete_incomplete",
            FilesystemFailure::DeleteProbeFailed => "filesystem_delete_probe_failed",
        }
    }

    /// What a reader of the failure is told.
    pub fn detail(self) -> (detail: &'static str)
        ensures
            detail@ == self.detail_text(),
    {
        match self {
            FilesystemFailure::StoredSpecInvalid =>
                "the stored filesystem runtime specification is invalid",
            FilesystemFailure::DesiredSpecInvalid =>
                "the desired filesystem runtime specification is invalid",
            FilesystemFailure::IdentityConflict =>
                "the existing filesystem runtime does not match its durable identity",
            FilesystemFailure::StopFailed => "the previous filesystem runtime could not be stopped",
            FilesystemFailure::LaunchFailed => "the filesystem runtime could not start",
            FilesystemFailure::SessionTimeout =>
                "the filesystem runtime did not establish its exact VFS session",
            FilesystemFailure::Deleted =>
                "the filesystem was removed from desired state before restart completed",
            FilesystemFailure::DeleteSpecInvalid =>
                "the deleting filesystem runtime specification is invalid",
            FilesystemFailure::DeleteStopFailed => "the deleting runtime could not be stopped",
            FilesystemFailure::DeleteIdentityConflict =>
                "the deleting runtime no longer matches its durable identity",
            FilesystemFailure::DeleteSessionDrainFailed =>
                "the deleting filesystem session did not drain",
            FilesystemFailure::DeleteIncomplete =>
                "the filesystem runtime is still present after stop",
            FilesystemFailure::DeleteProbeFailed => "the deleting runtime absence check failed",
        }
    }
}

/// One filesystem as the profile declares it.
#[derive(Debug, PartialEq, Eq)]
pub struct DesiredFilesystem {
    pub name: ResourceName,
    pub spec: FilesystemSpec,
    pub version: FilesystemVersion,
    pub revision: ResourceRevision,
}

impl Clone for DesiredFilesystem {
    fn clone(&self) -> (copy: Self)
        ensures
            copy == *self,
    {
        DesiredFilesystem {
            name: self.name.clone(),
            spec: self.spec.clone(),
            version: self.version,
            revision: self.revision,
        }
    }
}

/// One filesystem as it was last recorded: what is desired of it, and the
/// runtime identity that was observed or is about to be launched.
#[derive(Debug, PartialEq, Eq)]
pub struct FilesystemInstance {
    pub name: ResourceName,
    pub desired_version: Option<FilesystemVersion>,
    pub desired_spec: Option<FilesystemSpec>,
    pub observed_version: Option<FilesystemVersion>,
    pub observed_spec: Option<FilesystemSpec>,
    pub runtime_instance: Option<String>,
    pub phase: FilesystemPhase,
    pub retry_at: Option<i64>,
    pub last_error_code: Option<String>,
    pub last_error_detail: Option<String>,
    pub deleting: bool,
}

/// Copies an optional specification.
pub fn clone_spec(spec: &Option<FilesystemSpec>) -> (copy: Option<FilesystemSpec>)
    ensures
        copy == *spec,
{
    match spec {
        Some(spec) => Some(spec.clone()),
        None => None,
    }
}

impl Clone for FilesystemInstance {
    fn clone(&self) -> (copy: Self)
        ensures
            copy == *self,
    {
        FilesystemInstance {
            name: self.name.clone(),
            desired_version: self.desired_version,
            desired_spec: clone_spec(&self.desired_spec),
            observed_version: self.observed_version,
            observed_spec: clone_spec(&self.observed_spec),
            runtime_instance: self.runtime_instance.clone(),
            phase: self.phase,
            retry_at: self.retry_at,
            last_error_code: self.last_error_code.clone(),
            last_error_detail: self.last_error_detail.clone(),
            deleting: self.deleting,
        }
    }
}

impl FilesystemInstance {
    /// A filesystem of which nothing has been observed.
    pub fn pending(name: ResourceName) -> (instance: Self)
        ensures
            instance == (FilesystemInstance {
                name,
                desired_version: None,
                desired_spec: None,
                observed_version: None,
                observed_spec: None,
                runtime_instance: None,
                phase: FilesystemPhase::Pending,
                retry_at: None,
                last_error_code: None,
                last_error_detail: None,
                deleting: false,
            }),
    {
        FilesystemInstance {
            name,
            desired_version: None,
            desired_spec: None,
            observed_version: None,
            observed_spec: None,
            runtime_instance: None,
            phase: FilesystemPhase::Pending,
            retry_at: None,
            last_error_code: None,
            last_error_detail: None,
            deleting: false,
        }
    }
}

/// What is to be recorded of one filesystem.
#[derive(Debug, PartialEq, Eq)]
pub struct FilesystemObservation {
    pub name: ResourceName,
    pub observed_version: Option<FilesystemVersion>,
    pub observed_spec: Option<FilesystemSpec>,
    pub runtime_instance: Option<String>,
    pub phase: FilesystemPhase,
    pub retry_at: Option<i64>,
    pub last_error_code: Option<String>,
    pub last_error_detail: Option<String>,
}

/// [`FilesystemObservation`] by what its text spells.
pub struct ObservationView {
    pub name: Seq<char>,
    pub observed_version: Option<FilesystemVersion>,
    pub observed_spec: Option<FilesystemSpec>,
    pub runtime_instance: Option<Seq<char>>,
    pub phase: FilesystemPhase,
    pub retry_at: Option<i64>,
    pub last_error_code: Option<Seq<char>>,
    pub last_error_detail: Option<Seq<char>>,
}

impl View for FilesystemObservation {
    type V = ObservationView;

    open spec fn view(&self) -> ObservationView {
        ObservationView {
            name: self.name@,
            observed_version: self.observed_version,
            observed_spec: self.observed_spec,
            runtime_instance: crate::text::opt_text(self.runtime_instance),
            phase: self.phase,
            retry_at: self.retry_at,
            last_error_code: crate::text::opt_text(self.last_error_code),
            last_error_detail: crate::text::opt_text(self.last_error_detail),
        }
    }
}

impl FilesystemObservation {
    /// What is already recorded, ready to be changed.
    pub open spec fn of(instance: FilesystemInstance) -> ObservationView {
        ObservationView {
            name: instance.name@,
            observed_version: instance.observed_version,
            observed_spec: instance.observed_spec,
            runtime_instance: crate::text::opt_text(instance.runtime_instance),
            phase: instance.phase,
            retry_at: instance.retry_at,
            last_error_code: crate::text::opt_text(instance.last_error_code),
            last_error_detail: crate::text::opt_text(instance.last_error_detail),
        }
    }

    /// What is already recorded, ready to be changed.
    pub fn from_instance(instance: &FilesystemInstance) -> (observation: Self)
        ensures
            observation@ == Self::of(*instance),
    {
        FilesystemObservation {
            name: instance.name.clone(),
            observed_version: instance.observed_version,
            observed_spec: clone_spec(&instance.observed_spec),
            runtime_instance: instance.runtime_instance.clone(),
            phase: instance.phase,
            retry_at: instance.retry_at,
            last_error_code: instance.last_error_code.clone(),
            last_error_detail: instance.last_error_detail.clone(),
        }
    }
}

/// A change to what is recorded of one filesystem.
#[derive(Debug, PartialEq, Eq)]
pub enum ObservationChange {
    /// The namespace it serves is not published yet.
    Waiting,
    /// The exact identity that is about to be launched.
    Starting { version: FilesystemVersion, spec: FilesystemSpec, runtime_instance: String },
    /// Its runtime serves a session.
    Ready,
    /// Its runtime is being stopped.
    Stopping,
    /// Its runtime is proved gone.
    Cleared,
    /// It is being removed.
    Deleting,
    /// It is tried again at the given time.
    Retrying { at: i64, failure: FilesystemFailure },
    /// It is given up.
    Failed { failure: FilesystemFailure },
}

impl ObservationChange {
    /// The record after the change.
    pub open spec fn applied(self, before: ObservationView) -> ObservationView {
        match self {
            ObservationChange::Waiting => ObservationView {
                phase: FilesystemPhase::WaitingForNamespace,
                retry_at: None,
                last_error_code: None,
                last_error_detail: None,
                ..before
            },
            ObservationChange::Starting { version, spec, runtime_instance } => ObservationView {
                observed_version: Some(version),
                observed_spec: Some(spec),
                runtime_instance: Some(runtime_instance@),
                phase: FilesystemPhase::Starting,
                retry_at: None,
                last_error_code: None,
                last_error_detail: None,
                ..before
            },
            ObservationChange::Ready => ObservationView {
                phase: FilesystemPhase::Ready,
                retry_at: None,
                last_error_code: None,
                last_error_detail: None,
                ..before
            },
            ObservationChange::Stopping => ObservationView {
                phase: FilesystemPhase::Stopping,
                retry_at: None,
                ..before
            },
            ObservationChange::Cleared => ObservationView {
                observed_version: None,
                observed_spec: None,
                runtime_instance: None,
                phase: FilesystemPhase::Pending,
                retry_at: None,
                ..before
            },
            ObservationChange::Deleting => ObservationView {
                phase: FilesystemPhase::Deleting,
                retry_at: None,
                ..before
            },
            ObservationChange::Retrying { at, failure } => ObservationView {
                phase: FilesystemPhase::Retrying,
                retry_at: Some(at),
                last_error_code: Some(failure.code_text()),
                last_error_detail: Some(failure.detail_text()),
                ..before
            },
            ObservationChange::Failed { failure } => ObservationView {
                phase: FilesystemPhase::Failed,
                retry_at: None,
                last_error_code: Some(failure.code_text()),
                last_error_detail: Some(failure.detail_text()),
                ..before
            },
        }
    }
}

/// The observation to write for a change of one filesystem.
pub fn update_observation(instance: &FilesystemInstance, change: ObservationChange) -> (observation:
    FilesystemObservation)
    ensures
        observation@ == change.applied(FilesystemObservation::of(*instance)),
{
    let mut observation = FilesystemObservation::from_instance(instance);
    match change {
        ObservationChange::Waiting => {
            observation.phase = FilesystemPhase::WaitingForNamespace;
            observation.retry_at = None;
            observation.last_error_code = None;
            observation.last_error_detail = None;
        },
        ObservationChange::Starting { version, spec, runtime_instance } => {
            observation.observed_version = Some(version);
            observation.observed_spec = Some(spec);
            observation.runtime_instance = Some(runtime_instance);
            observation.phase = FilesystemPhase::Starting;
            observation.retry_at = None;
            observation.last_error_code = None;
            observation.last_error_detail = None;
        },
        ObservationChange::Ready => {
            observation.phase = FilesystemPhase::Ready;
            observation.retry_at = None;
            observation.last_error_code = None;
            observation.last_error_detail = None;
        },
        ObservationChange::Stopping => {
            observation.phase = FilesystemPhase::Stopping;
            observation.retry_at = None;
        },
        ObservationChange::Cleared => {
            observation.observed_version = None;
            observation.observed_spec = None;
            observation.runtime_instance = None;
            observation.phase = FilesystemPhase::Pending;
            observation.retry_at = None;
        },
        ObservationChange::Deleting => {
            observation.phase = FilesystemPhase::Deleting;
            observation.retry_at = None;
        },
        ObservationChange::Retrying { at, failure } => {
            observation.phase = FilesystemPhase::Retrying;
            observation.retry_at = Some(at);
            observation.last_error_code = Some(failure.code().to_owned());
            observation.last_error_detail = Some(failure.detail().to_owned());
        },
        ObservationChange::Failed { failure } => {
            observation.phase = FilesystemPhase::Failed;
            observation.retry_at = None;
            observation.last_error_code = Some(failure.code().to_owned());
            observation.last_error_detail = Some(failure.detail().to_owned());
        },
    }
    observation
}

/// Whether the serving namespace has reached a revision: that revision or a
/// later one is published, even if older requests still drain.
pub open spec fn namespace_reached(serving: Option<ServingProgress>, revision: ResourceRevision) -> bool {
    match serving {
        Some(serving) => serving.revision.value >= revision.value && (serving.stage
            == ServingProgressStage::Draining || serving.stage == ServingProgressStage::Degraded
            || serving.stage == ServingProgressStage::Ready),
        None => false,
    }
}

/// Whether the serving namespace has reached a revision.
pub fn namespace_ready(serving: &Option<ServingProgress>, revision: ResourceRevision) -> (ready: bool)
    ensures
        ready == namespace_reached(*serving, revision),
{
    match serving {
        Some(serving) => serving.revision.value >= revision.value && (serving.stage
            == ServingProgressStage::Draining || serving.stage == ServingProgressStage::Degraded
            || serving.stage == ServingProgressStage::Ready),
        None => false,
    }
}

} // verus!
