//! Stopping exactly the runtime whose identity was proved.
use crate::filesystem_supervisor::pass::{ConfirmedSession, ProbeOutcome};
use crate::filesystem_supervisor::{clone_spec, FilesystemInstance, ObservationChange};
use crate::fs_runtime::driver::ConfirmedRuntime;
use crate::name::{FilesystemSpec, ResourceName};
use crate::progress::tidy;
use crate::text::same_text;
use vstd::prelude::*;

verus! {

/// One attached session: which filesystem, under which exact identity.
#[derive(Debug, PartialEq, Eq)]
pub struct Session {
    pub filesystem: ResourceName,
    pub spec: FilesystemSpec,
    pub runtime_instance: String,
}

/// The session that a runtime is expected to attach.
pub fn session(name: &ResourceName, spec: &FilesystemSpec, runtime_instance: &String) -> (session: Session)
    ensures
        session == (Session {
            filesystem: *name,
            spec: *spec,
            runtime_instance: *runtime_instance,
        }),
{
    Session {
        filesystem: name.clone(),
        spec: spec.clone(),
        runtime_instance: runtime_instance.clone(),
    }
}

/// Whether a session of the instance is attached.
pub open spec fn is_attached(sessions: Seq<Session>, name: Seq<char>, instance: Seq<char>) -> bool {
    exists|i: int|
        0 <= i < sessions.len() && (#[trigger] sessions[i]).filesystem@ == name
            && sessions[i].runtime_instance@ == instance
}

/// Whether a session of the instance is still attached.
pub fn session_remains(sessions: &Vec<Session>, name: &ResourceName, runtime_instance: &str) -> (remains: bool)
    ensures
        remains == is_attached(sessions@, name@, runtime_instance@),
{
    let mut i: usize = 0;
    while i < sessions.len()
        invariant
            i <= sessions@.len(),
            forall|j: int|
                0 <= j < i ==> !((#[trigger] sessions@[j]).filesystem@ == name@
                    && sessions@[j].runtime_instance@ == runtime_instance@),
        decreases sessions@.len() - i,
    {
        if sessions[i].filesystem.same(name) && same_text(
            sessions[i].runtime_instance.as_str(),
            runtime_instance,
        ) {
            assert(sessions@[i as int].filesystem@ == name@);
            return true;
        }
        i = i + 1;
    }
    false
}

/// What is made of a proved runtime whose session has not attached yet:
/// nothing while it runs and there is time.
pub open spec fn judged(current: Option<ConfirmedRuntime>, expired: bool) -> Option<ConfirmedSession> {
    match current {
        None => Some(ConfirmedSession::Absent),
        Some(runtime) => if !runtime.running() {
            Some(ConfirmedSession::Stopped(runtime))
        } else if expired {
            Some(ConfirmedSession::TimedOut(runtime))
        } else {
            None
        },
    }
}

/// Judges a proved runtime whose session has not attached yet.
pub fn judge_session(current: Option<ConfirmedRuntime>, expired: bool) -> (judgement: Option<
    ConfirmedSession,
>)
    ensures
        judgement == judged(current, expired),
{
    match current {
        None => Some(ConfirmedSession::Absent),
        Some(runtime) => {
            if !runtime.is_running() {
                Some(ConfirmedSession::Stopped(runtime))
            } else if expired {
                Some(ConfirmedSession::TimedOut(runtime))
            } else {
                None
            }
        },
    }
}

/// The effect an exact stop waits for.
#[derive(Debug, PartialEq, Eq)]
pub enum StopRequest {
    /// Refuse the instance new sessions.
    BeginSessionStop,
    /// Stop the proved runtime.
    StopRuntime { confirmed: ConfirmedRuntime },
    /// Look for the runtime once more.
    ProveGone,
    /// Close what is left of its session.
    CloseSession,
    /// Wait until its session is gone.
    AwaitAbsence,
    /// Forget the refused session.
    FinishSessionStop,
}

/// What came of a [`StopRequest`].
#[derive(Clone, Copy, Debug, PartialEq, Eq, Structural)]
pub enum StopReply {
    Succeeded,
    /// The runtime is still there.
    Present,
    Failed,
}

/// Why an exact stop did not go through.
#[derive(Clone, Copy, Debug, PartialEq, Eq, Structural)]
pub enum StopError {
    InstanceChanged,
    SessionRefused,
    RuntimeFailed,
    StillPresent,
    ProbeFailed,
    CloseFailed,
    SessionRemained,
    FinishFailed,
}

impl StopError {
    /// What a reader of the error is told.
    pub fn message(self) -> (message: &'static str)
        ensures
            self == StopError::InstanceChanged ==> message@
                == "confirmed filesystem runtime instance changed before exact stop"@,
            self == StopError::SessionRefused ==> message@
                == "filesystem session could not be stopped"@,
            self == StopError::RuntimeFailed ==> message@
                == "filesystem runtime could not be stopped"@,
            self == StopError::StillPresent ==> message@
                == "filesystem runtime is still present after exact stop"@,
            self == StopError::ProbeFailed ==> message@
                == "filesystem runtime could not be probed after exact stop"@,
            self == StopError::CloseFailed ==> message@
                == "stopped filesystem session could not be closed"@,
            self == StopError::SessionRemained ==> message@
                == "exact VFS session remained after runtime stop"@,
            self == StopError::FinishFailed ==> message@
                == "filesystem session stop could not be finished"@,
    {
        match self {
            StopError::InstanceChanged =>
                "confirmed filesystem runtime instance changed before exact stop",
            StopError::SessionRefused => "filesystem session could not be stopped",
            StopError::RuntimeFailed => "filesystem runtime could not be stopped",
            StopError::StillPresent => "filesystem runtime is still present after exact stop",
            StopError::ProbeFailed => "filesystem runtime could not be probed after exact stop",
            StopError::CloseFailed => "stopped filesystem session could not be closed",
            StopError::SessionRemained => "exact VFS session remained after runtime stop",
            StopError::FinishFailed => "filesystem session stop could not be finished",
        }
    }
}

/// What an exact stop waits for.
#[derive(Debug, PartialEq, Eq)]
pub enum StopStage {
    BeginningSessionStop { confirmed: ConfirmedRuntime },
    StoppingRuntime,
    ProvingGone,
    ClosingSession,
    AwaitingAbsence,
    FinishingSessionStop,
    Over,
}

/// What an exact stop does next.
#[derive(Debug, PartialEq, Eq)]
pub enum StopNext {
    Ask(StopRequest),
    Stopped,
    Failed(StopError),
}

/// One step of an exact stop.
#[derive(Debug, PartialEq, Eq)]
pub struct StopStep {
    pub stage: StopStage,
    pub next: StopNext,
}

/// An exact stop begins only with a proof that names the recorded instance.
pub open spec fn stop_begun(runtime_instance: Seq<char>, confirmed: ConfirmedRuntime) -> StopStep {
    if confirmed.instance() == runtime_instance {
        StopStep {
            stage: StopStage::BeginningSessionStop { confirmed },
            next: StopNext::Ask(StopRequest::BeginSessionStop),
        }
    } else {
        StopStep { stage: StopStage::Over, next: StopNext::Failed(StopError::InstanceChanged) }
    }
}

/// Begins an exact stop.
pub fn stop_exact(runtime_instance: &str, confirmed: ConfirmedRuntime) -> (step: StopStep)
    ensures
        step == stop_begun(runtime_instance@, confirmed),
{
    if same_text(confirmed.runtime_instance(), runtime_instance) {
        StopStep {
            stage: StopStage::BeginningSessionStop { confirmed },
            next: StopNext::Ask(StopRequest::BeginSessionStop),
        }
    } else {
        StopStep { stage: StopStage::Over, next: StopNext::Failed(StopError::InstanceChanged) }
    }
}

/// The error of a stage that did not succeed.
pub open spec fn stop_error(stage: StopStage, reply: StopReply) -> StopError {
    match stage {
        StopStage::BeginningSessionStop { .. } => StopError::SessionRefused,
        StopStage::StoppingRuntime => StopError::RuntimeFailed,
        StopStage::ProvingGone => if reply == StopReply::Present {
            StopError::StillPresent
        } else {
            StopError::ProbeFailed
        },
        StopStage::ClosingSession => StopError::CloseFailed,
        StopStage::AwaitingAbsence => StopError::SessionRemained,
        StopStage::FinishingSessionStop => StopError::FinishFailed,
        StopStage::Over => StopError::FinishFailed,
    }
}

/// The step of an exact stop on a reply.
pub open spec fn stop_resumed(stage: StopStage, reply: StopReply) -> StopStep {
    if reply != StopReply::Succeeded {
        StopStep { stage: StopStage::Over, next: StopNext::Failed(stop_error(stage, reply)) }
    } else {
        match stage {
            StopStage::BeginningSessionStop { confirmed } => StopStep {
                stage: StopStage::StoppingRuntime,
                next: StopNext::Ask(StopRequest::StopRuntime { confirmed }),
            },
            StopStage::StoppingRuntime => StopStep {
                stage: StopStage::ProvingGone,
                next: StopNext::Ask(StopRequest::ProveGone),
            },
            StopStage::ProvingGone => StopStep {
                stage: StopStage::ClosingSession,
                next: StopNext::Ask(StopRequest::CloseSession),
            },
            StopStage::ClosingSession => StopStep {
                stage: StopStage::AwaitingAbsence,
                next: StopNext::Ask(StopRequest::AwaitAbsence),
            },
            StopStage::AwaitingAbsence => StopStep {
                stage: StopStage::FinishingSessionStop,
                next: StopNext::Ask(StopRequest::FinishSessionStop),
            },
            StopStage::FinishingSessionStop => StopStep {
                stage: StopStage::Over,
                next: StopNext::Stopped,
            },
            StopStage::Over => StopStep {
                stage: StopStage::Over,
                next: StopNext::Failed(StopError::FinishFailed),
            },
        }
    }
}

/// Goes on with an exact stop.
pub fn resume_stop(stage: StopStage, reply: StopReply) -> (step: StopStep)
    ensures
        step == stop_resumed(stage, reply),
{
    if reply != StopReply::Succeeded {
        let error = match stage {
            StopStage::BeginningSessionStop { .. } => StopError::SessionRefused,
            StopStage::StoppingRuntime => StopError::RuntimeFailed,
            StopStage::ProvingGone => if reply == StopReply::Present {
                StopError::StillPresent
            } else {
                StopError::ProbeFailed
            },
            StopStage::ClosingSession => StopError::CloseFailed,
            StopStage::AwaitingAbsence => StopError::SessionRemained,
            StopStage::FinishingSessionStop => StopError::FinishFailed,
            StopStage::Over => StopError::FinishFailed,
        };
        return StopStep { stage: StopStage::Over, next: StopNext::Failed(error) };
    }
    match stage {
        StopStage::BeginningSessionStop { confirmed } => StopStep {
            stage: StopStage::StoppingRuntime,
            next: StopNext::Ask(StopRequest::StopRuntime { confirmed }),
        },
        StopStage::StoppingRuntime => StopStep {
            stage: StopStage::ProvingGone,
            next: StopNext::Ask(StopRequest::ProveGone),
        },
        StopStage::ProvingGone => StopStep {
            stage: StopStage::ClosingSession,
            next: StopNext::Ask(StopRequest::CloseSession),
        },
        StopStage::ClosingSession => StopStep {
            stage: StopStage::AwaitingAbsence,
            next: StopNext::Ask(StopRequest::AwaitAbsence),
        },
        StopStage::AwaitingAbsence => StopStep {
            stage: StopStage::FinishingSessionStop,
            next: StopNext::Ask(StopRequest::FinishSessionStop),
        },
        StopStage::FinishingSessionStop => StopStep {
            stage: StopStage::Over,
            next: StopNext::Stopped,
        },
        StopStage::Over => StopStep {
            stage: StopStage::Over,
            next: StopNext::Failed(StopError::FinishFailed),
        },
    }
}

/// A runtime is told to stop only with a proof of its recorded instance, and
/// counts as stopped only after it was proved gone and its session with it.
pub proof fn an_exact_stop_runs_in_order(runtime_instance: Seq<char>, confirmed: ConfirmedRuntime)
    requires
        confirmed.instance() == runtime_instance,
    ensures
        ({
            let ok = StopReply::Succeeded;
            let s1 = stop_begun(runtime_instance, confirmed);
            let s2 = stop_resumed(s1.stage, ok);
            let s3 = stop_resumed(s2.stage, ok);
            let s4 = stop_resumed(s3.stage, ok);
            let s5 = stop_resumed(s4.stage, ok);
            let s6 = stop_resumed(s5.stage, ok);
            let s7 = stop_resumed(s6.stage, ok);
            &&& s1.next == StopNext::Ask(StopRequest::BeginSessionStop)
            &&& s2.next == StopNext::Ask(StopRequest::StopRuntime { confirmed })
            &&& s3.next == StopNext::Ask(StopRequest::ProveGone)
            &&& s4.next == StopNext::Ask(StopRequest::CloseSession)
            &&& s5.next == StopNext::Ask(StopRequest::AwaitAbsence)
            &&& s6.next == StopNext::Ask(StopRequest::FinishSessionStop)
            &&& s7.next == StopNext::Stopped
        }),
{
}

/// Any failure ends an exact stop at once, and no failure is taken for a stop.
pub proof fn a_failed_stop_is_reported(stage: StopStage, reply: StopReply)
    requires
        reply != StopReply::Succeeded,
    ensures
        stop_resumed(stage, reply).next is Failed,
        stop_resumed(stage, reply).stage is Over,
{
}

/// A proof that names another instance stops nothing.
pub proof fn another_instance_is_not_stopped(runtime_instance: Seq<char>, confirmed: ConfirmedRuntime)
    requires
        confirmed.instance() != runtime_instance,
    ensures
        stop_begun(runtime_instance, confirmed).next == StopNext::Failed(StopError::InstanceChanged),
{
}

/// What a look for the sessions of a stopped runtime calls for.
#[derive(Clone, Copy, Debug, PartialEq, Eq, Structural)]
pub enum AbsenceStep {
    /// None is left.
    Gone,
    /// One was left when the time was up.
    GiveUp,
    /// Wait for a change.
    Wait,
}

/// Judges a look for the sessions of a stopped runtime: that none is left counts
/// even when the time is up.
pub fn absence_step(remains: bool, expired: bool) -> (step: AbsenceStep)
    ensures
        step == (if !remains {
            AbsenceStep::Gone
        } else if expired {
            AbsenceStep::GiveUp
        } else {
            AbsenceStep::Wait
        }),
{
    if !remains {
        AbsenceStep::Gone
    } else if expired {
        AbsenceStep::GiveUp
    } else {
        AbsenceStep::Wait
    }
}

/// The effect that stopping one recorded filesystem at shutdown waits for.
#[allow(inconsistent_fields)]
#[derive(Debug, PartialEq, Eq)]
pub enum ShutdownRequest {
    Observe { change: ObservationChange },
    Probe { spec: FilesystemSpec, runtime_instance: String },
    StopExact { spec: FilesystemSpec, runtime_instance: String, confirmed: ConfirmedRuntime },
    AwaitSessionAbsence { runtime_instance: String },
    ClearInstance { runtime_instance: Option<String> },
}

/// What came of a [`ShutdownRequest`].
#[derive(Debug, PartialEq, Eq)]
pub enum ShutdownReply {
    Observed(Option<FilesystemInstance>),
    Probed(ProbeOutcome),
    Stopped(bool),
    Drained(bool),
    Cleared(bool),
}

/// What stopping one recorded filesystem waits for.
#[derive(Clone, Copy, Debug, PartialEq, Eq, Structural)]
pub enum ShutdownStage {
    RecordingStop,
    Probing,
    Stopping,
    AwaitingAbsence,
    ClearingInstance,
    RecordingCleared,
    Over,
}

/// What stopping one recorded filesystem does next.
#[derive(Debug, PartialEq, Eq)]
pub enum ShutdownNext {
    Ask(ShutdownRequest),
    /// Nothing of it is left running.
    Clean,
    /// Something of it may still run.
    Straggler,
    /// The reply was for something else; nothing changed.
    Unanswered,
}

/// One recorded filesystem that is being stopped at shutdown.
#[derive(Debug, PartialEq, Eq)]
pub struct Shutdown {
    pub spec: FilesystemSpec,
    pub runtime_instance: String,
    pub instance: FilesystemInstance,
    pub stage: ShutdownStage,
}

/// One step of stopping a recorded filesystem.
#[derive(Debug, PartialEq, Eq)]
pub struct ShutdownStep {
    pub shutdown: Shutdown,
    pub next: ShutdownNext,
}

impl Shutdown {
    /// The same filesystem at another stage.
    pub open spec fn at(self, stage: ShutdownStage, next: ShutdownNext) -> ShutdownStep {
        ShutdownStep { shutdown: Shutdown { stage, ..self }, next }
    }

    /// The runtime is gone; wait for its session.
    pub open spec fn drains(self) -> ShutdownStep {
        self.at(
            ShutdownStage::AwaitingAbsence,
            ShutdownNext::Ask(
                ShutdownRequest::AwaitSessionAbsence { runtime_instance: self.runtime_instance },
            ),
        )
    }

    /// The step on a reply.
    pub open spec fn resumed(self, reply: ShutdownReply) -> ShutdownStep {
        match (self.stage, reply) {
            (ShutdownStage::RecordingStop, ShutdownReply::Observed(Some(instance))) => (Shutdown {
                instance,
                ..self
            }).at(
                ShutdownStage::Probing,
                ShutdownNext::Ask(
                    ShutdownRequest::Probe {
                        spec: self.spec,
                        runtime_instance: self.runtime_instance,
                    },
                ),
            ),
            (ShutdownStage::RecordingStop, ShutdownReply::Observed(None)) => self.at(
                ShutdownStage::Over,
                ShutdownNext::Straggler,
            ),
            (ShutdownStage::Probing, ShutdownReply::Probed(outcome)) => match outcome {
                ProbeOutcome::Present(confirmed) => self.at(
                    ShutdownStage::Stopping,
                    ShutdownNext::Ask(
                        ShutdownRequest::StopExact {
                            spec: self.spec,
                            runtime_instance: self.runtime_instance,
                            confirmed,
                        },
                    ),
                ),
                ProbeOutcome::Absent => self.drains(),
                ProbeOutcome::InvalidSpec => self.at(ShutdownStage::Over, ShutdownNext::Straggler),
                ProbeOutcome::Unproved => self.at(ShutdownStage::Over, ShutdownNext::Straggler),
            },
            (ShutdownStage::Stopping, ShutdownReply::Stopped(stopped)) => if stopped {
                self.drains()
            } else {
                self.at(ShutdownStage::Over, ShutdownNext::Straggler)
            },
            (ShutdownStage::AwaitingAbsence, ShutdownReply::Drained(drained)) => if !drained {
                self.at(ShutdownStage::Over, ShutdownNext::Straggler)
            } else if self.instance.deleting || self.instance.desired_version is None {
                self.at(
                    ShutdownStage::ClearingInstance,
                    ShutdownNext::Ask(
                        ShutdownRequest::ClearInstance {
                            runtime_instance: self.instance.runtime_instance,
                        },
                    ),
                )
            } else {
                self.at(
                    ShutdownStage::RecordingCleared,
                    ShutdownNext::Ask(
                        ShutdownRequest::Observe { change: ObservationChange::Cleared },
                    ),
                )
            },
            (ShutdownStage::ClearingInstance, ShutdownReply::Cleared(_)) => self.at(
                ShutdownStage::Over,
                ShutdownNext::Clean,
            ),
            (ShutdownStage::RecordingCleared, ShutdownReply::Observed(Some(instance))) => (
            Shutdown { instance, ..self }).at(ShutdownStage::Over, ShutdownNext::Clean),
            (ShutdownStage::RecordingCleared, ShutdownReply::Observed(None)) => self.at(
                ShutdownStage::Over,
                ShutdownNext::Straggler,
            ),
            _ => ShutdownStep { shutdown: self, next: ShutdownNext::Unanswered },
        }
    }

    /// Begins to stop a recorded filesystem; one without a recorded runtime
    /// needs nothing.
    pub fn begin(instance: FilesystemInstance) -> (step: Option<ShutdownStep>)
        ensures
            match (instance.observed_spec, instance.runtime_instance) {
                (Some(spec), Some(runtime_instance)) => step == Some(
                    ShutdownStep {
                        shutdown: Shutdown {
                            spec,
                            runtime_instance,
                            instance,
                            stage: ShutdownStage::RecordingStop,
                        },
                        next: ShutdownNext::Ask(
                            ShutdownRequest::Observe { change: ObservationChange::Stopping },
                        ),
                    },
                ),
                _ => step is None,
            },
    {
        let spec = clone_spec(&instance.observed_spec);
        let recorded = instance.runtime_instance.clone();
        match (spec, recorded) {
            (Some(spec), Some(runtime_instance)) => Some(
                ShutdownStep {
                    shutdown: Shutdown {
                        spec,
                        runtime_instance,
                        instance,
                        stage: ShutdownStage::RecordingStop,
                    },
                    next: ShutdownNext::Ask(
                        ShutdownRequest::Observe { change: ObservationChange::Stopping },
                    ),
                },
            ),
            _ => None,
        }
    }

    fn move_to(self, stage: ShutdownStage, next: ShutdownNext) -> (step: ShutdownStep)
        ensures
            step == self.at(stage, next),
    {
        ShutdownStep {
            shutdown: Shutdown {
                spec: self.spec,
                runtime_instance: self.runtime_instance,
                instance: self.instance,
                stage,
            },
            next,
        }
    }

    fn with_instance(self, instance: FilesystemInstance) -> (shutdown: Shutdown)
        ensures
            shutdown == (Shutdown { instance, ..self }),
    {
        Shutdown {
            spec: self.spec,
            runtime_instance: self.runtime_instance,
            instance,
            stage: self.stage,
        }
    }

    fn drain(self) -> (step: ShutdownStep)
        ensures
            step == self.drains(),
    {
        let runtime_instance = self.runtime_instance.clone();
        self.move_to(
            ShutdownStage::AwaitingAbsence,
            ShutdownNext::Ask(ShutdownRequest::AwaitSessionAbsence { runtime_instance }),
        )
    }

    /// Goes on stopping a recorded filesystem.
    pub fn resume(self, reply: ShutdownReply) -> (step: ShutdownStep)
        ensures
            step == self.resumed(reply),
    {
        match (self.stage, reply) {
            (ShutdownStage::RecordingStop, ShutdownReply::Observed(Some(instance))) => {
                let spec = self.spec.clone();
                let runtime_instance = self.runtime_instance.clone();
                self.with_instance(instance).move_to(
                    ShutdownStage::Probing,
                    ShutdownNext::Ask(ShutdownRequest::Probe { spec, runtime_instance }),
                )
            },
            (ShutdownStage::RecordingStop, ShutdownReply::Observed(None)) => self.move_to(
                ShutdownStage::Over,
                ShutdownNext::Straggler,
            ),
            (ShutdownStage::Probing, ShutdownReply::Probed(outcome)) => match outcome {
                ProbeOutcome::Present(confirmed) => {
                    let spec = self.spec.clone();
                    let runtime_instance = self.runtime_instance.clone();
                    self.move_to(
                        ShutdownStage::Stopping,
                        ShutdownNext::Ask(
                            ShutdownRequest::StopExact { spec, runtime_instance, confirmed },
                        ),
                    )
                },
                ProbeOutcome::Absent => self.drain(),
                ProbeOutcome::InvalidSpec => self.move_to(
                    ShutdownStage::Over,
                    ShutdownNext::Straggler,
                ),
                ProbeOutcome::Unproved => self.move_to(ShutdownStage::Over, ShutdownNext::Straggler),
            },
            (ShutdownStage::Stopping, ShutdownReply::Stopped(stopped)) => {
                if stopped {
                    self.drain()
                } else {
                    self.move_to(ShutdownStage::Over, ShutdownNext::Straggler)
                }
            },
            (ShutdownStage::AwaitingAbsence, ShutdownReply::Drained(drained)) => {
                if !drained {
                    self.move_to(ShutdownStage::Over, ShutdownNext::Straggler)
                } else if self.instance.deleting || self.instance.desired_version.is_none() {
                    let runtime_instance = self.instance.runtime_instance.clone();
                    self.move_to(
                        ShutdownStage::ClearingInstance,
                        ShutdownNext::Ask(ShutdownRequest::ClearInstance { runtime_instance }),
                    )
                } else {
                    self.move_to(
                        ShutdownStage::RecordingCleared,
                        ShutdownNext::Ask(
                            ShutdownRequest::Observe { change: ObservationChange::Cleared },
                        ),
                    )
                }
            },
            (ShutdownStage::ClearingInstance, ShutdownReply::Cleared(_)) => self.move_to(
                ShutdownStage::Over,
                ShutdownNext::Clean,
            ),
            (ShutdownStage::RecordingCleared, ShutdownReply::Observed(Some(instance))) =>
                self.with_instance(instance).move_to(ShutdownStage::Over, ShutdownNext::Clean),
            (ShutdownStage::RecordingCleared, ShutdownReply::Observed(None)) => self.move_to(
                ShutdownStage::Over,
                ShutdownNext::Straggler,
            ),
            _ => ShutdownStep { shutdown: self, next: ShutdownNext::Unanswered },
        }
    }
}

/// A filesystem counts as cleanly stopped only after its session drained, and
/// its record is dropped or cleared only then.
pub proof fn nothing_is_forgotten_before_it_drained(shutdown: Shutdown, reply: ShutdownReply)
    ensures
        shutdown.resumed(reply).next matches ShutdownNext::Ask(ShutdownRequest::ClearInstance { .. })
            ==> reply == ShutdownReply::Drained(true),
        shutdown.resumed(reply).next == ShutdownNext::Ask(
            ShutdownRequest::Observe { change: ObservationChange::Cleared },
        ) ==> reply == ShutdownReply::Drained(true),
        shutdown.resumed(reply).next == ShutdownNext::Clean ==> shutdown.stage
            == ShutdownStage::ClearingInstance || shutdown.stage == ShutdownStage::RecordingCleared,
{
}

/// At shutdown, too, the record of a desired filesystem is kept: only one that is
/// being deleted, or that nothing desires, is dropped.
pub proof fn a_shutdown_keeps_desired_filesystems(shutdown: Shutdown, reply: ShutdownReply)
    ensures
        shutdown.resumed(reply).next matches ShutdownNext::Ask(ShutdownRequest::ClearInstance { .. })
            ==> shutdown.instance.deleting || shutdown.instance.desired_version is None,
{
}

/// At shutdown, too, only a proved runtime is stopped.
pub proof fn a_shutdown_stops_only_what_was_proved(shutdown: Shutdown, reply: ShutdownReply)
    ensures
        shutdown.resumed(reply).next matches ShutdownNext::Ask(
            ShutdownRequest::StopExact { spec: _, runtime_instance: _, confirmed },
        ) ==> reply == ShutdownReply::Probed(ProbeOutcome::Present(confirmed)),
{
}

/// The stragglers after one more filesystem has ended: its name is added unless
/// it was cleanly stopped.
pub open spec fn stragglers_after(
    stragglers: Seq<Seq<char>>,
    name: Seq<char>,
    end: ShutdownNext,
) -> Seq<Seq<char>> {
    if end == ShutdownNext::Clean {
        stragglers
    } else {
        stragglers.push(name)
    }
}

/// The stragglers among filesystems that have ended, in their order.
pub open spec fn all_stragglers(ends: Seq<(Seq<char>, ShutdownNext)>) -> Seq<Seq<char>>
    decreases ends.len(),
{
    if ends.len() == 0 {
        Seq::empty()
    } else {
        stragglers_after(all_stragglers(ends.drop_last()), ends.last().0, ends.last().1)
    }
}

/// A stop of every filesystem that has a runtime recorded.
#[derive(Debug)]
pub struct StopAll {
    /// Those that were not cleanly stopped so far.
    pub stragglers: Vec<ResourceName>,
}

impl View for StopAll {
    type V = Seq<Seq<char>>;

    open spec fn view(&self) -> Seq<Seq<char>> {
        crate::list::views(self.stragglers@)
    }
}

impl StopAll {
    /// Nothing has been stopped yet.
    pub fn new() -> (all: Self)
        ensures
            all@ == all_stragglers(Seq::empty()),
    {
        let stragglers: Vec<ResourceName> = Vec::new();
        assert(crate::list::views(stragglers@) =~= Seq::<Seq<char>>::empty());
        StopAll { stragglers }
    }

    /// Takes how the stop of one filesystem ended.
    pub fn ended(&mut self, name: &ResourceName, end: &ShutdownNext)
        ensures
            final(self)@ == stragglers_after(old(self)@, name@, *end),
    {
        match end {
            ShutdownNext::Clean => {},
            _ => {
                let ghost before = self@;
                self.stragglers.push(name.clone());
                assert(self@ =~= before.push(name@));
            },
        }
    }
}

/// What is in a list of stragglers: exactly the names that did not end cleanly.
proof fn stragglers_did_not_end_cleanly(ends: Seq<(Seq<char>, ShutdownNext)>, name: Seq<char>)
    ensures
        all_stragglers(ends).contains(name) <==> exists|i: int|
            0 <= i < ends.len() && (#[trigger] ends[i]).0 == name && ends[i].1
                != ShutdownNext::Clean,
    decreases ends.len(),
{
    if ends.len() > 0 {
        let rest = ends.drop_last();
        let before = all_stragglers(rest);
        stragglers_did_not_end_cleanly(rest, name);
        let last = ends.len() - 1;
        if all_stragglers(ends).contains(name) {
            if before.contains(name) {
                let i = choose|i: int|
                    0 <= i < rest.len() && (#[trigger] rest[i]).0 == name && rest[i].1
                        != ShutdownNext::Clean;
                assert(ends[i] == rest[i]);
            } else {
                let k = choose|k: int|
                    0 <= k < all_stragglers(ends).len() && all_stragglers(ends)[k] == name;
                if k < before.len() {
                    assert(before[k] == name);
                }
                assert(ends[last].0 == name);
            }
        }
        if exists|i: int|
            0 <= i < ends.len() && (#[trigger] ends[i]).0 == name && ends[i].1
                != ShutdownNext::Clean {
            let i = choose|i: int|
                0 <= i < ends.len() && (#[trigger] ends[i]).0 == name && ends[i].1
                    != ShutdownNext::Clean;
            if i < last {
                assert(rest[i] == ends[i]);
                let k = choose|k: int| 0 <= k < before.len() && before[k] == name;
                assert(all_stragglers(ends)[k] == name);
            } else {
                assert(all_stragglers(ends)[before.len() as int] == name);
            }
        }
    }
}

/// A stop of everything tells of exactly those that were not cleanly stopped and
/// of those that still hold a session, in order, each once.
pub proof fn a_stop_of_everything_tells_what_is_left(
    ends: Seq<(Seq<char>, ShutdownNext)>,
    sessions: Seq<Session>,
    name: Seq<char>,
)
    ensures
        ({
            let left = crate::progress::tidied(all_stragglers(ends) + attached_names(sessions));
            left.contains(name) <==> (exists|i: int|
                0 <= i < ends.len() && (#[trigger] ends[i]).0 == name && ends[i].1
                    != ShutdownNext::Clean) || (exists|j: int|
                0 <= j < sessions.len() && (#[trigger] sessions[j]).filesystem@ == name)
        }),
{
    let stragglers = all_stragglers(ends);
    let attached = attached_names(sessions);
    stragglers_did_not_end_cleanly(ends, name);
    crate::progress::tidied_is_the_strict_listing(stragglers + attached);
    if stragglers.contains(name) {
        let k = choose|k: int| 0 <= k < stragglers.len() && stragglers[k] == name;
        assert((stragglers + attached)[k] == name);
    }
    if exists|j: int| 0 <= j < sessions.len() && (#[trigger] sessions[j]).filesystem@ == name {
        let j = choose|j: int|
            0 <= j < sessions.len() && (#[trigger] sessions[j]).filesystem@ == name;
        assert(attached[j] == name);
        assert((stragglers + attached)[stragglers.len() + j] == name);
    }
    if (stragglers + attached).contains(name) {
        let k = choose|k: int|
            0 <= k < (stragglers + attached).len() && (stragglers + attached)[k] == name;
        if k < stragglers.len() {
            assert(stragglers[k] == name);
        } else {
            assert(attached[k - stragglers.len()] == name);
            assert(sessions[k - stragglers.len()].filesystem@ == name);
        }
    }
}

/// The names of the filesystems that attached sessions belong to.
pub open spec fn attached_names(sessions: Seq<Session>) -> Seq<Seq<char>> {
    sessions.map_values(|session: Session| session.filesystem@)
}

/// Everything that may still run after a shutdown: what could not be stopped,
/// and whatever still holds a session; in order, each once.
pub fn remaining_filesystems(stragglers: Vec<ResourceName>, sessions: Vec<Session>) -> (names: Vec<
    ResourceName,
>)
    ensures
        crate::list::views(names@) == crate::progress::tidied(
            crate::list::views(stragglers@) + attached_names(sessions@),
        ),
{
    let mut all = stragglers;
    let ghost first = crate::list::views(all@);
    let ghost whole = sessions@;
    assert(attached_names(whole.take(0)) =~= Seq::empty());
    assert(crate::list::views(all@) =~= first + attached_names(whole.take(0)));
    for session in it: sessions
        invariant
            it.seq() == whole,
            crate::list::views(all@) == first + attached_names(whole.take(it.index() as int)),
    {
        let ghost before = crate::list::views(all@);
        all.push(session.filesystem);
        assert(crate::list::views(all@) =~= before.push(session.filesystem@));
        assert(attached_names(whole.take(it.index() + 1)) =~= attached_names(
            whole.take(it.index() as int),
        ).push(session.filesystem@));
    }
    assert(whole.take(whole.len() as int) =~= whole);
    tidy(all)
}

} // verus!
