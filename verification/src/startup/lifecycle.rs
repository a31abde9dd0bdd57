//! The whole run of the daemon process, from its first step to its last.
//!
//! Control is bound before anything that can take long, and stays bound until
//! everything else is stopped. Whatever fails, what was started is stopped again
//! in the same order.
use crate::first_error;
use crate::text::concat;
use vstd::prelude::*;

verus! {

/// What the process does next.
#[derive(Clone, Copy, Debug, PartialEq, Eq, Structural)]
pub enum LifeStep {
    ResolveContext,
    LoadEmbedded,
    PrepareDirs,
    BindControl,
    PublishIdentity,
    /// The socket is removed that was bound for nothing.
    RemoveSocket,
    /// Control and the signals are served from here on.
    StartControl,
    PrepareEngine,
    /// The preparer is started and given the embedded providers.
    EnqueueEmbedded,
    /// Open, build and serve until the stop, with every recovery in between.
    Serve,
    ShowShuttingDown,
    SendShutdown,
    StopSignals,
    JoinControl,
    StopDaemon,
    StopPreparer,
    UnpublishIdentity,
    Exit,
}

/// What came of a step.
#[allow(inconsistent_fields)]
#[derive(Debug)]
pub enum LifeReply {
    /// It is done, or failed with a text.
    Done { error: Option<String> },
    /// The daemon no longer serves. It may have left a runtime behind.
    Served { error: Option<String>, left_runtime: bool },
    /// The task that served control was lost.
    Lost { error: String },
}

/// How far the process has come.
#[derive(Debug)]
pub struct Lifecycle {
    pub step: LifeStep,
    /// The process failed before it could serve; what else goes wrong while it
    /// is stopped is passed over.
    pub aborted: bool,
    pub preparer: bool,
    pub runtime: bool,
    /// What came of the steps whose failure the process ends with, in order.
    pub results: Vec<Result<(), String>>,
}

/// [`Lifecycle`] by what it spells.
pub struct LifeView {
    pub step: LifeStep,
    pub aborted: bool,
    pub preparer: bool,
    pub runtime: bool,
    pub results: Seq<Result<(), Seq<char>>>,
}

/// A result by what its failure spells.
pub open spec fn result_of(result: Result<(), String>) -> Result<(), Seq<char>> {
    match result {
        Ok(_) => Ok(()),
        Err(error) => Err(error@),
    }
}

/// Results by what their failures spell.
pub open spec fn results_of(results: Seq<Result<(), String>>) -> Seq<Result<(), Seq<char>>> {
    results.map_values(|result: Result<(), String>| result_of(result))
}

impl View for Lifecycle {
    type V = LifeView;

    open spec fn view(&self) -> LifeView {
        LifeView {
            step: self.step,
            aborted: self.aborted,
            preparer: self.preparer,
            runtime: self.runtime,
            results: results_of(self.results@),
        }
    }
}

/// Where a step leads that succeeded.
pub open spec fn follows(step: LifeStep, preparer: bool, runtime: bool) -> LifeStep {
    match step {
        LifeStep::ResolveContext => LifeStep::LoadEmbedded,
        LifeStep::LoadEmbedded => LifeStep::PrepareDirs,
        LifeStep::PrepareDirs => LifeStep::BindControl,
        LifeStep::BindControl => LifeStep::PublishIdentity,
        LifeStep::PublishIdentity => LifeStep::StartControl,
        LifeStep::RemoveSocket => LifeStep::Exit,
        LifeStep::StartControl => LifeStep::PrepareEngine,
        LifeStep::PrepareEngine => LifeStep::EnqueueEmbedded,
        LifeStep::EnqueueEmbedded => LifeStep::Serve,
        LifeStep::Serve => LifeStep::ShowShuttingDown,
        LifeStep::ShowShuttingDown => LifeStep::SendShutdown,
        LifeStep::SendShutdown => LifeStep::StopSignals,
        LifeStep::StopSignals => LifeStep::JoinControl,
        LifeStep::JoinControl => if runtime {
            LifeStep::StopDaemon
        } else if preparer {
            LifeStep::StopPreparer
        } else {
            LifeStep::UnpublishIdentity
        },
        LifeStep::StopDaemon => if preparer {
            LifeStep::StopPreparer
        } else {
            LifeStep::UnpublishIdentity
        },
        LifeStep::StopPreparer => LifeStep::UnpublishIdentity,
        LifeStep::UnpublishIdentity => LifeStep::Exit,
        LifeStep::Exit => LifeStep::Exit,
    }
}

/// Where a step leads that failed before the daemon could serve.
pub open spec fn aborts_to(step: LifeStep) -> Option<LifeStep> {
    match step {
        LifeStep::ResolveContext
        | LifeStep::LoadEmbedded
        | LifeStep::PrepareDirs
        | LifeStep::BindControl => Some(LifeStep::Exit),
        LifeStep::PublishIdentity => Some(LifeStep::RemoveSocket),
        LifeStep::PrepareEngine | LifeStep::EnqueueEmbedded => Some(LifeStep::ShowShuttingDown),
        _ => None,
    }
}

/// Whether a failure of a step counts once the daemon has served.
pub open spec fn counts(step: LifeStep) -> bool {
    step == LifeStep::JoinControl || step == LifeStep::StopDaemon || step == LifeStep::StopPreparer
}

/// What came of a step, by what the process reports of it.
pub open spec fn reported(step: LifeStep, error: Option<String>) -> Result<(), Seq<char>> {
    match error {
        Some(error) => Err(
            if step == LifeStep::JoinControl {
                "serve control socket: "@ + error@
            } else {
                error@
            },
        ),
        None => Ok(()),
    }
}

impl LifeView {
    /// Where a reply leads; none where it does not answer the step.
    pub open spec fn resumed(self, reply: LifeReply) -> Option<LifeView> {
        let next = follows(self.step, self.preparer, self.runtime);
        match reply {
            LifeReply::Done { error } => if self.step == LifeStep::Serve || self.step
                == LifeStep::Exit {
                None
            } else if error is Some && aborts_to(self.step) is Some {
                Some(
                    LifeView {
                        step: aborts_to(self.step)->Some_0,
                        aborted: true,
                        results: seq![reported(self.step, error)],
                        preparer: self.step == LifeStep::EnqueueEmbedded,
                        ..self
                    },
                )
            } else {
                Some(
                    LifeView {
                        step: next,
                        preparer: self.preparer || self.step == LifeStep::EnqueueEmbedded,
                        results: if counts(self.step) && !self.aborted {
                            self.results.push(reported(self.step, error))
                        } else {
                            self.results
                        },
                        ..self
                    },
                )
            },
            LifeReply::Served { error, left_runtime } => if self.step == LifeStep::Serve {
                Some(
                    LifeView {
                        step: next,
                        runtime: left_runtime,
                        results: self.results.push(reported(self.step, error)),
                        ..self
                    },
                )
            } else {
                None
            },
            LifeReply::Lost { error } => if self.step == LifeStep::JoinControl {
                if self.aborted {
                    Some(LifeView { step: next, ..self })
                } else {
                    Some(
                        LifeView {
                            step: LifeStep::Exit,
                            results: seq![Err("join control server: "@ + error@)],
                            ..self
                        },
                    )
                }
            } else {
                None
            },
        }
    }
}

impl Lifecycle {
    /// A process that was just started.
    pub fn begin() -> (life: Self)
        ensures
            life@ == (LifeView {
                step: LifeStep::ResolveContext,
                aborted: false,
                preparer: false,
                runtime: false,
                results: Seq::empty(),
            }),
    {
        let results: Vec<Result<(), String>> = Vec::new();
        assert(results_of(results@) =~= Seq::empty());
        Lifecycle {
            step: LifeStep::ResolveContext,
            aborted: false,
            preparer: false,
            runtime: false,
            results,
        }
    }

    /// Keeps what came of a step.
    fn keep(&mut self, result: Result<(), String>)
        ensures
            final(self)@ == (LifeView {
                results: old(self)@.results.push(result_of(result)),
                ..old(self)@
            }),
    {
        let ghost before = self@.results;
        self.results.push(result);
        assert(self@.results =~= before.push(result_of(result)));
    }

    /// Keeps nothing but a failure.
    fn keep_only(&mut self, error: String)
        ensures
            final(self)@ == (LifeView { results: seq![Err(error@)], ..old(self)@ }),
    {
        let mut results: Vec<Result<(), String>> = Vec::new();
        results.push(Err(error));
        assert(results_of(results@) =~= seq![Err(error@)]);
        self.results = results;
    }

    /// What the process ends with: the first failure, if there is one, and the
    /// failures after it, to be logged.
    pub fn end(self) -> (end: (Result<(), String>, Vec<String>))
        ensures
            match end.0 {
                Ok(_) => crate::failures(self@.results).len() == 0 && end.1@.len() == 0,
                Err(error) => crate::failures(self@.results) == seq![error@]
                    + end.1@.map_values(|later: String| later@),
            },
    {
        proof {
            failures_are_spelled(self.results@);
        }
        let ghost all = crate::failures(self.results@);
        let end = first_error(self.results);
        proof {
            if end.0 is Err {
                assert(all.map_values(|error: String| error@) =~= seq![end.0->Err_0@]
                    + end.1@.map_values(|later: String| later@));
            }
        }
        end
    }

    fn step_after(&self) -> (next: LifeStep)
        ensures
            next == follows(self.step, self.preparer, self.runtime),
    {
        match self.step {
            LifeStep::ResolveContext => LifeStep::LoadEmbedded,
            LifeStep::LoadEmbedded => LifeStep::PrepareDirs,
            LifeStep::PrepareDirs => LifeStep::BindControl,
            LifeStep::BindControl => LifeStep::PublishIdentity,
            LifeStep::PublishIdentity => LifeStep::StartControl,
            LifeStep::RemoveSocket => LifeStep::Exit,
            LifeStep::StartControl => LifeStep::PrepareEngine,
            LifeStep::PrepareEngine => LifeStep::EnqueueEmbedded,
            LifeStep::EnqueueEmbedded => LifeStep::Serve,
            LifeStep::Serve => LifeStep::ShowShuttingDown,
            LifeStep::ShowShuttingDown => LifeStep::SendShutdown,
            LifeStep::SendShutdown => LifeStep::StopSignals,
            LifeStep::StopSignals => LifeStep::JoinControl,
            LifeStep::JoinControl => if self.runtime {
                LifeStep::StopDaemon
            } else if self.preparer {
                LifeStep::StopPreparer
            } else {
                LifeStep::UnpublishIdentity
            },
            LifeStep::StopDaemon => if self.preparer {
                LifeStep::StopPreparer
            } else {
                LifeStep::UnpublishIdentity
            },
            LifeStep::StopPreparer => LifeStep::UnpublishIdentity,
            LifeStep::UnpublishIdentity => LifeStep::Exit,
            LifeStep::Exit => LifeStep::Exit,
        }
    }

    fn abort_step(&self) -> (next: Option<LifeStep>)
        ensures
            next == aborts_to(self.step),
    {
        match self.step {
            LifeStep::ResolveContext
            | LifeStep::LoadEmbedded
            | LifeStep::PrepareDirs
            | LifeStep::BindControl => Some(LifeStep::Exit),
            LifeStep::PublishIdentity => Some(LifeStep::RemoveSocket),
            LifeStep::PrepareEngine | LifeStep::EnqueueEmbedded => {
                Some(LifeStep::ShowShuttingDown)
            },
            _ => None,
        }
    }

    /// Goes on after a step, and says whether the reply answered it.
    pub fn resume(&mut self, reply: LifeReply) -> (answered: bool)
        ensures
            answered == (old(self)@.resumed(reply) is Some),
            final(self)@ == (match old(self)@.resumed(reply) {
                Some(life) => life,
                None => old(self)@,
            }),
    {
        let next = self.step_after();
        match reply {
            LifeReply::Done { error } => {
                if self.step == LifeStep::Serve || self.step == LifeStep::Exit {
                    return false;
                }
                if let Some(aborted) = self.abort_step() {
                    if let Some(error) = error {
                        self.preparer = self.step == LifeStep::EnqueueEmbedded;
                        self.step = aborted;
                        self.aborted = true;
                        self.keep_only(error);
                        return true;
                    }
                } else if (self.step == LifeStep::JoinControl || self.step == LifeStep::StopDaemon
                    || self.step == LifeStep::StopPreparer) && !self.aborted {
                    let result = match error {
                        Some(error) => Err(
                            if self.step == LifeStep::JoinControl {
                                concat("serve control socket: ", error.as_str())
                            } else {
                                error
                            },
                        ),
                        None => Ok(()),
                    };
                    self.keep(result);
                }
                if self.step == LifeStep::EnqueueEmbedded {
                    self.preparer = true;
                }
                self.step = next;
                true
            },
            LifeReply::Served { error, left_runtime } => {
                if self.step != LifeStep::Serve {
                    return false;
                }
                self.runtime = left_runtime;
                let result = match error {
                    Some(error) => Err(error),
                    None => Ok(()),
                };
                self.keep(result);
                self.step = next;
                true
            },
            LifeReply::Lost { error } => {
                if self.step != LifeStep::JoinControl {
                    return false;
                }
                if self.aborted {
                    self.step = next;
                } else {
                    self.step = LifeStep::Exit;
                    self.keep_only(concat("join control server: ", error.as_str()));
                }
                true
            },
        }
    }
}

/// How many steps are left at most.
pub open spec fn steps_left(step: LifeStep) -> nat {
    match step {
        LifeStep::ResolveContext => 17,
        LifeStep::LoadEmbedded => 16,
        LifeStep::PrepareDirs => 15,
        LifeStep::BindControl => 14,
        LifeStep::PublishIdentity => 13,
        LifeStep::RemoveSocket => 1,
        LifeStep::StartControl => 12,
        LifeStep::PrepareEngine => 11,
        LifeStep::EnqueueEmbedded => 10,
        LifeStep::Serve => 9,
        LifeStep::ShowShuttingDown => 8,
        LifeStep::SendShutdown => 7,
        LifeStep::StopSignals => 6,
        LifeStep::JoinControl => 5,
        LifeStep::StopDaemon => 4,
        LifeStep::StopPreparer => 3,
        LifeStep::UnpublishIdentity => 2,
        LifeStep::Exit => 0,
    }
}

/// Every answer brings the process closer to its end.
pub proof fn every_answer_brings_the_end_closer(life: LifeView, reply: LifeReply)
    requires
        life.resumed(reply) is Some,
    ensures
        steps_left(life.resumed(reply)->Some_0.step) < steps_left(life.step),
{
}

/// Whether this process has published its identity and not yet removed it.
pub open spec fn is_published(step: LifeStep) -> bool {
    match step {
        LifeStep::StartControl
        | LifeStep::PrepareEngine
        | LifeStep::EnqueueEmbedded
        | LifeStep::Serve
        | LifeStep::ShowShuttingDown
        | LifeStep::SendShutdown
        | LifeStep::StopSignals
        | LifeStep::JoinControl
        | LifeStep::StopDaemon
        | LifeStep::StopPreparer
        | LifeStep::UnpublishIdentity => true,
        _ => false,
    }
}

/// An identity that was published is removed by the step that is for it. The
/// one exception is a process that lost the task that served control.
pub proof fn a_published_identity_is_removed(life: LifeView, reply: LifeReply)
    requires
        is_published(life.step),
        life.resumed(reply) matches Some(next) && !is_published(next.step),
    ensures
        life.step == LifeStep::UnpublishIdentity || (life.step == LifeStep::JoinControl
            && reply is Lost && !life.aborted),
{
}

/// Control is told to stop before it is waited for.
pub proof fn control_is_told_before_it_is_joined(life: LifeView, reply: LifeReply)
    requires
        life.resumed(reply) matches Some(next) && next.step == LifeStep::JoinControl,
    ensures
        life.step == LifeStep::StopSignals,
        forall|earlier: LifeView, told: LifeReply|
            (#[trigger] earlier.resumed(told) matches Some(next) && next.step
                == LifeStep::StopSignals) ==> earlier.step == LifeStep::SendShutdown,
{
}

/// Failures are told apart before or after they are spelled.
proof fn failures_are_spelled(results: Seq<Result<(), String>>)
    ensures
        crate::failures(results_of(results)) == crate::failures(results).map_values(
            |error: String| error@,
        ),
    decreases results.len(),
{
    if results.len() == 0 {
        assert(crate::failures(results).map_values(|error: String| error@) =~= Seq::empty());
    } else {
        failures_are_spelled(results.drop_last());
        assert(results_of(results).drop_last() =~= results_of(results.drop_last()));
        assert(results_of(results).last() == result_of(results.last()));
        assert(crate::failures(results_of(results)) =~= crate::failures(results).map_values(
            |error: String| error@,
        ));
    }
}

/// The first failure is what the process ends with, and none after it is lost:
/// each failure of a step that counts is kept behind those before it. The two
/// exceptions are a task that served control and was lost, and what goes wrong
/// while a process is stopped that could not serve.
pub proof fn the_first_failure_is_kept(life: LifeView, reply: LifeReply)
    requires
        reply is Lost ==> life.aborted,
        aborts_to(life.step) is None,
        life.resumed(reply) is Some,
    ensures
        ({
            let kept = crate::failures(life.results);
            let after = crate::failures(life.resumed(reply)->Some_0.results);
            &&& kept.len() <= after.len()
            &&& after.take(kept.len() as int) == kept
            &&& counts(life.step) && !life.aborted ==> (reply matches LifeReply::Done {
                error: Some(error),
            } ==> after == kept.push(reported(life.step, Some(error))->Err_0))
            &&& (reply matches LifeReply::Served { error: Some(error), .. } ==> after == kept.push(
                error@,
            ))
        }),
{
    let kept = crate::failures(life.results);
    let next = life.resumed(reply)->Some_0;
    let after = crate::failures(next.results);
    if next.results.len() > life.results.len() {
        assert(next.results.drop_last() =~= life.results);
    }
    assert(after.take(kept.len() as int) =~= kept);
}

/// A preparer that was started is stopped before the process ends, and a socket
/// that was bound for nothing is removed.
pub proof fn what_was_started_is_stopped(life: LifeView, reply: LifeReply)
    requires
        life.resumed(reply) is Some,
    ensures
        life.step == LifeStep::JoinControl && reply is Done && life.preparer ==> {
            let next = life.resumed(reply)->Some_0.step;
            next == LifeStep::StopDaemon || next == LifeStep::StopPreparer
        },
        life.step == LifeStep::StopDaemon && life.preparer ==> life.resumed(reply)->Some_0.step
            == LifeStep::StopPreparer,
        life.step == LifeStep::EnqueueEmbedded ==> life.resumed(reply)->Some_0.preparer,
        life.step == LifeStep::PublishIdentity && life.resumed(reply)->Some_0.aborted
            && !life.aborted ==> life.resumed(reply)->Some_0.step == LifeStep::RemoveSocket,
{
}

} // verus!
