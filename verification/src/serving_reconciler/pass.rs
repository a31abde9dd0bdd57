//! One run from desired resources to a served generation: the required
//! artifacts are prepared, the generation is built, and it is published only
//! while its revision is still the desired one.
use crate::name::{ActionId, ProviderId, ResourceRevision};
use crate::progress::{HubView, ProgressHub};
use crate::provider_preparer::ProviderPreparerError;
use crate::records::ServingProgressStage;
use crate::serving_reconciler::publish::{
    earlier_attempts, mark_resources_preparing, publish_failure, publish_retry,
    publish_serving_targets, publish_superseded,
};
use crate::serving_reconciler::{
    DesiredResource, DesiredView, MAX_RECONCILE_ATTEMPTS, RECONCILE_RETRY_DELAY,
};
use crate::text::{concat, concat3};
use vstd::prelude::*;

verus! {

/// Where a run stands.
#[derive(Clone, Copy, Debug, PartialEq, Eq, Structural)]
pub enum ServingStage {
    /// The required artifacts are being handed to the preparer.
    Enqueueing,
    /// A required artifact is awaited.
    Waiting { next: usize },
    /// The generation is being built.
    Building,
    /// The publication fence is taken and the desired revision read again.
    Fencing,
    /// Pending revocations are looked for.
    CheckingRevokes,
    /// The generation is being published.
    Publishing,
    /// The next attempt is awaited.
    Pausing,
    Ended,
}

/// What a run asks to be done.
#[derive(Clone, Copy, Debug, PartialEq, Eq, Structural)]
pub enum ServingRequest {
    /// Hand the required artifacts to the preparer; those that failed are
    /// prepared anew where this says so.
    EnqueueProviders { retry_failed: bool },
    /// Wait for an artifact, unless interrupted.
    WaitReady(ProviderId),
    /// Build the generation, unless interrupted.
    Build,
    /// Take the publication fence and read the desired revision.
    LatestRevision,
    /// Look for a pending revocation among the actions.
    CheckRevokes,
    /// Publish the generation, after admission to the one that is served has
    /// been closed where this says so.
    Publish { close_admission: bool },
    /// Wait this many milliseconds, unless interrupted.
    Pause { millis: u64 },
    /// The run is over.
    End(ServingEnd),
    /// The reply answers nothing that was asked.
    Stray,
}

/// How a run ends.
#[derive(Clone, Copy, Debug, PartialEq, Eq, Structural)]
pub enum ServingEnd {
    Published,
    Superseded,
    Shutdown,
    /// The last attempt failed; every action of the run fails with it.
    Failed,
}

/// What cuts a run short.
#[derive(Clone, Copy, Debug, PartialEq, Eq, Structural)]
pub enum ReconcileInterrupt {
    Superseded(ResourceRevision),
    Shutdown,
}

/// What a run hears of while it waits.
#[allow(inconsistent_fields)]
#[derive(Clone, Copy, Debug, PartialEq, Eq, Structural)]
pub enum InterruptEvent {
    /// The desired revision changed to this one; none where its source closed.
    Revision { latest: Option<ResourceRevision> },
    /// The shutdown signal changed; none where its source closed.
    Shutdown { requested: Option<bool> },
}

/// What an event cuts a run of a revision short with, if it does.
pub open spec fn interrupt_of(event: InterruptEvent, revision: ResourceRevision) -> Option<
    ReconcileInterrupt,
> {
    match event {
        InterruptEvent::Revision { latest: None } => Some(ReconcileInterrupt::Shutdown),
        InterruptEvent::Revision { latest: Some(latest) } => if latest != revision {
            Some(ReconcileInterrupt::Superseded(latest))
        } else {
            None
        },
        InterruptEvent::Shutdown { requested: None } => Some(ReconcileInterrupt::Shutdown),
        InterruptEvent::Shutdown { requested: Some(requested) } => if requested {
            Some(ReconcileInterrupt::Shutdown)
        } else {
            None
        },
    }
}

/// Decides whether an event cuts a run of a revision short.
pub fn interrupt_step(event: InterruptEvent, revision: ResourceRevision) -> (interrupt: Option<
    ReconcileInterrupt,
>)
    ensures
        interrupt == interrupt_of(event, revision),
{
    match event {
        InterruptEvent::Revision { latest } => match latest {
            None => Some(ReconcileInterrupt::Shutdown),
            Some(latest) => if latest != revision {
                Some(ReconcileInterrupt::Superseded(latest))
            } else {
                None
            },
        },
        InterruptEvent::Shutdown { requested } => match requested {
            None => Some(ReconcileInterrupt::Shutdown),
            Some(requested) => if requested {
                Some(ReconcileInterrupt::Shutdown)
            } else {
                None
            },
        },
    }
}

/// What a run fails with whose provider could not be prepared. `provider` spells
/// the artifact, and `actual` a digest that was computed.
pub fn required_failure(provider: &str, error: &ProviderPreparerError, actual: &str) -> (text: String)
    ensures
        text@ == "prepare required provider "@ + provider@ + ": "@
            + crate::provider_preparer::error_text(*error, provider@, actual@),
{
    let text = concat3("prepare required provider ", provider, ": ");
    concat(text.as_str(), error.message(provider, actual).as_str())
}

/// What was done.
#[derive(Debug, PartialEq, Eq)]
pub enum ServingReply {
    Enqueued(Result<Vec<ProviderId>, String>),
    Ready(Result<(), String>),
    Built(Result<(), String>),
    Latest(Result<ResourceRevision, String>),
    Revokes(Result<bool, String>),
    Published,
    Paused,
    Interrupted(ReconcileInterrupt),
}

/// [`ServingReply`] by what it stands for.
pub enum ServingReplyView {
    Enqueued(Result<Seq<ProviderId>, Seq<char>>),
    Ready(Result<(), Seq<char>>),
    Built(Result<(), Seq<char>>),
    Latest(Result<ResourceRevision, Seq<char>>),
    Revokes(Result<bool, Seq<char>>),
    Published,
    Paused,
    Interrupted(ReconcileInterrupt),
}

/// A result whose error is text.
pub open spec fn result_of<T>(result: Result<T, String>) -> Result<T, Seq<char>> {
    match result {
        Ok(value) => Ok(value),
        Err(text) => Err(text@),
    }
}

impl View for ServingReply {
    type V = ServingReplyView;

    open spec fn view(&self) -> ServingReplyView {
        match self {
            ServingReply::Enqueued(Ok(required)) => ServingReplyView::Enqueued(Ok(required@)),
            ServingReply::Enqueued(Err(text)) => ServingReplyView::Enqueued(Err(text@)),
            ServingReply::Ready(result) => ServingReplyView::Ready(result_of(*result)),
            ServingReply::Built(result) => ServingReplyView::Built(result_of(*result)),
            ServingReply::Latest(result) => ServingReplyView::Latest(result_of(*result)),
            ServingReply::Revokes(result) => ServingReplyView::Revokes(result_of(*result)),
            ServingReply::Published => ServingReplyView::Published,
            ServingReply::Paused => ServingReplyView::Paused,
            ServingReply::Interrupted(interrupt) => ServingReplyView::Interrupted(*interrupt),
        }
    }
}

/// One run from a desired revision to a served generation.
#[derive(Debug, PartialEq, Eq)]
pub struct ServingPass {
    pub revision: ResourceRevision,
    pub resources: Vec<DesiredResource>,
    pub actions: Vec<ActionId>,
    pub attempt: u32,
    pub required: Vec<ProviderId>,
    pub stage: ServingStage,
    /// Why the last attempt failed.
    pub failure: String,
}

/// [`ServingPass`] by what it stands for.
#[verifier::ext_equal]
pub struct ServingPassView {
    pub revision: ResourceRevision,
    pub resources: Seq<DesiredView>,
    pub actions: Seq<ActionId>,
    pub attempt: u32,
    pub required: Seq<ProviderId>,
    pub stage: ServingStage,
    pub failure: Seq<char>,
}

impl View for ServingPass {
    type V = ServingPassView;

    open spec fn view(&self) -> ServingPassView {
        ServingPassView {
            revision: self.revision,
            resources: crate::list::views(self.resources@),
            actions: self.actions@,
            attempt: self.attempt,
            required: self.required@,
            stage: self.stage,
            failure: self.failure@,
        }
    }
}

/// A run, the hub and the next request.
pub struct ServingStep {
    pub pass: ServingPassView,
    pub hub: HubView,
    pub request: ServingRequest,
}

/// A length as a count.
pub open spec fn count_of(len: nat) -> u32 {
    if len <= u32::MAX {
        len as u32
    } else {
        u32::MAX
    }
}

fn count(len: usize) -> (value: u32)
    ensures
        value == count_of(len as nat),
{
    if len <= u32::MAX as usize {
        len as u32
    } else {
        u32::MAX
    }
}

impl ServingPassView {
    /// The next artifact that is waited for is one of those required, and no
    /// more attempts are made than are allowed.
    pub open spec fn wf(self) -> bool {
        &&& 1 <= self.attempt <= MAX_RECONCILE_ATTEMPTS
        &&& match self.stage {
            ServingStage::Waiting { next } => next < self.required.len(),
            ServingStage::Pausing => self.attempt < MAX_RECONCILE_ATTEMPTS,
            _ => true,
        }
    }

    /// The hub after a stage of this run.
    pub open spec fn shows(
        self,
        hub: HubView,
        stage: ServingProgressStage,
        completed: u32,
        total: u32,
        now: u128,
    ) -> HubView {
        crate::serving_reconciler::publish::staged(
            hub,
            self.revision,
            self.actions,
            stage,
            completed,
            total,
            crate::serving_reconciler::publish::earlier(self.attempt),
            None,
            now,
        )
    }

    /// An attempt begins: the resources count as being prepared.
    pub open spec fn attempted(self, hub: HubView, now: u128) -> ServingStep {
        ServingStep {
            pass: ServingPassView { stage: ServingStage::Enqueueing, ..self },
            hub: self.shows(
                crate::serving_reconciler::publish::marked_preparing(hub, self.revision),
                ServingProgressStage::Queued,
                0,
                1,
                now,
            ),
            request: ServingRequest::EnqueueProviders { retry_failed: self.attempt > 1 },
        }
    }

    /// The next required artifact is awaited; once all are ready the
    /// generation is built.
    pub open spec fn awaiting(self, hub: HubView, next: int, now: u128) -> ServingStep {
        if next < self.required.len() {
            ServingStep {
                pass: ServingPassView {
                    stage: ServingStage::Waiting { next: next as usize },
                    ..self
                },
                hub,
                request: ServingRequest::WaitReady(self.required[next]),
            }
        } else {
            let all = count_of(self.required.len());
            ServingStep {
                pass: ServingPassView { stage: ServingStage::Building, ..self },
                hub: self.shows(
                    self.shows(hub, ServingProgressStage::ProvidersReady, all, all, now),
                    ServingProgressStage::Building,
                    0,
                    1,
                    now,
                ),
                request: ServingRequest::Build,
            }
        }
    }

    /// The run is over.
    pub open spec fn ended(self, hub: HubView, end: ServingEnd) -> ServingStep {
        ServingStep {
            pass: ServingPassView { stage: ServingStage::Ended, ..self },
            hub,
            request: ServingRequest::End(end),
        }
    }

    /// An attempt failed: another follows after a pause, unless it was the
    /// last.
    pub open spec fn failing(
        self,
        hub: HubView,
        provider: Option<ProviderId>,
        error: Seq<char>,
        now: u128,
    ) -> ServingStep {
        let known = ServingPassView { failure: error, ..self };
        if self.attempt < MAX_RECONCILE_ATTEMPTS {
            ServingStep {
                pass: ServingPassView { stage: ServingStage::Pausing, ..known },
                hub: crate::serving_reconciler::publish::retrying(
                    hub,
                    self.revision,
                    self.actions,
                    self.attempt,
                    error,
                    now,
                ),
                request: ServingRequest::Pause { millis: RECONCILE_RETRY_DELAY },
            }
        } else {
            known.ended(
                crate::serving_reconciler::publish::failed(
                    hub,
                    self.revision,
                    self.resources,
                    self.actions,
                    provider,
                    error,
                    now,
                ),
                ServingEnd::Failed,
            )
        }
    }

    /// The run was cut short.
    pub open spec fn interrupted(
        self,
        hub: HubView,
        interrupt: ReconcileInterrupt,
        now: u128,
    ) -> ServingStep {
        match interrupt {
            ReconcileInterrupt::Superseded(latest) => self.ended(
                crate::serving_reconciler::publish::superseded(
                    hub,
                    self.revision,
                    self.actions,
                    latest,
                    self.attempt,
                    now,
                ),
                ServingEnd::Superseded,
            ),
            ReconcileInterrupt::Shutdown => self.ended(hub, ServingEnd::Shutdown),
        }
    }

    /// The run after a reply.
    pub open spec fn resumed(self, hub: HubView, reply: ServingReplyView, now: u128) -> ServingStep {
        match (self.stage, reply) {
            (ServingStage::Enqueueing, ServingReplyView::Enqueued(result)) => match result {
                Ok(required) => {
                    let known = ServingPassView { required, ..self };
                    known.awaiting(
                        known.shows(
                            hub,
                            ServingProgressStage::WaitingProviders,
                            0,
                            count_of(required.len()),
                            now,
                        ),
                        0,
                        now,
                    )
                },
                Err(error) => self.failing(hub, None, error, now),
            },
            (ServingStage::Waiting { next }, ServingReplyView::Ready(result)) => match result {
                Ok(_) => self.awaiting(hub, next + 1, now),
                Err(error) => self.failing(hub, Some(self.required[next as int]), error, now),
            },
            (
                ServingStage::Waiting { .. },
                ServingReplyView::Interrupted(interrupt),
            ) => self.interrupted(hub, interrupt, now),
            (ServingStage::Building, ServingReplyView::Built(result)) => match result {
                Ok(_) => ServingStep {
                    pass: ServingPassView { stage: ServingStage::Fencing, ..self },
                    hub: self.shows(hub, ServingProgressStage::Built, 1, 1, now),
                    request: ServingRequest::LatestRevision,
                },
                Err(error) => self.failing(hub, None, error, now),
            },
            (
                ServingStage::Building,
                ServingReplyView::Interrupted(interrupt),
            ) => self.interrupted(hub, interrupt, now),
            (ServingStage::Fencing, ServingReplyView::Latest(result)) => match result {
                Ok(latest) => if latest != self.revision {
                    self.interrupted(hub, ReconcileInterrupt::Superseded(latest), now)
                } else {
                    ServingStep {
                        pass: ServingPassView { stage: ServingStage::CheckingRevokes, ..self },
                        hub: self.shows(hub, ServingProgressStage::Publishing, 0, 1, now),
                        request: ServingRequest::CheckRevokes,
                    }
                },
                Err(error) => self.failing(hub, None, error, now),
            },
            (ServingStage::CheckingRevokes, ServingReplyView::Revokes(result)) => match result {
                Ok(pending) => ServingStep {
                    pass: ServingPassView { stage: ServingStage::Publishing, ..self },
                    hub,
                    request: ServingRequest::Publish { close_admission: pending },
                },
                Err(error) => self.failing(hub, None, error, now),
            },
            (ServingStage::Publishing, ServingReplyView::Published) => self.ended(
                hub,
                ServingEnd::Published,
            ),
            (ServingStage::Pausing, ServingReplyView::Paused) => ServingPassView {
                attempt: (self.attempt + 1) as u32,
                ..self
            }.attempted(hub, now),
            (
                ServingStage::Pausing,
                ServingReplyView::Interrupted(interrupt),
            ) => self.interrupted(hub, interrupt, now),
            _ => ServingStep { pass: self, hub, request: ServingRequest::Stray },
        }
    }
}

/// The desired resources could not be read.
pub fn desired_unavailable(hub: &mut ProgressHub, detail: &str, now: u128)
    requires
        old(hub).sequence + 3 <= u64::MAX,
    ensures
        final(hub)@ == crate::serving_reconciler::publish::failed(
            old(hub)@,
            old(hub)@.snapshot.desired_revision,
            Seq::empty(),
            Seq::empty(),
            None,
            detail@,
            now,
        ),
{
    let resources: Vec<DesiredResource> = Vec::new();
    let actions: Vec<ActionId> = Vec::new();
    assert(crate::list::views(resources@) =~= Seq::<DesiredView>::empty());
    publish_failure(
        hub,
        hub.snapshot.desired_revision,
        &resources,
        &actions,
        None,
        detail,
        now,
    );
}

/// The pending actions could not be started.
pub fn actions_unavailable(
    hub: &mut ProgressHub,
    revision: ResourceRevision,
    resources: &Vec<DesiredResource>,
    detail: &str,
    now: u128,
)
    requires
        old(hub).sequence + 3 <= u64::MAX,
    ensures
        final(hub)@ == crate::serving_reconciler::publish::failed(
            old(hub)@,
            revision,
            crate::list::views(resources@),
            Seq::empty(),
            None,
            detail@,
            now,
        ),
{
    let actions: Vec<ActionId> = Vec::new();
    publish_failure(hub, revision, resources, &actions, None, detail, now);
}

impl ServingPass {
    /// See [`ServingPassView::wf`].
    pub open spec fn wf(&self) -> bool {
        self@.wf()
    }

    /// Begins the first attempt.
    pub fn begin(
        hub: &mut ProgressHub,
        revision: ResourceRevision,
        resources: Vec<DesiredResource>,
        actions: Vec<ActionId>,
        now: u128,
    ) -> (begun: (Self, ServingRequest))
        requires
            old(hub).sequence + 4 + 2 * actions@.len() <= u64::MAX,
        ensures
            begun.0.wf(),
            ({
                let step = ServingPassView {
                    revision,
                    resources: crate::list::views(resources@),
                    actions: actions@,
                    attempt: 1,
                    required: Seq::empty(),
                    stage: ServingStage::Enqueueing,
                    failure: Seq::empty(),
                }.attempted(old(hub)@, now);
                begun.0@ == step.pass && final(hub)@ == step.hub && begun.1 == step.request
            }),
    {
        let mut pass = ServingPass {
            revision,
            resources,
            actions,
            attempt: 1,
            required: Vec::new(),
            stage: ServingStage::Enqueueing,
            failure: String::new(),
        };
        proof {
            assert(pass.failure@ =~= Seq::<char>::empty());
            assert(pass.required@ =~= Seq::<ProviderId>::empty());
        }
        let request = pass.start_attempt(hub, now);
        (pass, request)
    }

    fn start_attempt(&mut self, hub: &mut ProgressHub, now: u128) -> (request: ServingRequest)
        requires
            old(hub).sequence + 4 + 2 * old(self).actions@.len() <= u64::MAX,
        ensures
            final(self)@ == old(self)@.attempted(old(hub)@, now).pass,
            final(hub)@ == old(self)@.attempted(old(hub)@, now).hub,
            request == old(self)@.attempted(old(hub)@, now).request,
    {
        mark_resources_preparing(hub, self.revision);
        publish_serving_targets(
            hub,
            self.revision,
            &self.actions,
            ServingProgressStage::Queued,
            0,
            1,
            earlier_attempts(self.attempt),
            None,
            now,
        );
        self.stage = ServingStage::Enqueueing;
        ServingRequest::EnqueueProviders { retry_failed: self.attempt > 1 }
    }

    fn show(
        &self,
        hub: &mut ProgressHub,
        stage: ServingProgressStage,
        completed: u32,
        total: u32,
        now: u128,
    )
        requires
            old(hub).sequence + 1 + self.actions@.len() <= u64::MAX,
        ensures
            final(hub)@ == self@.shows(old(hub)@, stage, completed, total, now),
            final(hub).sequence == old(hub).sequence + 1 + self.actions@.len(),
    {
        publish_serving_targets(
            hub,
            self.revision,
            &self.actions,
            stage,
            completed,
            total,
            earlier_attempts(self.attempt),
            None,
            now,
        );
    }

    fn wait_for(&mut self, hub: &mut ProgressHub, next: usize, now: u128) -> (request:
        ServingRequest)
        requires
            old(hub).sequence + 2 + 2 * old(self).actions@.len() <= u64::MAX,
            next <= old(self).required@.len(),
        ensures
            final(self)@ == old(self)@.awaiting(old(hub)@, next as int, now).pass,
            final(hub)@ == old(self)@.awaiting(old(hub)@, next as int, now).hub,
            request == old(self)@.awaiting(old(hub)@, next as int, now).request,
    {
        if next < self.required.len() {
            self.stage = ServingStage::Waiting { next };
            return ServingRequest::WaitReady(self.required[next]);
        }
        let all: u32 = count(self.required.len());
        self.show(hub, ServingProgressStage::ProvidersReady, all, all, now);
        self.show(hub, ServingProgressStage::Building, 0, 1, now);
        self.stage = ServingStage::Building;
        ServingRequest::Build
    }

    fn fail(
        &mut self,
        hub: &mut ProgressHub,
        provider: Option<ProviderId>,
        error: String,
        now: u128,
    ) -> (request: ServingRequest)
        requires
            old(hub).sequence + 3 + old(self).actions@.len() <= u64::MAX,
        ensures
            final(self)@ == old(self)@.failing(old(hub)@, provider, error@, now).pass,
            final(hub)@ == old(self)@.failing(old(hub)@, provider, error@, now).hub,
            request == old(self)@.failing(old(hub)@, provider, error@, now).request,
    {
        if self.attempt < MAX_RECONCILE_ATTEMPTS {
            publish_retry(
                hub,
                self.revision,
                &self.actions,
                self.attempt,
                error.as_str(),
                now,
            );
            self.failure = error;
            self.stage = ServingStage::Pausing;
            return ServingRequest::Pause { millis: RECONCILE_RETRY_DELAY };
        }
        publish_failure(
            hub,
            self.revision,
            &self.resources,
            &self.actions,
            provider,
            error.as_str(),
            now,
        );
        self.failure = error;
        self.stage = ServingStage::Ended;
        ServingRequest::End(ServingEnd::Failed)
    }

    fn interrupt(&mut self, hub: &mut ProgressHub, interrupt: ReconcileInterrupt, now: u128) -> (request:
        ServingRequest)
        requires
            old(hub).sequence + 2 + old(self).actions@.len() <= u64::MAX,
        ensures
            final(self)@ == old(self)@.interrupted(old(hub)@, interrupt, now).pass,
            final(hub)@ == old(self)@.interrupted(old(hub)@, interrupt, now).hub,
            request == old(self)@.interrupted(old(hub)@, interrupt, now).request,
    {
        self.stage = ServingStage::Ended;
        match interrupt {
            ReconcileInterrupt::Superseded(latest) => {
                publish_superseded(
                    hub,
                    self.revision,
                    &self.actions,
                    latest,
                    self.attempt,
                    now,
                );
                ServingRequest::End(ServingEnd::Superseded)
            },
            ReconcileInterrupt::Shutdown => ServingRequest::End(ServingEnd::Shutdown),
        }
    }

    /// What every action of a run fails with that failed: a code and its detail.
    pub fn action_failure(&self) -> (failure: (String, String))
        ensures
            failure.0@ == "serving_reconcile_failed"@,
            failure.1@ == self@.failure,
    {
        ("serving_reconcile_failed".to_owned(), self.failure.clone())
    }

    /// Takes a reply and says what to do next.
    pub fn resume(&mut self, hub: &mut ProgressHub, reply: ServingReply, now: u128) -> (request:
        ServingRequest)
        requires
            old(self).wf(),
            old(hub).sequence + 4 + 3 * old(self).actions@.len() <= u64::MAX,
        ensures
            final(self).wf(),
            final(self)@ == old(self)@.resumed(old(hub)@, reply@, now).pass,
            final(hub)@ == old(self)@.resumed(old(hub)@, reply@, now).hub,
            request == old(self)@.resumed(old(hub)@, reply@, now).request,
    {
        match (self.stage, reply) {
            (ServingStage::Enqueueing, ServingReply::Enqueued(Ok(required))) => {
                let all: u32 = count(required.len());
                self.required = required;
                self.show(hub, ServingProgressStage::WaitingProviders, 0, all, now);
                self.wait_for(hub, 0, now)
            },
            (ServingStage::Enqueueing, ServingReply::Enqueued(Err(error))) => self.fail(
                hub,
                None,
                error,
                now,
            ),
            (ServingStage::Waiting { next }, ServingReply::Ready(Ok(_))) => {
                assert(next < self.required.len());
                self.wait_for(hub, next + 1, now)
            },
            (ServingStage::Waiting { next }, ServingReply::Ready(Err(error))) => {
                let provider = self.required[next];
                self.fail(hub, Some(provider), error, now)
            },
            (ServingStage::Building, ServingReply::Built(Ok(_))) => {
                self.show(hub, ServingProgressStage::Built, 1, 1, now);
                self.stage = ServingStage::Fencing;
                ServingRequest::LatestRevision
            },
            (ServingStage::Building, ServingReply::Built(Err(error))) => self.fail(
                hub,
                None,
                error,
                now,
            ),
            (ServingStage::Fencing, ServingReply::Latest(Ok(latest))) => {
                if latest != self.revision {
                    return self.interrupt(hub, ReconcileInterrupt::Superseded(latest), now);
                }
                self.show(hub, ServingProgressStage::Publishing, 0, 1, now);
                self.stage = ServingStage::CheckingRevokes;
                ServingRequest::CheckRevokes
            },
            (ServingStage::Fencing, ServingReply::Latest(Err(error))) => self.fail(
                hub,
                None,
                error,
                now,
            ),
            (ServingStage::CheckingRevokes, ServingReply::Revokes(Ok(pending))) => {
                self.stage = ServingStage::Publishing;
                ServingRequest::Publish { close_admission: pending }
            },
            (ServingStage::CheckingRevokes, ServingReply::Revokes(Err(error))) => self.fail(
                hub,
                None,
                error,
                now,
            ),
            (ServingStage::Publishing, ServingReply::Published) => {
                self.stage = ServingStage::Ended;
                ServingRequest::End(ServingEnd::Published)
            },
            (ServingStage::Pausing, ServingReply::Paused) => {
                self.attempt = self.attempt + 1;
                self.start_attempt(hub, now)
            },
            (ServingStage::Waiting { .. }, ServingReply::Interrupted(interrupt))
            | (ServingStage::Building, ServingReply::Interrupted(interrupt))
            | (ServingStage::Pausing, ServingReply::Interrupted(interrupt)) => self.interrupt(
                hub,
                interrupt,
                now,
            ),
            _ => ServingRequest::Stray,
        }
    }
}

} // verus!
