//! What follows the publication of a generation: actions complete, errors are
//! reported, and the generation it replaced drains.
use crate::name::{ActionId, ResourceRevision};
use crate::progress::{HubView, KindView, ProgressEventKind, ProgressHub, ProgressTarget};
use crate::records::{ActionKind, ActionPhase, ActionReceipt, ReceiptView, ServingProgressStage};
use crate::serving_reconciler::{pending_credential_action_stage, RECONCILE_RETRY_DELAY};
use crate::serving_reconciler::publish::{
    earlier_attempts, publish_background_serving, publish_completed_action,
    publish_serving_targets, record_credential_progress,
};
use crate::text::{concat, concat3, decimal, join};
use vstd::prelude::*;

verus! {

/// How the drain of a replaced generation went.
#[derive(Clone, Copy, Debug, PartialEq, Eq, Structural)]
pub enum DrainOutcome {
    /// Nothing uses it any more.
    Drained,
    /// So many requests still do.
    Stuck { active: u64 },
}

/// What follows the drain of a replaced generation.
#[derive(Clone, Copy, Debug, PartialEq, Eq, Structural)]
pub enum DrainStep {
    /// The revocations complete, the drain is shown, and all is done.
    Complete,
    /// The requests are shown, and the drain is tried again after so many
    /// milliseconds.
    Retry { active: u64, millis: u64 },
}

/// What follows the drain of a replaced generation.
pub open spec fn drain_follows(outcome: DrainOutcome) -> DrainStep {
    match outcome {
        DrainOutcome::Drained => DrainStep::Complete,
        DrainOutcome::Stuck { active } => DrainStep::Retry {
            active,
            millis: RECONCILE_RETRY_DELAY,
        },
    }
}

/// Decides what follows the drain of a replaced generation.
pub fn drain_step(outcome: DrainOutcome) -> (step: DrainStep)
    ensures
        step == drain_follows(outcome),
{
    match outcome {
        DrainOutcome::Drained => DrainStep::Complete,
        DrainOutcome::Stuck { active } => DrainStep::Retry {
            active,
            millis: RECONCILE_RETRY_DELAY,
        },
    }
}

/// A credential is revoked only once nothing of the generation that was given it
/// is in use any more.
pub proof fn revocations_complete_only_after_the_drain(outcome: DrainOutcome)
    ensures
        drain_follows(outcome) == DrainStep::Complete <==> outcome == DrainOutcome::Drained,
{
}

/// A generation that was published, and what went wrong since.
#[derive(Debug, PartialEq, Eq)]
pub struct Publication {
    pub revision: ResourceRevision,
    pub attempt: u32,
    pub errors: Vec<String>,
    /// Revocations that complete once the replaced generation has drained.
    pub revoke_actions: Vec<ActionId>,
}

/// [`Publication`] by what it stands for.
#[verifier::ext_equal]
pub struct PublicationView {
    pub revision: ResourceRevision,
    pub attempt: u32,
    pub errors: Seq<Seq<char>>,
    pub revoke_actions: Seq<ActionId>,
}

impl View for Publication {
    type V = PublicationView;

    open spec fn view(&self) -> PublicationView {
        PublicationView {
            revision: self.revision,
            attempt: self.attempt,
            errors: crate::text::texts(self.errors@),
            revoke_actions: self.revoke_actions@,
        }
    }
}

/// What becomes of an action once the generation is published.
#[derive(Clone, Copy, Debug, PartialEq, Eq, Structural)]
pub enum ActionStep {
    /// Nothing.
    Skip,
    /// It completes once the replaced generation has drained.
    AwaitDrain,
    /// It is complete.
    Complete,
}

/// What becomes of an action once the generation is published.
pub open spec fn action_step(receipt: Result<Option<ActionKind>, Seq<char>>) -> ActionStep {
    match receipt {
        Ok(Some(ActionKind::RevokeCredential)) => ActionStep::AwaitDrain,
        Ok(Some(ActionKind::SetCredentialMaterial)) => ActionStep::Complete,
        _ => ActionStep::Skip,
    }
}

impl PublicationView {
    /// One more error.
    pub open spec fn with_error(self, text: Seq<char>) -> PublicationView {
        PublicationView { errors: self.errors.push(text), ..self }
    }

    /// One more error, where there was one.
    pub open spec fn after(self, intro: Seq<char>, result: Result<(), Seq<char>>) -> PublicationView {
        match result {
            Ok(_) => self,
            Err(error) => self.with_error(intro + error),
        }
    }

    /// An action has been read.
    pub open spec fn action_read(
        self,
        action: ActionId,
        action_text: Seq<char>,
        receipt: Result<Option<ActionKind>, Seq<char>>,
    ) -> PublicationView {
        match receipt {
            Err(error) => self.with_error("read action "@ + action_text + ": "@ + error),
            Ok(_) => if action_step(receipt) == ActionStep::AwaitDrain {
                PublicationView { revoke_actions: self.revoke_actions.push(action), ..self }
            } else {
                self
            },
        }
    }

    /// The hub after the errors were reported, if there are any.
    pub open spec fn errors_shown(self, hub: HubView, now: u128) -> HubView {
        if self.errors.len() == 0 {
            hub
        } else {
            crate::serving_reconciler::publish::staged(
                hub,
                self.revision,
                self.revoke_actions,
                ServingProgressStage::Degraded,
                1,
                1,
                crate::serving_reconciler::publish::earlier(self.attempt),
                Some(crate::text::joined(self.errors, "; "@)),
                now,
            )
        }
    }

    /// The hub after the replaced generation has drained. A publication with
    /// errors stays degraded.
    pub open spec fn drained_shown(self, hub: HubView, now: u128) -> HubView {
        if self.errors.len() == 0 {
            crate::serving_reconciler::publish::background(
                hub,
                self.revision,
                self.revoke_actions,
                ServingProgressStage::Ready,
                crate::serving_reconciler::publish::earlier(self.attempt),
                None,
                now,
            )
        } else {
            hub
        }
    }

    /// The hub after the replaced generation did not drain in time.
    pub open spec fn stuck_shown(self, hub: HubView, active: u64, now: u128) -> HubView {
        crate::serving_reconciler::publish::background(
            hub,
            self.revision,
            self.revoke_actions,
            ServingProgressStage::Degraded,
            crate::serving_reconciler::publish::earlier(self.attempt),
            Some(
                "retired generation still has "@ + crate::text::decimal_text(active as nat)
                    + " active request(s); drain will retry"@,
            ),
            now,
        )
    }
}

proof fn texts_after_push(texts: Seq<String>, text: String)
    ensures
        crate::text::texts(texts.push(text)) == crate::text::texts(texts).push(text@),
{
    assert(crate::text::texts(texts.push(text)) =~= crate::text::texts(texts).push(text@));
}

impl Publication {
    /// A generation was published and the one before it begins to drain.
    pub fn begin(
        hub: &mut ProgressHub,
        revision: ResourceRevision,
        actions: &Vec<ActionId>,
        attempt: u32,
        now: u128,
    ) -> (publication: Self)
        requires
            old(hub).sequence + 1 + actions@.len() <= u64::MAX,
        ensures
            publication@ == (PublicationView {
                revision,
                attempt,
                errors: Seq::empty(),
                revoke_actions: Seq::empty(),
            }),
            final(hub)@ == crate::serving_reconciler::publish::staged(
                old(hub)@,
                revision,
                actions@,
                ServingProgressStage::Draining,
                0,
                1,
                crate::serving_reconciler::publish::earlier(attempt),
                None,
                now,
            ),
    {
        publish_serving_targets(
            hub,
            revision,
            actions,
            ServingProgressStage::Draining,
            0,
            1,
            earlier_attempts(attempt),
            None,
            now,
        );
        let publication = Publication {
            revision,
            attempt,
            errors: Vec::new(),
            revoke_actions: Vec::new(),
        };
        assert(publication@.errors =~= Seq::<Seq<char>>::empty());
        publication
    }

    fn add_error(&mut self, text: String)
        ensures
            final(self)@ == old(self)@.with_error(text@),
    {
        proof {
            texts_after_push(self.errors@, text);
        }
        self.errors.push(text);
    }

    /// The refreshes that waited for the publication were activated, or not.
    pub fn refreshes_activated(&mut self, result: Result<(), String>)
        ensures
            final(self)@ == old(self)@.after(
                "credential refresh activation failed: "@,
                crate::serving_reconciler::pass::result_of(result),
            ),
    {
        if let Err(error) = result {
            self.add_error(concat("credential refresh activation failed: ", error.as_str()));
        }
    }

    /// The served revision was recorded, or not.
    pub fn serving_marked(&mut self, result: Result<(), String>)
        ensures
            final(self)@ == old(self)@.after(
                "serving revision record failed: "@,
                crate::serving_reconciler::pass::result_of(result),
            ),
    {
        if let Err(error) = result {
            self.add_error(concat("serving revision record failed: ", error.as_str()));
        }
    }

    /// An action was read, by the kind its receipt has. Says what becomes of
    /// it.
    pub fn action_read(
        &mut self,
        action: ActionId,
        action_text: &str,
        receipt: Result<Option<ActionKind>, String>,
    ) -> (step: ActionStep)
        ensures
            step == action_step(crate::serving_reconciler::pass::result_of(receipt)),
            final(self)@ == old(self)@.action_read(
                action,
                action_text@,
                crate::serving_reconciler::pass::result_of(receipt),
            ),
    {
        match receipt {
            Err(error) => {
                let intro = concat3("read action ", action_text, ": ");
                self.add_error(concat(intro.as_str(), error.as_str()));
                ActionStep::Skip
            },
            Ok(None) => ActionStep::Skip,
            Ok(Some(kind)) => match kind {
                ActionKind::RevokeCredential => {
                    self.revoke_actions.push(action);
                    ActionStep::AwaitDrain
                },
                ActionKind::RestartFilesystem => ActionStep::Skip,
                ActionKind::SetCredentialMaterial => ActionStep::Complete,
            },
        }
    }

    /// An action was moved to its completed phase, or not.
    pub fn action_transitioned(
        &mut self,
        hub: &mut ProgressHub,
        action_text: &str,
        result: Result<ActionReceipt, String>,
    )
        requires
            old(hub).sequence + 3 <= u64::MAX,
        ensures
            match result {
                Ok(ready) => final(self)@ == old(self)@ && final(hub)@
                    == crate::serving_reconciler::publish::action_completed(old(hub)@, ready@),
                Err(error) => final(self)@ == old(self)@.with_error(
                    "complete action "@ + action_text@ + ": "@ + error@,
                ) && final(hub)@ == old(hub)@,
            },
    {
        match result {
            Ok(ready) => publish_completed_action(hub, ready),
            Err(error) => {
                let intro = concat3("complete action ", action_text, ": ");
                self.add_error(concat(intro.as_str(), error.as_str()));
            },
        }
    }

    /// Reports what went wrong after the publication.
    pub fn show_errors(&self, hub: &mut ProgressHub, now: u128)
        requires
            old(hub).sequence + 1 + self.revoke_actions@.len() <= u64::MAX,
        ensures
            final(hub)@ == self@.errors_shown(old(hub)@, now),
    {
        if self.errors.len() > 0 {
            publish_serving_targets(
                hub,
                self.revision,
                &self.revoke_actions,
                ServingProgressStage::Degraded,
                1,
                1,
                earlier_attempts(self.attempt),
                Some(join(&self.errors, "; ")),
                now,
            );
        }
    }

    /// Tells that the revision is ready, unless filesystems are still to
    /// follow it.
    pub fn announce_ready(&self, hub: &mut ProgressHub, has_filesystem_work: bool)
        requires
            old(hub).sequence < u64::MAX,
        ensures
            final(hub)@ == (if has_filesystem_work {
                old(hub)@
            } else {
                crate::progress::hub::sent(
                    old(hub)@,
                    ProgressTarget::DesiredRevision(self@.revision),
                    KindView::RevisionReady(self@.revision),
                )
            }),
    {
        if !has_filesystem_work {
            hub.publish(
                ProgressTarget::DesiredRevision(self.revision),
                ProgressEventKind::RevisionReady(self.revision),
            );
        }
    }

    /// The replaced generation has drained.
    pub fn show_drained(&self, hub: &mut ProgressHub, now: u128)
        requires
            old(hub).sequence + 1 + self.revoke_actions@.len() <= u64::MAX,
        ensures
            final(hub)@ == self@.drained_shown(old(hub)@, now),
    {
        if self.errors.len() == 0 {
            publish_background_serving(
                hub,
                self.revision,
                &self.revoke_actions,
                ServingProgressStage::Ready,
                earlier_attempts(self.attempt),
                None,
                now,
            );
        }
    }

    /// The replaced generation still has requests; it goes on draining.
    pub fn show_stuck(&self, hub: &mut ProgressHub, active: u64, now: u128)
        requires
            old(hub).sequence + 1 + self.revoke_actions@.len() <= u64::MAX,
        ensures
            final(hub)@ == self@.stuck_shown(old(hub)@, active, now),
    {
        let text = concat3(
            "retired generation still has ",
            decimal(active).as_str(),
            " active request(s); drain will retry",
        );
        publish_background_serving(
            hub,
            self.revision,
            &self.revoke_actions,
            ServingProgressStage::Degraded,
            earlier_attempts(self.attempt),
            Some(text),
            now,
        );
    }
}

/// How a revocation came out upstream.
#[derive(Clone, Copy, Debug, PartialEq, Eq, Structural)]
pub enum RevocationActionOutcome {
    Deleted,
    Unknown,
}

/// What becomes of a revocation after the replaced generation has drained.
#[derive(Debug, PartialEq, Eq)]
pub enum RevocationStep {
    Complete,
    Fail { error_code: String, detail: String },
}

/// The code and detail a revocation fails with, if it does.
pub open spec fn revocation_failure(
    outcome: Result<RevocationActionOutcome, Seq<char>>,
) -> Option<(Seq<char>, Seq<char>)> {
    match outcome {
        Ok(RevocationActionOutcome::Deleted) => None,
        Ok(RevocationActionOutcome::Unknown) => Some(
            (
                "credential_revocation_unknown"@,
                "upstream credential revocation outcome is unknown"@,
            ),
        ),
        Err(error) => Some(("credential_revocation_failed"@, error)),
    }
}

/// Judges a revocation: only a deletion completes it.
pub fn judge_revocation(outcome: Result<RevocationActionOutcome, String>) -> (step: RevocationStep)
    ensures
        match (
            step,
            revocation_failure(crate::serving_reconciler::pass::result_of(outcome)),
        ) {
            (RevocationStep::Complete, None) => true,
            (RevocationStep::Fail { error_code, detail }, Some(failure)) => error_code@ == failure.0
                && detail@ == failure.1,
            _ => false,
        },
{
    match outcome {
        Ok(RevocationActionOutcome::Deleted) => RevocationStep::Complete,
        Ok(RevocationActionOutcome::Unknown) => RevocationStep::Fail {
            error_code: "credential_revocation_unknown".to_owned(),
            detail: "upstream credential revocation outcome is unknown".to_owned(),
        },
        Err(error) => RevocationStep::Fail {
            error_code: "credential_revocation_failed".to_owned(),
            detail: error,
        },
    }
}

/// What a pending action needs before a run takes it up.
#[derive(Clone, Copy, Debug, PartialEq, Eq, Structural)]
pub enum PendingStep {
    /// It is not for this reconciler.
    Skip,
    /// It was only accepted and is now to run.
    Start,
    /// It runs already and is told again.
    Announce,
}

/// What a pending action needs before a run takes it up.
pub fn pending_step(receipt: &ActionReceipt) -> (step: PendingStep)
    ensures
        step == (if crate::serving_reconciler::credential_action_stage(receipt.kind) is None {
            PendingStep::Skip
        } else if receipt.phase == ActionPhase::Accepted {
            PendingStep::Start
        } else {
            PendingStep::Announce
        }),
{
    match pending_credential_action_stage(receipt.kind) {
        None => PendingStep::Skip,
        Some(_) => if receipt.phase == ActionPhase::Accepted {
            PendingStep::Start
        } else {
            PendingStep::Announce
        },
    }
}

/// The hub after a pending action was taken up.
pub open spec fn pending_shown(hub: HubView, receipt: ReceiptView, announce: bool) -> HubView {
    match crate::serving_reconciler::credential_action_stage(receipt.kind) {
        None => hub,
        Some(stage) => crate::serving_reconciler::publish::credential_staged(
            if announce {
                crate::progress::hub::receipt_recorded(hub, receipt)
            } else {
                hub
            },
            receipt,
            stage,
            None,
            None,
        ),
    }
}

/// Shows a pending action that a run takes up. The receipt of one that ran
/// already is told again.
pub fn show_pending(hub: &mut ProgressHub, receipt: &ActionReceipt, announce: bool)
    requires
        old(hub).sequence + 2 <= u64::MAX,
    ensures
        final(hub)@ == pending_shown(old(hub)@, receipt@, announce),
{
    if let Some(stage) = pending_credential_action_stage(receipt.kind) {
        if announce {
            hub.record_action_receipt(receipt.clone());
        }
        record_credential_progress(hub, receipt, stage, None, None);
    }
}

/// Whether one of the actions is a revocation. An action without a receipt is
/// none.
pub fn pending_revoke_exists(kinds: &Vec<Option<ActionKind>>) -> (pending: bool)
    ensures
        pending == kinds@.contains(Some(ActionKind::RevokeCredential)),
{
    let mut i: usize = 0;
    while i < kinds.len()
        invariant
            i <= kinds@.len(),
            forall|j: int| 0 <= j < i ==> #[trigger] kinds@[j] != Some(ActionKind::RevokeCredential),
        decreases kinds@.len() - i,
    {
        if let Some(kind) = kinds[i] {
            if kind == ActionKind::RevokeCredential {
                return true;
            }
        }
        i = i + 1;
    }
    false
}

} // verus!
