//! The daemon's life from start to stop: what is prepared first, what is shown
//! while it cannot serve, and when it gives up.
use crate::control::{
    DaemonPhase, DaemonRecovery, HealthReport, HealthState, HealthView, OfferView, RecoveryId,
    RecoveryOffer, RecoveryView, RepairAction,
};
use crate::list::copy_all;
use crate::name::{ProviderId, ResourceName, ResourceRevision};
use crate::order::{sort, Ranked};
use crate::progress::ProgressHub;
use crate::provider_bundle::EmbeddedProvider;
use crate::provider_preparer::{
    PreparationView, ProviderPreparationPhase, ProviderPreparationStatus, ProviderPriority,
};
use crate::records::{ProviderPreparationProgress, ProviderPreparationStage, ProviderView};
use crate::serving_reconciler::{provider_is_mounted, DesiredResource, DesiredView};
use vstd::prelude::*;

pub mod construct;
pub mod cycle;
pub mod laws;
pub mod lifecycle;
pub mod start_laws;

verus! {

/// A number in so many bytes, the lowest first.
pub open spec fn low_bytes(value: nat, len: nat) -> Seq<u8>
    decreases len,
{
    if len == 0 {
        Seq::empty()
    } else {
        seq![(value % 256) as u8] + low_bytes(value / 256, (len - 1) as nat)
    }
}

/// The identity of the offer with a number: the number in the first eight
/// bytes, the lowest first, and zeros behind it.
pub open spec fn offer_bytes(sequence: u64) -> Seq<u8> {
    low_bytes(sequence as nat, 16)
}

/// One more byte of a number.
proof fn a_byte_more(value: nat, rest: nat, done: Seq<u8>, len: nat, at: nat)
    requires
        at < len,
        low_bytes(value, len) == done + low_bytes(rest, (len - at) as nat),
    ensures
        low_bytes(value, len) == done.push((rest % 256) as u8) + low_bytes(
            rest / 256,
            (len - at - 1) as nat,
        ),
{
    assert(done + (seq![(rest % 256) as u8] + low_bytes(rest / 256, (len - at - 1) as nat))
        =~= done.push((rest % 256) as u8) + low_bytes(rest / 256, (len - at - 1) as nat));
}

/// The identity of the offer with a number.
pub fn recovery_id(sequence: u64) -> (id: RecoveryId)
    ensures
        id@ == offer_bytes(sequence),
{
    let mut bytes: [u8; 16] = [0; 16];
    let mut rest: u64 = sequence;
    let mut i: usize = 0;
    assert(bytes@.take(0) + low_bytes(rest as nat, 16) =~= low_bytes(sequence as nat, 16));
    while i < 16
        invariant
            i <= 16,
            bytes@.len() == 16,
            low_bytes(sequence as nat, 16) == bytes@.take(i as int) + low_bytes(
                rest as nat,
                (16 - i) as nat,
            ),
        decreases 16 - i,
    {
        proof {
            a_byte_more(sequence as nat, rest as nat, bytes@.take(i as int), 16, i as nat);
        }
        let ghost before = bytes@;
        bytes[i] = (rest % 256) as u8;
        assert(bytes@.take(i + 1) =~= before.take(i as int).push((rest % 256) as u8));
        rest = rest / 256;
        i = i + 1;
    }
    assert(bytes@.take(16) + low_bytes(rest as nat, 0) =~= bytes@);
    RecoveryId { bytes }
}

/// The numbers of the offers that were made.
#[derive(Clone, Copy, Debug, PartialEq, Eq, Structural)]
pub struct RecoverySequence {
    pub next: u64,
}

impl RecoverySequence {
    /// The identity of a further offer. Offers are told apart by their number.
    pub fn next_recovery_id(&mut self) -> (id: RecoveryId)
        ensures
            id@ == offer_bytes(old(self).next),
            final(self).next == (if old(self).next == u64::MAX {
                0
            } else {
                old(self).next + 1
            }),
    {
        let id = recovery_id(self.next);
        self.next = self.next.wrapping_add(1);
        id
    }
}

/// Why the daemon does not serve: its store could not be opened, which can be
/// repaired in place, or something behind the store rejected the runtime, which
/// cannot.
#[derive(Debug, PartialEq, Eq)]
pub enum StartupFailure {
    Store { error: String },
    Runtime {
        error: String,
        durable_revision: Option<ResourceRevision>,
        serving_revision: Option<ResourceRevision>,
    },
}

/// [`StartupFailure`] by what it spells.
pub enum FailureView {
    Store { error: Seq<char> },
    Runtime {
        error: Seq<char>,
        durable_revision: Option<ResourceRevision>,
        serving_revision: Option<ResourceRevision>,
    },
}

impl View for StartupFailure {
    type V = FailureView;

    open spec fn view(&self) -> FailureView {
        match self {
            StartupFailure::Store { error } => FailureView::Store { error: error@ },
            StartupFailure::Runtime { error, durable_revision, serving_revision } => {
                FailureView::Runtime {
                    error: error@,
                    durable_revision: *durable_revision,
                    serving_revision: *serving_revision,
                }
            },
        }
    }
}

/// What the daemon shows after a failure, with the repair that it offers.
pub open spec fn shown_after(
    failure: FailureView,
    repair: Option<OfferView>,
) -> RecoveryView {
    match failure {
        FailureView::Store { .. } => RecoveryView {
            phase: DaemonPhase::RecoveryRequired,
            durable_revision: None,
            serving_revision: None,
            store_health: HealthView {
                state: HealthState::Unhealthy,
                detail: "control store could not be opened"@,
            },
            repair,
        },
        FailureView::Runtime { durable_revision, serving_revision, .. } => RecoveryView {
            phase: DaemonPhase::RecoveryRequired,
            durable_revision,
            serving_revision,
            store_health: HealthView {
                state: HealthState::Unhealthy,
                detail: "daemon runtime could not start"@,
            },
            repair,
        },
    }
}

/// Whether a repair is what is offered after a failure: a store that could not
/// be opened is, under the next number, and nothing else is.
pub open spec fn is_offered(
    failure: FailureView,
    next: u64,
    repair: Option<OfferView>,
) -> bool {
    match failure {
        FailureView::Store { .. } => repair == Some(
            OfferView { id: offer_bytes(next), actions: seq![RepairAction::RecreateControlStore] },
        ),
        FailureView::Runtime { .. } => repair is None,
    }
}

/// The number of the offer after the one that a failure may bring.
pub open spec fn offers_after(failure: FailureView, next: u64) -> u64 {
    match failure {
        FailureView::Store { .. } => if next == u64::MAX {
            0
        } else {
            (next + 1) as u64
        },
        FailureView::Runtime { .. } => next,
    }
}

impl StartupFailure {
    pub fn error(&self) -> (error: &str)
        ensures
            error@ == (match *self {
                StartupFailure::Store { error } => error@,
                StartupFailure::Runtime { error, .. } => error@,
            }),
    {
        match self {
            StartupFailure::Store { error } => error.as_str(),
            StartupFailure::Runtime { error, .. } => error.as_str(),
        }
    }

    /// What the daemon shows after this failure. Only a store that could not be
    /// opened is offered for repair, under an identity of its own.
    pub fn recovery(&self, sequence: &mut RecoverySequence) -> (recovery: DaemonRecovery)
        ensures
            recovery@ == shown_after(self@, recovery@.repair),
            is_offered(self@, old(sequence).next, recovery@.repair),
            final(sequence).next == offers_after(self@, old(sequence).next),
    {
        match self {
            StartupFailure::Store { .. } => {
                let mut actions: Vec<RepairAction> = Vec::new();
                actions.push(RepairAction::RecreateControlStore);
                assert(actions@ =~= seq![RepairAction::RecreateControlStore]);
                DaemonRecovery {
                    phase: DaemonPhase::RecoveryRequired,
                    durable_revision: None,
                    serving_revision: None,
                    store_health: HealthReport::new(
                        HealthState::Unhealthy,
                        "control store could not be opened",
                    ),
                    repair: Some(RecoveryOffer { id: sequence.next_recovery_id(), actions }),
                }
            },
            StartupFailure::Runtime { durable_revision, serving_revision, .. } => DaemonRecovery {
                phase: DaemonPhase::RecoveryRequired,
                durable_revision: *durable_revision,
                serving_revision: *serving_revision,
                store_health: HealthReport::new(
                    HealthState::Unhealthy,
                    "daemon runtime could not start",
                ),
                repair: None,
            },
        }
    }
}

/// An embedded provider, by the size of its artifact.
#[derive(Debug)]
pub struct BySize {
    pub provider: EmbeddedProvider,
}

impl View for BySize {
    type V = crate::provider_bundle::EmbeddedView;

    open spec fn view(&self) -> crate::provider_bundle::EmbeddedView {
        self.provider@
    }
}

impl Ranked for BySize {
    open spec fn ranks_before(
        a: crate::provider_bundle::EmbeddedView,
        b: crate::provider_bundle::EmbeddedView,
    ) -> bool {
        a.bytes.len() < b.bytes.len()
    }

    fn is_ranked_before(&self, other: &Self) -> (before: bool) {
        self.provider.bytes.len() < other.provider.bytes.len()
    }

    proof fn ranks_before_is_weak_order(
        a: crate::provider_bundle::EmbeddedView,
        b: crate::provider_bundle::EmbeddedView,
        c: crate::provider_bundle::EmbeddedView,
    ) {
    }
}

/// The embedded providers in the order they are prepared in: the smaller
/// artifacts first, which bounds what a shutdown soon after the start has to
/// wait for.
pub fn embedded_order(providers: Vec<BySize>) -> (ordered: Vec<BySize>)
    ensures
        crate::list::views(ordered@) == crate::order::sorted::<BySize>(
            crate::list::views(providers@),
        ),
{
    sort(providers)
}

/// The resource names of an artifact, in the order of the resources.
pub open spec fn aliases_of(resources: Seq<DesiredView>, artifact: ProviderId) -> Seq<Seq<char>>
    decreases resources.len(),
{
    if resources.len() == 0 {
        Seq::empty()
    } else {
        let earlier = aliases_of(resources.drop_last(), artifact);
        match resources.last() {
            DesiredView::Provider { name, artifact: held } => if held == artifact {
                earlier.push(name)
            } else {
                earlier
            },
            _ => earlier,
        }
    }
}

fn aliases(resources: &Vec<DesiredResource>, artifact: ProviderId) -> (names: Vec<ResourceName>)
    ensures
        crate::list::views(names@) == aliases_of(crate::list::views(resources@), artifact),
{
    let ghost all = crate::list::views(resources@);
    let mut names: Vec<ResourceName> = Vec::new();
    let mut i: usize = 0;
    assert(crate::list::views(names@) =~= aliases_of(all.take(0), artifact));
    while i < resources.len()
        invariant
            i <= resources@.len(),
            all == crate::list::views(resources@),
            crate::list::views(names@) == aliases_of(all.take(i as int), artifact),
        decreases resources@.len() - i,
    {
        proof {
            assert(all.take(i + 1).drop_last() =~= all.take(i as int));
            assert(all.take(i + 1).last() == resources@[i as int]@);
        }
        if let DesiredResource::Provider { name, artifact: held } = &resources[i] {
            if *held == artifact {
                let ghost before = crate::list::views(names@);
                names.push(name.clone());
                assert(crate::list::views(names@) =~= before.push(name@));
            }
        }
        i = i + 1;
    }
    assert(all.take(i as int) =~= all);
    names
}

/// How a retained artifact is prepared at the start: before the others, and
/// under its resource names, where a mount uses it.
pub fn retained_job(resources: &Vec<DesiredResource>, artifact: ProviderId) -> (job: (
    ProviderPriority,
    Vec<ResourceName>,
))
    ensures
        if crate::serving_reconciler::is_mounted(crate::list::views(resources@), artifact) {
            job.0 == ProviderPriority::Desired && crate::list::views(job.1@) == aliases_of(
                crate::list::views(resources@),
                artifact,
            )
        } else {
            job.0 == ProviderPriority::Retained && job.1@.len() == 0
        },
{
    if provider_is_mounted(resources, artifact) {
        (ProviderPriority::Desired, aliases(resources, artifact))
    } else {
        (ProviderPriority::Retained, Vec::new())
    }
}

/// The stage that is shown for a phase of a preparation.
pub open spec fn stage_of(phase: ProviderPreparationPhase) -> ProviderPreparationStage {
    match phase {
        ProviderPreparationPhase::Queued => ProviderPreparationStage::Queued,
        ProviderPreparationPhase::Preparing => ProviderPreparationStage::Compiling,
        ProviderPreparationPhase::Retrying => ProviderPreparationStage::Retrying,
        ProviderPreparationPhase::Ready => ProviderPreparationStage::Ready,
        ProviderPreparationPhase::Failed => ProviderPreparationStage::Failed,
    }
}

/// What is shown of a preparation.
pub open spec fn progress_of(status: PreparationView) -> ProviderView {
    ProviderView {
        digest: status.provider_id,
        catalog_name: status.catalog_name,
        resource_names: status.resource_names,
        stage: stage_of(status.phase),
        queue_position: status.queue_position,
        completed_bytes: status.completed_bytes as u64,
        total_bytes: Some(status.total_bytes as u64),
        error_code: status.error_code,
        detail: status.detail,
        queued_digests: status.queued_digests,
        active_digests: status.active_digests,
        completed_digests: status.completed_digests,
        retry_count: status.retry_count,
    }
}

/// What is shown of a preparation.
pub fn provider_progress(status: &ProviderPreparationStatus) -> (progress: ProviderPreparationProgress)
    ensures
        progress@ == progress_of(status@),
{
    let stage = match status.phase {
        ProviderPreparationPhase::Queued => ProviderPreparationStage::Queued,
        ProviderPreparationPhase::Preparing => ProviderPreparationStage::Compiling,
        ProviderPreparationPhase::Retrying => ProviderPreparationStage::Retrying,
        ProviderPreparationPhase::Ready => ProviderPreparationStage::Ready,
        ProviderPreparationPhase::Failed => ProviderPreparationStage::Failed,
    };
    ProviderPreparationProgress {
        digest: status.provider_id,
        catalog_name: status.catalog_name.clone(),
        resource_names: copy_all(&status.resource_names),
        stage,
        queue_position: status.queue_position,
        completed_bytes: status.completed_bytes,
        total_bytes: Some(status.total_bytes),
        error_code: status.error_code.clone(),
        detail: status.detail.clone(),
        queued_digests: status.queued_digests,
        active_digests: status.active_digests,
        completed_digests: status.completed_digests,
        retry_count: status.retry_count,
    }
}

/// Records what is shown of a preparation.
pub fn record_provider_progress(progress: &mut ProgressHub, status: &ProviderPreparationStatus) -> (
    sequences: Vec<u64>)
    requires
        old(progress).sequence + 1 + old(progress).revision_providers@.len() <= u64::MAX,
    ensures
        final(progress)@ == crate::progress::hub::provider_recorded(
            old(progress)@,
            progress_of(status@),
        ),
        sequences@.len() == final(progress).sequence - old(progress).sequence,
        forall|i: int|
            0 <= i < sequences@.len() ==> #[trigger] sequences@[i] == old(progress).sequence + 1 + i,
{
    progress.record_provider_status(&provider_progress(status))
}

/// What became of the identity that this process had published.
#[derive(Clone, Copy, Debug, PartialEq, Eq, Structural)]
pub enum IdentityCleanup {
    Removed,
    /// It is another process's by now and was left alone.
    LeftIntact,
    Failed,
}

/// What became of the identity that this process had published, by what its
/// removal said. An identity that is no longer ours is left alone.
pub fn unpublish_process_identity(removed: Result<bool, String>) -> (cleanup: IdentityCleanup)
    ensures
        cleanup == (match removed {
            Ok(true) => IdentityCleanup::Removed,
            Ok(false) => IdentityCleanup::LeftIntact,
            Err(_) => IdentityCleanup::Failed,
        }),
{
    match removed {
        Ok(true) => IdentityCleanup::Removed,
        Ok(false) => IdentityCleanup::LeftIntact,
        Err(_) => IdentityCleanup::Failed,
    }
}

} // verus!
