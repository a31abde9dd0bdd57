//! Changes of the hub, and what a watcher is sent.
use crate::list::{copy_all, kept};
use crate::name::{ActionId, ProviderId, ResourceName, ResourceRevision};
use crate::order::{file, sort, Ranked};
use crate::progress::{
    filter_snapshot, target_state, tidy, ActionServing, EventView, HubView, KindView,
    MembershipView, NamesView, ProgressEvent, ProgressEventKind, ProgressHub, ProgressSnapshot,
    ProgressTarget, ProgressTargetState, ProviderNames, RevisionProviders, SnapshotView,
};
use crate::records::{
    ActionReceipt, CredentialProgress, CredentialView, FilesystemProgress, FilesystemView,
    ProviderPreparationProgress, ProviderView, ReceiptView, ServingProgress, ServingView,
};
use vstd::prelude::*;

verus! {

impl Ranked for RevisionProviders {
    open spec fn ranks_before(a: MembershipView, b: MembershipView) -> bool {
        a.revision.value < b.revision.value
    }

    fn is_ranked_before(&self, other: &Self) -> (before: bool) {
        self.revision.value < other.revision.value
    }

    proof fn ranks_before_is_weak_order(a: MembershipView, b: MembershipView, c: MembershipView) {
    }
}

/// The hub after one numbered event.
pub open spec fn sent(hub: HubView, target: ProgressTarget, event: KindView) -> HubView {
    let sequence = (hub.sequence + 1) as u64;
    HubView {
        sequence,
        outbox: hub.outbox.push(
            EventView { daemon_instance_id: hub.daemon_instance_id, sequence, target, event },
        ),
        ..hub
    }
}

/// The hub with another snapshot, which it publishes.
pub open spec fn shown(hub: HubView, target: ProgressTarget, snapshot: SnapshotView) -> HubView {
    sent(HubView { snapshot, ..hub }, target, KindView::Snapshot(snapshot))
}

/// What a watcher of a target sees of the hub.
pub open spec fn seen(hub: HubView, target: ProgressTarget) -> SnapshotView {
    crate::progress::filtered(hub.snapshot, target, hub.memberships, hub.action_serving)
}

/// The membership of a revision, with each list of names in order.
pub open spec fn tidied_members(providers: Seq<NamesView>) -> Seq<NamesView> {
    providers.map_values(
        |member: NamesView|
            NamesView { digest: member.digest, names: crate::progress::tidied(member.names) },
    )
}

/// The memberships with that of one revision replaced, without those that a
/// later revision has replaced for good.
pub open spec fn registered(
    memberships: Seq<MembershipView>,
    revision: ResourceRevision,
    providers: Seq<NamesView>,
    current: ResourceRevision,
) -> Seq<MembershipView> {
    crate::order::filed::<RevisionProviders>(
        memberships.filter(|known: MembershipView| known.revision != revision),
        MembershipView { revision, providers: tidied_members(providers) },
    ).filter(|known: MembershipView| known.revision.value >= current.value)
}

/// The artifacts with one of them replaced: the newest counts hold for all.
pub open spec fn with_provider(providers: Seq<ProviderView>, progress: ProviderView) -> Seq<ProviderView> {
    crate::order::sorted::<ProviderPreparationProgress>(
        providers.filter(|current: ProviderView| current.digest != progress.digest).push(
            progress,
        ).map_values(
            |current: ProviderView|
                ProviderView {
                    queued_digests: progress.queued_digests,
                    active_digests: progress.active_digests,
                    completed_digests: progress.completed_digests,
                    ..current
                },
        ),
    )
}

/// The hub after each revision that uses the artifact was told of it, under
/// the names that the revision has for it.
pub open spec fn told(hub: HubView, progress: ProviderView, memberships: Seq<MembershipView>) -> HubView
    decreases memberships.len(),
{
    if memberships.len() == 0 {
        hub
    } else {
        let before = told(hub, progress, memberships.drop_last());
        let last = memberships.last();
        match crate::progress::names_of(last.providers, progress.digest) {
            Some(names) => sent(
                before,
                ProgressTarget::DesiredRevision(last.revision),
                KindView::ProviderPreparation(ProviderView { resource_names: names, ..progress }),
            ),
            None => before,
        }
    }
}

/// The hub after the status of a provider artifact was recorded.
pub open spec fn provider_recorded(hub: HubView, progress: ProviderView) -> HubView {
    let snapshot = SnapshotView {
        providers: with_provider(hub.snapshot.providers, progress),
        ..hub.snapshot
    };
    told(
        sent(
            HubView { snapshot, ..hub },
            ProgressTarget::Current,
            KindView::ProviderPreparation(progress),
        ),
        progress,
        hub.memberships,
    )
}

/// The hub after a serving stage of a revision was recorded: the snapshot
/// follows only while that revision is the desired one.
pub open spec fn serving_recorded(hub: HubView, revision: ResourceRevision, progress: ServingView) -> HubView {
    let snapshot = if hub.snapshot.desired_revision == revision {
        SnapshotView { serving: Some(progress), ..hub.snapshot }
    } else {
        hub.snapshot
    };
    sent(
        HubView { snapshot, ..hub },
        ProgressTarget::DesiredRevision(revision),
        KindView::ServingProgress(progress),
    )
}

/// The hub after a serving stage of an action was recorded.
pub open spec fn action_serving_recorded(hub: HubView, action: ActionId, progress: ServingView) -> HubView {
    sent(
        HubView {
            action_serving: |other: ActionId|
                if other == action {
                    Some(progress)
                } else {
                    (hub.action_serving)(other)
                },
            ..hub
        },
        ProgressTarget::Action(action),
        KindView::ServingProgress(progress),
    )
}

/// The hub after the receipt of an action was recorded.
pub open spec fn receipt_recorded(hub: HubView, receipt: ReceiptView) -> HubView {
    shown(
        hub,
        ProgressTarget::Action(receipt.action_id),
        SnapshotView {
            actions: crate::order::sorted::<ActionReceipt>(
                hub.snapshot.actions.filter(
                    |current: ReceiptView| current.action_id != receipt.action_id,
                ).push(receipt),
            ),
            ..hub.snapshot
        },
    )
}

/// The hub after the progress of a credential was recorded.
pub open spec fn credential_recorded(hub: HubView, target: ProgressTarget, progress: CredentialView) -> HubView {
    let snapshot = SnapshotView {
        credentials: crate::order::sorted::<CredentialProgress>(
            hub.snapshot.credentials.filter(
                |current: CredentialView| current.key != progress.key,
            ).push(progress),
        ),
        ..hub.snapshot
    };
    sent(HubView { snapshot, ..hub }, target, KindView::CredentialProgress(progress))
}

/// The hub after the progress of a filesystem was recorded.
pub open spec fn filesystem_recorded(hub: HubView, target: ProgressTarget, progress: FilesystemView) -> HubView {
    let snapshot = SnapshotView {
        filesystems: crate::order::sorted::<FilesystemProgress>(
            hub.snapshot.filesystems.filter(
                |current: FilesystemView| current.key != progress.key,
            ).push(progress),
        ),
        ..hub.snapshot
    };
    sent(HubView { snapshot, ..hub }, target, KindView::FilesystemProgress(progress))
}

proof fn pushed_views<T: View>(items: Seq<T>, item: T)
    ensures
        crate::list::views(items.push(item)) == crate::list::views(items).push(item@),
{
    assert(crate::list::views(items.push(item)) =~= crate::list::views(items).push(item@));
}

proof fn serving_after_push(recorded: Seq<ActionServing>, entry: ActionServing, other: ActionId)
    ensures
        crate::progress::serving_of(recorded.push(entry), other) == (
        match crate::progress::serving_of(recorded, other) {
            Some(progress) => Some(progress),
            None => if entry.action == other {
                Some(entry.progress@)
            } else {
                None
            },
        }),
    decreases recorded.len(),
{
    if recorded.len() > 0 {
        serving_after_push(recorded.skip(1), entry, other);
        assert(recorded.push(entry).skip(1) =~= recorded.skip(1).push(entry));
        assert(recorded.push(entry)[0] == recorded[0]);
    } else {
        assert(recorded.push(entry)[0] == entry);
        assert(recorded.push(entry).skip(1) =~= recorded);
    }
}

proof fn serving_after_update(recorded: Seq<ActionServing>, at: int, entry: ActionServing, other: ActionId)
    requires
        0 <= at < recorded.len(),
        recorded[at].action == entry.action,
        forall|j: int| 0 <= j < at ==> (#[trigger] recorded[j]).action != entry.action,
    ensures
        crate::progress::serving_of(recorded.update(at, entry), other) == (if entry.action == other {
            Some(entry.progress@)
        } else {
            crate::progress::serving_of(recorded, other)
        }),
    decreases recorded.len(),
{
    let after = recorded.update(at, entry);
    if at == 0 {
        assert(after.skip(1) =~= recorded.skip(1));
    } else {
        assert forall|j: int| 0 <= j < at - 1 implies (#[trigger] recorded.skip(1)[j]).action
            != entry.action by {
            assert(recorded.skip(1)[j] == recorded[j + 1]);
        }
        assert(recorded.skip(1)[at - 1] == recorded[at]);
        serving_after_update(recorded.skip(1), at - 1, entry, other);
        assert(after.skip(1) =~= recorded.skip(1).update(at - 1, entry));
        assert(after[0] == recorded[0]);
    }
}

fn find_provider_names(providers: &Vec<ProviderNames>, digest: ProviderId) -> (names: Option<Vec<ResourceName>>)
    ensures
        match names {
            Some(names) => crate::progress::names_of(crate::list::views(providers@), digest) == Some(
                crate::list::views(names@),
            ),
            None => crate::progress::names_of(crate::list::views(providers@), digest) is None,
        },
{
    match crate::progress::find_names(providers, digest) {
        Some(names) => Some(copy_all(names)),
        None => None,
    }
}

impl ProgressHub {
    /// A hub that starts with one snapshot.
    pub fn new(daemon_instance_id: String, snapshot: ProgressSnapshot) -> (hub: Self)
        ensures
            hub@ == (HubView {
                daemon_instance_id: daemon_instance_id@,
                sequence: 1,
                snapshot: snapshot@,
                action_serving: |action: ActionId| None::<ServingView>,
                memberships: Seq::empty(),
                outbox: Seq::empty(),
            }),
    {
        let hub = ProgressHub {
            daemon_instance_id,
            sequence: 1,
            snapshot,
            action_serving: Vec::new(),
            revision_providers: Vec::new(),
            outbox: Vec::new(),
        };
        assert(hub@.memberships =~= Seq::empty());
        assert(hub@.outbox =~= Seq::empty());
        hub
    }

    /// Numbers an event and puts it into the outbox.
    fn send(&mut self, target: ProgressTarget, event: ProgressEventKind) -> (sequence: u64)
        requires
            old(self).sequence < u64::MAX,
        ensures
            final(self)@ == sent(old(self)@, target, event@),
            sequence == final(self).sequence,
            final(self).snapshot == old(self).snapshot,
            final(self).revision_providers == old(self).revision_providers,
    {
        self.sequence = self.sequence + 1;
        let sequence: u64 = self.sequence;
        let event = ProgressEvent {
            daemon_instance_id: self.daemon_instance_id.clone(),
            sequence,
            target,
            event,
        };
        proof {
            pushed_views(self.outbox@, event);
        }
        self.outbox.push(event);
        sequence
    }

    /// Hands out the events that are to be broadcast.
    pub fn take_events(&mut self) -> (events: Vec<ProgressEvent>)
        ensures
            crate::list::views(events@) == old(self)@.outbox,
            final(self)@ == (HubView { outbox: Seq::empty(), ..old(self)@ }),
    {
        let mut events: Vec<ProgressEvent> = Vec::new();
        std::mem::swap(&mut events, &mut self.outbox);
        assert(final(self)@.outbox =~= Seq::empty());
        events
    }

    /// Replaces the complete snapshot and publishes it.
    pub fn publish_snapshot(&mut self, target: ProgressTarget, snapshot: ProgressSnapshot) -> (sequence: u64)
        requires
            old(self).sequence < u64::MAX,
        ensures
            final(self)@ == shown(old(self)@, target, snapshot@),
            sequence == final(self).sequence,
    {
        self.snapshot = snapshot.clone();
        self.send(target, ProgressEventKind::Snapshot(snapshot))
    }

    /// Changes the complete snapshot and publishes the result.
    pub fn update_snapshot<F: FnOnce(ProgressSnapshot) -> ProgressSnapshot>(
        &mut self,
        target: ProgressTarget,
        update: F,
    ) -> (sequence: u64)
        requires
            old(self).sequence < u64::MAX,
            call_requires(update, (old(self).snapshot,)),
        ensures
            call_ensures(update, (old(self).snapshot,), final(self).snapshot),
            final(self)@ == shown(old(self)@, target, final(self).snapshot@),
            sequence == final(self).sequence,
    {
        let mut snapshot = ProgressSnapshot::empty(self.snapshot.desired_revision);
        std::mem::swap(&mut snapshot, &mut self.snapshot);
        self.snapshot = update(snapshot);
        let shown = self.snapshot.clone();
        self.send(target, ProgressEventKind::Snapshot(shown))
    }

    /// Changes the snapshot of one desired revision, only while it is current.
    pub fn update_revision_snapshot<F: FnOnce(ProgressSnapshot) -> ProgressSnapshot>(
        &mut self,
        revision: ResourceRevision,
        update: F,
    ) -> (updated: bool)
        requires
            old(self).sequence < u64::MAX,
            call_requires(update, (old(self).snapshot,)),
        ensures
            updated == (old(self).snapshot.desired_revision == revision),
            updated ==> call_ensures(update, (old(self).snapshot,), final(self).snapshot)
                && final(self)@ == shown(
                old(self)@,
                ProgressTarget::DesiredRevision(revision),
                final(self).snapshot@,
            ),
            !updated ==> *final(self) == *old(self),
    {
        if self.snapshot.desired_revision != revision {
            return false;
        }
        self.update_snapshot(ProgressTarget::DesiredRevision(revision), update);
        true
    }

    /// Publishes a transient stage.
    pub fn publish(&mut self, target: ProgressTarget, event: ProgressEventKind) -> (sequence: u64)
        requires
            old(self).sequence < u64::MAX,
        ensures
            final(self)@ == sent(old(self)@, target, event@),
            sequence == final(self).sequence,
    {
        self.send(target, event)
    }

    /// Registers the exact provider names that one desired revision uses.
    pub fn register_revision_providers(&mut self, revision: ResourceRevision, providers: Vec<ProviderNames>)
        ensures
            final(self)@ == (HubView {
                memberships: registered(
                    old(self)@.memberships,
                    revision,
                    crate::list::views(providers@),
                    old(self).snapshot.desired_revision,
                ),
                ..old(self)@
            }),
    {
        let ghost whole = providers@;
        let ghost all = crate::list::views(whole);
        let mut members: Vec<ProviderNames> = Vec::new();
        assert(crate::list::views(members@) =~= tidied_members(all.take(0)));
        for member in it: providers
            invariant
                it.seq() == whole,
                all == crate::list::views(whole),
                crate::list::views(members@) == tidied_members(all.take(it.index() as int)),
        {
            let ghost before = crate::list::views(members@);
            let ghost i = it.index() as int;
            assert(all[i] == member@);
            let next = ProviderNames { digest: member.digest, names: tidy(member.names) };
            proof {
                pushed_views(members@, next);
            }
            members.push(next);
            assert(tidied_members(all.take(i + 1)) =~= tidied_members(all.take(i)).push(next@));
        }
        assert(all.take(all.len() as int) =~= all);
        let mut memberships: Vec<RevisionProviders> = Vec::new();
        std::mem::swap(&mut memberships, &mut self.revision_providers);
        let current = self.snapshot.desired_revision;
        let test = |known: &RevisionProviders| -> (keep: bool)
            ensures
                keep == (known@.revision != revision),
        {
            known.revision != revision
        };
        let mut memberships = kept(
            memberships,
            test,
            Ghost(|known: MembershipView| known.revision != revision),
        );
        file(&mut memberships, RevisionProviders { revision, providers: members });
        let test = |known: &RevisionProviders| -> (keep: bool)
            ensures
                keep == (known@.revision.value >= current.value),
        {
            known.revision.value >= current.value
        };
        self.revision_providers = kept(
            memberships,
            test,
            Ghost(|known: MembershipView| known.revision.value >= current.value),
        );
    }

    /// Records the status of a provider artifact once, and tells it to every
    /// revision that uses the artifact.
    pub fn record_provider_status(&mut self, progress: &ProviderPreparationProgress) -> (sequences: Vec<u64>)
        requires
            old(self).sequence + 1 + old(self).revision_providers@.len() <= u64::MAX,
        ensures
            final(self)@ == provider_recorded(old(self)@, progress@),
            sequences@.len() == final(self).sequence - old(self).sequence,
            forall|i: int|
                0 <= i < sequences@.len() ==> #[trigger] sequences@[i] == old(self).sequence + 1 + i,
    {
        let ghost first = self.sequence;
        let mut providers: Vec<ProviderPreparationProgress> = Vec::new();
        std::mem::swap(&mut providers, &mut self.snapshot.providers);
        self.snapshot.providers = update_provider_snapshot(providers, progress);
        let mut sequences: Vec<u64> = Vec::new();
        let sequence: u64 = self.send(
            ProgressTarget::Current,
            ProgressEventKind::ProviderPreparation(progress.clone()),
        );
        sequences.push(sequence);
        let ghost started = self@;
        let ghost memberships = self@.memberships;
        let ghost held = self.revision_providers;
        let mut i: usize = 0;
        assert(memberships.take(0) =~= Seq::empty());
        while i < self.revision_providers.len()
            invariant
                i <= held@.len(),
                self.revision_providers == held,
                memberships == crate::list::views(held@),
                self@ == told(started, progress@, memberships.take(i as int)),
                first + 1 + held@.len() <= u64::MAX,
                first < self.sequence <= first + 1 + i,
                sequences@.len() == self.sequence - first,
                forall|k: int|
                    0 <= k < sequences@.len() ==> #[trigger] sequences@[k] == first + 1 + k,
            decreases held@.len() - i,
        {
            let ghost next = memberships.take(i + 1);
            assert(next.drop_last() =~= memberships.take(i as int));
            assert(next.last() == held@[i as int]@);
            let revision = self.revision_providers[i].revision;
            let names = find_provider_names(
                &self.revision_providers[i].providers,
                progress.digest,
            );
            if let Some(names) = names {
                let mut payload = progress.clone();
                payload.resource_names = names;
                let sequence: u64 = self.send(
                    ProgressTarget::DesiredRevision(revision),
                    ProgressEventKind::ProviderPreparation(payload),
                );
                sequences.push(sequence);
            }
            i = i + 1;
        }
        assert(memberships.take(i as int) =~= memberships);
        sequences
    }

    /// Records a serving stage of a revision.
    pub fn record_serving_for_revision(&mut self, revision: ResourceRevision, progress: ServingProgress) -> (sequence:
        u64)
        requires
            old(self).sequence < u64::MAX,
        ensures
            final(self)@ == serving_recorded(old(self)@, revision, progress@),
            sequence == final(self).sequence,
    {
        if self.snapshot.desired_revision == revision {
            self.snapshot.serving = Some(progress.clone());
        }
        self.send(
            ProgressTarget::DesiredRevision(revision),
            ProgressEventKind::ServingProgress(progress),
        )
    }

    /// Records a serving stage of an action.
    pub fn record_action_serving(&mut self, action: ActionId, progress: ServingProgress) -> (sequence: u64)
        requires
            old(self).sequence < u64::MAX,
        ensures
            final(self)@ == action_serving_recorded(old(self)@, action, progress@),
            sequence == final(self).sequence,
    {
        let ghost recorded = self.action_serving@;
        let entry = ActionServing { action, progress: progress.clone() };
        let mut at: usize = 0;
        while at < self.action_serving.len() && self.action_serving[at].action != action
            invariant
                at <= recorded.len(),
                self.action_serving@ == recorded,
                *self == *old(self),
                forall|j: int| 0 <= j < at ==> (#[trigger] recorded[j]).action != action,
            decreases recorded.len() - at,
        {
            at = at + 1;
        }
        if at < self.action_serving.len() {
            proof {
                assert forall|other: ActionId|
                    crate::progress::serving_of(recorded.update(at as int, entry), other) == (
                    if other == action {
                        Some(progress@)
                    } else {
                        crate::progress::serving_of(recorded, other)
                    }) by {
                    serving_after_update(recorded, at as int, entry, other);
                }
            }
            self.action_serving.set(at, entry);
        } else {
            proof {
                assert forall|other: ActionId|
                    crate::progress::serving_of(recorded.push(entry), other) == (if other
                        == action {
                        Some(progress@)
                    } else {
                        crate::progress::serving_of(recorded, other)
                    }) by {
                    serving_after_push(recorded, entry, other);
                    serving_is_absent(recorded, action);
                }
            }
            self.action_serving.push(entry);
        }
        self.send(ProgressTarget::Action(action), ProgressEventKind::ServingProgress(progress))
    }

    /// Records the receipt of an action and publishes the snapshot with it.
    pub fn record_action_receipt(&mut self, receipt: ActionReceipt) -> (sequence: u64)
        requires
            old(self).sequence < u64::MAX,
        ensures
            final(self)@ == receipt_recorded(old(self)@, receipt@),
            sequence == final(self).sequence,
    {
        let action = receipt.action_id;
        let mut actions: Vec<ActionReceipt> = Vec::new();
        std::mem::swap(&mut actions, &mut self.snapshot.actions);
        let test = |current: &ActionReceipt| -> (keep: bool)
            ensures
                keep == (current@.action_id != action),
        {
            current.action_id != action
        };
        let mut actions = kept(
            actions,
            test,
            Ghost(|current: ReceiptView| current.action_id != receipt@.action_id),
        );
        proof {
            pushed_views(actions@, receipt);
        }
        actions.push(receipt);
        self.snapshot.actions = sort(actions);
        let shown = self.snapshot.clone();
        self.send(ProgressTarget::Action(action), ProgressEventKind::Snapshot(shown))
    }

    /// Records the progress of a credential.
    pub fn record_credential(&mut self, target: ProgressTarget, progress: CredentialProgress) -> (sequence: u64)
        requires
            old(self).sequence < u64::MAX,
        ensures
            final(self)@ == credential_recorded(old(self)@, target, progress@),
            sequence == final(self).sequence,
    {
        let event = ProgressEventKind::CredentialProgress(progress.clone());
        let mut credentials: Vec<CredentialProgress> = Vec::new();
        std::mem::swap(&mut credentials, &mut self.snapshot.credentials);
        let test = |current: &CredentialProgress| -> (keep: bool)
            ensures
                keep == (current@.key != progress@.key),
        {
            !current.key.same(&progress.key)
        };
        let mut credentials = kept(
            credentials,
            test,
            Ghost(|current: CredentialView| current.key != progress@.key),
        );
        proof {
            pushed_views(credentials@, progress);
        }
        credentials.push(progress);
        self.snapshot.credentials = sort(credentials);
        self.send(target, event)
    }

    /// Records the progress of a filesystem.
    pub fn record_filesystem(&mut self, target: ProgressTarget, progress: FilesystemProgress) -> (sequence: u64)
        requires
            old(self).sequence < u64::MAX,
        ensures
            final(self)@ == filesystem_recorded(old(self)@, target, progress@),
            sequence == final(self).sequence,
    {
        let event = ProgressEventKind::FilesystemProgress(progress.clone());
        let mut filesystems: Vec<FilesystemProgress> = Vec::new();
        std::mem::swap(&mut filesystems, &mut self.snapshot.filesystems);
        let test = |current: &FilesystemProgress| -> (keep: bool)
            ensures
                keep == (current@.key != progress@.key),
        {
            !current.key.same(&progress.key)
        };
        let mut filesystems = kept(
            filesystems,
            test,
            Ghost(|current: FilesystemView| current.key != progress@.key),
        );
        proof {
            pushed_views(filesystems@, progress);
        }
        filesystems.push(progress);
        self.snapshot.filesystems = sort(filesystems);
        self.send(target, event)
    }

    /// What a watcher of a target sees now, and the number of the last event
    /// that it includes.
    pub fn snapshot_for(&self, target: ProgressTarget) -> (seen_now: (u64, ProgressSnapshot))
        ensures
            seen_now.0 == self.sequence,
            seen_now.1@ == seen(self@, target),
    {
        (
            self.sequence,
            filter_snapshot(&self.snapshot, target, &self.revision_providers, &self.action_serving),
        )
    }

    /// How a target stands.
    pub fn target_state(&self, target: ProgressTarget) -> (state: ProgressTargetState)
        ensures
            state == crate::progress::state_of(self.snapshot@, target),
    {
        target_state(&self.snapshot, target)
    }
}

proof fn serving_is_absent(recorded: Seq<ActionServing>, action: ActionId)
    ensures
        (forall|j: int| 0 <= j < recorded.len() ==> (#[trigger] recorded[j]).action != action)
            ==> crate::progress::serving_of(recorded, action) is None,
    decreases recorded.len(),
{
    if recorded.len() > 0 && (forall|j: int|
        0 <= j < recorded.len() ==> (#[trigger] recorded[j]).action != action) {
        assert forall|j: int| 0 <= j < recorded.skip(1).len() implies (#[trigger] recorded.skip(
            1,
        )[j]).action != action by {
            assert(recorded.skip(1)[j] == recorded[j + 1]);
        }
        serving_is_absent(recorded.skip(1), action);
    }
}

/// Replaces one artifact in a list and carries the newest counts to all.
fn update_provider_snapshot(
    providers: Vec<ProviderPreparationProgress>,
    progress: &ProviderPreparationProgress,
) -> (updated: Vec<ProviderPreparationProgress>)
    ensures
        crate::list::views(updated@) == with_provider(crate::list::views(providers@), progress@),
{
    let digest = progress.digest;
    let test = |current: &ProviderPreparationProgress| -> (keep: bool)
        ensures
            keep == (current@.digest != digest),
    {
        current.digest != digest
    };
    let mut listed = kept(
        providers,
        test,
        Ghost(|current: ProviderView| current.digest != progress@.digest),
    );
    let newest = progress.clone();
    proof {
        pushed_views(listed@, newest);
    }
    listed.push(newest);
    let ghost whole = listed@;
    let ghost all = crate::list::views(whole);
    let ghost carry = |current: ProviderView|
        ProviderView {
            queued_digests: progress@.queued_digests,
            active_digests: progress@.active_digests,
            completed_digests: progress@.completed_digests,
            ..current
        };
    let mut counted: Vec<ProviderPreparationProgress> = Vec::new();
    assert(crate::list::views(counted@) =~= all.take(0).map_values(carry));
    for current in it: listed
        invariant
            it.seq() == whole,
            all == crate::list::views(whole),
            carry == (|current: ProviderView|
                ProviderView {
                    queued_digests: progress@.queued_digests,
                    active_digests: progress@.active_digests,
                    completed_digests: progress@.completed_digests,
                    ..current
                }),
            crate::list::views(counted@) == all.take(it.index() as int).map_values(carry),
    {
        let ghost i = it.index() as int;
        let ghost before = counted@;
        assert(all[i] == current@);
        let mut current = current;
        current.queued_digests = progress.queued_digests;
        current.active_digests = progress.active_digests;
        current.completed_digests = progress.completed_digests;
        assert(current@ == carry(all[i]));
        proof {
            pushed_views(before, current);
        }
        counted.push(current);
        assert(all.take(i + 1).map_values(carry) =~= all.take(i).map_values(carry).push(
            carry(all[i]),
        ));
    }
    assert(all.take(all.len() as int) =~= all);
    sort(counted)
}

} // verus!
