//! When a watched target is ready, failed or superseded, and what its watcher is
//! shown.
use crate::name::{ActionId, ResourceRevision};
use crate::progress::subscription::Subscription;
use crate::progress::{
    EventView, HubView, KindView, MembershipView, NamesView, ProgressTarget, ProgressTargetState,
    SnapshotView,
};
use crate::records::{
    ActionPhase, CredentialView, FilesystemView, ProviderView, ReceiptView, ResourcePhase,
    ServingProgressStage, StatusView,
};
use vstd::prelude::*;

verus! {

/// A revision is ready exactly when it is the desired one, it or a later one is
/// served, each of its resources is ready, and its generation has not failed.
pub proof fn a_revision_is_ready_once_all_of_it_is(
    snapshot: SnapshotView,
    revision: ResourceRevision,
)
    ensures
        crate::progress::state_of(snapshot, ProgressTarget::DesiredRevision(revision))
            == ProgressTargetState::Ready <==> {
            &&& snapshot.desired_revision.value == revision.value
            &&& snapshot.observed_revision matches Some(observed) && observed.value >= revision.value
            &&& forall|i: int|
                0 <= i < snapshot.resources.len() && (#[trigger] snapshot.resources[i]).desired_revision
                    == revision ==> snapshot.resources[i].phase == ResourcePhase::Ready
            &&& !(snapshot.serving matches Some(serving) && serving.revision == revision
                && serving.stage == ServingProgressStage::Failed)
        },
{
}

/// The desired revision fails with any of its resources that is failed or blocked,
/// and with its generation. It is superseded by a later one, and not there before it
/// is desired. In every other case it is watched on.
pub proof fn a_revision_fails_with_any_part_of_it(
    snapshot: SnapshotView,
    revision: ResourceRevision,
)
    ensures
        ({
            let state = crate::progress::state_of(
                snapshot,
                ProgressTarget::DesiredRevision(revision),
            );
            let broken = (exists|i: int|
                0 <= i < snapshot.resources.len() && (#[trigger] snapshot.resources[i]).desired_revision
                    == revision && (snapshot.resources[i].phase == ResourcePhase::Failed
                    || snapshot.resources[i].phase == ResourcePhase::Blocked)) || (snapshot.serving
                matches Some(serving) && serving.revision == revision && serving.stage
                == ServingProgressStage::Failed);
            &&& state == ProgressTargetState::Superseded <==> snapshot.desired_revision.value
                > revision.value
            &&& state == ProgressTargetState::Unavailable <==> snapshot.desired_revision.value
                < revision.value
            &&& state == ProgressTargetState::Failed <==> snapshot.desired_revision.value
                == revision.value && broken
            &&& state != ProgressTargetState::Current
        }),
{
}

/// An action stands as its first receipt says: ready, failed, or still watched; one
/// without a receipt is not there.
pub proof fn an_action_stands_as_its_receipt(snapshot: SnapshotView, action: ActionId, at: int)
    requires
        0 <= at <= snapshot.actions.len(),
        forall|i: int| 0 <= i < at ==> (#[trigger] snapshot.actions[i]).action_id != action,
        at < snapshot.actions.len() ==> snapshot.actions[at].action_id == action,
    ensures
        crate::progress::state_of(snapshot, ProgressTarget::Action(action)) == (if at
            == snapshot.actions.len() {
            ProgressTargetState::Unavailable
        } else if snapshot.actions[at].phase == ActionPhase::Ready {
            ProgressTargetState::Ready
        } else if snapshot.actions[at].phase == ActionPhase::Failed {
            ProgressTargetState::Failed
        } else {
            ProgressTargetState::Watching
        }),
{
    the_first_receipt_is_found(snapshot.actions, action, at);
}

proof fn the_first_receipt_is_found(actions: Seq<ReceiptView>, action: ActionId, at: int)
    requires
        0 <= at <= actions.len(),
        forall|i: int| 0 <= i < at ==> (#[trigger] actions[i]).action_id != action,
        at < actions.len() ==> actions[at].action_id == action,
    ensures
        crate::progress::first_receipt(actions, action) == (if at < actions.len() {
            Some(actions[at])
        } else {
            None
        }),
    decreases actions.len(),
{
    if at > 0 {
        let rest = actions.skip(1);
        assert forall|i: int| 0 <= i < at - 1 implies (#[trigger] rest[i]).action_id != action by {
            assert(rest[i] == actions[i + 1]);
        }
        assert(actions[0].action_id != action);
        the_first_receipt_is_found(rest, action, at - 1);
    }
}

/// A stream ends with a target that is ready, failed or superseded, and never while
/// the target is watched, is not there yet, or is whatever is current.
pub proof fn a_stream_ends_with_its_target(
    snapshot: SnapshotView,
    target: ProgressTarget,
    event: EventView,
)
    ensures
        ({
            let state = crate::progress::state_of(snapshot, target);
            crate::progress::is_final(state) <==> (state == ProgressTargetState::Ready || state
                == ProgressTargetState::Failed || state == ProgressTargetState::Superseded)
        }),
        crate::progress::state_of(snapshot, ProgressTarget::Current) == ProgressTargetState::Current,
        crate::progress::ends(event, target) <==> event.target == target && (match target {
            ProgressTarget::Current => false,
            ProgressTarget::DesiredRevision(_) => match event.event {
                KindView::RevisionReady(_) => true,
                KindView::RevisionFailed { .. } => true,
                KindView::RevisionSuperseded { .. } => true,
                _ => false,
            },
            ProgressTarget::Action(_) => match event.event {
                KindView::ActionCompleted(_) => true,
                KindView::ActionFailed { .. } => true,
                _ => false,
            },
        }),
{
}

/// A watcher of everything is sent every newer event; a watcher of one target every
/// newer event of that target and of no other.
pub proof fn a_watcher_is_sent_what_it_follows(subscription: Subscription, event: EventView)
    ensures
        crate::progress::subscription::wants(subscription, event) <==> event.sequence
            > subscription.watermark && (subscription.target is Current || subscription.target
            == event.target),
{
}

/// A snapshot opens a stream, and a missed stretch is made up for, with all that the
/// watcher may see now, under the hub's present number.
pub proof fn a_stream_opens_with_what_is_known(hub: HubView, target: ProgressTarget)
    ensures
        ({
            let opening = crate::progress::subscription::opening(hub, target);
            let resync = crate::progress::subscription::resync(hub, target);
            let seen = crate::progress::hub::seen(hub, target);
            &&& opening.sequence == hub.sequence && resync.sequence == hub.sequence
            &&& opening.target == target && resync.target == target
            &&& opening.daemon_instance_id == hub.daemon_instance_id
            &&& opening.event == KindView::Snapshot(seen)
            &&& resync.event == KindView::Resync(seen)
            &&& seen.desired_revision == hub.snapshot.desired_revision
            &&& seen.observed_revision == hub.snapshot.observed_revision
            &&& target is Current ==> seen == hub.snapshot
        }),
{
}

/// A watcher of a revision sees each resource of the revision, and each credential
/// and filesystem that goes by the name of one of them; nothing of these is left
/// out or added.
pub proof fn a_revision_sees_all_of_its_own(
    hub: HubView,
    revision: ResourceRevision,
    status: StatusView,
    credential: CredentialView,
    filesystem: FilesystemView,
)
    ensures
        ({
            let seen = crate::progress::hub::seen(hub, ProgressTarget::DesiredRevision(revision));
            let named = |name: Seq<char>|
                exists|i: int|
                    0 <= i < hub.snapshot.resources.len() && (#[trigger] hub.snapshot.resources[i]).key.name
                        == name && hub.snapshot.resources[i].desired_revision == revision;
            &&& seen.resources.contains(status) <==> hub.snapshot.resources.contains(status)
                && status.desired_revision == revision
            &&& seen.credentials.contains(credential) <==> hub.snapshot.credentials.contains(
                credential,
            ) && named(credential.key.name)
            &&& seen.filesystems.contains(filesystem) <==> hub.snapshot.filesystems.contains(
                filesystem,
            ) && named(filesystem.key.name)
            &&& seen.serving == (if hub.snapshot.serving matches Some(serving) && serving.revision
                == revision {
                hub.snapshot.serving
            } else {
                None
            })
        }),
{
    let all = hub.snapshot.resources;
    let keep = |status: StatusView| status.desired_revision == revision;
    let mine = all.filter(keep);
    kept_is_contained(all, keep);
    let by_credential = |progress: CredentialView|
        crate::progress::names_a_resource(mine, progress.key.name);
    let by_filesystem = |progress: FilesystemView|
        crate::progress::names_a_resource(mine, progress.key.name);
    kept_is_contained(hub.snapshot.credentials, by_credential);
    kept_is_contained(hub.snapshot.filesystems, by_filesystem);
    assert forall|name: Seq<char>| #[trigger] crate::progress::names_a_resource(mine, name) <==> exists|
        i: int|
        0 <= i < all.len() && (#[trigger] all[i]).key.name == name && all[i].desired_revision
            == revision by {
        if crate::progress::names_a_resource(mine, name) {
            let k = choose|k: int| 0 <= k < mine.len() && (#[trigger] mine[k]).key.name == name;
            assert(mine.contains(mine[k]));
            assert(all.contains(mine[k]));
            let i = choose|i: int| 0 <= i < all.len() && all[i] == mine[k];
            assert(all[i].key.name == name);
        }
        if exists|i: int|
            0 <= i < all.len() && (#[trigger] all[i]).key.name == name && all[i].desired_revision
                == revision {
            let i = choose|i: int|
                0 <= i < all.len() && (#[trigger] all[i]).key.name == name
                    && all[i].desired_revision == revision;
            assert(all.contains(all[i]));
            assert(mine.contains(all[i]));
            let k = choose|k: int| 0 <= k < mine.len() && mine[k] == all[i];
            assert(mine[k].key.name == name);
        }
    }
}

/// A watcher of an action sees its receipts, and what is known of exactly the
/// resource that it is about.
pub proof fn an_action_sees_what_it_is_about(
    hub: HubView,
    action: ActionId,
    at: int,
    receipt: ReceiptView,
    status: StatusView,
    filesystem: FilesystemView,
    credential: CredentialView,
)
    requires
        0 <= at < hub.snapshot.actions.len(),
        hub.snapshot.actions[at].action_id == action,
        forall|i: int| 0 <= i < at ==> (#[trigger] hub.snapshot.actions[i]).action_id != action,
    ensures
        ({
            let seen = crate::progress::hub::seen(hub, ProgressTarget::Action(action));
            let about = hub.snapshot.actions[at].target;
            &&& seen.actions.contains(receipt) <==> hub.snapshot.actions.contains(receipt)
                && receipt.action_id == action
            &&& seen.resources.contains(status) <==> hub.snapshot.resources.contains(status)
                && status.key == about
            &&& seen.filesystems.contains(filesystem) <==> hub.snapshot.filesystems.contains(
                filesystem,
            ) && filesystem.key == about
            &&& seen.credentials.contains(credential) <==> hub.snapshot.credentials.contains(
                credential,
            ) && credential.key == about
            &&& seen.providers.len() == 0
            &&& seen.serving == (hub.action_serving)(action)
        }),
{
    let mine = |receipt: ReceiptView| receipt.action_id == action;
    let actions = hub.snapshot.actions.filter(mine);
    the_first_kept_is_first(hub.snapshot.actions, mine, at);
    let affected: Option<crate::name::KeyView> = if actions.len() == 0 {
        None
    } else {
        Some(actions[0].target)
    };
    assert(affected == Some(hub.snapshot.actions[at].target));
    kept_is_contained(hub.snapshot.actions, mine);
    kept_is_contained(
        hub.snapshot.resources,
        |status: StatusView| affected == Some(status.key),
    );
    kept_is_contained(
        hub.snapshot.credentials,
        |progress: CredentialView| affected == Some(progress.key),
    );
    kept_is_contained(
        hub.snapshot.filesystems,
        |progress: FilesystemView| affected == Some(progress.key),
    );
}

proof fn kept_is_contained<V>(items: Seq<V>, keep: spec_fn(V) -> bool)
    ensures
        forall|item: V| #[trigger] items.filter(keep).contains(item) <==> items.contains(item) && keep(
            item,
        ),
{
    let kept = items.filter(keep);
    assert forall|item: V| #[trigger] kept.contains(item) <==> items.contains(item) && keep(item) by {
        if kept.contains(item) {
            items.lemma_filter_contains_rev(keep, item);
            items.lemma_filter_pred(keep, choose|k: int| 0 <= k < kept.len() && kept[k] == item);
        }
        if items.contains(item) && keep(item) {
            let k = choose|k: int| 0 <= k < items.len() && items[k] == item;
            items.lemma_filter_contains(keep, k);
        }
    }
}

proof fn the_first_kept_is_first<V>(items: Seq<V>, keep: spec_fn(V) -> bool, at: int)
    requires
        0 <= at < items.len(),
        keep(items[at]),
        forall|i: int| 0 <= i < at ==> !keep(#[trigger] items[i]),
    ensures
        items.filter(keep).len() > 0,
        items.filter(keep)[0] == items[at],
    decreases items.len(),
{
    let rest = items.skip(1);
    rest.lemma_filter_prepend(items[0], keep);
    assert(seq![items[0]] + rest =~= items);
    if at > 0 {
        assert(!keep(items[0]));
        assert forall|i: int| 0 <= i < at - 1 implies !keep(#[trigger] rest[i]) by {
            assert(rest[i] == items[i + 1]);
        }
        the_first_kept_is_first(rest, keep, at - 1);
    }
}

/// What is recorded is told to those who follow it: each record adds one event with
/// the record in it, for the target that it is about, and stands in the snapshot.
pub proof fn what_is_recorded_is_told(
    hub: HubView,
    target: ProgressTarget,
    revision: ResourceRevision,
    progress: crate::records::ServingView,
    receipt: ReceiptView,
    credential: CredentialView,
    filesystem: FilesystemView,
)
    requires
        hub.sequence < u64::MAX,
    ensures
        ({
            let served = crate::progress::hub::serving_recorded(hub, revision, progress);
            let received = crate::progress::hub::receipt_recorded(hub, receipt);
            let credited = crate::progress::hub::credential_recorded(hub, target, credential);
            let filed = crate::progress::hub::filesystem_recorded(hub, target, filesystem);
            &&& served.outbox.len() == hub.outbox.len() + 1 && served.outbox.last().target
                == ProgressTarget::DesiredRevision(revision) && served.outbox.last().event
                == KindView::ServingProgress(progress)
            &&& hub.snapshot.desired_revision == revision ==> served.snapshot.serving == Some(
                progress,
            )
            &&& received.outbox.len() == hub.outbox.len() + 1 && received.outbox.last().target
                == ProgressTarget::Action(receipt.action_id) && received.outbox.last().event
                == KindView::Snapshot(received.snapshot)
            &&& received.snapshot.actions.contains(receipt)
            &&& forall|other: ReceiptView|
                other.action_id != receipt.action_id ==> (#[trigger] received.snapshot.actions.contains(
                    other,
                ) <==> hub.snapshot.actions.contains(other))
            &&& forall|other: ReceiptView|
                other.action_id == receipt.action_id && #[trigger] received.snapshot.actions.contains(
                    other,
                ) ==> other == receipt
            &&& credited.outbox.len() == hub.outbox.len() + 1 && credited.outbox.last().target == target
                && credited.outbox.last().event == KindView::CredentialProgress(credential)
            &&& credited.snapshot.credentials.contains(credential)
            &&& filed.outbox.len() == hub.outbox.len() + 1 && filed.outbox.last().target == target
                && filed.outbox.last().event == KindView::FilesystemProgress(filesystem)
            &&& filed.snapshot.filesystems.contains(filesystem)
            &&& forall|other: FilesystemView|
                other.key != filesystem.key ==> (#[trigger] filed.snapshot.filesystems.contains(other)
                    <==> hub.snapshot.filesystems.contains(other))
            &&& forall|other: CredentialView|
                other.key != credential.key ==> (#[trigger] credited.snapshot.credentials.contains(
                    other,
                ) <==> hub.snapshot.credentials.contains(other))
        }),
{
    let others = |current: ReceiptView| current.action_id != receipt.action_id;
    kept_is_contained(hub.snapshot.actions, others);
    pushed_holds_both(hub.snapshot.actions.filter(others), receipt);
    crate::order::sorted_is_in_order::<crate::records::ActionReceipt>(
        hub.snapshot.actions.filter(others).push(receipt),
    );
    sorted_holds_the_same(
        hub.snapshot.actions.filter(others).push(receipt),
        crate::progress::hub::receipt_recorded(hub, receipt).snapshot.actions,
    );
    let others = |current: CredentialView| current.key != credential.key;
    kept_is_contained(hub.snapshot.credentials, others);
    crate::order::sorted_is_in_order::<crate::records::CredentialProgress>(
        hub.snapshot.credentials.filter(others).push(credential),
    );
    sorted_holds_the_same(
        hub.snapshot.credentials.filter(others).push(credential),
        crate::progress::hub::credential_recorded(hub, target, credential).snapshot.credentials,
    );
    pushed_holds_both(hub.snapshot.credentials.filter(others), credential);
    let others = |current: FilesystemView| current.key != filesystem.key;
    kept_is_contained(hub.snapshot.filesystems, others);
    crate::order::sorted_is_in_order::<crate::records::FilesystemProgress>(
        hub.snapshot.filesystems.filter(others).push(filesystem),
    );
    sorted_holds_the_same(
        hub.snapshot.filesystems.filter(others).push(filesystem),
        crate::progress::hub::filesystem_recorded(hub, target, filesystem).snapshot.filesystems,
    );
    pushed_holds_both(hub.snapshot.filesystems.filter(others), filesystem);
}

proof fn pushed_holds_both<V>(items: Seq<V>, item: V)
    ensures
        forall|other: V| #[trigger] items.push(item).contains(other) <==> items.contains(other)
            || other == item,
{
    let after = items.push(item);
    assert forall|other: V| #[trigger] after.contains(other) <==> items.contains(other) || other
        == item by {
        if items.contains(other) {
            let k = choose|k: int| 0 <= k < items.len() && items[k] == other;
            assert(after[k] == other);
        }
        if other == item {
            assert(after[items.len() as int] == other);
        }
    }
}

proof fn sorted_holds_the_same<V>(items: Seq<V>, listed: Seq<V>)
    requires
        items.to_multiset() == listed.to_multiset(),
    ensures
        forall|item: V| #[trigger] listed.contains(item) <==> items.contains(item),
{
    broadcast use vstd::seq_lib::group_to_multiset_ensures;

    assert forall|item: V| #[trigger] listed.contains(item) <==> items.contains(item) by {
        assert(listed.contains(item) <==> listed.to_multiset().count(item) > 0);
        assert(items.contains(item) <==> items.to_multiset().count(item) > 0);
    }
}

/// Recording an artifact shows it in place of what was known of it, and what is known
/// of every other as it was; the counts of all are the newest.
pub proof fn an_artifact_is_shown_with_the_newest_counts(
    providers: Seq<ProviderView>,
    progress: ProviderView,
    known: ProviderView,
)
    ensures
        ({
            let after = crate::progress::hub::with_provider(providers, progress);
            let renewed = ProviderView {
                queued_digests: progress.queued_digests,
                active_digests: progress.active_digests,
                completed_digests: progress.completed_digests,
                ..known
            };
            &&& after.contains(progress)
            &&& known.digest != progress.digest && providers.contains(known) ==> after.contains(
                renewed,
            )
            &&& known.digest == progress.digest && after.contains(known) ==> known == progress
            &&& after.contains(known) ==> known.queued_digests == progress.queued_digests
                && known.active_digests == progress.active_digests && known.completed_digests
                == progress.completed_digests
        }),
{
    let others = |current: ProviderView| current.digest != progress.digest;
    let kept = providers.filter(others);
    let all = kept.push(progress);
    let renew = |current: ProviderView|
        ProviderView {
            queued_digests: progress.queued_digests,
            active_digests: progress.active_digests,
            completed_digests: progress.completed_digests,
            ..current
        };
    let renewed = all.map_values(renew);
    let after = crate::progress::hub::with_provider(providers, progress);
    kept_is_contained(providers, others);
    pushed_holds_both(kept, progress);
    crate::order::sorted_is_in_order::<crate::records::ProviderPreparationProgress>(renewed);
    assert(after == crate::order::sorted::<crate::records::ProviderPreparationProgress>(renewed));
    sorted_holds_the_same(renewed, after);
    assert(renewed[kept.len() as int] == progress);
    if known.digest != progress.digest && providers.contains(known) {
        assert(all.contains(known));
        let k = choose|k: int| 0 <= k < all.len() && all[k] == known;
        assert(renewed[k] == renew(known));
    }
    if after.contains(known) {
        let k = choose|k: int| 0 <= k < renewed.len() && renewed[k] == known;
        assert(renewed[k] == renew(all[k]));
        assert(all.contains(all[k]));
        if known.digest == progress.digest {
            assert(all[k].digest == progress.digest);
            assert(!kept.contains(all[k]));
            assert(all[k] == progress);
        }
    }
}

proof fn telling_keeps_what_was_told(
    hub: HubView,
    progress: ProviderView,
    memberships: Seq<MembershipView>,
)
    requires
        hub.sequence + memberships.len() <= u64::MAX,
    ensures
        ({
            let after = crate::progress::hub::told(hub, progress, memberships);
            &&& after.snapshot == hub.snapshot && after.memberships == hub.memberships
            &&& hub.outbox.len() <= after.outbox.len() <= hub.outbox.len() + memberships.len()
            &&& after.outbox.take(hub.outbox.len() as int) == hub.outbox
            &&& after.sequence == hub.sequence + (after.outbox.len() - hub.outbox.len())
        }),
    decreases memberships.len(),
{
    if memberships.len() > 0 {
        telling_keeps_what_was_told(hub, progress, memberships.drop_last());
        let before = crate::progress::hub::told(hub, progress, memberships.drop_last());
        let after = crate::progress::hub::told(hub, progress, memberships);
        if after != before {
            assert(after.outbox.drop_last() =~= before.outbox);
        }
        assert(after.outbox.take(hub.outbox.len() as int) =~= before.outbox.take(
            hub.outbox.len() as int,
        ));
    } else {
        assert(hub.outbox.take(hub.outbox.len() as int) =~= hub.outbox);
    }
}

/// Every revision that uses an artifact is told of it, under the names that the
/// revision has for it; a revision that does not use it is not.
pub proof fn a_revision_is_told_of_the_artifacts_it_uses(
    hub: HubView,
    progress: ProviderView,
    memberships: Seq<MembershipView>,
    at: int,
    k: int,
)
    requires
        hub.sequence + memberships.len() <= u64::MAX,
    ensures
        ({
            let after = crate::progress::hub::told(hub, progress, memberships);
            &&& 0 <= at < memberships.len() && crate::progress::names_of(
                memberships[at].providers,
                progress.digest,
            ) is Some ==> exists|i: int|
                hub.outbox.len() <= i < after.outbox.len() && (#[trigger] after.outbox[i]).target
                    == ProgressTarget::DesiredRevision(memberships[at].revision)
                    && after.outbox[i].event == KindView::ProviderPreparation(
                    ProviderView {
                        resource_names: crate::progress::names_of(
                            memberships[at].providers,
                            progress.digest,
                        )->0,
                        ..progress
                    },
                )
            &&& hub.outbox.len() <= k < after.outbox.len() ==> exists|m: int|
                0 <= m < memberships.len() && after.outbox[k].target
                    == ProgressTarget::DesiredRevision((#[trigger] memberships[m]).revision)
                    && crate::progress::names_of(memberships[m].providers, progress.digest) is Some
        }),
    decreases memberships.len(),
{
    if memberships.len() > 0 {
        let front = memberships.drop_last();
        let last = memberships.len() - 1;
        a_revision_is_told_of_the_artifacts_it_uses(hub, progress, front, at, k);
        telling_keeps_what_was_told(hub, progress, front);
        let before = crate::progress::hub::told(hub, progress, front);
        let after = crate::progress::hub::told(hub, progress, memberships);
        if 0 <= at < memberships.len() && crate::progress::names_of(
            memberships[at].providers,
            progress.digest,
        ) is Some {
            if at == last {
                assert(after.outbox[before.outbox.len() as int].target
                    == ProgressTarget::DesiredRevision(memberships[at].revision));
            } else {
                assert(front[at] == memberships[at]);
                let i = choose|i: int|
                    hub.outbox.len() <= i < before.outbox.len() && (
                    #[trigger] before.outbox[i]).target == ProgressTarget::DesiredRevision(
                        front[at].revision,
                    ) && before.outbox[i].event == KindView::ProviderPreparation(
                        ProviderView {
                            resource_names: crate::progress::names_of(
                                front[at].providers,
                                progress.digest,
                            )->0,
                            ..progress
                        },
                    );
                assert(after.outbox[i] == before.outbox[i]);
            }
        }
        if hub.outbox.len() <= k < after.outbox.len() {
            if k < before.outbox.len() {
                let m = choose|m: int|
                    0 <= m < front.len() && before.outbox[k].target
                        == ProgressTarget::DesiredRevision((#[trigger] front[m]).revision)
                        && crate::progress::names_of(front[m].providers, progress.digest) is Some;
                assert(memberships[m] == front[m]);
                assert(after.outbox[k] == before.outbox[k]);
            } else {
                assert(after.outbox[k].target == ProgressTarget::DesiredRevision(
                    memberships[last].revision,
                ));
            }
        }
    }
}

/// The status of an artifact is told to everyone who follows the whole, as it is.
pub proof fn an_artifact_is_told_to_all(hub: HubView, progress: ProviderView)
    requires
        hub.sequence + 1 + hub.memberships.len() <= u64::MAX,
    ensures
        ({
            let after = crate::progress::hub::provider_recorded(hub, progress);
            let at = hub.outbox.len() as int;
            &&& after.outbox.len() > at && after.outbox[at].target == ProgressTarget::Current
            &&& after.outbox[at].event == KindView::ProviderPreparation(progress)
            &&& after.snapshot.providers == crate::progress::hub::with_provider(
                hub.snapshot.providers,
                progress,
            )
            &&& after.snapshot.desired_revision == hub.snapshot.desired_revision
            &&& after.snapshot.serving == hub.snapshot.serving
            &&& after.snapshot.actions == hub.snapshot.actions
            &&& after.snapshot.filesystems == hub.snapshot.filesystems
            &&& after.snapshot.credentials == hub.snapshot.credentials
        }),
{
    let snapshot = SnapshotView {
        providers: crate::progress::hub::with_provider(hub.snapshot.providers, progress),
        ..hub.snapshot
    };
    let first = crate::progress::hub::sent(
        HubView { snapshot, ..hub },
        ProgressTarget::Current,
        KindView::ProviderPreparation(progress),
    );
    let at = hub.outbox.len() as int;
    telling_keeps_what_was_told(first, progress, hub.memberships);
    let after = crate::progress::hub::provider_recorded(hub, progress);
    assert(after.outbox.take(first.outbox.len() as int)[at] == first.outbox[at]);
}

/// A serving stage of an action is that action's alone.
pub proof fn an_action_is_served_on_its_own(
    hub: HubView,
    action: ActionId,
    other: ActionId,
    progress: crate::records::ServingView,
)
    ensures
        ({
            let after = crate::progress::hub::action_serving_recorded(hub, action, progress);
            &&& (after.action_serving)(action) == Some(progress)
            &&& other != action ==> (after.action_serving)(other) == (hub.action_serving)(other)
            &&& after.snapshot == hub.snapshot
            &&& after.outbox.last().target == ProgressTarget::Action(action)
            &&& after.outbox.last().event == KindView::ServingProgress(progress)
        }),
{
}

/// Registering what a revision uses replaces what was registered for it and forgets
/// what an earlier revision than the desired one used; everything else stays.
pub proof fn a_revision_is_registered_with_what_it_uses(
    memberships: Seq<MembershipView>,
    revision: ResourceRevision,
    providers: Seq<NamesView>,
    current: ResourceRevision,
    known: MembershipView,
    i: int,
)
    requires
        crate::order::in_order::<crate::progress::RevisionProviders>(
            memberships.filter(|known: MembershipView| known.revision != revision),
        ),
    ensures
        ({
            let after = crate::progress::hub::registered(memberships, revision, providers, current);
            let own = MembershipView {
                revision,
                providers: crate::progress::hub::tidied_members(providers),
            };
            &&& revision.value >= current.value ==> after.contains(own)
            &&& after.contains(known) && known.revision == revision ==> known == own
            &&& known.revision != revision ==> (after.contains(known) <==> memberships.contains(known)
                && known.revision.value >= current.value)
            &&& 0 <= i < providers.len() ==> own.providers[i].digest == providers[i].digest
                && own.providers[i].names == crate::progress::tidied(providers[i].names)
            &&& own.providers.len() == providers.len()
        }),
{
    broadcast use vstd::seq_lib::group_to_multiset_ensures;

    let others = |known: MembershipView| known.revision != revision;
    let recent = |known: MembershipView| known.revision.value >= current.value;
    let own = MembershipView {
        revision,
        providers: crate::progress::hub::tidied_members(providers),
    };
    let kept = memberships.filter(others);
    let filed = crate::order::filed::<crate::progress::RevisionProviders>(kept, own);
    kept_is_contained(memberships, others);
    kept_is_contained(filed, recent);
    crate::order::filed_keeps_order::<crate::progress::RevisionProviders>(kept, own);
    assert forall|member: MembershipView| #[trigger] filed.contains(member) <==> kept.contains(member)
        || member == own by {
        assert(filed.contains(member) <==> filed.to_multiset().count(member) > 0);
        assert(kept.contains(member) <==> kept.to_multiset().count(member) > 0);
    }
    assert(filed.contains(own));
}

/// A watcher is sent an event under its own number and target; a snapshot in it holds
/// what this watcher may see, and anything else is sent as it was recorded.
pub proof fn an_event_is_sent_as_its_watcher_may_see_it(
    hub: HubView,
    event: EventView,
    target: ProgressTarget,
)
    ensures
        ({
            let sent = crate::progress::subscription::narrowed(hub, event, target);
            let seen = crate::progress::hub::seen(hub, target);
            &&& sent.sequence == event.sequence && sent.target == event.target
                && sent.daemon_instance_id == event.daemon_instance_id
            &&& event.event is Snapshot ==> sent.event == KindView::Snapshot(seen)
            &&& event.event is Resync ==> sent.event == KindView::Resync(seen)
            &&& !(event.event is Snapshot) && !(event.event is Resync) ==> sent.event == event.event
        }),
{
}

} // verus!
