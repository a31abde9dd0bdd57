//! What the hub keeps, whatever is recorded.
use crate::name::{ActionId, ResourceRevision};
use crate::progress::subscription::Subscription;
use crate::progress::{EventView, HubView, KindView, ProgressTarget};
use crate::records::{ProviderView, ReceiptView, ServingView, StatusView};
use vstd::prelude::*;

verus! {

/// Whether the waiting events are numbered upward, up to the hub's own number.
pub open spec fn numbered(hub: HubView) -> bool {
    &&& forall|i: int, j: int|
        #![trigger hub.outbox[i], hub.outbox[j]]
        0 <= i < j < hub.outbox.len() ==> hub.outbox[i].sequence < hub.outbox[j].sequence
    &&& forall|i: int|
        0 <= i < hub.outbox.len() ==> (#[trigger] hub.outbox[i]).sequence <= hub.sequence
}

/// Every event gets a number of its own, larger than all before it.
pub proof fn events_are_numbered_upward(hub: HubView, target: ProgressTarget, event: KindView)
    requires
        numbered(hub),
        hub.sequence < u64::MAX,
    ensures
        numbered(crate::progress::hub::sent(hub, target, event)),
        crate::progress::hub::sent(hub, target, event).sequence == hub.sequence + 1,
{
}

/// Telling every revision of a provider keeps the numbering, and tells at most
/// one event to each.
pub proof fn telling_keeps_the_numbering(
    hub: HubView,
    progress: ProviderView,
    memberships: Seq<crate::progress::MembershipView>,
)
    requires
        numbered(hub),
        hub.sequence + memberships.len() <= u64::MAX,
    ensures
        numbered(crate::progress::hub::told(hub, progress, memberships)),
        hub.sequence <= crate::progress::hub::told(hub, progress, memberships).sequence
            <= hub.sequence + memberships.len(),
        crate::progress::hub::told(hub, progress, memberships).snapshot == hub.snapshot,
    decreases memberships.len(),
{
    if memberships.len() > 0 {
        telling_keeps_the_numbering(hub, progress, memberships.drop_last());
        let before = crate::progress::hub::told(hub, progress, memberships.drop_last());
        if let Some(names) = crate::progress::names_of(
            memberships.last().providers,
            progress.digest,
        ) {
            events_are_numbered_upward(
                before,
                ProgressTarget::DesiredRevision(memberships.last().revision),
                KindView::ProviderPreparation(ProviderView { resource_names: names, ..progress }),
            );
        }
    }
}

/// A serving stage of a revision that is no longer the desired one never
/// reaches the snapshot.
pub proof fn stale_serving_leaves_the_snapshot(
    hub: HubView,
    revision: ResourceRevision,
    progress: ServingView,
)
    requires
        hub.snapshot.desired_revision != revision,
    ensures
        crate::progress::hub::serving_recorded(hub, revision, progress).snapshot == hub.snapshot,
{
}

/// A watcher that opened its stream before an event was published has not seen
/// it yet: nothing falls between its snapshot and the live events.
pub proof fn no_event_is_missed_after_opening(
    opened: HubView,
    target: ProgressTarget,
    event: KindView,
)
    requires
        opened.sequence < u64::MAX,
    ensures
        ({
            let after = crate::progress::hub::sent(opened, target, event);
            crate::progress::subscription::wants(
                Subscription { target, watermark: opened.sequence },
                after.outbox.last(),
            )
        }),
{
}

/// A watcher is never sent the same event twice, nor an older one after a
/// newer one.
pub proof fn deliveries_go_forward(subscription: Subscription, first: EventView, second: EventView)
    requires
        crate::progress::subscription::wants(subscription, first),
        crate::progress::subscription::wants(
            Subscription { watermark: first.sequence, ..subscription },
            second,
        ),
    ensures
        first.sequence < second.sequence,
{
}

/// A revision's watcher sees only resources of that revision, no actions, and
/// only providers that the revision registered.
pub proof fn a_revision_sees_only_its_own(hub: HubView, revision: ResourceRevision)
    ensures
        ({
            let seen = crate::progress::hub::seen(hub, ProgressTarget::DesiredRevision(revision));
            &&& forall|i: int|
                0 <= i < seen.resources.len() ==> (#[trigger] seen.resources[i]).desired_revision
                    == revision
            &&& seen.actions.len() == 0
            &&& forall|i: int|
                0 <= i < seen.providers.len() ==> crate::progress::names_of(
                    crate::progress::members_of(hub.memberships, revision),
                    (#[trigger] seen.providers[i]).digest,
                ) == Some(seen.providers[i].resource_names)
            &&& seen.serving matches Some(serving) ==> serving.revision == revision
        }),
{
    let keep = |status: StatusView| status.desired_revision == revision;
    broadcast use vstd::seq_lib::group_filter_ensures;

    let members = crate::progress::members_of(hub.memberships, revision);
    let member = |provider: ProviderView| crate::progress::names_of(members, provider.digest) is Some;
    let seen = crate::progress::hub::seen(hub, ProgressTarget::DesiredRevision(revision));
    assert forall|i: int| 0 <= i < seen.providers.len() implies crate::progress::names_of(
        members,
        (#[trigger] seen.providers[i]).digest,
    ) == Some(seen.providers[i].resource_names) by {
        let source = hub.snapshot.providers.filter(member);
        assert(member(source[i]));
    }
}

/// The serving stage recorded for an action is what its watcher sees, and a
/// later receipt of the action does not take it away.
pub proof fn an_action_keeps_its_serving_stage(
    hub: HubView,
    action: ActionId,
    progress: ServingView,
    receipt: ReceiptView,
)
    ensures
        ({
            let recorded = crate::progress::hub::action_serving_recorded(hub, action, progress);
            let after = crate::progress::hub::receipt_recorded(recorded, receipt);
            &&& crate::progress::hub::seen(recorded, ProgressTarget::Action(action)).serving == Some(
                progress,
            )
            &&& crate::progress::hub::seen(after, ProgressTarget::Action(action)).serving == Some(
                progress,
            )
        }),
{
}

/// What a watcher sees of a target shows it standing exactly as the whole
/// snapshot does.
pub proof fn a_narrowed_snapshot_stands_as_the_whole(hub: HubView, target: ProgressTarget)
    ensures
        crate::progress::state_of(crate::progress::hub::seen(hub, target), target)
            == crate::progress::state_of(hub.snapshot, target),
{
    match target {
        ProgressTarget::Current => {},
        ProgressTarget::Action(action) => {
            first_receipt_survives(hub.snapshot.actions, action);
        },
        ProgressTarget::DesiredRevision(revision) => {
            standing_survives(hub.snapshot.resources, revision);
        },
    }
}

proof fn first_receipt_survives(actions: Seq<ReceiptView>, action: ActionId)
    ensures
        crate::progress::first_receipt(
            actions.filter(|receipt: ReceiptView| receipt.action_id == action),
            action,
        ) == crate::progress::first_receipt(actions, action),
    decreases actions.len(),
{
    let keep = |receipt: ReceiptView| receipt.action_id == action;
    if actions.len() > 0 {
        let rest = actions.skip(1);
        first_receipt_survives(rest, action);
        rest.lemma_filter_prepend(actions[0], keep);
        assert(seq![actions[0]] + rest =~= actions);
        if keep(actions[0]) {
            assert(actions.filter(keep)[0] == actions[0]);
        }
    } else {
        reveal(Seq::filter);
    }
}

proof fn standing_survives(resources: Seq<StatusView>, revision: ResourceRevision)
    ensures
        ({
            let mine = resources.filter(|status: StatusView| status.desired_revision == revision);
            &&& crate::progress::has_failed(mine, revision) == crate::progress::has_failed(
                resources,
                revision,
            )
            &&& crate::progress::all_ready(mine, revision) == crate::progress::all_ready(
                resources,
                revision,
            )
        }),
{
    let keep = |status: StatusView| status.desired_revision == revision;
    let mine = resources.filter(keep);
    assert forall|i: int| 0 <= i < mine.len() implies exists|k: int|
        0 <= k < resources.len() && resources[k] == #[trigger] mine[i] by {
        resources.lemma_filter_contains_rev(keep, mine[i]);
        assert(mine.contains(mine[i]));
    }
    assert forall|k: int|
        0 <= k < resources.len() && keep(#[trigger] resources[k]) implies exists|i: int|
        0 <= i < mine.len() && mine[i] == resources[k] by {
        resources.lemma_filter_contains(keep, k);
        assert(mine.contains(resources[k]));
    }
}

} // verus!
