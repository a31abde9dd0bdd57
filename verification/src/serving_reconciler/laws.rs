//! What holds of serving reconciliation whatever is desired.
use crate::name::ProviderId;
use crate::progress::{HubView, NamesView, ProviderNames};
use crate::serving_reconciler::pass::{
    ServingPassView, ServingReplyView, ServingRequest, ServingStage,
};
use crate::serving_reconciler::{DesiredView, ProviderImport, MAX_RECONCILE_ATTEMPTS};
use vstd::prelude::*;

verus! {

/// Where the names of an artifact are listed, they are listed as its names.
pub proof fn group_is_found(groups: Seq<NamesView>, artifact: ProviderId)
    ensures
        match crate::serving_reconciler::group_at(groups, artifact) {
            Some(i) => 0 <= i < groups.len() && groups[i].digest == artifact,
            None => forall|i: int|
                0 <= i < groups.len() ==> (#[trigger] groups[i]).digest != artifact,
        },
    decreases groups.len(),
{
    if groups.len() > 0 {
        group_is_found(groups.drop_last(), artifact);
        assert(forall|i: int|
            0 <= i < groups.len() - 1 ==> groups.drop_last()[i] == #[trigger] groups[i]);
    }
}

/// Once a name stands for no artifact, the names after it do not matter.
pub proof fn an_absent_name_stays_absent(
    resources: Seq<DesiredView>,
    names: Seq<Seq<char>>,
    i: int,
)
    requires
        0 <= i <= names.len(),
        crate::serving_reconciler::grouped(resources, names.take(i)) is Err,
    ensures
        crate::serving_reconciler::grouped(resources, names)
            == crate::serving_reconciler::grouped(resources, names.take(i)),
    decreases names.len() - i,
{
    if i < names.len() {
        assert(names.take(i + 1).drop_last() =~= names.take(i));
        an_absent_name_stays_absent(resources, names, i + 1);
    } else {
        assert(names.take(i) =~= names);
    }
}

/// An artifact that is listed is found where it is listed.
pub proof fn import_is_listed(pending: Seq<ProviderImport>, i: int)
    requires
        0 <= i < pending.len(),
        crate::serving_reconciler::listed_once(pending),
    ensures
        crate::serving_reconciler::import_of(pending, pending[i].provider_id) == Some(
            pending[i].repaired,
        ),
    decreases pending.len(),
{
    if i < pending.len() - 1 {
        import_is_listed(pending.drop_last(), i);
    }
}

/// An artifact that is not listed is not found.
pub proof fn import_is_not_listed(pending: Seq<ProviderImport>, provider_id: ProviderId)
    requires
        forall|j: int| 0 <= j < pending.len() ==> (#[trigger] pending[j]).provider_id != provider_id,
    ensures
        crate::serving_reconciler::import_of(pending, provider_id) is None,
    decreases pending.len(),
{
    if pending.len() > 0 {
        import_is_not_listed(pending.drop_last(), provider_id);
    }
}

/// The list after one import was folded into an earlier one.
pub proof fn import_after_fold(
    pending: Seq<ProviderImport>,
    i: int,
    folded: ProviderImport,
    other: ProviderId,
)
    requires
        0 <= i < pending.len(),
        pending[i].provider_id == folded.provider_id,
        crate::serving_reconciler::listed_once(pending),
    ensures
        crate::serving_reconciler::import_of(pending.update(i, folded), other) == (if other
            == folded.provider_id {
            Some(folded.repaired)
        } else {
            crate::serving_reconciler::import_of(pending, other)
        }),
    decreases pending.len(),
{
    let after = pending.update(i, folded);
    if i == pending.len() - 1 {
        assert(after.drop_last() =~= pending.drop_last());
    } else {
        assert(after.drop_last() =~= pending.drop_last().update(i, folded));
        import_after_fold(pending.drop_last(), i, folded, other);
    }
}

/// A reply that answers nothing that was asked changes nothing, and an ended
/// run stays ended.
pub proof fn an_ended_run_stays_ended(
    pass: ServingPassView,
    hub: HubView,
    reply: ServingReplyView,
    now: u128,
)
    ensures
        pass.resumed(hub, reply, now).request == ServingRequest::Stray ==> pass.resumed(
            hub,
            reply,
            now,
        ).pass == pass && pass.resumed(hub, reply, now).hub == hub,
        pass.stage == ServingStage::Ended ==> pass.resumed(hub, reply, now).request
            == ServingRequest::Stray,
{
}

/// A generation is published only after the desired revision was read again
/// under the publication fence and was still the one it was built for.
pub proof fn only_the_desired_revision_is_published(
    pass: ServingPassView,
    hub: HubView,
    reply: ServingReplyView,
    now: u128,
)
    ensures
        pass.resumed(hub, reply, now).request is Publish ==> pass.stage
            == ServingStage::CheckingRevokes && reply is Revokes,
        pass.resumed(hub, reply, now).pass.stage == ServingStage::CheckingRevokes && pass.stage
            != ServingStage::CheckingRevokes ==> pass.stage == ServingStage::Fencing && reply
            == ServingReplyView::Latest(Ok(pass.revision)),
{
}

/// Admission to the served generation is closed before the publication just
/// when a revocation is pending.
pub proof fn a_pending_revocation_closes_admission(
    pass: ServingPassView,
    hub: HubView,
    pending: bool,
    now: u128,
)
    requires
        pass.stage == ServingStage::CheckingRevokes,
    ensures
        pass.resumed(hub, ServingReplyView::Revokes(Ok(pending)), now).request
            == (ServingRequest::Publish { close_admission: pending }),
{
}

/// A generation is built only once every artifact it requires is ready.
pub proof fn a_generation_is_built_from_ready_artifacts(
    pass: ServingPassView,
    hub: HubView,
    reply: ServingReplyView,
    now: u128,
)
    requires
        pass.wf(),
        pass.resumed(hub, reply, now).request == ServingRequest::Build,
    ensures
        pass.stage == ServingStage::Enqueueing || pass.stage is Waiting,
        pass.stage == ServingStage::Enqueueing ==> (reply matches ServingReplyView::Enqueued(
            result,
        ) && result is Ok && result->Ok_0.len() == 0),
        pass.stage matches ServingStage::Waiting { next } ==> next + 1 == pass.required.len()
            && (reply matches ServingReplyView::Ready(result) && result is Ok),
{
}

/// How far a run is within an attempt.
pub open spec fn distance(stage: ServingStage) -> int {
    match stage {
        ServingStage::Enqueueing => 0,
        ServingStage::Waiting { .. } => 1,
        ServingStage::Building => 2,
        ServingStage::Fencing => 3,
        ServingStage::CheckingRevokes => 4,
        ServingStage::Publishing => 5,
        ServingStage::Pausing => 6,
        ServingStage::Ended => 7,
    }
}

/// Every answer brings a run forward, to a later attempt, a later stage or the
/// next artifact; so it ends after at most the allowed attempts.
pub proof fn answers_bring_a_run_forward(
    pass: ServingPassView,
    hub: HubView,
    reply: ServingReplyView,
    now: u128,
)
    requires
        pass.wf(),
        pass.required.len() <= usize::MAX,
        pass.resumed(hub, reply, now).request != ServingRequest::Stray,
    ensures
        ({
            let after = pass.resumed(hub, reply, now).pass;
            &&& after.attempt <= MAX_RECONCILE_ATTEMPTS
            &&& {
                ||| after.attempt > pass.attempt
                ||| after.attempt == pass.attempt && distance(after.stage) > distance(pass.stage)
                ||| after.attempt == pass.attempt && after.required == pass.required && (
                match (pass.stage, after.stage) {
                    (
                        ServingStage::Waiting { next: before },
                        ServingStage::Waiting { next },
                    ) => next == before + 1,
                    _ => false,
                })
            }
        }),
{
}

/// A run keeps to its revision, its resources and its actions.
pub proof fn a_run_keeps_its_revision(
    pass: ServingPassView,
    hub: HubView,
    reply: ServingReplyView,
    now: u128,
)
    ensures
        pass.resumed(hub, reply, now).pass.revision == pass.revision,
        pass.resumed(hub, reply, now).pass.resources == pass.resources,
        pass.resumed(hub, reply, now).pass.actions == pass.actions,
{
}

/// Each artifact is listed once, in the order of the digests.
pub open spec fn listed_by_digest(groups: Seq<NamesView>) -> bool {
    forall|i: int, j: int|
        #![trigger groups[i], groups[j]]
        0 <= i < j < groups.len() ==> groups[i].digest.before(groups[j].digest)
}

/// Whether a name is listed under an artifact.
pub open spec fn lists(groups: Seq<NamesView>, artifact: ProviderId, name: Seq<char>) -> bool {
    exists|g: int|
        0 <= g < groups.len() && (#[trigger] groups[g]).digest == artifact
            && groups[g].names.contains(name)
}

proof fn filed_groups(groups: Seq<NamesView>, group: NamesView)
    requires
        listed_by_digest(groups),
        forall|i: int| 0 <= i < groups.len() ==> (#[trigger] groups[i]).digest != group.digest,
    ensures
        listed_by_digest(crate::order::filed::<ProviderNames>(groups, group)),
        forall|x: NamesView| #[trigger]
            crate::order::filed::<ProviderNames>(groups, group).contains(x) <==> groups.contains(x)
                || x == group,
    decreases groups.len(),
{
    let out = crate::order::filed::<ProviderNames>(groups, group);
    if groups.len() == 0 || !group.digest.before(groups.last().digest) {
        assert(out == groups.push(group));
        assert forall|x: NamesView| #[trigger] out.contains(x) <==> groups.contains(x) || x
            == group by {
            if groups.contains(x) {
                let k = choose|k: int| 0 <= k < groups.len() && groups[k] == x;
                assert(out[k] == x);
            }
            if x == group {
                assert(out[groups.len() as int] == x);
            }
        }
    } else {
        let last = groups.last();
        let rest = groups.drop_last();
        filed_groups(rest, group);
        let inner = crate::order::filed::<ProviderNames>(rest, group);
        assert(out == inner.push(last));
        assert forall|x: NamesView| #[trigger] out.contains(x) <==> groups.contains(x) || x
            == group by {
            if out.contains(x) {
                let k = choose|k: int| 0 <= k < out.len() && out[k] == x;
                if k < inner.len() {
                    assert(inner[k] == x);
                    assert(inner.contains(x));
                    if rest.contains(x) {
                        let m = choose|m: int| 0 <= m < rest.len() && rest[m] == x;
                        assert(groups[m] == x);
                    }
                } else {
                    assert(groups[groups.len() - 1] == x);
                }
            }
            if groups.contains(x) || x == group {
                if x == last {
                    assert(out[inner.len() as int] == x);
                } else {
                    if groups.contains(x) {
                        let m = choose|m: int| 0 <= m < groups.len() && groups[m] == x;
                        assert(rest[m] == x);
                        assert(rest.contains(x));
                    }
                    assert(inner.contains(x));
                    let k = choose|k: int| 0 <= k < inner.len() && inner[k] == x;
                    assert(out[k] == x);
                }
            }
        }
        assert forall|i: int, j: int|
            #![trigger out[i], out[j]]
            0 <= i < j < out.len() implies out[i].digest.before(out[j].digest) by {
            if j == inner.len() {
                assert(inner.contains(inner[i]));
                if inner[i] != group {
                    let m = choose|m: int| 0 <= m < rest.len() && rest[m] == inner[i];
                    assert(groups[m] == inner[i]);
                }
            }
        }
    }
}

proof fn alias_is_listed(groups: Seq<NamesView>, artifact: ProviderId, name: Seq<char>)
    requires
        listed_by_digest(groups),
    ensures
        ({
            let after = crate::serving_reconciler::with_alias(groups, artifact, name);
            &&& listed_by_digest(after)
            &&& lists(after, artifact, name)
            &&& forall|other: ProviderId, held: Seq<char>| #[trigger]
                lists(groups, other, held) ==> lists(after, other, held)
            &&& forall|other: ProviderId, held: Seq<char>| #[trigger]
                lists(after, other, held) ==> lists(groups, other, held) || (other == artifact
                    && held == name)
        }),
{
    group_is_found(groups, artifact);
    let after = crate::serving_reconciler::with_alias(groups, artifact, name);
    match crate::serving_reconciler::group_at(groups, artifact) {
        Some(i) => {
            let longer = groups[i].names.push(name);
            assert(longer[longer.len() - 1] == name);
            assert(after[i].names.contains(name));
            assert forall|other: ProviderId, held: Seq<char>| #[trigger]
                lists(groups, other, held) implies lists(after, other, held) by {
                let g = choose|g: int|
                    0 <= g < groups.len() && (#[trigger] groups[g]).digest == other
                        && groups[g].names.contains(held);
                let k = choose|k: int| 0 <= k < groups[g].names.len() && groups[g].names[k] == held;
                assert(after[g].digest == other);
                assert(after[g].names[k] == held);
            }
            assert forall|other: ProviderId, held: Seq<char>| #[trigger]
                lists(after, other, held) implies lists(groups, other, held) || (other == artifact
                && held == name) by {
                let g = choose|g: int|
                    0 <= g < after.len() && (#[trigger] after[g]).digest == other
                        && after[g].names.contains(held);
                let k = choose|k: int| 0 <= k < after[g].names.len() && after[g].names[k] == held;
                assert(groups[g].digest == other);
                if !(other == artifact && held == name) {
                    assert(groups[g].names[k] == held);
                }
            }
        },
        None => {
            let group = NamesView { digest: artifact, names: seq![name] };
            filed_groups(groups, group);
            assert(after.contains(group));
            assert(group.names[0] == name);
            assert forall|other: ProviderId, held: Seq<char>| #[trigger]
                lists(groups, other, held) implies lists(after, other, held) by {
                let g = choose|g: int|
                    0 <= g < groups.len() && (#[trigger] groups[g]).digest == other
                        && groups[g].names.contains(held);
                assert(groups.contains(groups[g]));
                assert(after.contains(groups[g]));
            }
            assert forall|other: ProviderId, held: Seq<char>| #[trigger]
                lists(after, other, held) implies lists(groups, other, held) || (other == artifact
                && held == name) by {
                let g = choose|g: int|
                    0 <= g < after.len() && (#[trigger] after[g]).digest == other
                        && after[g].names.contains(held);
                assert(after.contains(after[g]));
                if after[g] == group {
                    let k = choose|k: int| 0 <= k < group.names.len() && group.names[k] == held;
                }
            }
        },
    }
}

/// Where every name stands for an artifact, each of these artifacts is listed
/// once, in the order of the digests, with exactly the names that stand for
/// it.
pub proof fn required_artifacts_are_listed_once(
    resources: Seq<DesiredView>,
    names: Seq<Seq<char>>,
)
    requires
        crate::serving_reconciler::grouped(resources, names) is Ok,
    ensures
        ({
            let groups = crate::serving_reconciler::grouped(resources, names)->Ok_0;
            &&& listed_by_digest(groups)
            &&& forall|artifact: ProviderId, name: Seq<char>| #[trigger]
                lists(groups, artifact, name) <==> names.contains(name)
                    && crate::serving_reconciler::artifact_of(resources, name) == Some(artifact)
        }),
    decreases names.len(),
{
    if names.len() > 0 {
        let rest = names.drop_last();
        let last = names.last();
        required_artifacts_are_listed_once(resources, rest);
        let before = crate::serving_reconciler::grouped(resources, rest)->Ok_0;
        let artifact = crate::serving_reconciler::artifact_of(resources, last)->0;
        let groups = crate::serving_reconciler::grouped(resources, names)->Ok_0;
        alias_is_listed(before, artifact, last);
        assert forall|other: ProviderId, name: Seq<char>| #[trigger]
            lists(groups, other, name) <==> names.contains(name)
                && crate::serving_reconciler::artifact_of(resources, name) == Some(other) by {
            assert(groups == crate::serving_reconciler::with_alias(before, artifact, last));
            assert(lists(before, other, name) <==> rest.contains(name)
                && crate::serving_reconciler::artifact_of(resources, name) == Some(other));
            assert(names.contains(name) <==> rest.contains(name) || name == last) by {
                if names.contains(name) {
                    let k = choose|k: int| 0 <= k < names.len() && names[k] == name;
                    if k < rest.len() {
                        assert(rest[k] == name);
                    }
                }
                if rest.contains(name) {
                    let k = choose|k: int| 0 <= k < rest.len() && rest[k] == name;
                    assert(names[k] == name);
                }
                if name == last {
                    assert(names[names.len() - 1] == name);
                }
            }
        }
    }
}

} // verus!
