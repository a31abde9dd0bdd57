//! What becomes of a request for an artifact, and what is told of it.
use crate::name::ProviderId;
use crate::provider_preparer::actor::{PreparerView, ProviderPreparer, Wait};
use crate::provider_preparer::{
    readiness, EntryView, JobView, ProviderPreparationJob, ProviderPreparationPhase,
    ProviderPreparationStatus, ProviderPreparerError, ProviderPriority, Readiness,
};
use vstd::prelude::*;

verus! {

/// What is desired goes before what is retained, and that before what is embedded;
/// among equals the earlier request goes first.
pub proof fn what_is_desired_goes_first(priority: ProviderPriority, first: u64, second: u64)
    ensures
        crate::provider_preparer::actor::comes_first(
            ProviderPriority::Desired,
            first,
            ProviderPriority::Retained,
            second,
        ),
        crate::provider_preparer::actor::comes_first(
            ProviderPriority::Retained,
            first,
            ProviderPriority::Embedded,
            second,
        ),
        crate::provider_preparer::actor::comes_first(
            ProviderPriority::Desired,
            first,
            ProviderPriority::Embedded,
            second,
        ),
        !crate::provider_preparer::actor::comes_first(
            ProviderPriority::Embedded,
            first,
            ProviderPriority::Desired,
            second,
        ),
        !crate::provider_preparer::actor::comes_first(
            ProviderPriority::Embedded,
            first,
            ProviderPriority::Retained,
            second,
        ),
        !crate::provider_preparer::actor::comes_first(
            ProviderPriority::Retained,
            first,
            ProviderPriority::Desired,
            second,
        ),
        crate::provider_preparer::actor::comes_first(priority, first, priority, second) <==> first
            < second,
{
}

/// A worker starts exactly where something waits, a worker is free and the preparer
/// does not shut down.
pub proof fn a_worker_starts_where_something_waits(preparer: PreparerView)
    ensures
        crate::provider_preparer::actor::may_start(preparer) <==> !preparer.shutting_down
            && preparer.running < preparer.worker_limit && exists|i: int|
            0 <= i < preparer.entries.len() && (#[trigger] preparer.entries[i]).phase
                == ProviderPreparationPhase::Queued,
{
    crate::provider_preparer::laws::front_comes_first(preparer.entries);
}

/// A started artifact is being prepared under its own request, no longer has a place
/// in the queue, and is reported as such.
pub proof fn a_started_artifact_leaves_the_queue(preparer: PreparerView)
    requires
        preparer.wf(),
        crate::provider_preparer::actor::may_start(preparer),
    ensures
        ({
            let i = crate::provider_preparer::actor::front(preparer.entries)->0;
            let before = preparer.entries[i];
            let after = crate::provider_preparer::actor::dispatched(preparer);
            let told = after.reports.last();
            &&& after.entries[i].phase == ProviderPreparationPhase::Preparing
            &&& after.entries[i].queue_position is None
            &&& after.entries[i].job == before.job && after.entries[i].priority == before.priority
            &&& after.entries[i].retry_count == before.retry_count
            &&& after.running == preparer.running + 1
            &&& after.counts.queued == preparer.counts.queued - 1
            &&& after.counts.active == preparer.counts.active + 1
            &&& after.counts.completed == preparer.counts.completed
            &&& after.reports.len() == preparer.reports.len() + 1
            &&& told.provider_id == before.job.provider_id
            &&& told.phase == ProviderPreparationPhase::Preparing && told.queue_position is None
            &&& told.active_digests == preparer.counts.active + 1
            &&& told.queued_digests == preparer.counts.queued - 1
            &&& told.completed_bytes == 0 && told.total_bytes == before.job.bytes.len()
        }),
{
    let entries = preparer.entries;
    crate::provider_preparer::laws::front_comes_first(entries);
    let i = crate::provider_preparer::actor::front(entries)->0;
    crate::provider_preparer::laws::counts_add_up(entries);
    crate::provider_preparer::laws::counted_has_a_witness(
        entries,
        crate::provider_preparer::actor::in_phase(ProviderPreparationPhase::Queued),
        i,
    );
    crate::provider_preparer::laws::counted_is_bounded(
        entries,
        crate::provider_preparer::actor::in_phase(ProviderPreparationPhase::Preparing),
    );
    crate::provider_preparer::laws::counted_is_bounded(
        entries,
        crate::provider_preparer::actor::is_through(),
    );
}

/// A new artifact waits behind everything of its priority that waited before, under
/// its own request; its place is one behind those that go before it.
pub proof fn a_new_artifact_waits_at_the_end(
    preparer: PreparerView,
    job: JobView,
    priority: ProviderPriority,
    repaired: bool,
)
    requires
        preparer.wf(),
        preparer.entries.len() < u32::MAX,
        preparer.next_sequence < u64::MAX,
        forall|i: int|
            0 <= i < preparer.entries.len() ==> (#[trigger] preparer.entries[i]).job.provider_id
                != job.provider_id,
    ensures
        ({
            let after = crate::provider_preparer::actor::enqueued(preparer, job, priority, repaired);
            let last = after.entries.last();
            let told = after.reports.last();
            &&& after.entries.len() == preparer.entries.len() + 1
            &&& after.entries.drop_last() =~= preparer.entries
            &&& last.job == job && last.priority == priority
            &&& last.phase == ProviderPreparationPhase::Queued
            &&& last.sequence == preparer.next_sequence + 1 && after.next_sequence
                == last.sequence
            &&& last.retry_count == 0 && last.error_code is None && last.detail is None
            &&& after.counts.queued == preparer.counts.queued + 1
            &&& last.queue_position is Some && last.queue_position->0 >= 1
            &&& after.reports.len() == preparer.reports.len() + 1
            &&& told.provider_id == job.provider_id && told.phase
                == ProviderPreparationPhase::Queued
            &&& told.queue_position == last.queue_position
            &&& told.queued_digests == preparer.counts.queued + 1
            &&& told.resource_names == job.resource_names && told.catalog_name == job.catalog_name
            &&& after.running == preparer.running && after.shutting_down == preparer.shutting_down
        }),
{
    crate::provider_preparer::laws::place_is_right(preparer.entries, job.provider_id);
    crate::provider_preparer::laws::counts_add_up(preparer.entries);
    crate::provider_preparer::laws::counted_is_bounded(
        preparer.entries,
        crate::provider_preparer::actor::in_phase(ProviderPreparationPhase::Queued),
    );
    crate::provider_preparer::laws::counted_is_bounded(
        preparer.entries,
        crate::provider_preparer::actor::in_phase(ProviderPreparationPhase::Preparing),
    );
    crate::provider_preparer::laws::counted_is_bounded(
        preparer.entries,
        crate::provider_preparer::actor::is_through(),
    );
    crate::provider_preparer::laws::counted_is_bounded(
        preparer.entries,
        crate::provider_preparer::actor::waits_before(
            priority,
            crate::provider_preparer::actor::next_number(preparer.next_sequence),
        ),
    );
    let after = crate::provider_preparer::actor::enqueued(preparer, job, priority, repaired);
    assert(after.entries.drop_last() =~= preparer.entries);
}

proof fn nobody_is_counted(entries: Seq<EntryView>, test: spec_fn(EntryView) -> bool)
    requires
        forall|i: int| 0 <= i < entries.len() ==> !test(#[trigger] entries[i]),
    ensures
        crate::provider_preparer::actor::counted(entries, test) == 0,
    decreases entries.len(),
{
    if entries.len() > 0 {
        assert forall|i: int| 0 <= i < entries.drop_last().len() implies !test(
            #[trigger] entries.drop_last()[i],
        ) by {
            assert(entries.drop_last()[i] == entries[i]);
        }
        nobody_is_counted(entries.drop_last(), test);
    }
}

/// A place in the queue is the first where nothing waits before it, and moves back by
/// one with everything that does.
pub proof fn a_place_counts_what_waits_before_it(
    entries: Seq<EntryView>,
    entry: EntryView,
    priority: ProviderPriority,
    sequence: u64,
)
    requires
        entries.len() + 2 <= u32::MAX,
    ensures
        ({
            let place = crate::provider_preparer::actor::place_number(entries, priority, sequence);
            let behind = crate::provider_preparer::actor::place_number(
                entries.push(entry),
                priority,
                sequence,
            );
            let ahead = entry.phase == ProviderPreparationPhase::Queued
                && crate::provider_preparer::actor::comes_first(
                entry.priority,
                entry.sequence,
                priority,
                sequence,
            );
            &&& behind == place + (if ahead {
                1int
            } else {
                0
            })
            &&& (forall|i: int|
                0 <= i < entries.len() ==> (#[trigger] entries[i]).phase
                    != ProviderPreparationPhase::Queued) ==> place == 1
        }),
{
    let test = crate::provider_preparer::actor::waits_before(priority, sequence);
    crate::provider_preparer::laws::counted_after_push(entries, entry, test);
    crate::provider_preparer::laws::counted_is_bounded(entries, test);
    if forall|i: int|
        0 <= i < entries.len() ==> (#[trigger] entries[i]).phase
            != ProviderPreparationPhase::Queued {
        nobody_is_counted(entries, test);
    }
}

/// Another request for a known artifact adds its names, can only move it forward, and
/// only while it waits; what it has come to stays as it is.
pub proof fn another_request_only_adds(
    preparer: PreparerView,
    job: JobView,
    priority: ProviderPriority,
    i: int,
    name: Seq<char>,
)
    requires
        preparer.wf(),
        0 <= i < preparer.entries.len(),
        preparer.entries[i].job.provider_id == job.provider_id,
    ensures
        ({
            let known = preparer.entries[i];
            let after = crate::provider_preparer::actor::enqueued(preparer, job, priority, false);
            let now = after.entries[i];
            let raises = (priority == ProviderPriority::Desired && known.priority
                != ProviderPriority::Desired) || (priority == ProviderPriority::Retained
                && known.priority == ProviderPriority::Embedded);
            &&& now.phase == known.phase && now.retry_count == known.retry_count
            &&& now.sequence == known.sequence && now.error_code == known.error_code
            &&& now.priority == (if known.phase == ProviderPreparationPhase::Queued && raises {
                priority
            } else {
                known.priority
            })
            &&& now.job.resource_names.contains(name) <==> known.job.resource_names.contains(name)
                || job.resource_names.contains(name)
            &&& now.job.catalog_name == (if known.job.catalog_name.len() == 0 {
                job.catalog_name
            } else {
                known.job.catalog_name
            })
            &&& now.job.bytes == known.job.bytes && now.job.provider_id == known.job.provider_id
            &&& after.counts == preparer.counts && after.running == preparer.running
            &&& forall|j: int|
                0 <= j < preparer.entries.len() && j != i ==> #[trigger] after.entries[j]
                    == preparer.entries[j]
            &&& after.reports.len() == preparer.reports.len() + 1
            &&& after.reports.last().phase == known.phase
            &&& after.reports.last().resource_names == now.job.resource_names
        }),
{
    crate::provider_preparer::laws::place_is_right(preparer.entries, job.provider_id);
    let at = crate::provider_preparer::actor::place(preparer.entries, job.provider_id)->0;
    if at < i {
        assert(preparer.entries[at].job.provider_id != preparer.entries[i].job.provider_id);
    }
    if i < at {
        assert(preparer.entries[i].job.provider_id != preparer.entries[at].job.provider_id);
    }
    let known = preparer.entries[i].job.resource_names;
    let both = known + job.resource_names;
    crate::progress::tidied_is_the_strict_listing(both);
    if known.contains(name) {
        let k = choose|k: int| 0 <= k < known.len() && known[k] == name;
        assert(both[k] == name);
    }
    if job.resource_names.contains(name) {
        let k = choose|k: int| 0 <= k < job.resource_names.len() && job.resource_names[k] == name;
        assert(both[known.len() + k] == name);
    }
    if both.contains(name) {
        let k = choose|k: int| 0 <= k < both.len() && both[k] == name;
        if k < known.len() {
            assert(known[k] == name);
        } else {
            assert(job.resource_names[k - known.len()] == name);
        }
    }
}

/// A prepared artifact is ready and without a failure, or failed with the reason; its
/// bytes count as done only once it is ready.
pub proof fn a_finished_artifact_tells_its_outcome(
    preparer: PreparerView,
    i: int,
    detail: Seq<char>,
)
    requires
        preparer.wf(),
        0 <= i < preparer.entries.len(),
        preparer.entries[i].phase == ProviderPreparationPhase::Preparing,
        preparer.running > 0,
    ensures
        ({
            let well = crate::provider_preparer::actor::finished(preparer, i, Ok(()));
            let badly = crate::provider_preparer::actor::finished(preparer, i, Err(detail));
            let size = preparer.entries[i].job.bytes.len();
            &&& well.entries[i].phase == ProviderPreparationPhase::Ready
            &&& well.entries[i].error_code is None && well.entries[i].detail is None
            &&& well.reports.last().completed_bytes == size
            &&& well.reports.last().phase == ProviderPreparationPhase::Ready
            &&& badly.entries[i].phase == ProviderPreparationPhase::Failed
            &&& badly.entries[i].error_code == Some("provider_prepare_failed"@)
            &&& badly.entries[i].detail == Some(detail)
            &&& badly.reports.last().completed_bytes == 0
            &&& badly.reports.last().detail == Some(detail)
            &&& badly.reports.last().error_code == Some("provider_prepare_failed"@)
            &&& well.reports.last().total_bytes == size && badly.reports.last().total_bytes == size
            &&& well.running == preparer.running - 1 && badly.running == preparer.running - 1
            &&& well.counts.active == preparer.counts.active - 1
            &&& well.counts.completed == preparer.counts.completed + 1
            &&& badly.counts == well.counts && well.counts.queued == preparer.counts.queued
            &&& well.reports.len() == preparer.reports.len() + 1
            &&& badly.reports.len() == preparer.reports.len() + 1
        }),
{
    crate::provider_preparer::laws::counts_add_up(preparer.entries);
    crate::provider_preparer::laws::counted_has_a_witness(
        preparer.entries,
        crate::provider_preparer::actor::in_phase(ProviderPreparationPhase::Preparing),
        i,
    );
    crate::provider_preparer::laws::counted_is_bounded(
        preparer.entries,
        crate::provider_preparer::actor::in_phase(ProviderPreparationPhase::Queued),
    );
    crate::provider_preparer::laws::counted_is_bounded(
        preparer.entries,
        crate::provider_preparer::actor::is_through(),
    );
}

/// A shutdown counts what it cancels as through, lets what runs go on, and tells of
/// each that it cancels; a second one changes nothing.
pub proof fn a_shutdown_tells_of_what_it_cancels(preparer: PreparerView)
    requires
        preparer.wf(),
        !preparer.shutting_down,
    ensures
        ({
            let after = crate::provider_preparer::actor::shut_down(preparer);
            &&& after.shutting_down
            &&& after.counts.queued == 0 && after.counts.active == preparer.counts.active
            &&& after.counts.completed == preparer.counts.completed + preparer.counts.queued
            &&& after.running == preparer.running
            &&& crate::provider_preparer::actor::shut_down(after) == after
            &&& forall|i: int|
                0 <= i < preparer.entries.len() && (#[trigger] preparer.entries[i]).phase
                    == ProviderPreparationPhase::Queued ==> after.reports.contains(
                    after.entries[i].status,
                ) && after.entries[i].status.phase == ProviderPreparationPhase::Failed
                    && after.entries[i].status.error_code == Some("provider_prepare_cancelled"@)
                    && after.entries[i].status.provider_id == preparer.entries[i].job.provider_id
        }),
{
    crate::provider_preparer::laws::counts_add_up(preparer.entries);
    crate::provider_preparer::laws::counted_is_bounded(
        preparer.entries,
        crate::provider_preparer::actor::in_phase(ProviderPreparationPhase::Preparing),
    );
    let after = crate::provider_preparer::actor::shut_down(preparer);
    let waiting = crate::provider_preparer::actor::in_phase(ProviderPreparationPhase::Queued);
    let counts = after.counts;
    let left = preparer.entries.filter(waiting);
    let told = left.map_values(
        |entry: EntryView| crate::provider_preparer::actor::cancelled(entry, counts).status,
    );
    assert(after.reports == preparer.reports + told);
    assert forall|i: int|
        0 <= i < preparer.entries.len() && (#[trigger] preparer.entries[i]).phase
            == ProviderPreparationPhase::Queued implies after.reports.contains(
        after.entries[i].status,
    ) by {
        preparer.entries.lemma_filter_contains(waiting, i);
        let k = choose|k: int| 0 <= k < left.len() && left[k] == preparer.entries[i];
        assert(told[k] == after.entries[i].status);
        assert(after.reports[preparer.reports.len() + k] == told[k]);
    }
}

/// A preparer that shuts down takes no request any more, is finished once nothing
/// runs, and waits for what does.
pub proof fn a_preparer_waits_for_what_it_may_still_do(preparer: &ProviderPreparer, wait: Wait)
    requires
        call_ensures(ProviderPreparer::awaited, (preparer,), wait),
    ensures
        wait == Wait::Finished <==> preparer.shutting_down && preparer.running == 0,
        wait == Wait::Completion <==> preparer.shutting_down && preparer.running > 0,
        wait == Wait::Request <==> !preparer.shutting_down && preparer.running == 0,
        wait == Wait::RequestOrCompletion <==> !preparer.shutting_down && preparer.running > 0,
{
}

/// A status is that of the artifact that was asked for, with the counts as they are
/// now; there is one exactly where the artifact is known.
pub proof fn a_status_is_that_of_its_artifact(
    preparer: &ProviderPreparer,
    provider_id: ProviderId,
    status: Option<ProviderPreparationStatus>,
    i: int,
)
    requires
        preparer.wf(),
        call_ensures(ProviderPreparer::status, (preparer, provider_id), status),
        0 <= i < preparer@.entries.len(),
        preparer@.entries[i].job.provider_id == provider_id,
    ensures
        status is Some,
        status->0.phase == preparer@.entries[i].status.phase,
        status->0.provider_id == preparer@.entries[i].status.provider_id,
        status->0.queued_digests == preparer.counts.queued,
        status->0.active_digests == preparer.counts.active,
        status->0.completed_digests == preparer.counts.completed,
{
    let entries = preparer@.entries;
    crate::provider_preparer::laws::place_is_right(entries, provider_id);
    let at = crate::provider_preparer::actor::place(entries, provider_id)->0;
    if at < i {
        assert(entries[at].job.provider_id != entries[i].job.provider_id);
    }
    if i < at {
        assert(entries[i].job.provider_id != entries[at].job.provider_id);
    }
}

/// Bytes are taken only under the digest that they have.
pub proof fn bytes_are_taken_under_their_own_digest(
    provider_id: ProviderId,
    catalog_name: String,
    resource_names: Vec<crate::name::ResourceName>,
    bytes: Vec<u8>,
    actual: ProviderId,
    job: Result<ProviderPreparationJob, ProviderPreparerError>,
    name: Seq<char>,
)
    requires
        call_ensures(
            ProviderPreparationJob::new,
            (provider_id, catalog_name, resource_names, bytes, actual),
            job,
        ),
    ensures
        job is Ok <==> actual == provider_id,
        job is Ok ==> job->Ok_0@.bytes == bytes@ && job->Ok_0@.provider_id == provider_id
            && job->Ok_0@.catalog_name == catalog_name@ && (
        job->Ok_0@.resource_names.contains(name) <==> crate::list::views(
            resource_names@,
        ).contains(name)),
        job is Err ==> job->Err_0 == (ProviderPreparerError::DigestMismatch {
            expected: provider_id,
            actual,
        }),
{
    crate::progress::tidied_is_the_strict_listing(crate::list::views(resource_names@));
}

/// Whoever waits for an artifact is told that it is ready or has failed exactly when it
/// has, and with the reason that is known.
pub proof fn a_waiting_reader_is_told_the_outcome(
    status: &ProviderPreparationStatus,
    outcome: Readiness,
)
    requires
        call_ensures(readiness, (status,), outcome),
    ensures
        outcome is Ready <==> status.phase == ProviderPreparationPhase::Ready,
        outcome is Failed <==> status.phase == ProviderPreparationPhase::Failed,
        outcome is Failed && status.error_code is Some ==> outcome->error_code@ == (
        status.error_code->0)@,
        outcome is Failed && status.error_code is None ==> outcome->error_code@
            == "provider_prepare_failed"@,
        outcome is Failed && status.detail is Some ==> outcome->detail@ == (status.detail->0)@,
        outcome is Failed && status.detail is None ==> outcome->detail@
            == "provider preparation failed"@,
{
}

/// A repaired artifact waits anew: behind what was asked for before, at the higher of
/// its priorities, under all of its names, with one more try counted and without its
/// old failure.
pub proof fn a_repaired_artifact_waits_anew(
    preparer: PreparerView,
    job: JobView,
    priority: ProviderPriority,
    i: int,
    name: Seq<char>,
)
    requires
        preparer.wf(),
        0 <= i < preparer.entries.len(),
        preparer.entries[i].job.provider_id == job.provider_id,
        preparer.entries[i].phase.terminal(),
    ensures
        ({
            let known = preparer.entries[i];
            let after = crate::provider_preparer::actor::enqueued(preparer, job, priority, true);
            let now = after.entries[i];
            let raises = (priority == ProviderPriority::Desired && known.priority
                != ProviderPriority::Desired) || (priority == ProviderPriority::Retained
                && known.priority == ProviderPriority::Embedded);
            &&& now.phase == ProviderPreparationPhase::Queued
            &&& now.priority == (if raises {
                priority
            } else {
                known.priority
            })
            &&& now.sequence == after.next_sequence
            &&& preparer.next_sequence < u64::MAX ==> after.next_sequence == preparer.next_sequence
                + 1
            &&& now.retry_count == (if known.retry_count < u32::MAX {
                known.retry_count + 1
            } else {
                u32::MAX as int
            })
            &&& now.error_code is None && now.detail is None
            &&& now.queue_position is Some && now.status.queue_position == now.queue_position
            &&& now.status.phase == ProviderPreparationPhase::Queued && now.status.priority
                == now.priority && now.status.retry_count == now.retry_count
            &&& after.reports.last() == now.status
            &&& now.job.resource_names.contains(name) <==> known.job.resource_names.contains(name)
                || job.resource_names.contains(name)
            &&& now.job.bytes == known.job.bytes && now.job.provider_id == known.job.provider_id
            &&& after.counts.queued == preparer.counts.queued + 1
            &&& after.counts.completed == preparer.counts.completed - 1
            &&& after.counts.active == preparer.counts.active && after.running == preparer.running
            &&& forall|j: int|
                0 <= j < preparer.entries.len() && j != i ==> #[trigger] after.entries[j]
                    == preparer.entries[j]
        }),
{
    another_request_only_adds(preparer, job, priority, i, name);
    crate::provider_preparer::laws::place_is_right(preparer.entries, job.provider_id);
    let at = crate::provider_preparer::actor::place(preparer.entries, job.provider_id)->0;
    if at < i {
        assert(preparer.entries[at].job.provider_id != preparer.entries[i].job.provider_id);
    }
    if i < at {
        assert(preparer.entries[i].job.provider_id != preparer.entries[at].job.provider_id);
    }
    crate::provider_preparer::laws::counts_add_up(preparer.entries);
    let through = crate::provider_preparer::actor::is_through();
    crate::provider_preparer::laws::counted_has_a_witness(preparer.entries, through, i);
}

/// A cancelled artifact is told what cancelled it, and no longer has a place.
pub proof fn a_cancelled_artifact_is_told_why(preparer: PreparerView, i: int)
    requires
        preparer.wf(),
        !preparer.shutting_down,
        0 <= i < preparer.entries.len(),
        preparer.entries[i].phase == ProviderPreparationPhase::Queued,
    ensures
        ({
            let now = crate::provider_preparer::actor::shut_down(preparer).entries[i];
            &&& now.detail == Some("daemon shutdown cancelled queued preparation"@)
            &&& now.queue_position is None
            &&& now.status.detail == now.detail && now.status.queue_position is None
            &&& now.retry_count == preparer.entries[i].retry_count
            &&& now.job == preparer.entries[i].job && now.priority == preparer.entries[i].priority
        }),
{
}

} // verus!
