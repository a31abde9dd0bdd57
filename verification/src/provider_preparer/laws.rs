//! What holds of the preparer whatever it is asked.
use crate::name::ProviderId;
use crate::provider_preparer::actor::PreparerView;
use crate::provider_preparer::{
    Counts, EntryView, JobView, ProviderPreparationPhase, ProviderPriority,
};
use vstd::prelude::*;

verus! {

/// Counting is between none and all.
pub proof fn counted_is_bounded(entries: Seq<EntryView>, test: spec_fn(EntryView) -> bool)
    ensures
        0 <= crate::provider_preparer::actor::counted(entries, test) <= entries.len(),
    decreases entries.len(),
{
    if entries.len() > 0 {
        counted_is_bounded(entries.drop_last(), test);
    }
}

/// What is counted is there.
pub proof fn counted_has_a_witness(
    entries: Seq<EntryView>,
    test: spec_fn(EntryView) -> bool,
    i: int,
)
    requires
        0 <= i < entries.len(),
        test(entries[i]),
    ensures
        crate::provider_preparer::actor::counted(entries, test) > 0,
    decreases entries.len(),
{
    counted_is_bounded(entries.drop_last(), test);
    if i < entries.len() - 1 {
        counted_has_a_witness(entries.drop_last(), test, i);
    }
}

/// Counting after one artifact changed.
pub proof fn counted_after_update(
    entries: Seq<EntryView>,
    i: int,
    entry: EntryView,
    test: spec_fn(EntryView) -> bool,
)
    requires
        0 <= i < entries.len(),
    ensures
        crate::provider_preparer::actor::counted(entries.update(i, entry), test)
            == crate::provider_preparer::actor::counted(entries, test) - (if test(entries[i]) {
            1int
        } else {
            0
        }) + (if test(entry) {
            1int
        } else {
            0
        }),
    decreases entries.len(),
{
    if i == entries.len() - 1 {
        assert(entries.update(i, entry).drop_last() =~= entries.drop_last());
    } else {
        counted_after_update(entries.drop_last(), i, entry, test);
        assert(entries.update(i, entry).drop_last() =~= entries.drop_last().update(i, entry));
    }
}

/// Counting after one artifact was added.
pub proof fn counted_after_push(
    entries: Seq<EntryView>,
    entry: EntryView,
    test: spec_fn(EntryView) -> bool,
)
    ensures
        crate::provider_preparer::actor::counted(entries.push(entry), test)
            == crate::provider_preparer::actor::counted(entries, test) + (if test(entry) {
            1int
        } else {
            0
        }),
{
    assert(entries.push(entry).drop_last() =~= entries);
}

/// Every artifact waits, is being prepared, is being requeued or is through.
pub proof fn counts_add_up(entries: Seq<EntryView>)
    ensures
        crate::provider_preparer::actor::counted(
            entries,
            crate::provider_preparer::actor::in_phase(ProviderPreparationPhase::Queued),
        ) + crate::provider_preparer::actor::counted(
            entries,
            crate::provider_preparer::actor::in_phase(ProviderPreparationPhase::Preparing),
        ) + crate::provider_preparer::actor::counted(
            entries,
            crate::provider_preparer::actor::in_phase(ProviderPreparationPhase::Retrying),
        ) + crate::provider_preparer::actor::counted(
            entries,
            crate::provider_preparer::actor::is_through(),
        ) == entries.len(),
    decreases entries.len(),
{
    if entries.len() > 0 {
        counts_add_up(entries.drop_last());
    }
}

/// An artifact that is found is kept under its own digest, and one that is not
/// found is not kept.
pub proof fn place_is_right(entries: Seq<EntryView>, provider_id: ProviderId)
    ensures
        match crate::provider_preparer::actor::place(entries, provider_id) {
            Some(i) => 0 <= i < entries.len() && entries[i].job.provider_id == provider_id,
            None => forall|i: int|
                0 <= i < entries.len() ==> (#[trigger] entries[i]).job.provider_id != provider_id,
        },
    decreases entries.len(),
{
    if entries.len() > 0 {
        place_is_right(entries.drop_last(), provider_id);
        assert(forall|i: int|
            0 <= i < entries.len() - 1 ==> entries.drop_last()[i] == #[trigger] entries[i]);
    }
}

/// The foremost artifact waits, and no waiting artifact comes before it; there
/// is none only where nothing waits.
pub proof fn front_comes_first(entries: Seq<EntryView>)
    ensures
        match crate::provider_preparer::actor::front(entries) {
            Some(i) => 0 <= i < entries.len() && entries[i].phase
                == ProviderPreparationPhase::Queued && forall|j: int|
                0 <= j < entries.len() && (#[trigger] entries[j]).phase
                    == ProviderPreparationPhase::Queued
                    ==> !crate::provider_preparer::actor::comes_first(
                    entries[j].priority,
                    entries[j].sequence,
                    entries[i].priority,
                    entries[i].sequence,
                ),
            None => forall|j: int|
                0 <= j < entries.len() ==> (#[trigger] entries[j]).phase
                    != ProviderPreparationPhase::Queued,
        },
    decreases entries.len(),
{
    if entries.len() > 0 {
        front_comes_first(entries.drop_last());
        assert(forall|i: int|
            0 <= i < entries.len() - 1 ==> entries.drop_last()[i] == #[trigger] entries[i]);
    }
}

/// All four counts after one artifact changed, which is still kept once.
pub proof fn counts_after_update(entries: Seq<EntryView>, i: int, entry: EntryView)
    requires
        0 <= i < entries.len(),
        entry.job.provider_id == entries[i].job.provider_id,
        crate::provider_preparer::actor::kept_once(entries),
    ensures
        crate::provider_preparer::actor::kept_once(entries.update(i, entry)),
        forall|phase: ProviderPreparationPhase|
            #[trigger] crate::provider_preparer::actor::counted(
                entries.update(i, entry),
                crate::provider_preparer::actor::in_phase(phase),
            ) == crate::provider_preparer::actor::counted(
                entries,
                crate::provider_preparer::actor::in_phase(phase),
            ) - (if entries[i].phase == phase {
                1int
            } else {
                0
            }) + (if entry.phase == phase {
                1int
            } else {
                0
            }),
        crate::provider_preparer::actor::counted(
            entries.update(i, entry),
            crate::provider_preparer::actor::is_through(),
        ) == crate::provider_preparer::actor::counted(
            entries,
            crate::provider_preparer::actor::is_through(),
        ) - (if entries[i].phase.terminal() {
            1int
        } else {
            0
        }) + (if entry.phase.terminal() {
            1int
        } else {
            0
        }),
{
    assert forall|phase: ProviderPreparationPhase|
        #[trigger] crate::provider_preparer::actor::counted(
            entries.update(i, entry),
            crate::provider_preparer::actor::in_phase(phase),
        ) == crate::provider_preparer::actor::counted(
            entries,
            crate::provider_preparer::actor::in_phase(phase),
        ) - (if entries[i].phase == phase {
            1int
        } else {
            0
        }) + (if entry.phase == phase {
            1int
        } else {
            0
        }) by {
        counted_after_update(
            entries,
            i,
            entry,
            crate::provider_preparer::actor::in_phase(phase),
        );
    }
    counted_after_update(entries, i, entry, crate::provider_preparer::actor::is_through());
}

/// What shutdown cancels counts as through, and nothing waits any more.
pub proof fn counts_after_cancelling(entries: Seq<EntryView>, counts: Counts)
    ensures
        ({
            let after = entries.map_values(
                crate::provider_preparer::actor::cancelling(counts),
            );
            let waiting = crate::provider_preparer::actor::in_phase(
                ProviderPreparationPhase::Queued,
            );
            let through = crate::provider_preparer::actor::is_through();
            &&& crate::provider_preparer::actor::counted(after, waiting) == 0
            &&& crate::provider_preparer::actor::counted(after, through)
                == crate::provider_preparer::actor::counted(entries, through)
                + crate::provider_preparer::actor::counted(entries, waiting)
            &&& forall|phase: ProviderPreparationPhase|
                phase == ProviderPreparationPhase::Preparing || phase
                    == ProviderPreparationPhase::Retrying
                    ==> #[trigger] crate::provider_preparer::actor::counted(
                    after,
                    crate::provider_preparer::actor::in_phase(phase),
                ) == crate::provider_preparer::actor::counted(
                    entries,
                    crate::provider_preparer::actor::in_phase(phase),
                )
        }),
    decreases entries.len(),
{
    let change = crate::provider_preparer::actor::cancelling(counts);
    let after = entries.map_values(change);
    if entries.len() > 0 {
        counts_after_cancelling(entries.drop_last(), counts);
        assert(after.drop_last() =~= entries.drop_last().map_values(change));
        assert(after.last() == crate::provider_preparer::actor::cancelled(entries.last(), counts));
        assert forall|phase: ProviderPreparationPhase|
            phase == ProviderPreparationPhase::Preparing || phase
                == ProviderPreparationPhase::Retrying implies #[trigger]
            crate::provider_preparer::actor::counted(
            after,
            crate::provider_preparer::actor::in_phase(phase),
        ) == crate::provider_preparer::actor::counted(
            entries,
            crate::provider_preparer::actor::in_phase(phase),
        ) by {
            assert(crate::provider_preparer::actor::counted(
                after.drop_last(),
                crate::provider_preparer::actor::in_phase(phase),
            ) == crate::provider_preparer::actor::counted(
                entries.drop_last(),
                crate::provider_preparer::actor::in_phase(phase),
            ));
        }
    }
}

/// Each request, dispatch, completion and shutdown keeps the preparer in order.
pub proof fn the_preparer_stays_in_order(
    preparer: PreparerView,
    job: JobView,
    priority: ProviderPriority,
    repaired: bool,
    i: int,
    result: Result<(), Seq<char>>,
)
    requires
        preparer.wf(),
    ensures
        !preparer.shutting_down && preparer.entries.len() < u32::MAX
            ==> crate::provider_preparer::actor::enqueued(preparer, job, priority, repaired).wf(),
        crate::provider_preparer::actor::may_start(preparer)
            ==> crate::provider_preparer::actor::dispatched(preparer).wf(),
        0 <= i < preparer.entries.len() && preparer.running > 0 && preparer.entries[i].phase
            == ProviderPreparationPhase::Preparing ==> crate::provider_preparer::actor::finished(
            preparer,
            i,
            result,
        ).wf(),
        crate::provider_preparer::actor::shut_down(preparer).wf(),
{
    requests_keep_order(preparer, job, priority, repaired);
    dispatch_keeps_order(preparer);
    completion_keeps_order(preparer, i, result);
    shutdown_keeps_order(preparer);
}

proof fn requests_keep_order(
    preparer: PreparerView,
    job: JobView,
    priority: ProviderPriority,
    repaired: bool,
)
    requires
        preparer.wf(),
    ensures
        !preparer.shutting_down && preparer.entries.len() < u32::MAX
            ==> crate::provider_preparer::actor::enqueued(preparer, job, priority, repaired).wf(),
{
    let entries = preparer.entries;
    place_is_right(entries, job.provider_id);
    counts_add_up(entries);
    counted_is_bounded(
        entries,
        crate::provider_preparer::actor::in_phase(ProviderPreparationPhase::Queued),
    );
    match crate::provider_preparer::actor::place(entries, job.provider_id) {
        None => {
            let after = crate::provider_preparer::actor::admitted(preparer, job, priority);
            let added = after.entries.last();
            assert(after.entries == entries.push(added));
            counted_after_push(
                entries,
                added,
                crate::provider_preparer::actor::in_phase(ProviderPreparationPhase::Queued),
            );
            counted_after_push(
                entries,
                added,
                crate::provider_preparer::actor::in_phase(ProviderPreparationPhase::Preparing),
            );
            counted_after_push(
                entries,
                added,
                crate::provider_preparer::actor::in_phase(ProviderPreparationPhase::Retrying),
            );
            counted_after_push(entries, added, crate::provider_preparer::actor::is_through());
        },
        Some(i) => {
            if repaired && entries[i].phase.terminal() {
                counted_has_a_witness(entries, crate::provider_preparer::actor::is_through(), i);
                let after = crate::provider_preparer::actor::requeued(preparer, i, job, priority);
                assert(after.entries =~= entries.update(i, after.entries[i]));
                counts_after_update(entries, i, after.entries[i]);
            } else {
                let after = crate::provider_preparer::actor::merged_in(preparer, i, job, priority);
                counts_after_update(entries, i, after.entries[i]);
            }
        },
    }
}

proof fn dispatch_keeps_order(preparer: PreparerView)
    requires
        preparer.wf(),
    ensures
        crate::provider_preparer::actor::may_start(preparer)
            ==> crate::provider_preparer::actor::dispatched(preparer).wf(),
{
    if crate::provider_preparer::actor::may_start(preparer) {
        let entries = preparer.entries;
        front_comes_first(entries);
        let i = crate::provider_preparer::actor::front(entries)->0;
        counts_add_up(entries);
        counted_has_a_witness(
            entries,
            crate::provider_preparer::actor::in_phase(ProviderPreparationPhase::Queued),
            i,
        );
        counted_is_bounded(entries, crate::provider_preparer::actor::is_through());
        let after = crate::provider_preparer::actor::dispatched(preparer);
        counts_after_update(entries, i, after.entries[i]);
    }
}

proof fn completion_keeps_order(preparer: PreparerView, i: int, result: Result<(), Seq<char>>)
    requires
        preparer.wf(),
    ensures
        0 <= i < preparer.entries.len() && preparer.running > 0 && preparer.entries[i].phase
            == ProviderPreparationPhase::Preparing ==> crate::provider_preparer::actor::finished(
            preparer,
            i,
            result,
        ).wf(),
{
    let entries = preparer.entries;
    if 0 <= i < entries.len() && entries[i].phase == ProviderPreparationPhase::Preparing {
        counts_add_up(entries);
        counted_has_a_witness(
            entries,
            crate::provider_preparer::actor::in_phase(ProviderPreparationPhase::Preparing),
            i,
        );
        counted_is_bounded(
            entries,
            crate::provider_preparer::actor::in_phase(ProviderPreparationPhase::Queued),
        );
        let after = crate::provider_preparer::actor::finished(preparer, i, result);
        counts_after_update(entries, i, after.entries[i]);
    }
}

proof fn shutdown_keeps_order(preparer: PreparerView)
    requires
        preparer.wf(),
    ensures
        crate::provider_preparer::actor::shut_down(preparer).wf(),
{
    if !preparer.shutting_down {
        let counts = crate::provider_preparer::actor::counts_after_shutdown(preparer.counts);
        counts_add_up(preparer.entries);
        counted_is_bounded(
            preparer.entries,
            crate::provider_preparer::actor::in_phase(ProviderPreparationPhase::Preparing),
        );
        counts_after_cancelling(preparer.entries, counts);
        let after = crate::provider_preparer::actor::shut_down(preparer);
        assert(forall|j: int|
            0 <= j < preparer.entries.len() ==> (#[trigger] after.entries[j]).job
                == preparer.entries[j].job);
    }
}

/// Every artifact the preparer knows waits, is being prepared or is through,
/// and is counted as such.
pub proof fn every_artifact_is_counted_once(preparer: PreparerView)
    requires
        preparer.wf(),
    ensures
        preparer.counts.queued + preparer.counts.active + preparer.counts.completed
            == preparer.entries.len(),
{
    counts_add_up(preparer.entries);
}

/// A worker takes the waiting artifact of the highest priority, and among
/// equals the earliest; everything else stays as it is.
pub proof fn the_foremost_artifact_goes_first(preparer: PreparerView)
    requires
        crate::provider_preparer::actor::may_start(preparer),
    ensures
        ({
            let i = crate::provider_preparer::actor::front(preparer.entries)->0;
            let after = crate::provider_preparer::actor::dispatched(preparer);
            &&& 0 <= i < preparer.entries.len()
            &&& preparer.entries[i].phase == ProviderPreparationPhase::Queued
            &&& after.entries[i].phase == ProviderPreparationPhase::Preparing
            &&& forall|j: int|
                0 <= j < preparer.entries.len() && (#[trigger] preparer.entries[j]).phase
                    == ProviderPreparationPhase::Queued
                    ==> !crate::provider_preparer::actor::comes_first(
                    preparer.entries[j].priority,
                    preparer.entries[j].sequence,
                    preparer.entries[i].priority,
                    preparer.entries[i].sequence,
                )
            &&& forall|j: int|
                0 <= j < preparer.entries.len() && j != i ==> #[trigger] after.entries[j]
                    == preparer.entries[j]
        }),
{
    front_comes_first(preparer.entries);
}

/// An artifact that is asked for again is not kept again: it keeps its place,
/// takes up the names of the request, and the other artifacts stay as they
/// are.
pub proof fn a_known_artifact_is_not_kept_again(
    preparer: PreparerView,
    job: JobView,
    priority: ProviderPriority,
    repaired: bool,
)
    requires
        preparer.wf(),
        crate::provider_preparer::actor::place(preparer.entries, job.provider_id) is Some,
    ensures
        ({
            let i = crate::provider_preparer::actor::place(preparer.entries, job.provider_id)->0;
            let after = crate::provider_preparer::actor::enqueued(
                preparer,
                job,
                priority,
                repaired,
            );
            &&& after.entries.len() == preparer.entries.len()
            &&& after.entries[i].job == crate::provider_preparer::merged(
                preparer.entries[i].job,
                job,
            )
            &&& after.entries[i].priority.rank() >= preparer.entries[i].priority.rank()
            &&& forall|j: int|
                0 <= j < preparer.entries.len() && j != i ==> #[trigger] after.entries[j]
                    == preparer.entries[j]
        }),
{
    place_is_right(preparer.entries, job.provider_id);
}

/// Only a repair makes an artifact that is through wait again; it is then
/// reported as retrying and as queued, with one more retry.
pub proof fn a_repaired_artifact_is_tried_again(
    preparer: PreparerView,
    job: JobView,
    priority: ProviderPriority,
    repaired: bool,
)
    requires
        preparer.wf(),
        crate::provider_preparer::actor::place(preparer.entries, job.provider_id) is Some,
        preparer.entries[crate::provider_preparer::actor::place(
            preparer.entries,
            job.provider_id,
        )->0].phase.terminal(),
    ensures
        ({
            let i = crate::provider_preparer::actor::place(preparer.entries, job.provider_id)->0;
            let known = preparer.entries[i];
            let after = crate::provider_preparer::actor::enqueued(
                preparer,
                job,
                priority,
                repaired,
            );
            let told = after.reports.skip(preparer.reports.len() as int);
            if repaired {
                &&& after.entries[i].phase == ProviderPreparationPhase::Queued
                &&& known.retry_count < u32::MAX ==> after.entries[i].retry_count
                    == known.retry_count + 1
                &&& told.len() == 2
                &&& told[0].phase == ProviderPreparationPhase::Retrying
                &&& told[1].phase == ProviderPreparationPhase::Queued
                &&& told[0].provider_id == job.provider_id
                &&& told[1].provider_id == job.provider_id
            } else {
                &&& after.entries[i].phase == known.phase
                &&& after.entries[i].retry_count == known.retry_count
                &&& told.len() == 1
                &&& told[0].phase == known.phase
            }
        }),
{
    place_is_right(preparer.entries, job.provider_id);
}

/// The end of one preparation, good or bad, leaves every other artifact as it
/// is.
pub proof fn a_failure_stays_with_its_artifact(
    preparer: PreparerView,
    i: int,
    result: Result<(), Seq<char>>,
)
    requires
        0 <= i < preparer.entries.len(),
    ensures
        ({
            let after = crate::provider_preparer::actor::finished(preparer, i, result);
            &&& after.entries[i].phase.terminal()
            &&& (after.entries[i].phase == ProviderPreparationPhase::Ready) == (result is Ok)
            &&& forall|j: int|
                0 <= j < preparer.entries.len() && j != i ==> #[trigger] after.entries[j]
                    == preparer.entries[j]
        }),
{
}

/// Shutdown leaves nothing waiting: what waited has failed as cancelled, what
/// runs goes on, and no worker starts any more.
pub proof fn shutdown_cancels_what_waits(preparer: PreparerView)
    requires
        preparer.wf(),
        !preparer.shutting_down,
    ensures
        ({
            let after = crate::provider_preparer::actor::shut_down(preparer);
            &&& after.entries.len() == preparer.entries.len()
            &&& !crate::provider_preparer::actor::may_start(after)
            &&& forall|j: int|
                0 <= j < preparer.entries.len() ==> (#[trigger] after.entries[j]).phase
                    != ProviderPreparationPhase::Queued && (if preparer.entries[j].phase
                    == ProviderPreparationPhase::Queued {
                    after.entries[j].phase == ProviderPreparationPhase::Failed
                        && after.entries[j].error_code == Some("provider_prepare_cancelled"@)
                } else {
                    after.entries[j] == preparer.entries[j]
                })
        }),
{
}

} // verus!
