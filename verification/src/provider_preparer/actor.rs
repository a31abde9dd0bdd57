//! The preparer itself: admission, dispatch, completion and shutdown.
use crate::name::ProviderId;
use crate::provider_preparer::{
    merge_identity, status_for, status_for_entry, Counts, Entry, EntryView, JobView,
    PreparationView, ProviderPreparationJob, ProviderPreparationPhase, ProviderPreparationStatus,
    ProviderPreparerError, ProviderPriority,
};
use std::sync::Arc;
use vstd::prelude::*;

verus! {

/// How many artifacts are prepared at the same time.
pub const PROVIDER_WORKERS: usize = 1;

/// The artifacts the preparer was given and how far each of them is.
#[derive(Debug, PartialEq, Eq)]
pub struct ProviderPreparer {
    pub worker_limit: usize,
    pub entries: Vec<Entry>,
    pub running: usize,
    pub counts: Counts,
    pub next_sequence: u64,
    pub shutting_down: bool,
    /// Every status that was reported and not yet taken.
    pub reports: Vec<ProviderPreparationStatus>,
}

/// [`ProviderPreparer`] by what it stands for.
#[verifier::ext_equal]
pub struct PreparerView {
    pub worker_limit: usize,
    pub entries: Seq<EntryView>,
    pub running: usize,
    pub counts: Counts,
    pub next_sequence: u64,
    pub shutting_down: bool,
    pub reports: Seq<PreparationView>,
}

impl View for ProviderPreparer {
    type V = PreparerView;

    open spec fn view(&self) -> PreparerView {
        PreparerView {
            worker_limit: self.worker_limit,
            entries: crate::list::views(self.entries@),
            running: self.running,
            counts: self.counts,
            next_sequence: self.next_sequence,
            shutting_down: self.shutting_down,
            reports: crate::list::views(self.reports@),
        }
    }
}

/// How many artifacts a test holds of.
pub open spec fn counted(entries: Seq<EntryView>, test: spec_fn(EntryView) -> bool) -> int
    decreases entries.len(),
{
    if entries.len() == 0 {
        0
    } else {
        counted(entries.drop_last(), test) + (if test(entries.last()) {
            1int
        } else {
            0int
        })
    }
}

/// Whether an artifact is in a phase.
pub open spec fn in_phase(phase: ProviderPreparationPhase) -> spec_fn(EntryView) -> bool {
    |entry: EntryView| entry.phase == phase
}

/// Whether an artifact is through.
pub open spec fn is_through() -> spec_fn(EntryView) -> bool {
    |entry: EntryView| entry.phase.terminal()
}

/// Whether a place in the queue comes before another: the higher priority
/// first, and among equals the earlier arrival.
pub open spec fn comes_first(
    priority: ProviderPriority,
    sequence: u64,
    other_priority: ProviderPriority,
    other_sequence: u64,
) -> bool {
    priority.rank() > other_priority.rank() || (priority == other_priority && sequence
        < other_sequence)
}

/// Whether an artifact waits before a place in the queue.
pub open spec fn waits_before(priority: ProviderPriority, sequence: u64) -> spec_fn(
    EntryView,
) -> bool {
    |entry: EntryView|
        entry.phase == ProviderPreparationPhase::Queued && comes_first(
            entry.priority,
            entry.sequence,
            priority,
            sequence,
        )
}

/// The number of a place in the queue, from one upward.
pub open spec fn place_number(
    entries: Seq<EntryView>,
    priority: ProviderPriority,
    sequence: u64,
) -> u32 {
    let ahead = counted(entries, waits_before(priority, sequence));
    if ahead + 1 <= u32::MAX {
        (ahead + 1) as u32
    } else {
        u32::MAX
    }
}

/// Where an artifact is kept.
pub open spec fn place(entries: Seq<EntryView>, provider_id: ProviderId) -> Option<int>
    decreases entries.len(),
{
    if entries.len() == 0 {
        None
    } else if entries.last().job.provider_id == provider_id {
        Some(entries.len() - 1)
    } else {
        place(entries.drop_last(), provider_id)
    }
}

/// The artifact to prepare next: no waiting artifact comes before it.
pub open spec fn front(entries: Seq<EntryView>) -> Option<int>
    decreases entries.len(),
{
    if entries.len() == 0 {
        None
    } else {
        let last = entries.last();
        let best = front(entries.drop_last());
        if last.phase != ProviderPreparationPhase::Queued {
            best
        } else {
            match best {
                None => Some(entries.len() - 1),
                Some(best) => if comes_first(
                    last.priority,
                    last.sequence,
                    entries[best].priority,
                    entries[best].sequence,
                ) {
                    Some(entries.len() - 1)
                } else {
                    Some(best)
                },
            }
        }
    }
}

/// No artifact is kept twice.
pub open spec fn kept_once(entries: Seq<EntryView>) -> bool {
    forall|i: int, j: int|
        #![trigger entries[i], entries[j]]
        0 <= i < j < entries.len() ==> entries[i].job.provider_id != entries[j].job.provider_id
}

impl PreparerView {
    /// The counts are those of the artifacts, each artifact is kept once and
    /// never rests between a repair and its new place in the queue, and no
    /// more workers run than the limit allows.
    pub open spec fn wf(self) -> bool {
        &&& kept_once(self.entries)
        &&& self.entries.len() <= u32::MAX
        &&& self.counts.queued == counted(self.entries, in_phase(ProviderPreparationPhase::Queued))
        &&& self.counts.active == counted(
            self.entries,
            in_phase(ProviderPreparationPhase::Preparing),
        )
        &&& self.counts.completed == counted(self.entries, is_through())
        &&& counted(self.entries, in_phase(ProviderPreparationPhase::Retrying)) == 0
        &&& self.running <= self.counts.active
        &&& self.running <= self.worker_limit
        &&& self.shutting_down ==> self.counts.queued == 0
    }
}

impl ProviderPreparer {
    /// See [`PreparerView::wf`].
    pub open spec fn wf(&self) -> bool {
        self@.wf()
    }
}

/// One artifact changed, and its status reported.
pub open spec fn reported(preparer: PreparerView, i: int, entry: EntryView) -> PreparerView {
    let status = crate::provider_preparer::status_of(entry, preparer.counts);
    PreparerView {
        entries: preparer.entries.update(i, EntryView { status, ..entry }),
        reports: preparer.reports.push(status),
        ..preparer
    }
}

/// The sequence number after another.
pub open spec fn next_number(sequence: u64) -> u64 {
    if sequence == u64::MAX {
        0
    } else {
        (sequence + 1) as u64
    }
}

/// A new artifact waits at the end of its priority.
pub open spec fn admitted(
    preparer: PreparerView,
    job: JobView,
    priority: ProviderPriority,
) -> PreparerView {
    let sequence = next_number(preparer.next_sequence);
    let position = place_number(preparer.entries, priority, sequence);
    let counts = Counts { queued: (preparer.counts.queued + 1) as u32, ..preparer.counts };
    let status = crate::provider_preparer::status_from(
        job,
        priority,
        ProviderPreparationPhase::Queued,
        Some(position),
        counts,
        0,
        None,
        None,
    );
    PreparerView {
        entries: preparer.entries.push(
            EntryView {
                job,
                priority,
                phase: ProviderPreparationPhase::Queued,
                sequence,
                retry_count: 0,
                queue_position: Some(position),
                error_code: None,
                detail: None,
                status,
            },
        ),
        counts,
        next_sequence: sequence,
        reports: preparer.reports.push(status),
        ..preparer
    }
}

/// A repaired artifact is reported as retrying and waits again, at the end of
/// the higher of its two priorities.
pub open spec fn requeued(
    preparer: PreparerView,
    i: int,
    job: JobView,
    priority: ProviderPriority,
) -> PreparerView {
    let known = preparer.entries[i];
    let retrying = EntryView {
        job: crate::provider_preparer::merged(known.job, job),
        priority: if priority.rank() > known.priority.rank() {
            priority
        } else {
            known.priority
        },
        retry_count: if known.retry_count == u32::MAX {
            u32::MAX
        } else {
            (known.retry_count + 1) as u32
        },
        phase: ProviderPreparationPhase::Retrying,
        error_code: None,
        detail: None,
        ..known
    };
    let told = reported(
        PreparerView {
            counts: Counts {
                completed: (preparer.counts.completed - 1) as u32,
                ..preparer.counts
            },
            ..preparer
        },
        i,
        retrying,
    );
    let sequence = next_number(preparer.next_sequence);
    let position = place_number(told.entries, retrying.priority, sequence);
    reported(
        PreparerView {
            counts: Counts { queued: (told.counts.queued + 1) as u32, ..told.counts },
            next_sequence: sequence,
            ..told
        },
        i,
        EntryView {
            sequence,
            phase: ProviderPreparationPhase::Queued,
            queue_position: Some(position),
            ..told.entries[i]
        },
    )
}

/// A known artifact takes up the names of the request, and its priority where
/// it still waits and the request's is higher.
pub open spec fn merged_in(
    preparer: PreparerView,
    i: int,
    job: JobView,
    priority: ProviderPriority,
) -> PreparerView {
    let known = preparer.entries[i];
    reported(
        preparer,
        i,
        EntryView {
            job: crate::provider_preparer::merged(known.job, job),
            priority: if known.phase == ProviderPreparationPhase::Queued && priority.rank()
                > known.priority.rank() {
                priority
            } else {
                known.priority
            },
            ..known
        },
    )
}

/// A request for an artifact.
pub open spec fn enqueued(
    preparer: PreparerView,
    job: JobView,
    priority: ProviderPriority,
    repaired: bool,
) -> PreparerView {
    match place(preparer.entries, job.provider_id) {
        None => admitted(preparer, job, priority),
        Some(i) => if repaired && preparer.entries[i].phase.terminal() {
            requeued(preparer, i, job, priority)
        } else {
            merged_in(preparer, i, job, priority)
        },
    }
}

/// Whether a worker may start.
pub open spec fn may_start(preparer: PreparerView) -> bool {
    !preparer.shutting_down && preparer.running < preparer.worker_limit && front(preparer.entries)
        is Some
}

/// The foremost artifact is being prepared.
pub open spec fn dispatched(preparer: PreparerView) -> PreparerView {
    let i = front(preparer.entries)->0;
    reported(
        PreparerView {
            running: (preparer.running + 1) as usize,
            counts: Counts {
                queued: (preparer.counts.queued - 1) as u32,
                active: (preparer.counts.active + 1) as u32,
                ..preparer.counts
            },
            ..preparer
        },
        i,
        EntryView {
            phase: ProviderPreparationPhase::Preparing,
            queue_position: None,
            ..preparer.entries[i]
        },
    )
}

/// An artifact is through: ready, or failed with a reason.
pub open spec fn finished(
    preparer: PreparerView,
    i: int,
    result: Result<(), Seq<char>>,
) -> PreparerView {
    let entry = preparer.entries[i];
    reported(
        PreparerView {
            running: (preparer.running - 1) as usize,
            counts: Counts {
                active: (preparer.counts.active - 1) as u32,
                completed: (preparer.counts.completed + 1) as u32,
                ..preparer.counts
            },
            ..preparer
        },
        i,
        match result {
            Ok(_) => EntryView {
                phase: ProviderPreparationPhase::Ready,
                error_code: None,
                detail: None,
                ..entry
            },
            Err(detail) => EntryView {
                phase: ProviderPreparationPhase::Failed,
                error_code: Some("provider_prepare_failed"@),
                detail: Some(detail),
                ..entry
            },
        },
    )
}

/// The outcome of a preparation by what its reason spells.
pub open spec fn outcome_of(result: Result<(), String>) -> Result<(), Seq<char>> {
    match result {
        Ok(_) => Ok(()),
        Err(detail) => Err(detail@),
    }
}

/// An artifact as shutdown leaves it: what still waited is cancelled.
pub open spec fn cancelled(entry: EntryView, counts: Counts) -> EntryView {
    if entry.phase == ProviderPreparationPhase::Queued {
        let ended = EntryView {
            phase: ProviderPreparationPhase::Failed,
            queue_position: None,
            error_code: Some("provider_prepare_cancelled"@),
            detail: Some("daemon shutdown cancelled queued preparation"@),
            ..entry
        };
        EntryView { status: crate::provider_preparer::status_of(ended, counts), ..ended }
    } else {
        entry
    }
}

/// What shutdown makes of each artifact.
pub open spec fn cancelling(counts: Counts) -> spec_fn(EntryView) -> EntryView {
    |entry: EntryView| cancelled(entry, counts)
}

/// The counts after everything that waited was cancelled.
pub open spec fn counts_after_shutdown(counts: Counts) -> Counts {
    Counts { queued: 0, completed: (counts.completed + counts.queued) as u32, ..counts }
}

/// Admission stops and everything that waited is cancelled. Work that runs
/// goes on.
pub open spec fn shut_down(preparer: PreparerView) -> PreparerView {
    if preparer.shutting_down {
        preparer
    } else {
        let counts = counts_after_shutdown(preparer.counts);
        PreparerView {
            shutting_down: true,
            counts,
            entries: preparer.entries.map_values(cancelling(counts)),
            reports: preparer.reports + preparer.entries.filter(
                in_phase(ProviderPreparationPhase::Queued),
            ).map_values(|entry: EntryView| cancelled(entry, counts).status),
            ..preparer
        }
    }
}

/// What was reported has been taken.
pub open spec fn without_reports(preparer: PreparerView) -> PreparerView {
    PreparerView { reports: Seq::empty(), ..preparer }
}

/// The artifact a worker is to prepare.
#[derive(Debug, PartialEq, Eq)]
pub struct PreparationTask {
    pub provider_id: ProviderId,
    pub bytes: Arc<Vec<u8>>,
}

/// What the preparer waits for next.
#[derive(Clone, Copy, Debug, PartialEq, Eq, Structural)]
pub enum Wait {
    /// Shutdown is complete.
    Finished,
    /// The next request.
    Request,
    /// The next request or the end of a preparation.
    RequestOrCompletion,
    /// The end of a preparation.
    Completion,
}

impl ProviderPreparer {
    /// A preparer that knows no artifact.
    pub fn new(worker_limit: usize) -> (preparer: Self)
        requires
            worker_limit > 0,
        ensures
            preparer.wf(),
            preparer@ == (PreparerView {
                worker_limit,
                entries: Seq::empty(),
                running: 0,
                counts: Counts { queued: 0, active: 0, completed: 0 },
                next_sequence: 0,
                shutting_down: false,
                reports: Seq::empty(),
            }),
    {
        ProviderPreparer {
            worker_limit,
            entries: Vec::new(),
            running: 0,
            counts: Counts { queued: 0, active: 0, completed: 0 },
            next_sequence: 0,
            shutting_down: false,
            reports: Vec::new(),
        }
    }

    /// Hands out what was reported.
    pub fn take_reports(&mut self) -> (reports: Vec<ProviderPreparationStatus>)
        ensures
            crate::list::views(reports@) == old(self)@.reports,
            final(self)@ == without_reports(old(self)@),
            old(self).wf() ==> final(self).wf(),
    {
        let mut reports: Vec<ProviderPreparationStatus> = Vec::new();
        std::mem::swap(&mut reports, &mut self.reports);
        assert(self@.entries == old(self)@.entries);
        reports
    }

    /// Where an artifact is kept.
    fn find(&self, provider_id: ProviderId) -> (found: Option<usize>)
        ensures
            match found {
                Some(i) => i < self.entries@.len() && place(self@.entries, provider_id) == Some(
                    i as int,
                ),
                None => place(self@.entries, provider_id) is None,
            },
    {
        let mut found: Option<usize> = None;
        let mut i: usize = 0;
        let ghost all = self@.entries;
        while i < self.entries.len()
            invariant
                i <= self.entries@.len(),
                all == crate::list::views(self.entries@),
                match found {
                    Some(at) => at < i && place(all.take(i as int), provider_id) == Some(
                        at as int,
                    ),
                    None => place(all.take(i as int), provider_id) is None,
                },
            decreases self.entries@.len() - i,
        {
            assert(all.take(i + 1).drop_last() =~= all.take(i as int));
            assert(all.take(i + 1).last() == self.entries@[i as int]@);
            if self.entries[i].job.provider_id == provider_id {
                found = Some(i);
            }
            i = i + 1;
        }
        assert(all.take(i as int) =~= all);
        found
    }

    /// The number of a place in the queue, from one upward.
    fn queue_position(&self, priority: ProviderPriority, sequence: u64) -> (position: u32)
        requires
            self@.entries.len() <= u32::MAX,
        ensures
            position == place_number(self@.entries, priority, sequence),
    {
        let mut ahead: usize = 0;
        let mut i: usize = 0;
        let ghost all = self@.entries;
        let ghost test = waits_before(priority, sequence);
        while i < self.entries.len()
            invariant
                i <= self.entries@.len(),
                self.entries@.len() <= u32::MAX,
                all == crate::list::views(self.entries@),
                test == waits_before(priority, sequence),
                ahead == counted(all.take(i as int), test),
                ahead <= i,
            decreases self.entries@.len() - i,
        {
            assert(all.take(i + 1).drop_last() =~= all.take(i as int));
            assert(all.take(i + 1).last() == self.entries@[i as int]@);
            let entry = &self.entries[i];
            if entry.phase == ProviderPreparationPhase::Queued && (entry.priority.above(priority)
                || entry.priority == priority && entry.sequence < sequence) {
                ahead = ahead + 1;
            }
            i = i + 1;
        }
        assert(all.take(i as int) =~= all);
        if ahead < u32::MAX as usize {
            ahead as u32 + 1
        } else {
            u32::MAX
        }
    }

    /// The artifact to prepare next.
    fn foremost(&self) -> (best: Option<usize>)
        ensures
            match best {
                Some(i) => i < self.entries@.len() && front(self@.entries) == Some(i as int),
                None => front(self@.entries) is None,
            },
    {
        let mut best: Option<usize> = None;
        let mut i: usize = 0;
        let ghost all = self@.entries;
        while i < self.entries.len()
            invariant
                i <= self.entries@.len(),
                all == crate::list::views(self.entries@),
                match best {
                    Some(at) => at < i && front(all.take(i as int)) == Some(at as int),
                    None => front(all.take(i as int)) is None,
                },
            decreases self.entries@.len() - i,
        {
            assert(all.take(i + 1).drop_last() =~= all.take(i as int));
            assert(all.take(i + 1).last() == self.entries@[i as int]@);
            let entry = &self.entries[i];
            if entry.phase == ProviderPreparationPhase::Queued {
                match best {
                    None => {
                        best = Some(i);
                    },
                    Some(at) => {
                        let leader = &self.entries[at];
                        assert(all.take(i + 1)[at as int] == leader@);
                        if entry.priority.above(leader.priority) || entry.priority
                            == leader.priority && entry.sequence < leader.sequence {
                            best = Some(i);
                        }
                    },
                }
            }
            i = i + 1;
        }
        assert(all.take(i as int) =~= all);
        best
    }

    /// Reports the status of one artifact.
    fn report(&mut self, i: usize)
        requires
            i < old(self).entries@.len(),
        ensures
            final(self)@ == reported(old(self)@, i as int, old(self)@.entries[i as int]),
            final(self).entries@.len() == old(self).entries@.len(),
    {
        let status = status_for_entry(&self.entries[i], self.counts);
        let shared = status.clone();
        self.entries[i].status = shared;
        self.reports.push(status);
        proof {
            let before = old(self)@;
            assert(self@.entries =~= reported(before, i as int, before.entries[i as int]).entries);
            assert(self@.reports =~= reported(before, i as int, before.entries[i as int]).reports);
        }
    }

    /// Takes a request for an artifact, unless the preparer shuts down. An
    /// artifact that is known already is not kept a second time.
    pub fn enqueue(
        &mut self,
        job: ProviderPreparationJob,
        priority: ProviderPriority,
        repaired: bool,
    ) -> (outcome: Result<(), ProviderPreparerError>)
        requires
            old(self).wf(),
            old(self).entries@.len() < u32::MAX,
        ensures
            final(self).wf(),
            match outcome {
                Ok(_) => !old(self)@.shutting_down && final(self)@ == enqueued(
                    old(self)@,
                    job@,
                    priority,
                    repaired,
                ),
                Err(error) => old(self)@.shutting_down && error
                    == ProviderPreparerError::ShuttingDown && final(self)@ == old(self)@,
            },
    {
        if self.shutting_down {
            return Err(ProviderPreparerError::ShuttingDown);
        }
        proof {
            crate::provider_preparer::laws::the_preparer_stays_in_order(
                self@,
                job@,
                priority,
                repaired,
                0,
                Ok(()),
            );
            crate::provider_preparer::laws::place_is_right(self@.entries, job@.provider_id);
            crate::provider_preparer::laws::counts_add_up(self@.entries);
            crate::provider_preparer::laws::counted_is_bounded(
                self@.entries,
                in_phase(ProviderPreparationPhase::Queued),
            );
        }
        match self.find(job.provider_id) {
            Some(i) => {
                proof {
                    if self@.entries[i as int].phase.terminal() {
                        crate::provider_preparer::laws::counted_has_a_witness(
                            self@.entries,
                            is_through(),
                            i as int,
                        );
                    }
                }
                self.update_existing(i, &job, priority, repaired)
            },
            None => self.keep_new(job, priority),
        }
        Ok(())
    }

    /// Keeps a new artifact.
    fn keep_new(&mut self, job: ProviderPreparationJob, priority: ProviderPriority)
        requires
            old(self)@.counts.queued < u32::MAX,
            old(self)@.entries.len() < u32::MAX,
        ensures
            final(self)@ == admitted(old(self)@, job@, priority),
    {
        self.next_sequence = if self.next_sequence == u64::MAX {
            0
        } else {
            self.next_sequence + 1
        };
        let sequence: u64 = self.next_sequence;
        let position: u32 = self.queue_position(priority, sequence);
        self.counts.queued = self.counts.queued + 1;
        let status = status_for(
            &job,
            priority,
            ProviderPreparationPhase::Queued,
            Some(position),
            self.counts,
            0,
            None,
            None,
        );
        let shared = status.clone();
        self.entries.push(
            Entry {
                job,
                priority,
                phase: ProviderPreparationPhase::Queued,
                sequence,
                retry_count: 0,
                queue_position: Some(position),
                error_code: None,
                detail: None,
                status: shared,
            },
        );
        self.reports.push(status);
        proof {
            let after = admitted(old(self)@, job@, priority);
            assert(self@.entries =~= after.entries);
            assert(self@.reports =~= after.reports);
        }
    }

    /// Takes up another request for a known artifact.
    fn update_existing(
        &mut self,
        i: usize,
        job: &ProviderPreparationJob,
        priority: ProviderPriority,
        repaired: bool,
    )
        requires
            i < old(self).entries@.len(),
            old(self)@.entries.len() < u32::MAX,
            old(self)@.counts.queued < u32::MAX,
            old(self)@.entries[i as int].phase.terminal() ==> old(self)@.counts.completed > 0,
        ensures
            final(self)@ == (if repaired && old(self)@.entries[i as int].phase.terminal() {
                requeued(old(self)@, i as int, job@, priority)
            } else {
                merged_in(old(self)@, i as int, job@, priority)
            }),
    {
        let ghost before = self@;
        let ghost at = i as int;
        merge_identity(&mut self.entries[i], job);
        let higher = priority.above(self.entries[i].priority);
        if repaired && self.entries[i].phase.is_terminal() {
            self.counts.completed = self.counts.completed - 1;
            if higher {
                self.entries[i].priority = priority;
            }
            let retries: u32 = self.entries[i].retry_count;
            if retries < u32::MAX {
                self.entries[i].retry_count = retries + 1;
            }
            self.entries[i].phase = ProviderPreparationPhase::Retrying;
            self.entries[i].error_code = None;
            self.entries[i].detail = None;
            let ghost changed = self@;
            self.report(i);
            let ghost told = self@;
            self.next_sequence = if self.next_sequence == u64::MAX {
                0
            } else {
                self.next_sequence + 1
            };
            self.counts.queued = self.counts.queued + 1;
            let sequence: u64 = self.next_sequence;
            let waiting = self.entries[i].priority;
            let position: u32 = self.queue_position(waiting, sequence);
            self.entries[i].sequence = sequence;
            self.entries[i].phase = ProviderPreparationPhase::Queued;
            self.entries[i].queue_position = Some(position);
            let ghost queued = self@;
            self.report(i);
            proof {
                let after = requeued(before, at, job@, priority);
                assert(changed.entries =~= before.entries.update(at, changed.entries[at]));
                assert(told.entries =~= before.entries.update(at, told.entries[at]));
                assert(queued.entries =~= told.entries.update(at, queued.entries[at]));
                assert(self@.entries =~= after.entries);
                assert(self@.reports =~= after.reports);
            }
            return;
        }
        if self.entries[i].phase == ProviderPreparationPhase::Queued && higher {
            self.entries[i].priority = priority;
        }
        let ghost changed = self@;
        self.report(i);
        proof {
            let after = merged_in(before, at, job@, priority);
            assert(changed.entries =~= before.entries.update(at, changed.entries[at]));
            assert(self@.entries =~= after.entries);
            assert(self@.reports =~= after.reports);
        }
    }

    /// Starts the foremost artifact where a worker is free.
    pub fn dispatch(&mut self) -> (task: Option<PreparationTask>)
        requires
            old(self).wf(),
        ensures
            final(self).wf(),
            match task {
                Some(task) => may_start(old(self)@) && final(self)@ == dispatched(old(self)@)
                    && task.provider_id == old(self)@.entries[front(
                    old(self)@.entries,
                )->0].job.provider_id && task.bytes@ == old(self)@.entries[front(
                    old(self)@.entries,
                )->0].job.bytes,
                None => !may_start(old(self)@) && final(self)@ == old(self)@,
            },
    {
        if self.shutting_down || self.running >= self.worker_limit {
            return None;
        }
        let ghost before = self@;
        proof {
            crate::provider_preparer::laws::the_preparer_stays_in_order(
                before,
                arbitrary(),
                ProviderPriority::Embedded,
                false,
                0,
                Ok(()),
            );
            crate::provider_preparer::laws::front_comes_first(before.entries);
            crate::provider_preparer::laws::counts_add_up(before.entries);
            crate::provider_preparer::laws::counted_is_bounded(before.entries, is_through());
        }
        match self.foremost() {
            None => None,
            Some(i) => {
                proof {
                    crate::provider_preparer::laws::counted_has_a_witness(
                        before.entries,
                        in_phase(ProviderPreparationPhase::Queued),
                        i as int,
                    );
                }
                self.entries[i].phase = ProviderPreparationPhase::Preparing;
                self.entries[i].queue_position = None;
                self.counts.queued = self.counts.queued - 1;
                self.counts.active = self.counts.active + 1;
                self.running = self.running + 1;
                let task = PreparationTask {
                    provider_id: self.entries[i].job.provider_id,
                    bytes: self.entries[i].job.bytes.clone(),
                };
                let ghost changed = self@;
                self.report(i);
                proof {
                    let at = i as int;
                    assert(changed.entries =~= before.entries.update(at, changed.entries[at]));
                    assert(self@.entries =~= dispatched(before).entries);
                    assert(self@.reports =~= dispatched(before).reports);
                }
                Some(task)
            },
        }
    }

    /// Takes the end of a preparation.
    pub fn finish(&mut self, provider_id: ProviderId, result: Result<(), String>)
        requires
            old(self).wf(),
            old(self)@.running > 0,
            place(old(self)@.entries, provider_id) is Some,
            old(self)@.entries[place(old(self)@.entries, provider_id)->0].phase
                == ProviderPreparationPhase::Preparing,
        ensures
            final(self).wf(),
            final(self)@ == finished(
                old(self)@,
                place(old(self)@.entries, provider_id)->0,
                outcome_of(result),
            ),
    {
        let ghost before = self@;
        let ghost outcome = outcome_of(result);
        let ghost place_of_it = place(before.entries, provider_id)->0;
        proof {
            crate::provider_preparer::laws::place_is_right(before.entries, provider_id);
            crate::provider_preparer::laws::the_preparer_stays_in_order(
                before,
                arbitrary(),
                ProviderPriority::Embedded,
                false,
                place_of_it,
                outcome,
            );
            crate::provider_preparer::laws::counts_add_up(before.entries);
            crate::provider_preparer::laws::counted_has_a_witness(
                before.entries,
                in_phase(ProviderPreparationPhase::Preparing),
                place_of_it,
            );
            crate::provider_preparer::laws::counted_is_bounded(
                before.entries,
                in_phase(ProviderPreparationPhase::Queued),
            );
        }
        if let Some(i) = self.find(provider_id) {
            self.counts.active = self.counts.active - 1;
            self.counts.completed = self.counts.completed + 1;
            self.running = self.running - 1;
            match result {
                Ok(_) => {
                    self.entries[i].phase = ProviderPreparationPhase::Ready;
                    self.entries[i].error_code = None;
                    self.entries[i].detail = None;
                },
                Err(detail) => {
                    self.entries[i].phase = ProviderPreparationPhase::Failed;
                    self.entries[i].error_code = Some("provider_prepare_failed".to_owned());
                    self.entries[i].detail = Some(detail);
                },
            }
            let ghost changed = self@;
            self.report(i);
            proof {
                let at = i as int;
                assert(changed.entries =~= before.entries.update(at, changed.entries[at]));
                assert(self@.entries =~= finished(before, at, outcome).entries);
                assert(self@.reports =~= finished(before, at, outcome).reports);
            }
        }
    }

    /// A worker ended without a result. Its artifact stays in preparation.
    pub fn lose_worker(&mut self)
        requires
            old(self).wf(),
            old(self)@.running > 0,
        ensures
            final(self).wf(),
            final(self)@ == (PreparerView {
                running: (old(self)@.running - 1) as usize,
                ..old(self)@
            }),
    {
        self.running = self.running - 1;
    }

    /// Stops admission and cancels everything that waits. Says whether this is
    /// the request that began the shutdown.
    pub fn begin_shutdown(&mut self) -> (first: bool)
        requires
            old(self).wf(),
        ensures
            final(self).wf(),
            first == !old(self)@.shutting_down,
            final(self)@ == shut_down(old(self)@),
    {
        if self.shutting_down {
            return false;
        }
        let ghost before = self@;
        proof {
            crate::provider_preparer::laws::the_preparer_stays_in_order(
                before,
                arbitrary(),
                ProviderPriority::Embedded,
                false,
                0,
                Ok(()),
            );
            crate::provider_preparer::laws::counts_add_up(before.entries);
            crate::provider_preparer::laws::counted_is_bounded(
                before.entries,
                in_phase(ProviderPreparationPhase::Preparing),
            );
        }
        self.shutting_down = true;
        self.counts.completed = self.counts.completed + self.counts.queued;
        self.counts.queued = 0;
        let ghost counts = self.counts;
        let ghost change = cancelling(counts);
        let ghost told = |entry: EntryView| cancelled(entry, counts).status;
        let ghost waiting = in_phase(ProviderPreparationPhase::Queued);
        let mut i: usize = 0;
        proof {
            reveal(Seq::filter);
            assert(before.entries.take(0).filter(waiting).map_values(told) =~= Seq::<
                PreparationView,
            >::empty());
        }
        while i < self.entries.len()
            invariant
                i <= self.entries@.len(),
                self.entries@.len() == before.entries.len(),
                counts == counts_after_shutdown(before.counts),
                change == cancelling(counts),
                waiting == in_phase(ProviderPreparationPhase::Queued),
                told == (|entry: EntryView| cancelled(entry, counts).status),
                self@.entries == before.entries.take(i as int).map_values(change)
                    + before.entries.skip(i as int),
                self@.reports == before.reports + before.entries.take(i as int).filter(
                    waiting,
                ).map_values(told),
                self@ == (PreparerView {
                    shutting_down: true,
                    counts,
                    entries: self@.entries,
                    reports: self@.reports,
                    ..before
                }),
            decreases self.entries@.len() - i,
        {
            let ghost at = i as int;
            let ghost prior = self@;
            proof {
                crate::list::filter_extends(before.entries, waiting, at);
                assert(prior.entries[at] == before.entries[at]);
            }
            if self.entries[i].phase == ProviderPreparationPhase::Queued {
                self.entries[i].phase = ProviderPreparationPhase::Failed;
                self.entries[i].queue_position = None;
                self.entries[i].error_code = Some("provider_prepare_cancelled".to_owned());
                self.entries[i].detail = Some(
                    "daemon shutdown cancelled queued preparation".to_owned(),
                );
                let ghost changed = self@;
                self.report(i);
                proof {
                    assert(changed.entries =~= prior.entries.update(at, changed.entries[at]));
                    assert(self@.entries =~= prior.entries.update(
                        at,
                        cancelled(before.entries[at], counts),
                    ));
                    assert(before.entries.take(at + 1).filter(waiting).map_values(told)
                        =~= before.entries.take(at).filter(waiting).map_values(told).push(
                        told(before.entries[at]),
                    ));
                    assert(self@.reports =~= before.reports + before.entries.take(at + 1).filter(
                        waiting,
                    ).map_values(told));
                }
            }
            assert(self@.entries =~= before.entries.take(at + 1).map_values(change)
                + before.entries.skip(at + 1));
            i = i + 1;
        }
        proof {
            let whole = before.entries.len() as int;
            assert(before.entries.take(whole) =~= before.entries);
            assert(self@.entries =~= shut_down(before).entries);
            assert(self@.reports =~= shut_down(before).reports);
        }
        true
    }

    /// The status of an artifact as last reported, with the counts of now.
    pub fn status(&self, provider_id: ProviderId) -> (status: Option<ProviderPreparationStatus>)
        ensures
            match (status, place(self@.entries, provider_id)) {
                (Some(status), Some(i)) => status@ == (PreparationView {
                    queued_digests: self@.counts.queued,
                    active_digests: self@.counts.active,
                    completed_digests: self@.counts.completed,
                    ..self@.entries[i].status
                }),
                (None, None) => true,
                _ => false,
            },
    {
        match self.find(provider_id) {
            None => None,
            Some(i) => {
                let mut status = self.entries[i].status.clone();
                assert(status@ == self@.entries[i as int].status);
                status.queued_digests = self.counts.queued;
                status.active_digests = self.counts.active;
                status.completed_digests = self.counts.completed;
                Some(status)
            },
        }
    }

    /// What to wait for once no further worker can start.
    pub fn awaited(&self) -> (wait: Wait)
        ensures
            wait == (if self.running == 0 {
                if self.shutting_down {
                    Wait::Finished
                } else {
                    Wait::Request
                }
            } else if self.shutting_down {
                Wait::Completion
            } else {
                Wait::RequestOrCompletion
            }),
    {
        if self.running == 0 {
            if self.shutting_down {
                Wait::Finished
            } else {
                Wait::Request
            }
        } else if self.shutting_down {
            Wait::Completion
        } else {
            Wait::RequestOrCompletion
        }
    }
}

} // verus!
