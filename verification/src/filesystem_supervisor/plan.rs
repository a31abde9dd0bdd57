//! Which filesystems one pass works on, and when the next pass is due.
use crate::filesystem_supervisor::pass::{Work, WorkOutcome};
use crate::filesystem_supervisor::{
    retry_delay, DesiredFilesystem, FilesystemInstance, FilesystemPhase,
};
use crate::name::ResourceName;
use crate::progress::tidy;
use crate::records::{ActionKind, ActionReceipt};
use vstd::prelude::*;

verus! {

/// The failures of one filesystem since it last settled.
#[derive(Debug, PartialEq, Eq)]
pub struct RetryCount {
    pub name: ResourceName,
    pub attempts: u32,
}

/// The failures of a filesystem; none where nothing is recorded.
pub open spec fn count_of(retries: Seq<RetryCount>, name: Seq<char>) -> u32
    decreases retries.len(),
{
    if retries.len() == 0 {
        0
    } else if retries[0].name@ == name {
        retries[0].attempts
    } else {
        count_of(retries.skip(1), name)
    }
}

/// The declaration that counts for a name: the last one.
pub open spec fn last_desired(desired: Seq<DesiredFilesystem>, name: Seq<char>) -> Option<
    DesiredFilesystem,
>
    decreases desired.len(),
{
    if desired.len() == 0 {
        None
    } else if desired.last().name@ == name {
        Some(desired.last())
    } else {
        last_desired(desired.drop_last(), name)
    }
}

/// The record that counts for a name: the last one.
pub open spec fn last_instance(instances: Seq<FilesystemInstance>, name: Seq<char>) -> Option<
    FilesystemInstance,
>
    decreases instances.len(),
{
    if instances.len() == 0 {
        None
    } else if instances.last().name@ == name {
        Some(instances.last())
    } else {
        last_instance(instances.drop_last(), name)
    }
}

/// The restart that counts for a name: the last one.
pub open spec fn last_restart(actions: Seq<ActionReceipt>, name: Seq<char>) -> Option<ActionReceipt>
    decreases actions.len(),
{
    if actions.len() == 0 {
        None
    } else if actions.last().kind == ActionKind::RestartFilesystem && actions.last().target.name@
        == name {
        Some(actions.last())
    } else {
        last_restart(actions.drop_last(), name)
    }
}

/// The names that are declared, recorded, or to be restarted.
pub open spec fn concerned(
    desired: Seq<DesiredFilesystem>,
    instances: Seq<FilesystemInstance>,
    actions: Seq<ActionReceipt>,
) -> Seq<Seq<char>> {
    crate::progress::tidied(
        desired.map_values(|filesystem: DesiredFilesystem| filesystem.name@)
            + instances.map_values(|instance: FilesystemInstance| instance.name@)
            + actions.filter(
            |action: ActionReceipt| action.kind == ActionKind::RestartFilesystem,
        ).map_values(|action: ActionReceipt| action.target.name@),
    )
}

/// How long a filesystem has still to wait for its next try, in seconds.
pub open spec fn waits(instances: Seq<FilesystemInstance>, name: Seq<char>, now: i64) -> Option<int> {
    match last_instance(instances, name) {
        Some(instance) => match instance.retry_at {
            Some(at) => if at > now {
                Some(at - now)
            } else {
                None
            },
            None => None,
        },
        None => None,
    }
}

/// One filesystem that the pass works on.
#[derive(Debug, PartialEq, Eq)]
pub struct PlannedWork {
    pub work: Work,
    pub desired: Option<DesiredFilesystem>,
}

/// What one pass works on, and the earliest retry it leaves out, in
/// milliseconds.
#[derive(Debug, PartialEq, Eq)]
pub struct PassPlan {
    pub work: Vec<PlannedWork>,
    pub earliest_retry: Option<u128>,
}

/// Whether planned work is what is known of its filesystem.
pub open spec fn planned_from(
    planned: PlannedWork,
    desired: Seq<DesiredFilesystem>,
    instances: Seq<FilesystemInstance>,
    actions: Seq<ActionReceipt>,
    retries: Seq<RetryCount>,
) -> bool {
    let name = planned.work.name@;
    &&& planned.desired == last_desired(desired, name)
    &&& planned.work.instance == (match last_instance(instances, name) {
        Some(instance) => instance,
        None => FilesystemInstance {
            name: planned.work.name,
            desired_version: None,
            desired_spec: None,
            observed_version: None,
            observed_spec: None,
            runtime_instance: None,
            phase: FilesystemPhase::Pending,
            retry_at: None,
            last_error_code: None,
            last_error_detail: None,
            deleting: false,
        },
    })
    &&& planned.work.action == last_restart(actions, name)
    &&& planned.work.retry_count == count_of(retries, name)
}

/// The names of planned work, in its order.
pub open spec fn planned_names(work: Seq<PlannedWork>) -> Seq<Seq<char>> {
    work.map_values(|planned: PlannedWork| planned.work.name@)
}

/// Whether a delay is the shortest of the waiting filesystems, in milliseconds.
pub open spec fn is_earliest(
    names: Seq<Seq<char>>,
    instances: Seq<FilesystemInstance>,
    now: i64,
    earliest: Option<u128>,
) -> bool {
    match earliest {
        None => forall|i: int| 0 <= i < names.len() ==> waits(instances, #[trigger] names[i], now) is None,
        Some(delay) => {
            &&& exists|i: int|
                0 <= i < names.len() && waits(instances, #[trigger] names[i], now) is Some && delay
                    == waits(instances, names[i], now).unwrap() * 1000
            &&& forall|i: int|
                0 <= i < names.len() && waits(instances, #[trigger] names[i], now) is Some ==> delay
                    <= waits(instances, names[i], now).unwrap() * 1000
        },
    }
}

fn find_count(retries: &Vec<RetryCount>, name: &ResourceName) -> (attempts: u32)
    ensures
        attempts == count_of(retries@, name@),
{
    let mut i: usize = 0;
    assert(retries@.skip(0) =~= retries@);
    while i < retries.len()
        invariant
            i <= retries@.len(),
            count_of(retries@, name@) == count_of(retries@.skip(i as int), name@),
        decreases retries@.len() - i,
    {
        assert(retries@.skip(i as int)[0] == retries@[i as int]);
        if retries[i].name.same(name) {
            return retries[i].attempts;
        }
        assert(retries@.skip(i as int).skip(1) =~= retries@.skip(i + 1));
        i = i + 1;
    }
    0
}

fn find_desired(desired: &Vec<DesiredFilesystem>, name: &ResourceName) -> (found: Option<DesiredFilesystem>)
    ensures
        found == last_desired(desired@, name@),
{
    let mut i: usize = desired.len();
    assert(desired@.take(i as int) =~= desired@);
    while i > 0
        invariant
            i <= desired@.len(),
            last_desired(desired@, name@) == last_desired(desired@.take(i as int), name@),
        decreases i,
    {
        assert(desired@.take(i as int).last() == desired@[i - 1]);
        assert(desired@.take(i as int).drop_last() =~= desired@.take(i - 1));
        if desired[i - 1].name.same(name) {
            return Some(desired[i - 1].clone());
        }
        i = i - 1;
    }
    None
}

fn find_instance(instances: &Vec<FilesystemInstance>, name: &ResourceName) -> (found: Option<
    FilesystemInstance,
>)
    ensures
        found == last_instance(instances@, name@),
{
    let mut i: usize = instances.len();
    assert(instances@.take(i as int) =~= instances@);
    while i > 0
        invariant
            i <= instances@.len(),
            last_instance(instances@, name@) == last_instance(instances@.take(i as int), name@),
        decreases i,
    {
        assert(instances@.take(i as int).last() == instances@[i - 1]);
        assert(instances@.take(i as int).drop_last() =~= instances@.take(i - 1));
        if instances[i - 1].name.same(name) {
            return Some(instances[i - 1].clone());
        }
        i = i - 1;
    }
    None
}

fn find_restart(actions: &Vec<ActionReceipt>, name: &ResourceName) -> (found: Option<ActionReceipt>)
    ensures
        found == last_restart(actions@, name@),
{
    let mut i: usize = actions.len();
    assert(actions@.take(i as int) =~= actions@);
    while i > 0
        invariant
            i <= actions@.len(),
            last_restart(actions@, name@) == last_restart(actions@.take(i as int), name@),
        decreases i,
    {
        assert(actions@.take(i as int).last() == actions@[i - 1]);
        assert(actions@.take(i as int).drop_last() =~= actions@.take(i - 1));
        if actions[i - 1].kind == ActionKind::RestartFilesystem && actions[i - 1].target.name.same(
            name,
        ) {
            return Some(actions[i - 1].clone());
        }
        i = i - 1;
    }
    None
}

fn concerned_names(
    desired: &Vec<DesiredFilesystem>,
    instances: &Vec<FilesystemInstance>,
    actions: &Vec<ActionReceipt>,
) -> (names: Vec<ResourceName>)
    ensures
        crate::list::views(names@) == concerned(desired@, instances@, actions@),
{
    let mut names: Vec<ResourceName> = Vec::new();
    let ghost declared = desired@.map_values(|filesystem: DesiredFilesystem| filesystem.name@);
    let ghost recorded = instances@.map_values(|instance: FilesystemInstance| instance.name@);
    let ghost restart = |action: ActionReceipt| action.kind == ActionKind::RestartFilesystem;
    let ghost target = |action: ActionReceipt| action.target.name@;
    let mut i: usize = 0;
    while i < desired.len()
        invariant
            i <= desired@.len(),
            declared == desired@.map_values(|filesystem: DesiredFilesystem| filesystem.name@),
            crate::list::views(names@) =~= declared.take(i as int),
        decreases desired@.len() - i,
    {
        let ghost before = crate::list::views(names@);
        names.push(desired[i].name.clone());
        assert(crate::list::views(names@) =~= before.push(declared[i as int]));
        i = i + 1;
    }
    let mut i: usize = 0;
    assert(crate::list::views(names@) =~= declared + recorded.take(0));
    while i < instances.len()
        invariant
            i <= instances@.len(),
            recorded == instances@.map_values(|instance: FilesystemInstance| instance.name@),
            crate::list::views(names@) =~= declared + recorded.take(i as int),
        decreases instances@.len() - i,
    {
        let ghost before = crate::list::views(names@);
        names.push(instances[i].name.clone());
        assert(crate::list::views(names@) =~= before.push(recorded[i as int]));
        i = i + 1;
    }
    let mut i: usize = 0;
    let ghost first = crate::list::views(names@);
    assert(first =~= declared + recorded);
    proof {
        reveal(Seq::filter);
    }
    assert(crate::list::views(names@) =~= first + actions@.take(0).filter(restart).map_values(target));
    while i < actions.len()
        invariant
            i <= actions@.len(),
            restart == (|action: ActionReceipt| action.kind == ActionKind::RestartFilesystem),
            target == (|action: ActionReceipt| action.target.name@),
            crate::list::views(names@) == first + actions@.take(i as int).filter(restart).map_values(
                target,
            ),
        decreases actions@.len() - i,
    {
        let ghost before = crate::list::views(names@);
        proof {
            crate::list::filter_extends(actions@, restart, i as int);
        }
        if actions[i].kind == ActionKind::RestartFilesystem {
            names.push(actions[i].target.name.clone());
            assert(crate::list::views(names@) =~= before.push(actions@[i as int].target.name@));
            assert(first + actions@.take(i + 1).filter(restart).map_values(target) =~= before.push(
                actions@[i as int].target.name@,
            ));
        }
        i = i + 1;
    }
    assert(actions@.take(i as int) =~= actions@);
    tidy(names)
}

/// Plans one pass: every concerned filesystem in the order of names, but for
/// those that still wait for their next try.
pub fn plan_pass(
    desired: &Vec<DesiredFilesystem>,
    instances: &Vec<FilesystemInstance>,
    actions: &Vec<ActionReceipt>,
    retries: &Vec<RetryCount>,
    now: i64,
) -> (plan: PassPlan)
    requires
        now >= 0,
    ensures
        planned_names(plan.work@) == concerned(desired@, instances@, actions@).filter(
            |name: Seq<char>| waits(instances@, name, now) is None,
        ),
        forall|i: int|
            0 <= i < plan.work@.len() ==> planned_from(
                #[trigger] plan.work@[i],
                desired@,
                instances@,
                actions@,
                retries@,
            ),
        is_earliest(
            concerned(desired@, instances@, actions@),
            instances@,
            now,
            plan.earliest_retry,
        ),
{
    let names = concerned_names(desired, instances, actions);
    let ghost whole = names@;
    let ghost all = crate::list::views(whole);
    let ghost due = |name: Seq<char>| waits(instances@, name, now) is None;
    let mut work: Vec<PlannedWork> = Vec::new();
    let mut earliest_retry: Option<u128> = None;
    proof {
        reveal(Seq::filter);
    }
    assert(planned_names(work@) =~= all.take(0).filter(due));
    for name in it: names
        invariant
            it.seq() == whole,
            all == crate::list::views(whole),
            now >= 0,
            due == (|name: Seq<char>| waits(instances@, name, now) is None),
            planned_names(work@) == all.take(it.index() as int).filter(due),
            forall|i: int|
                0 <= i < work@.len() ==> planned_from(
                    #[trigger] work@[i],
                    desired@,
                    instances@,
                    actions@,
                    retries@,
                ),
            is_earliest(all.take(it.index() as int), instances@, now, earliest_retry),
    {
        let ghost i = it.index() as int;
        let ghost seen = all.take(i);
        let ghost next = all.take(i + 1);
        let ghost earlier = earliest_retry;
        proof {
            crate::list::filter_extends(all, due, i);
        }
        assert(all[i] == name@);
        assert(next =~= seen.push(name@));
        let recorded = find_instance(instances, &name);
        let retry_at: Option<i64> = match &recorded {
            Some(instance) => instance.retry_at,
            None => None,
        };
        let wait: Option<i64> = match retry_at {
            Some(at) => if at > now {
                Some(at - now)
            } else {
                None
            },
            None => None,
        };
        match wait {
            Some(seconds) => {
                let delay: u128 = (seconds as u128) * 1000;
                earliest_retry = match earliest_retry {
                    Some(current) => if current <= delay {
                        Some(current)
                    } else {
                        Some(delay)
                    },
                    None => Some(delay),
                };
                proof {
                    assert(next[i] == name@);
                    assert(waits(instances@, name@, now) == Some(seconds as int));
                    earliest_grows(seen, instances@, now, earlier, name@, earliest_retry);
                }
            },
            None => {
                proof {
                    assert(waits(instances@, name@, now) is None);
                    earliest_grows(seen, instances@, now, earlier, name@, earliest_retry);
                }
                let ghost before = work@;
                let instance = match recorded {
                    Some(instance) => instance,
                    None => FilesystemInstance::pending(name.clone()),
                };
                let planned = PlannedWork {
                    desired: find_desired(desired, &name),
                    work: Work {
                        action: find_restart(actions, &name),
                        retry_count: find_count(retries, &name),
                        instance,
                        name,
                    },
                };
                work.push(planned);
                assert(planned_names(work@) =~= planned_names(before).push(planned.work.name@));
            },
        }
    }
    assert(all.take(all.len() as int) =~= all);
    PassPlan { work, earliest_retry }
}

proof fn earliest_grows(
    seen: Seq<Seq<char>>,
    instances: Seq<FilesystemInstance>,
    now: i64,
    earlier: Option<u128>,
    name: Seq<char>,
    after: Option<u128>,
)
    requires
        is_earliest(seen, instances, now, earlier),
        waits(instances, name, now) is None ==> after == earlier,
        waits(instances, name, now) matches Some(seconds) ==> 0 < seconds <= i64::MAX && after == (
        match earlier {
            Some(current) => if current <= seconds * 1000 {
                Some(current)
            } else {
                Some((seconds * 1000) as u128)
            },
            None => Some((seconds * 1000) as u128),
        }),
    ensures
        is_earliest(seen.push(name), instances, now, after),
{
    let next = seen.push(name);
    assert(next[seen.len() as int] == name);
    assert forall|i: int| 0 <= i < seen.len() implies next[i] == #[trigger] seen[i] by {}
    if let Some(delay) = after {
        if let Some(current) = earlier {
            if delay == current {
                let k = choose|k: int|
                    0 <= k < seen.len() && waits(instances, #[trigger] seen[k], now) is Some && current
                        == waits(instances, seen[k], now).unwrap() * 1000;
                assert(next[k] == seen[k]);
            } else {
                assert(waits(instances, next[seen.len() as int], now) is Some);
            }
        } else {
            assert(waits(instances, next[seen.len() as int], now) is Some);
        }
    }
}

/// Takes the outcome of one filesystem into account: a settled one starts
/// counting afresh, a failed one is retried no later than its delay says.
pub fn settle(
    retries: &mut Vec<RetryCount>,
    earliest_retry: Option<u128>,
    name: ResourceName,
    outcome: WorkOutcome,
) -> (earliest: Option<u128>)
    requires
        unique_names(old(retries)@),
    ensures
        unique_names(final(retries)@),
        forall|other: Seq<char>| other != name@ ==> #[trigger] count_of(final(retries)@, other) == count_of(
            old(retries)@,
            other,
        ),
        outcome == WorkOutcome::Done ==> count_of(final(retries)@, name@) == 0 && earliest
            == earliest_retry,
        outcome == WorkOutcome::Retry ==> {
            let attempt = if count_of(old(retries)@, name@) < u32::MAX {
                (count_of(old(retries)@, name@) + 1) as u32
            } else {
                u32::MAX
            };
            let delay = crate::filesystem_supervisor::retry_delay_spec(attempt) as u128;
            &&& count_of(final(retries)@, name@) == attempt
            &&& earliest == (match earliest_retry {
                Some(current) => if current <= delay {
                    Some(current)
                } else {
                    Some(delay)
                },
                None => Some(delay),
            })
        },
{
    let ghost before = retries@;
    let count: u32 = find_count(retries, &name);
    let mut at: usize = 0;
    while at < retries.len() && !retries[at].name.same(&name)
        invariant
            at <= retries@.len(),
            retries@ == before,
            forall|j: int| 0 <= j < at ==> (#[trigger] before[j]).name@ != name@,
        decreases retries@.len() - at,
    {
        at = at + 1;
    }
    match outcome {
        WorkOutcome::Done => {
            if at < retries.len() {
                retries.remove(at);
                proof {
                    removal_forgets(before, at as int);
                }
            } else {
                proof {
                    count_is_absent(before, name@);
                }
            }
            earliest_retry
        },
        WorkOutcome::Retry => {
            let attempt: u32 = if count < u32::MAX {
                count + 1
            } else {
                u32::MAX
            };
            let delay: u128 = retry_delay(attempt) as u128;
            let entry = RetryCount { name, attempts: attempt };
            if at < retries.len() {
                retries.set(at, entry);
                proof {
                    update_counts(before, at as int, entry);
                }
            } else {
                retries.push(entry);
                proof {
                    push_counts(before, entry);
                }
            }
            match earliest_retry {
                Some(current) => if current <= delay {
                    Some(current)
                } else {
                    Some(delay)
                },
                None => Some(delay),
            }
        },
    }
}

/// Whether every filesystem is counted once.
pub open spec fn unique_names(retries: Seq<RetryCount>) -> bool {
    forall|i: int, j: int|
        #![trigger retries[i], retries[j]]
        0 <= i < j < retries.len() ==> retries[i].name@ != retries[j].name@
}

proof fn count_is_absent(retries: Seq<RetryCount>, name: Seq<char>)
    requires
        forall|j: int| 0 <= j < retries.len() ==> (#[trigger] retries[j]).name@ != name,
    ensures
        count_of(retries, name) == 0,
    decreases retries.len(),
{
    if retries.len() > 0 {
        assert forall|j: int| 0 <= j < retries.skip(1).len() implies (#[trigger] retries.skip(
            1,
        )[j]).name@ != name by {
            assert(retries.skip(1)[j] == retries[j + 1]);
        }
        count_is_absent(retries.skip(1), name);
    }
}

proof fn removal_forgets(retries: Seq<RetryCount>, at: int)
    requires
        0 <= at < retries.len(),
        unique_names(retries),
    ensures
        unique_names(retries.remove(at)),
        count_of(retries.remove(at), retries[at].name@) == 0,
        forall|other: Seq<char>| other != retries[at].name@ ==> #[trigger] count_of(
            retries.remove(at),
            other,
        ) == count_of(retries, other),
    decreases retries.len(),
{
    let after = retries.remove(at);
    let gone = retries[at].name@;
    assert forall|j: int| 0 <= j < after.len() implies (#[trigger] after[j]).name@ != gone by {
        if j < at {
            assert(after[j] == retries[j]);
        } else {
            assert(after[j] == retries[j + 1]);
        }
    }
    count_is_absent(after, gone);
    assert forall|other: Seq<char>| other != gone implies #[trigger] count_of(after, other) == count_of(
        retries,
        other,
    ) by {
        removal_keeps(retries, at, other);
    }
}

proof fn removal_keeps(retries: Seq<RetryCount>, at: int, other: Seq<char>)
    requires
        0 <= at < retries.len(),
        retries[at].name@ != other,
    ensures
        count_of(retries.remove(at), other) == count_of(retries, other),
    decreases retries.len(),
{
    let after = retries.remove(at);
    if at == 0 {
        assert(after =~= retries.skip(1));
    } else {
        removal_keeps(retries.skip(1), at - 1, other);
        assert(after.skip(1) =~= retries.skip(1).remove(at - 1));
        assert(after[0] == retries[0]);
    }
}

proof fn update_counts(retries: Seq<RetryCount>, at: int, entry: RetryCount)
    requires
        0 <= at < retries.len(),
        unique_names(retries),
        retries[at].name@ == entry.name@,
    ensures
        unique_names(retries.update(at, entry)),
        count_of(retries.update(at, entry), entry.name@) == entry.attempts,
        forall|other: Seq<char>| other != entry.name@ ==> #[trigger] count_of(
            retries.update(at, entry),
            other,
        ) == count_of(retries, other),
{
    assert forall|other: Seq<char>| #[trigger] count_of(retries.update(at, entry), other) == (if other
        == entry.name@ {
        entry.attempts
    } else {
        count_of(retries, other)
    }) by {
        update_count(retries, at, entry, other);
    }
}

proof fn update_count(retries: Seq<RetryCount>, at: int, entry: RetryCount, other: Seq<char>)
    requires
        0 <= at < retries.len(),
        unique_names(retries),
        retries[at].name@ == entry.name@,
    ensures
        count_of(retries.update(at, entry), other) == (if other == entry.name@ {
            entry.attempts
        } else {
            count_of(retries, other)
        }),
    decreases retries.len(),
{
    let after = retries.update(at, entry);
    if at == 0 {
        assert(after.skip(1) =~= retries.skip(1));
    } else {
        assert forall|i: int, j: int|
            #![trigger retries.skip(1)[i], retries.skip(1)[j]]
            0 <= i < j < retries.skip(1).len() implies retries.skip(1)[i].name@ != retries.skip(
            1,
        )[j].name@ by {
            assert(retries[i + 1].name@ != retries[j + 1].name@);
        }
        assert(retries.skip(1)[at - 1] == retries[at]);
        update_count(retries.skip(1), at - 1, entry, other);
        assert(after.skip(1) =~= retries.skip(1).update(at - 1, entry));
        assert(after[0] == retries[0]);
        assert(retries[0].name@ != retries[at].name@);
    }
}

proof fn push_counts(retries: Seq<RetryCount>, entry: RetryCount)
    requires
        unique_names(retries),
        forall|j: int| 0 <= j < retries.len() ==> (#[trigger] retries[j]).name@ != entry.name@,
    ensures
        unique_names(retries.push(entry)),
        count_of(retries.push(entry), entry.name@) == entry.attempts,
        forall|other: Seq<char>| other != entry.name@ ==> #[trigger] count_of(
            retries.push(entry),
            other,
        ) == count_of(retries, other),
{
    assert forall|other: Seq<char>| #[trigger] count_of(retries.push(entry), other) == (if other
        == entry.name@ {
        entry.attempts
    } else {
        count_of(retries, other)
    }) by {
        push_count(retries, entry, other);
    }
}

proof fn push_count(retries: Seq<RetryCount>, entry: RetryCount, other: Seq<char>)
    requires
        forall|j: int| 0 <= j < retries.len() ==> (#[trigger] retries[j]).name@ != entry.name@,
    ensures
        count_of(retries.push(entry), other) == (if other == entry.name@ {
            entry.attempts
        } else {
            count_of(retries, other)
        }),
    decreases retries.len(),
{
    let after = retries.push(entry);
    if retries.len() > 0 {
        assert forall|j: int| 0 <= j < retries.skip(1).len() implies (#[trigger] retries.skip(
            1,
        )[j]).name@ != entry.name@ by {
            assert(retries.skip(1)[j] == retries[j + 1]);
        }
        push_count(retries.skip(1), entry, other);
        assert(after.skip(1) =~= retries.skip(1).push(entry));
        assert(after[0] == retries[0]);
    } else {
        assert(after[0] == entry);
        assert(after.skip(1) =~= retries);
    }
}

/// No filesystem is planned twice in one pass, and none is left out but those
/// that wait.
pub proof fn a_pass_plans_each_filesystem_once(
    desired: Seq<DesiredFilesystem>,
    instances: Seq<FilesystemInstance>,
    actions: Seq<ActionReceipt>,
    work: Seq<PlannedWork>,
    now: i64,
)
    requires
        planned_names(work) == concerned(desired, instances, actions).filter(
            |name: Seq<char>| waits(instances, name, now) is None,
        ),
    ensures
        forall|i: int, j: int|
            #![trigger work[i], work[j]]
            0 <= i < j < work.len() ==> work[i].work.name@ != work[j].work.name@,
        forall|name: Seq<char>|
            concerned(desired, instances, actions).contains(name) && waits(instances, name, now)
                is None ==> #[trigger] planned_names(work).contains(name),
{
    let all = concerned(desired, instances, actions);
    let due = |name: Seq<char>| waits(instances, name, now) is None;
    crate::progress::tidied_is_the_strict_listing(
        desired.map_values(|filesystem: DesiredFilesystem| filesystem.name@)
            + instances.map_values(|instance: FilesystemInstance| instance.name@)
            + actions.filter(
            |action: ActionReceipt| action.kind == ActionKind::RestartFilesystem,
        ).map_values(|action: ActionReceipt| action.target.name@),
    );
    strict_filter(all, due);
    assert forall|i: int, j: int|
        #![trigger work[i], work[j]]
        0 <= i < j < work.len() implies work[i].work.name@ != work[j].work.name@ by {
        let names = planned_names(work);
        assert(crate::order::text_before(names[i], names[j]));
        crate::order::text_before_is_strict_total(names[i], names[j]);
    }
    assert forall|name: Seq<char>| all.contains(name) && due(name) implies #[trigger] planned_names(
        work,
    ).contains(name) by {
        let k = choose|k: int| 0 <= k < all.len() && all[k] == name;
        all.lemma_filter_contains(due, k);
    }
}

proof fn strict_filter(names: Seq<Seq<char>>, keep: spec_fn(Seq<char>) -> bool)
    requires
        crate::progress::strictly_ordered(names),
    ensures
        crate::progress::strictly_ordered(names.filter(keep)),
        forall|name: Seq<char>| #[trigger] names.filter(keep).contains(name) ==> names.contains(name),
    decreases names.len(),
{
    reveal(Seq::filter);
    if names.len() > 0 {
        let front = names.drop_last();
        assert forall|i: int, j: int|
            #![trigger front[i], front[j]]
            0 <= i < j < front.len() implies crate::order::text_before(front[i], front[j]) by {
            assert(front[i] == names[i] && front[j] == names[j]);
        }
        strict_filter(front, keep);
        let rest = front.filter(keep);
        let out = names.filter(keep);
        assert forall|i: int, j: int|
            #![trigger out[i], out[j]]
            0 <= i < j < out.len() implies crate::order::text_before(out[i], out[j]) by {
            if j == rest.len() {
                assert(rest.contains(rest[i]));
                assert(front.contains(rest[i]));
                let k = choose|k: int| 0 <= k < front.len() && front[k] == rest[i];
                assert(names[k] == out[i]);
                assert(names[names.len() - 1] == out[j]);
            }
        }
        assert forall|name: Seq<char>| #[trigger] out.contains(name) implies names.contains(name) by {
            let k = choose|k: int| 0 <= k < out.len() && out[k] == name;
            if k < rest.len() {
                assert(rest.contains(rest[k]));
                let m = choose|m: int| 0 <= m < front.len() && front[m] == name;
                assert(names[m] == name);
            } else {
                assert(names[names.len() - 1] == name);
            }
        }
    }
}

} // verus!
