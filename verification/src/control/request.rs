//! What single requests are answered.
use crate::control::{grpc_internal, grpc_invalid, ControlError, ControlErrorCode, ErrorView};
use crate::name::ProviderId;
use crate::order::Ranked;
use crate::progress::{ProgressTarget, ProgressTargetState};
use crate::provider_bundle::{MetadataView, ProviderMetadata};
use crate::text::{concat, decimal};
use vstd::prelude::*;

verus! {

/// Whether a serving daemon is ready: its namespace listeners have to serve.
pub fn check_ready(listening: bool) -> (ready: Result<(), ControlError>)
    ensures
        match ready {
            Ok(()) => listening,
            Err(error) => !listening && error@ == (ErrorView {
                code: ControlErrorCode::NotReady,
                message: "namespace listeners are not serving yet"@,
            }),
        },
{
    if listening {
        Ok(())
    } else {
        Err(
            ControlError::new(
                ControlErrorCode::NotReady,
                "namespace listeners are not serving yet",
            ),
        )
    }
}

/// How many filesystems a shutdown stopped, of those that were attached before
/// it, where some still run after it.
pub fn stopped_count(before: usize, still_running: usize) -> (stopped: Result<u32, ControlError>)
    ensures
        ({
            let count = if before >= still_running {
                before - still_running
            } else {
                0
            };
            match stopped {
                Ok(stopped) => stopped == count,
                Err(error) => count > u32::MAX && error@ == (ErrorView {
                    code: ControlErrorCode::Internal,
                    message: "out of range integral type conversion attempted"@,
                }),
            }
        }),
{
    let count: usize = if before >= still_running {
        before - still_running
    } else {
        0
    };
    if count > 0xffff_ffff {
        Err(grpc_internal("out of range integral type conversion attempted"))
    } else {
        Ok(count as u32)
    }
}

/// What a watch of a progress target is refused with, if it is. `room` says
/// whether another stream can be served.
pub open spec fn watch_refusal(
    state: ProgressTargetState,
    target: ProgressTarget,
    room: bool,
) -> Option<ErrorView> {
    if state == ProgressTargetState::Unavailable {
        Some(
            ErrorView {
                code: if target is Action {
                    ControlErrorCode::ActionUnavailable
                } else {
                    ControlErrorCode::NotFound
                },
                message: "progress target is unknown or no longer retained"@,
            },
        )
    } else if !room {
        Some(busy())
    } else {
        None
    }
}

/// The answer where no further stream can be served.
pub open spec fn busy() -> ErrorView {
    ErrorView { code: ControlErrorCode::Busy, message: "stream capacity exhausted"@ }
}

/// Whether there is room for another stream.
pub fn check_room(room: bool) -> (checked: Result<(), ControlError>)
    ensures
        match checked {
            Ok(()) => room,
            Err(error) => !room && error@ == busy(),
        },
{
    if room {
        Ok(())
    } else {
        Err(ControlError::new(ControlErrorCode::Busy, "stream capacity exhausted"))
    }
}

/// Whether a progress target can be watched.
pub fn check_watch(
    state: ProgressTargetState,
    target: ProgressTarget,
    room: bool,
) -> (checked: Result<(), ControlError>)
    ensures
        match checked {
            Ok(()) => watch_refusal(state, target, room) is None,
            Err(error) => watch_refusal(state, target, room) == Some(error@),
        },
{
    match state {
        ProgressTargetState::Unavailable => {
            let code = match target {
                ProgressTarget::Action(_) => ControlErrorCode::ActionUnavailable,
                _ => ControlErrorCode::NotFound,
            };
            Err(ControlError::new(code, "progress target is unknown or no longer retained"))
        },
        _ => check_room(room),
    }
}

/// Whether an encoded progress event fits into one item of a stream.
pub fn check_event(encoded_len: usize, limit: usize) -> (checked: Result<(), ControlError>)
    ensures
        match checked {
            Ok(()) => encoded_len <= limit,
            Err(error) => encoded_len > limit && error@ == (ErrorView {
                code: ControlErrorCode::PlanTooLarge,
                message: "progress snapshot exceeds the control stream item limit"@,
            }),
        },
{
    if encoded_len > limit {
        Err(
            ControlError::new(
                ControlErrorCode::PlanTooLarge,
                "progress snapshot exceeds the control stream item limit",
            ),
        )
    } else {
        Ok(())
    }
}

/// Whether the log can be shown with so many lines of its tail.
pub fn check_tail(tail_lines: u32, limit: u32) -> (checked: Result<(), ControlError>)
    ensures
        match checked {
            Ok(()) => 0 < tail_lines <= limit,
            Err(error) => !(0 < tail_lines <= limit) && error@ == crate::control::invalid(
                "tail_lines must be between 1 and "@ + crate::text::decimal_text(limit as nat),
            ),
        },
{
    if tail_lines == 0 || tail_lines > limit {
        let limit = decimal(limit as u64);
        Err(grpc_invalid(concat("tail_lines must be between 1 and ", limit.as_str()).as_str()))
    } else {
        Ok(())
    }
}

/// Whether the inspector can be followed: it has to be enabled, and there has
/// to be room.
pub fn check_inspector(enabled: bool, room: bool) -> (checked: Result<(), ControlError>)
    ensures
        match checked {
            Ok(()) => enabled && room,
            Err(error) => if !enabled {
                error@ == (ErrorView {
                    code: ControlErrorCode::Internal,
                    message: "inspector stream disabled"@,
                })
            } else {
                !room && error@ == busy()
            },
        },
{
    if !enabled {
        return Err(ControlError::new(ControlErrorCode::Internal, "inspector stream disabled"));
    }
    check_room(room)
}

/// What reaches the follower of the inspector.
#[derive(Clone, Copy, Debug, PartialEq, Eq, Structural)]
pub enum InspectorEvent {
    /// The follower is gone.
    FollowerGone,
    /// The shutdown signal changed, or can no longer change.
    Shutdown { requested: bool, closed: bool },
    /// A record, which could or could not be encoded.
    Record { encoded: bool },
    /// So many records were lost.
    Lagged(u64),
    /// There are no more records.
    Closed,
}

/// What is done for the follower of the inspector.
#[derive(Clone, Copy, Debug, PartialEq, Eq, Structural)]
pub enum InspectorStep {
    Stop,
    Wait,
    SendRecord,
    SendDropped(u64),
}

/// What is done for the follower of the inspector: every record is sent, a loss
/// is told, and the stream ends with the follower or the daemon.
pub fn inspector_step(event: InspectorEvent) -> (step: InspectorStep)
    ensures
        step == (match event {
            InspectorEvent::FollowerGone | InspectorEvent::Closed => InspectorStep::Stop,
            InspectorEvent::Shutdown { requested, closed } => if requested || closed {
                InspectorStep::Stop
            } else {
                InspectorStep::Wait
            },
            InspectorEvent::Record { encoded } => if encoded {
                InspectorStep::SendRecord
            } else {
                InspectorStep::Stop
            },
            InspectorEvent::Lagged(count) => InspectorStep::SendDropped(count),
        }),
{
    match event {
        InspectorEvent::FollowerGone | InspectorEvent::Closed => InspectorStep::Stop,
        InspectorEvent::Shutdown { requested, closed } => if requested || closed {
            InspectorStep::Stop
        } else {
            InspectorStep::Wait
        },
        InspectorEvent::Record { encoded } => if encoded {
            InspectorStep::SendRecord
        } else {
            InspectorStep::Stop
        },
        InspectorEvent::Lagged(count) => InspectorStep::SendDropped(count),
    }
}

/// One provider that can be used: it comes with the daemon, was imported, or
/// both.
#[derive(Debug)]
pub struct ProviderRow {
    pub metadata: ProviderMetadata,
    pub embedded: bool,
    pub retained: bool,
}

/// [`ProviderRow`] by what it holds.
pub struct RowView {
    pub metadata: MetadataView,
    pub embedded: bool,
    pub retained: bool,
}

impl View for ProviderRow {
    type V = RowView;

    open spec fn view(&self) -> RowView {
        RowView { metadata: self.metadata@, embedded: self.embedded, retained: self.retained }
    }
}

/// Whether a row is listed before an artifact.
pub open spec fn row_before(row: RowView, id: ProviderId) -> bool {
    row.metadata.id.before(id)
}

/// Rows with one more retained provider: it is listed by its digest, in place of
/// a row with the same digest.
pub open spec fn with_retained(rows: Seq<RowView>, metadata: MetadataView) -> Seq<RowView> {
    let row = RowView { metadata, embedded: false, retained: true };
    let at = place_in(rows, metadata.id);
    if at < rows.len() && rows[at].metadata.id == metadata.id {
        rows.update(at, row)
    } else {
        rows.insert(at, row)
    }
}

/// Rows with one more embedded provider: a row with the same digest is only
/// marked.
pub open spec fn with_embedded(rows: Seq<RowView>, metadata: MetadataView) -> Seq<RowView> {
    let at = place_in(rows, metadata.id);
    if at < rows.len() && rows[at].metadata.id == metadata.id {
        rows.update(
            at,
            RowView {
                metadata: rows[at].metadata,
                embedded: true,
                retained: rows[at].retained,
            },
        )
    } else {
        rows.insert(at, RowView { metadata, embedded: true, retained: false })
    }
}

/// The first place whose row is not listed before an artifact.
pub open spec fn place_in(rows: Seq<RowView>, id: ProviderId) -> int
    decreases rows.len(),
{
    if rows.len() == 0 || !row_before(rows[0], id) {
        0
    } else {
        1 + place_in(rows.skip(1), id)
    }
}

/// A place is within its list.
pub proof fn a_place_is_within(rows: Seq<RowView>, id: ProviderId)
    ensures
        0 <= place_in(rows, id) <= rows.len(),
        forall|i: int| 0 <= i < place_in(rows, id) ==> row_before(#[trigger] rows[i], id),
        place_in(rows, id) < rows.len() ==> !row_before(rows[place_in(rows, id)], id),
    decreases rows.len(),
{
    if rows.len() > 0 && row_before(rows[0], id) {
        a_place_is_within(rows.skip(1), id);
        let at = place_in(rows, id);
        assert forall|i: int| 0 <= i < at implies row_before(#[trigger] rows[i], id) by {
            if i > 0 {
                assert(rows[i] == rows.skip(1)[i - 1]);
            }
        }
        if at < rows.len() {
            assert(rows[at] == rows.skip(1)[at - 1]);
        }
    }
}

/// Retained providers, then the embedded ones.
pub open spec fn listed(retained: Seq<MetadataView>, embedded: Seq<MetadataView>) -> Seq<RowView>
    decreases retained.len() + embedded.len(),
{
    if embedded.len() > 0 {
        with_embedded(listed(retained, embedded.drop_last()), embedded.last())
    } else if retained.len() > 0 {
        with_retained(listed(retained.drop_last(), embedded), retained.last())
    } else {
        Seq::empty()
    }
}

fn find_row(rows: &Vec<ProviderRow>, id: ProviderId) -> (at: usize)
    ensures
        at == place_in(crate::list::views(rows@), id),
        at <= rows@.len(),
{
    let ghost all = crate::list::views(rows@);
    let mut i: usize = 0;
    assert(all.skip(0) =~= all);
    while i < rows.len()
        invariant
            i <= rows@.len(),
            all == crate::list::views(rows@),
            place_in(all, id) == i + place_in(all.skip(i as int), id),
        decreases rows@.len() - i,
    {
        assert(all.skip(i as int)[0] == rows@[i as int]@);
        assert(all.skip(i as int).skip(1) =~= all.skip(i + 1));
        if !rows[i].metadata.id.is_ranked_before(&id) {
            return i;
        }
        i = i + 1;
    }
    i
}

/// Every provider that can be used, once, by its digest.
pub fn list_providers(retained: Vec<ProviderMetadata>, embedded: Vec<ProviderMetadata>) -> (rows: Vec<
    ProviderRow,
>)
    ensures
        crate::list::views(rows@) == listed(
            crate::list::views(retained@),
            crate::list::views(embedded@),
        ),
{
    let ghost first = crate::list::views(retained@);
    let ghost whole = retained@;
    let ghost none = Seq::<MetadataView>::empty();
    let mut rows: Vec<ProviderRow> = Vec::new();
    assert(first.take(0) =~= none);
    assert(crate::list::views(rows@) =~= Seq::<RowView>::empty());
    for metadata in it: retained
        invariant
            it.seq() == whole,
            first == crate::list::views(whole),
            none == Seq::<MetadataView>::empty(),
            crate::list::views(rows@) == listed(first.take(it.index() as int), none),
    {
        let ghost before = crate::list::views(rows@);
        proof {
            let i = it.index() as int;
            assert(first.take(i + 1).drop_last() =~= first.take(i));
            assert(first.take(i + 1).last() == metadata@);
            a_place_is_within(before, metadata.id);
        }
        let at: usize = find_row(&rows, metadata.id);
        if at < rows.len() && rows[at].metadata.id == metadata.id {
            let row = ProviderRow { metadata, embedded: false, retained: true };
            rows[at] = row;
            assert(crate::list::views(rows@) =~= before.update(at as int, row@));
        } else {
            let row = ProviderRow { metadata, embedded: false, retained: true };
            rows.insert(at, row);
            assert(crate::list::views(rows@) =~= before.insert(at as int, row@));
        }
    }
    assert(first.take(first.len() as int) =~= first);
    let ghost second = crate::list::views(embedded@);
    let ghost rest = embedded@;
    assert(second.take(0) =~= none);
    for metadata in it: embedded
        invariant
            it.seq() == rest,
            second == crate::list::views(rest),
            crate::list::views(rows@) == listed(first, second.take(it.index() as int)),
    {
        let ghost before = crate::list::views(rows@);
        proof {
            let i = it.index() as int;
            assert(second.take(i + 1).drop_last() =~= second.take(i));
            assert(second.take(i + 1).last() == metadata@);
            a_place_is_within(before, metadata.id);
        }
        let at: usize = find_row(&rows, metadata.id);
        if at < rows.len() && rows[at].metadata.id == metadata.id {
            let ghost prior = rows@[at as int]@;
            rows[at].embedded = true;
            assert(crate::list::views(rows@) =~= before.update(
                at as int,
                RowView {
                    metadata: prior.metadata,
                    embedded: true,
                    retained: prior.retained,
                },
            ));
        } else {
            let row = ProviderRow { metadata, embedded: true, retained: false };
            rows.insert(at, row);
            assert(crate::list::views(rows@) =~= before.insert(at as int, row@));
        }
    }
    assert(second.take(second.len() as int) =~= second);
    rows
}

} // verus!
