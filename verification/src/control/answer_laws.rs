//! What a control request is answered, and what is listed.
use crate::control::connection::{accept_step, AcceptEvent, AcceptStep, Admission};
use crate::control::repair::{RepairRequest, RequestedAction};
use crate::control::request::{
    check_event, check_inspector, check_ready, check_tail, inspector_step, stopped_count,
    InspectorEvent, InspectorStep, RowView,
};
use crate::control::upload::{ProviderUpload, UploadItem, UploadStart};
use crate::control::{
    resource_grpc_error, ControlError, ControlErrorCode, DaemonPhase, DeclarationError, ErrorView,
    HealthState, OfferView, PhaseView, RecoveryView, RepairAction, StatusCode,
};
use crate::name::ProviderId;
use crate::progress::{ProgressTarget, ProgressTargetState};
use crate::provider_bundle::MetadataView;
use vstd::prelude::*;

verus! {

/// Each error travels with a code of its sort: what cannot be read is the client's,
/// what is not there is missing, what stands against another change is aborted.
pub proof fn an_error_travels_with_its_sort()
    ensures
        crate::control::status_code(ControlErrorCode::InvalidRequest)
            == StatusCode::InvalidArgument,
        crate::control::status_code(ControlErrorCode::UnsupportedApiVersion)
            == StatusCode::InvalidArgument,
        crate::control::status_code(ControlErrorCode::InvalidResource)
            == StatusCode::InvalidArgument,
        crate::control::status_code(ControlErrorCode::DesiredDigestMismatch)
            == StatusCode::InvalidArgument,
        crate::control::status_code(ControlErrorCode::PlanTooLarge) == StatusCode::InvalidArgument,
        crate::control::status_code(ControlErrorCode::Busy) == StatusCode::ResourceExhausted,
        crate::control::status_code(ControlErrorCode::NotReady) == StatusCode::FailedPrecondition,
        crate::control::status_code(ControlErrorCode::RecoveryRequired)
            == StatusCode::FailedPrecondition,
        crate::control::status_code(ControlErrorCode::Conflict) == StatusCode::Aborted,
        crate::control::status_code(ControlErrorCode::StaleBaseRevision) == StatusCode::Aborted,
        crate::control::status_code(ControlErrorCode::MutationIdReuseMismatch)
            == StatusCode::Aborted,
        crate::control::status_code(ControlErrorCode::ActionIdReuseMismatch) == StatusCode::Aborted,
        crate::control::status_code(ControlErrorCode::NotFound) == StatusCode::NotFound,
        crate::control::status_code(ControlErrorCode::MissingProviderArtifact)
            == StatusCode::NotFound,
        crate::control::status_code(ControlErrorCode::ActionUnavailable) == StatusCode::NotFound,
        crate::control::status_code(ControlErrorCode::AlreadyExists) == StatusCode::AlreadyExists,
        crate::control::status_code(ControlErrorCode::Internal) == StatusCode::Internal,
{
}

/// The serving runtime is used exactly while the daemon is ready; otherwise a request
/// is told why not.
pub proof fn only_a_ready_daemon_serves(phase: PhaseView)
    ensures
        crate::control::gate(phase) is None <==> phase is Ready,
        phase is Starting ==> crate::control::gate(phase)->0.code == ControlErrorCode::NotReady
            && crate::control::gate(phase)->0.message == "daemon is starting"@,
        phase is ShuttingDown ==> crate::control::gate(phase)->0.code == ControlErrorCode::NotReady
            && crate::control::gate(phase)->0.message == "daemon is shutting down"@,
        phase is Recovery ==> crate::control::gate(phase)->0.code
            == ControlErrorCode::RecoveryRequired,
        phase is Ready ==> crate::control::shown_recovery(phase) == Ok::<
            Option<RecoveryView>,
            ErrorView,
        >(None),
{
}

/// A daemon in recovery shows that very recovery, and one that starts shows that it
/// does, with nothing to repair; its control is healthy in both.
pub proof fn a_daemon_shows_its_own_recovery(recovery: RecoveryView)
    ensures
        crate::control::shown_recovery(PhaseView::Recovery(recovery)) == Ok::<
            Option<RecoveryView>,
            ErrorView,
        >(Some(recovery)),
        ({
            let shown = crate::control::shown_recovery(PhaseView::Starting)->Ok_0->0;
            &&& shown.phase == DaemonPhase::Starting && shown.repair is None
            &&& shown.durable_revision is None && shown.serving_revision is None
            &&& shown.store_health.state == HealthState::Degraded
        }),
        ({
            let shown = crate::control::shown_inventory(PhaseView::Recovery(recovery))->Ok_0->0;
            &&& shown.phase == recovery.phase && shown.store == recovery.store_health
            &&& shown.durable_revision == recovery.durable_revision
            &&& shown.serving_revision == recovery.serving_revision
            &&& shown.control.state == HealthState::Healthy
            &&& shown.namespace.state == HealthState::Unhealthy
        }),
        ({
            let shown = crate::control::shown_inventory(PhaseView::Starting)->Ok_0->0;
            &&& shown.phase == DaemonPhase::Starting && shown.store.state == HealthState::Degraded
            &&& shown.control.state == HealthState::Healthy
            &&& shown.namespace.state == HealthState::Starting
            &&& shown.durable_revision is None && shown.serving_revision is None
        }),
{
}

/// The offer that stands is taken up when it is asked for in full, and for no other
/// daemon, identity or action.
pub proof fn a_matching_request_takes_the_offer_up(
    recovery: RecoveryView,
    offer: OfferView,
    instance_id: Seq<char>,
    request: RepairRequest,
)
    requires
        recovery.repair == Some(offer),
        offer.actions.contains(RepairAction::RecreateControlStore),
        offer.id.len() == 16,
    ensures
        ({
            let refused = crate::control::repair::repair_refusal(
                PhaseView::Recovery(recovery),
                instance_id,
                request,
            );
            &&& refused is None <==> request.action == RequestedAction::RecreateControlStore
                && request.recovery_id@ == offer.id && request.instance_id@ == instance_id
            &&& request.action != RequestedAction::RecreateControlStore ==> refused->0.code
                == ControlErrorCode::InvalidRequest
            &&& request.action == RequestedAction::RecreateControlStore
                && request.recovery_id@.len() != 16 ==> refused->0.code
                == ControlErrorCode::InvalidRequest
            &&& request.action == RequestedAction::RecreateControlStore
                && request.recovery_id@.len() == 16 && refused is Some ==> refused->0.code
                == ControlErrorCode::Conflict
        }),
{
}

/// A peer is let in only where it is the daemon's own user and there is room; a
/// shutdown or a broken listener takes no one in any more.
pub proof fn only_the_own_user_is_let_in(event: AcceptEvent, step: AcceptStep)
    requires
        call_ensures(accept_step, (event,), step),
    ensures
        step == AcceptStep::Meet(Admission::Prepare) <==> event == (AcceptEvent::Connected {
            verified: true,
            room: true,
        }),
        step == AcceptStep::Meet(Admission::Drop) <==> event == (AcceptEvent::Connected {
            verified: true,
            room: false,
        }),
        step == AcceptStep::Stop <==> event == AcceptEvent::Shutdown || event
            == AcceptEvent::ListenerFailed,
        step == AcceptStep::Wait <==> event == AcceptEvent::Prepared,
{
}

/// An upload starts only with a start, under a digest of its full length, with nothing
/// received; what it declares is kept.
pub proof fn an_upload_starts_with_its_start(
    first: Option<UploadItem>,
    start: Result<UploadStart, ControlError>,
)
    requires
        call_ensures(ProviderUpload::begin, (first,), start),
    ensures
        start is Ok <==> first is Some && first->0 is Start && (first->0->digest)@.len() == 32,
        start is Ok ==> start->Ok_0.upload.received == 0 && start->Ok_0.upload.total_length
            == first->0->total_length && start->Ok_0.digest@ == (first->0->digest)@
            && start->Ok_0.file_name == first->0->file_name,
        start is Err ==> start->Err_0.code == ControlErrorCode::InvalidRequest,
{
}

/// An upload goes on exactly with a chunk that holds something and fits, and is
/// finished once everything that was declared has come.
pub proof fn an_upload_goes_on_with_what_fits(
    upload: ProviderUpload,
    item: UploadItem,
    finished: Result<(), ControlError>,
)
    requires
        upload.received <= upload.total_length,
        call_ensures(ProviderUpload::finish, (&upload,), finished),
    ensures
        crate::control::upload::item_failure(upload, item) is None <==> item is Chunk && 0 < (
        item->Chunk_0)@.len() && upload.received + (item->Chunk_0)@.len() <= upload.total_length,
        finished is Ok <==> upload.received == upload.total_length,
{
}

/// What a client asks for is refused for the reason that holds of it.
pub proof fn a_request_is_refused_for_its_reason(
    listening: bool,
    ready: Result<(), ControlError>,
    encoded_len: usize,
    limit: usize,
    event: Result<(), ControlError>,
    lines: u32,
    most: u32,
    tail: Result<(), ControlError>,
    enabled: bool,
    room: bool,
    inspector: Result<(), ControlError>,
)
    requires
        call_ensures(check_ready, (listening,), ready),
        call_ensures(check_event, (encoded_len, limit), event),
        call_ensures(check_tail, (lines, most), tail),
        call_ensures(check_inspector, (enabled, room), inspector),
    ensures
        ready is Ok <==> listening,
        ready is Err ==> ready->Err_0.code == ControlErrorCode::NotReady,
        event is Ok <==> encoded_len <= limit,
        event is Err ==> event->Err_0.code == ControlErrorCode::PlanTooLarge,
        tail is Ok <==> 1 <= lines <= most,
        tail is Err ==> tail->Err_0.code == ControlErrorCode::InvalidRequest,
        inspector is Ok <==> enabled && room,
        inspector is Err && enabled ==> inspector->Err_0.code == ControlErrorCode::Busy,
        inspector is Err && !enabled ==> inspector->Err_0.code == ControlErrorCode::Internal,
{
}

/// A target that is not known cannot be watched, and is told as an action or as
/// something else; one that is known can be watched as long as there is room.
pub proof fn a_known_target_is_watched_while_there_is_room(
    state: ProgressTargetState,
    target: ProgressTarget,
    room: bool,
)
    ensures
        ({
            let refused = crate::control::request::watch_refusal(state, target, room);
            &&& refused is None <==> state != ProgressTargetState::Unavailable && room
            &&& state == ProgressTargetState::Unavailable && target is Action ==> refused->0.code
                == ControlErrorCode::ActionUnavailable
            &&& state == ProgressTargetState::Unavailable && !(target is Action)
                ==> refused->0.code == ControlErrorCode::NotFound
            &&& state != ProgressTargetState::Unavailable && !room ==> refused->0.code
                == ControlErrorCode::Busy
        }),
{
}

/// A follower of the inspector is sent every record and told of every loss, until it
/// or the daemon goes.
pub proof fn a_follower_misses_nothing_untold(event: InspectorEvent, step: InspectorStep, lost: u64)
    requires
        call_ensures(inspector_step, (event,), step),
    ensures
        event == (InspectorEvent::Record { encoded: true }) <==> step == InspectorStep::SendRecord,
        event == InspectorEvent::Lagged(lost) <==> step == InspectorStep::SendDropped(lost),
        event == InspectorEvent::FollowerGone || event == InspectorEvent::Closed ==> step
            == InspectorStep::Stop,
        step == InspectorStep::Wait <==> event == (InspectorEvent::Shutdown {
            requested: false,
            closed: false,
        }),
{
}

/// A shutdown tells how many it stopped: those that were attached and no longer are.
pub proof fn a_shutdown_counts_what_it_stopped(
    before: usize,
    still_running: usize,
    stopped: Result<u32, ControlError>,
)
    requires
        call_ensures(stopped_count, (before, still_running), stopped),
        before <= u32::MAX,
    ensures
        stopped is Ok,
        still_running <= before ==> stopped->Ok_0 + still_running == before,
        still_running > before ==> stopped->Ok_0 == 0,
{
}

/// A declaration is refused as what is wrong with it.
pub proof fn a_declaration_is_refused_as_what_it_is(message: &str, error: ControlError, kind:
    DeclarationError)
    requires
        call_ensures(resource_grpc_error, (kind, message), error),
    ensures
        error.message@ == message@,
        kind == DeclarationError::UnsupportedApiVersion ==> error.code
            == ControlErrorCode::UnsupportedApiVersion,
        kind == DeclarationError::TooManyResources ==> error.code == ControlErrorCode::PlanTooLarge,
        kind == DeclarationError::Other ==> error.code == ControlErrorCode::InvalidRequest,
{
}

/// Whether some of these providers has a digest.
pub open spec fn has(known: Seq<MetadataView>, id: ProviderId) -> bool {
    exists|k: int| 0 <= k < known.len() && (#[trigger] known[k]).id == id
}

/// Whether some row is about a digest.
pub open spec fn lists(rows: Seq<RowView>, id: ProviderId) -> bool {
    exists|k: int| 0 <= k < rows.len() && (#[trigger] rows[k]).metadata.id == id
}

/// Whether rows tell of each provider where it comes from.
pub open spec fn tells_where_from(
    rows: Seq<RowView>,
    retained: Seq<MetadataView>,
    embedded: Seq<MetadataView>,
) -> bool {
    &&& crate::control::laws::in_digest_order(rows)
    &&& forall|id: ProviderId| #[trigger] lists(rows, id) <==> has(retained, id) || has(embedded, id)
    &&& forall|k: int|
        0 <= k < rows.len() ==> (#[trigger] rows[k]).retained == has(retained, rows[k].metadata.id)
            && rows[k].embedded == has(embedded, rows[k].metadata.id)
}

proof fn has_one_more(known: Seq<MetadataView>, id: ProviderId)
    requires
        known.len() > 0,
    ensures
        has(known, id) <==> has(known.drop_last(), id) || known.last().id == id,
{
    let front = known.drop_last();
    if has(front, id) {
        let k = choose|k: int| 0 <= k < front.len() && (#[trigger] front[k]).id == id;
        assert(known[k].id == id);
    }
    if known.last().id == id {
        assert(known[known.len() - 1].id == id);
    }
    if has(known, id) {
        let k = choose|k: int| 0 <= k < known.len() && (#[trigger] known[k]).id == id;
        if k < front.len() {
            assert(front[k].id == id);
        }
    }
}

proof fn an_unlisted_digest_is_nowhere(rows: Seq<RowView>, id: ProviderId)
    requires
        crate::control::laws::in_digest_order(rows),
    ensures
        ({
            let at = crate::control::request::place_in(rows, id);
            let known = at < rows.len() && rows[at].metadata.id == id;
            &&& 0 <= at <= rows.len()
            &&& known == lists(rows, id)
            &&& forall|k: int| 0 <= k < rows.len() && k != at ==> (#[trigger] rows[k]).metadata.id != id
        }),
{
    crate::control::request::a_place_is_within(rows, id);
    let at = crate::control::request::place_in(rows, id);
    assert forall|k: int| 0 <= k < rows.len() && k != at implies (#[trigger] rows[k]).metadata.id
        != id by {
        if k < at {
            assert(crate::control::request::row_before(rows[k], id));
        } else {
            assert(!crate::control::request::row_before(rows[at], id));
            assert(rows[at].metadata.id.before(rows[k].metadata.id));
        }
    }
    if at < rows.len() && rows[at].metadata.id == id {
        assert(lists(rows, id));
    }
}

proof fn a_filed_row_is_told(
    rows: Seq<RowView>,
    retained: Seq<MetadataView>,
    embedded: Seq<MetadataView>,
    metadata: MetadataView,
    is_embedded: bool,
    after: Seq<RowView>,
    kept: Seq<MetadataView>,
    shipped: Seq<MetadataView>,
)
    requires
        tells_where_from(rows, retained, embedded),
        is_embedded ==> after == crate::control::request::with_embedded(rows, metadata) && kept
            == retained && shipped == embedded.push(metadata),
        !is_embedded ==> after == crate::control::request::with_retained(rows, metadata) && kept
            == retained.push(metadata) && shipped == embedded && embedded.len() == 0,
        crate::control::laws::in_digest_order(after),
    ensures
        tells_where_from(after, kept, shipped),
{
    let id = metadata.id;
    let at = crate::control::request::place_in(rows, id);
    let known = at < rows.len() && rows[at].metadata.id == id;
    an_unlisted_digest_is_nowhere(rows, id);
    assert(retained.push(metadata).drop_last() =~= retained);
    assert(embedded.push(metadata).drop_last() =~= embedded);
    assert forall|other: ProviderId| #[trigger] lists(after, other) <==> has(kept, other) || has(
        shipped,
        other,
    ) by {
        has_one_more(retained.push(metadata), other);
        has_one_more(embedded.push(metadata), other);
        assert(lists(rows, other) <==> has(retained, other) || has(embedded, other));
        if lists(rows, other) {
            let k = choose|k: int| 0 <= k < rows.len() && (#[trigger] rows[k]).metadata.id == other;
            if known || k < at {
                assert(after[k].metadata.id == other);
            } else {
                assert(after[k + 1].metadata.id == other);
            }
        }
        if other == id {
            assert(after[at].metadata.id == id);
        }
        if lists(after, other) && other != id {
            let k = choose|k: int| 0 <= k < after.len() && (#[trigger] after[k]).metadata.id == other;
            if known || k < at {
                assert(rows[k].metadata.id == other);
            } else {
                assert(rows[k - 1].metadata.id == other);
            }
        }
    }
    assert forall|k: int| 0 <= k < after.len() implies (#[trigger] after[k]).retained == has(
        kept,
        after[k].metadata.id,
    ) && after[k].embedded == has(shipped, after[k].metadata.id) by {
        let other = after[k].metadata.id;
        has_one_more(retained.push(metadata), other);
        has_one_more(embedded.push(metadata), other);
        assert(lists(rows, id) <==> has(retained, id) || has(embedded, id));
        if k == at {
            if known {
                assert(rows[at].metadata.id == id);
            }
        } else if known || k < at {
            assert(rows[k] == after[k]);
        } else {
            assert(rows[k - 1] == after[k]);
        }
    }
}

/// Every provider that is retained or comes with the daemon is listed, no other is,
/// and each row tells in which of the two ways its provider is had.
pub proof fn a_listing_tells_where_providers_come_from(
    retained: Seq<MetadataView>,
    embedded: Seq<MetadataView>,
)
    ensures
        tells_where_from(
            crate::control::request::listed(retained, embedded),
            retained,
            embedded,
        ),
    decreases retained.len() + embedded.len(),
{
    crate::control::laws::each_provider_is_listed_once(retained, embedded);
    if embedded.len() > 0 {
        let rest = embedded.drop_last();
        a_listing_tells_where_providers_come_from(retained, rest);
        assert(rest.push(embedded.last()) =~= embedded);
        a_filed_row_is_told(
            crate::control::request::listed(retained, rest),
            retained,
            rest,
            embedded.last(),
            true,
            crate::control::request::listed(retained, embedded),
            retained,
            embedded,
        );
    } else if retained.len() > 0 {
        let rest = retained.drop_last();
        a_listing_tells_where_providers_come_from(rest, embedded);
        assert(rest.push(retained.last()) =~= retained);
        a_filed_row_is_told(
            crate::control::request::listed(rest, embedded),
            rest,
            embedded,
            retained.last(),
            false,
            crate::control::request::listed(retained, embedded),
            retained,
            embedded,
        );
    } else {
        let none = crate::control::request::listed(retained, embedded);
        assert forall|id: ProviderId| #[trigger] lists(none, id) <==> has(retained, id) || has(
            embedded,
            id,
        ) by {}
    }
}

/// A row shows a provider that is known: one that is retained as it is retained, and
/// one that is only shipped as it is shipped.
pub proof fn a_row_shows_what_is_retained_before_what_is_shipped(
    retained: Seq<MetadataView>,
    embedded: Seq<MetadataView>,
)
    ensures
        ({
            let rows = crate::control::request::listed(retained, embedded);
            forall|k: int|
                0 <= k < rows.len() ==> if (#[trigger] rows[k]).retained {
                    retained.contains(rows[k].metadata)
                } else {
                    embedded.contains(rows[k].metadata)
                }
        }),
    decreases retained.len() + embedded.len(),
{
    let rows = crate::control::request::listed(retained, embedded);
    if embedded.len() > 0 {
        let front = embedded.drop_last();
        let before = crate::control::request::listed(retained, front);
        let at = crate::control::request::place_in(before, embedded.last().id);
        a_row_shows_what_is_retained_before_what_is_shipped(retained, front);
        crate::control::request::a_place_is_within(before, embedded.last().id);
        assert forall|k: int| 0 <= k < rows.len() implies if (#[trigger] rows[k]).retained {
            retained.contains(rows[k].metadata)
        } else {
            embedded.contains(rows[k].metadata)
        } by {
            let known = at < before.len() && before[at].metadata.id == embedded.last().id;
            assert(embedded[embedded.len() - 1] == embedded.last());
            if known || k < at {
                assert(rows[k].metadata == before[k].metadata && rows[k].retained
                    == before[k].retained);
                stays_contained(embedded, rows[k].metadata);
            } else if k > at {
                assert(rows[k] == before[k - 1]);
                stays_contained(embedded, rows[k].metadata);
            }
        }
    } else if retained.len() > 0 {
        let front = retained.drop_last();
        let before = crate::control::request::listed(front, embedded);
        let at = crate::control::request::place_in(before, retained.last().id);
        a_row_shows_what_is_retained_before_what_is_shipped(front, embedded);
        crate::control::request::a_place_is_within(before, retained.last().id);
        assert forall|k: int| 0 <= k < rows.len() implies if (#[trigger] rows[k]).retained {
            retained.contains(rows[k].metadata)
        } else {
            embedded.contains(rows[k].metadata)
        } by {
            let known = at < before.len() && before[at].metadata.id == retained.last().id;
            assert(retained[retained.len() - 1] == retained.last());
            if k < at || (known && k > at) {
                assert(rows[k] == before[k]);
                stays_contained(retained, rows[k].metadata);
            } else if k > at {
                assert(rows[k] == before[k - 1]);
                stays_contained(retained, rows[k].metadata);
            }
        }
    }
}

proof fn stays_contained(known: Seq<MetadataView>, metadata: MetadataView)
    requires
        known.len() > 0,
    ensures
        known.drop_last().contains(metadata) ==> known.contains(metadata),
{
    let front = known.drop_last();
    if front.contains(metadata) {
        let k = choose|k: int| 0 <= k < front.len() && front[k] == metadata;
        assert(known[k] == metadata);
    }
}

/// A daemon that shuts down shows nothing any more, and one that is ready shows what
/// its runtime holds.
pub proof fn a_stopping_daemon_shows_nothing()
    ensures
        crate::control::shown_inventory(PhaseView::ShuttingDown) is Err,
        crate::control::shown_inventory(PhaseView::ShuttingDown)->Err_0.code
            == ControlErrorCode::NotReady,
        crate::control::shown_inventory(PhaseView::ShuttingDown)->Err_0.message
            == "daemon is shutting down"@,
        crate::control::shown_recovery(PhaseView::ShuttingDown) is Err,
        crate::control::shown_recovery(PhaseView::ShuttingDown)->Err_0
            == crate::control::shown_inventory(PhaseView::ShuttingDown)->Err_0,
        crate::control::shown_inventory(PhaseView::Ready) is Ok,
        crate::control::shown_inventory(PhaseView::Ready)->Ok_0 is None,
{
}

/// A refused upload is told what is wrong with it.
pub proof fn a_refused_upload_is_told_why(upload: ProviderUpload, item: UploadItem)
    ensures
        crate::control::upload::start_failure(None) == Some("provider upload is missing start"@),
        item is Chunk ==> crate::control::upload::start_failure(Some(item)) == Some(
            "provider upload chunk arrived before start"@,
        ),
        item is Empty ==> crate::control::upload::start_failure(Some(item)) == Some(
            "provider upload item is empty"@,
        ) && crate::control::upload::item_failure(upload, item) == Some(
            "provider upload item is empty"@,
        ),
        item is Start ==> crate::control::upload::item_failure(upload, item) == Some(
            "provider upload contains duplicate start"@,
        ),
        item is Chunk && (item->Chunk_0)@.len() == 0 ==> crate::control::upload::item_failure(
            upload,
            item,
        ) == Some("provider upload chunk is empty"@),
        item is Chunk && 0 < (item->Chunk_0)@.len() && upload.total_length < upload.received + (
        item->Chunk_0)@.len() <= u64::MAX ==> crate::control::upload::item_failure(upload, item)
            == Some("provider upload exceeds declared length"@),
{
}

} // verus!
