//! What holds of every control connection and every answer.
use crate::control::repair::RepairRequest;
use crate::control::request::RowView;
use crate::control::upload::{ProviderUpload, UploadItem};
use crate::control::{ControlErrorCode, ErrorView, PhaseView};
use crate::provider_bundle::MetadataView;
use vstd::prelude::*;

verus! {

/// Once a repair has been taken up, the same request is refused until a new
/// recovery is shown.
pub proof fn an_offer_is_taken_up_once(
    phase: PhaseView,
    instance_id: Seq<char>,
    request: RepairRequest,
)
    requires
        crate::control::repair::repair_refusal(phase, instance_id, request) is None,
    ensures
        crate::control::repair::repair_refusal(PhaseView::Starting, instance_id, request) == Some(
            ErrorView {
                code: ControlErrorCode::Conflict,
                message: "the daemon is not offering state repair"@,
            },
        ),
{
}

/// A repair is taken up only by the daemon that offered it, for the very offer.
pub proof fn only_the_standing_offer_is_taken_up(
    phase: PhaseView,
    instance_id: Seq<char>,
    request: RepairRequest,
)
    ensures
        crate::control::repair::repair_refusal(phase, instance_id, request) is None ==> (phase
            matches PhaseView::Recovery(recovery) && recovery.repair matches Some(offer)
            && offer.id == request.recovery_id@ && request.instance_id@ == instance_id),
{
}

/// A daemon that shuts down answers nothing but that.
pub proof fn a_stopping_daemon_answers_nothing_else(phase: PhaseView)
    requires
        phase is ShuttingDown,
    ensures
        crate::control::gate(phase) == Some(crate::control::stopping()),
        crate::control::shown_recovery(phase) is Err,
        crate::control::shown_inventory(phase) is Err,
{
}

/// A daemon that starts or recovers still shows what state it is in, though it
/// refuses every request that needs the serving runtime.
pub proof fn a_recovering_daemon_stays_visible(phase: PhaseView)
    requires
        phase is Starting || phase is Recovery,
    ensures
        crate::control::gate(phase) is Some,
        crate::control::shown_recovery(phase) matches Ok(shown) && shown is Some,
        crate::control::shown_inventory(phase) matches Ok(shown) && shown is Some,
{
}

/// An upload never takes in more than it declared, and one that took a chunk in
/// has received more than before.
pub proof fn an_upload_stays_within_its_length(upload: ProviderUpload, item: UploadItem)
    requires
        upload.received <= upload.total_length,
        crate::control::upload::item_failure(upload, item) is None,
    ensures
        item matches UploadItem::Chunk(chunk) && upload.received < upload.received + chunk@.len()
            <= upload.total_length,
{
}

/// How much of what is ahead goes into a buffer.
pub open spec fn fitting(ahead: Seq<u8>, room: nat) -> int {
    if room < ahead.len() {
        room as int
    } else {
        ahead.len() as int
    }
}

/// What is read of a preface into buffers of these sizes, one after the other.
pub open spec fn replayed(ahead: Seq<u8>, rooms: Seq<nat>) -> Seq<u8>
    decreases rooms.len(),
{
    if rooms.len() == 0 {
        Seq::empty()
    } else {
        let count = fitting(ahead, rooms[0]);
        ahead.take(count) + replayed(ahead.skip(count), rooms.skip(1))
    }
}

/// What is still ahead after such reads.
pub open spec fn left_ahead(ahead: Seq<u8>, rooms: Seq<nat>) -> Seq<u8>
    decreases rooms.len(),
{
    if rooms.len() == 0 {
        ahead
    } else {
        left_ahead(ahead.skip(fitting(ahead, rooms[0])), rooms.skip(1))
    }
}

/// However large the buffers are, what is read and what is still ahead are
/// together the preface: it is handed on whole, in order, and once.
pub proof fn the_preface_is_handed_on_once(ahead: Seq<u8>, rooms: Seq<nat>)
    ensures
        replayed(ahead, rooms) + left_ahead(ahead, rooms) == ahead,
    decreases rooms.len(),
{
    if rooms.len() == 0 {
        assert(replayed(ahead, rooms) + left_ahead(ahead, rooms) =~= ahead);
    } else {
        let count = fitting(ahead, rooms[0]);
        let rest = ahead.skip(count);
        the_preface_is_handed_on_once(rest, rooms.skip(1));
        assert(replayed(ahead, rooms) + left_ahead(ahead, rooms) =~= ahead.take(count) + (replayed(
            rest,
            rooms.skip(1),
        ) + left_ahead(rest, rooms.skip(1))));
        assert(ahead.take(count) + rest =~= ahead);
    }
}

/// Rows with the digests in order, each once.
pub open spec fn in_digest_order(rows: Seq<RowView>) -> bool {
    forall|i: int, j: int|
        #![trigger rows[i], rows[j]]
        0 <= i < j < rows.len() ==> rows[i].metadata.id.before(rows[j].metadata.id)
}

/// Filing a provider keeps the digests in order, each once.
proof fn filing_keeps_the_order(rows: Seq<RowView>, metadata: MetadataView)
    requires
        in_digest_order(rows),
    ensures
        in_digest_order(crate::control::request::with_retained(rows, metadata)),
        in_digest_order(crate::control::request::with_embedded(rows, metadata)),
{
    crate::control::request::a_place_is_within(rows, metadata.id);
    let at = crate::control::request::place_in(rows, metadata.id);
    let known = at < rows.len() && rows[at].metadata.id == metadata.id;
    let retained = crate::control::request::with_retained(rows, metadata);
    let embedded = crate::control::request::with_embedded(rows, metadata);
    assert forall|i: int, j: int|
        #![trigger retained[i], retained[j]]
        0 <= i < j < retained.len() implies retained[i].metadata.id.before(retained[j].metadata.id) by {
        if !known {
            let a = if i < at {
                i
            } else {
                i - 1
            };
            let b = if j < at {
                j
            } else {
                j - 1
            };
            if i < at {
                assert(crate::control::request::row_before(rows[i], metadata.id));
            }
            if i != at && j != at {
                assert(rows[a].metadata.id.before(rows[b].metadata.id));
            }
            if i == at && b > at {
                assert(rows[at].metadata.id.before(rows[b].metadata.id));
            }
        } else {
            assert(rows[i].metadata.id.before(rows[j].metadata.id));
        }
    }
    assert forall|i: int, j: int|
        #![trigger embedded[i], embedded[j]]
        0 <= i < j < embedded.len() implies embedded[i].metadata.id.before(embedded[j].metadata.id) by {
        assert(embedded[i].metadata.id == retained[i].metadata.id);
        assert(embedded[j].metadata.id == retained[j].metadata.id);
        assert(retained[i].metadata.id.before(retained[j].metadata.id));
    }
}

/// Every provider is listed once, in the order of the digests.
pub proof fn each_provider_is_listed_once(
    retained: Seq<MetadataView>,
    embedded: Seq<MetadataView>,
)
    ensures
        in_digest_order(crate::control::request::listed(retained, embedded)),
    decreases retained.len() + embedded.len(),
{
    if embedded.len() > 0 {
        each_provider_is_listed_once(retained, embedded.drop_last());
        filing_keeps_the_order(
            crate::control::request::listed(retained, embedded.drop_last()),
            embedded.last(),
        );
    } else if retained.len() > 0 {
        each_provider_is_listed_once(retained.drop_last(), embedded);
        filing_keeps_the_order(
            crate::control::request::listed(retained.drop_last(), embedded),
            retained.last(),
        );
    }
}

} // verus!
