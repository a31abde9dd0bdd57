//! What holds of every start.
use crate::order::Ranked;
use crate::provider_bundle::EmbeddedView;
use crate::startup::cycle::{StageView, StartupEvent};
use crate::startup::{BySize, FailureView};
use vstd::prelude::*;

verus! {

/// Bytes tell numbers apart that fit into them.
proof fn low_bytes_tell_apart(a: nat, b: nat, len: nat, bound: nat)
    requires
        a < bound,
        b < bound,
        bound <= power(len),
        crate::startup::low_bytes(a, len) == crate::startup::low_bytes(b, len),
    ensures
        a == b,
    decreases len,
{
    if len > 0 {
        let x = crate::startup::low_bytes(a, len);
        let y = crate::startup::low_bytes(b, len);
        assert(x[0] == (a % 256) as u8);
        assert(y[0] == (b % 256) as u8);
        assert(a % 256 == b % 256);
        let shorter = (len - 1) as nat;
        assert(x.skip(1) =~= crate::startup::low_bytes(a / 256, shorter));
        assert(y.skip(1) =~= crate::startup::low_bytes(b / 256, shorter));
        assert(a / 256 < power(shorter) && b / 256 < power(shorter));
        low_bytes_tell_apart(a / 256, b / 256, shorter, power(shorter));
        assert(a == 256 * (a / 256) + a % 256);
        assert(b == 256 * (b / 256) + b % 256);
    }
}

/// How many numbers fit into so many bytes.
spec fn power(len: nat) -> nat
    decreases len,
{
    if len == 0 {
        1
    } else {
        256 * power((len - 1) as nat)
    }
}

/// Offers with different numbers have different identities, so that a repair
/// cannot be asked for under an offer that was withdrawn.
pub proof fn offers_are_told_apart(a: u64, b: u64)
    ensures
        crate::startup::offer_bytes(a) == crate::startup::offer_bytes(b) ==> a == b,
{
    if crate::startup::offer_bytes(a) == crate::startup::offer_bytes(b) {
        reveal_with_fuel(power, 17);
        assert(0x1_0000_0000_0000_0000 <= power(16));
        low_bytes_tell_apart(a as nat, b as nat, 16, 0x1_0000_0000_0000_0000);
    }
}

/// A runtime is built only on a store that was opened, or repaired.
pub proof fn a_runtime_is_built_on_a_store(stage: StageView, event: StartupEvent)
    requires
        crate::startup::cycle::after(stage, event) == Some(StageView::Building),
    ensures
        (stage is Opening && (event matches StartupEvent::StoreOpened { error } && error is None))
            || (stage is Repairing && (event matches StartupEvent::Repaired { error }
            && error is None)),
{
}

/// A daemon that cannot serve waits: it stops only when it is asked to, or when
/// no one can ask for a repair any more.
pub proof fn a_failure_alone_does_not_stop_the_daemon(failure: FailureView, event: StartupEvent)
    requires
        crate::startup::cycle::after(StageView::Recovering { failure }, event) matches Some(stage)
            && stage is Stopped,
    ensures
        event is RepairQueueClosed || (event matches StartupEvent::ShutdownChanged {
            closed,
            requested,
        } && !closed && requested),
{
}

/// A stopped daemon stays stopped.
pub proof fn a_stopped_daemon_stays_stopped(error: Option<Seq<char>>, event: StartupEvent)
    ensures
        crate::startup::cycle::after(StageView::Stopped { error }, event) is None,
{
}

/// A repair is offered for a store that could not be opened, and for nothing
/// else.
pub proof fn only_a_broken_store_is_offered_for_repair(
    failure: FailureView,
    next: u64,
    repair: Option<crate::control::OfferView>,
)
    requires
        crate::startup::is_offered(failure, next, repair),
    ensures
        repair is Some <==> failure is Store,
{
}

/// Embedded providers are prepared from the smallest to the largest, and all of
/// them are.
pub proof fn the_smallest_artifacts_go_first(providers: Seq<EmbeddedView>, i: int, j: int)
    requires
        0 <= i < j < providers.len(),
    ensures
        crate::order::sorted::<BySize>(providers)[i].bytes.len()
            <= crate::order::sorted::<BySize>(providers)[j].bytes.len(),
        crate::order::sorted::<BySize>(providers).to_multiset() == providers.to_multiset(),
{
    crate::order::sorted_is_in_order::<BySize>(providers);
    let listed = crate::order::sorted::<BySize>(providers);
    assert(!BySize::ranks_before(listed[j], listed[i]));
}

} // verus!
