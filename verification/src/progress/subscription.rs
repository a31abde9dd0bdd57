//! One watcher of the hub.
use crate::progress::{
    event_is_terminal, target_accepts, target_is_terminal, EventView, HubView, KindView,
    ProgressEvent, ProgressEventKind, ProgressHub, ProgressTarget,
};
use vstd::prelude::*;

verus! {

/// One watcher: what it follows, and the last event it has been sent or whose
/// effect its snapshot already shows.
#[derive(Clone, Copy, Debug, PartialEq, Eq, Structural)]
pub struct Subscription {
    pub target: ProgressTarget,
    pub watermark: u64,
}

/// What a watcher is sent, and whether its stream ends with it.
#[derive(Debug, PartialEq, Eq)]
pub struct Delivery {
    pub event: ProgressEvent,
    pub terminal: bool,
}

/// The snapshot event that opens a stream.
pub open spec fn opening(hub: HubView, target: ProgressTarget) -> EventView {
    EventView {
        daemon_instance_id: hub.daemon_instance_id,
        sequence: hub.sequence,
        target,
        event: KindView::Snapshot(crate::progress::hub::seen(hub, target)),
    }
}

/// The snapshot event that brings a watcher up to date after it fell behind.
pub open spec fn resync(hub: HubView, target: ProgressTarget) -> EventView {
    EventView {
        event: KindView::Resync(crate::progress::hub::seen(hub, target)),
        ..opening(hub, target)
    }
}

/// An event with its snapshot narrowed to what the watcher may see.
pub open spec fn narrowed(hub: HubView, event: EventView, target: ProgressTarget) -> EventView {
    match event.event {
        KindView::Snapshot(_) => EventView {
            event: KindView::Snapshot(crate::progress::hub::seen(hub, target)),
            ..event
        },
        KindView::Resync(_) => EventView {
            event: KindView::Resync(crate::progress::hub::seen(hub, target)),
            ..event
        },
        _ => event,
    }
}

/// Whether a watcher is sent an event.
pub open spec fn wants(subscription: Subscription, event: EventView) -> bool {
    event.sequence > subscription.watermark && crate::progress::accepts(
        subscription.target,
        event.target,
    )
}

impl Subscription {
    /// Opens a stream with everything that is known now.
    pub fn open(hub: &ProgressHub, target: ProgressTarget) -> (opened: (Subscription, Delivery))
        ensures
            opened.0 == (Subscription { target, watermark: hub.sequence }),
            opened.1.event@ == opening(hub@, target),
            opened.1.terminal == crate::progress::is_final(
                crate::progress::state_of(crate::progress::hub::seen(hub@, target), target),
            ),
    {
        let (watermark, snapshot) = hub.snapshot_for(target);
        let terminal = target_is_terminal(&snapshot, target);
        let event = ProgressEvent {
            daemon_instance_id: hub.daemon_instance_id.clone(),
            sequence: watermark,
            target,
            event: ProgressEventKind::Snapshot(snapshot),
        };
        (Subscription { target, watermark }, Delivery { event, terminal })
    }

    /// What a watcher is sent of an event that was broadcast.
    pub fn receive(&mut self, hub: &ProgressHub, event: ProgressEvent) -> (delivery: Option<Delivery>)
        ensures
            delivery is Some <==> wants(*old(self), event@),
            delivery matches Some(delivery) ==> delivery.event@ == narrowed(
                hub@,
                event@,
                old(self).target,
            ) && delivery.terminal == crate::progress::ends(event@, old(self).target)
                && *final(self) == (Subscription { watermark: event.sequence, ..*old(self) }),
            delivery is None ==> *final(self) == *old(self),
    {
        if event.sequence <= self.watermark || !target_accepts(self.target, event.target) {
            return None;
        }
        self.watermark = event.sequence;
        let target = self.target;
        let terminal = event_is_terminal(&event, target);
        let kind = match event.event {
            ProgressEventKind::Snapshot(_) => ProgressEventKind::Snapshot(hub.snapshot_for(target).1),
            ProgressEventKind::Resync(_) => ProgressEventKind::Resync(hub.snapshot_for(target).1),
            kind => kind,
        };
        let event = ProgressEvent {
            daemon_instance_id: event.daemon_instance_id,
            sequence: event.sequence,
            target: event.target,
            event: kind,
        };
        Some(Delivery { event, terminal })
    }

    /// Brings a watcher up to date after it missed events.
    pub fn recover(&mut self, hub: &ProgressHub) -> (delivery: Delivery)
        ensures
            delivery.event@ == resync(hub@, old(self).target),
            delivery.terminal == crate::progress::is_final(
                crate::progress::state_of(
                    crate::progress::hub::seen(hub@, old(self).target),
                    old(self).target,
                ),
            ),
            *final(self) == (Subscription { watermark: hub.sequence, ..*old(self) }),
    {
        let (watermark, snapshot) = hub.snapshot_for(self.target);
        self.watermark = watermark;
        let terminal = target_is_terminal(&snapshot, self.target);
        let event = ProgressEvent {
            daemon_instance_id: hub.daemon_instance_id.clone(),
            sequence: watermark,
            target: self.target,
            event: ProgressEventKind::Resync(snapshot),
        };
        Delivery { event, terminal }
    }
}

} // verus!
