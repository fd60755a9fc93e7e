use vstd::prelude::*;

use crate::event::{EventKind, PhysicalEvent};
use crate::time::{at_or_before, within, UtcTimestamp};

verus! {

/// How far back the missing-object rule looks for an inventory transaction.
pub const TRANSACTION_WINDOW_SECS: i64 = 3600;

/// How far back the access rule counts denials.
pub const ACCESS_DENIAL_WINDOW_SECS: i64 = 600;

/// How far back the re-entry rule looks at a zone's activity.
pub const ZONE_ENTRY_WINDOW_SECS: i64 = 900;

/// Is there an inventory transaction of `entity_id` in `zone` within
/// `[from, to]`?
#[derive(Debug)]
pub struct TransactionLookup {
    pub entity_id: String,
    pub zone: String,
    pub from: UtcTimestamp,
    pub to: UtcTimestamp,
}

/// How many access denials did `entity_id` receive within `[from, to]`?
#[derive(Debug)]
pub struct AccessDenialLookup {
    pub entity_id: String,
    pub from: UtcTimestamp,
    pub to: UtcTimestamp,
}

/// How many times, in any event other than `excluded_id`, did `entity_id`
/// enter `zone` at or before `to`?
#[derive(Debug)]
pub struct ZoneVisitLookup {
    pub entity_id: String,
    pub zone: String,
    pub excluded_id: u128,
    pub to: UtcTimestamp,
}

/// What did `entity_id` do in `zone` within `[from, to]`?
#[derive(Debug)]
pub struct ZoneWindowLookup {
    pub entity_id: String,
    pub zone: String,
    pub from: UtcTimestamp,
    pub to: UtcTimestamp,
}

/// One event of an entity in a zone, as a zone-window lookup reports it.
#[derive(Clone, Copy, Debug, PartialEq, Eq, Structural)]
pub struct ZoneActivity {
    pub id: u128,
    pub kind: EventKind,
    pub occurred_at: UtcTimestamp,
}

/// `e` is an inventory transaction that answers `l` positively.
pub open spec fn is_matching_transaction(l: TransactionLookup, e: PhysicalEvent) -> bool {
    &&& e.entity_id@ == l.entity_id@
    &&& e.zone@ == l.zone@
    &&& e.kind == EventKind::TransactionRecorded
    &&& within(e.occurred_at, l.from, l.to)
}

/// `e` is one of the access denials that `l` counts.
pub open spec fn is_counted_denial(l: AccessDenialLookup, e: PhysicalEvent) -> bool {
    &&& e.entity_id@ == l.entity_id@
    &&& e.kind == EventKind::AccessDenied
    &&& within(e.occurred_at, l.from, l.to)
}

/// `e` is one of the zone entries that `l` counts.
pub open spec fn is_counted_visit(l: ZoneVisitLookup, e: PhysicalEvent) -> bool {
    &&& e.entity_id@ == l.entity_id@
    &&& e.zone@ == l.zone@
    &&& e.kind == EventKind::EnteredZone
    &&& e.id != l.excluded_id
    &&& at_or_before(e.occurred_at, l.to)
}

/// `e` is one of the events that `l` reports.
pub open spec fn is_zone_window_event(l: ZoneWindowLookup, e: PhysicalEvent) -> bool {
    &&& e.entity_id@ == l.entity_id@
    &&& e.zone@ == l.zone@
    &&& within(e.occurred_at, l.from, l.to)
}

/// The lookup the missing-object rule makes for an `ObjectMissing` event:
/// transactions of the same entity in the same zone during the hour up to
/// and including the event.
pub open spec fn transaction_lookup_for(l: TransactionLookup, e: PhysicalEvent) -> bool {
    &&& l.entity_id@ == e.entity_id@
    &&& l.zone@ == e.zone@
    &&& l.from.secs == e.occurred_at.secs - TRANSACTION_WINDOW_SECS
    &&& l.from.nanos == e.occurred_at.nanos
    &&& l.to == e.occurred_at
}

/// The lookup the access rule makes for an `AccessDenied` event: denials of
/// the same entity, in any zone, during the ten minutes up to and including
/// the event.
pub open spec fn access_denial_lookup_for(l: AccessDenialLookup, e: PhysicalEvent) -> bool {
    &&& l.entity_id@ == e.entity_id@
    &&& l.from.secs == e.occurred_at.secs - ACCESS_DENIAL_WINDOW_SECS
    &&& l.from.nanos == e.occurred_at.nanos
    &&& l.to == e.occurred_at
}

/// The lookup the novel-zone rule makes for an `EnteredZone` event: other
/// entries of the same entity into the same zone, at or before the event.
pub open spec fn zone_visit_lookup_for(l: ZoneVisitLookup, e: PhysicalEvent) -> bool {
    &&& l.entity_id@ == e.entity_id@
    &&& l.zone@ == e.zone@
    &&& l.excluded_id == e.id
    &&& l.to == e.occurred_at
}

/// The lookup the re-entry rule makes for an `EnteredZone` event: all
/// events of the same entity in the same zone during the fifteen minutes up
/// to and including the event.
pub open spec fn zone_window_lookup_for(l: ZoneWindowLookup, e: PhysicalEvent) -> bool {
    &&& l.entity_id@ == e.entity_id@
    &&& l.zone@ == e.zone@
    &&& l.from.secs == e.occurred_at.secs - ZONE_ENTRY_WINDOW_SECS
    &&& l.from.nanos == e.occurred_at.nanos
    &&& l.to == e.occurred_at
}

/// The event is late enough that its longest look-back window still starts
/// at a representable instant.
pub open spec fn window_representable(e: PhysicalEvent) -> bool {
    e.occurred_at.secs >= i64::MIN + TRANSACTION_WINDOW_SECS
}

/// The transaction lookup for `event`, made only for an `ObjectMissing`
/// event.
pub fn transaction_lookup(event: &PhysicalEvent) -> (r: Option<TransactionLookup>)
    requires
        window_representable(*event),
    ensures
        r is Some <==> event.kind == EventKind::ObjectMissing,
        r matches Some(l) ==> transaction_lookup_for(l, *event),
{
    if event.kind != EventKind::ObjectMissing {
        return None;
    }
    Some(TransactionLookup {
        entity_id: event.entity_id.clone(),
        zone: event.zone.clone(),
        from: event.occurred_at.minus_seconds(TRANSACTION_WINDOW_SECS),
        to: event.occurred_at,
    })
}

/// The access-denial lookup for `event`, made only for an `AccessDenied`
/// event.
pub fn access_denial_lookup(event: &PhysicalEvent) -> (r: Option<AccessDenialLookup>)
    requires
        window_representable(*event),
    ensures
        r is Some <==> event.kind == EventKind::AccessDenied,
        r matches Some(l) ==> access_denial_lookup_for(l, *event),
{
    if event.kind != EventKind::AccessDenied {
        return None;
    }
    Some(AccessDenialLookup {
        entity_id: event.entity_id.clone(),
        from: event.occurred_at.minus_seconds(ACCESS_DENIAL_WINDOW_SECS),
        to: event.occurred_at,
    })
}

/// The zone-visit lookup for `event`, made only for an `EnteredZone` event.
pub fn zone_visit_lookup(event: &PhysicalEvent) -> (r: Option<ZoneVisitLookup>)
    ensures
        r is Some <==> event.kind == EventKind::EnteredZone,
        r matches Some(l) ==> zone_visit_lookup_for(l, *event),
{
    if event.kind != EventKind::EnteredZone {
        return None;
    }
    Some(ZoneVisitLookup {
        entity_id: event.entity_id.clone(),
        zone: event.zone.clone(),
        excluded_id: event.id,
        to: event.occurred_at,
    })
}

/// The zone-window lookup for `event`, made only for an `EnteredZone` event.
pub fn zone_window_lookup(event: &PhysicalEvent) -> (r: Option<ZoneWindowLookup>)
    requires
        window_representable(*event),
    ensures
        r is Some <==> event.kind == EventKind::EnteredZone,
        r matches Some(l) ==> zone_window_lookup_for(l, *event),
{
    if event.kind != EventKind::EnteredZone {
        return None;
    }
    Some(ZoneWindowLookup {
        entity_id: event.entity_id.clone(),
        zone: event.zone.clone(),
        from: event.occurred_at.minus_seconds(ZONE_ENTRY_WINDOW_SECS),
        to: event.occurred_at,
    })
}


/// The look-back windows: an hour for inventory transactions, ten minutes
/// for access denials, fifteen minutes for zone re-entries; each window
/// ends at the event itself.
pub proof fn lemma_lookup_windows(e: PhysicalEvent, t: TransactionLookup, a: AccessDenialLookup, z: ZoneWindowLookup)
    ensures
        transaction_lookup_for(t, e) ==> t.from.secs == e.occurred_at.secs - 3600 && t.to == e.occurred_at,
        access_denial_lookup_for(a, e) ==> a.from.secs == e.occurred_at.secs - 600 && a.to == e.occurred_at,
        zone_window_lookup_for(z, e) ==> z.from.secs == e.occurred_at.secs - 900 && z.to == e.occurred_at,
{
}

} // verus!
