use vstd::prelude::*;
use vstd::string::*;

use crate::error::{ApiError, ApiErrorKind};
use crate::text::{is_blank, is_blank_text, lemma_visible_character_is_not_blank, uuid_string, uuid_text};
use crate::time::UtcTimestamp;

verus! {

/// The system that reported a physical event.
#[derive(Clone, Copy, Debug, PartialEq, Eq, Structural)]
pub enum EventSource {
    Camera,
    Sensor,
    Inventory,
    AccessControl,
    Machine,
}

/// What happened in a physical event.
#[derive(Clone, Copy, Debug, PartialEq, Eq, Structural)]
pub enum EventKind {
    EnteredZone,
    ExitedZone,
    ObjectMoved,
    ObjectMissing,
    StateChanged,
    AccessGranted,
    AccessDenied,
    TransactionRecorded,
}

/// A recorded physical event. `id` holds the 128 bits of its UUID and
/// `metadata` its free-form JSON document as text.
#[derive(Debug)]
pub struct PhysicalEvent {
    pub id: u128,
    pub occurred_at: UtcTimestamp,
    pub source: EventSource,
    pub entity_id: String,
    pub kind: EventKind,
    pub zone: String,
    pub metadata: String,
}

/// The body of a request to record a physical event.
#[derive(Debug)]
pub struct CreateEventRequest {
    pub occurred_at: UtcTimestamp,
    pub source: EventSource,
    pub entity_id: String,
    pub kind: EventKind,
    pub zone: String,
    pub metadata: String,
}

/// The message of a request whose entity is blank.
pub open spec fn blank_entity_message() -> Seq<char> {
    "entity_id must not be empty"@
}

/// The message of a request whose zone is blank.
pub open spec fn blank_zone_message() -> Seq<char> {
    "zone must not be empty"@
}

/// The message when no event has the UUID with bits `id`.
pub open spec fn event_not_found_message(id: u128) -> Seq<char> {
    "Physical event "@ + uuid_text(id) + " not found"@
}

/// A copy of an event with the same id, time, source, kind and texts.
pub open spec fn same_event(a: &PhysicalEvent, b: &PhysicalEvent) -> bool {
    &&& a.id == b.id
    &&& a.occurred_at == b.occurred_at
    &&& a.source == b.source
    &&& a.entity_id@ == b.entity_id@
    &&& a.kind == b.kind
    &&& a.zone@ == b.zone@
    &&& a.metadata@ == b.metadata@
}

impl CreateEventRequest {
    /// Checks the request before it is recorded: the entity and the zone must
    /// each hold something other than white space. A blank entity is
    /// reported first.
    pub fn validate(&self) -> (r: Result<(), ApiError>)
        ensures
            r is Ok <==> !is_blank_text(self.entity_id@) && !is_blank_text(self.zone@),
            r matches Err(e) ==> e.kind == ApiErrorKind::BadRequest,
            r matches Err(e) ==> (e.message@ == if is_blank_text(self.entity_id@) {
                blank_entity_message()
            } else {
                blank_zone_message()
            }),
    {
        if is_blank(self.entity_id.as_str()) {
            return Err(ApiError::new(ApiErrorKind::BadRequest, String::from_str("entity_id must not be empty")));
        }
        if is_blank(self.zone.as_str()) {
            return Err(ApiError::new(ApiErrorKind::BadRequest, String::from_str("zone must not be empty")));
        }
        Ok(())
    }

    /// The event this request records once the store has given it the id
    /// `id`.
    pub fn into_event(self, id: u128) -> (e: PhysicalEvent)
        ensures
            e.id == id,
            e.occurred_at == self.occurred_at,
            e.source == self.source,
            e.entity_id@ == self.entity_id@,
            e.kind == self.kind,
            e.zone@ == self.zone@,
            e.metadata@ == self.metadata@,
    {
        PhysicalEvent {
            id,
            occurred_at: self.occurred_at,
            source: self.source,
            entity_id: self.entity_id,
            kind: self.kind,
            zone: self.zone,
            metadata: self.metadata,
        }
    }
}

/// The answer to a lookup of the event with UUID bits `id`, given what the
/// store found: the event itself, or a not-found failure naming the id.
pub fn found_event(id: u128, found: Option<PhysicalEvent>) -> (r: Result<PhysicalEvent, ApiError>)
    ensures
        r is Ok <==> found is Some,
        r matches Ok(e) ==> found == Some(e),
        r matches Err(err) ==> err.kind == ApiErrorKind::NotFound && err.message@ == event_not_found_message(id),
{
    match found {
        Some(event) => Ok(event),
        None => {
            let mut message = String::from_str("Physical event ");
            let id_text = uuid_string(id);
            message.append(id_text.as_str());
            message.append(" not found");
            Err(ApiError::new(ApiErrorKind::NotFound, message))
        },
    }
}


/// A request whose entity and zone each hold a visible ASCII character (a
/// letter, a digit or a punctuation mark) passes validation, since neither
/// trims to nothing.
pub proof fn lemma_visible_request_is_valid(r: CreateEventRequest, i: int, j: int)
    requires
        0 <= i < r.entity_id@.len(),
        0x21 <= (r.entity_id@[i] as u32) <= 0x7e,
        0 <= j < r.zone@.len(),
        0x21 <= (r.zone@[j] as u32) <= 0x7e,
    ensures
        !is_blank_text(r.entity_id@),
        !is_blank_text(r.zone@),
{
    lemma_visible_character_is_not_blank(r.entity_id@, i);
    lemma_visible_character_is_not_blank(r.zone@, j);
}

} // verus!
