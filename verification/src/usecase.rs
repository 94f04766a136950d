//! What the event use cases take and give.

use crate::event::{
    Event, EventDateTime, EventDescription, EventId, EventLocation, EventTitle, Participant,
};
use crate::modeling::Identifier;
use crate::paging::{OffsetPaged, OffsetPaging};
use vstd::prelude::*;

verus! {

/// What creating an event needs.
#[derive(Debug)]
pub struct CreateEventInput {
    pub title: EventTitle,
    pub description: Option<EventDescription>,
    pub starts_at: EventDateTime,
    pub location: Option<EventLocation>,
}

/// What creating an event gives.
#[derive(Debug)]
pub enum CreateEventOutput {
    Created { event: Event },
}

/// Which event to delete.
pub struct DeleteEventInput {
    pub event_id: EventId,
}

impl DeleteEventInput {
    pub fn new(event_id: u128) -> (input: Self)
        ensures
            input.event_id@ == event_id,
    {
        Self { event_id: EventId::new(event_id) }
    }
}

/// What deleting an event gives.
pub enum DeleteEventOutput {
    Deleted,
}

/// Which page of events to list.
pub struct ListEventsInput {
    pub paging: OffsetPaging,
}

/// One page of events.
pub struct ListEventsOutput {
    pub events: OffsetPaged<Event>,
}

/// Which event to show.
pub struct ShowEventInput {
    pub event_id: EventId,
}

impl ShowEventInput {
    pub fn new(event_id: u128) -> (input: Self)
        ensures
            input.event_id@ == event_id,
    {
        Self { event_id: EventId::new(event_id) }
    }
}

/// An event with its participants.
pub struct ShowEventOutput {
    pub event: Event,
    pub participants: Vec<Participant>,
}

/// What showing an event does next.
pub enum ShowEventStep {
    /// Load the participants of the event that was found.
    LoadParticipants(Event),
    /// Answer: no such event.
    NotFound,
}

/// After looking the event up: load its participants if it exists, or
/// answer that there is none.
pub fn show_event_after_lookup(found: Option<Event>) -> (step: ShowEventStep)
    ensures
        match found {
            Some(e) => step == ShowEventStep::LoadParticipants(e),
            None => step is NotFound,
        },
{
    match found {
        Some(event) => ShowEventStep::LoadParticipants(event),
        None => ShowEventStep::NotFound,
    }
}

} // verus!
