//! What the event store reads and writes: stored records and their
//! conversion to and from events.

use crate::event::{
    description_check, title_check, Event, EventDateTime, EventDescription,
    EventDescriptionError, EventId, EventLocation, EventTitle, EventTitleError,
};
use crate::modeling::Identifier;
use crate::text::concat;
use vstd::prelude::*;

verus! {

/// Why the event store could not answer.
#[derive(Debug)]
pub enum RepositoryError {
    /// The database failed; the text is its message.
    Database(String),
    /// A stored value breaks a rule of the domain; the text says which.
    InvalidData(String),
}

/// An event as the store holds it.
pub struct EventRecord {
    pub id: u128,
    pub title: String,
    pub description: Option<String>,
    pub starts_at: EventDateTime,
    pub location: Option<String>,
}

pub open spec fn title_error_name(e: EventTitleError) -> Seq<char> {
    match e {
        EventTitleError::BlankNotAllowed => "BlankNotAllowed"@,
        EventTitleError::TooLong => "TooLong"@,
    }
}

pub open spec fn description_error_name(e: EventDescriptionError) -> Seq<char> {
    match e {
        EventDescriptionError::BlankNotAllowed => "BlankNotAllowed"@,
        EventDescriptionError::TooLong => "TooLong"@,
    }
}

impl EventTitleError {
    /// The variant's name, as `{:?}` writes it.
    pub fn name(self) -> (n: &'static str)
        ensures
            n@ == title_error_name(self),
    {
        match self {
            EventTitleError::BlankNotAllowed => "BlankNotAllowed",
            EventTitleError::TooLong => "TooLong",
        }
    }
}

impl EventDescriptionError {
    /// The variant's name, as `{:?}` writes it.
    pub fn name(self) -> (n: &'static str)
        ensures
            n@ == description_error_name(self),
    {
        match self {
            EventDescriptionError::BlankNotAllowed => "BlankNotAllowed",
            EventDescriptionError::TooLong => "TooLong",
        }
    }
}

/// An optional value of the domain holds the same text as an optional string.
pub open spec fn same_text<T: View<V = Seq<char>>>(value: Option<T>, text: Option<String>) -> bool {
    match (value, text) {
        (Some(v), Some(t)) => v@ == t@,
        (None, None) => true,
        _ => false,
    }
}

fn invalid_data(message: String) -> (e: RepositoryError)
    ensures
        e matches RepositoryError::InvalidData(m) && m@ == message@,
{
    RepositoryError::InvalidData(message)
}

/// What `to_domain` answers for a stored record: the event it describes,
/// or which rule it breaks, its title first, then its description.
pub open spec fn to_domain_matches(model: EventRecord, event: Result<Event, RepositoryError>) -> bool {
        match event {
            Ok(event) => {
                &&& title_check(model.title@) is Ok
                &&& (model.description matches Some(d) ==> description_check(d@) is Ok)
                &&& event.id@ == model.id
                &&& event.title@ == model.title@
                &&& same_text(event.description, model.description)
                &&& event.start_at == model.starts_at
                &&& same_text(event.location, model.location)
            },
            Err(RepositoryError::InvalidData(m)) => match title_check(model.title@) {
                Err(e) => m@ == "invalid event title: "@ + title_error_name(e),
                Ok(_) => match model.description {
                    Some(d) => match description_check(d@) {
                        Err(e) => m@ == "invalid event description: "@ + description_error_name(e),
                        Ok(_) => false,
                    },
                    None => false,
                },
            },
            Err(RepositoryError::Database(_)) => false,
        }
}

/// The event that a stored record describes, or which rule it breaks.
pub fn to_domain(model: EventRecord) -> (event: Result<Event, RepositoryError>)
    ensures
        to_domain_matches(model, event),
{
    let title = match EventTitle::try_new(model.title) {
        Ok(title) => title,
        Err(error) => return Err(invalid_data(concat("invalid event title: ", error.name()))),
    };
    let description = match model.description {
        Some(value) => match EventDescription::try_new(value) {
            Ok(description) => Some(description),
            Err(error) => {
                return Err(invalid_data(concat("invalid event description: ", error.name())));
            },
        },
        None => None,
    };
    let location = match model.location {
        Some(value) => Some(EventLocation::new(value)),
        None => None,
    };
    Ok(Event::new(EventId::new(model.id), title, description, model.starts_at, location))
}

/// The text of the event's description, if it has one.
pub fn description_value(event: &Event) -> (value: Option<String>)
    ensures
        same_text(event.description, value),
        value matches Some(v) ==> description_check(v@) is Ok,
{
    match &event.description {
        Some(description) => Some(description.as_str().to_owned()),
        None => None,
    }
}

/// The text of the event's location, if it has one.
pub fn location_value(event: &Event) -> (value: Option<String>)
    ensures
        same_text(event.location, value),
{
    match &event.location {
        Some(location) => Some(location.as_str().to_owned()),
        None => None,
    }
}

/// The record that stores an event.
pub open spec fn record_of_event(event: Event, record: EventRecord) -> bool {
    &&& record.id == event.id@
    &&& record.title@ == event.title@
    &&& same_text(event.description, record.description)
    &&& record.starts_at == event.start_at
    &&& same_text(event.location, record.location)
    &&& title_check(record.title@) is Ok
    &&& (record.description matches Some(d) ==> description_check(d@) is Ok)
}

/// The record that stores `event`, as the store writes it.
pub fn to_record(event: &Event) -> (record: EventRecord)
    ensures
        record_of_event(*event, record),
{
    EventRecord {
        id: event.id.value(),
        title: event.title.as_str().to_owned(),
        description: description_value(event),
        starts_at: event.start_at,
        location: location_value(event),
    }
}

/// Reading back the record that stores an event gives that event: the same
/// identifier, title, description, start time and location.
pub proof fn lemma_record_round_trip(
    event: Event,
    record: EventRecord,
    read_back: Result<Event, RepositoryError>,
)
    requires
        record_of_event(event, record),
        to_domain_matches(record, read_back),
    ensures
        read_back matches Ok(e) && {
            &&& e.id@ == event.id@
            &&& e.title@ == event.title@
            &&& e.start_at == event.start_at
            &&& match (e.description, event.description) {
                (Some(a), Some(b)) => a@ == b@,
                (None, None) => true,
                _ => false,
            }
            &&& match (e.location, event.location) {
                (Some(a), Some(b)) => a@ == b@,
                (None, None) => true,
                _ => false,
            }
        },
{
}

} // verus!
