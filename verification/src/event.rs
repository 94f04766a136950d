//! The event domain: validated titles and descriptions, locations,
//! identifiers, events and their participants.

use crate::modeling::{IdProvider, Identifier};
use crate::text::{trim, trimmed};
use vstd::prelude::*;

verus! {

/// The longest title, in characters.
pub const MAX_TITLE_LENGTH: usize = 100;

/// The longest description, in characters.
pub const MAX_DESCRIPTION_LENGTH: usize = 1000;

/// Why a text is refused as an event title.
#[derive(Debug, Clone, Copy, PartialEq, Eq, Structural)]
pub enum EventTitleError {
    BlankNotAllowed,
    TooLong,
}

/// Why a text is refused as an event description.
#[derive(Debug, Clone, Copy, PartialEq, Eq, Structural)]
pub enum EventDescriptionError {
    BlankNotAllowed,
    TooLong,
}

/// The rule for titles: not blank (empty or only whitespace), and at most
/// 100 characters.
pub open spec fn title_check(s: Seq<char>) -> Result<(), EventTitleError> {
    if trimmed(s).len() == 0 {
        Err(EventTitleError::BlankNotAllowed)
    } else if s.len() > MAX_TITLE_LENGTH {
        Err(EventTitleError::TooLong)
    } else {
        Ok(())
    }
}

/// The rule for descriptions: not blank (empty or only whitespace), and at
/// most 1000 characters.
pub open spec fn description_check(s: Seq<char>) -> Result<(), EventDescriptionError> {
    if trimmed(s).len() == 0 {
        Err(EventDescriptionError::BlankNotAllowed)
    } else if s.len() > MAX_DESCRIPTION_LENGTH {
        Err(EventDescriptionError::TooLong)
    } else {
        Ok(())
    }
}

/// A title is accepted exactly when it is not blank and has at most 100
/// characters; a blank title is refused as blank, a long one as too long.
pub proof fn lemma_title_rule(s: Seq<char>)
    ensures
        title_check(s) is Ok <==> (trimmed(s).len() > 0 && s.len() <= 100),
        trimmed(s).len() == 0 ==> title_check(s) == Err::<(), EventTitleError>(
            EventTitleError::BlankNotAllowed,
        ),
        trimmed(s).len() > 0 && s.len() > 100 ==> title_check(s) == Err::<(), EventTitleError>(
            EventTitleError::TooLong,
        ),
{
}

/// A description is accepted exactly when it is not blank and has at most
/// 1000 characters; a blank one is refused as blank, a long one as too long.
pub proof fn lemma_description_rule(s: Seq<char>)
    ensures
        description_check(s) is Ok <==> (trimmed(s).len() > 0 && s.len() <= 1000),
        trimmed(s).len() == 0 ==> description_check(s) == Err::<(), EventDescriptionError>(
            EventDescriptionError::BlankNotAllowed,
        ),
        trimmed(s).len() > 0 && s.len() > 1000 ==> description_check(s) == Err::<
            (),
            EventDescriptionError,
        >(EventDescriptionError::TooLong),
{
}

/// The title of an event; it always satisfies `title_check`.
#[derive(Debug, PartialEq, Eq)]
pub struct EventTitle(String);

impl Clone for EventTitle {
    fn clone(&self) -> (c: Self)
        ensures
            c@ == self@,
    {
        proof {
            use_type_invariant(self);
        }
        EventTitle(self.0.clone())
    }
}

impl View for EventTitle {
    type V = Seq<char>;

    closed spec fn view(&self) -> Seq<char> {
        self.0@
    }
}

impl EventTitle {
    #[verifier::type_invariant]
    closed spec fn is_valid(self) -> bool {
        title_check(self.0@) is Ok
    }

    /// The title holding `title`, which must be a valid title.
    pub fn new(title: String) -> (t: Self)
        requires
            title_check(title@) is Ok,
        ensures
            t@ == title@,
    {
        EventTitle(title)
    }

    /// The title holding `title`, or why `title` is no valid title.
    pub fn try_new(title: String) -> (t: Result<Self, EventTitleError>)
        ensures
            match t {
                Ok(t) => title_check(title@) is Ok && t@ == title@,
                Err(e) => title_check(title@) == Err::<(), EventTitleError>(e),
            },
    {
        Self::validate(&title)?;
        Ok(EventTitle(title))
    }

    fn validate(value: &str) -> (r: Result<(), EventTitleError>)
        ensures
            r == title_check(value@),
    {
        if trim(value).is_empty() {
            return Err(EventTitleError::BlankNotAllowed);
        }
        if value.unicode_len() > MAX_TITLE_LENGTH {
            return Err(EventTitleError::TooLong);
        }
        Ok(())
    }

    /// The text of the title; every title satisfies the title rule.
    pub fn as_str(&self) -> (s: &str)
        ensures
            s@ == self@,
            title_check(s@) is Ok,
    {
        proof {
            use_type_invariant(self);
        }
        self.0.as_str()
    }
}

/// The description of an event; it always satisfies `description_check`.
#[derive(Debug, PartialEq, Eq)]
pub struct EventDescription(String);

impl Clone for EventDescription {
    fn clone(&self) -> (c: Self)
        ensures
            c@ == self@,
    {
        proof {
            use_type_invariant(self);
        }
        EventDescription(self.0.clone())
    }
}

impl View for EventDescription {
    type V = Seq<char>;

    closed spec fn view(&self) -> Seq<char> {
        self.0@
    }
}

impl EventDescription {
    #[verifier::type_invariant]
    closed spec fn is_valid(self) -> bool {
        description_check(self.0@) is Ok
    }

    /// The description holding `description`, which must be valid.
    pub fn new(description: String) -> (d: Self)
        requires
            description_check(description@) is Ok,
        ensures
            d@ == description@,
    {
        EventDescription(description)
    }

    /// The description holding `description`, or why it is no valid
    /// description.
    pub fn try_new(description: String) -> (d: Result<Self, EventDescriptionError>)
        ensures
            match d {
                Ok(d) => description_check(description@) is Ok && d@ == description@,
                Err(e) => description_check(description@) == Err::<(), EventDescriptionError>(e),
            },
    {
        Self::validate(&description)?;
        Ok(EventDescription(description))
    }

    fn validate(value: &str) -> (r: Result<(), EventDescriptionError>)
        ensures
            r == description_check(value@),
    {
        if trim(value).is_empty() {
            return Err(EventDescriptionError::BlankNotAllowed);
        }
        if value.unicode_len() > MAX_DESCRIPTION_LENGTH {
            return Err(EventDescriptionError::TooLong);
        }
        Ok(())
    }

    /// The text of the description; every description satisfies the rule.
    pub fn as_str(&self) -> (s: &str)
        ensures
            s@ == self@,
            description_check(s@) is Ok,
    {
        proof {
            use_type_invariant(self);
        }
        self.0.as_str()
    }
}

/// Where an event takes place.
#[derive(Debug, Clone, PartialEq, Eq)]
pub struct EventLocation(String);

impl View for EventLocation {
    type V = Seq<char>;

    closed spec fn view(&self) -> Seq<char> {
        self.0@
    }
}

impl EventLocation {
    pub fn new(location: String) -> (l: Self)
        ensures
            l@ == location@,
    {
        EventLocation(location)
    }

    pub fn as_str(&self) -> (s: &str)
        ensures
            s@ == self@,
    {
        self.0.as_str()
    }
}

/// The identifier of an event: a UUID, held as its 128-bit value.
#[derive(Debug, Clone, Copy, PartialEq, Eq, Structural)]
pub struct EventId(u128);

impl View for EventId {
    type V = u128;

    closed spec fn view(&self) -> u128 {
        self.0
    }
}

impl Identifier<u128> for EventId {
    fn generate(id_provider: &dyn IdProvider<u128>) -> EventId {
        EventId(id_provider.generate())
    }

    fn new(id: u128) -> (event_id: Self)
        ensures
            event_id@ == id,
    {
        EventId(id)
    }
}

impl EventId {
    pub fn value(&self) -> (id: u128)
        ensures
            id == self@,
    {
        self.0
    }
}

/// A point in time with the UTC offset it is shown in: seconds since the
/// Unix epoch, the nanoseconds within that second, and the offset in seconds.
#[derive(Debug, Clone, Copy, PartialEq, Eq, Structural)]
pub struct EventDateTime {
    pub unix_seconds: i64,
    pub subsec_nanos: u32,
    pub offset_seconds: i32,
}

/// An event.
#[derive(Clone, Debug)]
pub struct Event {
    pub id: EventId,
    pub title: EventTitle,
    pub description: Option<EventDescription>,
    pub start_at: EventDateTime,
    pub location: Option<EventLocation>,
}

impl Event {
    /// A new event whose identifier comes from `uuid_provider`.
    pub fn create(
        uuid_provider: &dyn IdProvider<u128>,
        title: EventTitle,
        description: Option<EventDescription>,
        start_at: EventDateTime,
        location: Option<EventLocation>,
    ) -> (event: Self)
        ensures
            event.title == title,
            event.description == description,
            event.start_at == start_at,
            event.location == location,
    {
        Self {
            id: EventId::generate(uuid_provider),
            title,
            description,
            start_at,
            location,
        }
    }

    pub fn new(
        id: EventId,
        title: EventTitle,
        description: Option<EventDescription>,
        start_at: EventDateTime,
        location: Option<EventLocation>,
    ) -> (event: Self)
        ensures
            event.id == id,
            event.title == title,
            event.description == description,
            event.start_at == start_at,
            event.location == location,
    {
        Self { id, title, description, start_at, location }
    }
}

/// A person registered for an event.
#[derive(Clone, Debug, PartialEq, Eq)]
pub struct Participant {
    pub id: u128,
    pub name: String,
    pub email: String,
    pub attendance: String,
}

impl Participant {
    pub fn new(id: u128, name: String, email: String, attendance: String) -> (p: Self)
        ensures
            p.id == id,
            p.name@ == name@,
            p.email@ == email@,
            p.attendance@ == attendance@,
    {
        Self { id, name, email, attendance }
    }
}

} // verus!
