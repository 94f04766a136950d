//! The decisions of the event pages: turning a submitted form into the
//! input of event creation, and choosing and cutting a page of the list.

use crate::event::{
    description_check, title_check, Event, EventDateTime, EventDescription,
    EventDescriptionError, EventLocation, EventTitle, EventTitleError,
};
use crate::paging::OffsetPaging;
use crate::repository::RepositoryError;
use crate::text::{concat, parse_u32, spec_parse_u32, trim, trimmed};
use crate::usecase::CreateEventInput;
use crate::views::{event_view_of, EventCardTemplate, EventIndexTemplate};
use vstd::prelude::*;

verus! {

/// The number of events on one page of the list.
pub const EVENT_PAGE_SIZE: u32 = 20;

/// The event form as submitted.
pub struct CreateEventRequest {
    pub title: String,
    pub description: String,
    pub starts_at: String,
    pub location: String,
}

/// Why an event could not be created.
#[derive(Debug)]
pub enum CreateEventPresenterError {
    /// The form was refused; the text says why.
    BadRequest(String),
    UseCase(RepositoryError),
}

/// What the page shows of a created event.
pub struct CreateEventPresentation {
    pub event_id: u128,
    pub event_card: EventCardTemplate,
}

/// The time written as `YYYY-MM-DDTHH:MM`, in seconds since the Unix epoch
/// and nanoseconds, read as UTC: what chrono's
/// `NaiveDateTime::parse_from_str` with that format gives.
pub uninterp spec fn parsed_form_datetime(s: Seq<char>) -> Option<(i64, u32)>;

/// `chrono::NaiveDateTime::parse_from_str(s, "%Y-%m-%dT%H:%M")`, read as
/// UTC. The result is only named: which texts chrono accepts is not
/// restated here.
#[verifier::external_body]
pub(crate) fn parse_form_datetime(s: &str) -> (t: Option<(i64, u32)>)
    ensures
        t == parsed_form_datetime(s@),
{
    match chrono::NaiveDateTime::parse_from_str(s, "%Y-%m-%dT%H:%M") {
        Ok(d) => Some((d.and_utc().timestamp(), d.and_utc().timestamp_subsec_nanos())),
        Err(_) => None,
    }
}

pub open spec fn is_bad_request(
    r: Result<CreateEventInput, CreateEventPresenterError>,
    message: Seq<char>,
) -> bool {
    r matches Err(CreateEventPresenterError::BadRequest(m)) && m@ == message
}

pub open spec fn title_error_message(e: EventTitleError) -> Seq<char> {
    match e {
        EventTitleError::BlankNotAllowed => "イベント名を入力してください。"@,
        EventTitleError::TooLong => "イベント名は100文字以内で入力してください。"@,
    }
}

pub open spec fn description_error_message(e: EventDescriptionError) -> Seq<char> {
    match e {
        EventDescriptionError::BlankNotAllowed => "説明を入力してください。"@,
        EventDescriptionError::TooLong => "説明は1000文字以内で入力してください。"@,
    }
}

/// What `to_use_case_input` answers for a form whose start time chrono read
/// as `start`: the title is required and checked first, then the
/// description if one was given, then the start time; blank optional fields
/// are left out, and every field is trimmed.
pub open spec fn create_input_matches(
    request: CreateEventRequest,
    start: Option<(i64, u32)>,
    r: Result<CreateEventInput, CreateEventPresenterError>,
) -> bool {
    let title = trimmed(request.title@);
    let description = trimmed(request.description@);
    let location = trimmed(request.location@);
    if title.len() == 0 {
        is_bad_request(r, "イベント名"@ + "を入力してください。"@)
    } else if title_check(title) is Err {
        is_bad_request(r, title_error_message(title_check(title)->Err_0))
    } else if description.len() > 0 && description_check(description) is Err {
        is_bad_request(r, description_error_message(description_check(description)->Err_0))
    } else {
        match start {
            None => is_bad_request(r, "開催日時を入力してください。"@),
            Some((secs, nanos)) => match r {
                Ok(input) => {
                    &&& input.title@ == title
                    &&& (if description.len() > 0 {
                        input.description matches Some(d) && d@ == description
                    } else {
                        input.description is None
                    })
                    &&& input.starts_at == EventDateTime {
                        unix_seconds: secs,
                        subsec_nanos: nanos,
                        offset_seconds: 0,
                    }
                    &&& (if location.len() > 0 {
                        input.location matches Some(l) && l@ == location
                    } else {
                        input.location is None
                    })
                },
                Err(_) => false,
            },
        }
    }
}

/// A form is accepted exactly when its title is not blank and at most 100
/// characters, its description is blank or at most 1000 characters, and
/// its start time could be read. An accepted form keeps each field trimmed:
/// the title; the description exactly when it is not blank; the location
/// exactly when it is not blank, whatever the description holds; and the
/// start time as read, in UTC.
pub proof fn lemma_accepted_form(
    request: CreateEventRequest,
    start: Option<(i64, u32)>,
    r: Result<CreateEventInput, CreateEventPresenterError>,
)
    requires
        create_input_matches(request, start, r),
    ensures
        r is Ok <==> {
            &&& trimmed(request.title@).len() > 0
            &&& trimmed(request.title@).len() <= 100
            &&& (trimmed(request.description@).len() == 0 || trimmed(
                request.description@,
            ).len() <= 1000)
            &&& start is Some
        },
        r matches Ok(input) ==> {
            &&& input.title@ == trimmed(request.title@)
            &&& (trimmed(request.description@).len() > 0 ==> (input.description matches Some(d)
                && d@ == trimmed(request.description@)))
            &&& (trimmed(request.description@).len() == 0 ==> input.description is None)
            &&& (trimmed(request.location@).len() > 0 ==> (input.location matches Some(l) && l@
                == trimmed(request.location@)))
            &&& (trimmed(request.location@).len() == 0 ==> input.location is None)
            &&& input.starts_at.unix_seconds == start->Some_0.0
            &&& input.starts_at.subsec_nanos == start->Some_0.1
            &&& input.starts_at.offset_seconds == 0
        },
{
    crate::text::lemma_trimmed_is_trimmed(request.title@);
    crate::text::lemma_trimmed_is_trimmed(request.description@);
}

/// The trimmed value of a required field, or the message that asks for it.
pub fn required(value: &str, name: &str) -> (r: Result<String, CreateEventPresenterError>)
    ensures
        match r {
            Ok(v) => v@ == trimmed(value@) && v@.len() > 0,
            Err(CreateEventPresenterError::BadRequest(m)) => trimmed(value@).len() == 0 && m@
                == name@ + "を入力してください。"@,
            Err(CreateEventPresenterError::UseCase(_)) => false,
        },
{
    let value = trim(value);
    if value.is_empty() {
        return Err(CreateEventPresenterError::BadRequest(concat(name, "を入力してください。")));
    }
    Ok(value.to_owned())
}

/// The trimmed value of an optional field, or `None` where it is blank.
pub fn optional(value: &str) -> (r: Option<String>)
    ensures
        match r {
            Some(v) => v@ == trimmed(value@) && v@.len() > 0,
            None => trimmed(value@).len() == 0,
        },
{
    let value = trim(value);
    if value.is_empty() {
        None
    } else {
        Some(value.to_owned())
    }
}

pub fn event_title_error(error: EventTitleError) -> (e: CreateEventPresenterError)
    ensures
        e matches CreateEventPresenterError::BadRequest(m) && m@ == title_error_message(error),
{
    let message = match error {
        EventTitleError::BlankNotAllowed => "イベント名を入力してください。",
        EventTitleError::TooLong => "イベント名は100文字以内で入力してください。",
    };
    CreateEventPresenterError::BadRequest(message.to_owned())
}

pub fn event_description_error(error: EventDescriptionError) -> (e: CreateEventPresenterError)
    ensures
        e matches CreateEventPresenterError::BadRequest(m) && m@ == description_error_message(
            error,
        ),
{
    let message = match error {
        EventDescriptionError::BlankNotAllowed => "説明を入力してください。",
        EventDescriptionError::TooLong => "説明は1000文字以内で入力してください。",
    };
    CreateEventPresenterError::BadRequest(message.to_owned())
}

/// The input of event creation from a form, given how chrono read the
/// form's start time.
pub fn to_use_case_input_with_start(
    request: CreateEventRequest,
    start: Option<(i64, u32)>,
) -> (r: Result<CreateEventInput, CreateEventPresenterError>)
    ensures
        create_input_matches(request, start, r),
{
    let title = required(request.title.as_str(), "イベント名")?;
    let title = match EventTitle::try_new(title) {
        Ok(title) => title,
        Err(error) => return Err(event_title_error(error)),
    };
    let description = match optional(request.description.as_str()) {
        Some(description) => match EventDescription::try_new(description) {
            Ok(description) => Some(description),
            Err(error) => return Err(event_description_error(error)),
        },
        None => None,
    };
    let starts_at = match start {
        Some((unix_seconds, subsec_nanos)) => EventDateTime {
            unix_seconds,
            subsec_nanos,
            offset_seconds: 0,
        },
        None => {
            return Err(
                CreateEventPresenterError::BadRequest("開催日時を入力してください。".to_owned()),
            );
        },
    };
    let location = match optional(request.location.as_str()) {
        Some(location) => Some(EventLocation::new(location)),
        None => None,
    };
    Ok(CreateEventInput { title, description, starts_at, location })
}

/// The input of event creation from a form.
pub fn to_use_case_input(request: CreateEventRequest) -> (r: Result<
    CreateEventInput,
    CreateEventPresenterError,
>)
    ensures
        create_input_matches(request, parsed_form_datetime(request.starts_at@), r),
{
    let start = parse_form_datetime(request.starts_at.as_str());
    to_use_case_input_with_start(request, start)
}

/// What the page shows of a newly created event.
pub fn presentation_for(event: Event) -> (p: CreateEventPresentation)
    ensures
        p.event_id == event.id@,
        event_view_of(p.event_card.event, event),
{
    CreateEventPresentation {
        event_id: event.id.value(),
        event_card: EventCardTemplate::from_domain(&event),
    }
}

/// Why an event could not be deleted.
#[derive(Debug)]
pub enum DeleteEventPresenterError {
    UseCase(RepositoryError),
}

/// Why the detail page of an event could not be shown.
#[derive(Debug)]
pub enum ShowEventPresenterError {
    NotFound,
    UseCase(RepositoryError),
}

/// Why a page of the event list could not be shown.
#[derive(Debug)]
pub enum IndexEventsPresenterError {
    /// The page number is no positive number, or lies too far out.
    BadRequest,
    UseCase(RepositoryError),
}

/// The query string of the event list.
pub struct EventIndexRequest {
    pub page: Option<String>,
}

/// Which page of the event list to show, and what to fetch for it: one
/// event more than a page holds, so that a next page can be told.
pub struct EventIndexQuery {
    pub page: u32,
    pub paging: OffsetPaging,
}

/// The page number that a request asks for: its `page`, or 1.
pub open spec fn requested_page_text(request: EventIndexRequest) -> Seq<char> {
    match request.page {
        Some(p) => p@,
        None => "1"@,
    }
}

/// What `event_index_query` answers.
pub open spec fn index_query_matches(
    request: EventIndexRequest,
    r: Result<EventIndexQuery, IndexEventsPresenterError>,
) -> bool {
    match spec_parse_u32(requested_page_text(request)) {
        Some(page) => if page >= 1 && (page - 1) * EVENT_PAGE_SIZE <= u32::MAX {
            r matches Ok(q) && q.page == page && q.paging == OffsetPaging {
                limit: (EVENT_PAGE_SIZE + 1) as u32,
                offset: ((page - 1) * EVENT_PAGE_SIZE) as u32,
            }
        } else {
            r matches Err(IndexEventsPresenterError::BadRequest)
        },
        None => r matches Err(IndexEventsPresenterError::BadRequest),
    }
}

/// The page of the event list that a request asks for, and its paging.
pub fn event_index_query(request: &EventIndexRequest) -> (r: Result<
    EventIndexQuery,
    IndexEventsPresenterError,
>)
    ensures
        index_query_matches(*request, r),
{
    let page_text: &str = match &request.page {
        Some(page) => page.as_str(),
        None => "1",
    };
    let page = match parse_u32(page_text) {
        Some(page) => page,
        None => return Err(IndexEventsPresenterError::BadRequest),
    };
    if page == 0 {
        return Err(IndexEventsPresenterError::BadRequest);
    }
    let offset = match (page - 1).checked_mul(EVENT_PAGE_SIZE) {
        Some(offset) => offset,
        None => return Err(IndexEventsPresenterError::BadRequest),
    };
    Ok(EventIndexQuery { page, paging: OffsetPaging::new(EVENT_PAGE_SIZE + 1, offset) })
}

/// Consecutive pages of the event list follow each other: the next page
/// starts one page size after the page before it, and both fetch one event
/// more than a page shows.
pub proof fn lemma_consecutive_index_pages(
    request: EventIndexRequest,
    next_request: EventIndexRequest,
    page: u32,
    r: Result<EventIndexQuery, IndexEventsPresenterError>,
    next_r: Result<EventIndexQuery, IndexEventsPresenterError>,
)
    requires
        spec_parse_u32(requested_page_text(request)) == Some(page),
        spec_parse_u32(requested_page_text(next_request)) == Some((page + 1) as u32),
        page >= 1,
        page * EVENT_PAGE_SIZE <= u32::MAX,
        index_query_matches(request, r),
        index_query_matches(next_request, next_r),
    ensures
        r matches Ok(q) && next_r matches Ok(next_q) && {
            &&& next_q.page == q.page + 1
            &&& next_q.paging.offset == q.paging.offset + EVENT_PAGE_SIZE
            &&& q.paging.limit == EVENT_PAGE_SIZE + 1
            &&& next_q.paging.limit == EVENT_PAGE_SIZE + 1
        },
{
}

/// The page of the event list built from what was fetched for page `page`:
/// at most a page of events, in the order fetched, and whether there are
/// pages before and after it.
pub fn event_index_page(events: Vec<Event>, page: u32) -> (t: EventIndexTemplate)
    ensures
        t.events.len() == (if events.len() > EVENT_PAGE_SIZE { EVENT_PAGE_SIZE as int } else {
            events.len() as int
        }),
        forall|i: int| 0 <= i < t.events.len() ==> event_view_of(#[trigger] t.events@[i], events@[i]),
        t.page_title@ == "イベント一覧"@,
        t.current_page == page,
        t.has_previous == (page > 1),
        t.has_next == (events.len() > EVENT_PAGE_SIZE),
        t.previous_page == (if page == 0 { 0int } else { page - 1 }),
        t.next_page == (if page == u32::MAX { u32::MAX as int } else { page + 1 }),
{
    let has_next = events.len() > EVENT_PAGE_SIZE as usize;
    let mut events = events;
    let ghost fetched = events@;
    events.truncate(EVENT_PAGE_SIZE as usize);
    assert forall|i: int| 0 <= i < events.len() implies events@[i] == fetched[i] by {}
    EventIndexTemplate::new(events, page, page > 1, has_next)
}

} // verus!
