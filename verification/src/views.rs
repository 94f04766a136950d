//! What the pages show: attendance states and the view models of events,
//! participants and the event list.

use crate::event::{Event, EventDateTime, Participant};
use crate::text::str_eq;
use vstd::prelude::*;

verus! {

/// Whether a participant attends an event.
#[derive(Clone, Copy, Debug, PartialEq, Eq, Structural)]
pub enum Attendance {
    Pending,
    Attending,
    Declined,
}

/// The stored and submitted form of an attendance state.
pub open spec fn spec_attendance_value(a: Attendance) -> Seq<char> {
    match a {
        Attendance::Pending => "pending"@,
        Attendance::Attending => "attending"@,
        Attendance::Declined => "declined"@,
    }
}

pub open spec fn spec_attendance_label(a: Attendance) -> Seq<char> {
    match a {
        Attendance::Pending => "未定"@,
        Attendance::Attending => "参加予定"@,
        Attendance::Declined => "欠席"@,
    }
}

pub open spec fn spec_attendance_class(a: Attendance) -> Seq<char> {
    match a {
        Attendance::Pending => "badge-warning"@,
        Attendance::Attending => "badge-success"@,
        Attendance::Declined => "badge-ghost"@,
    }
}

/// The attendance state whose stored form is `s`, if any.
pub open spec fn spec_parse_attendance(s: Seq<char>) -> Option<Attendance> {
    if s == "pending"@ {
        Some(Attendance::Pending)
    } else if s == "attending"@ {
        Some(Attendance::Attending)
    } else if s == "declined"@ {
        Some(Attendance::Declined)
    } else {
        None
    }
}

/// The state shown for a stored text: an unknown text shows as pending.
pub open spec fn shown_attendance(s: Seq<char>) -> Attendance {
    match spec_parse_attendance(s) {
        Some(a) => a,
        None => Attendance::Pending,
    }
}

impl Attendance {
    pub fn parse(value: &str) -> (a: Option<Self>)
        ensures
            a == spec_parse_attendance(value@),
    {
        if str_eq(value, "pending") {
            Some(Attendance::Pending)
        } else if str_eq(value, "attending") {
            Some(Attendance::Attending)
        } else if str_eq(value, "declined") {
            Some(Attendance::Declined)
        } else {
            None
        }
    }

    pub fn value(self) -> (v: &'static str)
        ensures
            v@ == spec_attendance_value(self),
    {
        match self {
            Attendance::Pending => "pending",
            Attendance::Attending => "attending",
            Attendance::Declined => "declined",
        }
    }

    pub fn label(self) -> (l: &'static str)
        ensures
            l@ == spec_attendance_label(self),
    {
        match self {
            Attendance::Pending => "未定",
            Attendance::Attending => "参加予定",
            Attendance::Declined => "欠席",
        }
    }

    pub fn class(self) -> (c: &'static str)
        ensures
            c@ == spec_attendance_class(self),
    {
        match self {
            Attendance::Pending => "badge-warning",
            Attendance::Attending => "badge-success",
            Attendance::Declined => "badge-ghost",
        }
    }
}

/// Reading back the stored form of a state gives that state.
pub proof fn lemma_attendance_round_trip(a: Attendance)
    ensures
        spec_parse_attendance(spec_attendance_value(a)) == Some(a),
{
    reveal_strlit("pending");
    reveal_strlit("attending");
    reveal_strlit("declined");
    assert("pending"@.len() == 7);
    assert("attending"@.len() == 9);
    assert("declined"@.len() == 8);
}

/// A text is read as a state only when it is that state's stored form.
pub proof fn lemma_attendance_parse_exact(s: Seq<char>)
    ensures
        spec_parse_attendance(s) matches Some(a) ==> s == spec_attendance_value(a),
{
}

/// A row shows the state whose stored form the participant holds.
pub proof fn lemma_row_shows_stored_state(a: Attendance)
    ensures
        shown_attendance(spec_attendance_value(a)) == a,
{
    lemma_attendance_round_trip(a);
}

/// An attendance state as a badge shows it.
pub struct AttendanceView {
    pub value: &'static str,
    pub label: &'static str,
    pub class: &'static str,
}

pub open spec fn attendance_view_of(v: AttendanceView, a: Attendance) -> bool {
    &&& v.value@ == spec_attendance_value(a)
    &&& v.label@ == spec_attendance_label(a)
    &&& v.class@ == spec_attendance_class(a)
}

impl AttendanceView {
    pub fn from(status: Attendance) -> (v: Self)
        ensures
            attendance_view_of(v, status),
    {
        Self { value: status.value(), label: status.label(), class: status.class() }
    }
}

/// One choice of the attendance selector.
pub struct AttendanceOption {
    pub value: &'static str,
    pub label: &'static str,
}

/// The choices of the attendance selector, in the order pending,
/// attending, declined.
pub fn attendance_options() -> (options: [AttendanceOption; 3])
    ensures
        options@[0].value@ == spec_attendance_value(Attendance::Pending),
        options@[0].label@ == spec_attendance_label(Attendance::Pending),
        options@[1].value@ == spec_attendance_value(Attendance::Attending),
        options@[1].label@ == spec_attendance_label(Attendance::Attending),
        options@[2].value@ == spec_attendance_value(Attendance::Declined),
        options@[2].label@ == spec_attendance_label(Attendance::Declined),
{
    [
        AttendanceOption {
            value: Attendance::Pending.value(),
            label: Attendance::Pending.label(),
        },
        AttendanceOption {
            value: Attendance::Attending.value(),
            label: Attendance::Attending.label(),
        },
        AttendanceOption {
            value: Attendance::Declined.value(),
            label: Attendance::Declined.label(),
        },
    ]
}

/// A participant as a row of the participant list shows it.
pub struct ParticipantView {
    pub id: u128,
    pub name: String,
    pub email: String,
    pub status: AttendanceView,
}

pub open spec fn participant_view_of(v: ParticipantView, p: Participant) -> bool {
    &&& v.id == p.id
    &&& v.name@ == p.name@
    &&& v.email@ == p.email@
    &&& attendance_view_of(v.status, shown_attendance(p.attendance@))
}

impl ParticipantView {
    pub fn from(person: &Participant) -> (v: Self)
        ensures
            participant_view_of(v, *person),
            v.id == person.id,
            v.name@ == person.name@,
            v.email@ == person.email@,
    {
        let status = match Attendance::parse(person.attendance.as_str()) {
            Some(status) => status,
            None => Attendance::Pending,
        };
        Self {
            id: person.id,
            name: person.name.clone(),
            email: person.email.clone(),
            status: AttendanceView::from(status),
        }
    }
}

/// A participant's row shows that participant: its own identifier, its own
/// name as the name and its own email address as the email address.
pub proof fn lemma_participant_view_shows_own_contact(v: ParticipantView, p: Participant)
    requires
        participant_view_of(v, p),
    ensures
        v.id == p.id,
        v.name@ == p.name@,
        v.email@ == p.email@,
{
}

/// An event as a card or a detail page shows it. The start time is kept as
/// a time; the page writes it in the time zone of the machine.
pub struct EventView {
    pub id: u128,
    pub title: String,
    pub description: String,
    pub has_description: bool,
    pub starts_at: EventDateTime,
    pub location: String,
}

pub open spec fn event_view_of(v: EventView, e: Event) -> bool {
    &&& v.id == e.id@
    &&& v.title@ == e.title@
    &&& v.description@ == (match e.description {
        Some(d) => d@,
        None => Seq::<char>::empty(),
    })
    &&& v.has_description == (e.description is Some)
    &&& v.starts_at == e.start_at
    &&& v.location@ == (match e.location {
        Some(l) => l@,
        None => "会場未定"@,
    })
}

/// A card shows the event's own title, its own location whenever it has
/// one, whatever its description holds, and 会場未定 only when it has none;
/// it shows a description exactly when the event has one.
pub proof fn lemma_event_view_shows_own_fields(v: EventView, e: Event)
    requires
        event_view_of(v, e),
    ensures
        v.id == e.id@,
        v.title@ == e.title@,
        v.starts_at == e.start_at,
        e.location matches Some(l) ==> v.location@ == l@,
        e.location is None ==> v.location@ == "会場未定"@,
        e.description matches Some(d) ==> v.has_description && v.description@ == d@,
        e.description is None ==> !v.has_description && v.description@.len() == 0,
{
}

impl EventView {
    pub fn from(event: &Event) -> (v: Self)
        ensures
            event_view_of(v, *event),
            event.location matches Some(l) ==> v.location@ == l@,
            event.location is None ==> v.location@ == "会場未定"@,
    {
        let description = match &event.description {
            Some(description) => description.as_str().to_owned(),
            None => String::new(),
        };
        let location = match &event.location {
            Some(location) => location.as_str().to_owned(),
            None => "会場未定".to_owned(),
        };
        Self {
            id: event.id.value(),
            title: event.title.as_str().to_owned(),
            has_description: !description.as_str().is_empty(),
            description,
            starts_at: event.start_at,
            location,
        }
    }
}

/// The views of `people`, in order.
fn participant_views(people: &Vec<Participant>) -> (views: Vec<ParticipantView>)
    ensures
        views.len() == people.len(),
        forall|i: int| 0 <= i < people.len() ==> participant_view_of(#[trigger] views@[i], people@[i]),
{
    let mut views: Vec<ParticipantView> = Vec::new();
    let mut i: usize = 0;
    while i < people.len()
        invariant
            i <= people.len(),
            views.len() == i,
            forall|j: int| 0 <= j < i ==> participant_view_of(#[trigger] views@[j], people@[j]),
        decreases people.len() - i,
    {
        views.push(ParticipantView::from(&people[i]));
        i = i + 1;
    }
    views
}

/// The views of `events`, in order.
fn event_views(events: &Vec<Event>) -> (views: Vec<EventView>)
    ensures
        views.len() == events.len(),
        forall|i: int| 0 <= i < events.len() ==> event_view_of(#[trigger] views@[i], events@[i]),
{
    let mut views: Vec<EventView> = Vec::new();
    let mut i: usize = 0;
    while i < events.len()
        invariant
            i <= events.len(),
            views.len() == i,
            forall|j: int| 0 <= j < i ==> event_view_of(#[trigger] views@[j], events@[j]),
        decreases events.len() - i,
    {
        views.push(EventView::from(&events[i]));
        i = i + 1;
    }
    views
}

/// The card of one event in the event list.
pub struct EventCardTemplate {
    pub event: EventView,
}

impl EventCardTemplate {
    pub fn from_domain(event: &Event) -> (t: Self)
        ensures
            event_view_of(t.event, *event),
    {
        Self { event: EventView::from(event) }
    }
}

/// The detail page of an event with its participants.
pub struct EventDetailTemplate {
    pub page_title: String,
    pub event_id: u128,
    pub event: EventView,
    pub people: Vec<ParticipantView>,
    pub attendance_options: [AttendanceOption; 3],
}

impl EventDetailTemplate {
    pub fn new(event: &Event, people: Vec<Participant>) -> (t: Self)
        ensures
            t.page_title@ == event.title@,
            t.event_id == event.id@,
            event_view_of(t.event, *event),
            t.people.len() == people.len(),
            forall|i: int| 0 <= i < people.len() ==> participant_view_of(#[trigger] t.people@[i], people@[i]),
            t.attendance_options@[0].value@ == spec_attendance_value(Attendance::Pending),
            t.attendance_options@[0].label@ == spec_attendance_label(Attendance::Pending),
            t.attendance_options@[1].value@ == spec_attendance_value(Attendance::Attending),
            t.attendance_options@[1].label@ == spec_attendance_label(Attendance::Attending),
            t.attendance_options@[2].value@ == spec_attendance_value(Attendance::Declined),
            t.attendance_options@[2].label@ == spec_attendance_label(Attendance::Declined),
    {
        Self {
            page_title: event.title.as_str().to_owned(),
            event_id: event.id.value(),
            event: EventView::from(event),
            people: participant_views(&people),
            attendance_options: attendance_options(),
        }
    }
}

/// One page of the event list, with links to its neighbours.
pub struct EventIndexTemplate {
    pub page_title: &'static str,
    pub events: Vec<EventView>,
    pub current_page: u32,
    pub has_previous: bool,
    pub previous_page: u32,
    pub has_next: bool,
    pub next_page: u32,
}

impl EventIndexTemplate {
    pub fn new(events: Vec<Event>, current_page: u32, has_previous: bool, has_next: bool) -> (t:
        Self)
        ensures
            t.page_title@ == "イベント一覧"@,
            t.events.len() == events.len(),
            forall|i: int| 0 <= i < events.len() ==> event_view_of(#[trigger] t.events@[i], events@[i]),
            t.current_page == current_page,
            t.has_previous == has_previous,
            t.previous_page == (if current_page == 0 { 0int } else { current_page - 1 }),
            t.has_next == has_next,
            t.next_page == (if current_page == u32::MAX { u32::MAX as int } else { current_page + 1 }),
    {
        Self {
            page_title: "イベント一覧",
            events: event_views(&events),
            current_page,
            has_previous,
            previous_page: current_page.saturating_sub(1),
            has_next,
            next_page: current_page.saturating_add(1),
        }
    }
}

/// A row of the participant list.
pub struct ParticipantRowTemplate {
    pub event_id: u128,
    pub person: ParticipantView,
    pub attendance_options: [AttendanceOption; 3],
}

impl ParticipantRowTemplate {
    pub fn new(event_id: u128, person: &Participant) -> (t: Self)
        ensures
            t.event_id == event_id,
            participant_view_of(t.person, *person),
            t.attendance_options@[0].value@ == spec_attendance_value(Attendance::Pending),
            t.attendance_options@[0].label@ == spec_attendance_label(Attendance::Pending),
            t.attendance_options@[1].value@ == spec_attendance_value(Attendance::Attending),
            t.attendance_options@[1].label@ == spec_attendance_label(Attendance::Attending),
            t.attendance_options@[2].value@ == spec_attendance_value(Attendance::Declined),
            t.attendance_options@[2].label@ == spec_attendance_label(Attendance::Declined),
    {
        Self {
            event_id,
            person: ParticipantView::from(person),
            attendance_options: attendance_options(),
        }
    }
}

} // verus!
