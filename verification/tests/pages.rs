use renge::event::{Event, EventDateTime, EventId, EventLocation, EventTitle, Participant};
use renge::modeling::Identifier;
use renge::presenter::{
    event_description_error, event_index_page, event_index_query, event_title_error, optional,
    presentation_for, required, to_use_case_input, to_use_case_input_with_start,
    CreateEventPresenterError, CreateEventRequest, EventIndexRequest, IndexEventsPresenterError,
    EVENT_PAGE_SIZE,
};
use renge::event::{EventDescriptionError, EventTitleError};
use renge::usecase::{show_event_after_lookup, DeleteEventInput, ShowEventInput, ShowEventStep};
use renge::views::{
    attendance_options, Attendance, AttendanceView, EventDetailTemplate, EventIndexTemplate,
    EventView, ParticipantRowTemplate, ParticipantView,
};

fn request(title: &str, description: &str, starts_at: &str, location: &str) -> CreateEventRequest {
    CreateEventRequest {
        title: title.to_owned(),
        description: description.to_owned(),
        starts_at: starts_at.to_owned(),
        location: location.to_owned(),
    }
}

fn bad_request(r: Result<renge::usecase::CreateEventInput, CreateEventPresenterError>) -> String {
    match r {
        Err(CreateEventPresenterError::BadRequest(m)) => m,
        _ => panic!("expected a bad request"),
    }
}

fn event(id: u128, title: &str) -> Event {
    Event::new(
        EventId::new(id),
        EventTitle::new(title.to_owned()),
        None,
        EventDateTime { unix_seconds: 0, subsec_nanos: 0, offset_seconds: 0 },
        None,
    )
}

#[test]
fn form_becomes_trimmed_input() {
    let input = to_use_case_input(request(" 勉強会 ", " 説明 ", "2026-09-07T12:00", " 会場 ")).unwrap();
    assert_eq!(input.title.as_str(), "勉強会");
    assert_eq!(input.description.unwrap().as_str(), "説明");
    assert_eq!(input.location.unwrap().as_str(), "会場");
    assert_eq!(input.starts_at.unix_seconds, 1_788_782_400);
    assert_eq!(input.starts_at.subsec_nanos, 0);
    assert_eq!(input.starts_at.offset_seconds, 0);
}

#[test]
fn blank_optional_fields_are_left_out() {
    let input = to_use_case_input(request("勉強会", "  ", "2026-09-07T12:00", "\u{3000}")).unwrap();
    assert!(input.description.is_none());
    assert!(input.location.is_none());
}

#[test]
fn form_errors_come_in_order() {
    assert_eq!(bad_request(to_use_case_input(request(" ", "", "bad", ""))), "イベント名を入力してください。");
    assert_eq!(
        bad_request(to_use_case_input(request(&"a".repeat(101), "", "bad", ""))),
        "イベント名は100文字以内で入力してください。"
    );
    assert_eq!(
        bad_request(to_use_case_input(request("勉強会", &"d".repeat(1001), "bad", ""))),
        "説明は1000文字以内で入力してください。"
    );
    assert_eq!(
        bad_request(to_use_case_input(request("勉強会", "", "2026/09/07 12:00", ""))),
        "開催日時を入力してください。"
    );
}

#[test]
fn start_time_is_taken_from_the_parse_result() {
    let input = to_use_case_input_with_start(request("勉強会", "", "ignored", ""), Some((60, 5))).unwrap();
    assert_eq!(input.starts_at, EventDateTime { unix_seconds: 60, subsec_nanos: 5, offset_seconds: 0 });
    assert_eq!(
        bad_request(to_use_case_input_with_start(request("勉強会", "", "2026-09-07T12:00", ""), None)),
        "開催日時を入力してください。"
    );
}

#[test]
fn required_and_optional_trim() {
    assert_eq!(required("  名前 ", "氏名").ok(), Some("名前".to_owned()));
    match required(" \t\n", "氏名") {
        Err(CreateEventPresenterError::BadRequest(m)) => assert_eq!(m, "氏名を入力してください。"),
        _ => panic!("expected a bad request"),
    }
    assert_eq!(optional(" x "), Some("x".to_owned()));
    assert_eq!(optional("\u{2003}"), None);
}

#[test]
fn error_messages_for_validation_failures() {
    let m = |e: CreateEventPresenterError| match e {
        CreateEventPresenterError::BadRequest(m) => m,
        _ => panic!("expected a bad request"),
    };
    assert_eq!(m(event_title_error(EventTitleError::BlankNotAllowed)), "イベント名を入力してください。");
    assert_eq!(m(event_title_error(EventTitleError::TooLong)), "イベント名は100文字以内で入力してください。");
    assert_eq!(m(event_description_error(EventDescriptionError::BlankNotAllowed)), "説明を入力してください。");
    assert_eq!(m(event_description_error(EventDescriptionError::TooLong)), "説明は1000文字以内で入力してください。");
}

#[test]
fn presentation_carries_the_event_id_and_card() {
    let p = presentation_for(event(77, "勉強会"));
    assert_eq!(p.event_id, 77);
    assert_eq!(p.event_card.event.title, "勉強会");
}

fn query(page: Option<&str>) -> Result<(u32, u32, u32), ()> {
    match event_index_query(&EventIndexRequest { page: page.map(str::to_owned) }) {
        Ok(q) => Ok((q.page, q.paging.limit, q.paging.offset)),
        Err(IndexEventsPresenterError::BadRequest) => Err(()),
        Err(_) => panic!("unexpected error"),
    }
}

#[test]
fn index_query_defaults_to_the_first_page() {
    assert_eq!(query(None), Ok((1, 21, 0)));
    assert_eq!(query(Some("3")), Ok((3, 21, 40)));
    assert_eq!(query(Some("+2")), Ok((2, 21, 20)));
    assert_eq!(query(Some("007")), Ok((7, 21, 120)));
}

#[test]
fn index_query_refuses_bad_page_numbers() {
    assert_eq!(query(Some("0")), Err(()));
    assert_eq!(query(Some("-1")), Err(()));
    assert_eq!(query(Some("")), Err(()));
    assert_eq!(query(Some("+")), Err(()));
    assert_eq!(query(Some("abc")), Err(()));
    assert_eq!(query(Some(" 1")), Err(()));
    assert_eq!(query(Some("１")), Err(()));
    assert_eq!(query(Some("4294967296")), Err(()));
    assert_eq!(query(Some("214748366")), Err(()));
}

#[test]
fn index_query_accepts_the_last_page_that_fits() {
    assert_eq!(query(Some("214748365")), Ok((214748365, 21, 4294967280)));
}

#[test]
fn index_page_cuts_to_a_page_and_tells_if_more_follow() {
    let events: Vec<Event> = (0..21).map(|i| event(i, "e")).collect();
    let page = event_index_page(events, 2);
    assert_eq!(page.events.len(), EVENT_PAGE_SIZE as usize);
    assert_eq!(page.events[0].id, 0);
    assert_eq!(page.events[19].id, 19);
    assert!(page.has_next);
    assert!(page.has_previous);
    assert_eq!(page.page_title, "イベント一覧");
    assert_eq!(page.previous_page, 1);
    assert_eq!(page.next_page, 3);

    let events: Vec<Event> = (0..20).map(|i| event(i, "e")).collect();
    let page = event_index_page(events, 1);
    assert_eq!(page.events.len(), 20);
    assert!(!page.has_next);
    assert!(!page.has_previous);
}

#[test]
fn index_template_saturates_page_links() {
    let t = EventIndexTemplate::new(Vec::new(), 0, false, false);
    assert_eq!(t.previous_page, 0);
    assert_eq!(t.next_page, 1);
    let t = EventIndexTemplate::new(Vec::new(), u32::MAX, true, false);
    assert_eq!(t.next_page, u32::MAX);
    assert_eq!(t.page_title, "イベント一覧");
    assert!(t.events.is_empty());
}

#[test]
fn attendance_round_trips_through_its_value() {
    for a in [Attendance::Pending, Attendance::Attending, Attendance::Declined] {
        assert_eq!(Attendance::parse(a.value()), Some(a));
    }
    assert_eq!(Attendance::parse("Pending"), None);
    assert_eq!(Attendance::Attending.label(), "参加予定");
    assert_eq!(Attendance::Declined.class(), "badge-ghost");
    assert_eq!(Attendance::Pending.label(), "未定");
    assert_eq!(Attendance::Pending.class(), "badge-warning");
}

#[test]
fn attendance_options_come_in_order() {
    let options = attendance_options();
    let values: Vec<&str> = options.iter().map(|o| o.value).collect();
    assert_eq!(values, vec!["pending", "attending", "declined"]);
    let labels: Vec<&str> = options.iter().map(|o| o.label).collect();
    assert_eq!(labels, vec!["未定", "参加予定", "欠席"]);
}

#[test]
fn unknown_attendance_shows_as_pending() {
    let p = Participant::new(1, "n".to_owned(), "e".to_owned(), "maybe".to_owned());
    let v = ParticipantView::from(&p);
    assert_eq!(v.status.value, "pending");
    let p = Participant::new(1, "n".to_owned(), "e".to_owned(), "declined".to_owned());
    assert_eq!(ParticipantView::from(&p).status.label, "欠席");
    let status = AttendanceView::from(Attendance::Attending);
    assert_eq!(status.class, "badge-success");
}

#[test]
fn event_view_fills_in_missing_fields() {
    let v = EventView::from(&event(3, "勉強会"));
    assert_eq!(v.id, 3);
    assert_eq!(v.description, "");
    assert!(!v.has_description);
    assert_eq!(v.location, "会場未定");

    let mut e = event(4, "勉強会");
    e.location = Some(EventLocation::new("東京".to_owned()));
    e.description = Some(renge::event::EventDescription::new("説明".to_owned()));
    let v = EventView::from(&e);
    assert_eq!(v.location, "東京");
    assert_eq!(v.description, "説明");
    assert!(v.has_description);
}

#[test]
fn detail_and_row_templates() {
    let people = vec![
        Participant::new(1, "a".to_owned(), "a@example.com".to_owned(), "attending".to_owned()),
        Participant::new(2, "b".to_owned(), "b@example.com".to_owned(), "x".to_owned()),
    ];
    let t = EventDetailTemplate::new(&event(9, "勉強会"), people);
    assert_eq!(t.page_title, "勉強会");
    assert_eq!(t.event_id, 9);
    assert_eq!(t.people.len(), 2);
    assert_eq!(t.people[0].status.value, "attending");
    assert_eq!(t.people[1].status.value, "pending");
    assert_eq!(t.attendance_options[2].value, "declined");

    let p = Participant::new(5, "参加者".to_owned(), "person@example.com".to_owned(), "attending".to_owned());
    let row = ParticipantRowTemplate::new(9, &p);
    assert_eq!(row.event_id, 9);
    assert_eq!(row.person.status.value, "attending");
}

#[test]
fn use_case_inputs_and_show_steps() {
    assert_eq!(DeleteEventInput::new(11).event_id.value(), 11);
    assert_eq!(ShowEventInput::new(12).event_id.value(), 12);
    assert!(matches!(show_event_after_lookup(None), ShowEventStep::NotFound));
    match show_event_after_lookup(Some(event(13, "e"))) {
        ShowEventStep::LoadParticipants(e) => assert_eq!(e.id.value(), 13),
        ShowEventStep::NotFound => panic!("expected the event"),
    }
}

#[test]
fn consecutive_pages_follow_each_other() {
    for page in 1..30u32 {
        let (p, limit, offset) = query(Some(&page.to_string())).unwrap();
        let (next_p, next_limit, next_offset) = query(Some(&(page + 1).to_string())).unwrap();
        assert_eq!(next_p, p + 1);
        assert_eq!(next_offset, offset + EVENT_PAGE_SIZE);
        assert_eq!(limit, EVENT_PAGE_SIZE + 1);
        assert_eq!(next_limit, EVENT_PAGE_SIZE + 1);
    }
}
