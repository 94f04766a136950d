use renge::event::{
    Event, EventDateTime, EventDescription, EventDescriptionError, EventId, EventLocation,
    EventTitle, EventTitleError, Participant,
};
use renge::modeling::{IdProvider, Identifier};
use renge::repository::{description_value, location_value, to_domain, EventRecord, RepositoryError};

fn start() -> EventDateTime {
    EventDateTime { unix_seconds: 1_788_782_400, subsec_nanos: 0, offset_seconds: 0 }
}

struct FixedIds(u128);

impl IdProvider<u128> for FixedIds {
    fn generate(&self) -> u128 {
        self.0
    }
}

#[test]
fn title_accepts_one_to_a_hundred_characters() {
    assert_eq!(EventTitle::try_new("R".to_owned()).unwrap().as_str(), "R");
    let hundred = "あ".repeat(100);
    assert_eq!(EventTitle::try_new(hundred.clone()).unwrap().as_str(), hundred);
}

#[test]
fn title_refuses_empty_and_long_text() {
    assert_eq!(EventTitle::try_new(String::new()).unwrap_err(), EventTitleError::BlankNotAllowed);
    assert_eq!(EventTitle::try_new("a".repeat(101)).unwrap_err(), EventTitleError::TooLong);
    assert_eq!(EventTitle::try_new("あ".repeat(101)).unwrap_err(), EventTitleError::TooLong);
}

#[test]
fn description_accepts_up_to_a_thousand_characters() {
    let text = "説".repeat(1000);
    assert_eq!(EventDescription::try_new(text.clone()).unwrap().as_str(), text);
    assert_eq!(
        EventDescription::try_new("x".repeat(1001)).unwrap_err(),
        EventDescriptionError::TooLong
    );
    assert_eq!(
        EventDescription::try_new(String::new()).unwrap_err(),
        EventDescriptionError::BlankNotAllowed
    );
}

#[test]
fn new_keeps_valid_text() {
    assert_eq!(EventTitle::new("勉強会".to_owned()).as_str(), "勉強会");
    assert_eq!(EventDescription::new("説明".to_owned()).as_str(), "説明");
    assert_eq!(EventLocation::new("会場".to_owned()).as_str(), "会場");
}

#[test]
fn clone_keeps_text() {
    let title = EventTitle::new("勉強会".to_owned());
    assert_eq!(title.clone(), title);
}

#[test]
fn event_create_takes_its_id_from_the_provider() {
    let provider = FixedIds(42);
    let event = Event::create(
        &provider,
        EventTitle::new("勉強会".to_owned()),
        None,
        start(),
        Some(EventLocation::new("会場".to_owned())),
    );
    assert_eq!(event.id.value(), 42);
    assert_eq!(event.title.as_str(), "勉強会");
    assert!(event.description.is_none());
    assert_eq!(event.start_at, start());
    assert_eq!(event.location.unwrap().as_str(), "会場");
}

#[test]
fn event_id_new_and_generate() {
    assert_eq!(EventId::new(7).value(), 7);
    assert_eq!(EventId::generate(&FixedIds(9)).value(), 9);
}

#[test]
fn participant_new_keeps_fields() {
    let p = Participant::new(1, "名前".to_owned(), "a@example.com".to_owned(), "pending".to_owned());
    assert_eq!(p.id, 1);
    assert_eq!(p.name, "名前");
    assert_eq!(p.email, "a@example.com");
    assert_eq!(p.attendance, "pending");
}

fn record(title: &str, description: Option<&str>, location: Option<&str>) -> EventRecord {
    EventRecord {
        id: 5,
        title: title.to_owned(),
        description: description.map(str::to_owned),
        starts_at: start(),
        location: location.map(str::to_owned),
    }
}

#[test]
fn to_domain_converts_a_valid_record() {
    let event = to_domain(record("勉強会", Some("説明"), Some("会場"))).unwrap();
    assert_eq!(event.id.value(), 5);
    assert_eq!(event.title.as_str(), "勉強会");
    assert_eq!(event.description.as_ref().unwrap().as_str(), "説明");
    assert_eq!(event.location.as_ref().unwrap().as_str(), "会場");
    assert_eq!(event.start_at, start());
    assert_eq!(description_value(&event), Some("説明".to_owned()));
    assert_eq!(location_value(&event), Some("会場".to_owned()));
}

#[test]
fn to_domain_keeps_absent_fields_absent() {
    let event = to_domain(record("勉強会", None, None)).unwrap();
    assert!(event.description.is_none());
    assert!(event.location.is_none());
    assert_eq!(description_value(&event), None);
    assert_eq!(location_value(&event), None);
}

#[test]
fn to_domain_reports_an_invalid_title_first() {
    match to_domain(record("", Some(""), None)) {
        Err(RepositoryError::InvalidData(m)) => assert_eq!(m, "invalid event title: BlankNotAllowed"),
        _ => panic!("expected invalid data"),
    }
    match to_domain(record(&"t".repeat(101), None, None)) {
        Err(RepositoryError::InvalidData(m)) => assert_eq!(m, "invalid event title: TooLong"),
        _ => panic!("expected invalid data"),
    }
}

#[test]
fn to_domain_reports_an_invalid_description() {
    match to_domain(record("勉強会", Some(""), None)) {
        Err(RepositoryError::InvalidData(m)) => {
            assert_eq!(m, "invalid event description: BlankNotAllowed")
        }
        _ => panic!("expected invalid data"),
    }
    match to_domain(record("勉強会", Some(&"d".repeat(1001)), None)) {
        Err(RepositoryError::InvalidData(m)) => assert_eq!(m, "invalid event description: TooLong"),
        _ => panic!("expected invalid data"),
    }
}

#[test]
fn error_names_are_the_variant_names() {
    assert_eq!(EventTitleError::BlankNotAllowed.name(), "BlankNotAllowed");
    assert_eq!(EventTitleError::TooLong.name(), "TooLong");
    assert_eq!(EventDescriptionError::BlankNotAllowed.name(), "BlankNotAllowed");
    assert_eq!(EventDescriptionError::TooLong.name(), "TooLong");
}

#[test]
fn a_stored_event_reads_back_unchanged() {
    let provider = FixedIds(99);
    let event = Event::create(
        &provider,
        EventTitle::new("勉強会".to_owned()),
        Some(EventDescription::new("説明".to_owned())),
        start(),
        None,
    );
    let record = renge::repository::to_record(&event);
    assert_eq!(record.id, 99);
    assert_eq!(record.title, "勉強会");
    assert_eq!(record.description, Some("説明".to_owned()));
    assert_eq!(record.location, None);
    let back = to_domain(record).unwrap();
    assert_eq!(back.id, event.id);
    assert_eq!(back.title, event.title);
    assert_eq!(back.description, event.description);
    assert_eq!(back.start_at, event.start_at);
    assert_eq!(back.location, event.location);
}

#[test]
fn blank_title_and_description_are_refused() {
    assert_eq!(EventTitle::try_new("   ".to_owned()).unwrap_err(), EventTitleError::BlankNotAllowed);
    assert_eq!(EventTitle::try_new("\u{3000}\t\n".to_owned()).unwrap_err(), EventTitleError::BlankNotAllowed);
    assert_eq!(
        EventDescription::try_new("   ".to_owned()).unwrap_err(),
        EventDescriptionError::BlankNotAllowed
    );
    assert_eq!(
        EventTitle::try_new(" ".repeat(150)).unwrap_err(),
        EventTitleError::BlankNotAllowed
    );
    assert_eq!(EventTitle::try_new(" a ".to_owned()).unwrap().as_str(), " a ");
}

#[test]
fn to_domain_refuses_blank_stored_text() {
    match to_domain(record("  ", None, None)) {
        Err(RepositoryError::InvalidData(m)) => assert_eq!(m, "invalid event title: BlankNotAllowed"),
        _ => panic!("expected invalid data"),
    }
    match to_domain(record("勉強会", Some(" \n "), None)) {
        Err(RepositoryError::InvalidData(m)) => {
            assert_eq!(m, "invalid event description: BlankNotAllowed")
        }
        _ => panic!("expected invalid data"),
    }
}
