//! The rules of the HTTP handlers: form fields, htmx requests, error
//! answers and the client address written to the logs.

use crate::event::EventDateTime;
use crate::presenter::{
    optional, parse_form_datetime, parsed_form_datetime, CreateEventPresenterError,
    DeleteEventPresenterError, IndexEventsPresenterError, ShowEventPresenterError,
};
use crate::repository::RepositoryError;
use crate::text::{concat, split_once_comma, str_eq, trim, trimmed};
use crate::views::{spec_parse_attendance, Attendance};
use vstd::prelude::*;

verus! {

/// Why a request failed.
#[derive(Debug)]
pub enum AppError {
    NotFound,
    /// The request was refused; the text says why.
    BadRequest(String),
    /// The database failed; the text is its message, for the logs.
    Database(String),
    /// A page could not be rendered; the text is the reason, for the logs.
    Template(String),
}

/// The status code and message that answer an error.
pub open spec fn error_answer(e: AppError) -> (u16, Seq<char>) {
    match e {
        AppError::NotFound => (404, "対象のイベントまたは参加者が見つかりません。"@),
        AppError::BadRequest(m) => (400, m@),
        AppError::Database(_) => (500, "データベース処理に失敗しました。"@),
        AppError::Template(_) => (500, "ページの生成に失敗しました。"@),
    }
}

/// The text that a failure of the event store carries.
pub open spec fn repository_message(e: RepositoryError) -> Seq<char> {
    match e {
        RepositoryError::Database(m) => m@,
        RepositoryError::InvalidData(m) => m@,
    }
}

impl AppError {
    /// The status code and the message that the error page shows.
    pub fn status_and_message(self) -> (answer: (u16, String))
        ensures
            answer.0 == error_answer(self).0,
            answer.1@ == error_answer(self).1,
    {
        match self {
            AppError::NotFound => (404, "対象のイベントまたは参加者が見つかりません。".to_owned()),
            AppError::BadRequest(message) => (400, message),
            AppError::Database(_) => (500, "データベース処理に失敗しました。".to_owned()),
            AppError::Template(_) => (500, "ページの生成に失敗しました。".to_owned()),
        }
    }

    /// The error of a failed event store; its message goes to the logs.
    pub fn from_repository(error: RepositoryError) -> (e: Self)
        ensures
            e matches AppError::Database(m) && m@ == repository_message(error),
    {
        match error {
            RepositoryError::Database(message) => AppError::Database(message),
            RepositoryError::InvalidData(message) => AppError::Database(message),
        }
    }

    /// The error of a refused event form.
    pub fn from_create_event(error: CreateEventPresenterError) -> (e: Self)
        ensures
            match error {
                CreateEventPresenterError::BadRequest(m) => e matches AppError::BadRequest(n) && n@
                    == m@,
                CreateEventPresenterError::UseCase(r) => e matches AppError::Database(m) && m@
                    == repository_message(r),
            },
    {
        match error {
            CreateEventPresenterError::BadRequest(message) => AppError::BadRequest(message),
            CreateEventPresenterError::UseCase(error) => Self::from_repository(error),
        }
    }

    /// The error of a failed deletion.
    pub fn from_delete_event(error: DeleteEventPresenterError) -> (e: Self)
        ensures
            match error {
                DeleteEventPresenterError::UseCase(r) => e matches AppError::Database(m) && m@
                    == repository_message(r),
            },
    {
        match error {
            DeleteEventPresenterError::UseCase(error) => Self::from_repository(error),
        }
    }

    /// The error of a detail page that could not be shown.
    pub fn from_show_event(error: ShowEventPresenterError) -> (e: Self)
        ensures
            match error {
                ShowEventPresenterError::NotFound => e is NotFound,
                ShowEventPresenterError::UseCase(r) => e matches AppError::Database(m) && m@
                    == repository_message(r),
            },
    {
        match error {
            ShowEventPresenterError::NotFound => AppError::NotFound,
            ShowEventPresenterError::UseCase(error) => Self::from_repository(error),
        }
    }

    /// The error of a refused event list request.
    pub fn from_index_events(error: IndexEventsPresenterError) -> (e: Self)
        ensures
            match error {
                IndexEventsPresenterError::BadRequest => e matches AppError::BadRequest(n) && n@
                    == "ページ番号が不正です。"@,
                IndexEventsPresenterError::UseCase(r) => e matches AppError::Database(m) && m@
                    == repository_message(r),
            },
    {
        match error {
            IndexEventsPresenterError::BadRequest => AppError::BadRequest(
                "ページ番号が不正です。".to_owned(),
            ),
            IndexEventsPresenterError::UseCase(error) => Self::from_repository(error),
        }
    }
}

/// The trimmed value of a required field, or the message that asks for it.
pub fn required<'a>(value: &'a str, name: &str) -> (r: Result<&'a str, AppError>)
    ensures
        match r {
            Ok(v) => v@ == trimmed(value@) && v@.len() > 0,
            Err(AppError::BadRequest(m)) => trimmed(value@).len() == 0 && m@ == name@
                + "を入力してください。"@,
            Err(_) => false,
        },
{
    let value = trim(value);
    if value.is_empty() {
        return Err(AppError::BadRequest(concat(name, "を入力してください。")));
    }
    Ok(value)
}

/// A start time written as `YYYY-MM-DDTHH:MM`, read as UTC, given how
/// chrono read it.
pub fn start_time_from(parsed: Option<(i64, u32)>) -> (r: Result<EventDateTime, AppError>)
    ensures
        match parsed {
            Some((secs, nanos)) => r == Ok::<EventDateTime, AppError>(
                EventDateTime { unix_seconds: secs, subsec_nanos: nanos, offset_seconds: 0 },
            ),
            None => r matches Err(AppError::BadRequest(m)) && m@ == "開催日時を入力してください。"@,
        },
{
    match parsed {
        Some((unix_seconds, subsec_nanos)) => Ok(
            EventDateTime { unix_seconds, subsec_nanos, offset_seconds: 0 },
        ),
        None => Err(AppError::BadRequest("開催日時を入力してください。".to_owned())),
    }
}

/// A start time written as `YYYY-MM-DDTHH:MM`, read as UTC.
pub fn parse_datetime(value: &str) -> (r: Result<EventDateTime, AppError>)
    ensures
        match parsed_form_datetime(value@) {
            Some((secs, nanos)) => r == Ok::<EventDateTime, AppError>(
                EventDateTime { unix_seconds: secs, subsec_nanos: nanos, offset_seconds: 0 },
            ),
            None => r matches Err(AppError::BadRequest(m)) && m@ == "開催日時を入力してください。"@,
        },
{
    start_time_from(parse_form_datetime(value))
}

/// Whether the request came from htmx: its `HX-Request` header reads `true`.
pub fn is_htmx(hx_request: Option<&str>) -> (htmx: bool)
    ensures
        htmx == (hx_request matches Some(h) && h@ == "true"@),
{
    match hx_request {
        Some(value) => str_eq(value, "true"),
        None => false,
    }
}

/// A header's value, or `unknown` where it is absent or unreadable.
pub fn or_unknown(value: Option<&str>) -> (v: &str)
    ensures
        v@ == (match value {
            Some(s) => s@,
            None => "unknown"@,
        }),
{
    match value {
        Some(value) => value,
        None => "unknown",
    }
}

/// The attendance state that the attendance form selects.
pub fn attendance_from_form(value: &str) -> (r: Result<Attendance, AppError>)
    ensures
        match spec_parse_attendance(value@) {
            Some(a) => r == Ok::<Attendance, AppError>(a),
            None => r matches Err(AppError::BadRequest(m)) && m@ == "不正な出欠状態です。"@,
        },
{
    match Attendance::parse(value) {
        Some(attendance) => Ok(attendance),
        None => Err(AppError::BadRequest("不正な出欠状態です。".to_owned())),
    }
}

/// A participant as the participant form registers it.
pub struct NewParticipant {
    pub name: String,
    pub email: String,
    pub attendance: String,
}

impl NewParticipant {
    /// The participant that the form registers, pending; the name is
    /// required first, then the email address.
    pub fn from_form(name: &str, email: &str) -> (r: Result<Self, AppError>)
        ensures
            match r {
                Ok(p) => {
                    &&& p.name@ == trimmed(name@) && p.name@.len() > 0
                    &&& p.email@ == trimmed(email@) && p.email@.len() > 0
                    &&& p.attendance@ == "pending"@
                },
                Err(AppError::BadRequest(m)) => if trimmed(name@).len() == 0 {
                    m@ == "氏名"@ + "を入力してください。"@
                } else {
                    trimmed(email@).len() == 0 && m@ == "メールアドレス"@ + "を入力してください。"@
                },
                Err(_) => false,
            },
    {
        let name = required(name, "氏名")?.to_owned();
        let email = required(email, "メールアドレス")?.to_owned();
        Ok(Self { name, email, attendance: "pending".to_owned() })
    }
}

/// An event as the event form creates it.
pub struct NewEvent {
    pub title: String,
    pub description: Option<String>,
    pub starts_at: EventDateTime,
    pub location: Option<String>,
}

pub open spec fn optional_text_is(v: Option<String>, raw: Seq<char>) -> bool {
    if trimmed(raw).len() > 0 {
        v matches Some(s) && s@ == trimmed(raw)
    } else {
        v is None
    }
}

impl NewEvent {
    /// The event that the form creates, given how chrono read its start
    /// time; the title is required first, then the start time.
    pub fn from_form_with_start(
        title: &str,
        description: &str,
        start: Option<(i64, u32)>,
        location: &str,
    ) -> (r: Result<Self, AppError>)
        ensures
            match r {
                Ok(e) => {
                    &&& e.title@ == trimmed(title@) && e.title@.len() > 0
                    &&& optional_text_is(e.description, description@)
                    &&& start matches Some((secs, nanos)) && e.starts_at == EventDateTime {
                        unix_seconds: secs,
                        subsec_nanos: nanos,
                        offset_seconds: 0,
                    }
                    &&& optional_text_is(e.location, location@)
                },
                Err(AppError::BadRequest(m)) => if trimmed(title@).len() == 0 {
                    m@ == "イベント名"@ + "を入力してください。"@
                } else {
                    start is None && m@ == "開催日時を入力してください。"@
                },
                Err(_) => false,
            },
    {
        let title = required(title, "イベント名")?.to_owned();
        let description = optional(description);
        let starts_at = start_time_from(start)?;
        let location = optional(location);
        Ok(Self { title, description, starts_at, location })
    }

    /// The event that the form creates.
    pub fn from_form(title: &str, description: &str, starts_at: &str, location: &str) -> (r:
        Result<Self, AppError>)
        ensures
            match r {
                Ok(e) => {
                    &&& e.title@ == trimmed(title@) && e.title@.len() > 0
                    &&& optional_text_is(e.description, description@)
                    &&& parsed_form_datetime(starts_at@) matches Some((secs, nanos))
                        && e.starts_at == EventDateTime {
                        unix_seconds: secs,
                        subsec_nanos: nanos,
                        offset_seconds: 0,
                    }
                    &&& optional_text_is(e.location, location@)
                },
                Err(AppError::BadRequest(m)) => if trimmed(title@).len() == 0 {
                    m@ == "イベント名"@ + "を入力してください。"@
                } else {
                    parsed_form_datetime(starts_at@) is None && m@ == "開催日時を入力してください。"@
                },
                Err(_) => false,
            },
    {
        Self::from_form_with_start(title, description, parse_form_datetime(starts_at), location)
    }
}

/// The text before the first `,` of `s`, or all of `s` where it holds none.
pub open spec fn first_field(s: Seq<char>) -> Seq<char>
    decreases s.len(),
{
    if s.len() == 0 {
        s
    } else if s[0] == ',' {
        Seq::empty()
    } else {
        seq![s[0]] + first_field(s.drop_first())
    }
}

proof fn lemma_first_field_no_comma(s: Seq<char>)
    requires
        !s.contains(','),
    ensures
        first_field(s) == s,
    decreases s.len(),
{
    if s.len() > 0 {
        assert(s[0] != ',') by {
            assert(s.contains(s[0]));
        }
        assert forall|c: char| s.drop_first().contains(c) implies s.contains(c) by {
            let j = choose|j: int| 0 <= j < s.drop_first().len() && #[trigger] s.drop_first()[j] == c;
            assert(s[j + 1] == c);
        }
        lemma_first_field_no_comma(s.drop_first());
        assert(seq![s[0]] + s.drop_first() =~= s);
    }
}

proof fn lemma_first_field_split(s: Seq<char>, i: int)
    requires
        0 <= i < s.len(),
        s[i] == ',',
        !s.subrange(0, i).contains(','),
    ensures
        first_field(s) == s.subrange(0, i),
    decreases i,
{
    if i == 0 {
        assert(s.subrange(0, 0) =~= Seq::<char>::empty());
    } else {
        assert(s[0] != ',') by {
            assert(s.subrange(0, i)[0] == s[0]);
        }
        let t = s.drop_first();
        assert(t.subrange(0, i - 1) =~= s.subrange(0, i).drop_first());
        assert forall|c: char| t.subrange(0, i - 1).contains(c) implies s.subrange(0, i).contains(c) by {
            let j = choose|j: int| 0 <= j < i - 1 && #[trigger] t.subrange(0, i - 1)[j] == c;
            assert(s.subrange(0, i)[j + 1] == c);
        }
        lemma_first_field_split(t, i - 1);
        assert(seq![s[0]] + t.subrange(0, i - 1) =~= s.subrange(0, i));
    }
}

/// The first address of an `X-Forwarded-For` value, trimmed.
pub fn first_forwarded_address(value: &str) -> (address: &str)
    ensures
        address@ == trimmed(first_field(value@)),
{
    match split_once_comma(value) {
        Some((first, _)) => {
            proof {
                lemma_first_field_split(value@, first@.len() as int);
            }
            trim(first)
        },
        None => {
            proof {
                lemma_first_field_no_comma(value@);
            }
            trim(value)
        },
    }
}

/// The client address to log: the peer address, unless proxy headers are
/// trusted and the first forwarded address could be read.
pub fn client_ip<T>(trust_proxy_headers: bool, forwarded: Option<T>, peer_ip: Option<T>) -> (ip:
    Option<T>)
    ensures
        ip == (if trust_proxy_headers && forwarded is Some {
            forwarded
        } else {
            peer_ip
        }),
{
    if !trust_proxy_headers {
        return peer_ip;
    }
    match forwarded {
        Some(ip) => Some(ip),
        None => peer_ip,
    }
}

} // verus!
