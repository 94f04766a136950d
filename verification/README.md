# renge

The library behind 蓮華 (renge), a small event manager: events with
validated titles and descriptions, participants and their attendance, paged
event lists, and the decisions that the web pages make about forms, page
numbers, errors and client addresses. The functions in `src/` are verified
with Verus against their `requires`/`ensures` contracts, except four trusted
wrappers whose contracts Verus takes as given: `text::trim` (`str::trim`),
`text::split_once_comma` (`str::split_once`), `clock::system_time_now`
(`SystemTime::now`, with no promise about its result) and
`presenter::parse_form_datetime` (chrono's `NaiveDateTime::parse_from_str`).

- `src/paging.rs` – offset and cursor paging, with the page-number laws.
- `src/event.rs`, `src/modeling.rs`, `src/clock.rs` – the event domain,
  identifiers and clocks.
- `src/repository.rs` – stored records and their conversion to events, with
  the law that a stored event reads back unchanged.
- `src/presenter.rs`, `src/usecase.rs`, `src/views.rs`, `src/http.rs`,
  `src/config.rs` – form handling, the event list pages, attendance states,
  view models, error answers and settings.
- `src/text.rs` – trimming, splitting, comparison and decimal parsing.
- `app/` – the axum web server: routing, the PostgreSQL store (sea-orm),
  HTML rendering (maud), logging and the schema migration.
- `tests/` – tests of the library.
