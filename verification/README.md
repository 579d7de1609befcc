# rust_calendar

The logic of a desktop calendar application, written in Verus. Every
function in `src/` carries a contract; Verus proves each one except the
small trusted wrappers (`#[verifier::external_body]`) around `chrono` and
`std`, whose contracts are taken as stated.

- `src/` — the library: dates (`calendar_date`), RRULE reading and writing
  (`recurrence`), undo/redo (`commands`), toasts, confirmations, view
  navigation and visible periods (`views`), status and notification texts,
  colours, keyboard shortcuts, the calendar sync schedule, drag and drop (of
  events, and of cards in the countdown `container`), the
  event editor (`event_dialog`) and the other dialogs (`dialogs/`).
  Laws that span several functions are public `proof fn`s named `lemma_*`.
- `tests/` — scenarios run against the compiled library.
- `app/` — egui glue: reading input, drawing library state, running the
  sync worker thread.

Outside the library: `chrono` (through small trusted wrappers for calendar
arithmetic, formatting and the local time zone) and `egui` (in `app/`).

Not carried over: `AppContext::settings_service`, `theme_service` and
`event_service`, which build the application's database services; those
services are not part of this code base, so the context offers only the
accessors whose types it has.
