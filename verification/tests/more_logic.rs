use rust_calendar::imports::{should_create_countdown, ImportSession};
use rust_calendar::countdown::CountdownCardId;
use rust_calendar::dialogs::theme::{theme_after_delete, ThemeCreatorState, ThemeDialogState};
use rust_calendar::status_text::{notifications_for, CardNotice, CountdownWarningState, NotificationTrigger, NotificationUrgency};
use rust_calendar::text::eq_ignore_ascii_case;
use rust_calendar::countdown::{distinct_event_ids, location_label};
use rust_calendar::recurrence::RecurrenceFrequency;
use rust_calendar::text::contains_text;
use rust_calendar::calendar_date::{CalDate, TimeOfDay};
use rust_calendar::colors::{parse_hex_color, parse_hex_color_or_gray, parse_hex_color_strict};
use rust_calendar::commands::{history_feedback, is_duplicate_event, Event, LocalDateTime};
use rust_calendar::dialogs::export::{ActiveDatePicker, ExportDialogState};
use rust_calendar::dialogs::template_manager::EventTemplate;
use rust_calendar::drag::{DragContext, DragManager, DragView};
use rust_calendar::event_dialog::{EventDialogState, Settings};
use rust_calendar::toast::ToastLevel;
use rust_calendar::views::{month_grid, month_grid_checked, visible_period, visible_period_checked, ViewType};

fn date(y: i32, m: u32, d: u32) -> CalDate {
    CalDate::from_ymd_opt(y, m, d).unwrap()
}

fn at(d: CalDate, h: u32, m: u32) -> LocalDateTime {
    LocalDateTime { date: d, time: TimeOfDay { hour: h, minute: m, second: 0 } }
}

fn event(id: Option<i64>, title: &str, start: LocalDateTime, end: LocalDateTime) -> Event {
    Event {
        id,
        title: title.to_string(),
        description: None,
        location: None,
        start,
        end,
        all_day: false,
        category: None,
        color: None,
        recurrence_rule: None,
        recurrence_exceptions: None,
        created_at: None,
        updated_at: None,
    }
}

#[test]
fn visible_periods() {
    // 2024-03-13 is a Wednesday.
    let d = date(2024, 3, 13);
    assert_eq!(visible_period(ViewType::Day, d, 0, 1), (d, d));
    assert_eq!(visible_period(ViewType::Week, d, 0, 1), (date(2024, 3, 10), date(2024, 3, 16)));
    assert_eq!(visible_period(ViewType::Week, d, 1, 1), (date(2024, 3, 11), date(2024, 3, 17)));
    assert_eq!(visible_period(ViewType::WorkWeek, d, 0, 1), (date(2024, 3, 11), date(2024, 3, 15)));
    assert_eq!(visible_period(ViewType::Month, d, 0, 1), (date(2024, 3, 1), date(2024, 3, 31)));
    assert_eq!(visible_period(ViewType::Month, date(2023, 2, 7), 0, 1), (date(2023, 2, 1), date(2023, 2, 28)));
}

#[test]
fn duplicates_match_title_and_times() {
    let d = date(2024, 5, 1);
    let stored = vec![event(Some(1), "A", at(d, 9, 0), at(d, 10, 0)), event(Some(2), "B", at(d, 9, 0), at(d, 10, 0))];
    assert!(is_duplicate_event(&stored, &event(None, "B", at(d, 9, 0), at(d, 10, 0))));
    assert!(!is_duplicate_event(&stored, &event(None, "B", at(d, 9, 30), at(d, 10, 0))));
    assert!(!is_duplicate_event(&stored, &event(None, "C", at(d, 9, 0), at(d, 10, 0))));
    assert!(!is_duplicate_event(&[], &event(None, "C", at(d, 9, 0), at(d, 10, 0))));
}

#[test]
fn undo_redo_toasts() {
    let r = history_feedback(false, &Ok(Some("Create event \"X\"".to_string())));
    assert_eq!(r, Some((ToastLevel::Info, "Undone: Create event \"X\"".to_string())));
    assert_eq!(history_feedback(true, &Ok(None)), None);
    assert_eq!(
        history_feedback(true, &Err("db".to_string())),
        Some((ToastLevel::Error, "Redo failed: db".to_string()))
    );
}

fn template(all_day: bool, minutes: i32) -> EventTemplate {
    EventTemplate {
        id: Some(1),
        name: "T".to_string(),
        title: "Review".to_string(),
        description: Some("notes".to_string()),
        location: None,
        duration_minutes: minutes,
        all_day,
        category: Some("Work".to_string()),
        color: None,
        recurrence_rule: None,
        created_at: None,
    }
}

#[test]
fn events_from_templates() {
    let settings = Settings::default();
    let d = date(2024, 5, 1);
    let s = EventDialogState::new_from_template(d, Some(TimeOfDay { hour: 23, minute: 0, second: 0 }), &template(false, 120), &settings);
    assert_eq!(s.title, "Review");
    assert_eq!(s.description, "notes");
    assert_eq!(s.category, "Work");
    assert_eq!(s.color, "#3B82F6");
    assert_eq!(s.start_time, TimeOfDay { hour: 23, minute: 0, second: 0 });
    assert_eq!(s.end_time, TimeOfDay { hour: 1, minute: 0, second: 0 });
    assert_eq!(s.end_date, date(2024, 5, 2));
    let s = EventDialogState::new_from_template(d, None, &template(false, 45), &settings);
    assert_eq!(s.start_time, TimeOfDay { hour: 9, minute: 0, second: 0 });
    assert_eq!(s.end_time, TimeOfDay { hour: 9, minute: 45, second: 0 });
    assert_eq!(s.end_date, d);
    let s = EventDialogState::new_from_template(d, Some(TimeOfDay { hour: 14, minute: 0, second: 0 }), &template(true, 1440), &settings);
    assert!(s.all_day);
    assert_eq!(s.start_time, TimeOfDay { hour: 9, minute: 0, second: 0 });
}

#[test]
fn export_dialog_ranges() {
    let mut e = ExportDialogState::for_today(date(2024, 2, 10));
    assert_eq!((e.start_date, e.end_date), (date(2024, 2, 1), date(2024, 2, 29)));
    assert_eq!(e.validation_error(), None);
    e.toggle_start_picker();
    assert_eq!(e.active_picker(), Some(ActiveDatePicker::Start));
    assert_eq!(e.viewing_date(), date(2024, 2, 1));
    e.select_start(date(2024, 3, 5));
    assert_eq!(e.end_date, date(2024, 3, 5));
    assert_eq!(e.active_picker(), None);
    e.toggle_end_picker();
    e.toggle_end_picker();
    assert_eq!(e.active_picker(), None);
    e.select_end(date(2024, 3, 1));
    assert_eq!(e.validation_error(), Some("End date must be after start date"));
    e.select_this_year(date(2024, 7, 4));
    assert_eq!((e.start_date, e.end_date), (date(2024, 1, 1), date(2024, 12, 31)));
    e.select_last_30_days(date(2024, 3, 1));
    assert_eq!((e.start_date, e.end_date), (date(2024, 1, 31), date(2024, 3, 1)));
    e.select_this_month(date(2023, 12, 25));
    assert_eq!((e.start_date, e.end_date), (date(2023, 12, 1), date(2023, 12, 31)));
    e.reset();
    assert_eq!(e.start_date.day, 1);
}

#[test]
fn drag_lifecycle() {
    let d = date(2024, 5, 1);
    let ev = event(Some(5), "Drag me", at(d, 9, 0), at(d, 10, 30));
    assert!(DragContext::<(i32, i32), (i32, i32), u8>::from_event(&event(None, "x", at(d, 9, 0), at(d, 10, 0)), (0, 0), DragView::Day).is_none());
    let ctx = DragContext::<(i32, i32), (i32, i32), u8>::from_event(&ev, (3, 4), DragView::Week).unwrap();
    assert_eq!(ctx.duration_secs, 5400);
    assert_eq!(ctx.hovered_date, Some(d));
    assert_eq!(ctx.hovered_start_given(true), Some(at(d, 9, 0)));
    assert_eq!(ctx.hovered_start_given(false), None);
    let mut m = DragManager::new();
    m.begin(ctx);
    assert!(m.is_active_for_view(DragView::Week));
    assert!(!m.is_active_for_view(DragView::Day));
    m.update_hover(date(2024, 5, 2), TimeOfDay { hour: 11, minute: 0, second: 0 }, 7, (1, 2));
    assert_eq!(m.active().unwrap().hovered_date, Some(date(2024, 5, 2)));
    assert_eq!(m.active().unwrap().pointer_pos, Some((1, 2)));
    assert!(m.finish_for_view(DragView::Day).is_none());
    let done = m.finish_for_view(DragView::Week).unwrap();
    assert_eq!(done.event_id, 5);
    assert!(m.active().is_none());
    m.begin(done);
    m.cancel_for_view(DragView::Day);
    assert!(m.active().is_some());
    m.cancel();
    assert!(m.active().is_none());
}

#[test]
fn hex_colour_parsing() {
    assert_eq!(parse_hex_color("#3B82F6"), Some((0x3B, 0x82, 0xF6)));
    assert_eq!(parse_hex_color("fa0"), Some((255, 170, 0)));
    assert_eq!(parse_hex_color("#12"), None);
    assert_eq!(parse_hex_color("#+F+F+F"), Some((15, 15, 15)));
    assert_eq!(parse_hex_color_or_gray("  #00ff00 "), (0, 255, 0));
    assert_eq!(parse_hex_color_or_gray("nope"), (160, 160, 160));
    assert_eq!(parse_hex_color_strict("AABBCC"), None);
    assert_eq!(parse_hex_color_strict("#AABBCC"), Some((0xAA, 0xBB, 0xCC)));
    assert_eq!(parse_hex_color_strict("##ABC"), None);
}

#[test]
fn card_event_ids_are_collected_once() {
    assert_eq!(distinct_event_ids(&[Some(3), None, Some(1), Some(3), Some(2), Some(1)]), vec![3, 1, 2]);
    assert_eq!(distinct_event_ids(&[None, None]), Vec::<i64>::new());
}

#[test]
fn location_labels_are_trimmed() {
    assert_eq!(location_label(Some("  Hall B ")), Some("Hall B".to_string()));
    assert_eq!(location_label(Some("   ")), None);
    assert_eq!(location_label(None), None);
}

#[test]
fn recurrence_presets_pick_the_named_frequency() {
    let settings = Settings::default();
    let mut s = EventDialogState::new_event(date(2024, 1, 1), &settings);
    s.apply_recurrence_preset("FREQ=MONTHLY;BYMONTHDAY=1");
    assert!(s.is_recurring);
    assert_eq!(s.frequency, RecurrenceFrequency::Monthly);
    s.apply_recurrence_preset("FREQ=YEARLY");
    assert_eq!(s.frequency, RecurrenceFrequency::Yearly);
    s.apply_recurrence_preset("weekly");
    assert_eq!(s.frequency, RecurrenceFrequency::Daily);
    s.apply_recurrence_preset("FREQ=WEEKLY;BYDAY=MO");
    assert_eq!(s.frequency, RecurrenceFrequency::Weekly);
}

#[test]
fn substring_search() {
    assert!(contains_text("FREQ=WEEKLY", "WEEK"));
    assert!(contains_text("abc", ""));
    assert!(!contains_text("ab", "abc"));
    assert!(contains_text("ééx", "éx"));
    assert!(!contains_text("FREQ=DAILY", "WEEKLY"));
}

#[test]
fn ascii_case_insensitive_names() {
    assert!(eq_ignore_ascii_case("Dark Blue", "dark BLUE"));
    assert!(!eq_ignore_ascii_case("Dark", "Darker"));
    assert!(!eq_ignore_ascii_case("É", "é"));
    assert_eq!(theme_after_delete("ocean", "Ocean"), Some("Light".to_string()));
    assert_eq!(theme_after_delete("Light", "Ocean"), None);
}

#[test]
fn theme_cache_and_creator_outcomes() {
    let mut d = ThemeDialogState::new();
    d.cache_theme_colors("A", [(1, 1, 1, 1); 4]);
    d.cache_theme_colors("B", [(2, 2, 2, 2); 4]);
    d.forget_theme_colors("A");
    assert_eq!(d.theme_colors("A"), None);
    assert_eq!(d.theme_colors("B"), Some([(2, 2, 2, 2); 4]));
    d.forget_theme_colors("Z");
    assert_eq!(d.custom_theme_colors.len(), 1);

    let mut c = ThemeCreatorState::new(0u8);
    c.open_create(1);
    c.finish_save(Err("read-only".to_string()));
    assert!(c.is_open);
    assert_eq!(c.validation_error.as_deref(), Some("Failed to save: read-only"));
    c.finish_save(Ok(()));
    assert!(!c.is_open);
    assert!(c.validation_error.is_none());
}

#[test]
fn countdown_notifications() {
    let triggers = [
        NotificationTrigger { card_id: CountdownCardId(1), new_state: CountdownWarningState::Critical },
        NotificationTrigger { card_id: CountdownCardId(9), new_state: CountdownWarningState::Starting },
        NotificationTrigger { card_id: CountdownCardId(2), new_state: CountdownWarningState::Approaching },
    ];
    let cards = [
        CardNotice { card_id: CountdownCardId(1), title: "Flight".to_string(), remaining_seconds: 600 },
        CardNotice { card_id: CountdownCardId(2), title: "Exam".to_string(), remaining_seconds: 7200 },
    ];
    let shown = notifications_for(&triggers, &cards, true);
    assert_eq!(shown.len(), 2);
    assert_eq!(shown[0].title, "Flight");
    assert_eq!(shown[0].message, "Starting in 10 minutes");
    assert_eq!(shown[0].urgency, NotificationUrgency::Critical);
    assert_eq!(shown[1].title, "Exam");
    assert_eq!(shown[1].message, "Starting in 2 hours");
    assert!(notifications_for(&triggers, &cards, false).is_empty());
}

#[test]
fn month_grids_start_on_sunday() {
    let g = month_grid(date(2024, 3, 15));
    assert_eq!(g.len(), 42);
    assert_eq!(g[0], date(2024, 2, 25));
    assert_eq!(g[5], date(2024, 3, 1));
    assert_eq!(g[41], date(2024, 4, 6));
    let g = month_grid(date(2015, 2, 10));
    assert_eq!(g.len(), 35);
    assert_eq!(g[0], date(2015, 2, 1));
    assert_eq!(g[34], date(2015, 3, 7));
}

#[test]
fn checked_periods_and_grids() {
    let d = date(2024, 3, 13);
    assert_eq!(visible_period_checked(ViewType::Week, d, 0, 1), Some((date(2024, 3, 10), date(2024, 3, 16))));
    let last = date(262142, 12, 31);
    assert_eq!(visible_period_checked(ViewType::Month, last, 0, 1), None);
    assert_eq!(visible_period_checked(ViewType::Day, last, 0, 1), Some((last, last)));
    assert_eq!(month_grid_checked(d).map(|g| g.len()), Some(42));
    assert_eq!(month_grid_checked(last), None);
}

#[test]
fn import_session_counts_and_skips_duplicates() {
    let d = date(2024, 6, 1);
    let mut s = ImportSession::new(vec![event(Some(1), "Known", at(d, 8, 0), at(d, 9, 0))], false);
    assert!(!s.should_store(&event(None, "Known", at(d, 8, 0), at(d, 9, 0))));
    let fresh = event(None, "Fresh", at(d, 10, 0), at(d, 11, 0));
    assert!(s.should_store(&fresh));
    s.record(Ok(event(Some(2), "Fresh", at(d, 10, 0), at(d, 11, 0))));
    assert!(!s.should_store(&fresh));
    assert!(s.should_store(&event(None, "Other", at(d, 10, 0), at(d, 11, 0))));
    s.record(Err("locked".to_string()));
    assert_eq!((s.imported_count, s.failed_count, s.duplicate_count), (1, 1, 2));
    assert!(should_create_countdown(true, 10, 5));
    assert!(!should_create_countdown(true, 5, 5));
    assert!(!should_create_countdown(false, 10, 5));
}
