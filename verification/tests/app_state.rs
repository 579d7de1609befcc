use rust_calendar::calendar_date::{CalDate, TimeOfDay};
use rust_calendar::colors::{is_valid_hex_color, strip_leading_hashes};
use rust_calendar::commands::LocalDateTime;
use rust_calendar::confirm::{ConfirmAction, ConfirmDialogState, ConfirmResult};
use rust_calendar::context::AppContext;
use rust_calendar::countdown::CountdownCardId;
use rust_calendar::status_text::{
    format_duration_short, notification_message_for_state, CountdownWarningState,
    NotificationUrgency,
};
use rust_calendar::toast::{Toast, ToastLevel, ToastManager};
use rust_calendar::views::{
    format_scheduler_countdown, navigate_down, navigate_next, navigate_previous, navigate_up,
    parse_view_type, DatePickerState, ViewType,
};

fn date(y: i32, m: u32, d: u32) -> CalDate {
    CalDate::from_ymd_opt(y, m, d).unwrap()
}

#[test]
fn toast_levels_have_icons_and_colours() {
    assert_eq!(ToastLevel::Success.icon(), "✓");
    assert_eq!(ToastLevel::Error.icon(), "✗");
    assert_eq!(ToastLevel::Warning.background_color(true), (80, 60, 20));
    assert_eq!(ToastLevel::Info.text_color(false), (30, 80, 150));
}

#[test]
fn toasts_expire_after_their_duration() {
    let t = Toast::success("Saved".to_string()).with_duration(1000);
    assert_eq!(t.duration_ms, 1000);
    assert!(!t.is_expired_after(999));
    assert!(t.is_expired_after(1000));
    let zero = Toast::info("now".to_string()).with_duration(0);
    assert!(zero.is_expired());
}

#[test]
fn toast_manager_removes_only_expired_toasts() {
    let mut m = ToastManager::new();
    assert!(!m.has_toasts());
    m.success("a".to_string());
    m.error("b".to_string());
    m.warning("c".to_string());
    assert_eq!(m.toasts().len(), 3);
    m.remove_expired(&vec![5000, 10, 3000]);
    let left: Vec<&str> = m.toasts().iter().map(|t| t.message.as_str()).collect();
    assert_eq!(left, vec!["b"]);
    assert_eq!(m.toasts()[0].level, ToastLevel::Error);
    m.cleanup();
    assert!(m.has_toasts());
}

#[test]
fn confirm_messages() {
    let a = ConfirmAction::DeleteEvent { event_id: 1, event_title: "Dentist".to_string() };
    assert_eq!(a.title(), "Delete Event");
    assert_eq!(
        a.message(),
        "Are you sure you want to delete \"Dentist\"?\n\nThis action cannot be undone."
    );
    assert_eq!(a.confirm_text(), "Delete");
    assert!(a.is_destructive());
    let o = ConfirmAction::DeleteEventOccurrence {
        event_id: 1,
        event_title: "Yoga".to_string(),
        occurrence_date: LocalDateTime { date: date(2024, 3, 5), time: TimeOfDay { hour: 0, minute: 0, second: 0 } },
    };
    assert_eq!(
        o.message(),
        "Are you sure you want to delete this occurrence of \"Yoga\" on March 05, 2024?\n\nOther occurrences will not be affected."
    );
    let d = ConfirmAction::DiscardChanges;
    assert_eq!(d.confirm_text(), "Discard");
    assert!(!d.is_destructive());
    let c = ConfirmAction::DeleteCountdownCard { card_id: CountdownCardId(4), card_title: "Trip".to_string() };
    assert_eq!(c.title(), "Delete Countdown");
    let t = ConfirmAction::DeleteTheme { theme_name: "Dusk".to_string() };
    assert_eq!(
        t.message(),
        "Are you sure you want to delete the theme \"Dusk\"?\n\nThis action cannot be undone."
    );
}

#[test]
fn confirm_dialog_closes_once_answered() {
    let mut s = ConfirmDialogState::new();
    assert!(!s.is_open());
    assert_eq!(s.answer(ConfirmResult::Confirmed), ConfirmResult::Pending);
    s.request(ConfirmAction::DiscardChanges);
    assert!(s.is_open());
    assert_eq!(s.answer(ConfirmResult::Pending), ConfirmResult::Pending);
    assert!(s.pending_action().is_some());
    assert_eq!(s.answer(ConfirmResult::Cancelled), ConfirmResult::Cancelled);
    assert!(!s.is_open());
    s.request(ConfirmAction::DiscardChanges);
    assert!(matches!(s.take_action(), Some(ConfirmAction::DiscardChanges)));
    assert!(s.take_action().is_none());
    s.request(ConfirmAction::DiscardChanges);
    s.cancel();
    assert!(!s.is_open());
}

#[test]
fn view_names_parse() {
    assert_eq!(parse_view_type("Day"), ViewType::Day);
    assert_eq!(parse_view_type("Week"), ViewType::Week);
    assert_eq!(parse_view_type("WorkWeek"), ViewType::WorkWeek);
    assert_eq!(parse_view_type("Month"), ViewType::Month);
    assert_eq!(parse_view_type("Quarter"), ViewType::Month);
    assert_eq!(parse_view_type("day"), ViewType::Month);
}

#[test]
fn navigation_steps() {
    let d = date(2024, 3, 31);
    assert_eq!(navigate_previous(ViewType::Day, d), date(2024, 3, 30));
    assert_eq!(navigate_next(ViewType::Day, d), date(2024, 4, 1));
    assert_eq!(navigate_up(ViewType::Day, d), date(2024, 3, 24));
    assert_eq!(navigate_down(ViewType::Day, d), date(2024, 4, 7));
    assert_eq!(navigate_previous(ViewType::Week, d), date(2024, 3, 24));
    assert_eq!(navigate_down(ViewType::WorkWeek, d), date(2024, 4, 7));
    assert_eq!(navigate_previous(ViewType::Month, d), date(2024, 2, 29));
    assert_eq!(navigate_next(ViewType::Month, d), date(2024, 4, 30));
    assert_eq!(navigate_next(ViewType::Month, date(2024, 12, 15)), date(2025, 1, 15));
}

#[test]
fn date_picker_opens_on_a_date() {
    let mut p = DatePickerState::new();
    p.open(date(2024, 6, 1));
    assert!(p.is_open);
    assert_eq!(p.viewing_date, Some(date(2024, 6, 1)));
    p.close();
    assert!(!p.is_open);
    assert_eq!(p.viewing_date, None);
}

#[test]
fn duration_texts() {
    assert_eq!(format_duration_short(-5), "now");
    assert_eq!(format_duration_short(30), "< 1m");
    assert_eq!(format_duration_short(45 * 60), "45m");
    assert_eq!(format_duration_short(3600), "1h");
    assert_eq!(format_duration_short(3600 + 20 * 60), "1h 20m");
    assert_eq!(format_duration_short(2 * 86400), "2d");
    assert_eq!(format_duration_short(2 * 86400 + 3 * 3600 + 59), "2d 3h");
    assert_eq!(format_scheduler_countdown(65), "01:05");
    assert_eq!(format_scheduler_countdown(6000), "100:00");
    assert_eq!(format_scheduler_countdown(0), "00:00");
}

#[test]
fn notification_texts() {
    let (m, u) = notification_message_for_state(CountdownWarningState::Critical, 61);
    assert_eq!(m, "Starting in 1 minute");
    assert_eq!(u, NotificationUrgency::Critical);
    let (m, _) = notification_message_for_state(CountdownWarningState::Critical, 59);
    assert_eq!(m, "Starting very soon!");
    let (m, u) = notification_message_for_state(CountdownWarningState::Imminent, 2 * 3600 + 60);
    assert_eq!(m, "Starting in 2 hours 1 minute");
    assert_eq!(u, NotificationUrgency::Critical);
    let (m, _) = notification_message_for_state(CountdownWarningState::Imminent, 5 * 60);
    assert_eq!(m, "Starting in 5 minutes");
    let (m, _) = notification_message_for_state(CountdownWarningState::Imminent, -120);
    assert_eq!(m, "Starting in -2 minutes");
    let (m, u) = notification_message_for_state(CountdownWarningState::Approaching, 3 * 3600);
    assert_eq!(m, "Starting in 3 hours");
    assert_eq!(u, NotificationUrgency::Normal);
    let (m, _) = notification_message_for_state(CountdownWarningState::Starting, 0);
    assert_eq!(m, "Event is starting now!");
    let (m, u) = notification_message_for_state(CountdownWarningState::Normal, 0);
    assert_eq!(m, "Event approaching");
    assert_eq!(u, NotificationUrgency::Normal);
}

#[test]
fn hex_colours() {
    assert!(is_valid_hex_color("#3B82F6"));
    assert!(is_valid_hex_color("  ##fa0 "));
    assert!(is_valid_hex_color("abc"));
    assert!(!is_valid_hex_color("#12345"));
    assert!(!is_valid_hex_color("#GGGGGG"));
    assert!(!is_valid_hex_color(""));
    assert_eq!(strip_leading_hashes("##ab#"), "ab#");
}

#[test]
fn context_hands_out_its_services() {
    let db = 5u8;
    let mut ctx = AppContext::new(&db, vec![1, 2], "countdowns.json".to_string(), 0i32);
    assert_eq!(*ctx.database(), 5);
    assert_eq!(ctx.countdown_service().len(), 2);
    ctx.countdown_service_mut().push(3);
    assert_eq!(ctx.countdown_service(), &vec![1, 2, 3]);
    *ctx.notification_service_mut() += 1;
    assert_eq!(ctx.countdown_storage_path(), "countdowns.json");
}

#[test]
fn date_picker_year_and_month_buttons() {
    let mut p = DatePickerState::new();
    p.open(date(2024, 2, 29));
    p.shift_year(date(2024, 2, 29), 1);
    assert_eq!(p.viewing_date, Some(date(2024, 2, 29)));
    p.shift_year(date(2024, 3, 31), -1);
    assert_eq!(p.viewing_date, Some(date(2023, 3, 31)));
    p.shift_viewed_month(date(2023, 3, 31), -1);
    assert_eq!(p.viewing_date, Some(date(2023, 2, 28)));
    p.shift_viewed_month(date(2023, 12, 5), 1);
    assert_eq!(p.viewing_date, Some(date(2024, 1, 5)));
}
