use rust_calendar::calendar_date::{add_days, CalDate, TimeOfDay};
use rust_calendar::commands::{Event, LocalDateTime};
use rust_calendar::event_dialog::{EventDialogState, Settings};
use rust_calendar::recurrence::{ParsedRRule, RecurrenceFrequency, RecurrencePattern, Weekday};

fn sample_date() -> CalDate {
    CalDate::from_ymd_opt(2025, 1, 15).unwrap()
}

fn base_state() -> EventDialogState {
    let settings = Settings::default();
    let mut state = EventDialogState::new_event(sample_date(), &settings);
    state.title = "Test Event".to_string();
    state
}

#[test]
fn new_event_uses_settings_defaults() {
    let mut settings = Settings::default();
    settings.default_event_start_time = "07:30".to_string();
    settings.default_event_duration = 30;

    let state = EventDialogState::new_event(sample_date(), &settings);
    assert_eq!(state.start_time, TimeOfDay::from_hms_opt(7, 30, 0).unwrap());
    assert_eq!(state.end_time, TimeOfDay::from_hms_opt(8, 0, 0).unwrap());
}

#[test]
fn build_rrule_weekly_lists_selected_days() {
    let mut state = base_state();
    state.is_recurring = true;
    state.frequency = RecurrenceFrequency::Weekly;
    state.byday_enabled = true;
    state.byday_monday = true;
    state.byday_friday = true;

    assert_eq!(state.build_rrule(), Some("FREQ=WEEKLY;BYDAY=MO,FR".to_string()));
}

#[test]
fn build_rrule_monthly_uses_positional_pattern() {
    let mut state = base_state();
    state.is_recurring = true;
    state.frequency = RecurrenceFrequency::Monthly;
    state.pattern = RecurrencePattern::FirstWeekdayOfPeriod(Weekday::Tuesday);

    assert_eq!(state.build_rrule(), Some("FREQ=MONTHLY;BYDAY=1TU".to_string()));
}

#[test]
fn parse_rrule_handles_byday_and_interval() {
    let parsed = ParsedRRule::parse("FREQ=WEEKLY;INTERVAL=2;BYDAY=MO,WE");

    assert!(parsed.is_recurring);
    assert_eq!(parsed.frequency, RecurrenceFrequency::Weekly);
    assert_eq!(parsed.interval, 2);
    assert_eq!(parsed.pattern, RecurrencePattern::NoPattern);
    assert!(parsed.byday_flags[1]);
    assert!(parsed.byday_flags[3]);
}

#[test]
fn parse_rrule_detects_positional_weekday() {
    let parsed = ParsedRRule::parse("FREQ=MONTHLY;BYDAY=1TH");

    assert_eq!(parsed.frequency, RecurrenceFrequency::Monthly);
    assert!(matches!(
        parsed.pattern,
        RecurrencePattern::FirstWeekdayOfPeriod(Weekday::Thursday)
    ));
    assert!(parsed.byday_flags.iter().all(|flag| !flag));
}

#[test]
fn validate_rejects_empty_title() {
    let mut state = base_state();
    state.title.clear();
    assert!(state.validate().is_err());
}

#[test]
fn validate_requires_specific_days_when_enabled() {
    let mut state = base_state();
    state.is_recurring = true;
    state.frequency = RecurrenceFrequency::Weekly;
    state.byday_enabled = true;
    let err = state.validate().unwrap_err();
    assert!(err.contains("Select at least one day"));
}

#[test]
fn validate_allows_multi_day_events() {
    let mut state = base_state();
    state.end_date = add_days(state.date, 1).unwrap();
    state.end_time = state.start_time;
    assert!(state.validate().is_ok());
}

#[test]
fn validate_rejects_end_before_start_date() {
    let mut state = base_state();
    state.end_date = add_days(state.date, -1).unwrap();
    let err = state.validate().unwrap_err();
    assert!(err.contains("Event must end"));
}

#[test]
fn validate_accepts_hex_colors() {
    let mut state = base_state();
    state.color = "#AABBCC".to_string();
    assert!(state.validate().is_ok());
}

#[test]
fn to_event_propagates_recurrence_rule() {
    let mut state = base_state();
    state.is_recurring = true;
    state.frequency = RecurrenceFrequency::Weekly;
    state.byday_enabled = true;
    state.byday_tuesday = true;

    let event = state.to_event().expect("event should build");
    assert_eq!(event.title, "Test Event");
    assert_eq!(event.recurrence_rule, Some("FREQ=WEEKLY;BYDAY=TU".to_string()));
}

#[test]
fn validate_with_reports_each_error() {
    let mut state = base_state();
    assert_eq!(state.validate_with(Some(0), Some(3600)), Ok(()));
    assert_eq!(
        state.validate_with(None, Some(3600)),
        Err("Start time is invalid for the selected day".to_string())
    );
    assert_eq!(
        state.validate_with(Some(0), None),
        Err("End time is invalid for the selected day".to_string())
    );
    assert_eq!(
        state.validate_with(Some(10), Some(10)),
        Err("Event must end after it starts".to_string())
    );
    state.title = "x".repeat(201);
    assert_eq!(
        state.validate_with(Some(0), Some(1)),
        Err("Event title is too long (max 200 characters)".to_string())
    );
    state.title = "ok".to_string();
    state.color = "red".to_string();
    assert_eq!(
        state.validate_with(Some(0), Some(1)),
        Err("Color must start with # (e.g., #3B82F6)".to_string())
    );
    state.color = String::new();
    state.is_recurring = true;
    state.interval = 0;
    assert_eq!(state.validate_with(Some(0), Some(1)), Err("Interval must be at least 1".to_string()));
    state.interval = 1000;
    assert_eq!(
        state.validate_with(Some(0), Some(1)),
        Err("Interval is too large (max 999)".to_string())
    );
    state.interval = 1;
    state.count = Some(0);
    assert_eq!(
        state.validate_with(Some(0), Some(1)),
        Err("Occurrence count must be at least 1".to_string())
    );
    state.count = Some(1000);
    assert_eq!(
        state.validate_with(Some(0), Some(1)),
        Err("Occurrence count is too large (max 999)".to_string())
    );
    state.count = None;
    state.until_date = Some(CalDate::from_ymd_opt(2025, 1, 14).unwrap());
    assert_eq!(
        state.validate_with(Some(0), Some(1)),
        Err("Recurrence end date cannot be before event start date".to_string())
    );
}

#[test]
fn bad_start_setting_falls_back_to_nine() {
    let mut settings = Settings::default();
    settings.default_event_start_time = "25:00".to_string();
    settings.default_event_duration = 90;
    let state = EventDialogState::new_event(sample_date(), &settings);
    assert_eq!(state.start_time, TimeOfDay::from_hms_opt(9, 0, 0).unwrap());
    assert_eq!(state.end_time, TimeOfDay::from_hms_opt(10, 30, 0).unwrap());
}

#[test]
fn late_event_end_wraps_past_midnight() {
    let settings = Settings::default();
    let state = EventDialogState::new_event_with_time(
        sample_date(),
        TimeOfDay::from_hms_opt(23, 30, 0),
        &settings,
    );
    assert_eq!(state.end_time, TimeOfDay::from_hms_opt(0, 30, 0).unwrap());
    assert_eq!(state.end_date, sample_date());
}

#[test]
fn from_event_reads_the_rule_back() {
    let event = Event {
        id: Some(7),
        title: "Standup".to_string(),
        description: None,
        location: Some("Room 1".to_string()),
        start: LocalDateTime { date: sample_date(), time: TimeOfDay { hour: 9, minute: 0, second: 0 } },
        end: LocalDateTime { date: sample_date(), time: TimeOfDay { hour: 9, minute: 15, second: 0 } },
        all_day: false,
        category: None,
        color: None,
        recurrence_rule: Some("FREQ=WEEKLY;BYDAY=MO,TH".to_string()),
        recurrence_exceptions: None,
        created_at: None,
        updated_at: None,
    };
    let state = EventDialogState::from_event(&event, &Settings::default());
    assert_eq!(state.event_id, Some(7));
    assert_eq!(state.location, "Room 1");
    assert_eq!(state.color, "#3B82F6");
    assert!(state.is_recurring && state.byday_enabled);
    assert!(state.byday_monday && state.byday_thursday && !state.byday_friday);
    assert_eq!(state.build_rrule(), Some("FREQ=WEEKLY;BYDAY=MO,TH".to_string()));
}

#[test]
fn weekday_flags_by_index() {
    let mut state = base_state();
    state.set_weekday_flag(9, true);
    assert!(state.byday_tuesday);
    assert!(state.weekday_flag(2));
    assert!(!state.weekday_flag(0));
}

#[test]
fn save_result_maps_store_errors() {
    let mut state = base_state();
    let ev = state.save_request().unwrap();
    assert_eq!(ev.id, None);
    let failed = state.save_result(state.to_event().unwrap(), Err("locked".to_string()));
    assert_eq!(failed.unwrap_err(), "Failed to create event: locked");
    state.event_id = Some(3);
    let ev = state.save_request().unwrap();
    assert_eq!(ev.id, Some(3));
    let failed = state.save_result(state.to_event().unwrap(), Err("gone".to_string()));
    assert_eq!(failed.unwrap_err(), "Failed to update event: gone");
}
