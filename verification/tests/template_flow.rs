use rust_calendar::calendar_date::{CalDate, TimeOfDay};
use rust_calendar::commands::{Event, LocalDateTime};
use rust_calendar::countdown::{
    card_action_effect, comment_payload, title_override_payload, CardActionEffect, CardUiAction,
    CountdownCardId, CountdownCategoryId,
};
use rust_calendar::dialogs::template_manager::TemplateManagerState;
use rust_calendar::dialogs::theme::duplicate_theme_name;
use rust_calendar::imports::ImportSession;
use rust_calendar::recurrence::Weekday;
use rust_calendar::sync_schedule::{enabled_synced_sources, retain_selected_source, CalendarSource};

fn at(h: u32) -> LocalDateTime {
    LocalDateTime {
        date: CalDate::from_ymd_opt(2025, 6, 1).unwrap(),
        time: TimeOfDay::from_hms_opt(h, 0, 0).unwrap(),
    }
}

fn event(id: Option<i64>, title: &str, h: u32) -> Event {
    Event {
        id,
        title: title.to_string(),
        description: None,
        location: None,
        start: at(h),
        end: at(h + 1),
        all_day: false,
        category: None,
        color: None,
        recurrence_rule: None,
        recurrence_exceptions: None,
        created_at: None,
        updated_at: None,
    }
}

#[test]
fn template_save_flow() {
    let mut m = TemplateManagerState::new();
    assert!(m.begin_save().is_none());
    m.start_new_template(60);
    assert!(m.begin_save().is_none());
    assert_eq!(m.error_message.as_deref(), Some("Template name is required"));
    {
        let e = m.editing_template.as_mut().unwrap();
        e.name = "Lunch".to_string();
        e.title = "Team lunch".to_string();
    }
    let t = m.begin_save().unwrap();
    assert_eq!(t.name, "Lunch");
    assert_eq!(t.duration_minutes, 60);
    assert!(m.editing_template.is_some());
    m.finish_save(true, Ok(()));
    assert_eq!(m.error_message.as_deref(), Some("A template with this name already exists"));
    assert!(m.editing_template.is_some());
    m.finish_save(false, Err("disk full".to_string()));
    assert_eq!(m.error_message.as_deref(), Some("Save failed: disk full"));
    assert!(m.editing_template.is_some());
    m.finish_save(false, Ok(()));
    assert!(m.editing_template.is_none() && m.needs_refresh && m.error_message.is_none());
}

#[test]
fn template_cancel_and_delete() {
    let mut m = TemplateManagerState::new();
    m.start_new_template(30);
    m.error_message = Some("old".to_string());
    m.cancel_edit();
    assert!(m.editing_template.is_none() && m.error_message.is_none());
    m.finish_delete(Err("in use".to_string()));
    assert_eq!(m.error_message.as_deref(), Some("Delete failed: in use"));
    assert!(!m.needs_refresh);
    m.finish_delete(Ok(()));
    assert!(m.needs_refresh);
}

#[test]
fn card_settings_payloads() {
    assert_eq!(title_override_payload("  My trip ", "Flight"), Some("My trip".to_string()));
    assert_eq!(title_override_payload(" Flight ", "Flight"), None);
    assert_eq!(title_override_payload("   ", "Flight"), None);
    assert_eq!(comment_payload("  "), None);
    assert_eq!(comment_payload(" pack bags "), Some(" pack bags ".to_string()));
}

#[test]
fn duplicate_theme_names() {
    assert_eq!(duplicate_theme_name("  Ocean ", false), Some("Ocean".to_string()));
    assert_eq!(duplicate_theme_name("Dark", true), None);
    assert_eq!(duplicate_theme_name("   ", false), None);
}

#[test]
fn synced_sources_and_selection() {
    let sources = vec![
        CalendarSource { id: Some(1), name: "Work".to_string(), enabled: true },
        CalendarSource { id: Some(2), name: "Old".to_string(), enabled: false },
        CalendarSource { id: None, name: "New".to_string(), enabled: true },
    ];
    let shown = enabled_synced_sources(&sources);
    assert_eq!(shown, vec![(1, "Work".to_string())]);
    assert_eq!(retain_selected_source(Some(1), &shown), Some(1));
    assert_eq!(retain_selected_source(Some(2), &shown), None);
    assert_eq!(retain_selected_source(None, &shown), None);
}

#[test]
fn card_actions_dispatch() {
    let d = CalDate::from_ymd_opt(2025, 12, 24).unwrap();
    let title = "Holiday".to_string();
    let id = CountdownCardId(3);
    match card_action_effect(CardUiAction::OpenEventDialog, id, Some(40), &title, d, 7u8) {
        CardActionEffect::OpenEventDialog(req) => assert_eq!((req.event_id, req.card_id, req.visuals), (40, id, 7)),
        _ => panic!("expected the event editor"),
    }
    assert!(matches!(
        card_action_effect(CardUiAction::OpenEventDialog, id, None, &title, d, 7u8),
        CardActionEffect::OpenSettings(c) if c == id
    ));
    match card_action_effect(CardUiAction::Delete, id, None, &title, d, 0u8) {
        CardActionEffect::ConfirmDelete(req) => assert_eq!(req.card_title, "Holiday"),
        _ => panic!("expected a delete confirmation"),
    }
    assert!(matches!(
        card_action_effect(CardUiAction::GoToDate, id, None, &title, d, 0u8),
        CardActionEffect::GoToDate(g) if g.date == d
    ));
    assert!(matches!(
        card_action_effect(CardUiAction::ChangeCategory(CountdownCategoryId(5)), id, None, &title, d, 0u8),
        CardActionEffect::ChangeCategory(c, k) if c == id && k == CountdownCategoryId(5)
    ));
    assert!(matches!(card_action_effect(CardUiAction::Refresh, id, None, &title, d, 0u8), CardActionEffect::Repaint));
    assert!(matches!(card_action_effect(CardUiAction::NoAction, id, None, &title, d, 0u8), CardActionEffect::Nothing));
}

#[test]
fn edit_before_import_takes_only_the_first_event() {
    let mut s = ImportSession::new(vec![], true);
    assert!(s.should_store(&event(None, "First", 9)));
    s.record(Ok(event(Some(11), "First", 9)));
    assert_eq!(s.edit_target, Some(11));
    assert!(!s.should_store(&event(None, "Second", 12)));
    assert_eq!(s.skipped_count, 1);
    assert_eq!(s.imported_count, 1);
    let mut dup = ImportSession::new(vec![event(Some(1), "Known", 9)], true);
    assert!(!dup.should_store(&event(None, "Known", 9)));
    assert!(!dup.should_store(&event(None, "Other", 10)));
    assert!(dup.edit_target.is_none());
}

#[test]
fn rrule_day_codes_read_back() {
    for w in Weekday::all() {
        assert_eq!(Weekday::from_rrule_day(w.to_rrule_day()), Some(w));
    }
    assert_eq!(Weekday::from_rrule_day("mo"), None);
    assert_eq!(Weekday::from_rrule_day("MON"), None);
}
