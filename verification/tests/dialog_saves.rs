use rust_calendar::calendar_date::{add_days, weekday_index, CalDate, TimeOfDay};
use rust_calendar::commands::LocalDateTime;
use rust_calendar::countdown::CountdownCategoryId;
use rust_calendar::dialogs::backup_manager::{BackupInfo, BackupManagerState};
use rust_calendar::dialogs::category_manager::{Category, CategoryManagerResponse, CategoryManagerState};
use rust_calendar::dialogs::countdown_category_manager::{
    CountdownCategory, CountdownCategoryManagerState, CountdownCategoryWrite,
};
use rust_calendar::dialogs::countdown_template_manager::{
    CountdownCardTemplate, CountdownCardTemplateId, CountdownTemplateManagerState, CountdownTemplateWrite,
};
use rust_calendar::dialogs::template_manager::{EventTemplate, TemplateManagerState};
use rust_calendar::event_dialog::{EventDialogState, Settings};
use rust_calendar::sync_schedule::{SyncScheduleState, SyncTickSummary, WorkerPoll};
use rust_calendar::text::parse_i32_str;
use rust_calendar::toast::{Toast, ToastManager};

fn cat(id: u64, name: &str, order: i32) -> CountdownCategory {
    CountdownCategory { id: CountdownCategoryId(id), name: name.to_string(), display_order: order }
}

#[test]
fn parse_i32_like_str_parse() {
    assert_eq!(parse_i32_str("42"), Some(42));
    assert_eq!(parse_i32_str("-7"), Some(-7));
    assert_eq!(parse_i32_str("+3"), Some(3));
    assert_eq!(parse_i32_str("2147483648"), None);
    assert_eq!(parse_i32_str("-2147483648"), Some(i32::MIN));
    assert_eq!(parse_i32_str(""), None);
    assert_eq!(parse_i32_str("1x"), None);
    assert_eq!(parse_i32_str("１"), None);
}

#[test]
fn countdown_category_save_checks() {
    let cats = vec![cat(1, "General", 0), cat(2, "Work", 1)];
    let default_id = CountdownCategoryId(1);
    let mut s = CountdownCategoryManagerState::new();
    s.open();
    s.name_input = "   ".to_string();
    assert_eq!(s.begin_save(&cats, default_id).unwrap_err(), "Name cannot be empty");
    assert_eq!(s.error_message.as_deref(), Some("Name cannot be empty"));
    s.name_input = " work ".to_string();
    assert_eq!(s.begin_save(&cats, default_id).unwrap_err(), "A category with this name already exists");
    s.name_input = "Home".to_string();
    s.display_order_input = " 5 ".to_string();
    match s.begin_save(&cats, default_id).unwrap() {
        CountdownCategoryWrite::Create(name, order) => assert_eq!((name.as_str(), order), ("Home", 5)),
        _ => panic!("expected a creation"),
    }
    assert_eq!(s.success_message.as_deref(), Some("Created 'Home'"));
    assert!(s.error_message.is_none());
    s.finish_create(Some(&cat(7, "Home", 5)));
    assert_eq!(s.editing_category_id, Some(CountdownCategoryId(7)));
    assert_eq!(s.display_order_input, "5");
    assert!(s.success_message.is_none());
}

#[test]
fn countdown_category_updates() {
    let cats = vec![cat(1, "General", 0), cat(2, "Work", 1)];
    let default_id = CountdownCategoryId(1);
    let mut s = CountdownCategoryManagerState::new();
    s.start_edit(&cats[1]);
    s.name_input = "WORK".to_string();
    s.display_order_input = "abc".to_string();
    match s.begin_save(&cats, default_id).unwrap() {
        CountdownCategoryWrite::Update(c) => {
            assert_eq!(c.id, CountdownCategoryId(2));
            assert_eq!(c.name, "WORK");
            assert_eq!(c.display_order, 0);
        },
        _ => panic!("expected an update"),
    }
    assert_eq!(s.success_message.as_deref(), Some("Category updated"));
    s.start_edit(&cats[0]);
    s.name_input = "Everything".to_string();
    s.display_order_input = "-2".to_string();
    match s.begin_save(&cats, default_id).unwrap() {
        CountdownCategoryWrite::Update(c) => {
            assert_eq!(c.name, "General");
            assert_eq!(c.display_order, -2);
        },
        _ => panic!("expected an update"),
    }
    s.editing_category_id = Some(CountdownCategoryId(9));
    assert_eq!(s.begin_save(&cats, default_id).unwrap_err(), "Category not found");
}

#[test]
fn countdown_category_delete() {
    let default_id = CountdownCategoryId(1);
    let mut s = CountdownCategoryManagerState::new();
    s.start_edit(&cat(1, "General", 0));
    s.request_delete(default_id, 3);
    assert!(s.delete_pending.is_none());
    s.start_edit(&cat(4, "Trips", 2));
    s.request_delete(default_id, 3);
    assert_eq!(s.delete_pending, Some((CountdownCategoryId(4), "Trips".to_string(), 3)));
    assert!(!s.finish_delete(false));
    assert_eq!(s.error_message.as_deref(), Some("Failed to delete category"));
    assert!(s.delete_pending.is_none());
    s.request_delete(default_id, 0);
    assert!(s.finish_delete(true));
    assert!(s.editing_category_id.is_none());
    assert_eq!(s.display_order_input, "0");
    assert!(s.success_message.is_none() && s.error_message.is_none());
}

#[test]
fn countdown_template_save_and_delete() {
    let list = vec![(CountdownCardTemplateId(1), "Default".to_string()), (CountdownCardTemplateId(2), "Dark".to_string())];
    let mut s: CountdownTemplateManagerState<u8, u32> = CountdownTemplateManagerState::new(0, 0, 0);
    s.open(9, 120, 110);
    assert_eq!((s.visuals, s.default_card_width, s.default_card_height), (9, 120, 110));
    s.name_input = "dark".to_string();
    assert_eq!(s.begin_template_save(&list).unwrap_err(), "A template with this name already exists");
    s.name_input = " Light ".to_string();
    match s.begin_template_save(&list).unwrap() {
        CountdownTemplateWrite::Create(name) => assert_eq!(name, "Light"),
        _ => panic!("expected a creation"),
    }
    assert_eq!(s.success_message.as_deref(), Some("Created 'Light'"));
    s.finish_create(Some(CountdownCardTemplate {
        id: CountdownCardTemplateId(3),
        name: "Light".to_string(),
        visuals: 4,
        default_card_width: 200,
        default_card_height: 90,
    }));
    assert_eq!(s.editing_template_id, Some(CountdownCardTemplateId(3)));
    assert_eq!(s.default_card_width, 200);
    assert_eq!(s.begin_template_save(&list).unwrap_err(), "Template not found");
    s.editing_template_id = Some(CountdownCardTemplateId(2));
    s.name_input = "Dark".to_string();
    match s.begin_template_save(&list).unwrap() {
        CountdownTemplateWrite::Update(id, name) => {
            assert_eq!(id, CountdownCardTemplateId(2));
            assert_eq!(name, "Dark");
        },
        _ => panic!("expected an update"),
    }
    assert_eq!(s.success_message.as_deref(), Some("Template updated"));
    s.request_delete(CountdownCardTemplateId(1));
    assert_eq!(s.delete_pending, Some((CountdownCardTemplateId(2), "Dark".to_string())));
    assert!(s.finish_delete(true, 9, 120, 110));
    assert!(s.editing_template_id.is_none());
    assert_eq!(s.visuals, 9);
    assert!(s.delete_pending.is_none());
}

#[test]
fn category_manager_delete_outcome() {
    let mut s = CategoryManagerState::new();
    let mut c = Category::new("Work", "#112233");
    c.id = Some(8);
    s.start_edit(c);
    s.request_delete(5);
    assert_eq!(s.delete_pending, Some((8, "Work".to_string(), 5)));
    let mut resp = CategoryManagerResponse::new();
    s.finish_delete(Err("locked".to_string()), &mut resp);
    assert_eq!(s.error_message.as_deref(), Some("Failed to delete: locked"));
    assert!(!resp.categories_changed && s.delete_pending.is_none());
    s.request_delete(5);
    s.finish_delete(Ok(()), &mut resp);
    assert!(resp.categories_changed && s.needs_refresh);
    assert!(s.editing_category.is_none());
    let mut sys = Category::new("Holiday", "#000000");
    sys.id = Some(1);
    sys.is_system = true;
    s.start_edit(sys);
    s.request_delete(0);
    assert!(s.delete_pending.is_none());
}

#[test]
fn backup_requests_name_the_listed_file() {
    let b = BackupManagerState::new(
        "/db.sqlite".to_string(),
        Ok(vec![BackupInfo { path: "/b/one.db".to_string(), filename: "one.db".to_string() }]),
    );
    assert_eq!(b.restore_request(0), Ok(("/b/one.db".to_string(), "/db.sqlite".to_string())));
    assert_eq!(b.delete_request(0), Ok("/b/one.db".to_string()));
    assert_eq!(b.restore_request(1), Err("Invalid backup index".to_string()));
    assert_eq!(b.delete_request(3), Err("Invalid backup index".to_string()));
}

#[test]
fn start_edit_template_loads_the_whole_template() {
    let mut m = TemplateManagerState::new();
    m.selected_template_id = Some(5);
    let t = EventTemplate {
        id: Some(5),
        name: "Gym".to_string(),
        title: "Workout".to_string(),
        description: Some("legs".to_string()),
        location: None,
        duration_minutes: 90,
        all_day: false,
        category: Some("Health".to_string()),
        color: Some("#00FF00".to_string()),
        recurrence_rule: None,
        created_at: None,
    };
    m.start_edit_template(&t);
    let f = m.editing_template.as_ref().unwrap();
    assert_eq!((f.duration_hours, f.duration_minutes), (1, 30));
    assert_eq!(f.description, "legs");
    assert_eq!(f.category, "Health");
    assert_eq!(f.color, "#00FF00");
    assert_eq!(m.selected_template_id, Some(5));
    assert!(!m.needs_refresh);
}

#[test]
fn form_times_handed_to_the_time_zone() {
    let d = CalDate::from_ymd_opt(2025, 3, 14).unwrap();
    let mut s = EventDialogState::new_event(d, &Settings::default());
    s.end_date = CalDate::from_ymd_opt(2025, 3, 15).unwrap();
    let (start, end) = s.start_end_local();
    assert_eq!(start, LocalDateTime { date: d, time: s.start_time });
    assert_eq!(end, LocalDateTime { date: CalDate::from_ymd_opt(2025, 3, 15).unwrap(), time: s.end_time });
}

#[test]
fn weekdays_from_the_day_count() {
    assert_eq!(weekday_index(CalDate::from_ymd_opt(1970, 1, 1).unwrap()), 4);
    assert_eq!(weekday_index(CalDate::from_ymd_opt(2024, 5, 1).unwrap()), 3);
    assert_eq!(weekday_index(CalDate::from_ymd_opt(2000, 2, 29).unwrap()), 2);
    assert_eq!(weekday_index(CalDate::from_ymd_opt(1600, 1, 2).unwrap()), 0);
}

#[test]
fn large_day_offsets_leave_the_range() {
    let d = CalDate::from_ymd_opt(2024, 1, 1).unwrap();
    assert_eq!(add_days(d, 2_000_000_000), None);
    assert_eq!(add_days(d, -106_751_991_167), None);
    assert_eq!(add_days(d, 366), CalDate::from_ymd_opt(2025, 1, 1));
}

#[test]
fn toasts_are_timed_from_their_creation() {
    let t = Toast::success("Saved".to_string());
    assert_eq!(*t.created_at(), t.created_at);
    assert!(t.with_duration(0).is_expired());
    let long = Toast::info("Wait".to_string()).with_duration(u64::MAX);
    assert!(!long.is_expired());
    let mut m = ToastManager::new();
    m.add(long);
    m.add(Toast::error("Gone".to_string()).with_duration(0));
    assert!(m.has_toasts());
    m.cleanup();
    assert_eq!(m.toasts().len(), 1);
    assert_eq!(m.toasts()[0].message, "Wait");
}

#[test]
fn finished_sync_sets_the_next_poll() {
    let mut s = SyncScheduleState::new();
    let step = s.step(1_000, None);
    assert!(step.start_worker);
    let tick = SyncTickSummary { successful: vec![], failed_count: 0, next_due_in_ms: Some(30_000) };
    let step = s.step(2_000, Some(WorkerPoll::Done(Ok(tick))));
    assert!(step.release_worker && !step.start_worker && !step.repaint_now);
    assert_eq!(step.repaint_after_ms, 1000);
    assert_eq!(s.next_due_in_ms, Some(30_000));
    assert_eq!(s.poll_due_at_ms, Some(32_000));
    assert!(!s.in_progress);
}
