use rust_calendar::countdown::CountdownCategoryId;
use rust_calendar::dialogs::backup_manager::{BackupInfo, BackupManagerState};
use rust_calendar::dialogs::category_manager::{
    Category, CategoryManagerResponse, CategoryManagerState, CategoryWrite,
};
use rust_calendar::dialogs::countdown_category_manager::{
    CountdownCategory, CountdownCategoryManagerState,
};
use rust_calendar::dialogs::search::SearchDialogState;
use rust_calendar::dialogs::template_manager::{EventTemplate, TemplateEditState, TemplateManagerState};
use rust_calendar::dialogs::theme::{ThemeCreatorState, ThemeDialogState, ThemeManagerState};

fn backup(name: &str) -> BackupInfo {
    BackupInfo { path: format!("/b/{}", name), filename: name.to_string() }
}

#[test]
fn category_manager_open_and_edit() {
    let mut s = CategoryManagerState::new();
    s.open();
    assert!(s.open && s.needs_refresh);
    assert_eq!(s.color_input, "#3B82F6");
    let mut cat = Category::new("Work", "#112233");
    cat.id = Some(4);
    cat.icon = Some("💼".to_string());
    s.start_edit(cat);
    assert_eq!(s.name_input, "Work");
    assert_eq!(s.icon_input, "💼");
    s.start_new();
    assert!(s.editing_category.is_none());
    assert_eq!(s.name_input, "");
    s.close();
    assert!(!s.open);
}

#[test]
fn category_save_flow() {
    let mut s = CategoryManagerState::new();
    s.open();
    s.name_input = "   ".to_string();
    assert!(s.begin_save().is_none());
    assert_eq!(s.error_message.as_deref(), Some("Name cannot be empty"));
    s.name_input = " Home ".to_string();
    s.color_input = "#12".to_string();
    assert!(s.begin_save().is_none());
    assert_eq!(s.error_message.as_deref(), Some("Invalid color format"));
    s.color_input = "#123".to_string();
    let (name, exclude) = s.begin_save().unwrap();
    assert_eq!(name, "Home");
    assert_eq!(exclude, None);
    assert!(matches!(s.continue_save(true), CategoryWrite::NoWrite));
    assert_eq!(s.error_message.as_deref(), Some("A category with this name already exists"));
    s.icon_input = "  ".to_string();
    match s.continue_save(false) {
        CategoryWrite::Create(c) => {
            assert_eq!(c.name, "Home");
            assert_eq!(c.color, "#123");
            assert_eq!(c.icon, None);
        }
        _ => panic!("expected a creation"),
    }
    let mut response = CategoryManagerResponse::new();
    let mut created = Category::new("Home", "#123");
    created.id = Some(11);
    s.finish_save(Ok(created), &mut response);
    assert!(response.categories_changed);
    assert_eq!(s.editing_category.as_ref().unwrap().id, Some(11));
    s.finish_save(Err("busy".to_string()), &mut response);
    assert_eq!(s.error_message.as_deref(), Some("Failed to update: busy"));
}

#[test]
fn system_category_keeps_its_name() {
    let mut s = CategoryManagerState::new();
    let mut cat = Category::new("Holidays", "#aabbcc");
    cat.is_system = true;
    s.start_edit(cat);
    s.name_input = "Renamed".to_string();
    match s.continue_save(false) {
        CategoryWrite::Update(c) => assert_eq!(c.name, "Holidays"),
        _ => panic!("expected an update"),
    }
}

#[test]
fn countdown_category_manager_states() {
    let mut s = CountdownCategoryManagerState::new();
    s.open();
    assert_eq!(s.display_order_input, "0");
    let cat = CountdownCategory { id: CountdownCategoryId(3), name: "Trips".to_string(), display_order: -2 };
    s.start_edit(&cat);
    assert_eq!(s.display_order_input, "-2");
    assert_eq!(s.editing_category_id, Some(CountdownCategoryId(3)));
    s.start_new();
    assert_eq!(s.editing_category_id, None);
    s.close();
    assert!(!s.open);
}

#[test]
fn template_form_round_trip() {
    let t = EventTemplate {
        id: Some(2),
        name: "Standup".to_string(),
        title: "Daily standup".to_string(),
        description: None,
        location: Some("Room".to_string()),
        duration_minutes: 75,
        all_day: false,
        category: None,
        color: None,
        recurrence_rule: None,
        created_at: None,
    };
    let f = TemplateEditState::from_template(&t);
    assert_eq!((f.duration_hours, f.duration_minutes), (1, 15));
    assert_eq!(f.color, "#3B82F6");
    assert_eq!(f.description, "");
    let back = f.to_template();
    assert_eq!(back.duration_minutes, 75);
    assert_eq!(back.location.as_deref(), Some("Room"));
    assert_eq!(back.description, None);
    assert_eq!(back.color.as_deref(), Some("#3B82F6"));
}

#[test]
fn template_validation_messages() {
    let mut f = TemplateEditState::new();
    assert_eq!(f.validate(), Err("Template name is required".to_string()));
    f.name = "N".to_string();
    assert_eq!(f.validate(), Err("Event title is required".to_string()));
    f.title = "T".to_string();
    f.duration_hours = 0;
    assert_eq!(f.validate(), Err("Duration must be at least 1 minute".to_string()));
    f.all_day = true;
    assert_eq!(f.validate(), Ok(()));
    assert_eq!(f.to_template().duration_minutes, 1440);
    let g = TemplateEditState::new_with_duration(135);
    assert_eq!((g.duration_hours, g.duration_minutes), (2, 15));
}

#[test]
fn template_manager_listing() {
    let mut m = TemplateManagerState::new();
    m.open(Err("no db".to_string()));
    assert!(m.is_open);
    assert!(m.error_message.is_none());
    m.refresh_templates(Err("no db".to_string()));
    assert_eq!(m.error_message.as_deref(), Some("Failed to load templates: no db"));
    m.start_new_template(30);
    assert_eq!(m.editing_template.as_ref().unwrap().duration_minutes, 30);
    m.close();
    assert!(!m.is_open && m.editing_template.is_none());
}

#[test]
fn theme_states() {
    let mut c = ThemeCreatorState::new("light");
    c.open_create("dark");
    assert!(c.is_open && !c.is_editing);
    assert_eq!(c.theme, "dark");
    c.open_edit("Mine".to_string(), "custom");
    assert!(c.is_editing);
    assert_eq!(c.original_name, "Mine");
    c.close();
    assert!(!c.is_open);

    let mut m = ThemeManagerState::new();
    m.open();
    assert!(m.is_open);
    m.close();
    assert!(!m.is_open);

    let mut d = ThemeDialogState::new();
    d.open("Dark");
    assert_eq!(d.original_theme.as_deref(), Some("Dark"));
    let red = [(255, 0, 0, 255); 4];
    let blue = [(0, 0, 255, 255); 4];
    d.cache_theme_colors("Mine", red);
    d.cache_theme_colors("Other", blue);
    d.cache_theme_colors("Mine", blue);
    assert_eq!(d.custom_theme_colors.len(), 2);
    assert_eq!(d.theme_colors("Mine"), Some(blue));
    assert_eq!(d.theme_colors("None"), None);
    d.close();
    assert!(!d.is_open);
}

#[test]
fn backup_manager_flow() {
    let mut b = BackupManagerState::new("/db.sqlite".to_string(), Ok(vec![backup("one.db")]));
    assert_eq!(b.backups().len(), 1);
    b.open(Err("denied".to_string()));
    assert!(b.show_dialog);
    assert!(b.error_message().is_none());
    b.refresh_backups(Err("denied".to_string()));
    assert_eq!(b.error_message().map(|s| s.as_str()), Some("Failed to list backups: denied"));
    assert_eq!(
        b.create_backup(Ok("two.db".to_string()), Ok(vec![backup("one.db"), backup("two.db")])),
        Ok(())
    );
    assert_eq!(b.success_message().map(|s| s.as_str()), Some("Backup created successfully: two.db"));
    assert_eq!(b.backups().len(), 2);
    assert_eq!(b.restore_backup(5, Ok(())), Err("Invalid backup index".to_string()));
    b.set_confirm_restore(Some(1));
    assert_eq!(b.restore_backup(1, Ok(())), Ok(()));
    assert_eq!(b.confirm_restore_index(), None);
    assert_eq!(
        b.success_message().map(|s| s.as_str()),
        Some("Database restored from backup: two.db")
    );
    assert_eq!(b.delete_backup(0, Err("busy".to_string()), Ok(vec![])), Err("busy".to_string()));
    assert_eq!(b.delete_backup(0, Ok(()), Ok(vec![backup("two.db")])), Ok(()));
    assert_eq!(b.success_message().map(|s| s.as_str()), Some("Backup deleted: one.db"));
    assert_eq!(b.backups().len(), 1);
    b.close();
    assert!(!b.show_dialog && b.success_message().is_none());
}

#[test]
fn search_dialog_starts_empty() {
    let s = SearchDialogState::default();
    assert!(s.query.is_empty() && s.results.is_empty() && s.selected_event.is_none());
}
