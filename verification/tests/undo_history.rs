use chrono::{Datelike, Local, Timelike};
use rust_calendar::calendar_date::{CalDate, TimeOfDay};
use rust_calendar::commands::{
    Command, CreateEventCommand, DeleteEventCommand, Event, EventCommand, LocalDateTime,
    StoreAction, UndoManager, UpdateEventCommand,
};

fn local(dt: chrono::DateTime<Local>) -> LocalDateTime {
    LocalDateTime {
        date: CalDate { year: dt.year(), month: dt.month(), day: dt.day() },
        time: TimeOfDay { hour: dt.hour(), minute: dt.minute(), second: dt.second() },
    }
}

fn create_test_event(title: &str) -> Event {
    let now = Local::now();
    Event {
        id: Some(1),
        title: title.to_string(),
        description: None,
        location: None,
        start: local(now),
        end: local(now + chrono::Duration::hours(1)),
        all_day: false,
        category: None,
        color: None,
        recurrence_rule: None,
        recurrence_exceptions: None,
        created_at: None,
        updated_at: None,
    }
}

#[test]
fn test_create_event_command_description() {
    let event = create_test_event("Team Meeting");
    let cmd = CreateEventCommand::new(event);
    assert_eq!(cmd.description(), "Create event \"Team Meeting\"");
}

#[test]
fn test_update_event_command_description() {
    let old = create_test_event("Old Title");
    let new = create_test_event("New Title");
    let cmd = UpdateEventCommand::new(old, new);
    assert_eq!(cmd.description(), "Update event \"New Title\"");
}

#[test]
fn test_delete_event_command_description() {
    let event = create_test_event("Meeting to Delete");
    let cmd = DeleteEventCommand::new(event);
    assert_eq!(cmd.description(), "Delete event \"Meeting to Delete\"");
}

#[test]
fn test_undo_manager_can_undo_redo() {
    let mut manager = UndoManager::new();
    assert!(!manager.can_undo());
    assert!(!manager.can_redo());

    let event = create_test_event("Test");
    let cmd = EventCommand::Create(CreateEventCommand::new(event));
    manager.push(cmd);

    assert!(manager.can_undo());
    assert!(!manager.can_redo());
}

#[test]
fn test_undo_manager_max_history() {
    let mut manager = UndoManager::new();
    manager.max_history = 5;

    for i in 0..10 {
        let event = create_test_event(&format!("Event {}", i));
        let cmd = EventCommand::Create(CreateEventCommand::new(event));
        manager.push(cmd);
    }

    assert_eq!(manager.undo_stack.len(), 5);
}

#[test]
fn test_undo_manager_redo_cleared_on_new_command() {
    let mut manager = UndoManager::new();

    let event1 = create_test_event("Event 1");
    manager.push(EventCommand::Create(CreateEventCommand::new(event1)));

    if let Some(cmd) = manager.undo_stack.pop() {
        manager.redo_stack.push(cmd);
    }
    assert!(manager.can_redo());

    let event2 = create_test_event("Event 2");
    manager.push(EventCommand::Create(CreateEventCommand::new(event2)));

    assert!(!manager.can_redo());
}

#[test]
fn history_keeps_the_newest_commands() {
    let mut manager = UndoManager::new();
    manager.max_history = 3;
    for i in 0..6 {
        manager.push(EventCommand::Update(UpdateEventCommand::new(
            create_test_event("old"),
            create_test_event(&format!("E{}", i)),
        )));
    }
    let titles: Vec<String> = manager.undo_stack.iter().map(|c| c.description()).collect();
    assert_eq!(
        titles,
        vec![
            "Update event \"E3\"".to_string(),
            "Update event \"E4\"".to_string(),
            "Update event \"E5\"".to_string()
        ]
    );
}

#[test]
fn undo_then_redo_moves_the_command_back_with_the_new_id() {
    let mut manager = UndoManager::new();
    manager.push(EventCommand::Create(CreateEventCommand::new(create_test_event("Lunch"))));

    match manager.undo_request() {
        Some(StoreAction::DeleteEvent(id)) => assert_eq!(id, 1),
        other => panic!("unexpected request {:?}", other),
    }
    assert_eq!(manager.undo(Ok(None)), Ok(Some("Create event \"Lunch\"".to_string())));
    assert!(!manager.can_undo());
    assert_eq!(manager.redo_description(), Some("Create event \"Lunch\"".to_string()));

    match manager.redo_request() {
        Some(StoreAction::CreateEvent(e)) => {
            assert_eq!(e.id, None);
            assert_eq!(e.title, "Lunch");
        }
        other => panic!("unexpected request {:?}", other),
    }
    assert_eq!(manager.redo(Ok(Some(42))), Ok(Some("Create event \"Lunch\"".to_string())));
    assert!(!manager.can_redo());
    match manager.undo_request() {
        Some(StoreAction::DeleteEvent(id)) => assert_eq!(id, 42),
        other => panic!("unexpected request {:?}", other),
    }
}

#[test]
fn failed_undo_reports_the_error_and_drops_the_command() {
    let mut manager = UndoManager::new();
    manager.push(EventCommand::Delete(DeleteEventCommand::new(create_test_event("Gym"))));
    assert_eq!(manager.undo(Err("disk full".to_string())), Err("disk full".to_string()));
    assert!(!manager.can_undo());
    assert!(!manager.can_redo());
}

#[test]
fn undo_and_redo_on_empty_history_do_nothing() {
    let mut manager = UndoManager::new();
    assert_eq!(manager.undo(Ok(None)), Ok(None));
    assert_eq!(manager.redo(Ok(None)), Ok(None));
    assert!(manager.undo_request().is_none());
    assert!(manager.undo_description().is_none());
}

#[test]
fn deleted_event_recreated_on_undo_gets_the_new_id() {
    let mut manager = UndoManager::new();
    manager.push(EventCommand::Delete(DeleteEventCommand::new(create_test_event("Call"))));
    match manager.undo_request() {
        Some(StoreAction::CreateEvent(e)) => assert_eq!(e.id, None),
        other => panic!("unexpected request {:?}", other),
    }
    manager.undo(Ok(Some(9))).unwrap();
    match manager.redo_request() {
        Some(StoreAction::DeleteEvent(id)) => assert_eq!(id, 9),
        other => panic!("unexpected request {:?}", other),
    }
    manager.clear();
    assert!(!manager.can_undo() && !manager.can_redo());
}

#[test]
fn update_command_writes_back_the_old_version_on_undo() {
    let cmd = UpdateEventCommand::new(create_test_event("Before"), create_test_event("After"));
    match cmd.undo_action() {
        StoreAction::UpdateEvent(e) => assert_eq!(e.title, "Before"),
        other => panic!("unexpected request {:?}", other),
    }
    match cmd.execute_action() {
        StoreAction::UpdateEvent(e) => assert_eq!(e.title, "After"),
        other => panic!("unexpected request {:?}", other),
    }
}
