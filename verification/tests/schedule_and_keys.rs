use rust_calendar::shortcuts::{
    shortcut_actions, OpenDialogs, ShortcutAction, ShortcutKeys, ShortcutModifiers,
};
use rust_calendar::sync_schedule::{
    SourceSyncCounts, SyncScheduleState, SyncStatusTone, SyncTickSummary, WorkerPoll,
};
use rust_calendar::views::{NavDirection, ViewType};

fn no_keys() -> ShortcutKeys {
    ShortcutKeys {
        escape: false, n: false, f: false, t: false, s: false, b: false, z: false, y: false,
        backslash: false, d: false, w: false, k: false, m: false, left: false, right: false,
        up: false, down: false,
    }
}

fn closed() -> OpenDialogs {
    OpenDialogs {
        event_dialog: false, settings: false, search: false, theme: false, date_picker: false,
        template_manager: false, export_range: false,
    }
}

const NONE: ShortcutModifiers = ShortcutModifiers { ctrl: false, shift: false };
const CTRL: ShortcutModifiers = ShortcutModifiers { ctrl: true, shift: false };

#[test]
fn escape_closes_the_first_open_dialog() {
    let keys = ShortcutKeys { escape: true, ..no_keys() };
    let d = OpenDialogs { settings: true, theme: true, ..closed() };
    assert_eq!(shortcut_actions(keys, NONE, false, d), vec![ShortcutAction::CloseSettings]);
    assert_eq!(shortcut_actions(keys, NONE, true, closed()), vec![]);
}

#[test]
fn typing_blocks_everything_but_escape() {
    let keys = ShortcutKeys { d: true, n: true, escape: true, ..no_keys() };
    let d = OpenDialogs { search: true, ..closed() };
    assert_eq!(shortcut_actions(keys, CTRL, true, d), vec![ShortcutAction::CloseSearch]);
}

#[test]
fn view_keys_and_arrows() {
    let keys = ShortcutKeys { d: true, left: true, ..no_keys() };
    assert_eq!(
        shortcut_actions(keys, NONE, false, closed()),
        vec![
            ShortcutAction::SetView(ViewType::Day),
            ShortcutAction::FocusCurrentTime,
            ShortcutAction::Navigate(NavDirection::Previous)
        ]
    );
    let keys = ShortcutKeys { m: true, ..no_keys() };
    assert_eq!(shortcut_actions(keys, CTRL, false, closed()), vec![]);
    let d = OpenDialogs { export_range: true, ..closed() };
    assert_eq!(shortcut_actions(ShortcutKeys { right: true, ..no_keys() }, NONE, false, d), vec![]);
}

#[test]
fn ctrl_shortcuts() {
    let keys = ShortcutKeys { n: true, d: true, ..no_keys() };
    assert_eq!(shortcut_actions(keys, CTRL, false, closed()), vec![ShortcutAction::NewEvent]);
    let keys = ShortcutKeys { z: true, ..no_keys() };
    assert_eq!(shortcut_actions(keys, CTRL, false, closed()), vec![ShortcutAction::Undo]);
    let shift = ShortcutModifiers { ctrl: true, shift: true };
    assert_eq!(shortcut_actions(keys, shift, false, closed()), vec![ShortcutAction::Redo]);
    let keys = ShortcutKeys { y: true, t: true, b: true, backslash: true, ..no_keys() };
    assert_eq!(
        shortcut_actions(keys, CTRL, false, closed()),
        vec![
            ShortcutAction::JumpToToday,
            ShortcutAction::CreateBackup,
            ShortcutAction::Redo,
            ShortcutAction::ToggleSidebar
        ]
    );
    let keys = ShortcutKeys { f: true, s: true, ..no_keys() };
    let d = OpenDialogs { search: true, ..closed() };
    assert_eq!(shortcut_actions(keys, CTRL, false, d), vec![ShortcutAction::OpenSettings]);
}

#[test]
fn schedule_starts_a_worker_when_due() {
    let mut s = SyncScheduleState::new();
    assert_eq!(s.status_line(), "↻ Calendar sync idle");
    assert_eq!(s.status_tone(), SyncStatusTone::Neutral);
    let step = s.step(1000, None);
    assert!(step.start_worker);
    assert!(s.in_progress);
    assert_eq!(step.repaint_after_ms, 500);
    assert_eq!(s.status_line(), "↻ Calendar sync running…");
    let step = s.step(1500, Some(WorkerPoll::StillRunning));
    assert!(!step.start_worker && !step.release_worker);
    let tick = SyncTickSummary {
        next_due_in_ms: Some(300_000),
        successful: vec![
            SourceSyncCounts { created: 2, updated: 1, deleted: 0 },
            SourceSyncCounts { created: 1, updated: 0, deleted: 3 },
        ],
        failed_count: 0,
    };
    let step = s.step(2000, Some(WorkerPoll::Done(Ok(tick))));
    assert!(step.release_worker && step.repaint_now);
    assert_eq!(step.repaint_after_ms, 1000);
    assert!(!s.in_progress);
    assert_eq!(s.poll_due_at_ms, Some(302_000));
    assert_eq!(s.status_line(), "✓ Calendar sync: 2 source(s) (+3 ~1 -3) · next 05:00");
    assert_eq!(s.status_tone(), SyncStatusTone::Info);
    let step = s.step(242_000, None);
    assert!(!step.start_worker);
    assert_eq!(s.next_due_in_ms, Some(60_000));
    assert_eq!(s.status_line(), "✓ Calendar sync: 2 source(s) (+3 ~1 -3) · next 01:00");
    assert!(s.step(302_000, None).start_worker);
}

#[test]
fn schedule_reports_failures() {
    let mut s = SyncScheduleState::new();
    s.step(0, None);
    let tick = SyncTickSummary { next_due_in_ms: None, successful: vec![], failed_count: 2 };
    s.step(10, Some(WorkerPoll::Done(Ok(tick))));
    assert_eq!(s.status_tone(), SyncStatusTone::Error);
    assert_eq!(s.status_line(), "⚠ Calendar sync: 0 succeeded, 2 failed · next 01:00");
    s.step(60_010, None);
    s.step(60_020, Some(WorkerPoll::Done(Err("boom".to_string()))));
    assert_eq!(s.status_message.as_deref(), Some("⚠ Calendar sync scheduler error"));
    assert_eq!(s.poll_due_at_ms, Some(120_020));
    s.step(120_020, None);
    let step = s.step(120_030, Some(WorkerPoll::Disconnected));
    assert!(step.release_worker);
    assert_eq!(step.repaint_after_ms, 60_000);
    assert_eq!(s.status_message.as_deref(), Some("⚠ Calendar sync scheduler worker disconnected"));
}
