//! Verified core of a desktop calendar: calendar dates, recurrence rules,
//! undo/redo history, notifications and confirmations, view navigation,
//! keyboard shortcuts, the background sync schedule, and the state machines
//! of the editing dialogs.

pub mod calendar_date;
pub mod text;
pub mod recurrence;
pub mod commands;
pub mod toast;
pub mod countdown;
pub mod container;
pub mod confirm;
pub mod views;
pub mod status_text;
pub mod colors;
pub mod dialogs;
pub mod context;
pub mod event_dialog;
pub mod drag;
pub mod sync_schedule;
pub mod shortcuts;
pub mod imports;
