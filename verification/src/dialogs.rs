//! State of the editing dialogs: what each holds, what opening, closing and
//! the edit buttons do to it, and how the outcome of the store operations
//! they request is reflected back.

pub mod category_manager;
pub mod countdown_category_manager;
pub mod template_manager;
pub mod theme;
pub mod backup_manager;
pub mod search;
pub mod export;
pub mod countdown_template_manager;
