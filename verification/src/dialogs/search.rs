//! The event search dialog.

use vstd::prelude::*;
use crate::calendar_date::CalDate;
use crate::commands::Event;

verus! {

/// State of the search dialog.
#[derive(Debug)]
pub struct SearchDialogState {
    pub query: String,
    pub results: Vec<Event>,
    pub selected_event: Option<i64>,
}

impl Default for SearchDialogState {
    fn default() -> (r: Self)
        ensures
            r.query@ == Seq::<char>::empty(),
            r.results@ == Seq::<Event>::empty(),
            r.selected_event is None,
    {
        SearchDialogState { query: String::new(), results: Vec::new(), selected_event: None }
    }
}

/// What the search dialog asks for.
#[derive(Debug, Clone, Copy, PartialEq, Eq, Structural)]
pub enum SearchDialogAction {
    /// Nothing was asked for.
    NoAction,
    /// Show the day of a found event.
    NavigateToDate(CalDate),
    /// Open a found event for editing.
    EditEvent(i64),
    Close,
}

} // verus!
