//! Confirmation of destructive actions (deleting events, cards and themes,
//! discarding unsaved changes).

use vstd::prelude::*;
use vstd::string::*;
use crate::calendar_date::CalDate;
use crate::commands::LocalDateTime;
use crate::countdown::CountdownCardId;
use crate::recurrence::{two_digits, year_bytes};
use crate::text::ascii_chars;

verus! {

/// An action that waits for the user's confirmation.
#[derive(Debug)]
pub enum ConfirmAction {
    /// Delete an event by id.
    DeleteEvent { event_id: i64, event_title: String },
    /// Delete one occurrence of a recurring event.
    DeleteEventOccurrence { event_id: i64, event_title: String, occurrence_date: LocalDateTime },
    /// Delete a countdown card by id.
    DeleteCountdownCard { card_id: CountdownCardId, card_title: String },
    /// Discard unsaved changes in a dialog.
    DiscardChanges,
    /// Delete a custom theme.
    DeleteTheme { theme_name: String },
}

/// English month names, as `%B` writes them.
pub open spec fn month_name(m: int) -> Seq<char> {
    if m == 1 {
        "January"@
    } else if m == 2 {
        "February"@
    } else if m == 3 {
        "March"@
    } else if m == 4 {
        "April"@
    } else if m == 5 {
        "May"@
    } else if m == 6 {
        "June"@
    } else if m == 7 {
        "July"@
    } else if m == 8 {
        "August"@
    } else if m == 9 {
        "September"@
    } else if m == 10 {
        "October"@
    } else if m == 11 {
        "November"@
    } else {
        "December"@
    }
}

/// `%B %d, %Y` of a date, such as "March 05, 2024".
pub open spec fn long_date(d: CalDate) -> Seq<char> {
    month_name(d.month as int) + " "@ + ascii_chars(two_digits(d.day as int)) + ", "@ + ascii_chars(
        year_bytes(d.year as int),
    )
}

/// Writes a date as `%B %d, %Y` through `chrono`'s formatter.
///
/// Trusted: `chrono` writes the English month name, the day as two
/// zero-padded digits, a comma, and the year as `%Y` does.
#[verifier::external_body]
fn format_long_date(d: CalDate) -> (r: String)
    requires
        d.wf(),
    ensures
        r@ == long_date(d),
{
    chrono::NaiveDate::from_ymd_opt(d.year, d.month, d.day).unwrap().format("%B %d, %Y").to_string()
}

fn concat3(a: &str, b: &str, c: &str) -> (r: String)
    ensures
        r@ == a@ + b@ + c@,
{
    let mut s = String::from_str(a);
    s.append(b);
    s.append(c);
    s
}

impl ConfirmAction {
    /// Every date the action holds is a real calendar date.
    pub open spec fn wf(&self) -> bool {
        match self {
            ConfirmAction::DeleteEventOccurrence { occurrence_date, .. } => occurrence_date.date.wf(),
            _ => true,
        }
    }

    pub open spec fn spec_title(&self) -> Seq<char> {
        match self {
            ConfirmAction::DeleteEvent { .. } => "Delete Event"@,
            ConfirmAction::DeleteEventOccurrence { .. } => "Delete Occurrence"@,
            ConfirmAction::DeleteCountdownCard { .. } => "Delete Countdown"@,
            ConfirmAction::DiscardChanges => "Discard Changes"@,
            ConfirmAction::DeleteTheme { .. } => "Delete Theme"@,
        }
    }

    /// The dialog's title.
    pub fn title(&self) -> (r: &'static str)
        ensures
            r@ == self.spec_title(),
    {
        match self {
            ConfirmAction::DeleteEvent { .. } => "Delete Event",
            ConfirmAction::DeleteEventOccurrence { .. } => "Delete Occurrence",
            ConfirmAction::DeleteCountdownCard { .. } => "Delete Countdown",
            ConfirmAction::DiscardChanges => "Discard Changes",
            ConfirmAction::DeleteTheme { .. } => "Delete Theme",
        }
    }

    pub open spec fn spec_message(&self) -> Seq<char> {
        match self {
            ConfirmAction::DeleteEvent { event_title, .. } => "Are you sure you want to delete \""@
                + event_title@ + "\"?\n\nThis action cannot be undone."@,
            ConfirmAction::DeleteEventOccurrence { event_title, occurrence_date, .. } =>
                "Are you sure you want to delete this occurrence of \""@ + event_title@ + "\" on "@
                + long_date(occurrence_date.date) + "?\n\nOther occurrences will not be affected."@,
            ConfirmAction::DeleteCountdownCard { card_title, .. } =>
                "Are you sure you want to delete the countdown \""@ + card_title@
                + "\"?\n\nThis action cannot be undone."@,
            ConfirmAction::DiscardChanges =>
                "You have unsaved changes.\n\nAre you sure you want to discard them?"@,
            ConfirmAction::DeleteTheme { theme_name } => "Are you sure you want to delete the theme \""@
                + theme_name@ + "\"?\n\nThis action cannot be undone."@,
        }
    }

    /// The question the dialog asks.
    pub fn message(&self) -> (r: String)
        requires
            self.wf(),
        ensures
            r@ == self.spec_message(),
    {
        match self {
            ConfirmAction::DeleteEvent { event_title, .. } => concat3(
                "Are you sure you want to delete \"",
                event_title.as_str(),
                "\"?\n\nThis action cannot be undone.",
            ),
            ConfirmAction::DeleteEventOccurrence { event_title, occurrence_date, .. } => {
                let mut s = concat3(
                    "Are you sure you want to delete this occurrence of \"",
                    event_title.as_str(),
                    "\" on ",
                );
                let date = format_long_date(occurrence_date.date);
                s.append(date.as_str());
                s.append("?\n\nOther occurrences will not be affected.");
                s
            },
            ConfirmAction::DeleteCountdownCard { card_title, .. } => concat3(
                "Are you sure you want to delete the countdown \"",
                card_title.as_str(),
                "\"?\n\nThis action cannot be undone.",
            ),
            ConfirmAction::DiscardChanges => String::from_str(
                "You have unsaved changes.\n\nAre you sure you want to discard them?",
            ),
            ConfirmAction::DeleteTheme { theme_name } => concat3(
                "Are you sure you want to delete the theme \"",
                theme_name.as_str(),
                "\"?\n\nThis action cannot be undone.",
            ),
        }
    }

    pub open spec fn spec_confirm_text(&self) -> Seq<char> {
        match self {
            ConfirmAction::DiscardChanges => "Discard"@,
            _ => "Delete"@,
        }
    }

    /// The label of the confirm button.
    pub fn confirm_text(&self) -> (r: &'static str)
        ensures
            r@ == self.spec_confirm_text(),
    {
        match self {
            ConfirmAction::DeleteEvent { .. } => "Delete",
            ConfirmAction::DeleteEventOccurrence { .. } => "Delete",
            ConfirmAction::DeleteCountdownCard { .. } => "Delete",
            ConfirmAction::DiscardChanges => "Discard",
            ConfirmAction::DeleteTheme { .. } => "Delete",
        }
    }

    /// Whether the action destroys data (its button is shown in red).
    pub fn is_destructive(&self) -> (r: bool)
        ensures
            r == !(self is DiscardChanges),
    {
        match self {
            ConfirmAction::DeleteEvent { .. } => true,
            ConfirmAction::DeleteEventOccurrence { .. } => true,
            ConfirmAction::DeleteCountdownCard { .. } => true,
            ConfirmAction::DiscardChanges => false,
            ConfirmAction::DeleteTheme { .. } => true,
        }
    }
}

/// What the user answered.
#[derive(Debug, Clone, Copy, PartialEq, Eq, Structural)]
pub enum ConfirmResult {
    Confirmed,
    Cancelled,
    /// The dialog is still open.
    Pending,
}

/// The confirmation dialog: at most one action waits.
#[derive(Debug)]
pub struct ConfirmDialogState {
    pending_action: Option<ConfirmAction>,
}

impl View for ConfirmDialogState {
    type V = Option<ConfirmAction>;

    closed spec fn view(&self) -> Option<ConfirmAction> {
        self.pending_action
    }
}

impl ConfirmDialogState {
    pub fn new() -> (r: Self)
        ensures
            r@ is None,
    {
        ConfirmDialogState { pending_action: None }
    }

    /// Asks for confirmation of `action`, replacing any waiting one.
    pub fn request(&mut self, action: ConfirmAction)
        ensures
            final(self)@ == Some(action),
    {
        self.pending_action = Some(action);
    }

    pub fn is_open(&self) -> (r: bool)
        ensures
            r == self@ is Some,
    {
        self.pending_action.is_some()
    }

    pub fn pending_action(&self) -> (r: Option<&ConfirmAction>)
        ensures
            r matches Some(a) ==> self@ == Some(*a),
            r is None <==> self@ is None,
    {
        match &self.pending_action {
            Some(a) => Some(a),
            None => None,
        }
    }

    /// Closes the dialog without confirming.
    pub fn cancel(&mut self)
        ensures
            final(self)@ is None,
    {
        self.pending_action = None;
    }

    /// What a frame of the dialog answers, given the user's response in
    /// that frame: `Pending` when nothing waits; otherwise the response,
    /// and the dialog closes once the user has answered either way.
    pub fn answer(&mut self, response: ConfirmResult) -> (r: ConfirmResult)
        ensures
            old(self)@ is None ==> r == ConfirmResult::Pending && final(self)@ is None,
            old(self)@ is Some ==> r == response,
            old(self)@ is Some ==> (final(self)@ is None <==> response != ConfirmResult::Pending),
            old(self)@ is Some && response == ConfirmResult::Pending ==> final(self)@ == old(self)@,
    {
        if self.pending_action.is_none() {
            return ConfirmResult::Pending;
        }
        match response {
            ConfirmResult::Pending => {},
            _ => {
                self.pending_action = None;
            },
        }
        response
    }

    /// Takes the waiting action out, closing the dialog.
    pub fn take_action(&mut self) -> (r: Option<ConfirmAction>)
        ensures
            r == old(self)@,
            final(self)@ is None,
    {
        self.pending_action.take()
    }
}

} // verus!
