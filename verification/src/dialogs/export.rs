//! The export dialog: the date range of the events to export.

use chrono::Datelike;
use vstd::prelude::*;
use vstd::string::*;
use crate::calendar_date::{
    add_days, mk_date, month_length, month_shift_defined, shift_month_preserving_day,
    spec_add_days, CalDate, MAX_YEAR,
};

verus! {

/// What the export dialog answers.
#[derive(Debug, Clone, Copy, PartialEq, Eq, Structural)]
pub enum ExportDialogResult {
    /// No choice yet.
    NoAction,
    Cancelled,
    /// Export the events from `start` to `end`, both included.
    Export { start: CalDate, end: CalDate },
}

/// Which of the two date pickers is open.
#[derive(Debug, Clone, Copy, PartialEq, Eq, Structural)]
pub enum ActiveDatePicker {
    Start,
    End,
}

/// State of the export dialog.
#[derive(Debug, Clone, Copy, PartialEq, Eq, Structural)]
pub struct ExportDialogState {
    pub start_date: CalDate,
    pub end_date: CalDate,
    pub active_picker: Option<ActiveDatePicker>,
    /// The month the open picker shows.
    pub viewing_date: CalDate,
}

/// The month of `today` can be handed out as a range: it and the month
/// after it are representable.
pub open spec fn month_range_defined(today: CalDate) -> bool {
    today.wf() && month_shift_defined(mk_date(today.year as int, today.month as int, 1), 1)
}

/// First and last day of the month of `today`.
pub open spec fn month_range(today: CalDate) -> (CalDate, CalDate) {
    (
        mk_date(today.year as int, today.month as int, 1),
        mk_date(today.year as int, today.month as int, month_length(today.year as int, today.month as int)),
    )
}

/// The first and last day of the month of `today`, computed as the first
/// of the month plus one month minus one day.
pub fn this_month_range(today: CalDate) -> (r: (CalDate, CalDate))
    requires
        month_range_defined(today),
    ensures
        r == month_range(today),
        r.0.wf(),
        r.1.wf(),
{
    let start = CalDate { year: today.year, month: today.month, day: 1 };
    let next = shift_month_preserving_day(start, 1);
    proof {
        assert(spec_add_days(next, -1) == match crate::calendar_date::spec_pred(next) {
            Some(e) => spec_add_days(e, 0),
            None => None,
        });
    }
    match add_days(next, -1) {
        Some(end) => (start, end),
        None => (start, start),
    }
}

/// Today's date by the local clock, through `Local::now().date_naive()`.
/// Nothing is stated of the date but that it is a real one.
#[verifier::external_body]
fn local_today() -> (r: CalDate)
    ensures
        r.wf(),
{
    let d = chrono::Local::now().date_naive();
    CalDate { year: d.year(), month: d.month(), day: d.day() }
}

impl ExportDialogState {
    pub open spec fn picker(&self) -> Option<ActiveDatePicker> {
        self.active_picker
    }

    pub open spec fn viewing(&self) -> CalDate {
        self.viewing_date
    }

    /// The dialog as it opens on `today`: the whole month, no picker open.
    pub fn for_today(today: CalDate) -> (r: Self)
        requires
            month_range_defined(today),
        ensures
            (r.start_date, r.end_date) == month_range(today),
            r.picker() is None,
            r.viewing() == today,
    {
        let (start, end) = this_month_range(today);
        ExportDialogState { start_date: start, end_date: end, active_picker: None, viewing_date: today }
    }

    /// The dialog as it opens today, by the local clock: the month of
    /// that day.
    pub fn new() -> (r: Self)
        ensures
            r.picker() is None,
            exists|t: CalDate| t.wf() && #[trigger] month_range(t) == (r.start_date, r.end_date)
                && r.viewing() == t,
    {
        let today = local_today();
        if today.year == MAX_YEAR && today.month >= 11 {
            let start = CalDate { year: today.year, month: today.month, day: 1 };
            let end = CalDate { year: today.year, month: today.month, day: if today.month == 11 { 30 } else { 31 } };
            let r = ExportDialogState { start_date: start, end_date: end, active_picker: None, viewing_date: today };
            assert(month_range(today) == (r.start_date, r.end_date));
            return r;
        }
        let r = Self::for_today(today);
        assert(month_range(today) == (r.start_date, r.end_date));
        r
    }

    /// Back to the state the dialog opens in.
    pub fn reset(&mut self)
        ensures
            final(self).picker() is None,
            exists|t: CalDate| t.wf() && #[trigger] month_range(t) == (final(self).start_date, final(self).end_date)
                && final(self).viewing() == t,
    {
        *self = Self::new();
    }

    /// Which picker is open.
    pub fn active_picker(&self) -> (r: Option<ActiveDatePicker>)
        ensures
            r == self.picker(),
    {
        self.active_picker
    }

    /// The month the open picker shows.
    pub fn viewing_date(&self) -> (r: CalDate)
        ensures
            r == self.viewing(),
    {
        self.viewing_date
    }

    /// Moves the open picker to another month.
    pub fn set_viewing_date(&mut self, date: CalDate)
        ensures
            final(self).viewing() == date,
            final(self).picker() == old(self).picker(),
            final(self).start_date == old(self).start_date,
            final(self).end_date == old(self).end_date,
    {
        self.viewing_date = date;
    }

    /// The start date button: closes the start picker when it is open,
    /// otherwise opens it on the start date.
    pub fn toggle_start_picker(&mut self)
        ensures
            old(self).picker() == Some(ActiveDatePicker::Start) ==> final(self).picker() is None
                && final(self).viewing() == old(self).viewing(),
            old(self).picker() != Some(ActiveDatePicker::Start) ==> final(self).picker() == Some(
                ActiveDatePicker::Start,
            ) && final(self).viewing() == old(self).start_date,
            final(self).start_date == old(self).start_date,
            final(self).end_date == old(self).end_date,
    {
        if self.active_picker == Some(ActiveDatePicker::Start) {
            self.active_picker = None;
        } else {
            self.active_picker = Some(ActiveDatePicker::Start);
            self.viewing_date = self.start_date;
        }
    }

    /// The end date button: closes the end picker when it is open,
    /// otherwise opens it on the end date.
    pub fn toggle_end_picker(&mut self)
        ensures
            old(self).picker() == Some(ActiveDatePicker::End) ==> final(self).picker() is None
                && final(self).viewing() == old(self).viewing(),
            old(self).picker() != Some(ActiveDatePicker::End) ==> final(self).picker() == Some(
                ActiveDatePicker::End,
            ) && final(self).viewing() == old(self).end_date,
            final(self).start_date == old(self).start_date,
            final(self).end_date == old(self).end_date,
    {
        if self.active_picker == Some(ActiveDatePicker::End) {
            self.active_picker = None;
        } else {
            self.active_picker = Some(ActiveDatePicker::End);
            self.viewing_date = self.end_date;
        }
    }

    /// Closes whichever picker is open.
    pub fn close_picker(&mut self)
        ensures
            final(self).picker() is None,
            final(self).start_date == old(self).start_date,
            final(self).end_date == old(self).end_date,
            final(self).viewing() == old(self).viewing(),
    {
        self.active_picker = None;
    }

    /// A start date was picked: the end moves up to it when it was earlier.
    pub fn select_start(&mut self, date: CalDate)
        ensures
            final(self).start_date == date,
            final(self).end_date == if old(self).end_date.before(date) {
                date
            } else {
                old(self).end_date
            },
            !final(self).end_date.before(final(self).start_date),
            final(self).picker() is None,
            final(self).viewing() == old(self).viewing(),
    {
        self.start_date = date;
        if self.end_date.is_before(&self.start_date) {
            self.end_date = self.start_date;
        }
        self.active_picker = None;
    }

    /// An end date was picked.
    pub fn select_end(&mut self, date: CalDate)
        ensures
            final(self).end_date == date,
            final(self).start_date == old(self).start_date,
            final(self).picker() is None,
            final(self).viewing() == old(self).viewing(),
    {
        self.end_date = date;
        self.active_picker = None;
    }

    /// "This Month": the month of `today`.
    pub fn select_this_month(&mut self, today: CalDate)
        requires
            month_range_defined(today),
        ensures
            (final(self).start_date, final(self).end_date) == month_range(today),
            final(self).picker() is None,
            final(self).viewing() == old(self).viewing(),
    {
        let (start, end) = this_month_range(today);
        self.start_date = start;
        self.end_date = end;
        self.active_picker = None;
    }

    /// "This Year": January 1 to December 31 of `today`'s year.
    pub fn select_this_year(&mut self, today: CalDate)
        requires
            today.wf(),
        ensures
            final(self).start_date == mk_date(today.year as int, 1, 1),
            final(self).end_date == mk_date(today.year as int, 12, 31),
            final(self).picker() is None,
            final(self).viewing() == old(self).viewing(),
    {
        let start = match CalDate::from_ymd_opt(today.year, 1, 1) {
            Some(d) => d,
            None => today,
        };
        let end = match CalDate::from_ymd_opt(today.year, 12, 31) {
            Some(d) => d,
            None => today,
        };
        self.start_date = start;
        self.end_date = end;
        self.active_picker = None;
    }

    /// "Last 30 Days": thirty days before `today`, to `today`.
    pub fn select_last_30_days(&mut self, today: CalDate)
        requires
            today.wf(),
            spec_add_days(today, -30) is Some,
        ensures
            Some(final(self).start_date) == spec_add_days(today, -30),
            final(self).end_date == today,
            final(self).picker() is None,
            final(self).viewing() == old(self).viewing(),
    {
        let start = match add_days(today, -30) {
            Some(d) => d,
            None => today,
        };
        self.start_date = start;
        self.end_date = today;
        self.active_picker = None;
    }

    /// The complaint shown under the range, if any.
    pub fn validation_error(&self) -> (r: Option<&'static str>)
        ensures
            self.end_date.before(self.start_date) ==> r is Some && r->Some_0@
                == "End date must be after start date"@,
            !self.end_date.before(self.start_date) ==> r is None,
    {
        if self.end_date.is_before(&self.start_date) {
            Some("End date must be after start date")
        } else {
            None
        }
    }
}

} // verus!
