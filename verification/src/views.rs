//! Calendar views and keyboard/menu navigation between periods, the date
//! picker popup, and the short duration texts of the status bar.

use vstd::prelude::*;
use vstd::string::*;
use crate::calendar_date::{
    is_valid_ymd, mk_date, shift_month, spec_shift_month, add_days, shift_month_preserving_day, spec_add_days, spec_pred, spec_succ,
    spec_shift_month_preserving_day, month_shift_defined, weekday_from_sunday, weekday_index,
    CalDate,
};
use crate::dialogs::export::{month_range, month_range_defined, this_month_range};
use crate::status_text::{trunc_div, trunc_rem};
use crate::text::{ascii_chars, decimal_bytes, same_chars, push_decimal};

verus! {

/// The calendar view shown in the main panel.
#[derive(Debug, Clone, Copy, PartialEq, Eq, Structural)]
pub enum ViewType {
    Day,
    Week,
    WorkWeek,
    Month,
}

pub open spec fn spec_parse_view_type(s: Seq<char>) -> ViewType {
    if s == "Day"@ {
        ViewType::Day
    } else if s == "Week"@ {
        ViewType::Week
    } else if s == "WorkWeek"@ {
        ViewType::WorkWeek
    } else {
        ViewType::Month
    }
}

/// The view named by a saved setting; anything unknown (including the
/// retired "Quarter") falls back to the month view.
pub fn parse_view_type(view_str: &str) -> (r: ViewType)
    ensures
        r == spec_parse_view_type(view_str@),
{
    if same_chars(view_str, "Day") {
        ViewType::Day
    } else if same_chars(view_str, "Week") {
        ViewType::Week
    } else if same_chars(view_str, "WorkWeek") {
        ViewType::WorkWeek
    } else {
        ViewType::Month
    }
}

/// A navigation key or button.
#[derive(Debug, Clone, Copy, PartialEq, Eq, Structural)]
pub enum NavDirection {
    Previous,
    Next,
    Up,
    Down,
}

/// How many days a step moves in the day and week views.
pub open spec fn nav_days(view: ViewType, dir: NavDirection) -> int {
    match view {
        ViewType::Day => match dir {
            NavDirection::Previous => -1,
            NavDirection::Next => 1,
            NavDirection::Up => -7,
            NavDirection::Down => 7,
        },
        _ => match dir {
            NavDirection::Previous | NavDirection::Up => -7,
            _ => 7,
        },
    }
}

/// How many months a step moves in the month view.
pub open spec fn nav_months(dir: NavDirection) -> int {
    match dir {
        NavDirection::Previous | NavDirection::Up => -1,
        _ => 1,
    }
}

/// The step is defined: the target date is representable.
pub open spec fn nav_defined(view: ViewType, dir: NavDirection, date: CalDate) -> bool {
    match view {
        ViewType::Month => month_shift_defined(date, nav_months(dir)),
        _ => spec_add_days(date, nav_days(view, dir)) is Some,
    }
}

/// The date shown after a navigation step: days in the day and week
/// views, whole months (day clamped to the month's end) in the month view.
pub open spec fn nav_target(view: ViewType, dir: NavDirection, date: CalDate) -> CalDate {
    match view {
        ViewType::Month => spec_shift_month_preserving_day(date, nav_months(dir)),
        _ => spec_add_days(date, nav_days(view, dir))->Some_0,
    }
}

/// The date after one navigation step from `current`.
pub fn navigate(view: ViewType, dir: NavDirection, current: CalDate) -> (r: CalDate)
    requires
        current.wf(),
        nav_defined(view, dir, current),
    ensures
        r == nav_target(view, dir, current),
{
    match view {
        ViewType::Month => {
            let delta: i32 = match dir {
                NavDirection::Previous | NavDirection::Up => -1,
                _ => 1,
            };
            shift_month_preserving_day(current, delta)
        },
        _ => {
            let days: i64 = match view {
                ViewType::Day => match dir {
                    NavDirection::Previous => -1,
                    NavDirection::Next => 1,
                    NavDirection::Up => -7,
                    NavDirection::Down => 7,
                },
                _ => match dir {
                    NavDirection::Previous | NavDirection::Up => -7,
                    _ => 7,
                },
            };
            match add_days(current, days) {
                Some(d) => d,
                None => current,
            }
        },
    }
}

/// One period back.
pub fn navigate_previous(view: ViewType, current: CalDate) -> (r: CalDate)
    requires
        current.wf(),
        nav_defined(view, NavDirection::Previous, current),
    ensures
        r == nav_target(view, NavDirection::Previous, current),
        view == ViewType::Day ==> Some(r) == spec_add_days(current, -1),
        view == ViewType::Week || view == ViewType::WorkWeek ==> Some(r) == spec_add_days(current, -7),
        view == ViewType::Month ==> r == spec_shift_month_preserving_day(current, -1),
{
    navigate(view, NavDirection::Previous, current)
}

/// One period forward.
pub fn navigate_next(view: ViewType, current: CalDate) -> (r: CalDate)
    requires
        current.wf(),
        nav_defined(view, NavDirection::Next, current),
    ensures
        r == nav_target(view, NavDirection::Next, current),
        view == ViewType::Day ==> Some(r) == spec_add_days(current, 1),
        view == ViewType::Week || view == ViewType::WorkWeek ==> Some(r) == spec_add_days(current, 7),
        view == ViewType::Month ==> r == spec_shift_month_preserving_day(current, 1),
{
    navigate(view, NavDirection::Next, current)
}

/// One row up: a week back in the day view, otherwise one period back.
pub fn navigate_up(view: ViewType, current: CalDate) -> (r: CalDate)
    requires
        current.wf(),
        nav_defined(view, NavDirection::Up, current),
    ensures
        r == nav_target(view, NavDirection::Up, current),
        view != ViewType::Month ==> Some(r) == spec_add_days(current, -7),
        view == ViewType::Month ==> r == spec_shift_month_preserving_day(current, -1),
{
    navigate(view, NavDirection::Up, current)
}

/// One row down: a week forward in the day view, otherwise one period forward.
pub fn navigate_down(view: ViewType, current: CalDate) -> (r: CalDate)
    requires
        current.wf(),
        nav_defined(view, NavDirection::Down, current),
    ensures
        r == nav_target(view, NavDirection::Down, current),
        view != ViewType::Month ==> Some(r) == spec_add_days(current, 7),
        view == ViewType::Month ==> r == spec_shift_month_preserving_day(current, 1),
{
    navigate(view, NavDirection::Down, current)
}

proof fn lemma_succ_pred(d: CalDate)
    requires
        d.wf(),
    ensures
        spec_pred(d) matches Some(p) ==> p.wf() && spec_succ(p) == Some(d),
        spec_succ(d) matches Some(n) ==> n.wf() && spec_pred(n) == Some(d),
{
}

/// `n` steps back then `n` steps forward (both defined) is no move.
proof fn lemma_add_days_back_forth(d: CalDate, n: nat)
    requires
        d.wf(),
        spec_add_days(d, -(n as int)) is Some,
    ensures
        spec_add_days(d, -(n as int))->Some_0.wf(),
        spec_add_days(spec_add_days(d, -(n as int))->Some_0, n as int) == Some(d),
    decreases n,
{
    if n > 0 {
        lemma_succ_pred(d);
        let p = spec_pred(d)->Some_0;
        assert(spec_add_days(d, -(n as int)) == spec_add_days(p, -((n - 1) as int)));
        lemma_add_days_back_forth(p, (n - 1) as nat);
        let e = spec_add_days(p, -((n - 1) as int))->Some_0;
        lemma_add_days_split_forward(e, (n - 1) as nat, p);
    }
}

/// Going `k` forward from `e` reaches `p`, then one more step reaches the
/// day after `p`.
proof fn lemma_add_days_split_forward(e: CalDate, k: nat, p: CalDate)
    requires
        e.wf(),
        p.wf(),
        spec_add_days(e, k as int) == Some(p),
        spec_succ(p) is Some,
    ensures
        spec_add_days(e, (k + 1) as int) == spec_succ(p),
    decreases k,
{
    lemma_succ_pred(e);
    if k > 0 {
        assert(spec_succ(e) is Some);
        let e1 = spec_succ(e)->Some_0;
        assert(spec_add_days(e, k as int) == spec_add_days(e1, (k - 1) as int));
        lemma_add_days_split_forward(e1, (k - 1) as nat, p);
        assert(spec_add_days(e, (k + 1) as int) == spec_add_days(e1, k as int));
    } else {
        assert(p == e);
        match spec_succ(e) {
            Some(x) => {
                assert(spec_add_days(x, 0) == Some(x));
            },
            None => {},
        }
    }
}

/// What each navigation step does. In the day view Previous and Next
/// move one day, Up and Down one week. In the week and work-week views
/// every step moves one week: Up agrees with Previous (back) and Down with
/// Next (forward). In the month view Up agrees with Previous (a month
/// back) and Down with Next (a month forward). A step is defined exactly
/// when its target date exists.
pub proof fn lemma_navigation_steps(view: ViewType, d: CalDate)
    ensures
        view == ViewType::Day ==> nav_defined(view, NavDirection::Previous, d) == (spec_add_days(d, -1) is Some)
            && nav_defined(view, NavDirection::Next, d) == (spec_add_days(d, 1) is Some),
        view == ViewType::Day && nav_defined(view, NavDirection::Previous, d) ==> Some(
            nav_target(view, NavDirection::Previous, d),
        ) == spec_add_days(d, -1),
        view == ViewType::Day && nav_defined(view, NavDirection::Next, d) ==> Some(
            nav_target(view, NavDirection::Next, d),
        ) == spec_add_days(d, 1),
        view != ViewType::Month ==> nav_defined(view, NavDirection::Up, d) == (spec_add_days(d, -7) is Some)
            && nav_defined(view, NavDirection::Down, d) == (spec_add_days(d, 7) is Some),
        view != ViewType::Month && nav_defined(view, NavDirection::Up, d) ==> Some(
            nav_target(view, NavDirection::Up, d),
        ) == spec_add_days(d, -7),
        view != ViewType::Month && nav_defined(view, NavDirection::Down, d) ==> Some(
            nav_target(view, NavDirection::Down, d),
        ) == spec_add_days(d, 7),
        view != ViewType::Day ==> nav_target(view, NavDirection::Up, d) == nav_target(
            view,
            NavDirection::Previous,
            d,
        ) && nav_target(view, NavDirection::Down, d) == nav_target(view, NavDirection::Next, d)
            && nav_defined(view, NavDirection::Up, d) == nav_defined(view, NavDirection::Previous, d)
            && nav_defined(view, NavDirection::Down, d) == nav_defined(view, NavDirection::Next, d),
        view == ViewType::Month ==> nav_target(view, NavDirection::Up, d) == spec_shift_month_preserving_day(d, -1)
            && nav_target(view, NavDirection::Down, d) == spec_shift_month_preserving_day(d, 1),
{
}

/// In the day and week views, stepping forward after stepping back (or
/// down after up) returns to the same day.
pub proof fn lemma_back_then_forward(view: ViewType, current: CalDate)
    requires
        view != ViewType::Month,
        current.wf(),
        nav_defined(view, NavDirection::Previous, current),
    ensures
        nav_target(view, NavDirection::Previous, current).wf(),
        nav_defined(view, NavDirection::Next, nav_target(view, NavDirection::Previous, current)),
        nav_target(view, NavDirection::Next, nav_target(view, NavDirection::Previous, current))
            == current,
{
    let n: nat = if view == ViewType::Day { 1 } else { 7 };
    assert(nav_days(view, NavDirection::Previous) == -(n as int));
    assert(nav_days(view, NavDirection::Next) == n as int);
    lemma_add_days_back_forth(current, n);
}

/// In the day view, stepping down after stepping up returns to the same day.
pub proof fn lemma_up_then_down(current: CalDate)
    requires
        current.wf(),
        nav_defined(ViewType::Day, NavDirection::Up, current),
    ensures
        nav_target(ViewType::Day, NavDirection::Up, current).wf(),
        nav_target(ViewType::Day, NavDirection::Down, nav_target(ViewType::Day, NavDirection::Up, current))
            == current,
{
    lemma_add_days_back_forth(current, 7);
}

/// The date picker popup of the navigation bar.
#[derive(Debug, Clone, Copy, PartialEq, Eq, Structural)]
pub struct DatePickerState {
    pub is_open: bool,
    /// The month being looked at (may differ from the selected date).
    pub viewing_date: Option<CalDate>,
}

impl DatePickerState {
    pub fn new() -> (r: Self)
        ensures
            !r.is_open,
            r.viewing_date is None,
    {
        DatePickerState { is_open: false, viewing_date: None }
    }

    pub fn open(&mut self, current_date: CalDate)
        ensures
            final(self).is_open,
            final(self).viewing_date == Some(current_date),
    {
        self.is_open = true;
        self.viewing_date = Some(current_date);
    }

    pub fn close(&mut self)
        ensures
            !final(self).is_open,
            final(self).viewing_date is None,
    {
        self.is_open = false;
        self.viewing_date = None;
    }

    /// The year buttons: the same month and day `delta` years away, when
    /// that day exists (February 29 has no counterpart in most years);
    /// otherwise the picker stays where it is.
    pub fn shift_year(&mut self, viewing: CalDate, delta: i32)
        requires
            viewing.wf(),
            -1 <= delta <= 1,
        ensures
            final(self).is_open == old(self).is_open,
            is_valid_ymd(viewing.year + delta, viewing.month as int, viewing.day as int)
                ==> final(self).viewing_date == Some(
                mk_date(viewing.year + delta, viewing.month as int, viewing.day as int),
            ),
            !is_valid_ymd(viewing.year + delta, viewing.month as int, viewing.day as int)
                ==> final(self).viewing_date == old(self).viewing_date,
    {
        match CalDate::from_ymd_opt(viewing.year + delta, viewing.month, viewing.day) {
            Some(d) => {
                self.viewing_date = Some(d);
            },
            None => {},
        }
    }

    /// The month buttons: `delta` months away, the day clamped to the
    /// month (the date is kept when the target cannot be formed).
    pub fn shift_viewed_month(&mut self, viewing: CalDate, delta: i32)
        requires
            viewing.wf(),
            -1 <= delta <= 1,
        ensures
            final(self).is_open == old(self).is_open,
            final(self).viewing_date == Some(spec_shift_month(viewing, delta as int)),
    {
        self.viewing_date = Some(shift_month(viewing, delta));
    }
}

/// `{:02}` of a number: its decimal digits, with a leading zero when there
/// is only one.
pub open spec fn pad2(n: nat) -> Seq<u8> {
    if n < 10 {
        seq![48u8] + decimal_bytes(n)
    } else {
        decimal_bytes(n)
    }
}

fn push_pad2(s: &mut String, n: u64)
    ensures
        final(s)@ == old(s)@ + ascii_chars(pad2(n as nat)),
{
    if n < 10 {
        s.append("0");
        proof {
            reveal_strlit("0");
            assert("0"@ =~= ascii_chars(seq![48u8]));
        }
    }
    push_decimal(s, n);
    proof {
        if n < 10 {
            assert(ascii_chars(seq![48u8] + decimal_bytes(n as nat)) =~= ascii_chars(seq![48u8])
                + ascii_chars(decimal_bytes(n as nat)));
        }
    }
}

/// The time until the next sync as the status bar shows it:
/// `{minutes:02}:{seconds:02}`.
pub open spec fn scheduler_countdown_text(total_secs: nat) -> Seq<char> {
    ascii_chars(pad2(total_secs / 60)) + ":"@ + ascii_chars(pad2(total_secs % 60))
}

/// The time until the next calendar sync, in whole seconds, as `MM:SS`.
pub fn format_scheduler_countdown(total_secs: u64) -> (r: String)
    ensures
        r@ == scheduler_countdown_text(total_secs as nat),
{
    let mut s = String::new();
    push_pad2(&mut s, total_secs / 60);
    s.append(":");
    push_pad2(&mut s, total_secs % 60);
    s
}

/// Days back from a date to the start of its week, when weeks start on
/// `first` (0 = Sunday): `(weekday - first + 7) % 7` as Rust computes it.
pub open spec fn week_offset(d: CalDate, first: int) -> int {
    trunc_rem(weekday_from_sunday(d.year as int, d.month as int, d.day as int) - first + 7, 7)
}

/// The first day of the week (or work week) shown around `d`, if
/// representable.
pub open spec fn week_start(d: CalDate, first: int) -> Option<CalDate> {
    spec_add_days(d, -week_offset(d, first))
}

/// The days the view shows around `d` can be computed: the week start and
/// end (or the month and the month after it) are representable.
pub open spec fn visible_period_defined(view: ViewType, d: CalDate, first_day_of_week: int, first_day_of_work_week: int) -> bool {
    match view {
        ViewType::Day => true,
        ViewType::Week => week_start(d, first_day_of_week) matches Some(s) && spec_add_days(s, 6) is Some,
        ViewType::WorkWeek => week_start(d, first_day_of_work_week) matches Some(s) && spec_add_days(s, 4) is Some,
        ViewType::Month => month_range_defined(d),
    }
}

/// The first and last day the view shows around `d`: the day itself; the
/// seven days from the week start; the five days from the work week start;
/// the whole month.
pub open spec fn visible_period_spec(view: ViewType, d: CalDate, first_day_of_week: int, first_day_of_work_week: int) -> (CalDate, CalDate) {
    match view {
        ViewType::Day => (d, d),
        ViewType::Week => {
            let s = week_start(d, first_day_of_week)->Some_0;
            (s, spec_add_days(s, 6)->Some_0)
        },
        ViewType::WorkWeek => {
            let s = week_start(d, first_day_of_work_week)->Some_0;
            (s, spec_add_days(s, 4)->Some_0)
        },
        ViewType::Month => month_range(d),
    }
}

fn offset_in_week(weekday: u32, first: u8) -> (r: i64)
    requires
        weekday < 7,
    ensures
        r == trunc_rem(weekday - first + 7, 7),
        -7 < r < 7,
{
    let a: i64 = weekday as i64 - first as i64 + 7;
    if a >= 0 {
        a % 7
    } else {
        let p: i64 = -a;
        let q: i64 = p % 7;
        assert(trunc_div(a as int, 7) == -(p / 7));
        -q
    }
}

/// The first and last day the view shows around `current_date`, with
/// weeks starting on `first_day_of_week` and work weeks on
/// `first_day_of_work_week` (0 = Sunday).
pub fn visible_period(view: ViewType, current_date: CalDate, first_day_of_week: u8, first_day_of_work_week: u8) -> (r: (CalDate, CalDate))
    requires
        current_date.wf(),
        visible_period_defined(view, current_date, first_day_of_week as int, first_day_of_work_week as int),
    ensures
        r == visible_period_spec(view, current_date, first_day_of_week as int, first_day_of_work_week as int),
{
    match view {
        ViewType::Day => (current_date, current_date),
        ViewType::Month => this_month_range(current_date),
        _ => {
            let (first, length): (u8, i64) = match view {
                ViewType::Week => (first_day_of_week, 6),
                _ => (first_day_of_work_week, 4),
            };
            let weekday = weekday_index(current_date);
            let offset = offset_in_week(weekday, first);
            let start = match add_days(current_date, -offset) {
                Some(s) => s,
                None => current_date,
            };
            proof {
                assert(spec_add_days(current_date, -offset as int) is Some);
                crate::calendar_date::lemma_add_days_wf(current_date, -offset as int);
            }
            let end = match add_days(start, length) {
                Some(e) => e,
                None => start,
            };
            (start, end)
        },
    }
}

/// The Sunday on or before the first of `v`'s month, where the month grids
/// start.
pub open spec fn grid_start(v: CalDate) -> Option<CalDate> {
    let first = CalDate { year: v.year, month: v.month, day: 1 };
    spec_add_days(first, -weekday_from_sunday(v.year as int, v.month as int, 1))
}

/// The date `i` days after `start`.
pub open spec fn date_after(start: CalDate, i: int) -> CalDate {
    spec_add_days(start, i)->Some_0
}

/// How many week rows a month grid shows once `w` rows are drawn: it
/// stops after a row when the next row would start past the 7th of another
/// month, and after six rows at most.
pub open spec fn rows_from(start: CalDate, month: u32, w: int) -> int
    decreases 6 - w,
{
    if w >= 6 {
        6
    } else {
        let next = date_after(start, 7 * w);
        if next.month != month && next.day > 7 {
            w
        } else {
            rows_from(start, month, w + 1)
        }
    }
}

/// The month grid of `v` can be drawn: its first and last cells (and the
/// day after, which the drawing computes) are representable.
pub open spec fn month_grid_defined(v: CalDate) -> bool {
    &&& v.wf()
    &&& grid_start(v) is Some
    &&& spec_add_days(grid_start(v)->Some_0, 7 * rows_from(grid_start(v)->Some_0, v.month, 1)) is Some
}

proof fn lemma_rows_from_bounds(start: CalDate, month: u32, w: int)
    requires
        1 <= w <= 6,
    ensures
        w <= rows_from(start, month, w) <= 6,
    decreases 6 - w,
{
    if w < 6 {
        let next = date_after(start, 7 * w);
        if !(next.month != month && next.day > 7) {
            lemma_rows_from_bounds(start, month, w + 1);
        }
    }
}

/// The days of the month grid that the sidebar calendar and the date
/// picker show for `viewing_date`, row by row from the Sunday on or before
/// the first of the month.
pub fn month_grid(viewing_date: CalDate) -> (r: Vec<CalDate>)
    requires
        month_grid_defined(viewing_date),
    ensures
        ({
            let start = grid_start(viewing_date)->Some_0;
            &&& r@.len() == 7 * rows_from(start, viewing_date.month, 1)
            &&& forall|i: int| 0 <= i < r@.len() ==> #[trigger] r@[i] == date_after(start, i)
        }),
{
    let first = CalDate { year: viewing_date.year, month: viewing_date.month, day: 1 };
    let wd = weekday_index(first);
    let ghost start_spec = grid_start(viewing_date)->Some_0;
    let ghost rows = rows_from(start_spec, viewing_date.month, 1);
    proof {
        lemma_rows_from_bounds(start_spec, viewing_date.month, 1);
        crate::calendar_date::lemma_add_days_wf(first, -(wd as int));
    }
    let start = match add_days(first, -(wd as i64)) {
        Some(d) => d,
        None => first,
    };
    assert(start == start_spec);
    assert(spec_add_days(start, 0) == Some(start));
    let mut out: Vec<CalDate> = Vec::new();
    let mut cur = start;
    let mut week: u32 = 0;
    while week < 6
        invariant_except_break
            start.wf(),
            start == start_spec,
            rows == rows_from(start, viewing_date.month, 1),
            1 <= rows <= 6,
            spec_add_days(start, 7 * rows) is Some,
            week <= rows,
            week >= 1 ==> rows_from(start, viewing_date.month, week as int) == rows,
            week >= 1 ==> !(date_after(start, 7 * week).month != viewing_date.month && date_after(
                start,
                7 * week,
            ).day > 7),
            out@.len() == 7 * week,
            forall|i: int| 0 <= i < out@.len() ==> #[trigger] out@[i] == date_after(start, i),
            spec_add_days(start, 7 * week) == Some(cur),
            cur.wf(),
        ensures
            out@.len() == 7 * rows,
            forall|i: int| 0 <= i < out@.len() ==> #[trigger] out@[i] == date_after(start, i),
        decreases 6 - week,
    {
        proof {
            if week >= 1 {
                lemma_rows_from_bounds(start, viewing_date.month, week as int + 1);
            }
        }
        assert(week < rows);
        let mut day: u32 = 0;
        while day < 7
            invariant
                start.wf(),
                week < rows,
                rows <= 6,
                spec_add_days(start, 7 * rows) is Some,
                day <= 7,
                out@.len() == 7 * week + day,
                forall|i: int| 0 <= i < out@.len() ==> #[trigger] out@[i] == date_after(start, i),
                spec_add_days(start, 7 * week + day) == Some(cur),
                cur.wf(),
            decreases 7 - day,
        {
            out.push(cur);
            proof {
                let k: nat = (7 * week + day) as nat;
                crate::calendar_date::lemma_add_days_prefix(start, (7 * rows) as nat, k + 1);
                crate::calendar_date::lemma_add_days_step(start, k);
                crate::calendar_date::lemma_add_days_wf(start, (k + 1) as int);
            }
            cur = match add_days(cur, 1) {
                Some(d) => d,
                None => cur,
            };
            day = day + 1;
        }
        week = week + 1;
        assert(date_after(start, 7 * week) == cur);
        if cur.month != viewing_date.month && cur.day > 7 {
            assert(rows_from(start, viewing_date.month, week as int) == week);
            break;
        }
        proof {
            if week < 6 {
                assert(rows_from(start, viewing_date.month, week as int) == rows_from(
                    start,
                    viewing_date.month,
                    week as int + 1,
                ));
                lemma_rows_from_bounds(start, viewing_date.month, week as int + 1);
            }
        }
    }
    out
}

/// Whether the month of `d` and the month after it can be handed out as a
/// range.
fn month_range_ok(d: CalDate) -> (r: bool)
    requires
        d.wf(),
    ensures
        r == month_range_defined(d),
{
    !(d.year == crate::calendar_date::MAX_YEAR && d.month >= 11)
}

/// The first and last day the view shows around `current_date`, or `None`
/// when they fall outside the representable dates (where the calendar
/// cannot show them).
pub fn visible_period_checked(
    view: ViewType,
    current_date: CalDate,
    first_day_of_week: u8,
    first_day_of_work_week: u8,
) -> (r: Option<(CalDate, CalDate)>)
    requires
        current_date.wf(),
    ensures
        r is Some <==> visible_period_defined(
            view,
            current_date,
            first_day_of_week as int,
            first_day_of_work_week as int,
        ),
        r matches Some(p) ==> p == visible_period_spec(
            view,
            current_date,
            first_day_of_week as int,
            first_day_of_work_week as int,
        ),
{
    let defined = match view {
        ViewType::Day => true,
        ViewType::Month => month_range_ok(current_date),
        _ => {
            let (first, length): (u8, i64) = match view {
                ViewType::Week => (first_day_of_week, 6),
                _ => (first_day_of_work_week, 4),
            };
            let weekday = weekday_index(current_date);
            let offset = offset_in_week(weekday, first);
            match add_days(current_date, -offset) {
                Some(start) => {
                    proof {
                        crate::calendar_date::lemma_add_days_wf(current_date, -offset as int);
                    }
                    add_days(start, length).is_some()
                },
                None => false,
            }
        },
    };
    if defined {
        Some(visible_period(view, current_date, first_day_of_week, first_day_of_work_week))
    } else {
        None
    }
}

/// The month grid of `viewing_date`, or `None` when it reaches outside
/// the representable dates.
pub fn month_grid_checked(viewing_date: CalDate) -> (r: Option<Vec<CalDate>>)
    requires
        viewing_date.wf(),
    ensures
        r is Some <==> month_grid_defined(viewing_date),
        r matches Some(g) ==> {
            let start = grid_start(viewing_date)->Some_0;
            &&& g@.len() == 7 * rows_from(start, viewing_date.month, 1)
            &&& forall|i: int| 0 <= i < g@.len() ==> #[trigger] g@[i] == date_after(start, i)
        },
{
    let first = CalDate { year: viewing_date.year, month: viewing_date.month, day: 1 };
    let wd = weekday_index(first);
    let start = match add_days(first, -(wd as i64)) {
        Some(d) => d,
        None => {
            return None;
        },
    };
    proof {
        crate::calendar_date::lemma_add_days_wf(first, -(wd as int));
    }
    let ghost m = viewing_date.month;
    let mut w: i64 = 1;
    while w < 6
        invariant_except_break
            start.wf(),
            start == grid_start(viewing_date)->Some_0,
            1 <= w <= 6,
            rows_from(start, m, 1) == rows_from(start, m, w as int),
            spec_add_days(start, 7 * (w - 1)) is Some,
            m == viewing_date.month,
        ensures
            1 <= w <= 6,
            rows_from(start, m, 1) == rows_from(start, m, w as int),
            w < 6 ==> rows_from(start, m, w as int) == w,
            spec_add_days(start, 7 * (w - 1)) is Some,
        decreases 6 - w,
    {
        match add_days(start, 7 * w) {
            Some(next) => {
                if next.month != viewing_date.month && next.day > 7 {
                    assert(rows_from(start, m, w as int) == w);
                    break;
                }
                assert(rows_from(start, m, w as int) == rows_from(start, m, w as int + 1));
                w = w + 1;
            },
            None => {
                proof {
                    lemma_rows_from_bounds(start, m, w as int);
                    if spec_add_days(start, 7 * rows_from(start, m, 1)) is Some {
                        crate::calendar_date::lemma_add_days_prefix(
                            start,
                            (7 * rows_from(start, m, 1)) as nat,
                            (7 * w) as nat,
                        );
                    }
                }
                return None;
            },
        }
    }
    let rows = w;
    assert(rows_from(start, m, 1) == rows) by {
        if w == 6 {
        }
    }
    if add_days(start, 7 * rows).is_some() {
        Some(month_grid(viewing_date))
    } else {
        None
    }
}

} // verus!
