//! Dragging an event to another day or time in the day and week views.
//!
//! One drag can be under way at a time. The pointer geometry is the
//! caller's (`V` the pointer offset, `P` a pointer position, `R` a
//! rectangle); the library keeps it with the drag and hands it back.

use vstd::prelude::*;
use crate::calendar_date::{CalDate, TimeOfDay, day_number};
use crate::commands::{Event, LocalDateTime};
use crate::event_dialog::{lemma_epoch_seconds_bounds, local_instant_of, local_timestamp, shifted_by};

verus! {

/// The views in which events can be dragged.
#[derive(Debug, Clone, Copy, PartialEq, Eq, Structural)]
pub enum DragView {
    Day,
    Week,
    WorkWeek,
}

/// The seconds from one local wall-clock time to another, as `chrono`
/// subtracts two `NaiveDateTime`s: whole days between the dates, and the
/// difference of the times of day.
pub open spec fn wall_clock_seconds(from: LocalDateTime, to: LocalDateTime) -> int {
    (day_number(to.date.year as int, to.date.month as int, to.date.day as int) - day_number(
        from.date.year as int,
        from.date.month as int,
        from.date.day as int,
    )) * 86400 + to.time.seconds() - from.time.seconds()
}

/// How long a dragged event lasts: the time between the instants its
/// start and end denote (`s` and `e`, from the local time zone), or the
/// wall-clock difference when one of them names no instant.
pub open spec fn drag_duration(start: LocalDateTime, end: LocalDateTime, s: Option<i64>, e: Option<i64>) -> int {
    match (s, e) {
        (Some(a), Some(b)) => b - a,
        _ => wall_clock_seconds(start, end),
    }
}

/// `NaiveDateTime - NaiveDateTime` in whole seconds, through
/// `signed_duration_since(..).num_seconds()`.
///
/// Trusted: the result is `chrono`'s exact difference of the two
/// wall-clock times (`wall_clock_seconds`); both times are real ones.
#[verifier::external_body]
fn seconds_between(from: LocalDateTime, to: LocalDateTime) -> (r: i64)
    requires
        from.date.wf(),
        from.time.wf(),
        to.date.wf(),
        to.time.wf(),
    ensures
        r == wall_clock_seconds(from, to),
{
    let a = chrono::NaiveDate::from_ymd_opt(from.date.year, from.date.month, from.date.day)
        .unwrap()
        .and_hms_opt(from.time.hour, from.time.minute, from.time.second)
        .unwrap();
    let b = chrono::NaiveDate::from_ymd_opt(to.date.year, to.date.month, to.date.day)
        .unwrap()
        .and_hms_opt(to.time.hour, to.time.minute, to.time.second)
        .unwrap();
    b.signed_duration_since(a).num_seconds()
}

/// Whether a local wall-clock time names exactly one instant in the
/// machine's time zone (`and_local_timezone(Local).single()` is `Some`).
/// It depends on the time zone, so nothing is stated of it.
#[verifier::external_body]
fn is_single_local_time(at: LocalDateTime) -> (r: bool)
    requires
        at.date.wf(),
        at.time.wf(),
{
    chrono::NaiveDate::from_ymd_opt(at.date.year, at.date.month, at.date.day)
        .unwrap()
        .and_hms_opt(at.time.hour, at.time.minute, at.time.second)
        .unwrap()
        .and_local_timezone(chrono::Local)
        .single()
        .is_some()
}

/// An event being dragged.
#[derive(Debug)]
pub struct DragContext<V, P, R> {
    pub event_id: i64,
    pub original_start: LocalDateTime,
    pub original_end: LocalDateTime,
    /// Length of the event, in seconds.
    pub duration_secs: i64,
    pub pointer_offset: V,
    pub pointer_pos: Option<P>,
    pub hovered_date: Option<CalDate>,
    pub hovered_time: Option<TimeOfDay>,
    pub hovered_rect: Option<R>,
    pub view: DragView,
}

impl<V, P, R> DragContext<V, P, R> {
    /// Starts a drag of a stored event (one without an id cannot be
    /// dragged), hovering where it starts. Its length is the time between
    /// the instants its start and end denote in the local time zone, so a
    /// change of clocks in between counts (`drag_duration`).
    pub fn from_event(event: &Event, pointer_offset: V, view: DragView) -> (r: Option<Self>)
        requires
            event.start.date.wf(),
            event.start.time.wf(),
            event.end.date.wf(),
            event.end.time.wf(),
        ensures
            event.id is None ==> r is None,
            event.id is Some ==> r is Some && {
                let c = r->Some_0;
                &&& c.event_id == event.id->Some_0
                &&& c.original_start == event.start
                &&& c.original_end == event.end
                &&& exists|s: Option<i64>, e: Option<i64>|
                    local_instant_of(event.start, s) && local_instant_of(event.end, e)
                        && c.duration_secs == #[trigger] drag_duration(event.start, event.end, s, e)
                &&& c.pointer_offset == pointer_offset
                &&& c.pointer_pos is None
                &&& c.hovered_date == Some(event.start.date)
                &&& c.hovered_time == Some(event.start.time)
                &&& c.hovered_rect is None
                &&& c.view == view
            },
    {
        let event_id = match event.id {
            Some(id) => id,
            None => {
                return None;
            },
        };
        let s = local_timestamp(event.start);
        let e = local_timestamp(event.end);
        let duration = match (s, e) {
            (Some(a), Some(b)) => {
                proof {
                    lemma_epoch_seconds_bounds(event.start);
                    lemma_epoch_seconds_bounds(event.end);
                    let oa = choose|off: int| -86400 < off < 86400 && a == #[trigger] shifted_by(event.start, off);
                    let ob = choose|off: int| -86400 < off < 86400 && b == #[trigger] shifted_by(event.end, off);
                }
                b - a
            },
            _ => seconds_between(event.start, event.end),
        };
        assert(duration == drag_duration(event.start, event.end, s, e));
        Some(DragContext {
            event_id,
            original_start: event.start,
            original_end: event.end,
            duration_secs: duration,
            pointer_offset,
            pointer_pos: None,
            hovered_date: Some(event.start.date),
            hovered_time: Some(event.start.time),
            hovered_rect: None,
            view,
        })
    }

    /// Where the event would start if dropped now: the hovered day and
    /// time, when both are known and that local time is unambiguous.
    /// The time asked about is `hovered_local_time()`; whether it is
    /// unambiguous depends on the machine's time zone, and for each answer
    /// `hovered_start_given` states the result.
    pub fn hovered_start(&self) -> (r: Option<LocalDateTime>)
        requires
            self.hovered_date matches Some(d) ==> d.wf(),
            self.hovered_time matches Some(t) ==> t.wf(),
        ensures
            (self.hovered_date is None || self.hovered_time is None) ==> r is None,
            r matches Some(at) ==> at == (LocalDateTime {
                date: self.hovered_date->Some_0,
                time: self.hovered_time->Some_0,
            }),
            r == self.spec_hovered_start(true) || r == self.spec_hovered_start(false),
            r is Some ==> r == self.spec_hovered_local_time(),
    {
        match self.hovered_local_time() {
            Some(at) => {
                let single = is_single_local_time(at);
                self.hovered_start_given(single)
            },
            None => None,
        }
    }

    /// The hovered local time, when both the day and the time are known:
    /// the time whose ambiguity `hovered_start` asks the time zone about.
    pub open spec fn spec_hovered_local_time(&self) -> Option<LocalDateTime> {
        match (self.hovered_date, self.hovered_time) {
            (Some(date), Some(time)) => Some(LocalDateTime { date, time }),
            _ => None,
        }
    }

    /// The hovered day and time as one local time, when both are known.
    pub fn hovered_local_time(&self) -> (r: Option<LocalDateTime>)
        ensures
            r == self.spec_hovered_local_time(),
    {
        match (self.hovered_date, self.hovered_time) {
            (Some(date), Some(time)) => Some(LocalDateTime { date, time }),
            _ => None,
        }
    }

    /// The drop position when the hovered local time names one instant
    /// (`single`) or not.
    pub open spec fn spec_hovered_start(&self, single: bool) -> Option<LocalDateTime> {
        match (self.hovered_date, self.hovered_time) {
            (Some(date), Some(time)) => if single {
                Some(LocalDateTime { date, time })
            } else {
                None
            },
            _ => None,
        }
    }

    /// Where the event would start if dropped now, given whether the
    /// hovered local time is unambiguous: the hovered day and time when
    /// both are known and `single` holds, otherwise `None`.
    pub fn hovered_start_given(&self, single: bool) -> (r: Option<LocalDateTime>)
        ensures
            r == self.spec_hovered_start(single),
    {
        match (self.hovered_date, self.hovered_time) {
            (Some(date), Some(time)) => {
                if single {
                    Some(LocalDateTime { date, time })
                } else {
                    None
                }
            },
            _ => None,
        }
    }
}

/// The drag under way, if any.
#[derive(Debug)]
pub struct DragManager<V, P, R> {
    current: Option<DragContext<V, P, R>>,
}

impl<V, P, R> View for DragManager<V, P, R> {
    type V = Option<DragContext<V, P, R>>;

    closed spec fn view(&self) -> Option<DragContext<V, P, R>> {
        self.current
    }
}

impl<V, P, R> DragManager<V, P, R> {
    pub fn new() -> (r: Self)
        ensures
            r@ is None,
    {
        DragManager { current: None }
    }

    /// Starts a drag, replacing any other.
    pub fn begin(&mut self, context: DragContext<V, P, R>)
        ensures
            final(self)@ == Some(context),
    {
        self.current = Some(context);
    }

    /// The drag under way.
    pub fn active(&self) -> (r: Option<&DragContext<V, P, R>>)
        ensures
            r matches Some(c) ==> self@ == Some(*c),
            r is None <==> self@ is None,
    {
        match &self.current {
            Some(c) => Some(c),
            None => None,
        }
    }

    /// The drag under way in `view`.
    pub fn active_for_view(&self, view: DragView) -> (r: Option<&DragContext<V, P, R>>)
        ensures
            r matches Some(c) ==> self@ == Some(*c) && c.view == view,
            r is None <==> !(self@ matches Some(c) && c.view == view),
    {
        match &self.current {
            Some(c) => {
                if c.view == view {
                    Some(c)
                } else {
                    None
                }
            },
            None => None,
        }
    }

    pub fn is_active_for_view(&self, view: DragView) -> (r: bool)
        ensures
            r == (self@ matches Some(c) && c.view == view),
    {
        self.active_for_view(view).is_some()
    }

    /// The pointer is over `date` at `time`: the drag under way (if any)
    /// remembers where it hovers.
    pub fn update_hover(&mut self, date: CalDate, time: TimeOfDay, rect: R, pointer_pos: P)
        ensures
            old(self)@ is None ==> final(self)@ is None,
            old(self)@ matches Some(c) ==> final(self)@ == Some(
                DragContext {
                    hovered_date: Some(date),
                    hovered_time: Some(time),
                    hovered_rect: Some(rect),
                    pointer_pos: Some(pointer_pos),
                    ..c
                },
            ),
    {
        match &mut self.current {
            Some(c) => {
                c.hovered_date = Some(date);
                c.hovered_time = Some(time);
                c.hovered_rect = Some(rect);
                c.pointer_pos = Some(pointer_pos);
            },
            None => {},
        }
    }

    /// Ends the drag under way in `view` and hands it back; a drag in
    /// another view goes on.
    pub fn finish_for_view(&mut self, view: DragView) -> (r: Option<DragContext<V, P, R>>)
        ensures
            (old(self)@ matches Some(c) && c.view == view) ==> r == old(self)@ && final(self)@ is None,
            !(old(self)@ matches Some(c) && c.view == view) ==> r is None && final(self)@ == old(self)@,
    {
        let matches_view = match &self.current {
            Some(c) => c.view == view,
            None => false,
        };
        if matches_view {
            self.current.take()
        } else {
            None
        }
    }

    /// Drops the drag under way.
    pub fn cancel(&mut self)
        ensures
            final(self)@ is None,
    {
        self.current = None;
    }

    /// Drops the drag under way if it is in `view`.
    pub fn cancel_for_view(&mut self, view: DragView)
        ensures
            (old(self)@ matches Some(c) && c.view == view) ==> final(self)@ is None,
            !(old(self)@ matches Some(c) && c.view == view) ==> final(self)@ == old(self)@,
    {
        let matches_view = match &self.current {
            Some(c) => c.view == view,
            None => false,
        };
        if matches_view {
            self.current = None;
        }
    }
}

} // verus!
