//! The background calendar sync schedule: when to start a sync worker,
//! what each answer of the worker does to the status line, and the status
//! line itself.
//!
//! Time is given in milliseconds of a monotonic clock. The caller owns the
//! worker and its channel; each frame it hands over what the worker
//! answered and carries out the returned step.

use vstd::prelude::*;
use vstd::string::*;
use crate::status_text::dec;
use crate::text::push_decimal;
use crate::views::{format_scheduler_countdown, scheduler_countdown_text};

verus! {

/// What one calendar source's sync changed.
#[derive(Debug, Clone, Copy, PartialEq, Eq, Structural)]
pub struct SourceSyncCounts {
    pub created: u64,
    pub updated: u64,
    pub deleted: u64,
}

/// The outcome of one scheduler tick.
#[derive(Debug)]
pub struct SyncTickSummary {
    /// When the next tick is due, in milliseconds from now.
    pub next_due_in_ms: Option<u64>,
    /// The sources that synced.
    pub successful: Vec<SourceSyncCounts>,
    /// How many sources failed.
    pub failed_count: u64,
}

/// What the worker answered this frame.
#[derive(Debug)]
pub enum WorkerPoll {
    /// The tick finished, or the worker reported an error.
    Done(Result<SyncTickSummary, String>),
    /// No answer yet.
    StillRunning,
    /// The worker went away without answering.
    Disconnected,
}

/// What the caller does after a frame of the schedule.
#[derive(Debug, Clone, Copy, PartialEq, Eq, Structural)]
pub struct SchedulerStep {
    /// Drop the worker's channel.
    pub release_worker: bool,
    /// Start a new worker running one tick.
    pub start_worker: bool,
    /// Repaint right away.
    pub repaint_now: bool,
    /// Repaint again after this many milliseconds.
    pub repaint_after_ms: u64,
}

/// The schedule's state.
#[derive(Debug)]
pub struct SyncScheduleState {
    pub in_progress: bool,
    pub status_is_error: bool,
    pub status_message: Option<String>,
    /// Time left until the next tick, as last computed.
    pub next_due_in_ms: Option<u64>,
    /// When the next tick is due.
    pub poll_due_at_ms: Option<u64>,
}

pub open spec fn sum_created(s: Seq<SourceSyncCounts>) -> nat
    decreases s.len(),
{
    if s.len() == 0 { 0 } else { sum_created(s.drop_last()) + s.last().created as nat }
}

pub open spec fn sum_updated(s: Seq<SourceSyncCounts>) -> nat
    decreases s.len(),
{
    if s.len() == 0 { 0 } else { sum_updated(s.drop_last()) + s.last().updated as nat }
}

pub open spec fn sum_deleted(s: Seq<SourceSyncCounts>) -> nat
    decreases s.len(),
{
    if s.len() == 0 { 0 } else { sum_deleted(s.drop_last()) + s.last().deleted as nat }
}

/// The totals fit in 64 bits.
pub open spec fn sums_fit(s: Seq<SourceSyncCounts>) -> bool {
    sum_created(s) <= u64::MAX && sum_updated(s) <= u64::MAX && sum_deleted(s) <= u64::MAX
}

/// One minute, the wait after a failure.
pub open spec fn retry_ms() -> u64 {
    60000
}

pub open spec fn opt_text(o: Option<String>) -> Option<Seq<char>> {
    match o {
        Some(s) => Some(s@),
        None => None,
    }
}

/// The status text after a tick that tried some sources.
pub open spec fn tick_message(t: SyncTickSummary) -> Seq<char> {
    if t.failed_count > 0 {
        "⚠ Calendar sync: "@ + dec(t.successful@.len()) + " succeeded, "@ + dec(t.failed_count as nat)
            + " failed"@
    } else {
        "✓ Calendar sync: "@ + dec(t.successful@.len()) + " source(s) (+"@ + dec(
            sum_created(t.successful@),
        ) + " ~"@ + dec(sum_updated(t.successful@)) + " -"@ + dec(sum_deleted(t.successful@)) + ")"@
    }
}

fn totals(s: &Vec<SourceSyncCounts>) -> (r: (u64, u64, u64))
    requires
        sums_fit(s@),
    ensures
        r.0 == sum_created(s@),
        r.1 == sum_updated(s@),
        r.2 == sum_deleted(s@),
{
    let mut c: u64 = 0;
    let mut u: u64 = 0;
    let mut d: u64 = 0;
    let mut i: usize = 0;
    while i < s.len()
        invariant
            0 <= i <= s@.len(),
            sums_fit(s@),
            c == sum_created(s@.subrange(0, i as int)),
            u == sum_updated(s@.subrange(0, i as int)),
            d == sum_deleted(s@.subrange(0, i as int)),
        decreases s@.len() - i,
    {
        proof {
            let p = s@.subrange(0, i as int + 1);
            assert(p.drop_last() =~= s@.subrange(0, i as int));
            lemma_sums_prefix(s@, i as int + 1);
        }
        c = c + s[i].created;
        u = u + s[i].updated;
        d = d + s[i].deleted;
        i = i + 1;
    }
    assert(s@.subrange(0, s@.len() as int) =~= s@);
    (c, u, d)
}

proof fn lemma_sums_prefix(s: Seq<SourceSyncCounts>, k: int)
    requires
        0 <= k <= s.len(),
    ensures
        sum_created(s.subrange(0, k)) <= sum_created(s),
        sum_updated(s.subrange(0, k)) <= sum_updated(s),
        sum_deleted(s.subrange(0, k)) <= sum_deleted(s),
    decreases s.len(),
{
    if k < s.len() {
        assert(s.drop_last().subrange(0, k) =~= s.subrange(0, k));
        lemma_sums_prefix(s.drop_last(), k);
    } else {
        assert(s.subrange(0, k) =~= s);
    }
}

fn tick_text(t: &SyncTickSummary) -> (r: String)
    requires
        sums_fit(t.successful@),
    ensures
        r@ == tick_message(*t),
{
    if t.failed_count > 0 {
        let mut s = String::from_str("⚠ Calendar sync: ");
        push_decimal(&mut s, t.successful.len() as u64);
        s.append(" succeeded, ");
        push_decimal(&mut s, t.failed_count);
        s.append(" failed");
        s
    } else {
        let (c, u, d) = totals(&t.successful);
        let mut s = String::from_str("✓ Calendar sync: ");
        push_decimal(&mut s, t.successful.len() as u64);
        s.append(" source(s) (+");
        push_decimal(&mut s, c);
        s.append(" ~");
        push_decimal(&mut s, u);
        s.append(" -");
        push_decimal(&mut s, d);
        s.append(")");
        s
    }
}

fn min_ms(a: u64, b: u64) -> (r: u64)
    ensures
        r == if a < b { a } else { b },
{
    if a < b { a } else { b }
}

impl SyncScheduleState {
    /// No sync has run and none is due.
    pub fn new() -> (r: Self)
        ensures
            !r.in_progress,
            !r.status_is_error,
            r.status_message is None,
            r.next_due_in_ms is None,
            r.poll_due_at_ms is None,
    {
        SyncScheduleState {
            in_progress: false,
            status_is_error: false,
            status_message: None,
            next_due_in_ms: None,
            poll_due_at_ms: None,
        }
    }

    /// Takes in a finished tick at time `now_ms`: the next tick is due after
    /// the wait it asked for (a minute when it asked for none); when it
    /// tried any source, the status reports how it went.
    fn apply_tick(&mut self, now_ms: u64, tick: SyncTickSummary) -> (r: SchedulerStep)
        requires
            sums_fit(tick.successful@),
            now_ms + (match tick.next_due_in_ms { Some(w) => w, None => retry_ms() }) <= u64::MAX,
        ensures
            ({
                let wait = match tick.next_due_in_ms {
                    Some(w) => w,
                    None => retry_ms(),
                };
                let attempted = tick.successful@.len() + tick.failed_count > 0;
                &&& final(self).next_due_in_ms == Some(wait)
                &&& final(self).poll_due_at_ms == Some((now_ms + wait) as u64)
                &&& final(self).in_progress == old(self).in_progress
                &&& attempted ==> final(self).status_is_error == (tick.failed_count > 0)
                    && opt_text(final(self).status_message) == Some(tick_message(tick))
                &&& !attempted ==> final(self).status_is_error == old(self).status_is_error
                    && final(self).status_message == old(self).status_message
                &&& r == (SchedulerStep {
                    release_worker: false,
                    start_worker: false,
                    repaint_now: attempted,
                    repaint_after_ms: if wait < 1000 { wait } else { 1000 },
                })
            }),
    {
        let wait = match tick.next_due_in_ms {
            Some(w) => w,
            None => 60000,
        };
        self.next_due_in_ms = Some(wait);
        self.poll_due_at_ms = Some(now_ms + wait);
        let attempted = tick.successful.len() > 0 || tick.failed_count > 0;
        if attempted {
            self.status_is_error = tick.failed_count > 0;
            self.status_message = Some(tick_text(&tick));
        }
        SchedulerStep {
            release_worker: false,
            start_worker: false,
            repaint_now: attempted,
            repaint_after_ms: min_ms(wait, 1000),
        }
    }

    /// One frame of the schedule at time `now_ms`, given what the worker
    /// answered (`None` when there is no worker). A worker's answer is taken
    /// in first; otherwise a running sync is waited for, a tick that is not
    /// yet due is counted down, and a due tick starts a worker.
    pub fn step(&mut self, now_ms: u64, poll: Option<WorkerPoll>) -> (r: SchedulerStep)
        requires
            now_ms + retry_ms() <= u64::MAX,
            poll matches Some(WorkerPoll::Done(Ok(t))) ==> sums_fit(t.successful@) && now_ms + (
            match t.next_due_in_ms {
                Some(w) => w,
                None => retry_ms(),
            }) <= u64::MAX,
        ensures
            r.start_worker ==> poll is None && !old(self).in_progress && final(self).in_progress
                && !final(self).status_is_error,
            poll matches Some(WorkerPoll::Done(_)) ==> r.release_worker && !final(self).in_progress,
            poll matches Some(WorkerPoll::Done(Ok(tick))) ==> {
                let wait = match tick.next_due_in_ms {
                    Some(w) => w,
                    None => retry_ms(),
                };
                let attempted = tick.successful@.len() + tick.failed_count > 0;
                &&& final(self).next_due_in_ms == Some(wait)
                &&& final(self).poll_due_at_ms == Some((now_ms + wait) as u64)
                &&& attempted ==> final(self).status_is_error == (tick.failed_count > 0)
                    && opt_text(final(self).status_message) == Some(tick_message(tick))
                &&& !attempted ==> final(self).status_is_error == old(self).status_is_error
                    && final(self).status_message == old(self).status_message
                &&& r == (SchedulerStep {
                    release_worker: true,
                    start_worker: false,
                    repaint_now: attempted,
                    repaint_after_ms: if wait < 1000 { wait } else { 1000 },
                })
            },
            poll matches Some(WorkerPoll::Disconnected) ==> r.release_worker && !final(self).in_progress
                && final(self).status_is_error && opt_text(final(self).status_message) == Some(
                "⚠ Calendar sync scheduler worker disconnected"@,
            ) && final(self).poll_due_at_ms == Some((now_ms + retry_ms()) as u64)
                && r.repaint_after_ms == retry_ms(),
            poll matches Some(WorkerPoll::Done(Err(_))) ==> final(self).status_is_error && opt_text(
                final(self).status_message,
            ) == Some("⚠ Calendar sync scheduler error"@) && final(self).next_due_in_ms == Some(
                retry_ms(),
            ) && final(self).poll_due_at_ms == Some((now_ms + retry_ms()) as u64)
                && r.repaint_after_ms == retry_ms(),
            poll matches Some(WorkerPoll::StillRunning) ==> !r.release_worker && !r.start_worker
                && final(self).in_progress && !final(self).status_is_error
                && r.repaint_after_ms == 500 && (old(self).status_message is None ==> opt_text(
                final(self).status_message,
            ) == Some("↻ Calendar sync running…"@)) && (old(self).status_message is Some
                ==> final(self).status_message == old(self).status_message),
            poll is None && old(self).in_progress ==> !r.start_worker && r.repaint_after_ms == 500
                && final(self).in_progress,
            poll is None && !old(self).in_progress ==> {
                let due = old(self).poll_due_at_ms;
                if due matches Some(d) && now_ms < d {
                    &&& !r.start_worker
                    &&& final(self).next_due_in_ms == Some((due->Some_0 - now_ms) as u64)
                    &&& r.repaint_after_ms == if due->Some_0 - now_ms < 1000 {
                        (due->Some_0 - now_ms) as u64
                    } else {
                        1000
                    }
                    &&& !final(self).in_progress
                } else {
                    &&& r.start_worker
                    &&& opt_text(final(self).status_message) == Some("↻ Calendar sync running…"@)
                    &&& r.repaint_after_ms == 500
                }
            },
    {
        match poll {
            Some(WorkerPoll::Done(Ok(tick))) => {
                self.in_progress = false;
                let step = self.apply_tick(now_ms, tick);
                SchedulerStep { release_worker: true, ..step }
            },
            Some(WorkerPoll::Done(Err(_))) => {
                self.in_progress = false;
                self.status_is_error = true;
                self.status_message = Some(String::from_str("⚠ Calendar sync scheduler error"));
                self.next_due_in_ms = Some(60000);
                self.poll_due_at_ms = Some(now_ms + 60000);
                SchedulerStep {
                    release_worker: true,
                    start_worker: false,
                    repaint_now: false,
                    repaint_after_ms: 60000,
                }
            },
            Some(WorkerPoll::StillRunning) => {
                self.in_progress = true;
                self.status_is_error = false;
                if self.status_message.is_none() {
                    self.status_message = Some(String::from_str("↻ Calendar sync running…"));
                }
                SchedulerStep {
                    release_worker: false,
                    start_worker: false,
                    repaint_now: false,
                    repaint_after_ms: 500,
                }
            },
            Some(WorkerPoll::Disconnected) => {
                self.in_progress = false;
                self.status_is_error = true;
                self.status_message = Some(
                    String::from_str("⚠ Calendar sync scheduler worker disconnected"),
                );
                self.poll_due_at_ms = Some(now_ms + 60000);
                SchedulerStep {
                    release_worker: true,
                    start_worker: false,
                    repaint_now: false,
                    repaint_after_ms: 60000,
                }
            },
            None => {
                if self.in_progress {
                    return SchedulerStep {
                        release_worker: false,
                        start_worker: false,
                        repaint_now: false,
                        repaint_after_ms: 500,
                    };
                }
                match self.poll_due_at_ms {
                    Some(due) => {
                        if now_ms < due {
                            let remaining = due - now_ms;
                            self.next_due_in_ms = Some(remaining);
                            return SchedulerStep {
                                release_worker: false,
                                start_worker: false,
                                repaint_now: false,
                                repaint_after_ms: min_ms(remaining, 1000),
                            };
                        }
                    },
                    None => {},
                }
                self.in_progress = true;
                self.status_is_error = false;
                self.status_message = Some(String::from_str("↻ Calendar sync running…"));
                SchedulerStep {
                    release_worker: false,
                    start_worker: true,
                    repaint_now: false,
                    repaint_after_ms: 500,
                }
            },
        }
    }

    /// The tone of the status line.
    pub fn status_tone(&self) -> (r: SyncStatusTone)
        ensures
            self.status_message is None ==> r == SyncStatusTone::Neutral,
            self.status_message is Some ==> r == if self.status_is_error {
                SyncStatusTone::Error
            } else {
                SyncStatusTone::Info
            },
    {
        if self.status_message.is_none() {
            SyncStatusTone::Neutral
        } else if self.status_is_error {
            SyncStatusTone::Error
        } else {
            SyncStatusTone::Info
        }
    }

    /// The sync part of the status bar: the last message with the time to
    /// the next tick, or the countdown alone, or "idle".
    pub fn status_line(&self) -> (r: String)
        ensures
            r@ == status_line_text(self.status_message, self.next_due_in_ms),
    {
        match &self.status_message {
            Some(m) => {
                let mut s = m.clone();
                match self.next_due_in_ms {
                    Some(ms) => {
                        s.append(" · next ");
                        let c = format_scheduler_countdown(ms / 1000);
                        s.append(c.as_str());
                    },
                    None => {},
                }
                s
            },
            None => match self.next_due_in_ms {
                Some(ms) => {
                    let mut s = String::from_str("↻ Calendar sync in ");
                    let c = format_scheduler_countdown(ms / 1000);
                    s.append(c.as_str());
                    s
                },
                None => String::from_str("↻ Calendar sync idle"),
            },
        }
    }
}

/// How the sync status is coloured.
#[derive(Debug, Clone, Copy, PartialEq, Eq, Structural)]
pub enum SyncStatusTone {
    Neutral,
    Info,
    Error,
}

/// The text of the sync status.
pub open spec fn status_line_text(message: Option<String>, next_due_in_ms: Option<u64>) -> Seq<char> {
    match message {
        Some(m) => match next_due_in_ms {
            Some(ms) => m@ + " · next "@ + scheduler_countdown_text((ms / 1000) as nat),
            None => m@,
        },
        None => match next_due_in_ms {
            Some(ms) => "↻ Calendar sync in "@ + scheduler_countdown_text((ms / 1000) as nat),
            None => "↻ Calendar sync idle"@,
        },
    }
}

/// A calendar source that events are synced from.
#[derive(Debug)]
pub struct CalendarSource {
    pub id: Option<i64>,
    pub name: String,
    pub enabled: bool,
}

/// The sources that can be shown on their own: enabled and stored (with
/// an id), in their order.
pub open spec fn shown_sources(s: Seq<CalendarSource>) -> Seq<CalendarSource>
    decreases s.len(),
{
    if s.len() == 0 {
        Seq::empty()
    } else {
        let rest = shown_sources(s.drop_last());
        if s.last().enabled && s.last().id is Some {
            rest.push(s.last())
        } else {
            rest
        }
    }
}

/// The enabled, stored sources as id and name, in their order.
pub fn enabled_synced_sources(sources: &Vec<CalendarSource>) -> (r: Vec<(i64, String)>)
    ensures
        r@.len() == shown_sources(sources@).len(),
        forall|i: int|
            0 <= i < r@.len() ==> (#[trigger] r@[i]).0 == shown_sources(sources@)[i].id->Some_0 && r@[i].1@
                == shown_sources(sources@)[i].name@,
{
    let mut r: Vec<(i64, String)> = Vec::new();
    let mut i: usize = 0;
    while i < sources.len()
        invariant
            0 <= i <= sources@.len(),
            r@.len() == shown_sources(sources@.take(i as int)).len(),
            forall|k: int|
                0 <= k < r@.len() ==> (#[trigger] r@[k]).0 == shown_sources(sources@.take(i as int))[k].id->Some_0
                    && r@[k].1@ == shown_sources(sources@.take(i as int))[k].name@,
        decreases sources@.len() - i,
    {
        assert(sources@.take(i + 1).drop_last() =~= sources@.take(i as int));
        assert(sources@.take(i + 1).last() == sources@[i as int]);
        if sources[i].enabled {
            match sources[i].id {
                Some(id) => {
                    r.push((id, sources[i].name.clone()));
                },
                None => {},
            }
        }
        i = i + 1;
    }
    assert(sources@.take(sources@.len() as int) =~= sources@);
    r
}

/// Whether a source with id `id` is listed.
pub open spec fn source_listed(enabled: Seq<(i64, String)>, id: i64) -> bool {
    exists|i: int| 0 <= i < enabled.len() && #[trigger] enabled[i].0 == id
}

/// The selected source, kept only while it is among the shown sources.
pub fn retain_selected_source(selected: Option<i64>, enabled: &Vec<(i64, String)>) -> (r: Option<i64>)
    ensures
        r == if selected is Some && !source_listed(enabled@, selected->Some_0) {
            None::<i64>
        } else {
            selected
        },
{
    match selected {
        None => None,
        Some(id) => {
            let mut i: usize = 0;
            while i < enabled.len()
                invariant
                    0 <= i <= enabled@.len(),
                    selected == Some(id),
                    forall|k: int| 0 <= k < i ==> (#[trigger] enabled@[k]).0 != id,
                decreases enabled@.len() - i,
            {
                let here: i64 = enabled[i].0;
                if here == id {
                    assert(enabled@[i as int].0 == id);
                    assert(source_listed(enabled@, id));
                    return Some(id);
                }
                i = i + 1;
            }
            assert(!source_listed(enabled@, id));
            None
        },
    }
}

} // verus!
