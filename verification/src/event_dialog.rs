//! The event editor's state: the form, its defaults, its checks, and the
//! event and recurrence rule it produces.
//!
//! Whether a wall-clock time exists (and which instant it is) depends on
//! the machine's time zone; the checks take those instants as arguments,
//! and the methods that ask the time zone say only what holds whatever it
//! answers.

use vstd::prelude::*;
use vstd::string::*;
use vstd::utf8::encode_utf8;
use crate::calendar_date::{add_days, day_number, lemma_day_number_bounds, spec_add_days, CalDate, TimeOfDay};
use crate::dialogs::template_manager::EventTemplate;
use crate::commands::{Event, LocalDateTime};
use crate::countdown::CountdownCardId;
use crate::recurrence::{
    build_bytes, expected_parse, lemma_parse_build_roundtrip, spec_parse, rrule_sliceable, ParsedRRule, RRuleBuilder, RecurrenceFrequency,
    RecurrencePattern,
};
use crate::text::{
    contains_text, occurs_in, ascii_chars, find_byte, find_first, parse_u32_range, parse_unsigned, trimmed, trim_str,
};

verus! {

/// The settings that shape a new event.
#[derive(Debug)]
pub struct Settings {
    /// Start time of new events, as `HH:MM`.
    pub default_event_start_time: String,
    /// Length of new events, in minutes.
    pub default_event_duration: u32,
}

impl Default for Settings {
    fn default() -> (r: Self)
        ensures
            r.default_event_start_time@ == "09:00"@,
            r.default_event_duration == 60,
    {
        Settings { default_event_start_time: String::from_str("09:00"), default_event_duration: 60 }
    }
}

/// A countdown card shown for the edited event.
#[derive(Debug, Clone, Copy, PartialEq, Eq, Structural)]
pub struct LinkedCountdownCard {
    pub card_id: CountdownCardId,
    pub always_on_top: bool,
    pub compact_mode: bool,
}

/// A request to delete the edited event.
#[derive(Debug, Clone, Copy, PartialEq, Eq, Structural)]
pub struct EventDeleteRequest {
    pub event_id: i64,
}

/// State of the event editor.
#[derive(Debug)]
pub struct EventDialogState {
    pub event_id: Option<i64>,
    pub title: String,
    pub description: String,
    pub location: String,
    pub date: CalDate,
    pub end_date: CalDate,
    pub start_time: TimeOfDay,
    pub end_time: TimeOfDay,
    pub all_day: bool,
    pub color: String,
    pub category: String,
    pub is_recurring: bool,
    pub frequency: RecurrenceFrequency,
    pub interval: u32,
    pub count: Option<u32>,
    pub until_date: Option<CalDate>,
    pub pattern: RecurrencePattern,
    pub byday_enabled: bool,
    pub byday_monday: bool,
    pub byday_tuesday: bool,
    pub byday_wednesday: bool,
    pub byday_thursday: bool,
    pub byday_friday: bool,
    pub byday_saturday: bool,
    pub byday_sunday: bool,
    pub error_message: Option<String>,
    pub show_advanced: bool,
    pub create_countdown: bool,
    pub linked_card: Option<LinkedCountdownCard>,
    /// The card settings section is expanded.
    pub show_card_settings: bool,
}

/// The start time a `HH:MM` setting names: hour and minute as
/// `str::parse` reads them around the first `:`, 09:00 when that fails or
/// names no time of day.
pub open spec fn start_time_setting(b: Seq<u8>) -> TimeOfDay {
    let k = find_first(b, 58);
    let hm: Option<(int, int)> = if k == b.len() {
        None
    } else {
        match (
            parse_unsigned(b.subrange(0, k), u32::MAX as int),
            parse_unsigned(b.subrange(k + 1, b.len() as int), u32::MAX as int),
        ) {
            (Some(h), Some(m)) => Some((h, m)),
            _ => None,
        }
    };
    match hm {
        Some((h, m)) => if h < 24 && m < 60 {
            TimeOfDay { hour: h as u32, minute: m as u32, second: 0 }
        } else {
            TimeOfDay { hour: 9, minute: 0, second: 0 }
        },
        None => TimeOfDay { hour: 9, minute: 0, second: 0 },
    }
}

/// The time of day `minutes` after `start` (wrapping past midnight).
pub open spec fn time_after(start: TimeOfDay, minutes: int) -> TimeOfDay {
    let s = (start.seconds() + minutes * 60) % 86400;
    TimeOfDay { hour: (s / 3600) as u32, minute: ((s % 3600) / 60) as u32, second: (s % 60) as u32 }
}

/// The start time a new event gets: the requested one, else the setting.
pub open spec fn new_event_start(start_time_opt: Option<TimeOfDay>, settings: Settings) -> TimeOfDay {
    match start_time_opt {
        Some(t) => t,
        None => start_time_setting(encode_utf8(settings.default_event_start_time@)),
    }
}

/// A new event can be laid out: its end, the default length after its
/// start, is still a representable date.
pub open spec fn new_event_defined(
    date: CalDate,
    start_time_opt: Option<TimeOfDay>,
    settings: Settings,
) -> bool {
    let start = new_event_start(start_time_opt, settings);
    &&& start.wf()
    &&& spec_add_days(date, (start.seconds() + settings.default_event_duration * 60) / 86400) is Some
}

/// `str::parse` of the hour and minute of a `HH:MM` setting.
fn parse_start_setting(setting: &str) -> (r: TimeOfDay)
    ensures
        r == start_time_setting(setting.spec_bytes()),
        r.wf(),
{
    let b = setting.as_bytes();
    let n = b.len();
    let k = find_byte(b, 0, n, 58);
    assert(b@.subrange(0, n as int) =~= b@);
    if k == n {
        return TimeOfDay { hour: 9, minute: 0, second: 0 };
    }
    let h = parse_u32_range(b, 0, k);
    let m = parse_u32_range(b, k + 1, n);
    match (h, m) {
        (Some(h), Some(m)) => {
            if h < 24 && m < 60 {
                TimeOfDay { hour: h, minute: m, second: 0 }
            } else {
                TimeOfDay { hour: 9, minute: 0, second: 0 }
            }
        },
        _ => TimeOfDay { hour: 9, minute: 0, second: 0 },
    }
}

/// The colour a new event starts with.
pub open spec fn default_event_color() -> Seq<char> {
    "#3B82F6"@
}

pub open spec fn text_or_empty(o: Option<String>) -> Seq<char> {
    match o {
        Some(s) => s@,
        None => Seq::empty(),
    }
}

fn text_or_empty_of(o: &Option<String>) -> (r: String)
    ensures
        r@ == text_or_empty(*o),
{
    match o {
        Some(s) => s.clone(),
        None => String::new(),
    }
}

pub open spec fn none_if_empty(s: String) -> Option<String> {
    if s@.len() == 0 {
        None
    } else {
        Some(s)
    }
}

fn none_if_empty_of(s: &String) -> (r: Option<String>)
    ensures
        r == none_if_empty(*s),
{
    if s.as_str().unicode_len() == 0 {
        None
    } else {
        Some(s.clone())
    }
}

/// Seconds from 1970-01-01 00:00 to a wall-clock time, read as if it
/// were UTC.
pub open spec fn epoch_seconds(at: LocalDateTime) -> int {
    day_number(at.date.year as int, at.date.month as int, at.date.day as int) * 86400
        + at.time.seconds()
}

/// A real wall-clock time lies within nine trillion seconds of 1970.
pub proof fn lemma_epoch_seconds_bounds(at: LocalDateTime)
    requires
        at.date.wf(),
        at.time.wf(),
    ensures
        -9_000_000_000_000 <= epoch_seconds(at) <= 9_000_000_000_000,
{
    let dn = day_number(at.date.year as int, at.date.month as int, at.date.day as int);
    lemma_day_number_bounds(at.date.year as int, at.date.month as int, at.date.day as int);
    assert(0 <= at.time.seconds() < 86400);
    assert(-9_000_000_000_000 <= dn * 86400 + at.time.seconds() <= 9_000_000_000_000) by (nonlinear_arith)
        requires
            -100_000_000 <= dn <= 100_000_000,
            0 <= at.time.seconds() < 86400,
    ;
}

/// Whether `ts` can be the instant a local wall-clock time `at` denotes in
/// some time zone: `None`, or `at` shifted by an offset of less than a day.
pub open spec fn local_instant_of(at: LocalDateTime, ts: Option<i64>) -> bool {
    ts matches Some(t) ==> exists|off: int| -86400 < off < 86400 && t == #[trigger] shifted_by(at, off)
}

/// The instant of wall-clock time `at` in a zone `off` seconds east of UTC.
pub open spec fn shifted_by(at: LocalDateTime, off: int) -> int {
    epoch_seconds(at) - off
}

/// The instant a local wall-clock time denotes, as a Unix timestamp,
/// through `NaiveDateTime::and_local_timezone(Local)`: the single instant,
/// the earlier one when the clock is turned back, or `None` in a gap.
///
/// Trusted: which answer comes depends on the machine's time zone; an
/// instant that comes is the wall-clock time less the zone's offset, and
/// `chrono`'s offsets (`FixedOffset`) are always less than a day.
#[verifier::external_body]
pub(crate) fn local_timestamp(at: LocalDateTime) -> (r: Option<i64>)
    requires
        at.date.wf(),
        at.time.wf(),
    ensures
        local_instant_of(at, r),
{
    let naive = chrono::NaiveDate::from_ymd_opt(at.date.year, at.date.month, at.date.day)
        .unwrap()
        .and_hms_opt(at.time.hour, at.time.minute, at.time.second)
        .unwrap();
    match naive.and_local_timezone(chrono::Local) {
        chrono::LocalResult::Single(dt) => Some(dt.timestamp()),
        chrono::LocalResult::Ambiguous(dt, _) => Some(dt.timestamp()),
        chrono::LocalResult::None => None,
    }
}

impl EventDialogState {
    /// The dates and times are real ones.
    pub open spec fn wf(&self) -> bool {
        &&& self.date.wf()
        &&& self.end_date.wf()
        &&& self.start_time.wf()
        &&& self.end_time.wf()
        &&& self.until_date matches Some(u) ==> u.wf()
    }

    pub open spec fn flags(&self) -> [bool; 7] {
        [
            self.byday_sunday,
            self.byday_monday,
            self.byday_tuesday,
            self.byday_wednesday,
            self.byday_thursday,
            self.byday_friday,
            self.byday_saturday,
        ]
    }

    /// The recurrence the form describes.
    pub open spec fn builder(&self) -> RRuleBuilder {
        RRuleBuilder {
            is_recurring: self.is_recurring,
            frequency: self.frequency,
            interval: self.interval,
            pattern: self.pattern,
            byday_enabled: self.byday_enabled,
            byday_flags: self.flags(),
            count: self.count,
            until_date: self.until_date,
        }
    }

    pub open spec fn start_at(&self) -> LocalDateTime {
        LocalDateTime { date: self.date, time: self.start_time }
    }

    pub open spec fn end_at(&self) -> LocalDateTime {
        LocalDateTime { date: self.end_date, time: self.end_time }
    }

    /// What the checks answer, given the instants the start and the end
    /// denote in the local time zone (`None` for a time that does not exist).
    pub open spec fn validation(&self, start: Option<i64>, end: Option<i64>) -> Result<(), Seq<char>> {
        if trimmed(self.title@).len() == 0 {
            Err("Event title is required"@)
        } else if encode_utf8(self.title@).len() as usize > 200 {
            Err("Event title is too long (max 200 characters)"@)
        } else if start is None {
            Err("Start time is invalid for the selected day"@)
        } else if end is None {
            Err("End time is invalid for the selected day"@)
        } else if end->Some_0 <= start->Some_0 {
            Err("Event must end after it starts"@)
        } else if self.is_recurring && self.interval < 1 {
            Err("Interval must be at least 1"@)
        } else if self.is_recurring && self.interval > 999 {
            Err("Interval is too large (max 999)"@)
        } else if self.is_recurring && self.byday_enabled && (self.frequency
            == RecurrenceFrequency::Weekly || self.frequency == RecurrenceFrequency::Monthly)
            && !(self.byday_monday || self.byday_tuesday || self.byday_wednesday
            || self.byday_thursday || self.byday_friday || self.byday_saturday
            || self.byday_sunday) {
            Err("Select at least one day for weekly/monthly recurrence"@)
        } else if self.is_recurring && (self.count matches Some(c) && c < 1) {
            Err("Occurrence count must be at least 1"@)
        } else if self.is_recurring && (self.count matches Some(c) && c > 999) {
            Err("Occurrence count is too large (max 999)"@)
        } else if self.is_recurring && (self.until_date matches Some(u) && u.before(self.date)) {
            Err("Recurrence end date cannot be before event start date"@)
        } else if self.color@.len() > 0 && self.color@[0] != '#' {
            Err("Color must start with # (e.g., #3B82F6)"@)
        } else {
            Ok(())
        }
    }

    /// The event the form describes (before it is stored).
    pub open spec fn spec_event(&self, rrule: Option<String>) -> Event {
        Event {
            id: None,
            title: self.title,
            description: none_if_empty(self.description),
            location: none_if_empty(self.location),
            start: self.start_at(),
            end: self.end_at(),
            all_day: self.all_day,
            category: none_if_empty(self.category),
            color: none_if_empty(self.color),
            recurrence_rule: rrule,
            recurrence_exceptions: None,
            created_at: None,
            updated_at: None,
        }
    }

    /// The form shows the stored event: its fields, the defaults for
    /// missing texts, and what its recurrence rule reads as.
    pub open spec fn shows_event(self, event: Event) -> bool {
        let r = self;
        let parsed = match event.recurrence_rule {
            Some(rule) => spec_parse(encode_utf8(rule@)),
            None => crate::recurrence::default_parsed(),
        };
        &&& r.event_id == event.id
        &&& r.title == event.title
        &&& r.description@ == text_or_empty(event.description)
        &&& r.location@ == text_or_empty(event.location)
        &&& r.date == event.start.date
        &&& r.end_date == event.end.date
        &&& r.start_time == event.start.time
        &&& r.end_time == event.end.time
        &&& r.all_day == event.all_day
        &&& r.color@ == match event.color {
            Some(c) => c@,
            None => default_event_color(),
        }
        &&& r.category@ == text_or_empty(event.category)
        &&& r.is_recurring == parsed.is_recurring
        &&& r.frequency == parsed.frequency
        &&& r.interval == parsed.interval
        &&& r.count == parsed.count
        &&& r.until_date == parsed.until_date
        &&& r.pattern == parsed.pattern
        &&& r.flags() =~= parsed.byday_flags
        &&& r.byday_enabled == (parsed.byday_flags[0] || parsed.byday_flags[1]
            || parsed.byday_flags[2] || parsed.byday_flags[3] || parsed.byday_flags[4]
            || parsed.byday_flags[5] || parsed.byday_flags[6])
        &&& r.error_message is None
        &&& !r.show_advanced
        &&& !r.create_countdown
        &&& r.linked_card is None
        &&& !r.show_card_settings
    }

    /// A new event on `date`, starting at `start_time_opt` or else at the
    /// default start time of the settings, and lasting the default length
    /// (its end wraps past midnight on the same date).
    pub fn new_event_with_time(date: CalDate, start_time_opt: Option<TimeOfDay>, settings: &Settings) -> (r: Self)
        requires
            new_event_defined(date, start_time_opt, *settings),
        ensures
            r.event_id is None,
            r.title@ == Seq::<char>::empty(),
            r.description@ == Seq::<char>::empty(),
            r.location@ == Seq::<char>::empty(),
            r.date == date,
            r.end_date == date,
            r.start_time == new_event_start(start_time_opt, *settings),
            r.end_time == time_after(
                new_event_start(start_time_opt, *settings),
                settings.default_event_duration as int,
            ),
            !r.all_day,
            r.color@ == default_event_color(),
            r.category@ == Seq::<char>::empty(),
            !r.is_recurring,
            r.frequency == RecurrenceFrequency::Daily,
            r.interval == 1,
            r.count is None,
            r.until_date is None,
            r.pattern == RecurrencePattern::NoPattern,
            !r.byday_enabled,
            r.flags() == [false, false, false, false, false, false, false],
            r.error_message is None,
            !r.show_advanced,
            !r.create_countdown,
            r.linked_card is None,
            !r.show_card_settings,
    {
        let start_time = match start_time_opt {
            Some(t) => t,
            None => parse_start_setting(settings.default_event_start_time.as_str()),
        };
        let total: u64 = start_time.hour as u64 * 3600 + start_time.minute as u64 * 60
            + start_time.second as u64 + settings.default_event_duration as u64 * 60;
        let s = total % 86400;
        let end_time = TimeOfDay {
            hour: (s / 3600) as u32,
            minute: ((s % 3600) / 60) as u32,
            second: (s % 60) as u32,
        };
        EventDialogState {
            event_id: None,
            title: String::new(),
            description: String::new(),
            location: String::new(),
            date,
            end_date: date,
            start_time,
            end_time,
            all_day: false,
            color: String::from_str("#3B82F6"),
            category: String::new(),
            is_recurring: false,
            frequency: RecurrenceFrequency::Daily,
            interval: 1,
            count: None,
            until_date: None,
            pattern: RecurrencePattern::NoPattern,
            byday_enabled: false,
            byday_monday: false,
            byday_tuesday: false,
            byday_wednesday: false,
            byday_thursday: false,
            byday_friday: false,
            byday_saturday: false,
            byday_sunday: false,
            error_message: None,
            show_advanced: false,
            create_countdown: false,
            linked_card: None,
            show_card_settings: false,
        }
    }

    /// A new event on `date` at the default start time.
    pub fn new_event(date: CalDate, settings: &Settings) -> (r: Self)
        requires
            new_event_defined(date, None, *settings),
        ensures
            r.date == date,
            r.end_date == date,
            r.start_time == new_event_start(None, *settings),
            r.end_time == time_after(
                new_event_start(None, *settings),
                settings.default_event_duration as int,
            ),
            r.event_id is None,
            r.title@ == Seq::<char>::empty(),
            !r.is_recurring,
            r.color@ == default_event_color(),
    {
        Self::new_event_with_time(date, None, settings)
    }

    /// The form for a stored event; its recurrence rule is read back.
    pub fn from_event(event: &Event, settings: &Settings) -> (r: Self)
        requires
            event.recurrence_rule matches Some(rule) ==> rrule_sliceable(encode_utf8(rule@)),
        ensures
            r.shows_event(*event),
    {
        let parsed = match &event.recurrence_rule {
            Some(rule) => ParsedRRule::parse(rule.as_str()),
            None => ParsedRRule::default(),
        };
        let f = parsed.byday_flags;
        let any = f[0] || f[1] || f[2] || f[3] || f[4] || f[5] || f[6];
        EventDialogState {
            event_id: event.id,
            title: event.title.clone(),
            description: text_or_empty_of(&event.description),
            location: text_or_empty_of(&event.location),
            date: event.start.date,
            end_date: event.end.date,
            start_time: event.start.time,
            end_time: event.end.time,
            all_day: event.all_day,
            color: match &event.color {
                Some(c) => c.clone(),
                None => String::from_str("#3B82F6"),
            },
            category: text_or_empty_of(&event.category),
            is_recurring: parsed.is_recurring,
            frequency: parsed.frequency,
            interval: parsed.interval,
            count: parsed.count,
            until_date: parsed.until_date,
            pattern: parsed.pattern,
            byday_enabled: any,
            byday_sunday: f[0],
            byday_monday: f[1],
            byday_tuesday: f[2],
            byday_wednesday: f[3],
            byday_thursday: f[4],
            byday_friday: f[5],
            byday_saturday: f[6],
            error_message: None,
            show_advanced: false,
            create_countdown: false,
            linked_card: None,
            show_card_settings: false,
        }
    }

    /// Shows the countdown card `card_id` in the editor, with its window
    /// flags, and expands the card settings.
    pub fn link_countdown_card(&mut self, card_id: CountdownCardId, always_on_top: bool, compact_mode: bool)
        ensures
            final(self).linked_card == Some(
                LinkedCountdownCard { card_id, always_on_top, compact_mode },
            ),
            final(self).show_card_settings,
            final(self).title == old(self).title,
            final(self).date == old(self).date,
            final(self).event_id == old(self).event_id,
    {
        self.linked_card = Some(LinkedCountdownCard { card_id, always_on_top, compact_mode });
        self.show_card_settings = true;
    }

    /// The recurrence rule of the form; `None` when the event does not recur.
    pub fn build_rrule(&self) -> (r: Option<String>)
        requires
            self.until_date matches Some(u) ==> u.wf(),
        ensures
            r is Some == self.is_recurring,
            r matches Some(s) ==> s@ == ascii_chars(build_bytes(self.builder())),
    {
        let b = RRuleBuilder {
            is_recurring: self.is_recurring,
            frequency: self.frequency,
            interval: self.interval,
            pattern: self.pattern,
            byday_enabled: self.byday_enabled,
            byday_flags: [
                self.byday_sunday,
                self.byday_monday,
                self.byday_tuesday,
                self.byday_wednesday,
                self.byday_thursday,
                self.byday_friday,
                self.byday_saturday,
            ],
            count: self.count,
            until_date: self.until_date,
        };
        assert(b.byday_flags =~= self.flags());
        b.build()
    }

    /// The checks of the form, given the local-time instants of its start
    /// and end (`None` for a time that does not exist on that day).
    pub fn validate_with(&self, start: Option<i64>, end: Option<i64>) -> (r: Result<(), String>)
        ensures
            r is Ok <==> self.validation(start, end) is Ok,
            r is Err ==> r->Err_0@ == self.validation(start, end)->Err_0,
    {
        if trim_str(self.title.as_str()).unicode_len() == 0 {
            return Err(String::from_str("Event title is required"));
        }
        if self.title.as_str().len() > 200 {
            return Err(String::from_str("Event title is too long (max 200 characters)"));
        }
        let start_ts = match start {
            Some(t) => t,
            None => {
                return Err(String::from_str("Start time is invalid for the selected day"));
            },
        };
        let end_ts = match end {
            Some(t) => t,
            None => {
                return Err(String::from_str("End time is invalid for the selected day"));
            },
        };
        if end_ts <= start_ts {
            return Err(String::from_str("Event must end after it starts"));
        }
        if self.is_recurring {
            if self.interval < 1 {
                return Err(String::from_str("Interval must be at least 1"));
            }
            if self.interval > 999 {
                return Err(String::from_str("Interval is too large (max 999)"));
            }
            let weekly_or_monthly = match self.frequency {
                RecurrenceFrequency::Weekly | RecurrenceFrequency::Monthly => true,
                _ => false,
            };
            if self.byday_enabled && weekly_or_monthly {
                let any_day_selected = self.byday_monday || self.byday_tuesday
                    || self.byday_wednesday || self.byday_thursday || self.byday_friday
                    || self.byday_saturday || self.byday_sunday;
                if !any_day_selected {
                    return Err(String::from_str("Select at least one day for weekly/monthly recurrence"));
                }
            }
            match self.count {
                Some(count) => {
                    if count < 1 {
                        return Err(String::from_str("Occurrence count must be at least 1"));
                    }
                    if count > 999 {
                        return Err(String::from_str("Occurrence count is too large (max 999)"));
                    }
                },
                None => {},
            }
            match self.until_date {
                Some(until) => {
                    if until.is_before(&self.date) {
                        return Err(String::from_str("Recurrence end date cannot be before event start date"));
                    }
                },
                None => {},
            }
        }
        if self.color.as_str().unicode_len() > 0 && self.color.as_str().get_char(0) != '#' {
            return Err(String::from_str("Color must start with # (e.g., #3B82F6)"));
        }
        Ok(())
    }

    /// The form's start and end as local wall-clock times: the times whose
    /// instants the time zone is asked for.
    pub fn start_end_local(&self) -> (r: (LocalDateTime, LocalDateTime))
        ensures
            r == (self.start_at(), self.end_at()),
    {
        (LocalDateTime { date: self.date, time: self.start_time }, LocalDateTime {
            date: self.end_date,
            time: self.end_time,
        })
    }

    /// The checks of the form, asking the local time zone for the instants
    /// of its start and end (`start_end_local`): the answer is that of
    /// `validate_with` for instants that those wall-clock times can denote.
    pub fn validate(&self) -> (r: Result<(), String>)
        requires
            self.wf(),
        ensures
            exists|s: Option<i64>, e: Option<i64>|
                local_instant_of(self.start_at(), s) && local_instant_of(self.end_at(), e) && (r is Ok
                    <==> #[trigger] self.validation(s, e) is Ok) && (r is Err ==> r->Err_0@
                    == self.validation(s, e)->Err_0),
    {
        let (start, end) = self.start_end_local();
        let s = local_timestamp(start);
        let e = local_timestamp(end);
        let r = self.validate_with(s, e);
        assert(local_instant_of(self.start_at(), s) && local_instant_of(self.end_at(), e) && (r is Ok
            <==> self.validation(s, e) is Ok) && (r is Err ==> r->Err_0@ == self.validation(s, e)->Err_0));
        r
    }

    /// The event the form describes, given the local-time instants of its
    /// start and end: refused exactly as `validate_with` refuses; otherwise
    /// the title, the non-empty texts, the times and the recurrence rule.
    pub fn to_event_with(&self, start: Option<i64>, end: Option<i64>) -> (r: Result<Event, String>)
        requires
            self.until_date matches Some(u) ==> u.wf(),
        ensures
            r is Ok <==> self.validation(start, end) is Ok,
            r is Err ==> r->Err_0@ == self.validation(start, end)->Err_0,
            r is Ok ==> {
                let ev = r->Ok_0;
                &&& ev == self.spec_event(ev.recurrence_rule)
                &&& ev.recurrence_rule is Some == self.is_recurring
                &&& ev.recurrence_rule matches Some(s) ==> s@ == ascii_chars(build_bytes(self.builder()))
            },
    {
        match self.validate_with(start, end) {
            Err(e) => Err(e),
            Ok(()) => {
                let ev = Event {
                    id: None,
                    title: self.title.clone(),
                    description: none_if_empty_of(&self.description),
                    location: none_if_empty_of(&self.location),
                    start: LocalDateTime { date: self.date, time: self.start_time },
                    end: LocalDateTime { date: self.end_date, time: self.end_time },
                    all_day: self.all_day,
                    category: none_if_empty_of(&self.category),
                    color: none_if_empty_of(&self.color),
                    recurrence_rule: self.build_rrule(),
                    recurrence_exceptions: None,
                    created_at: None,
                    updated_at: None,
                };
                Ok(ev)
            },
        }
    }

    /// The event the form describes, asking the local time zone for the
    /// instants of its start and end.
    pub fn to_event(&self) -> (r: Result<Event, String>)
        requires
            self.wf(),
        ensures
            exists|s: Option<i64>, e: Option<i64>|
                local_instant_of(self.start_at(), s) && local_instant_of(self.end_at(), e) && (r is Ok
                    <==> #[trigger] self.validation(s, e) is Ok) && (r is Err ==> r->Err_0@
                    == self.validation(s, e)->Err_0),
            r is Ok ==> {
                let ev = r->Ok_0;
                &&& ev == self.spec_event(ev.recurrence_rule)
                &&& ev.recurrence_rule is Some == self.is_recurring
                &&& ev.recurrence_rule matches Some(s) ==> s@ == ascii_chars(build_bytes(self.builder()))
            },
    {
        let (start, end) = self.start_end_local();
        let s = local_timestamp(start);
        let e = local_timestamp(end);
        let r = self.to_event_with(s, e);
        assert(local_instant_of(self.start_at(), s) && local_instant_of(self.end_at(), e) && (r is Ok
            <==> self.validation(s, e) is Ok) && (r is Err ==> r->Err_0@ == self.validation(s, e)->Err_0));
        r
    }

    /// The event to store when saving: the form's event, with the edited
    /// event's id when there is one.
    pub fn save_request(&self) -> (r: Result<Event, String>)
        requires
            self.wf(),
        ensures
            exists|s: Option<i64>, e: Option<i64>|
                local_instant_of(self.start_at(), s) && local_instant_of(self.end_at(), e) && (r is Ok
                    <==> #[trigger] self.validation(s, e) is Ok) && (r is Err ==> r->Err_0@
                    == self.validation(s, e)->Err_0),
            r is Ok ==> {
                let ev = r->Ok_0;
                &&& ev == self.spec_event(ev.recurrence_rule).with_id(self.event_id)
                &&& ev.recurrence_rule is Some == self.is_recurring
            },
    {
        match self.to_event() {
            Err(e) => Err(e),
            Ok(ev) => {
                let mut ev = ev;
                ev.id = self.event_id;
                Ok(ev)
            },
        }
    }

    /// The answer of a save, given the event from `save_request` and the
    /// store's answer: an update answers that event, a creation the stored
    /// one; a failure is reported as such.
    pub fn save_result(&self, event: Event, stored: Result<Event, String>) -> (r: Result<Event, String>)
        ensures
            self.event_id is Some && stored is Ok ==> r == Ok::<Event, String>(event),
            self.event_id is None && stored is Ok ==> r == stored,
            self.event_id is Some && stored is Err ==> r is Err && r->Err_0@ == "Failed to update event: "@
                + stored->Err_0@,
            self.event_id is None && stored is Err ==> r is Err && r->Err_0@ == "Failed to create event: "@
                + stored->Err_0@,
    {
        let updating = self.event_id.is_some();
        match stored {
            Ok(created) => {
                if updating {
                    Ok(event)
                } else {
                    Ok(created)
                }
            },
            Err(e) => {
                let mut msg = String::from_str(
                    if updating {
                        "Failed to update event: "
                    } else {
                        "Failed to create event: "
                    },
                );
                msg.append(e.as_str());
                Err(msg)
            },
        }
    }

    /// Whether the weekday `index` (0 = Sunday, taken modulo 7) is selected.
    pub fn weekday_flag(&self, index: u8) -> (r: bool)
        ensures
            r == self.flags()[(index % 7) as int],
    {
        match index % 7 {
            0 => self.byday_sunday,
            1 => self.byday_monday,
            2 => self.byday_tuesday,
            3 => self.byday_wednesday,
            4 => self.byday_thursday,
            5 => self.byday_friday,
            _ => self.byday_saturday,
        }
    }

    /// Selects or clears the weekday `index` (0 = Sunday, taken modulo 7).
    pub fn set_weekday_flag(&mut self, index: u8, value: bool)
        ensures
            final(self).byday_sunday == if index % 7 == 0 { value } else { old(self).byday_sunday },
            final(self).byday_monday == if index % 7 == 1 { value } else { old(self).byday_monday },
            final(self).byday_tuesday == if index % 7 == 2 { value } else { old(self).byday_tuesday },
            final(self).byday_wednesday == if index % 7 == 3 {
                value
            } else {
                old(self).byday_wednesday
            },
            final(self).byday_thursday == if index % 7 == 4 { value } else { old(self).byday_thursday },
            final(self).byday_friday == if index % 7 == 5 { value } else { old(self).byday_friday },
            final(self).byday_saturday == if index % 7 == 6 { value } else { old(self).byday_saturday },
            final(self).title == old(self).title,
            final(self).date == old(self).date,
            final(self).is_recurring == old(self).is_recurring,
            final(self).byday_enabled == old(self).byday_enabled,
    {
        let i = index % 7;
        if i == 0 {
            self.byday_sunday = value;
        } else if i == 1 {
            self.byday_monday = value;
        } else if i == 2 {
            self.byday_tuesday = value;
        } else if i == 3 {
            self.byday_wednesday = value;
        } else if i == 4 {
            self.byday_thursday = value;
        } else if i == 5 {
            self.byday_friday = value;
        } else {
            self.byday_saturday = value;
        }
    }
}

/// `total` seconds split into whole days (rounded down) and the seconds
/// left in the last day.
fn split_days(total: i64) -> (r: (i64, i64))
    requires
        -1_000_000_000_000 <= total <= 1_000_000_000_000,
    ensures
        r.0 == total / 86400,
        r.1 == total % 86400,
{
    if total >= 0 {
        (total / 86400, total % 86400)
    } else {
        let p: i64 = -total;
        let q: i64 = (p + 86399) / 86400;
        let k: i64 = -q;
        let rem: i64 = total - k * 86400;
        assert(0 <= rem < 86400) by {
            assert(q * 86400 <= p + 86399 < q * 86400 + 86400);
        }
        assert(total / 86400 == k && total % 86400 == rem) by {
            vstd::arithmetic::div_mod::lemma_fundamental_div_mod_converse(
                total as int,
                86400,
                k as int,
                rem as int,
            );
        }
        (k, rem)
    }
}

/// The start a new event from a template gets: the given time for a timed
/// template, otherwise the default start.
pub open spec fn template_start(
    time: Option<TimeOfDay>,
    template: EventTemplate,
    settings: Settings,
) -> TimeOfDay {
    match time {
        Some(t) => if !template.all_day {
            t
        } else {
            new_event_start(None, settings)
        },
        None => new_event_start(None, settings),
    }
}

/// Seconds from midnight of the event day to the end of an event made from
/// the template.
pub open spec fn template_end_seconds(
    time: Option<TimeOfDay>,
    template: EventTemplate,
    settings: Settings,
) -> int {
    template_start(time, template, settings).seconds() + template.duration_minutes * 60
}

/// A new event can be made from the template on `date`: its default
/// layout is representable and so is the day its end falls on.
pub open spec fn template_event_defined(
    date: CalDate,
    time: Option<TimeOfDay>,
    template: EventTemplate,
    settings: Settings,
) -> bool {
    &&& new_event_defined(date, None, settings)
    &&& time matches Some(t) ==> t.wf()
    &&& !template.all_day ==> spec_add_days(date, template_end_seconds(time, template, settings) / 86400) is Some
}

impl EventDialogState {
    /// The form for a new event on `date` made from a template: its title,
    /// texts, colour (the default when it has none) and all-day flag; a
    /// timed template starts at `time` when given and lasts its length
    /// (the end moves to a later day when it passes midnight).
    pub fn new_from_template(date: CalDate, time: Option<TimeOfDay>, template: &EventTemplate, settings: &Settings) -> (r: Self)
        requires
            date.wf(),
            template_event_defined(date, time, *template, *settings),
        ensures
            r.title == template.title,
            r.description@ == text_or_empty(template.description),
            r.location@ == text_or_empty(template.location),
            r.category@ == text_or_empty(template.category),
            r.color@ == match template.color {
                Some(c) => c@,
                None => default_event_color(),
            },
            r.all_day == template.all_day,
            r.date == date,
            r.start_time == template_start(time, *template, *settings),
            template.all_day ==> r.end_date == date && r.end_time == time_after(
                new_event_start(None, *settings),
                settings.default_event_duration as int,
            ),
            !template.all_day ==> {
                let total = template_end_seconds(time, *template, *settings);
                &&& r.end_time == time_after(template_start(time, *template, *settings), template.duration_minutes as int)
                &&& r.end_date == if total / 86400 > 0 {
                    spec_add_days(date, total / 86400)->Some_0
                } else {
                    date
                }
            },
            r.event_id is None,
            !r.is_recurring,
    {
        let mut state = EventDialogState::new_event(date, settings);
        state.title = template.title.clone();
        state.description = text_or_empty_of(&template.description);
        state.location = text_or_empty_of(&template.location);
        state.category = text_or_empty_of(&template.category);
        state.color = match &template.color {
            Some(c) => c.clone(),
            None => String::from_str("#3B82F6"),
        };
        state.all_day = template.all_day;
        if !template.all_day {
            match time {
                Some(t) => {
                    state.start_time = t;
                },
                None => {},
            }
            let st = state.start_time;
            let total: i64 = st.hour as i64 * 3600 + st.minute as i64 * 60 + st.second as i64
                + template.duration_minutes as i64 * 60;
            let (days, rem) = split_days(total);
            state.end_time = TimeOfDay {
                hour: (rem / 3600) as u32,
                minute: ((rem % 3600) / 60) as u32,
                second: (rem % 60) as u32,
            };
            if days > 0 {
                match add_days(date, days) {
                    Some(d) => {
                        state.end_date = d;
                    },
                    None => {},
                }
            }
        }
        state
    }
}

impl EventDialogState {
    /// Makes the new event recur as a preset rule asks: weekly, monthly or
    /// yearly when the rule names that frequency (checked in that order),
    /// daily otherwise.
    pub fn apply_recurrence_preset(&mut self, rrule: &str)
        ensures
            final(self).is_recurring,
            final(self).frequency == if occurs_in("WEEKLY"@, rrule@) {
                RecurrenceFrequency::Weekly
            } else if occurs_in("MONTHLY"@, rrule@) {
                RecurrenceFrequency::Monthly
            } else if occurs_in("YEARLY"@, rrule@) {
                RecurrenceFrequency::Yearly
            } else {
                RecurrenceFrequency::Daily
            },
            final(self).title == old(self).title,
            final(self).date == old(self).date,
            final(self).interval == old(self).interval,
            final(self).pattern == old(self).pattern,
            final(self).flags() == old(self).flags(),
    {
        self.is_recurring = true;
        self.frequency = if contains_text(rrule, "WEEKLY") {
            RecurrenceFrequency::Weekly
        } else if contains_text(rrule, "MONTHLY") {
            RecurrenceFrequency::Monthly
        } else if contains_text(rrule, "YEARLY") {
            RecurrenceFrequency::Yearly
        } else {
            RecurrenceFrequency::Daily
        };
    }
}

/// An event made by the editor opens in the editor as it was written: the
/// same title, texts, dates and times, and a recurrence that reads back as
/// the rule the form wrote (`expected_parse` of the form's settings) when
/// the event recurs, none otherwise. The end date of the rule must have a
/// four-digit year.
pub proof fn lemma_editor_round_trip(s: EventDialogState, ev: Event, reopened: EventDialogState)
    requires
        s.is_recurring ==> s.interval >= 1,
        s.until_date matches Some(u) ==> u.wf() && 0 <= u.year <= 9999,
        ev == s.spec_event(ev.recurrence_rule),
        ev.recurrence_rule is Some == s.is_recurring,
        ev.recurrence_rule matches Some(r) ==> r@ == ascii_chars(build_bytes(s.builder())),
        reopened.shows_event(ev),
    ensures
        reopened.title == s.title,
        reopened.date == s.date,
        reopened.end_date == s.end_date,
        reopened.start_time == s.start_time,
        reopened.end_time == s.end_time,
        reopened.all_day == s.all_day,
        reopened.description@ == s.description@,
        reopened.location@ == s.location@,
        reopened.category@ == s.category@,
        s.color@.len() > 0 ==> reopened.color@ == s.color@,
        s.is_recurring ==> {
            let e = expected_parse(s.builder());
            &&& reopened.is_recurring
            &&& reopened.frequency == e.frequency
            &&& reopened.interval == e.interval
            &&& reopened.count == e.count
            &&& reopened.until_date == e.until_date
            &&& reopened.pattern == e.pattern
            &&& reopened.flags() =~= e.byday_flags
        },
        !s.is_recurring ==> !reopened.is_recurring,
{
    if s.is_recurring {
        lemma_parse_build_roundtrip(s.builder());
    }
}

} // verus!
