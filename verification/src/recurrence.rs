//! Recurrence rules: the choices of the event dialog (frequency, interval,
//! weekday pattern, end condition) and their RRULE text.
//!
//! `ParsedRRule::parse` reads an RRULE string into the dialog's fields and
//! `RRuleBuilder::build` writes them back; `lemma_parse_build_roundtrip`
//! shows that reading what was written gives the same choices back.

use crate::calendar_date::{is_valid_ymd, mk_date, CalDate};
use crate::text::{
    all_ascii, ascii_chars, decimal_bytes, decimal_digits, find_byte, find_first, join_with, lacks,
    lemma_find_first_bounds, lemma_split_on_first, parse_i32_range, parse_signed,
    parse_u32_range, parse_unsigned, push_ascii, range_is, split_on,
};
use vstd::prelude::*;
use vstd::string::StringSliceAdditionalSpecFns;

verus! {

#[derive(Debug, Clone, Copy, PartialEq, Eq, Structural)]
pub enum RecurrenceFrequency {
    Daily,
    Weekly,
    Monthly,
    Yearly,
}

#[derive(Debug, Clone, Copy, PartialEq, Eq, Structural)]
pub enum Weekday {
    Sunday,
    Monday,
    Tuesday,
    Wednesday,
    Thursday,
    Friday,
    Saturday,
}

#[derive(Debug, Clone, Copy, PartialEq, Eq, Structural)]
pub enum RecurrencePattern {
    NoPattern,
    FirstDayOfPeriod,
    LastDayOfPeriod,
    FirstWeekdayOfPeriod(Weekday),
    LastWeekdayOfPeriod(Weekday),
}

/// The bytes of an ASCII word given as characters.
pub open spec fn word(s: Seq<char>) -> Seq<u8> {
    s.map_values(|c: char| c as u8)
}

pub open spec fn kw_freq() -> Seq<u8> {
    word(seq!['F', 'R', 'E', 'Q'])
}

pub open spec fn kw_interval() -> Seq<u8> {
    word(seq!['I', 'N', 'T', 'E', 'R', 'V', 'A', 'L'])
}

pub open spec fn kw_count() -> Seq<u8> {
    word(seq!['C', 'O', 'U', 'N', 'T'])
}

pub open spec fn kw_until() -> Seq<u8> {
    word(seq!['U', 'N', 'T', 'I', 'L'])
}

pub open spec fn kw_bymonthday() -> Seq<u8> {
    word(seq!['B', 'Y', 'M', 'O', 'N', 'T', 'H', 'D', 'A', 'Y'])
}

pub open spec fn kw_byday() -> Seq<u8> {
    word(seq!['B', 'Y', 'D', 'A', 'Y'])
}

/// RRULE name of a frequency (`FREQ=` value).
pub open spec fn freq_code(f: RecurrenceFrequency) -> Seq<u8> {
    match f {
        RecurrenceFrequency::Daily => word(seq!['D', 'A', 'I', 'L', 'Y']),
        RecurrenceFrequency::Weekly => word(seq!['W', 'E', 'E', 'K', 'L', 'Y']),
        RecurrenceFrequency::Monthly => word(seq!['M', 'O', 'N', 'T', 'H', 'L', 'Y']),
        RecurrenceFrequency::Yearly => word(seq!['Y', 'E', 'A', 'R', 'L', 'Y']),
    }
}

/// Frequency named by a `FREQ=` value; anything unknown reads as daily.
pub open spec fn freq_from_value(v: Seq<u8>) -> RecurrenceFrequency {
    if v == freq_code(RecurrenceFrequency::Daily) {
        RecurrenceFrequency::Daily
    } else if v == freq_code(RecurrenceFrequency::Weekly) {
        RecurrenceFrequency::Weekly
    } else if v == freq_code(RecurrenceFrequency::Monthly) {
        RecurrenceFrequency::Monthly
    } else if v == freq_code(RecurrenceFrequency::Yearly) {
        RecurrenceFrequency::Yearly
    } else {
        RecurrenceFrequency::Daily
    }
}

/// Two-letter RRULE code of a weekday.
pub open spec fn day_code(w: Weekday) -> Seq<u8> {
    match w {
        Weekday::Sunday => word(seq!['S', 'U']),
        Weekday::Monday => word(seq!['M', 'O']),
        Weekday::Tuesday => word(seq!['T', 'U']),
        Weekday::Wednesday => word(seq!['W', 'E']),
        Weekday::Thursday => word(seq!['T', 'H']),
        Weekday::Friday => word(seq!['F', 'R']),
        Weekday::Saturday => word(seq!['S', 'A']),
    }
}

/// The characters of a weekday's two-letter code.
pub open spec fn day_code_chars(w: Weekday) -> Seq<char> {
    match w {
        Weekday::Sunday => seq!['S', 'U'],
        Weekday::Monday => seq!['M', 'O'],
        Weekday::Tuesday => seq!['T', 'U'],
        Weekday::Wednesday => seq!['W', 'E'],
        Weekday::Thursday => seq!['T', 'H'],
        Weekday::Friday => seq!['F', 'R'],
        Weekday::Saturday => seq!['S', 'A'],
    }
}

/// Weekday named by a two-letter code.
pub open spec fn weekday_from_code(s: Seq<u8>) -> Option<Weekday> {
    if s == day_code(Weekday::Sunday) {
        Some(Weekday::Sunday)
    } else if s == day_code(Weekday::Monday) {
        Some(Weekday::Monday)
    } else if s == day_code(Weekday::Tuesday) {
        Some(Weekday::Tuesday)
    } else if s == day_code(Weekday::Wednesday) {
        Some(Weekday::Wednesday)
    } else if s == day_code(Weekday::Thursday) {
        Some(Weekday::Thursday)
    } else if s == day_code(Weekday::Friday) {
        Some(Weekday::Friday)
    } else if s == day_code(Weekday::Saturday) {
        Some(Weekday::Saturday)
    } else {
        None
    }
}

/// Position of a weekday, Sunday = 0.
pub open spec fn weekday_pos(w: Weekday) -> int {
    match w {
        Weekday::Sunday => 0,
        Weekday::Monday => 1,
        Weekday::Tuesday => 2,
        Weekday::Wednesday => 3,
        Weekday::Thursday => 4,
        Weekday::Friday => 5,
        Weekday::Saturday => 6,
    }
}

/// Weekday at a position `0..7`, Sunday = 0.
pub open spec fn weekday_at(i: int) -> Weekday {
    if i == 0 {
        Weekday::Sunday
    } else if i == 1 {
        Weekday::Monday
    } else if i == 2 {
        Weekday::Tuesday
    } else if i == 3 {
        Weekday::Wednesday
    } else if i == 4 {
        Weekday::Thursday
    } else if i == 5 {
        Weekday::Friday
    } else {
        Weekday::Saturday
    }
}

impl RecurrenceFrequency {
    pub fn as_str(&self) -> (r: &'static str)
        ensures
            r@ == (match *self {
                RecurrenceFrequency::Daily => "Daily"@,
                RecurrenceFrequency::Weekly => "Weekly"@,
                RecurrenceFrequency::Monthly => "Monthly"@,
                RecurrenceFrequency::Yearly => "Yearly"@,
            }),
    {
        match self {
            RecurrenceFrequency::Daily => "Daily",
            RecurrenceFrequency::Weekly => "Weekly",
            RecurrenceFrequency::Monthly => "Monthly",
            RecurrenceFrequency::Yearly => "Yearly",
        }
    }

    /// The `FREQ=` value of this frequency.
    pub fn to_rrule_freq(&self) -> (r: &'static str)
        ensures
            r@ == (match *self {
                RecurrenceFrequency::Daily => "DAILY"@,
                RecurrenceFrequency::Weekly => "WEEKLY"@,
                RecurrenceFrequency::Monthly => "MONTHLY"@,
                RecurrenceFrequency::Yearly => "YEARLY"@,
            }),
    {
        match self {
            RecurrenceFrequency::Daily => "DAILY",
            RecurrenceFrequency::Weekly => "WEEKLY",
            RecurrenceFrequency::Monthly => "MONTHLY",
            RecurrenceFrequency::Yearly => "YEARLY",
        }
    }
}

impl RecurrencePattern {
    pub fn as_str(&self) -> (r: &'static str)
        ensures
            r@ == (match *self {
                RecurrencePattern::NoPattern => "None"@,
                RecurrencePattern::FirstDayOfPeriod => "First Day"@,
                RecurrencePattern::LastDayOfPeriod => "Last Day"@,
                RecurrencePattern::FirstWeekdayOfPeriod(_) => "First Weekday"@,
                RecurrencePattern::LastWeekdayOfPeriod(_) => "Last Weekday"@,
            }),
    {
        match self {
            RecurrencePattern::NoPattern => "None",
            RecurrencePattern::FirstDayOfPeriod => "First Day",
            RecurrencePattern::LastDayOfPeriod => "Last Day",
            RecurrencePattern::FirstWeekdayOfPeriod(_) => "First Weekday",
            RecurrencePattern::LastWeekdayOfPeriod(_) => "Last Weekday",
        }
    }

    /// The weekday of a first/last-weekday pattern.
    pub fn selected_weekday(&self) -> (r: Option<Weekday>)
        ensures
            r == (match *self {
                RecurrencePattern::FirstWeekdayOfPeriod(d) => Some(d),
                RecurrencePattern::LastWeekdayOfPeriod(d) => Some(d),
                _ => None,
            }),
    {
        match self {
            RecurrencePattern::FirstWeekdayOfPeriod(day) => Some(*day),
            RecurrencePattern::LastWeekdayOfPeriod(day) => Some(*day),
            _ => None,
        }
    }

    /// The same pattern on another weekday; other patterns are unchanged.
    pub fn with_weekday(self, weekday: Weekday) -> (r: RecurrencePattern)
        ensures
            r == (match self {
                RecurrencePattern::FirstWeekdayOfPeriod(_) => RecurrencePattern::FirstWeekdayOfPeriod(
                    weekday,
                ),
                RecurrencePattern::LastWeekdayOfPeriod(_) => RecurrencePattern::LastWeekdayOfPeriod(
                    weekday,
                ),
                other => other,
            }),
    {
        match self {
            RecurrencePattern::FirstWeekdayOfPeriod(_) => RecurrencePattern::FirstWeekdayOfPeriod(
                weekday,
            ),
            RecurrencePattern::LastWeekdayOfPeriod(_) => RecurrencePattern::LastWeekdayOfPeriod(
                weekday,
            ),
            other => other,
        }
    }
}

impl Weekday {
    pub fn as_str(&self) -> (r: &'static str)
        ensures
            r@ == (match *self {
                Weekday::Sunday => "Sunday"@,
                Weekday::Monday => "Monday"@,
                Weekday::Tuesday => "Tuesday"@,
                Weekday::Wednesday => "Wednesday"@,
                Weekday::Thursday => "Thursday"@,
                Weekday::Friday => "Friday"@,
                Weekday::Saturday => "Saturday"@,
            }),
    {
        match self {
            Weekday::Sunday => "Sunday",
            Weekday::Monday => "Monday",
            Weekday::Tuesday => "Tuesday",
            Weekday::Wednesday => "Wednesday",
            Weekday::Thursday => "Thursday",
            Weekday::Friday => "Friday",
            Weekday::Saturday => "Saturday",
        }
    }

    /// Two-letter RRULE code.
    pub fn to_rrule_day(&self) -> (r: &'static str)
        ensures
            r@ == (match *self {
                Weekday::Sunday => "SU"@,
                Weekday::Monday => "MO"@,
                Weekday::Tuesday => "TU"@,
                Weekday::Wednesday => "WE"@,
                Weekday::Thursday => "TH"@,
                Weekday::Friday => "FR"@,
                Weekday::Saturday => "SA"@,
            }),
            r@ == day_code_chars(*self),
    {
        proof {
            reveal_strlit("SU");
            reveal_strlit("MO");
            reveal_strlit("TU");
            reveal_strlit("WE");
            reveal_strlit("TH");
            reveal_strlit("FR");
            reveal_strlit("SA");
        }
        match self {
            Weekday::Sunday => "SU",
            Weekday::Monday => "MO",
            Weekday::Tuesday => "TU",
            Weekday::Wednesday => "WE",
            Weekday::Thursday => "TH",
            Weekday::Friday => "FR",
            Weekday::Saturday => "SA",
        }
    }

    /// Weekday named by a two-letter RRULE code.
    pub fn from_rrule_day(day: &str) -> (r: Option<Weekday>)
        ensures
            r == weekday_from_code(day.spec_bytes()),
    {
        let bytes = day.as_bytes();
        assert(bytes@.subrange(0, bytes@.len() as int) =~= bytes@);
        weekday_from_range(bytes, 0, bytes.len())
    }

    /// Weekday at `index % 7`, Sunday = 0.
    pub fn from_index(index: u8) -> (r: Option<Weekday>)
        ensures
            r == Some(weekday_at((index % 7) as int)),
    {
        match index % 7 {
            0 => Some(Weekday::Sunday),
            1 => Some(Weekday::Monday),
            2 => Some(Weekday::Tuesday),
            3 => Some(Weekday::Wednesday),
            4 => Some(Weekday::Thursday),
            5 => Some(Weekday::Friday),
            6 => Some(Weekday::Saturday),
            _ => None,
        }
    }

    pub fn short_label(&self) -> (r: &'static str)
        ensures
            r@ == (match *self {
                Weekday::Sunday => "Sun"@,
                Weekday::Monday => "Mon"@,
                Weekday::Tuesday => "Tue"@,
                Weekday::Wednesday => "Wed"@,
                Weekday::Thursday => "Thu"@,
                Weekday::Friday => "Fri"@,
                Weekday::Saturday => "Sat"@,
            }),
    {
        match self {
            Weekday::Sunday => "Sun",
            Weekday::Monday => "Mon",
            Weekday::Tuesday => "Tue",
            Weekday::Wednesday => "Wed",
            Weekday::Thursday => "Thu",
            Weekday::Friday => "Fri",
            Weekday::Saturday => "Sat",
        }
    }

    /// The seven weekdays from Sunday to Saturday.
    pub fn all() -> (r: [Weekday; 7])
        ensures
            forall|i: int| 0 <= i < 7 ==> #[trigger] r[i] == weekday_at(i),
    {
        [
            Weekday::Sunday,
            Weekday::Monday,
            Weekday::Tuesday,
            Weekday::Wednesday,
            Weekday::Thursday,
            Weekday::Friday,
            Weekday::Saturday,
        ]
    }
}

/// Two-letter code in `bytes[lo..hi]`.
fn weekday_from_range(bytes: &[u8], lo: usize, hi: usize) -> (r: Option<Weekday>)
    requires
        lo <= hi <= bytes@.len(),
    ensures
        r == weekday_from_code(bytes@.subrange(lo as int, hi as int)),
{
    let su = ['S' as u8, 'U' as u8];
    let mo = ['M' as u8, 'O' as u8];
    let tu = ['T' as u8, 'U' as u8];
    let we = ['W' as u8, 'E' as u8];
    let th = ['T' as u8, 'H' as u8];
    let fr = ['F' as u8, 'R' as u8];
    let sa = ['S' as u8, 'A' as u8];
    proof {
        assert(su@ =~= day_code(Weekday::Sunday));
        assert(mo@ =~= day_code(Weekday::Monday));
        assert(tu@ =~= day_code(Weekday::Tuesday));
        assert(we@ =~= day_code(Weekday::Wednesday));
        assert(th@ =~= day_code(Weekday::Thursday));
        assert(fr@ =~= day_code(Weekday::Friday));
        assert(sa@ =~= day_code(Weekday::Saturday));
    }
    if range_is(bytes, lo, hi, su.as_slice()) {
        Some(Weekday::Sunday)
    } else if range_is(bytes, lo, hi, mo.as_slice()) {
        Some(Weekday::Monday)
    } else if range_is(bytes, lo, hi, tu.as_slice()) {
        Some(Weekday::Tuesday)
    } else if range_is(bytes, lo, hi, we.as_slice()) {
        Some(Weekday::Wednesday)
    } else if range_is(bytes, lo, hi, th.as_slice()) {
        Some(Weekday::Thursday)
    } else if range_is(bytes, lo, hi, fr.as_slice()) {
        Some(Weekday::Friday)
    } else if range_is(bytes, lo, hi, sa.as_slice()) {
        Some(Weekday::Saturday)
    } else {
        None
    }
}

/// A byte position of a UTF-8 text that `str` slicing accepts: the end, or
/// not inside a multi-byte character.
pub open spec fn at_char_boundary(v: Seq<u8>, i: int) -> bool {
    i == v.len() || !(128 <= v[i] < 192)
}

/// `parse_until_date` slices its input at bytes 4, 6 and 8 when it has at
/// least 8 bytes; those must be character boundaries.
pub open spec fn until_value_sliceable(v: Seq<u8>) -> bool {
    v.len() < 8 || (at_char_boundary(v, 4) && at_char_boundary(v, 6) && at_char_boundary(v, 8))
}

/// Date of an `UNTIL=` value: `YYYYMMDD` at the front of the value.
pub open spec fn spec_parse_until(v: Seq<u8>) -> Option<CalDate> {
    if v.len() < 8 {
        None
    } else {
        match (
            parse_signed(v.subrange(0, 4), i32::MIN as int, i32::MAX as int),
            parse_unsigned(v.subrange(4, 6), u32::MAX as int),
            parse_unsigned(v.subrange(6, 8), u32::MAX as int),
        ) {
            (Some(y), Some(m), Some(d)) => if is_valid_ymd(y, m, d) {
                Some(mk_date(y, m, d))
            } else {
                None
            },
            _ => None,
        }
    }
}

/// An `UNTIL` value is read by its leading `YYYYMMDD` date: whatever
/// follows the eight date bytes (such as a `THHMMSSZ` time) does not change
/// what it reads as, and a value shorter than a date reads as none.
pub proof fn lemma_until_reads_leading_date(date: Seq<u8>, rest: Seq<u8>)
    requires
        date.len() == 8,
    ensures
        spec_parse_until(date + rest) == spec_parse_until(date),
        forall|v: Seq<u8>| v.len() < 8 ==> #[trigger] spec_parse_until(v) is None,
{
    let v = date + rest;
    assert(v.subrange(0, 4) =~= date.subrange(0, 4));
    assert(v.subrange(4, 6) =~= date.subrange(4, 6));
    assert(v.subrange(6, 8) =~= date.subrange(6, 8));
}

/// Reads the leading `YYYYMMDD` of an RRULE `UNTIL` value.
pub fn parse_until_date(value: &str) -> (r: Option<CalDate>)
    requires
        until_value_sliceable(value.spec_bytes()),
    ensures
        r == spec_parse_until(value.spec_bytes()),
{
    let bytes = value.as_bytes();
    assert(bytes@.subrange(0, bytes@.len() as int) =~= bytes@);
    parse_until_range(bytes, 0, bytes.len())
}

fn parse_until_range(bytes: &[u8], lo: usize, hi: usize) -> (r: Option<CalDate>)
    requires
        lo <= hi <= bytes@.len(),
    ensures
        r == spec_parse_until(bytes@.subrange(lo as int, hi as int)),
{
    let ghost v = bytes@.subrange(lo as int, hi as int);
    if hi - lo < 8 {
        return None;
    }
    assert(v.subrange(0, 4) =~= bytes@.subrange(lo as int, lo + 4));
    assert(v.subrange(4, 6) =~= bytes@.subrange(lo + 4, lo + 6));
    assert(v.subrange(6, 8) =~= bytes@.subrange(lo + 6, lo + 8));
    let year = match parse_i32_range(bytes, lo, lo + 4) {
        Some(y) => y,
        None => {
            return None;
        },
    };
    let month = match parse_u32_range(bytes, lo + 4, lo + 6) {
        Some(m) => m,
        None => {
            return None;
        },
    };
    let day = match parse_u32_range(bytes, lo + 6, lo + 8) {
        Some(d) => d,
        None => {
            return None;
        },
    };
    CalDate::from_ymd_opt(year, month, day)
}

/// Structured form of an RRULE string.
#[derive(Debug, Clone, Copy)]
pub struct ParsedRRule {
    pub is_recurring: bool,
    pub frequency: RecurrenceFrequency,
    pub interval: u32,
    pub count: Option<u32>,
    pub until_date: Option<CalDate>,
    pub pattern: RecurrencePattern,
    pub byday_flags: [bool; 7],
}

/// Flags with position `i` set.
pub open spec fn set_flag(f: [bool; 7], i: int) -> [bool; 7] {
    [
        i == 0 || f[0],
        i == 1 || f[1],
        i == 2 || f[2],
        i == 3 || f[3],
        i == 4 || f[4],
        i == 5 || f[5],
        i == 6 || f[6],
    ]
}

/// Value of `ParsedRRule::default()`.
pub open spec fn default_parsed() -> ParsedRRule {
    ParsedRRule {
        is_recurring: false,
        frequency: RecurrenceFrequency::Daily,
        interval: 1,
        count: None,
        until_date: None,
        pattern: RecurrencePattern::NoPattern,
        byday_flags: [false, false, false, false, false, false, false],
    }
}

/// Effect of one entry of a `BYDAY` list: `1XX`/`-1XX` select a
/// first/last-weekday pattern, a bare code marks that weekday.
pub open spec fn apply_day(r: ParsedRRule, day: Seq<u8>) -> ParsedRRule {
    if day.len() > 2 {
        if day[0] == 49 && day.len() == 3 {
            match weekday_from_code(day.subrange(1, 3)) {
                Some(w) => ParsedRRule { pattern: RecurrencePattern::FirstWeekdayOfPeriod(w), ..r },
                None => r,
            }
        } else if day[0] == 45 && day[1] == 49 && day.len() == 4 {
            match weekday_from_code(day.subrange(2, 4)) {
                Some(w) => ParsedRRule { pattern: RecurrencePattern::LastWeekdayOfPeriod(w), ..r },
                None => r,
            }
        } else {
            r
        }
    } else {
        match weekday_from_code(day) {
            Some(w) => ParsedRRule { byday_flags: set_flag(r.byday_flags, weekday_pos(w)), ..r },
            None => r,
        }
    }
}

/// Entries of a `BYDAY` list applied from left to right.
pub open spec fn fold_days(r: ParsedRRule, days: Seq<Seq<u8>>) -> ParsedRRule
    decreases days.len(),
{
    if days.len() == 0 {
        r
    } else {
        fold_days(apply_day(r, days[0]), days.drop_first())
    }
}

/// Effect of one `KEY=VALUE` entry; unknown keys and unreadable values
/// change nothing.
pub open spec fn apply_kv(r: ParsedRRule, key: Seq<u8>, value: Seq<u8>) -> ParsedRRule {
    if key == kw_freq() {
        ParsedRRule { frequency: freq_from_value(value), ..r }
    } else if key == kw_interval() {
        match parse_unsigned(value, u32::MAX as int) {
            Some(v) => ParsedRRule { interval: v as u32, ..r },
            None => r,
        }
    } else if key == kw_count() {
        match parse_unsigned(value, u32::MAX as int) {
            Some(v) => ParsedRRule { count: Some(v as u32), ..r },
            None => r,
        }
    } else if key == kw_until() {
        ParsedRRule { until_date: spec_parse_until(value), ..r }
    } else if key == kw_bymonthday() {
        if value == word(seq!['1']) {
            ParsedRRule { pattern: RecurrencePattern::FirstDayOfPeriod, ..r }
        } else if value == word(seq!['-', '1']) {
            ParsedRRule { pattern: RecurrencePattern::LastDayOfPeriod, ..r }
        } else {
            r
        }
    } else if key == kw_byday() {
        fold_days(r, split_on(value, 44))
    } else {
        r
    }
}

/// Effect of one `;`-separated entry, split at its first `=`.
pub open spec fn apply_part(r: ParsedRRule, part: Seq<u8>) -> ParsedRRule {
    let i = find_first(part, 61);
    if i >= part.len() {
        r
    } else {
        apply_kv(r, part.subrange(0, i), part.subrange(i + 1, part.len() as int))
    }
}

/// Entries applied from left to right.
pub open spec fn fold_parts(r: ParsedRRule, parts: Seq<Seq<u8>>) -> ParsedRRule
    decreases parts.len(),
{
    if parts.len() == 0 {
        r
    } else {
        fold_parts(apply_part(r, parts[0]), parts.drop_first())
    }
}

/// What `ParsedRRule::parse` reads from the bytes of an RRULE string.
pub open spec fn spec_parse(s: Seq<u8>) -> ParsedRRule {
    fold_parts(ParsedRRule { is_recurring: true, ..default_parsed() }, split_on(s, 59))
}

/// An entry that `parse` can read without a slicing panic.
pub open spec fn part_sliceable(part: Seq<u8>) -> bool {
    let i = find_first(part, 61);
    i >= part.len() || part.subrange(0, i) != kw_until() || until_value_sliceable(
        part.subrange(i + 1, part.len() as int),
    )
}

/// Every `UNTIL` value of the string can be sliced as `parse_until_date` does.
pub open spec fn rrule_sliceable(s: Seq<u8>) -> bool {
    forall|k: int|
        0 <= k < split_on(s, 59).len() ==> part_sliceable(#[trigger] split_on(s, 59)[k])
}

fn set_flag_exec(f: [bool; 7], i: usize) -> (r: [bool; 7])
    requires
        i < 7,
    ensures
        r == set_flag(f, i as int),
{
    let r = [
        i == 0 || f[0],
        i == 1 || f[1],
        i == 2 || f[2],
        i == 3 || f[3],
        i == 4 || f[4],
        i == 5 || f[5],
        i == 6 || f[6],
    ];
    assert(r@ =~= set_flag(f, i as int)@);
    r
}

fn weekday_position(w: Weekday) -> (r: usize)
    ensures
        r == weekday_pos(w),
        r < 7,
{
    match w {
        Weekday::Sunday => 0,
        Weekday::Monday => 1,
        Weekday::Tuesday => 2,
        Weekday::Wednesday => 3,
        Weekday::Thursday => 4,
        Weekday::Friday => 5,
        Weekday::Saturday => 6,
    }
}

fn apply_day_exec(r: ParsedRRule, bytes: &[u8], lo: usize, hi: usize) -> (out: ParsedRRule)
    requires
        lo <= hi <= bytes@.len(),
    ensures
        out == apply_day(r, bytes@.subrange(lo as int, hi as int)),
{
    let ghost day = bytes@.subrange(lo as int, hi as int);
    let n = hi - lo;
    if n > 2 {
        assert(day[0] == bytes@[lo as int] && day[1] == bytes@[lo + 1]);
        if bytes[lo] == 49 && n == 3 {
            assert(day.subrange(1, 3) =~= bytes@.subrange(lo + 1, hi as int));
            match weekday_from_range(bytes, lo + 1, hi) {
                Some(w) => ParsedRRule { pattern: RecurrencePattern::FirstWeekdayOfPeriod(w), ..r },
                None => r,
            }
        } else if bytes[lo] == 45 && bytes[lo + 1] == 49 && n == 4 {
            assert(day.subrange(2, 4) =~= bytes@.subrange(lo + 2, hi as int));
            match weekday_from_range(bytes, lo + 2, hi) {
                Some(w) => ParsedRRule { pattern: RecurrencePattern::LastWeekdayOfPeriod(w), ..r },
                None => r,
            }
        } else {
            r
        }
    } else {
        match weekday_from_range(bytes, lo, hi) {
            Some(w) => {
                let flags = set_flag_exec(r.byday_flags, weekday_position(w));
                ParsedRRule { byday_flags: flags, ..r }
            },
            None => r,
        }
    }
}

fn apply_byday_exec(r: ParsedRRule, bytes: &[u8], lo: usize, hi: usize) -> (out: ParsedRRule)
    requires
        lo <= hi <= bytes@.len(),
    ensures
        out == fold_days(r, split_on(bytes@.subrange(lo as int, hi as int), 44)),
{
    let mut cur = r;
    let mut pos = lo;
    loop
        invariant
            lo <= pos <= hi <= bytes@.len(),
            fold_days(cur, split_on(bytes@.subrange(pos as int, hi as int), 44)) == fold_days(
                r,
                split_on(bytes@.subrange(lo as int, hi as int), 44),
            ),
        decreases hi - pos,
    {
        let end = find_byte(bytes, pos, hi, 44);
        let ghost rest = bytes@.subrange(pos as int, hi as int);
        proof {
            lemma_find_first_bounds(rest, 44);
            lemma_split_on_first(rest, 44, end - pos);
            assert(rest.subrange(0, end - pos) =~= bytes@.subrange(pos as int, end as int));
        }
        let ghost before = cur;
        cur = apply_day_exec(cur, bytes, pos, end);
        if end == hi {
            proof {
                let parts = split_on(rest, 44);
                assert(parts.drop_first() =~= Seq::<Seq<u8>>::empty());
                assert(rest =~= bytes@.subrange(pos as int, end as int));
                assert(parts[0] == rest);
                assert(fold_days(before, parts) == fold_days(apply_day(before, parts[0]), parts.drop_first()));
                assert(fold_days(cur, Seq::<Seq<u8>>::empty()) == cur);
            }
            return cur;
        }
        proof {
            assert(rest.subrange(end - pos + 1, rest.len() as int) =~= bytes@.subrange(
                end + 1,
                hi as int,
            ));
            let tail = split_on(bytes@.subrange(end + 1, hi as int), 44);
            let whole = seq![bytes@.subrange(pos as int, end as int)] + tail;
            assert(whole[0] == bytes@.subrange(pos as int, end as int));
            assert(whole.drop_first() =~= tail);
        }
        pos = end + 1;
    }
}

fn apply_part_exec(r: ParsedRRule, bytes: &[u8], lo: usize, hi: usize) -> (out: ParsedRRule)
    requires
        lo <= hi <= bytes@.len(),
        part_sliceable(bytes@.subrange(lo as int, hi as int)),
    ensures
        out == apply_part(r, bytes@.subrange(lo as int, hi as int)),
{
    let ghost part = bytes@.subrange(lo as int, hi as int);
    let eq = find_byte(bytes, lo, hi, 61);
    if eq == hi {
        return r;
    }
    proof {
        assert(part.subrange(0, eq - lo) =~= bytes@.subrange(lo as int, eq as int));
        assert(part.subrange(eq - lo + 1, part.len() as int) =~= bytes@.subrange(
            eq + 1,
            hi as int,
        ));
    }
    let vlo = eq + 1;
    let k_freq = ['F' as u8, 'R' as u8, 'E' as u8, 'Q' as u8];
    let k_interval = [
        'I' as u8,
        'N' as u8,
        'T' as u8,
        'E' as u8,
        'R' as u8,
        'V' as u8,
        'A' as u8,
        'L' as u8,
    ];
    let k_count = ['C' as u8, 'O' as u8, 'U' as u8, 'N' as u8, 'T' as u8];
    let k_until = ['U' as u8, 'N' as u8, 'T' as u8, 'I' as u8, 'L' as u8];
    let k_bymonthday = [
        'B' as u8,
        'Y' as u8,
        'M' as u8,
        'O' as u8,
        'N' as u8,
        'T' as u8,
        'H' as u8,
        'D' as u8,
        'A' as u8,
        'Y' as u8,
    ];
    let k_byday = ['B' as u8, 'Y' as u8, 'D' as u8, 'A' as u8, 'Y' as u8];
    let v_daily = ['D' as u8, 'A' as u8, 'I' as u8, 'L' as u8, 'Y' as u8];
    let v_weekly = ['W' as u8, 'E' as u8, 'E' as u8, 'K' as u8, 'L' as u8, 'Y' as u8];
    let v_monthly = ['M' as u8, 'O' as u8, 'N' as u8, 'T' as u8, 'H' as u8, 'L' as u8, 'Y' as u8];
    let v_yearly = ['Y' as u8, 'E' as u8, 'A' as u8, 'R' as u8, 'L' as u8, 'Y' as u8];
    let v_one = ['1' as u8];
    let v_minus_one = ['-' as u8, '1' as u8];
    proof {
        assert(k_freq@ =~= kw_freq());
        assert(k_interval@ =~= kw_interval());
        assert(k_count@ =~= kw_count());
        assert(k_until@ =~= kw_until());
        assert(k_bymonthday@ =~= kw_bymonthday());
        assert(k_byday@ =~= kw_byday());
        assert(v_daily@ =~= freq_code(RecurrenceFrequency::Daily));
        assert(v_weekly@ =~= freq_code(RecurrenceFrequency::Weekly));
        assert(v_monthly@ =~= freq_code(RecurrenceFrequency::Monthly));
        assert(v_yearly@ =~= freq_code(RecurrenceFrequency::Yearly));
        assert(v_one@ =~= word(seq!['1']));
        assert(v_minus_one@ =~= word(seq!['-', '1']));
    }
    if range_is(bytes, lo, eq, k_freq.as_slice()) {
        let f = if range_is(bytes, vlo, hi, v_daily.as_slice()) {
            RecurrenceFrequency::Daily
        } else if range_is(bytes, vlo, hi, v_weekly.as_slice()) {
            RecurrenceFrequency::Weekly
        } else if range_is(bytes, vlo, hi, v_monthly.as_slice()) {
            RecurrenceFrequency::Monthly
        } else if range_is(bytes, vlo, hi, v_yearly.as_slice()) {
            RecurrenceFrequency::Yearly
        } else {
            RecurrenceFrequency::Daily
        };
        ParsedRRule { frequency: f, ..r }
    } else if range_is(bytes, lo, eq, k_interval.as_slice()) {
        match parse_u32_range(bytes, vlo, hi) {
            Some(v) => ParsedRRule { interval: v, ..r },
            None => r,
        }
    } else if range_is(bytes, lo, eq, k_count.as_slice()) {
        match parse_u32_range(bytes, vlo, hi) {
            Some(v) => ParsedRRule { count: Some(v), ..r },
            None => r,
        }
    } else if range_is(bytes, lo, eq, k_until.as_slice()) {
        ParsedRRule { until_date: parse_until_range(bytes, vlo, hi), ..r }
    } else if range_is(bytes, lo, eq, k_bymonthday.as_slice()) {
        if range_is(bytes, vlo, hi, v_one.as_slice()) {
            ParsedRRule { pattern: RecurrencePattern::FirstDayOfPeriod, ..r }
        } else if range_is(bytes, vlo, hi, v_minus_one.as_slice()) {
            ParsedRRule { pattern: RecurrencePattern::LastDayOfPeriod, ..r }
        } else {
            r
        }
    } else if range_is(bytes, lo, eq, k_byday.as_slice()) {
        apply_byday_exec(r, bytes, vlo, hi)
    } else {
        r
    }
}

impl Default for ParsedRRule {
    fn default() -> (r: ParsedRRule)
        ensures
            r == default_parsed(),
    {
        ParsedRRule {
            is_recurring: false,
            frequency: RecurrenceFrequency::Daily,
            interval: 1,
            count: None,
            until_date: None,
            pattern: RecurrencePattern::NoPattern,
            byday_flags: [false, false, false, false, false, false, false],
        }
    }
}

impl ParsedRRule {
    /// Parse an RRULE string (`KEY=VALUE` entries separated by `;`).
    pub fn parse(rrule: &str) -> (r: ParsedRRule)
        requires
            rrule_sliceable(rrule.spec_bytes()),
        ensures
            r == spec_parse(rrule.spec_bytes()),
    {
        let bytes = rrule.as_bytes();
        let len = bytes.len();
        let ghost s = bytes@;
        let init = ParsedRRule { is_recurring: true, ..ParsedRRule::default() };
        let mut cur = init;
        let mut pos: usize = 0;
        assert(s.subrange(0, len as int) =~= s);
        loop
            invariant
                0 <= pos <= len,
                len == s.len(),
                bytes@ == s,
                s == rrule.spec_bytes(),
                init == (ParsedRRule { is_recurring: true, ..default_parsed() }),
                rrule_sliceable(s),
                fold_parts(cur, split_on(s.subrange(pos as int, len as int), 59)) == fold_parts(
                    init,
                    split_on(s, 59),
                ),
                forall|k: int|
                    0 <= k < split_on(s.subrange(pos as int, len as int), 59).len()
                        ==> part_sliceable(
                        #[trigger] split_on(s.subrange(pos as int, len as int), 59)[k],
                    ),
            decreases len - pos,
        {
            let end = find_byte(bytes, pos, len, 59);
            let ghost rest = s.subrange(pos as int, len as int);
            let ghost parts = split_on(rest, 59);
            proof {
                lemma_find_first_bounds(rest, 59);
                lemma_split_on_first(rest, 59, end - pos);
                assert(rest.subrange(0, end - pos) =~= s.subrange(pos as int, end as int));
                assert(parts[0] == s.subrange(pos as int, end as int));
                assert(part_sliceable(parts[0]));
            }
            let ghost before = cur;
            cur = apply_part_exec(cur, bytes, pos, end);
            if end == len {
                proof {
                    assert(parts.drop_first() =~= Seq::<Seq<u8>>::empty());
                    assert(fold_parts(before, parts) == fold_parts(apply_part(before, parts[0]), parts.drop_first()));
                    assert(fold_parts(cur, Seq::<Seq<u8>>::empty()) == cur);
                }
                return cur;
            }
            proof {
                assert(rest.subrange(end - pos + 1, rest.len() as int) =~= s.subrange(
                    end + 1,
                    len as int,
                ));
                let tail = split_on(s.subrange(end + 1, len as int), 59);
                assert(parts.drop_first() =~= tail);
                assert forall|k: int| 0 <= k < tail.len() implies part_sliceable(
                    #[trigger] tail[k],
                ) by {
                    assert(tail[k] == parts[k + 1]);
                }
            }
            pos = end + 1;
        }
    }
}


/// Choices of the recurrence editor, to be written as an RRULE string.
#[derive(Debug, Clone, Copy)]
pub struct RRuleBuilder {
    pub is_recurring: bool,
    pub frequency: RecurrenceFrequency,
    pub interval: u32,
    pub pattern: RecurrencePattern,
    pub byday_enabled: bool,
    /// Sunday first: `[Sun, Mon, Tue, Wed, Thu, Fri, Sat]`.
    pub byday_flags: [bool; 7],
    pub count: Option<u32>,
    pub until_date: Option<CalDate>,
}

/// `KEY=VALUE`.
pub open spec fn kv(key: Seq<u8>, value: Seq<u8>) -> Seq<u8> {
    key + seq![61u8] + value
}

/// Codes of the selected weekdays among the first `k` positions, in order.
pub open spec fn selected_codes(flags: [bool; 7], k: int) -> Seq<Seq<u8>>
    decreases k,
{
    if k <= 0 {
        Seq::<Seq<u8>>::empty()
    } else {
        selected_codes(flags, k - 1) + (if flags[k - 1] {
            seq![day_code(weekday_at(k - 1))]
        } else {
            Seq::<Seq<u8>>::empty()
        })
    }
}

/// The `BYDAY=` entry listing the selected weekdays, when there is one.
pub open spec fn standard_byday_parts(b: RRuleBuilder) -> Seq<Seq<u8>> {
    if !b.byday_enabled || selected_codes(b.byday_flags, 7).len() == 0 {
        Seq::<Seq<u8>>::empty()
    } else {
        seq![kv(kw_byday(), join_with(selected_codes(b.byday_flags, 7), 44))]
    }
}

pub open spec fn is_monthly_or_yearly(f: RecurrenceFrequency) -> bool {
    f == RecurrenceFrequency::Monthly || f == RecurrenceFrequency::Yearly
}

/// The entry that the period pattern or the weekday list contributes.
pub open spec fn pattern_parts(b: RRuleBuilder) -> Seq<Seq<u8>> {
    if is_monthly_or_yearly(b.frequency) {
        match b.pattern {
            RecurrencePattern::FirstDayOfPeriod => seq![kv(kw_bymonthday(), word(seq!['1']))],
            RecurrencePattern::LastDayOfPeriod => seq![kv(kw_bymonthday(), word(seq!['-', '1']))],
            RecurrencePattern::FirstWeekdayOfPeriod(w) => seq![
                kv(kw_byday(), word(seq!['1']) + day_code(w)),
            ],
            RecurrencePattern::LastWeekdayOfPeriod(w) => seq![
                kv(kw_byday(), word(seq!['-', '1']) + day_code(w)),
            ],
            RecurrencePattern::NoPattern => standard_byday_parts(b),
        }
    } else if b.frequency == RecurrenceFrequency::Weekly {
        standard_byday_parts(b)
    } else {
        Seq::<Seq<u8>>::empty()
    }
}

/// Two decimal digits, as `%m` and `%d` write them.
pub open spec fn two_digits(v: int) -> Seq<u8> {
    seq![(48 + v / 10) as u8, (48 + v % 10) as u8]
}

/// `digits` preceded by zeros up to `width` characters.
pub open spec fn zero_pad(digits: Seq<u8>, width: int) -> Seq<u8>
    decreases width - digits.len(),
{
    if digits.len() >= width {
        digits
    } else {
        zero_pad(seq![48u8] + digits, width)
    }
}

/// `%Y` of a year: at least four digits, with a sign when the year is
/// outside 0..=9999.
pub open spec fn year_bytes(y: int) -> Seq<u8> {
    if 0 <= y <= 9999 {
        zero_pad(decimal_bytes(y as nat), 4)
    } else if y > 9999 {
        seq![43u8] + decimal_bytes(y as nat)
    } else {
        seq![45u8] + zero_pad(decimal_bytes((-y) as nat), 4)
    }
}

/// `%Y%m%d` of a date: the year with at least four digits (a sign when it
/// is outside 0..=9999), then two-digit month and day.
pub open spec fn compact_date_bytes(d: CalDate) -> Seq<u8> {
    let y = d.year as int;
    let year_text = if 0 <= y <= 9999 {
        zero_pad(decimal_bytes(y as nat), 4)
    } else if y > 9999 {
        seq![43u8] + decimal_bytes(y as nat)
    } else {
        seq![45u8] + zero_pad(decimal_bytes((-y) as nat), 4)
    };
    year_text + two_digits(d.month as int) + two_digits(d.day as int)
}

/// The end-condition entry: a count, else an end date.
pub open spec fn end_parts(b: RRuleBuilder) -> Seq<Seq<u8>> {
    match b.count {
        Some(c) => seq![kv(kw_count(), decimal_bytes(c as nat))],
        None => match b.until_date {
            Some(u) => seq![kv(kw_until(), compact_date_bytes(u))],
            None => Seq::<Seq<u8>>::empty(),
        },
    }
}

/// Entries of the RRULE written for `b`, in order.
pub open spec fn build_parts(b: RRuleBuilder) -> Seq<Seq<u8>> {
    seq![kv(kw_freq(), freq_code(b.frequency))] + (if b.interval > 1 {
        seq![kv(kw_interval(), decimal_bytes(b.interval as nat))]
    } else {
        Seq::<Seq<u8>>::empty()
    }) + pattern_parts(b) + end_parts(b)
}

/// Bytes of the RRULE string written for `b`.
pub open spec fn build_bytes(b: RRuleBuilder) -> Seq<u8> {
    join_with(build_parts(b), 59)
}

/// Writes a date as `%Y%m%d` through `chrono`'s formatter.
///
/// Trusted: `chrono` writes the year zero-padded to four digits (with a
/// sign and at least four digits outside 0..=9999), then the month and the
/// day as two zero-padded digits each.
#[verifier::external_body]
fn format_compact_date(d: CalDate) -> (r: String)
    requires
        d.wf(),
    ensures
        r@ == ascii_chars(compact_date_bytes(d)),
{
    chrono::NaiveDate::from_ymd_opt(d.year, d.month, d.day).unwrap().format("%Y%m%d").to_string()
}

/// `ascii_chars` of a concatenation.
proof fn lemma_ascii_chars_add(a: Seq<u8>, b: Seq<u8>)
    ensures
        ascii_chars(a + b) == ascii_chars(a) + ascii_chars(b),
{
    assert(ascii_chars(a + b) =~= ascii_chars(a) + ascii_chars(b));
}

/// Joining one more piece appends a separator and the piece.
proof fn lemma_join_push(parts: Seq<Seq<u8>>, q: Seq<u8>, sep: u8)
    requires
        parts.len() >= 1,
    ensures
        join_with(parts.push(q), sep) == join_with(parts, sep) + seq![sep] + q,
{
    assert(parts.push(q).drop_last() =~= parts);
}

/// Appends `;` and the entry `key=value` to an RRULE under construction.
fn push_entry(
    out: &mut String,
    key: &[u8],
    value: &[u8],
    Ghost(parts): Ghost<Seq<Seq<u8>>>,
) -> (new_parts: Ghost<Seq<Seq<u8>>>)
    requires
        parts.len() >= 1,
        old(out)@ == ascii_chars(join_with(parts, 59)),
        all_ascii(key@),
        all_ascii(value@),
    ensures
        new_parts@ == parts.push(kv(key@, value@)),
        final(out)@ == ascii_chars(join_with(new_parts@, 59)),
{
    let sep = [59u8];
    let eq = [61u8];
    push_ascii(out, sep.as_slice());
    push_ascii(out, key);
    push_ascii(out, eq.as_slice());
    push_ascii(out, value);
    proof {
        lemma_join_push(parts, kv(key@, value@), 59);
        let j = join_with(parts, 59);
        assert(j + seq![59u8] + kv(key@, value@) =~= j + sep@ + key@ + eq@ + value@);
        lemma_ascii_chars_add(j, sep@);
        lemma_ascii_chars_add(j + sep@, key@);
        lemma_ascii_chars_add(j + sep@ + key@, eq@);
        lemma_ascii_chars_add(j + sep@ + key@ + eq@, value@);
    }
    Ghost(parts.push(kv(key@, value@)))
}

/// Bytes of a weekday's two-letter code.
fn day_code_bytes(w: Weekday) -> (r: [u8; 2])
    ensures
        r@ == day_code(w),
        all_ascii(r@),
{
    let r = match w {
        Weekday::Sunday => ['S' as u8, 'U' as u8],
        Weekday::Monday => ['M' as u8, 'O' as u8],
        Weekday::Tuesday => ['T' as u8, 'U' as u8],
        Weekday::Wednesday => ['W' as u8, 'E' as u8],
        Weekday::Thursday => ['T' as u8, 'H' as u8],
        Weekday::Friday => ['F' as u8, 'R' as u8],
        Weekday::Saturday => ['S' as u8, 'A' as u8],
    };
    assert(r@ =~= day_code(w));
    r
}

proof fn lemma_day_code_ascii(w: Weekday)
    ensures
        all_ascii(day_code(w)),
        day_code(w).len() == 2,
        lacks(day_code(w), 44),
        lacks(day_code(w), 59),
        lacks(day_code(w), 61),
        65 <= day_code(w)[0] <= 90,
{
}

/// The comma-separated codes of the selected weekdays.
fn selected_days_value(flags: [bool; 7]) -> (r: Vec<u8>)
    ensures
        r@ == join_with(selected_codes(flags, 7), 44),
        all_ascii(r@),
        (r@.len() == 0) == (selected_codes(flags, 7).len() == 0),
{
    let mut v: Vec<u8> = Vec::new();
    let mut i: usize = 0;
    assert(v@ =~= join_with(selected_codes(flags, 0), 44));
    while i < 7
        invariant
            0 <= i <= 7,
            v@ == join_with(selected_codes(flags, i as int), 44),
            all_ascii(v@),
            (v@.len() == 0) == (selected_codes(flags, i as int).len() == 0),
        decreases 7 - i,
    {
        let ghost codes = selected_codes(flags, i as int);
        let ghost w = weekday_at(i as int);
        assert(selected_codes(flags, i + 1) == codes + (if flags[i as int] {
            seq![day_code(w)]
        } else {
            Seq::<Seq<u8>>::empty()
        }));
        if flags[i] {
            let wd = match i {
                0 => Weekday::Sunday,
                1 => Weekday::Monday,
                2 => Weekday::Tuesday,
                3 => Weekday::Wednesday,
                4 => Weekday::Thursday,
                5 => Weekday::Friday,
                _ => Weekday::Saturday,
            };
            assert(wd == w);
            let code = day_code_bytes(wd);
            let ghost before = v@;
            if v.len() > 0 {
                v.push(44u8);
            }
            v.push(code[0]);
            v.push(code[1]);
            proof {
                let next = codes + seq![day_code(w)];
                assert(next =~= codes.push(day_code(w)));
                if codes.len() > 0 {
                    lemma_join_push(codes, day_code(w), 44);
                    assert(v@ =~= before + seq![44u8] + day_code(w));
                } else {
                    assert(codes.push(day_code(w)) =~= seq![day_code(w)]);
                    assert(v@ =~= day_code(w));
                }
                assert forall|k: int| 0 <= k < v@.len() implies #[trigger] v@[k] < 128 by {
                    if k < before.len() {
                        assert(v@[k] == before[k]);
                    }
                }
            }
        } else {
            assert(codes + Seq::<Seq<u8>>::empty() =~= codes);
        }
        i += 1;
    }
    v
}

/// `selected_codes` is empty exactly when no flag is set.
proof fn lemma_selected_codes_empty(flags: [bool; 7], k: int)
    requires
        0 <= k <= 7,
    ensures
        (selected_codes(flags, k).len() == 0) == (forall|i: int| 0 <= i < k ==> !flags[i]),
    decreases k,
{
    if k > 0 {
        lemma_selected_codes_empty(flags, k - 1);
        if selected_codes(flags, k).len() == 0 {
            assert(!flags[k - 1]);
        }
    }
}

impl RRuleBuilder {
    /// Build the RRULE string; `None` when the event does not recur.
    pub fn build(&self) -> (r: Option<String>)
        requires
            self.until_date matches Some(u) ==> u.wf(),
        ensures
            r is Some == self.is_recurring,
            r matches Some(s) ==> s@ == ascii_chars(build_bytes(*self)),
    {
        if !self.is_recurring {
            return None;
        }
        let mut out = String::new();
        let k_freq = ['F' as u8, 'R' as u8, 'E' as u8, 'Q' as u8];
        let eq = [61u8];
        let freq_value: Vec<u8> = match self.frequency {
            RecurrenceFrequency::Daily => vec!['D' as u8, 'A' as u8, 'I' as u8, 'L' as u8, 'Y' as u8],
            RecurrenceFrequency::Weekly => vec![
                'W' as u8,
                'E' as u8,
                'E' as u8,
                'K' as u8,
                'L' as u8,
                'Y' as u8,
            ],
            RecurrenceFrequency::Monthly => vec![
                'M' as u8,
                'O' as u8,
                'N' as u8,
                'T' as u8,
                'H' as u8,
                'L' as u8,
                'Y' as u8,
            ],
            RecurrenceFrequency::Yearly => vec![
                'Y' as u8,
                'E' as u8,
                'A' as u8,
                'R' as u8,
                'L' as u8,
                'Y' as u8,
            ],
        };
        assert(freq_value@ =~= freq_code(self.frequency));
        assert(k_freq@ =~= kw_freq());
        push_ascii(&mut out, k_freq.as_slice());
        push_ascii(&mut out, eq.as_slice());
        push_ascii(&mut out, freq_value.as_slice());
        let ghost first = kv(kw_freq(), freq_code(self.frequency));
        proof {
            assert(seq![first].len() == 1);
            assert(join_with(seq![first], 59) == first);
            assert(first =~= k_freq@ + eq@ + freq_value@);
            lemma_ascii_chars_add(k_freq@, eq@);
            lemma_ascii_chars_add(k_freq@ + eq@, freq_value@);
            assert(out@ =~= ascii_chars(join_with(seq![first], 59)));
        }
        let ghost p0 = seq![first];
        let mut parts: Ghost<Seq<Seq<u8>>> = Ghost(p0);
        if self.interval > 1 {
            let k_interval = [
                'I' as u8,
                'N' as u8,
                'T' as u8,
                'E' as u8,
                'R' as u8,
                'V' as u8,
                'A' as u8,
                'L' as u8,
            ];
            assert(k_interval@ =~= kw_interval());
            let digits = decimal_digits(self.interval as u64);
            parts = push_entry(&mut out, k_interval.as_slice(), digits.as_slice(), parts);
        }
        let ghost p1 = parts@;
        assert(p1 =~= p0 + (if self.interval > 1 {
            seq![kv(kw_interval(), decimal_bytes(self.interval as nat))]
        } else {
            Seq::<Seq<u8>>::empty()
        }));
        parts = self.append_pattern(&mut out, parts);
        let ghost p2 = parts@;
        parts = self.append_end(&mut out, parts);
        assert(parts@ =~= build_parts(*self));
        Some(out)
    }

    /// Appends the period-pattern or weekday-list entry.
    fn append_pattern(&self, out: &mut String, parts: Ghost<Seq<Seq<u8>>>) -> (new_parts:
        Ghost<Seq<Seq<u8>>>)
        requires
            parts@.len() >= 1,
            old(out)@ == ascii_chars(join_with(parts@, 59)),
        ensures
            new_parts@ == parts@ + pattern_parts(*self),
            final(out)@ == ascii_chars(join_with(new_parts@, 59)),
    {
        let mut parts = parts;
        let ghost p1 = parts@;
        let monthly_or_yearly = match self.frequency {
            RecurrenceFrequency::Monthly => true,
            RecurrenceFrequency::Yearly => true,
            _ => false,
        };
        let k_bymonthday = [
            'B' as u8,
            'Y' as u8,
            'M' as u8,
            'O' as u8,
            'N' as u8,
            'T' as u8,
            'H' as u8,
            'D' as u8,
            'A' as u8,
            'Y' as u8,
        ];
        let k_byday = ['B' as u8, 'Y' as u8, 'D' as u8, 'A' as u8, 'Y' as u8];
        assert(k_bymonthday@ =~= kw_bymonthday());
        assert(k_byday@ =~= kw_byday());
        if monthly_or_yearly {
            match self.pattern {
                RecurrencePattern::FirstDayOfPeriod => {
                    let v = ['1' as u8];
                    assert(v@ =~= word(seq!['1']));
                    parts = push_entry(out, k_bymonthday.as_slice(), v.as_slice(), parts);
                },
                RecurrencePattern::LastDayOfPeriod => {
                    let v = ['-' as u8, '1' as u8];
                    assert(v@ =~= word(seq!['-', '1']));
                    parts = push_entry(out, k_bymonthday.as_slice(), v.as_slice(), parts);
                },
                RecurrencePattern::FirstWeekdayOfPeriod(w) => {
                    let c = day_code_bytes(w);
                    let v = ['1' as u8, c[0], c[1]];
                    assert(v@ =~= word(seq!['1']) + day_code(w));
                    parts = push_entry(out, k_byday.as_slice(), v.as_slice(), parts);
                },
                RecurrencePattern::LastWeekdayOfPeriod(w) => {
                    let c = day_code_bytes(w);
                    let v = ['-' as u8, '1' as u8, c[0], c[1]];
                    assert(v@ =~= word(seq!['-', '1']) + day_code(w));
                    parts = push_entry(out, k_byday.as_slice(), v.as_slice(), parts);
                },
                RecurrencePattern::NoPattern => {
                    parts = self.append_standard_byday(out, parts);
                },
            }
        } else if self.frequency == RecurrenceFrequency::Weekly {
            parts = self.append_standard_byday(out, parts);
        }
        assert(parts@ =~= p1 + pattern_parts(*self));
        parts
    }

    /// Appends the count or end-date entry.
    fn append_end(&self, out: &mut String, parts: Ghost<Seq<Seq<u8>>>) -> (new_parts:
        Ghost<Seq<Seq<u8>>>)
        requires
            parts@.len() >= 1,
            old(out)@ == ascii_chars(join_with(parts@, 59)),
            self.until_date matches Some(u) ==> u.wf(),
        ensures
            new_parts@ == parts@ + end_parts(*self),
            final(out)@ == ascii_chars(join_with(new_parts@, 59)),
    {
        let mut parts = parts;
        let ghost p2 = parts@;
        let eq = [61u8];
        match self.count {
            Some(count) => {
                let k_count = ['C' as u8, 'O' as u8, 'U' as u8, 'N' as u8, 'T' as u8];
                assert(k_count@ =~= kw_count());
                let digits = decimal_digits(count as u64);
                parts = push_entry(out, k_count.as_slice(), digits.as_slice(), parts);
            },
            None => match self.until_date {
                Some(until) => {
                    let k_until = ['U' as u8, 'N' as u8, 'T' as u8, 'I' as u8, 'L' as u8];
                    assert(k_until@ =~= kw_until());
                    let text = format_compact_date(until);
                    let sep = [59u8];
                    push_ascii(out, sep.as_slice());
                    push_ascii(out, k_until.as_slice());
                    push_ascii(out, eq.as_slice());
                    let ghost before = out@;
                    out.append(text.as_str());
                    proof {
                        let q = kv(kw_until(), compact_date_bytes(until));
                        lemma_join_push(parts@, q, 59);
                        let j = join_with(parts@, 59);
                        assert(j + seq![59u8] + q =~= j + sep@ + k_until@ + eq@ + compact_date_bytes(
                            until,
                        ));
                        lemma_ascii_chars_add(j, sep@);
                        lemma_ascii_chars_add(j + sep@, k_until@);
                        lemma_ascii_chars_add(j + sep@ + k_until@, eq@);
                        lemma_ascii_chars_add(j + sep@ + k_until@ + eq@, compact_date_bytes(until));
                    }
                    parts = Ghost(parts@.push(kv(kw_until(), compact_date_bytes(until))));
                },
                None => {},
            },
        }
        assert(parts@ =~= p2 + end_parts(*self));
        parts
    }

    /// Appends the `BYDAY=` entry of the selected weekdays, when the weekday
    /// list is enabled and at least one day is selected.
    fn append_standard_byday(&self, out: &mut String, parts: Ghost<Seq<Seq<u8>>>) -> (new_parts:
        Ghost<Seq<Seq<u8>>>)
        requires
            parts@.len() >= 1,
            old(out)@ == ascii_chars(join_with(parts@, 59)),
        ensures
            new_parts@ == parts@ + standard_byday_parts(*self),
            final(out)@ == ascii_chars(join_with(new_parts@, 59)),
    {
        if !self.byday_enabled {
            assert(parts@ + Seq::<Seq<u8>>::empty() =~= parts@);
            return parts;
        }
        let days = selected_days_value(self.byday_flags);
        if days.len() == 0 {
            assert(parts@ + Seq::<Seq<u8>>::empty() =~= parts@);
            return parts;
        }
        assert(selected_codes(self.byday_flags, 7).len() > 0);
        let k_byday = ['B' as u8, 'Y' as u8, 'D' as u8, 'A' as u8, 'Y' as u8];
        assert(k_byday@ =~= kw_byday());
        let r = push_entry(out, k_byday.as_slice(), days.as_slice(), parts);
        assert(r@ =~= parts@ + standard_byday_parts(*self));
        r
    }
}


/// What reading back the RRULE written for `b` gives: the frequency,
/// interval, count, the end date when there is no count, the period pattern
/// for monthly and yearly rules, and the weekday list where it was written.
pub open spec fn expected_parse(b: RRuleBuilder) -> ParsedRRule {
    ParsedRRule {
        is_recurring: true,
        frequency: b.frequency,
        interval: b.interval,
        count: b.count,
        until_date: if b.count is None {
            b.until_date
        } else {
            None
        },
        pattern: if is_monthly_or_yearly(b.frequency) {
            b.pattern
        } else {
            RecurrencePattern::NoPattern
        },
        byday_flags: if b.byday_enabled && (b.frequency == RecurrenceFrequency::Weekly || (
        is_monthly_or_yearly(b.frequency) && b.pattern == RecurrencePattern::NoPattern)) {
            b.byday_flags
        } else {
            [false, false, false, false, false, false, false]
        },
    }
}

/// An entry of the written RRULE: ASCII, and free of `;`.
pub open spec fn entry_ok(p: Seq<u8>) -> bool {
    all_ascii(p) && lacks(p, 59)
}

proof fn lemma_fold_parts_concat(r: ParsedRRule, a: Seq<Seq<u8>>, b: Seq<Seq<u8>>)
    ensures
        fold_parts(r, a + b) == fold_parts(fold_parts(r, a), b),
    decreases a.len(),
{
    if a.len() > 0 {
        assert((a + b).drop_first() =~= a.drop_first() + b);
        assert((a + b)[0] == a[0]);
        lemma_fold_parts_concat(apply_part(r, a[0]), a.drop_first(), b);
    } else {
        assert(a + b =~= b);
    }
}

proof fn lemma_fold_days_concat(r: ParsedRRule, a: Seq<Seq<u8>>, b: Seq<Seq<u8>>)
    ensures
        fold_days(r, a + b) == fold_days(fold_days(r, a), b),
    decreases a.len(),
{
    if a.len() > 0 {
        assert((a + b).drop_first() =~= a.drop_first() + b);
        assert((a + b)[0] == a[0]);
        lemma_fold_days_concat(apply_day(r, a[0]), a.drop_first(), b);
    } else {
        assert(a + b =~= b);
    }
}

proof fn lemma_fold_parts_one(r: ParsedRRule, p: Seq<u8>)
    ensures
        fold_parts(r, seq![p]) == apply_part(r, p),
{
    assert(seq![p].drop_first() =~= Seq::<Seq<u8>>::empty());
    assert(seq![p][0] == p);
    assert(fold_parts(apply_part(r, p), Seq::<Seq<u8>>::empty()) == apply_part(r, p));
}

proof fn lemma_fold_days_one(r: ParsedRRule, d: Seq<u8>)
    ensures
        fold_days(r, seq![d]) == apply_day(r, d),
{
    assert(seq![d].drop_first() =~= Seq::<Seq<u8>>::empty());
    assert(seq![d][0] == d);
    assert(fold_days(apply_day(r, d), Seq::<Seq<u8>>::empty()) == apply_day(r, d));
}

/// An entry `key=value` with a key free of `=` reads as that key and value.
proof fn lemma_apply_kv_part(r: ParsedRRule, key: Seq<u8>, value: Seq<u8>)
    requires
        lacks(key, 61),
    ensures
        apply_part(r, kv(key, value)) == apply_kv(r, key, value),
        part_sliceable(kv(key, value)) == (key != kw_until() || until_value_sliceable(value)),
{
    let p = kv(key, value);
    assert forall|j: int| 0 <= j < key.len() implies p[j] != 61 by {
        assert(p[j] == key[j]);
    }
    assert(p[key.len() as int] == 61);
    crate::text::lemma_find_first_at(p, 61, key.len() as int);
    assert(p.subrange(0, key.len() as int) =~= key);
    assert(p.subrange(key.len() as int + 1, p.len() as int) =~= value);
}

proof fn lemma_word_facts()
    ensures
        kw_freq().len() == 4,
        kw_interval().len() == 8,
        kw_count().len() == 5,
        kw_until().len() == 5,
        kw_bymonthday().len() == 10,
        kw_byday().len() == 5,
        kw_count()[0] == 67,
        kw_until()[0] == 85,
        kw_byday()[0] == 66,
        lacks(kw_freq(), 61),
        lacks(kw_interval(), 61),
        lacks(kw_count(), 61),
        lacks(kw_until(), 61),
        lacks(kw_bymonthday(), 61),
        lacks(kw_byday(), 61),
        entry_ok(kw_freq()),
        entry_ok(kw_interval()),
        entry_ok(kw_count()),
        entry_ok(kw_until()),
        entry_ok(kw_bymonthday()),
        entry_ok(kw_byday()),
{
}

proof fn lemma_freq_code_facts(f: RecurrenceFrequency)
    ensures
        freq_from_value(freq_code(f)) == f,
        entry_ok(freq_code(f)),
{
    let d = freq_code(RecurrenceFrequency::Daily);
    let w = freq_code(RecurrenceFrequency::Weekly);
    let m = freq_code(RecurrenceFrequency::Monthly);
    let y = freq_code(RecurrenceFrequency::Yearly);
    assert(d.len() == 5 && w.len() == 6 && m.len() == 7 && y.len() == 6);
    assert(w[0] != y[0]);
}

proof fn lemma_weekday_code_roundtrip(w: Weekday)
    ensures
        weekday_from_code(day_code(w)) == Some(w),
{
    let su = day_code(Weekday::Sunday);
    let mo = day_code(Weekday::Monday);
    let tu = day_code(Weekday::Tuesday);
    let we = day_code(Weekday::Wednesday);
    let th = day_code(Weekday::Thursday);
    let fr = day_code(Weekday::Friday);
    let sa = day_code(Weekday::Saturday);
    assert(su[0] == 83 && su[1] == 85);
    assert(mo[0] == 77 && mo[1] == 79);
    assert(tu[0] == 84 && tu[1] == 85);
    assert(we[0] == 87 && we[1] == 69);
    assert(th[0] == 84 && th[1] == 72);
    assert(fr[0] == 70 && fr[1] == 82);
    assert(sa[0] == 83 && sa[1] == 65);
}

proof fn lemma_decimal_entry(n: nat)
    ensures
        entry_ok(decimal_bytes(n)),
        lacks(decimal_bytes(n), 44),
{
    crate::text::lemma_decimal_bytes_digits(n);
}

/// Reading `BYDAY=` with the selected weekdays sets exactly those flags.
proof fn lemma_fold_selected(r: ParsedRRule, flags: [bool; 7], k: int)
    requires
        0 <= k <= 7,
    ensures
        ({
            let out = fold_days(r, selected_codes(flags, k));
            &&& out.pattern == r.pattern
            &&& out.frequency == r.frequency
            &&& out.interval == r.interval
            &&& out.count == r.count
            &&& out.until_date == r.until_date
            &&& out.is_recurring == r.is_recurring
            &&& forall|i: int| 0 <= i < 7 ==> #[trigger] out.byday_flags[i] == (r.byday_flags[i] || (
            i < k && flags[i]))
        }),
    decreases k,
{
    if k > 0 {
        lemma_fold_selected(r, flags, k - 1);
        let prev = selected_codes(flags, k - 1);
        let mid = fold_days(r, prev);
        if flags[k - 1] {
            let w = weekday_at(k - 1);
            lemma_fold_days_concat(r, prev, seq![day_code(w)]);
            lemma_fold_days_one(mid, day_code(w));
            lemma_weekday_code_roundtrip(w);
            assert(day_code(w).len() == 2);
            assert(weekday_pos(w) == k - 1);
        } else {
            assert(prev + Seq::<Seq<u8>>::empty() =~= prev);
        }
    }
}

proof fn lemma_selected_codes_facts(flags: [bool; 7], k: int)
    requires
        0 <= k <= 7,
    ensures
        forall|i: int|
            0 <= i < selected_codes(flags, k).len() ==> lacks(#[trigger] selected_codes(flags, k)[i], 44)
                && entry_ok(selected_codes(flags, k)[i]) && lacks(selected_codes(flags, k)[i], 61),
    decreases k,
{
    if k > 0 {
        lemma_selected_codes_facts(flags, k - 1);
        let prev = selected_codes(flags, k - 1);
        let cur = selected_codes(flags, k);
        assert forall|i: int| 0 <= i < cur.len() implies lacks(#[trigger] cur[i], 44) && entry_ok(
            cur[i],
        ) && lacks(cur[i], 61) by {
            if i < prev.len() {
                assert(cur[i] == prev[i]);
            } else {
                lemma_day_code_ascii(weekday_at(k - 1));
            }
        }
    }
}

proof fn lemma_join_entry_ok(parts: Seq<Seq<u8>>, sep: u8)
    requires
        sep < 128,
        sep != 59,
        forall|i: int| 0 <= i < parts.len() ==> entry_ok(#[trigger] parts[i]),
    ensures
        entry_ok(join_with(parts, sep)),
    decreases parts.len(),
{
    if parts.len() > 1 {
        let init = parts.drop_last();
        lemma_join_entry_ok(init, sep);
        let j = join_with(parts, sep);
        let ji = join_with(init, sep);
        assert(entry_ok(parts.last()));
        assert forall|k: int| 0 <= k < j.len() implies #[trigger] j[k] < 128 && j[k] != 59 by {
            if k < ji.len() {
                assert(j[k] == ji[k]);
            } else if k > ji.len() {
                assert(j[k] == parts.last()[k - ji.len() - 1]);
            }
        }
    } else if parts.len() == 1 {
        assert(entry_ok(parts[0]));
    }
}

proof fn lemma_join_all_ascii(parts: Seq<Seq<u8>>, sep: u8)
    requires
        sep < 128,
        forall|i: int| 0 <= i < parts.len() ==> all_ascii(#[trigger] parts[i]),
    ensures
        all_ascii(join_with(parts, sep)),
    decreases parts.len(),
{
    if parts.len() > 1 {
        let init = parts.drop_last();
        lemma_join_all_ascii(init, sep);
        let j = join_with(parts, sep);
        let ji = join_with(init, sep);
        assert(all_ascii(parts.last()));
        assert forall|k: int| 0 <= k < j.len() implies #[trigger] j[k] < 128 by {
            if k < ji.len() {
                assert(j[k] == ji[k]);
            } else if k > ji.len() {
                assert(j[k] == parts.last()[k - ji.len() - 1]);
            }
        }
    } else if parts.len() == 1 {
        assert(all_ascii(parts[0]));
    }
}

proof fn lemma_concat_entry_ok(a: Seq<u8>, b: Seq<u8>)
    requires
        entry_ok(a),
        entry_ok(b),
    ensures
        entry_ok(a + b),
{
    assert forall|k: int| 0 <= k < (a + b).len() implies #[trigger] (a + b)[k] < 128 && (a
        + b)[k] != 59 by {
        if k < a.len() {
            assert((a + b)[k] == a[k]);
        } else {
            assert((a + b)[k] == b[k - a.len()]);
        }
    }
}

proof fn lemma_kv_entry_ok(key: Seq<u8>, value: Seq<u8>)
    requires
        entry_ok(key),
        entry_ok(value),
    ensures
        entry_ok(kv(key, value)),
{
    lemma_concat_entry_ok(key, seq![61u8]);
    lemma_concat_entry_ok(key + seq![61u8], value);
}

proof fn lemma_small_words()
    ensures
        entry_ok(word(seq!['1'])),
        entry_ok(word(seq!['-', '1'])),
        word(seq!['1']).len() == 1,
        word(seq!['1'])[0] == 49,
        word(seq!['-', '1']).len() == 2,
        word(seq!['-', '1'])[0] == 45,
        word(seq!['-', '1'])[1] == 49,
        lacks(word(seq!['1']), 44),
        lacks(word(seq!['-', '1']), 44),
{
}

/// Zero padding prepends zeros up to the width.
proof fn lemma_zero_pad(d: Seq<u8>, w: int)
    requires
        d.len() <= w,
    ensures
        zero_pad(d, w) == Seq::new((w - d.len()) as nat, |i: int| 48u8) + d,
    decreases w - d.len(),
{
    if d.len() < w {
        lemma_zero_pad(seq![48u8] + d, w);
        assert(Seq::new((w - d.len() - 1) as nat, |i: int| 48u8) + (seq![48u8] + d) =~= Seq::new(
            (w - d.len()) as nat,
            |i: int| 48u8,
        ) + d);
    } else {
        assert(Seq::new(0, |i: int| 48u8) + d =~= d);
    }
}

/// Four zero-padded digits of a year in 0..=9999.
proof fn lemma_year_digits(y: int)
    requires
        0 <= y <= 9999,
    ensures
        zero_pad(decimal_bytes(y as nat), 4) == seq![
            (48 + y / 1000) as u8,
            (48 + (y / 100) % 10) as u8,
            (48 + (y / 10) % 10) as u8,
            (48 + y % 10) as u8,
        ],
{
    let n = y as nat;
    let target = seq![
        (48 + y / 1000) as u8,
        (48 + (y / 100) % 10) as u8,
        (48 + (y / 10) % 10) as u8,
        (48 + y % 10) as u8,
    ];
    assert((n / 10) / 10 == n / 100);
    assert((n / 100) / 10 == n / 1000);
    if n < 10 {
        assert(decimal_bytes(n) == seq![(48 + n) as u8]);
        lemma_zero_pad(decimal_bytes(n), 4);
        assert(Seq::new(3, |i: int| 48u8) + decimal_bytes(n) =~= target);
    } else if n < 100 {
        assert(decimal_bytes(n / 10) == seq![(48 + n / 10) as u8]);
        assert(decimal_bytes(n) =~= seq![(48 + n / 10) as u8, (48 + n % 10) as u8]);
        lemma_zero_pad(decimal_bytes(n), 4);
        assert(Seq::new(2, |i: int| 48u8) + decimal_bytes(n) =~= target);
    } else if n < 1000 {
        assert(decimal_bytes(n / 100) == seq![(48 + n / 100) as u8]);
        assert(decimal_bytes(n / 10) =~= seq![(48 + n / 100) as u8, (48 + (n / 10) % 10) as u8]);
        assert(decimal_bytes(n) =~= seq![
            (48 + n / 100) as u8,
            (48 + (n / 10) % 10) as u8,
            (48 + n % 10) as u8,
        ]);
        lemma_zero_pad(decimal_bytes(n), 4);
        assert(Seq::new(1, |i: int| 48u8) + decimal_bytes(n) =~= target);
    } else {
        assert(decimal_bytes(n / 1000) == seq![(48 + n / 1000) as u8]);
        assert(decimal_bytes(n / 100) =~= seq![(48 + n / 1000) as u8, (48 + (n / 100) % 10) as u8]);
        assert(decimal_bytes(n / 10) =~= seq![
            (48 + n / 1000) as u8,
            (48 + (n / 100) % 10) as u8,
            (48 + (n / 10) % 10) as u8,
        ]);
        assert(decimal_bytes(n) =~= target);
        lemma_zero_pad(decimal_bytes(n), 4);
        assert(Seq::new(0, |i: int| 48u8) + decimal_bytes(n) =~= target);
    }
}

proof fn lemma_digits_value_2(a: u8, b: u8)
    ensures
        crate::text::digits_value(seq![a, b]) == (a - 48) * 10 + (b - 48),
{
    let s1 = seq![a];
    let s2 = seq![a, b];
    assert(s2.drop_last() =~= s1);
    assert(s1.drop_last() =~= Seq::<u8>::empty());
    assert(crate::text::digits_value(Seq::<u8>::empty()) == 0);
    assert(s1.last() == a);
    assert(s2.last() == b);
    assert(crate::text::digits_value(s1) == crate::text::digits_value(s1.drop_last()) * 10 + (
    s1.last() - 48));
    assert(crate::text::digits_value(s1) == a - 48);
    assert(crate::text::digits_value(s2) == crate::text::digits_value(s2.drop_last()) * 10 + (
    s2.last() - 48));
}

proof fn lemma_digits_value_4(a: u8, b: u8, c: u8, d: u8)
    ensures
        crate::text::digits_value(seq![a, b, c, d]) == (((a - 48) * 10 + (b - 48)) * 10 + (c - 48))
            * 10 + (d - 48),
{
    let s2 = seq![a, b];
    let s3 = seq![a, b, c];
    let s4 = seq![a, b, c, d];
    assert(s4.drop_last() =~= s3);
    assert(s3.drop_last() =~= s2);
    lemma_digits_value_2(a, b);
    assert(s3.last() == c);
    assert(s4.last() == d);
    assert(crate::text::digits_value(s3) == crate::text::digits_value(s3.drop_last()) * 10 + (
    s3.last() - 48));
    assert(crate::text::digits_value(s4) == crate::text::digits_value(s4.drop_last()) * 10 + (
    s4.last() - 48));
}

/// An end date in years 0..=9999 written as `%Y%m%d` reads back.
proof fn lemma_until_roundtrip(u: CalDate)
    requires
        u.wf(),
        0 <= u.year <= 9999,
    ensures
        spec_parse_until(compact_date_bytes(u)) == Some(u),
        until_value_sliceable(compact_date_bytes(u)),
        entry_ok(compact_date_bytes(u)),
        compact_date_bytes(u).len() == 8,
{
    let y = u.year as int;
    let m = u.month as int;
    let d = u.day as int;
    lemma_year_digits(y);
    let ys = seq![
        (48 + y / 1000) as u8,
        (48 + (y / 100) % 10) as u8,
        (48 + (y / 10) % 10) as u8,
        (48 + y % 10) as u8,
    ];
    let v = compact_date_bytes(u);
    assert(v =~= ys + two_digits(m) + two_digits(d));
    assert(v.len() == 8);
    let s0 = v.subrange(0, 4);
    let s1 = v.subrange(4, 6);
    let s2 = v.subrange(6, 8);
    assert(s0 =~= ys);
    assert(s1 =~= two_digits(m));
    assert(s2 =~= two_digits(d));
    lemma_digits_value_4(
        (48 + y / 1000) as u8,
        (48 + (y / 100) % 10) as u8,
        (48 + (y / 10) % 10) as u8,
        (48 + y % 10) as u8,
    );
    assert(crate::text::digits_value(s0) == y) by {
        assert(((y / 1000) * 10 + (y / 100) % 10) == y / 100);
        assert(((y / 100) * 10 + (y / 10) % 10) == y / 10);
        assert((y / 10) * 10 + y % 10 == y);
    }
    lemma_digits_value_2((48 + m / 10) as u8, (48 + m % 10) as u8);
    lemma_digits_value_2((48 + d / 10) as u8, (48 + d % 10) as u8);
    assert(crate::text::digits_value(s1) == m);
    assert(crate::text::digits_value(s2) == d);
    assert(parse_signed(s0, i32::MIN as int, i32::MAX as int) == Some(y));
    assert(parse_unsigned(s1, u32::MAX as int) == Some(m));
    assert(parse_unsigned(s2, u32::MAX as int) == Some(d));
    assert(mk_date(y, m, d) == u);
    assert forall|k: int| 0 <= k < v.len() implies #[trigger] v[k] < 128 && v[k] != 59 by {}
}

/// Pattern and weekday entries read back as written.
proof fn lemma_pattern_roundtrip(r: ParsedRRule, b: RRuleBuilder)
    requires
        r.pattern == RecurrencePattern::NoPattern,
        r.byday_flags =~= [false, false, false, false, false, false, false],
    ensures
        ({
            let out = fold_parts(r, pattern_parts(b));
            let exp = expected_parse(b);
            &&& out.pattern == exp.pattern
            &&& out.byday_flags =~= exp.byday_flags
            &&& out.frequency == r.frequency
            &&& out.interval == r.interval
            &&& out.count == r.count
            &&& out.until_date == r.until_date
            &&& out.is_recurring == r.is_recurring
        }),
        forall|i: int| 0 <= i < pattern_parts(b).len() ==> entry_ok(#[trigger] pattern_parts(b)[i]),
        forall|i: int|
            0 <= i < pattern_parts(b).len() ==> part_sliceable(#[trigger] pattern_parts(b)[i]),
{
    lemma_word_facts();
    lemma_small_words();
    let pp = pattern_parts(b);
    let codes = selected_codes(b.byday_flags, 7);
    let std_case = b.byday_enabled && codes.len() > 0;
    if std_case {
        lemma_selected_codes_facts(b.byday_flags, 7);
        crate::text::lemma_split_join(codes, 44);
        lemma_join_entry_ok(codes, 44);
        lemma_kv_entry_ok(kw_byday(), join_with(codes, 44));
        let q = kv(kw_byday(), join_with(codes, 44));
        lemma_apply_kv_part(r, kw_byday(), join_with(codes, 44));
        lemma_fold_parts_one(r, q);
        lemma_fold_selected(r, b.byday_flags, 7);
    }
    if !b.byday_enabled || codes.len() == 0 {
        crate::recurrence::lemma_selected_codes_empty(b.byday_flags, 7);
    }
    if is_monthly_or_yearly(b.frequency) {
        match b.pattern {
            RecurrencePattern::FirstDayOfPeriod => {
                let q = kv(kw_bymonthday(), word(seq!['1']));
                lemma_apply_kv_part(r, kw_bymonthday(), word(seq!['1']));
                lemma_fold_parts_one(r, q);
                lemma_kv_entry_ok(kw_bymonthday(), word(seq!['1']));
            },
            RecurrencePattern::LastDayOfPeriod => {
                let q = kv(kw_bymonthday(), word(seq!['-', '1']));
                lemma_apply_kv_part(r, kw_bymonthday(), word(seq!['-', '1']));
                lemma_fold_parts_one(r, q);
                lemma_kv_entry_ok(kw_bymonthday(), word(seq!['-', '1']));
                assert(word(seq!['-', '1']) != word(seq!['1']));
            },
            RecurrencePattern::FirstWeekdayOfPeriod(w) => {
                let v = word(seq!['1']) + day_code(w);
                let q = kv(kw_byday(), v);
                lemma_day_code_ascii(w);
                lemma_concat_entry_ok(word(seq!['1']), day_code(w));
                lemma_kv_entry_ok(kw_byday(), v);
                lemma_apply_kv_part(r, kw_byday(), v);
                lemma_fold_parts_one(r, q);
                assert(v.len() == 3 && v[0] == 49);
                assert forall|k: int| 0 <= k < v.len() implies v[k] != 44 by {
                    if k > 0 {
                        assert(v[k] == day_code(w)[k - 1]);
                    }
                }
                crate::text::lemma_split_on_lacking(v, 44);
                lemma_fold_days_one(r, v);
                assert(v.subrange(1, 3) =~= day_code(w));
                lemma_weekday_code_roundtrip(w);
            },
            RecurrencePattern::LastWeekdayOfPeriod(w) => {
                let v = word(seq!['-', '1']) + day_code(w);
                let q = kv(kw_byday(), v);
                lemma_day_code_ascii(w);
                lemma_concat_entry_ok(word(seq!['-', '1']), day_code(w));
                lemma_kv_entry_ok(kw_byday(), v);
                lemma_apply_kv_part(r, kw_byday(), v);
                lemma_fold_parts_one(r, q);
                assert(v.len() == 4 && v[0] == 45 && v[1] == 49);
                assert forall|k: int| 0 <= k < v.len() implies v[k] != 44 by {
                    if k > 1 {
                        assert(v[k] == day_code(w)[k - 2]);
                    }
                }
                crate::text::lemma_split_on_lacking(v, 44);
                lemma_fold_days_one(r, v);
                assert(v.subrange(2, 4) =~= day_code(w));
                lemma_weekday_code_roundtrip(w);
            },
            RecurrencePattern::NoPattern => {},
        }
    }
}

/// End-condition entries read back as written.
proof fn lemma_end_roundtrip(r: ParsedRRule, b: RRuleBuilder)
    requires
        b.until_date matches Some(u) ==> u.wf() && 0 <= u.year <= 9999,
        r.count is None,
        r.until_date is None,
    ensures
        ({
            let out = fold_parts(r, end_parts(b));
            let exp = expected_parse(b);
            out == ParsedRRule { count: exp.count, until_date: exp.until_date, ..r }
        }),
        forall|i: int| 0 <= i < end_parts(b).len() ==> entry_ok(#[trigger] end_parts(b)[i]),
        forall|i: int| 0 <= i < end_parts(b).len() ==> part_sliceable(#[trigger] end_parts(b)[i]),
{
    lemma_word_facts();
    match b.count {
        Some(c) => {
            let v = decimal_bytes(c as nat);
            lemma_decimal_entry(c as nat);
            crate::text::lemma_parse_decimal(c as nat, u32::MAX as int);
            lemma_apply_kv_part(r, kw_count(), v);
            lemma_fold_parts_one(r, kv(kw_count(), v));
            lemma_kv_entry_ok(kw_count(), v);
        },
        None => match b.until_date {
            Some(u) => {
                let v = compact_date_bytes(u);
                lemma_until_roundtrip(u);
                lemma_apply_kv_part(r, kw_until(), v);
                lemma_fold_parts_one(r, kv(kw_until(), v));
                lemma_kv_entry_ok(kw_until(), v);
                assert(kw_until() != kw_count());
            },
            None => {},
        },
    }
}

/// Reading back the RRULE that `build` writes gives the builder's choices
/// (`expected_parse`); the string is also one that `parse` accepts.
/// Requires an interval of at least 1 and an end date, if any, in years
/// 0..=9999 (other years are written with a sign and do not read back).
pub proof fn lemma_parse_build_roundtrip(b: RRuleBuilder)
    requires
        b.interval >= 1,
        b.until_date matches Some(u) ==> u.wf() && 0 <= u.year <= 9999,
    ensures
        rrule_sliceable(vstd::utf8::encode_utf8(ascii_chars(build_bytes(b)))),
        spec_parse(vstd::utf8::encode_utf8(ascii_chars(build_bytes(b)))) == expected_parse(b),
{
    lemma_word_facts();
    let parts = build_parts(b);
    let f0 = kv(kw_freq(), freq_code(b.frequency));
    let p1 = if b.interval > 1 {
        seq![kv(kw_interval(), decimal_bytes(b.interval as nat))]
    } else {
        Seq::<Seq<u8>>::empty()
    };
    let pp = pattern_parts(b);
    let ep = end_parts(b);
    let r0 = ParsedRRule { is_recurring: true, ..default_parsed() };
    lemma_freq_code_facts(b.frequency);
    lemma_kv_entry_ok(kw_freq(), freq_code(b.frequency));
    lemma_apply_kv_part(r0, kw_freq(), freq_code(b.frequency));
    let r1 = ParsedRRule { frequency: b.frequency, ..r0 };
    assert(fold_parts(r0, seq![f0]) == r1) by {
        lemma_fold_parts_one(r0, f0);
    }
    let r2 = ParsedRRule { interval: b.interval, ..r1 };
    if b.interval > 1 {
        let v = decimal_bytes(b.interval as nat);
        lemma_decimal_entry(b.interval as nat);
        crate::text::lemma_parse_decimal(b.interval as nat, u32::MAX as int);
        lemma_apply_kv_part(r1, kw_interval(), v);
        lemma_fold_parts_one(r1, kv(kw_interval(), v));
        lemma_kv_entry_ok(kw_interval(), v);
    } else {
        assert(r2 == r1);
    }
    assert(fold_parts(r1, p1) == r2);
    lemma_pattern_roundtrip(r2, b);
    let r3 = fold_parts(r2, pp);
    lemma_end_roundtrip(r3, b);
    let r4 = fold_parts(r3, ep);
    lemma_fold_parts_concat(r0, seq![f0], p1);
    lemma_fold_parts_concat(r0, seq![f0] + p1, pp);
    lemma_fold_parts_concat(r0, seq![f0] + p1 + pp, ep);
    assert(r4 =~= expected_parse(b));
    assert forall|i: int| 0 <= i < parts.len() implies entry_ok(#[trigger] parts[i]) && part_sliceable(
        parts[i],
    ) by {
        if i == 0 {
            assert(parts[i] == f0);
        } else if i < 1 + p1.len() {
            assert(parts[i] == p1[i - 1]);
        } else if i < 1 + p1.len() + pp.len() {
            assert(parts[i] == pp[i - 1 - p1.len()]);
        } else {
            assert(parts[i] == ep[i - 1 - p1.len() - pp.len()]);
        }
    }
    assert forall|i: int| 0 <= i < parts.len() implies lacks(#[trigger] parts[i], 59) by {
        assert(entry_ok(parts[i]));
    }
    crate::text::lemma_split_join(parts, 59);
    lemma_join_all_ascii(parts, 59);
    let bs = build_bytes(b);
    lemma_ascii_encode(bs);
}

/// Encoding the characters of ASCII bytes as UTF-8 gives the bytes back.
proof fn lemma_ascii_encode(bs: Seq<u8>)
    requires
        all_ascii(bs),
    ensures
        vstd::utf8::encode_utf8(ascii_chars(bs)) == bs,
{
    let cs = ascii_chars(bs);
    assert(vstd::utf8::is_ascii_chars(cs)) by {
        assert forall|i: int| 0 <= i < cs.len() implies '\0' <= #[trigger] cs[i] <= '\u{7f}' by {
            assert(cs[i] == bs[i] as char);
            assert(bs[i] < 128);
        }
    }
    vstd::utf8::is_ascii_chars_encode_utf8(cs);
    let e = vstd::utf8::encode_utf8(cs);
    assert forall|i: int| 0 <= i < bs.len() implies e[i] == bs[i] by {
        assert(cs[i] as u8 == e[i]);
        assert(cs[i] == bs[i] as char);
    }
    assert(e =~= bs);
}
/// `from_rrule_day` reads back the code `to_rrule_day` writes: a text
/// holding weekday `w`'s code names `w`. Only the seven upper-case codes
/// name a weekday: any text that names one holds that weekday's code.
pub proof fn lemma_rrule_day_round_trip(w: Weekday, s: &str)
    ensures
        s@ == day_code_chars(w) ==> weekday_from_code(s.spec_bytes()) == Some(w),
        weekday_from_code(s.spec_bytes()) is Some ==> s.spec_bytes() == word(
            day_code_chars(weekday_from_code(s.spec_bytes())->Some_0),
        ),
{
    if s@ == day_code_chars(w) {
        assert(vstd::string::is_ascii(s));
        vstd::string::is_ascii_spec_bytes(s);
        assert(s.spec_bytes() =~= word(day_code_chars(w)));
        assert(word(day_code_chars(w)) == day_code(w));
        assert(word(seq!['S', 'U']) =~= seq![83u8, 85u8]);
        assert(word(seq!['M', 'O']) =~= seq![77u8, 79u8]);
        assert(word(seq!['T', 'U']) =~= seq![84u8, 85u8]);
        assert(word(seq!['W', 'E']) =~= seq![87u8, 69u8]);
        assert(word(seq!['T', 'H']) =~= seq![84u8, 72u8]);
        assert(word(seq!['F', 'R']) =~= seq![70u8, 82u8]);
        assert(word(seq!['S', 'A']) =~= seq![83u8, 65u8]);
    }
    if weekday_from_code(s.spec_bytes()) is Some {
        let v = weekday_from_code(s.spec_bytes())->Some_0;
        assert(word(day_code_chars(v)) == day_code(v));
    }
}

/// An end date written as `YYYYMMDD` reads back as that date, with or
/// without a time of day after it.
pub proof fn lemma_until_date_with_time_reads_back(u: CalDate, time: Seq<u8>)
    requires
        u.wf(),
        0 <= u.year <= 9999,
    ensures
        spec_parse_until(compact_date_bytes(u) + time) == Some(u),
{
    lemma_until_roundtrip(u);
    lemma_until_reads_leading_date(compact_date_bytes(u), time);
}

} // verus!
