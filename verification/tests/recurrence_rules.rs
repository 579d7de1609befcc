use rust_calendar::calendar_date::CalDate;
use rust_calendar::recurrence::{
    ParsedRRule, RRuleBuilder, RecurrenceFrequency, RecurrencePattern, Weekday,
};

#[test]
fn test_parse_rrule_daily() {
    let parsed = ParsedRRule::parse("FREQ=DAILY;INTERVAL=2");
    assert!(parsed.is_recurring);
    assert_eq!(parsed.frequency, RecurrenceFrequency::Daily);
    assert_eq!(parsed.interval, 2);
}

#[test]
fn test_parse_rrule_weekly_with_byday() {
    let parsed = ParsedRRule::parse("FREQ=WEEKLY;BYDAY=MO,WE,FR");
    assert_eq!(parsed.frequency, RecurrenceFrequency::Weekly);
    assert!(parsed.byday_flags[1]);
    assert!(parsed.byday_flags[3]);
    assert!(parsed.byday_flags[5]);
    assert!(!parsed.byday_flags[0]);
}

#[test]
fn test_parse_rrule_monthly_with_count() {
    let parsed = ParsedRRule::parse("FREQ=MONTHLY;COUNT=12");
    assert_eq!(parsed.frequency, RecurrenceFrequency::Monthly);
    assert_eq!(parsed.count, Some(12));
}

#[test]
fn test_parse_rrule_with_until() {
    let parsed = ParsedRRule::parse("FREQ=YEARLY;UNTIL=20251231");
    assert_eq!(parsed.frequency, RecurrenceFrequency::Yearly);
    assert_eq!(parsed.until_date, Some(CalDate::from_ymd_opt(2025, 12, 31).unwrap()));
}

#[test]
fn test_parse_rrule_first_weekday_pattern() {
    let parsed = ParsedRRule::parse("FREQ=MONTHLY;BYDAY=1MO");
    assert_eq!(parsed.pattern, RecurrencePattern::FirstWeekdayOfPeriod(Weekday::Monday));
}

#[test]
fn test_parse_rrule_last_weekday_pattern() {
    let parsed = ParsedRRule::parse("FREQ=MONTHLY;BYDAY=-1FR");
    assert_eq!(parsed.pattern, RecurrencePattern::LastWeekdayOfPeriod(Weekday::Friday));
}

#[test]
fn test_build_rrule_simple() {
    let builder = RRuleBuilder {
        is_recurring: true,
        frequency: RecurrenceFrequency::Daily,
        interval: 1,
        pattern: RecurrencePattern::NoPattern,
        byday_enabled: false,
        byday_flags: [false; 7],
        count: None,
        until_date: None,
    };
    assert_eq!(builder.build(), Some("FREQ=DAILY".to_string()));
}

#[test]
fn test_build_rrule_weekly_with_days() {
    let builder = RRuleBuilder {
        is_recurring: true,
        frequency: RecurrenceFrequency::Weekly,
        interval: 2,
        pattern: RecurrencePattern::NoPattern,
        byday_enabled: true,
        byday_flags: [false, true, false, true, false, true, false],
        count: Some(10),
        until_date: None,
    };
    assert_eq!(
        builder.build(),
        Some("FREQ=WEEKLY;INTERVAL=2;BYDAY=MO,WE,FR;COUNT=10".to_string())
    );
}

#[test]
fn test_build_rrule_not_recurring() {
    let builder = RRuleBuilder {
        is_recurring: false,
        frequency: RecurrenceFrequency::Daily,
        interval: 1,
        pattern: RecurrencePattern::NoPattern,
        byday_enabled: false,
        byday_flags: [false; 7],
        count: None,
        until_date: None,
    };
    assert_eq!(builder.build(), None);
}

#[test]
fn test_build_rrule_monthly_first_day() {
    let builder = RRuleBuilder {
        is_recurring: true,
        frequency: RecurrenceFrequency::Monthly,
        interval: 1,
        pattern: RecurrencePattern::FirstDayOfPeriod,
        byday_enabled: false,
        byday_flags: [false; 7],
        count: None,
        until_date: None,
    };
    assert_eq!(builder.build(), Some("FREQ=MONTHLY;BYMONTHDAY=1".to_string()));
}

#[test]
fn build_then_parse_gives_back_the_rule() {
    let builder = RRuleBuilder {
        is_recurring: true,
        frequency: RecurrenceFrequency::Weekly,
        interval: 3,
        pattern: RecurrencePattern::NoPattern,
        byday_enabled: true,
        byday_flags: [true, false, false, true, false, false, true],
        count: None,
        until_date: Some(CalDate::from_ymd_opt(2030, 2, 28).unwrap()),
    };
    let text = builder.build().unwrap();
    assert_eq!(text, "FREQ=WEEKLY;INTERVAL=3;BYDAY=SU,WE,SA;UNTIL=20300228");
    let parsed = ParsedRRule::parse(&text);
    assert!(parsed.is_recurring);
    assert_eq!(parsed.frequency, RecurrenceFrequency::Weekly);
    assert_eq!(parsed.interval, 3);
    assert_eq!(parsed.byday_flags, [true, false, false, true, false, false, true]);
    assert_eq!(parsed.until_date, builder.until_date);
    assert_eq!(parsed.count, None);
}

#[test]
fn build_then_parse_gives_back_a_positional_pattern() {
    let builder = RRuleBuilder {
        is_recurring: true,
        frequency: RecurrenceFrequency::Yearly,
        interval: 1,
        pattern: RecurrencePattern::LastWeekdayOfPeriod(Weekday::Sunday),
        byday_enabled: false,
        byday_flags: [false; 7],
        count: Some(4),
        until_date: None,
    };
    let text = builder.build().unwrap();
    assert_eq!(text, "FREQ=YEARLY;BYDAY=-1SU;COUNT=4");
    let parsed = ParsedRRule::parse(&text);
    assert_eq!(parsed.pattern, builder.pattern);
    assert_eq!(parsed.count, Some(4));
}

#[test]
fn weekday_codes_round_trip() {
    for w in Weekday::all() {
        assert_eq!(Weekday::from_rrule_day(w.to_rrule_day()), Some(w));
    }
    assert_eq!(Weekday::from_rrule_day("XX"), None);
    assert_eq!(Weekday::from_index(0), Some(Weekday::Sunday));
    assert_eq!(Weekday::from_index(7), Some(Weekday::Sunday));
    assert_eq!(Weekday::Wednesday.short_label(), "Wed");
}
