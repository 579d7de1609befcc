use rust_calendar::calendar_date::CalDate;
use rust_calendar::countdown::{countdown_target, effective_span, StoredEventSpan};
use rust_calendar::countdown::{GeometrySampleState, PendingGeometryState};
use rust_calendar::countdown::{
    compose_countdown_body, has_recurrence_rule, normalized_non_empty, LayoutOrientation,
};

#[test]
fn test_layout_orientation_default() {
    let orientation = LayoutOrientation::default();
    assert_eq!(orientation, LayoutOrientation::Vertical);
}

#[test]
fn compose_countdown_body_merges_description_location_and_source() {
    let result = compose_countdown_body(
        Some("Bring projector".to_string()),
        Some("Room 4".to_string()),
        Some("Google Work".to_string()),
    );

    assert_eq!(
        result.as_deref(),
        Some("Bring projector\n\nLocation: Room 4\n\nSynced source: Google Work")
    );
}

#[test]
fn compose_countdown_body_ignores_empty_segments() {
    let result = compose_countdown_body(
        Some("   ".to_string()),
        Some("Office".to_string()),
        None,
    );

    assert_eq!(result.as_deref(), Some("Location: Office"));
}

#[test]
fn compose_countdown_body_is_none_without_text() {
    assert_eq!(compose_countdown_body(None, Some(" \t".to_string()), Some(String::new())), None);
}

#[test]
fn compose_countdown_body_trims_each_section() {
    let result = compose_countdown_body(None, None, Some("  Team cal \n".to_string()));
    assert_eq!(result.as_deref(), Some("Synced source: Team cal"));
}

#[test]
fn normalized_text_is_trimmed_or_dropped() {
    assert_eq!(normalized_non_empty(Some("  a b ".to_string())), Some("a b".to_string()));
    assert_eq!(normalized_non_empty(Some("\u{3000}".to_string())), None);
    assert_eq!(normalized_non_empty(None), None);
}

#[test]
fn recurrence_rule_presence() {
    assert!(has_recurrence_rule(Some("FREQ=DAILY")));
    assert!(!has_recurrence_rule(Some("  None ")));
    assert!(!has_recurrence_rule(Some("   ")));
    assert!(!has_recurrence_rule(None));
    assert!(has_recurrence_rule(Some("none")));
}

#[test]
fn pending_geometry_gives_up_after_the_frame_limit() {

    let mut p = PendingGeometryState::new((120, 110));
    for _ in 0..119 {
        assert!(p.should_hide());
    }
    assert!(!p.should_hide());
    assert!(p.force_visible);
    assert!(!p.should_hide());
    assert_eq!(p.attempts, 120);
}

#[test]
fn geometry_is_saved_once_it_holds_still() {

    let mut g = GeometrySampleState::new((0, 0));
    assert!(!g.record((0, 0), false, None));
    assert!(!g.record((0, 0), false, None));
    assert!(!g.record((0, 0), false, None));
    assert_eq!(g.stable_frames, 4);
    assert!(g.record((0, 0), false, None));
    assert!(!g.record((0, 0), false, None));
    assert!(!g.record((5, 5), true, None));
    assert_eq!(g.last, (5, 5));
    assert_eq!(g.stable_frames, 1);
    assert!(!g.record((5, 5), false, Some(false)));
    assert_eq!(g.stable_frames, 1);
}

#[test]
fn countdown_targets_and_spans() {
    assert_eq!(countdown_target(100, 200, 50), Some(100));
    assert_eq!(countdown_target(100, 200, 150), Some(200));
    assert_eq!(countdown_target(100, 200, 200), None);
    let d1 = CalDate::from_ymd_opt(2024, 1, 1).unwrap();
    let d2 = CalDate::from_ymd_opt(2024, 1, 3).unwrap();
    let multi = StoredEventSpan { start_ts: 10, end_ts: 20, start_day: d1, end_day: d2, recurrence_rule: None };
    assert_eq!(effective_span((1, 2), Some(&multi)), (10, 20));
    let recurring = StoredEventSpan { recurrence_rule: Some("FREQ=DAILY".to_string()), ..multi };
    assert_eq!(effective_span((1, 2), Some(&recurring)), (1, 2));
    let one_day = StoredEventSpan { start_ts: 10, end_ts: 20, start_day: d1, end_day: d1, recurrence_rule: Some("None".to_string()) };
    assert_eq!(effective_span((1, 2), Some(&one_day)), (1, 2));
    assert_eq!(effective_span((1, 2), None), (1, 2));
}
