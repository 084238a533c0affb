use explorer::recurrence::{DayOfWeek, Frequency, RecurrenceRule};
use explorer::timestamp::Timestamp;

fn stamp(dt: chrono::DateTime<chrono::Utc>) -> Timestamp {
    Timestamp::from_parts(dt.timestamp(), dt.timestamp_subsec_nanos()).unwrap()
}

fn past() -> Timestamp {
    stamp(chrono::Utc::now() - chrono::Duration::days(2))
}

fn future() -> Timestamp {
    stamp(chrono::Utc::now() + chrono::Duration::days(2))
}

#[test]
fn recurrence_rule_new_defaults() {
    let r = RecurrenceRule::new();
    assert!(r.frequency.is_none());
    assert!(r.interval.is_none());
    assert!(r.day_of_month.is_none());
    assert!(r.days_of_week.is_empty());
    assert!(r.end_date.is_none());
}

#[test]
fn with_frequency_sets_it() {
    let r = RecurrenceRule::new().with_frequency(Frequency::Weekly);
    assert!(matches!(r.frequency, Some(Frequency::Weekly)));
}

#[test]
fn with_interval_sets_it() {
    assert_eq!(RecurrenceRule::new().with_interval(3).interval, Some(3));
}

#[test]
fn with_days_of_week_sets_them() {
    let r = RecurrenceRule::new().with_days_of_week(vec![DayOfWeek::Monday, DayOfWeek::Friday]);
    assert_eq!(r.days_of_week.len(), 2);
}

#[test]
fn with_day_of_month_sets_it() {
    assert_eq!(RecurrenceRule::new().with_day_of_month(15).day_of_month, Some(15));
}

#[test]
fn with_end_date_sets_it() {
    let end = future();
    assert_eq!(RecurrenceRule::new().with_end_date(end).end_date, Some(end));
}

#[test]
fn set_frequency_and_interval() {
    let mut r = RecurrenceRule::new();
    r.set_frequency(Some(Frequency::Daily));
    r.set_interval(Some(2));
    assert!(matches!(r.frequency, Some(Frequency::Daily)));
    assert_eq!(r.interval, Some(2));
    assert!(r.updated_at >= r.created_at);
}

#[test]
fn add_day_adds() {
    let mut r = RecurrenceRule::new();
    r.add_day(DayOfWeek::Monday);
    assert_eq!(r.days_of_week.len(), 1);
}

#[test]
fn add_day_ignores_duplicate() {
    let mut r = RecurrenceRule::new();
    r.add_day(DayOfWeek::Monday);
    r.add_day(DayOfWeek::Monday);
    assert_eq!(r.days_of_week.len(), 1);
}

#[test]
fn remove_day_removes() {
    let mut r = RecurrenceRule::new();
    r.add_day(DayOfWeek::Monday);
    r.remove_day(DayOfWeek::Monday);
    assert!(r.days_of_week.is_empty());
}

#[test]
fn effective_interval_returns_set_value() {
    assert_eq!(RecurrenceRule::new().with_interval(4).effective_interval(), 4);
}

#[test]
fn effective_interval_defaults_to_one() {
    assert_eq!(RecurrenceRule::new().effective_interval(), 1);
}

#[test]
fn effective_interval_floors_at_one() {
    assert_eq!(RecurrenceRule::new().with_interval(0).effective_interval(), 1);
}

#[test]
fn has_ended_true_when_past() {
    assert!(RecurrenceRule::new().with_end_date(past()).has_ended());
}

#[test]
fn has_ended_false_when_future() {
    assert!(!RecurrenceRule::new().with_end_date(future()).has_ended());
}

#[test]
fn has_ended_false_without_end_date() {
    assert!(!RecurrenceRule::new().has_ended());
}

#[test]
fn is_active_when_frequency_set_and_not_ended() {
    let r = RecurrenceRule::new().with_frequency(Frequency::Daily).with_end_date(future());
    assert!(r.is_active());
}

#[test]
fn is_active_false_without_frequency() {
    assert!(!RecurrenceRule::new().is_active());
}

#[test]
fn is_active_false_when_ended() {
    let r = RecurrenceRule::new().with_frequency(Frequency::Daily).with_end_date(past());
    assert!(!r.is_active());
}

#[test]
fn effective_interval_floors_negative_at_one() {
    assert_eq!(RecurrenceRule::new().with_interval(-7).effective_interval(), 1);
    assert_eq!(RecurrenceRule::new().with_interval(i32::MIN).effective_interval(), 1);
}

#[test]
fn remove_day_keeps_other_days_in_order() {
    let mut r = RecurrenceRule::new().with_days_of_week(vec![
        DayOfWeek::Monday,
        DayOfWeek::Tuesday,
        DayOfWeek::Monday,
        DayOfWeek::Sunday,
    ]);
    r.remove_day(DayOfWeek::Monday);
    assert_eq!(r.days_of_week, vec![DayOfWeek::Tuesday, DayOfWeek::Sunday]);
}

#[test]
fn remove_absent_day_leaves_rule_unchanged() {
    let mut r = RecurrenceRule::new().with_days_of_week(vec![DayOfWeek::Friday]);
    let before = r.updated_at;
    r.remove_day(DayOfWeek::Monday);
    assert_eq!(r.days_of_week, vec![DayOfWeek::Friday]);
    assert_eq!(r.updated_at, before);
}

#[test]
fn has_ended_at_is_strict() {
    let end = Timestamp::from_parts(50, 0).unwrap();
    let r = RecurrenceRule::new().with_frequency(Frequency::Yearly).with_end_date(end);
    assert!(!r.has_ended_at(&end));
    assert!(r.is_active_at(&end));
    let later = Timestamp::from_parts(50, 1).unwrap();
    assert!(r.has_ended_at(&later));
    assert!(!r.is_active_at(&later));
}

#[test]
fn default_matches_new_rule() {
    let r = RecurrenceRule::default();
    assert!(r.frequency.is_none());
    assert_eq!(r.created_at, r.updated_at);
}
