use explorer::feed_interest::FeedInterest;
use explorer::feed_source::FeedSource;
use explorer::timestamp::Timestamp;

#[test]
fn feed_interest_new_defaults() {
    let i = FeedInterest::new("rust");
    assert_eq!(i.open_count, 0);
    assert_eq!(i.save_count, 0);
    assert_eq!(i.dismiss_count, 0);
    assert!(i.sources.is_empty());
    assert!(i.explicit_weight.is_none());
    assert!(i.last_interacted_at.is_none());
}

#[test]
fn record_open_increments_and_stamps() {
    let mut i = FeedInterest::new("rust");
    i.record_open();
    assert_eq!(i.open_count, 1);
    assert!(i.last_interacted_at.is_some());
}

#[test]
fn record_save_increments_and_stamps() {
    let mut i = FeedInterest::new("rust");
    i.record_save();
    assert_eq!(i.save_count, 1);
    assert!(i.last_interacted_at.is_some());
}

#[test]
fn record_dismiss_increments_and_stamps() {
    let mut i = FeedInterest::new("rust");
    i.record_dismiss();
    assert_eq!(i.dismiss_count, 1);
    assert!(i.last_interacted_at.is_some());
}

#[test]
fn set_weight_sets_it() {
    let mut i = FeedInterest::new("rust");
    i.set_weight(Some(2.0f64.to_bits()));
    assert_eq!(i.explicit_weight, Some(2.0f64.to_bits()));
}

#[test]
fn add_source_adds() {
    let mut i = FeedInterest::new("rust");
    i.add_source(FeedSource::new("s", "u"));
    assert_eq!(i.sources.len(), 1);
}

#[test]
fn add_source_ignores_duplicate() {
    let mut i = FeedInterest::new("rust");
    let s = FeedSource::new("s", "u");
    i.add_source(s.clone());
    i.add_source(s);
    assert_eq!(i.sources.len(), 1);
}

#[test]
fn remove_source_present_returns_it() {
    let mut i = FeedInterest::new("rust");
    let s = FeedSource::new("s", "u");
    let id = s.id.clone();
    i.add_source(s);
    assert!(i.remove_source(&id).is_some());
}

#[test]
fn has_source_reflects_membership() {
    let mut i = FeedInterest::new("rust");
    let s = FeedSource::new("s", "u");
    let id = s.id.clone();
    i.add_source(s);
    assert!(i.has_source(&id));
    assert!(!i.has_source("nope"));
}

// The implicit score is the interaction points halved and
// divided by the age in days; at equal age its direction is that of the
// points.
#[test]
fn implicit_score_moves_in_expected_direction() {
    let baseline = FeedInterest::new("rust");

    let mut active = FeedInterest::new("rust");
    active.record_open();
    active.record_open();
    active.record_save();

    let mut dismissed = FeedInterest::new("rust");
    dismissed.record_dismiss();

    assert_eq!(active.age_in_days(), baseline.age_in_days());
    assert!(active.interaction_points() > baseline.interaction_points());
    assert!(dismissed.interaction_points() < baseline.interaction_points());
}

#[test]
fn interaction_points_weigh_each_kind() {
    let mut i = FeedInterest::new("t");
    i.open_count = 3;
    i.save_count = 2;
    i.dismiss_count = 4;
    // 3 * 1.0 + 2 * 2.5 - 4 * 1.5 = 2.0, doubled
    assert_eq!(i.interaction_points(), 4);
    i.open_count = i32::MAX;
    i.save_count = i32::MAX;
    i.dismiss_count = i32::MIN;
    assert_eq!(i.interaction_points(), 2 * (i32::MAX as i64) + 5 * (i32::MAX as i64) + 3 * 2_147_483_648);
}

#[test]
fn age_in_days_counts_whole_days_and_floors_at_one() {
    let i = FeedInterest::new("t");
    let created = i.created_at;
    let plus = |secs: i64| Timestamp::from_parts(created.secs() + secs, created.nanos()).unwrap();
    assert_eq!(i.age_in_days_at(&created), 1);
    assert_eq!(i.age_in_days_at(&plus(86_399)), 1);
    assert_eq!(i.age_in_days_at(&plus(3 * 86_400)), 3);
    assert_eq!(i.age_in_days_at(&plus(-5 * 86_400)), 1);
}
