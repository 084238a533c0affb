use explorer::feed_interest::FeedInterest;
use explorer::preferences::{DefaultView, Preferences, Theme};

#[test]
fn preferences_new_defaults() {
    let p = Preferences::new();
    assert_eq!(p.theme, Theme::Light);
    assert_eq!(p.default_view, DefaultView::Graph);
    assert!(!p.sidebar_collapsed);
    assert!(p.feed_interests.is_empty());
}

#[test]
fn set_display_name_changes_it() {
    let mut p = Preferences::new();
    p.set_display_name("Max");
    assert_eq!(p.display_name, "Max");
    assert!(p.updated_at >= p.created_at);
}

#[test]
fn set_theme_changes_it() {
    let mut p = Preferences::new();
    p.set_theme(Theme::Dark);
    assert_eq!(p.theme, Theme::Dark);
    assert!(p.updated_at >= p.created_at);
}

#[test]
fn toggle_theme_flips() {
    let mut p = Preferences::new();
    p.toggle_theme();
    assert_eq!(p.theme, Theme::Dark);
    p.toggle_theme();
    assert_eq!(p.theme, Theme::Light);
}

#[test]
fn set_accent_color_sets_it() {
    let mut p = Preferences::new();
    p.set_accent_color(Some("#abc".to_string()));
    assert_eq!(p.accent_color.as_deref(), Some("#abc"));
}

#[test]
fn set_default_view_sets_it() {
    let mut p = Preferences::new();
    p.set_default_view(DefaultView::Tasks);
    assert_eq!(p.default_view, DefaultView::Tasks);
}

#[test]
fn set_sidebar_collapsed_sets_it() {
    let mut p = Preferences::new();
    p.set_sidebar_collapsed(true);
    assert!(p.sidebar_collapsed);
}

#[test]
fn toggle_sidebar_flips() {
    let mut p = Preferences::new();
    p.toggle_sidebar();
    assert!(p.sidebar_collapsed);
    p.toggle_sidebar();
    assert!(!p.sidebar_collapsed);
}

#[test]
fn add_feed_interest_adds() {
    let mut p = Preferences::new();
    p.add_feed_interest(FeedInterest::new("rust"));
    assert_eq!(p.feed_interests.len(), 1);
}

#[test]
fn remove_feed_interest_present_returns_it() {
    let mut p = Preferences::new();
    let interest = FeedInterest::new("rust");
    let id = interest.id.clone();
    p.add_feed_interest(interest);
    assert!(p.remove_feed_interest(&id).is_some());
}

#[test]
fn find_feed_interest_and_mut() {
    let mut p = Preferences::new();
    let interest = FeedInterest::new("rust");
    let id = interest.id.clone();
    p.add_feed_interest(interest);
    assert!(p.find_feed_interest(&id).is_some());
    p.find_feed_interest_mut(&id).unwrap().set_weight(Some(1.0f64.to_bits()));
    assert_eq!(p.find_feed_interest(&id).unwrap().explicit_weight, Some(1.0f64.to_bits()));
}

/// The ranking score: the explicit weight (0 when unset) plus half the
/// interaction points per day of age.
fn score(i: &FeedInterest) -> u64 {
    let weight = i.explicit_weight.map(f64::from_bits).unwrap_or(0.0);
    let implicit = (i.interaction_points() as f64 / 2.0) / i.age_in_days() as f64;
    (weight + implicit).to_bits()
}

#[test]
fn ranked_interests_sorted_by_descending_score() {
    let mut p = Preferences::new();
    let mut low = FeedInterest::new("low");
    low.set_weight(Some(1.0f64.to_bits()));
    let mut high = FeedInterest::new("high");
    high.set_weight(Some(5.0f64.to_bits()));
    let mut mid = FeedInterest::new("mid");
    mid.set_weight(Some(3.0f64.to_bits()));
    p.add_feed_interest(low);
    p.add_feed_interest(high);
    p.add_feed_interest(mid);

    let scores: Vec<u64> = p.feed_interests.iter().map(score).collect();
    let ranked = p.ranked_interests(&scores);
    assert_eq!(ranked[0].topic, "high");
    assert_eq!(ranked[1].topic, "mid");
    assert_eq!(ranked[2].topic, "low");
}

#[test]
fn ranked_interests_keep_stored_order_on_ties() {
    let mut p = Preferences::new();
    for topic in ["a", "b", "c", "d"] {
        p.add_feed_interest(FeedInterest::new(topic));
    }
    let scores = vec![1.0f64.to_bits(), (-2.0f64).to_bits(), 1.0f64.to_bits(), 0.0f64.to_bits()];
    let topics: Vec<&str> = p.ranked_interests(&scores).iter().map(|i| i.topic.as_str()).collect();
    assert_eq!(topics, vec!["a", "c", "d", "b"]);
}
