use explorer::timestamp::Timestamp;

fn t(secs: i64, nanos: u32) -> Timestamp {
    Timestamp::from_parts(secs, nanos).unwrap()
}

#[test]
fn from_parts_rejects_a_full_second_of_nanos() {
    assert!(Timestamp::from_parts(0, 1_000_000_000).is_none());
    assert!(Timestamp::from_parts(0, 999_999_999).is_some());
    assert_eq!(t(-3, 7).secs(), -3);
    assert_eq!(t(-3, 7).nanos(), 7);
}

#[test]
fn is_before_is_strict_and_chronological() {
    assert!(t(1, 0).is_before(&t(1, 1)));
    assert!(t(-1, 999_999_999).is_before(&t(0, 0)));
    assert!(!t(5, 5).is_before(&t(5, 5)));
    assert!(!t(6, 0).is_before(&t(5, 999_999_999)));
}

#[test]
fn minutes_and_days_round_toward_zero() {
    assert_eq!(t(0, 0).minutes_until(&t(60, 0)), 1);
    assert_eq!(t(0, 0).minutes_until(&t(59, 999_999_999)), 0);
    assert_eq!(t(60, 0).minutes_until(&t(0, 1)), 0);
    assert_eq!(t(60, 0).minutes_until(&t(0, 0)), -1);
    assert_eq!(t(0, 0).whole_days_until(&t(2 * 86_400 + 5, 0)), 2);
    assert_eq!(t(0, 0).whole_days_until(&t(-86_400, 0)), -1);
    assert_eq!(t(i64::MIN, 0).minutes_until(&t(i64::MAX, 999_999_999)), 307_445_734_561_825_860);
}

#[test]
fn now_is_a_valid_recent_time() {
    let a = Timestamp::now();
    let b = Timestamp::now();
    assert!(a.nanos() < 1_000_000_000);
    assert!(a.secs() > 1_600_000_000);
    assert!(!b.is_before(&a) || a.minutes_until(&b) == 0);
}
