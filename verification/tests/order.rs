use explorer::order::{float_key_of, is_nan, stable_order};

#[test]
fn stable_order_sorts_by_key_then_position() {
    assert_eq!(stable_order(&vec![3, 1, 2, 1, 3]), vec![1, 3, 2, 0, 4]);
    assert_eq!(stable_order(&vec![]), Vec::<usize>::new());
    assert_eq!(stable_order(&vec![i64::MAX, i64::MIN, 0]), vec![1, 2, 0]);
}

#[test]
fn float_keys_follow_numeric_order() {
    let xs = [f64::NEG_INFINITY, -1e300, -2.5, -1.0, -f64::MIN_POSITIVE, 0.0, 1e-300, 1.0, 2.5, f64::MAX, f64::INFINITY];
    for w in xs.windows(2) {
        assert!(float_key_of(w[0].to_bits()) < float_key_of(w[1].to_bits()), "{} < {}", w[0], w[1]);
    }
    assert_eq!(float_key_of((-0.0f64).to_bits()), float_key_of(0.0f64.to_bits()));
}

#[test]
fn nan_is_recognised() {
    assert!(is_nan(f64::NAN.to_bits()));
    assert!(is_nan((-f64::NAN).to_bits()));
    assert!(!is_nan(f64::INFINITY.to_bits()));
    assert!(!is_nan(1.0f64.to_bits()));
}
