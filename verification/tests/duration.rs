use qmp::duration::Duration;

#[test]
fn conversions() {
    let d = Duration::new(3, 250_000_000);
    assert_eq!(d.as_secs(), 3);
    assert_eq!(d.subsec_nanos(), 250_000_000);
    assert_eq!(d.as_millis(), 3250);
    assert_eq!(d.as_nanos(), 3_250_000_000);
    assert_eq!(Duration::from_secs(2), Duration::from_millis(2000));
    assert_eq!(Duration::zero().as_nanos(), 0);
    let max = Duration::new(u64::MAX, 999_999_999);
    assert_eq!(max.as_secs(), u64::MAX);
    assert_eq!(max.as_nanos(), std::time::Duration::MAX.as_nanos());
}

#[test]
fn ordering_and_differences() {
    let a = Duration::from_millis(10);
    let b = Duration::from_millis(25);
    assert!(b.at_least(&a));
    assert!(a.at_least(&a));
    assert!(!a.at_least(&b));
    assert_eq!(b.saturating_sub(&a), Duration::from_millis(15));
    assert_eq!(a.saturating_sub(&b), Duration::zero());
}
