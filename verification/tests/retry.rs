use qmp::duration::Duration;
use qmp::error::{Error, JsonError, JsonErrorCategory};
use qmp::ops::{RetryPolicy, RetryStep};

fn fixed(base_ms: u64, max_ms: u64, attempts: usize) -> RetryPolicy {
    RetryPolicy {
        max_attempts: attempts,
        base_delay: Duration::from_millis(base_ms),
        max_delay: Duration::from_millis(max_ms),
        jitter: false,
    }
}

#[test]
fn presets() {
    let none = RetryPolicy::none();
    assert_eq!(none.max_attempts, 1);
    assert_eq!(none.base_delay, Duration::from_millis(50));
    assert_eq!(none.max_delay, Duration::from_secs(2));
    assert!(none.jitter);
    let c = RetryPolicy::conservative();
    assert_eq!(c.max_attempts, 3);
    assert_eq!(c.base_delay, Duration::from_millis(100));
    assert_eq!(c.max_delay, Duration::from_secs(2));
    assert!(c.jitter);
    let d = RetryPolicy::default();
    assert_eq!(d.max_attempts, 3);
}

#[test]
fn exponential_backoff_without_jitter() {
    let p = fixed(100, 2000, 10);
    let expected = [0u64, 0, 100, 200, 400, 800, 1600, 2000, 2000];
    for (attempt, ms) in expected.iter().enumerate() {
        assert_eq!(p.backoff_millis(attempt), *ms, "attempt {attempt}");
        assert_eq!(p.delay(attempt), Duration::from_millis(*ms), "attempt {attempt}");
    }
}

#[test]
fn exponent_stops_growing_at_31() {
    let p = fixed(1, u64::MAX, 10);
    assert_eq!(p.backoff_millis(33), 1u64 << 31);
    assert_eq!(p.backoff_millis(1000), 1u64 << 31);
    let big = fixed(u64::MAX, u64::MAX, 10);
    assert_eq!(big.backoff_millis(40), u64::MAX);
}

#[test]
fn sub_millisecond_parts_are_dropped() {
    let p = RetryPolicy {
        max_attempts: 2,
        base_delay: Duration::new(0, 1_500_000),
        max_delay: Duration::new(1, 999_999),
        jitter: false,
    };
    assert_eq!(p.backoff_millis(2), 1);
    assert_eq!(p.backoff_millis(20), 1000);
}

#[test]
fn jitter_stays_within_backoff() {
    let p = RetryPolicy { jitter: true, ..fixed(100, 2000, 10) };
    for _ in 0..200 {
        assert_eq!(p.delay(1), Duration::zero());
        let d = p.delay(4);
        assert!(d.as_millis() <= 400);
        assert_eq!(d.as_nanos() % 1_000_000, 0);
    }
    let zero = RetryPolicy { jitter: true, ..fixed(0, 2000, 10) };
    assert_eq!(zero.delay(5), Duration::zero());
}

#[test]
fn retry_decisions() {
    let p = fixed(100, 2000, 3);
    assert_eq!(p.after_failure(1, &Error::Disconnected), RetryStep::Retry(Duration::from_millis(0)));
    assert_eq!(
        p.after_failure(2, &Error::Timeout { timeout: Duration::from_secs(1) }),
        RetryStep::Retry(Duration::from_millis(100))
    );
    assert_eq!(p.after_failure(3, &Error::Disconnected), RetryStep::GiveUp);
    assert_eq!(p.after_failure(1, &Error::Cancelled), RetryStep::GiveUp);
    let json = Error::Json {
        source: JsonError {
            message: "x".to_string(),
            line: 1,
            column: 1,
            category: JsonErrorCategory::Syntax,
        },
    };
    assert_eq!(p.after_failure(1, &json), RetryStep::GiveUp);
    assert_eq!(RetryPolicy::none().after_failure(1, &Error::Disconnected), RetryStep::GiveUp);
    let zero = fixed(100, 2000, 0);
    assert_eq!(zero.after_failure(1, &Error::Disconnected), RetryStep::GiveUp);
}

#[test]
fn should_retry_follows_error_kind() {
    let p = RetryPolicy::conservative();
    assert!(p.should_retry(&Error::Disconnected));
    assert!(p.should_retry(&Error::Io { source: std::io::Error::other("boom") }));
    assert!(p.should_retry(&Error::Timeout { timeout: Duration::from_secs(3) }));
    assert!(!p.should_retry(&Error::Cancelled));
    assert!(!p.should_retry(&Error::Protocol { message: "m".to_string() }));
}
