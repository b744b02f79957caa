use qmp::duration::Duration;
use qmp::ops::{CommandMode, CommandRule, RetryPolicy, plan_call};

fn rule(mode: CommandMode, timeout: Option<Duration>) -> CommandRule {
    CommandRule { mode, retry: RetryPolicy::conservative(), timeout }
}

#[test]
fn plain_commands_take_no_lock_and_no_key() {
    let p = plan_call(&rule(CommandMode::Plain, Some(Duration::from_secs(3))), "query-status", None, None);
    assert_eq!(p.lock_key, None);
    assert!(p.idempotency.is_none());
    assert_eq!(p.timeout, Some(Duration::from_secs(3)));
    assert_eq!(p.retry.max_attempts, 3);
}

#[test]
fn caller_timeout_wins() {
    let p = plan_call(
        &rule(CommandMode::Plain, Some(Duration::from_secs(3))),
        "query-status",
        None,
        Some(Duration::from_millis(5)),
    );
    assert_eq!(p.timeout, Some(Duration::from_millis(5)));
}

#[test]
fn mutex_commands_lock_their_key() {
    let p = plan_call(&rule(CommandMode::Mutex { key: "vm".to_string() }, None), "stop", None, None);
    assert_eq!(p.lock_key.as_deref(), Some("vm"));
    assert!(p.idempotency.is_none());
    assert_eq!(p.timeout, None);
}

#[test]
fn idempotent_commands_get_a_key() {
    let ttl = Some(Duration::from_secs(60));
    let derived = plan_call(
        &rule(CommandMode::Idempotent { key: None, mutex_key: Some("m".to_string()), ttl }, None),
        "eject",
        Some(r#"{"device":"cd0"}"#),
        None,
    );
    assert_eq!(derived.lock_key.as_deref(), Some("m"));
    let (k, t) = derived.idempotency.expect("idempotent");
    assert_eq!(k, r#"eject:{"device":"cd0"}"#);
    assert_eq!(t, ttl);
    let explicit = plan_call(
        &rule(CommandMode::Idempotent { key: Some("fixed".to_string()), mutex_key: None, ttl: None }, None),
        "eject",
        None,
        None,
    );
    assert_eq!(explicit.lock_key, None);
    let (k, t) = explicit.idempotency.expect("idempotent");
    assert_eq!(k, "fixed");
    assert_eq!(t, None);
}
