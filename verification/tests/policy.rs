use qmp::duration::Duration;
use qmp::error::{Error, ErrorKind};
use qmp::ops::{CommandMode, CommandRule, PolicyBuilder, Profile, RetryPolicy};

const READ_ONLY: [&str; 6] = [
    "query-status",
    "query-version",
    "query-kvm",
    "query-machines",
    "query-cpus-fast",
    "query-block",
];
const VM_CONTROL: [&str; 4] = ["stop", "cont", "system_powerdown", "system_reset"];

#[test]
fn read_only_profile_rejects_stop_with_policy_error() {
    let policy = PolicyBuilder::new().profile(Profile::ReadOnly).build();
    let err = policy.rule_for("stop").err().expect("must error");
    assert_eq!(err.kind(), ErrorKind::Policy);
    match err {
        Error::PolicyViolation { command, reason } => {
            assert_eq!(command, "stop");
            assert_eq!(reason, "command is not allowed");
        }
        other => panic!("unexpected error {other:?}"),
    }
}

#[test]
fn read_only_profile_admits_queries_with_default_rule() {
    let policy = PolicyBuilder::default().build();
    for cmd in READ_ONLY {
        assert!(policy.is_allowed(cmd), "{cmd}");
        let rule = policy.rule_for(cmd).expect("allowed");
        assert_eq!(rule.mode, CommandMode::Plain);
        assert_eq!(rule.retry.max_attempts, 1);
        assert_eq!(rule.timeout, None);
    }
    for cmd in VM_CONTROL {
        assert!(!policy.is_allowed(cmd), "{cmd}");
        assert!(policy.rule_for(cmd).is_err());
    }
}

#[test]
fn vm_control_profile_serialises_stop_and_cont() {
    let policy = PolicyBuilder::new().profile(Profile::VmControl).build();
    for cmd in READ_ONLY.iter().chain(VM_CONTROL.iter()) {
        assert!(policy.is_allowed(cmd), "{cmd}");
    }
    for cmd in ["stop", "cont"] {
        let rule = policy.rule_for(cmd).expect("allowed");
        assert_eq!(rule.mode, CommandMode::Mutex { key: "vm-control".to_string() });
        assert_eq!(rule.retry.max_attempts, 3);
        assert_eq!(rule.retry.base_delay, Duration::from_millis(100));
        assert_eq!(rule.retry.max_delay, Duration::from_secs(2));
        assert!(rule.retry.jitter);
        assert_eq!(rule.timeout, Some(Duration::from_secs(10)));
    }
    let rule = policy.rule_for("system_reset").expect("allowed");
    assert_eq!(rule.mode, CommandMode::Plain);
    assert!(policy.rule_for("device_add").is_err());
}

#[test]
fn explicit_rule_wins_over_profile_rule() {
    let mine = CommandRule {
        mode: CommandMode::Plain,
        retry: RetryPolicy::none(),
        timeout: Some(Duration::from_secs(1)),
    };
    let policy = PolicyBuilder::new()
        .rule("stop".to_string(), mine)
        .profile(Profile::VmControl)
        .build();
    let rule = policy.rule_for("stop").expect("allowed");
    assert_eq!(rule.mode, CommandMode::Plain);
    assert_eq!(rule.timeout, Some(Duration::from_secs(1)));
    let cont = policy.rule_for("cont").expect("allowed");
    assert_eq!(cont.mode, CommandMode::Mutex { key: "vm-control".to_string() });
}

#[test]
fn later_rule_for_same_command_replaces_earlier() {
    let first = CommandRule { mode: CommandMode::Plain, retry: RetryPolicy::none(), timeout: None };
    let second = CommandRule {
        mode: CommandMode::Mutex { key: "k".to_string() },
        retry: RetryPolicy::conservative(),
        timeout: None,
    };
    let policy = PolicyBuilder::new()
        .rule("query-kvm".to_string(), first)
        .rule("query-kvm".to_string(), second)
        .build();
    let rule = policy.rule_for("query-kvm").expect("allowed");
    assert_eq!(rule.mode, CommandMode::Mutex { key: "k".to_string() });
}

#[test]
fn unrestricted_profile_admits_anything() {
    let policy = PolicyBuilder::new().profile(Profile::Unrestricted).build();
    assert!(!policy.is_allowed("device_add"));
    let rule = policy.rule_for("device_add").expect("admitted");
    assert_eq!(rule.mode, CommandMode::Plain);
}

#[test]
fn disabled_enforcement_admits_anything() {
    let policy = PolicyBuilder::new().enforce_allow_list(false).build();
    assert!(policy.rule_for("quit").is_ok());
}

#[test]
fn explicit_allow_and_default_rule() {
    let default = CommandRule {
        mode: CommandMode::Idempotent { key: None, mutex_key: None, ttl: Some(Duration::from_secs(5)) },
        retry: RetryPolicy::conservative(),
        timeout: Some(Duration::from_millis(250)),
    };
    let policy = PolicyBuilder::new()
        .allow("human-monitor-command".to_string())
        .allow("human-monitor-command".to_string())
        .default_rule(default)
        .build();
    assert!(policy.is_allowed("human-monitor-command"));
    let rule = policy.rule_for("human-monitor-command").expect("allowed");
    assert_eq!(
        rule.mode,
        CommandMode::Idempotent { key: None, mutex_key: None, ttl: Some(Duration::from_secs(5)) }
    );
    assert_eq!(rule.timeout, Some(Duration::from_millis(250)));
    assert!(policy.rule_for("quit").is_err());
}
