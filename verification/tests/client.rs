use std::path::PathBuf;

use qmp::duration::Duration;
use qmp::types::{QmpError, QmpResponse};
use qmp::{
    CallOutcome, ClientBuilder, ConnectOptions, Endpoint, Error, check_execute_response,
    decode_failure, effective_timeout, validate_capabilities_response,
};
use serde_json::Value;

#[test]
fn endpoints() {
    let e = Endpoint::unix(PathBuf::from("/var/run/qemu-server/100.qmp"));
    assert_eq!(e, Endpoint::Unix { path: PathBuf::from("/var/run/qemu-server/100.qmp") });
    let t = Endpoint::tcp("127.0.0.1".to_string(), 4444);
    assert_eq!(t, Endpoint::Tcp { host: "127.0.0.1".to_string(), port: 4444 });
}

#[test]
fn default_connect_options() {
    let o = ConnectOptions::default();
    assert!(o.enable_capabilities.is_empty());
    assert_eq!(o.event_buffer, 1024);
    assert_eq!(o.default_timeout, Some(Duration::from_secs(30)));
    assert_eq!(o.event_capacity(), 1024);
    let zero = ConnectOptions { event_buffer: 0, ..ConnectOptions::default() };
    assert_eq!(zero.event_capacity(), 1);
}

#[test]
fn builder_setters() {
    let b = ClientBuilder::new(Endpoint::tcp("h".to_string(), 1))
        .enable_capabilities(vec!["oob".to_string()])
        .event_buffer(8)
        .default_timeout(None);
    let (endpoint, options) = b.into_parts();
    assert_eq!(endpoint, Endpoint::tcp("h".to_string(), 1));
    assert_eq!(options.enable_capabilities, vec!["oob".to_string()]);
    assert_eq!(options.event_buffer, 8);
    assert_eq!(options.default_timeout, None);
}

#[test]
fn timeouts() {
    let a = Some(Duration::from_secs(1));
    let b = Some(Duration::from_secs(2));
    assert_eq!(effective_timeout(a, b), a);
    assert_eq!(effective_timeout(None, b), b);
    assert_eq!(effective_timeout(None, None), None);
}

fn ok_response() -> QmpResponse {
    QmpResponse { id: Value::from(1u64), result: Some(Value::from(3u64)), error: None }
}

#[test]
fn call_outcomes() {
    assert_eq!(CallOutcome::Replied(Ok(ok_response())).settle().unwrap(), ok_response());
    assert!(matches!(CallOutcome::Replied(Err(Error::Cancelled)).settle(), Err(Error::Cancelled)));
    assert!(matches!(CallOutcome::Closed.settle(), Err(Error::Disconnected)));
    match CallOutcome::TimedOut(Duration::from_millis(5)).settle() {
        Err(Error::Timeout { timeout }) => assert_eq!(timeout, Duration::from_millis(5)),
        other => panic!("{other:?}"),
    }
    assert!(matches!(CallOutcome::Cancelled.settle(), Err(Error::Cancelled)));
    assert!(CallOutcome::Cancelled.leaves_pending_entry());
    assert!(CallOutcome::TimedOut(Duration::zero()).leaves_pending_entry());
    assert!(!CallOutcome::Closed.leaves_pending_entry());
    assert!(!CallOutcome::Replied(Err(Error::Disconnected)).leaves_pending_entry());
}

#[test]
fn response_checks() {
    assert_eq!(check_execute_response("x", ok_response()).unwrap(), Value::from(3u64));
    let failed = QmpResponse {
        id: Value::from(1u64),
        result: Some(Value::Null),
        error: Some(QmpError { class: "GenericError".to_string(), desc: "no".to_string() }),
    };
    match check_execute_response("stop", failed.clone()) {
        Err(Error::Qmp { command, class, desc }) => {
            assert_eq!((command.as_str(), class.as_str(), desc.as_str()), ("stop", "GenericError", "no"));
        }
        other => panic!("{other:?}"),
    }
    let missing = QmpResponse { id: Value::from(1u64), result: None, error: None };
    match check_execute_response("x", missing.clone()) {
        Err(Error::Protocol { message }) => assert_eq!(message, "missing 'return' field in response"),
        other => panic!("{other:?}"),
    }
    assert!(validate_capabilities_response(&missing).is_ok());
    match validate_capabilities_response(&failed) {
        Err(Error::Protocol { message }) => assert_eq!(message, "qmp_capabilities returned an error"),
        other => panic!("{other:?}"),
    }
    match decode_failure("query-status", "missing field `status`") {
        Error::Protocol { message } => assert_eq!(
            message,
            "failed to decode response for 'query-status': missing field `status`"
        ),
        other => panic!("{other:?}"),
    }
}
