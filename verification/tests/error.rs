use qmp::duration::Duration;
use qmp::error::{Error, ErrorKind, JsonError, JsonErrorCategory};

fn json_error() -> Error {
    Error::from(JsonError {
        message: "expected value at line 1 column 1".to_string(),
        line: 1,
        column: 1,
        category: JsonErrorCategory::Syntax,
    })
}

#[test]
fn kinds_and_retryability() {
    let cases: Vec<(Error, ErrorKind, bool)> = vec![
        (Error::from(std::io::Error::other("eof")), ErrorKind::Io, true),
        (json_error(), ErrorKind::Json, false),
        (Error::protocol("bad".to_string()), ErrorKind::Protocol, false),
        (
            Error::qmp("stop".to_string(), "GenericError".to_string(), "nope".to_string()),
            ErrorKind::Qmp,
            false,
        ),
        (Error::Disconnected, ErrorKind::Disconnected, true),
        (Error::Timeout { timeout: Duration::from_secs(1) }, ErrorKind::Timeout, true),
        (Error::Cancelled, ErrorKind::Cancelled, false),
        (Error::policy("stop".to_string(), "r".to_string()), ErrorKind::Policy, false),
        (Error::EventLagged { missed: 3 }, ErrorKind::EventLagged, false),
    ];
    for (err, kind, retryable) in cases {
        assert_eq!(err.kind(), kind);
        assert_eq!(err.is_retryable(), retryable, "{kind:?}");
    }
}

#[test]
fn task_copy_turns_sources_into_disconnected() {
    let io = Error::Io { source: std::io::Error::other("broken pipe") };
    assert!(matches!(io.clone_for_task(), Error::Disconnected));
    assert!(matches!(json_error().clone_for_task(), Error::Disconnected));
}

#[test]
fn task_copy_keeps_other_errors() {
    match Error::qmp("cont".to_string(), "C".to_string(), "D".to_string()).clone_for_task() {
        Error::Qmp { command, class, desc } => {
            assert_eq!((command.as_str(), class.as_str(), desc.as_str()), ("cont", "C", "D"));
        }
        other => panic!("{other:?}"),
    }
    match (Error::Timeout { timeout: Duration::from_millis(7) }).clone_for_task() {
        Error::Timeout { timeout } => assert_eq!(timeout, Duration::from_millis(7)),
        other => panic!("{other:?}"),
    }
    match (Error::EventLagged { missed: 9 }).clone_for_task() {
        Error::EventLagged { missed } => assert_eq!(missed, 9),
        other => panic!("{other:?}"),
    }
    match Error::policy("a".to_string(), "b".to_string()).clone_for_task() {
        Error::PolicyViolation { command, reason } => {
            assert_eq!((command.as_str(), reason.as_str()), ("a", "b"));
        }
        other => panic!("{other:?}"),
    }
    match Error::protocol("m".to_string()).clone_for_task() {
        Error::Protocol { message } => assert_eq!(message, "m"),
        other => panic!("{other:?}"),
    }
    assert!(matches!(Error::Cancelled.clone_for_task(), Error::Cancelled));
    assert!(matches!(Error::Disconnected.clone_for_task(), Error::Disconnected));
}
