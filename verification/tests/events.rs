use qmp::types::{Event, EventMessage, Timestamp};
use qmp::{Error, InboundKind, Received, clamp_missed, recv_result};
use serde_json::Value;

fn event() -> Event {
    Event::from(EventMessage {
        name: "STOP".to_string(),
        data: Value::from("pause"),
        timestamp: Some(Timestamp { seconds: 1, microseconds: 2 }),
    })
}

#[test]
fn event_from_message_keeps_fields() {
    let ev = event();
    assert_eq!(ev.name, "STOP");
    assert_eq!(ev.data, Value::from("pause"));
    assert_eq!(ev.timestamp, Some(Timestamp { seconds: 1, microseconds: 2 }));
}

#[test]
fn missed_counts_saturate() {
    assert_eq!(clamp_missed(0), 0);
    assert_eq!(clamp_missed(17), 17);
    assert_eq!(clamp_missed(u64::MAX), usize::try_from(u64::MAX).unwrap_or(usize::MAX));
}

#[test]
fn received_items() {
    assert_eq!(recv_result(Some(Received::Event(event()))).unwrap(), event());
    match recv_result(Some(Received::Lagged(5))) {
        Err(Error::EventLagged { missed }) => assert_eq!(missed, 5),
        other => panic!("{other:?}"),
    }
    assert!(matches!(recv_result(None), Err(Error::Disconnected)));
    assert!(matches!(Received::Lagged(1).into_item(), Err(Error::EventLagged { missed: 1 })));
}

#[test]
fn inbound_classification() {
    assert_eq!(InboundKind::classify(true, true), InboundKind::Event);
    assert_eq!(InboundKind::classify(false, true), InboundKind::Response);
    assert_eq!(InboundKind::classify(false, false), InboundKind::Other);
    let ev: Value = serde_json::from_str(r#"{"event":"STOP","id":3}"#).unwrap();
    assert_eq!(InboundKind::of(&ev), InboundKind::Event);
    let resp: Value = serde_json::from_str(r#"{"return":{},"id":3}"#).unwrap();
    assert_eq!(InboundKind::of(&resp), InboundKind::Response);
    let other: Value = serde_json::from_str(r#"{"QMP":{}}"#).unwrap();
    assert_eq!(InboundKind::of(&other), InboundKind::Other);
    assert_eq!(InboundKind::of(&Value::from(1u64)), InboundKind::Other);
}
