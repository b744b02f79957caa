use vstd::prelude::*;

use serde_json::Value;

verus! {

/// QMP timestamp, typically included in event messages.
#[derive(Debug, Clone, Copy, PartialEq, Eq, Structural)]
pub struct Timestamp {
    /// Seconds since epoch.
    pub seconds: i64,
    /// Microseconds within the second.
    pub microseconds: i64,
}

/// A decoded event.
///
/// This type is intentionally _lossless_:
/// - `name` keeps the original event name.
/// - `data` keeps an arbitrary JSON payload.
///
/// You can deserialize `data` into your own strongly typed struct when needed.
#[derive(Debug, Clone, PartialEq)]
pub struct Event {
    /// Event name.
    pub name: String,
    /// Event data payload.
    pub data: Value,
    /// Optional timestamp.
    pub timestamp: Option<Timestamp>,
}

/// Raw event message as it appears on the wire.
#[derive(Debug, Clone, PartialEq)]
pub struct EventMessage {
    /// Event name (the wire field `event`).
    pub name: String,
    /// Event data payload.
    pub data: Value,
    /// Timestamp.
    pub timestamp: Option<Timestamp>,
}

impl From<EventMessage> for Event {
    fn from(msg: EventMessage) -> (ev: Self) {
        Event { name: msg.name, data: msg.data, timestamp: msg.timestamp }
    }
}

impl vstd::std_specs::convert::FromSpecImpl<EventMessage> for Event {
    open spec fn obeys_from_spec() -> bool {
        true
    }

    open spec fn from_spec(msg: EventMessage) -> Event {
        Event { name: msg.name, data: msg.data, timestamp: msg.timestamp }
    }
}

} // verus!
