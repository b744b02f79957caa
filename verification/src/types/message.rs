use vstd::prelude::*;

use serde_json::Value;

verus! {

/// The `error` object returned by QMP.
#[derive(Debug, Clone, PartialEq, Eq)]
pub struct QmpError {
    /// Error class.
    pub class: String,
    /// Error description.
    pub desc: String,
}

/// QMP command response.
///
/// QMP response objects may contain either `return` or `error`.
#[derive(Debug, Clone, PartialEq)]
pub struct QmpResponse {
    /// Request id, echoed by the server.
    pub id: Value,
    /// Success payload (the wire field `return`).
    pub result: Option<Value>,
    /// Error payload.
    pub error: Option<QmpError>,
}

} // verus!
