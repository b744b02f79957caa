//! `qmp` - a client library for the QEMU Machine Protocol (QMP).
//!
//! This crate holds the decisions of a QMP client:
//! - connection settings (endpoints, handshake options, builder)
//! - the wire format of requests and received lines
//! - correlation of requests with responses, and how a call ends
//! - the event stream's items
//! - a "safe ops" layer with allow-lists, idempotency, mutex keys, and
//!   retry/backoff

pub mod client;
pub mod duration;
pub mod error;
pub mod event_stream;
pub mod ops;
pub mod pending;
pub mod types;
pub mod wire;

pub use client::{
    CallOutcome, ClientBuilder, ConnectOptions, Endpoint, check_execute_response, decode_failure,
    effective_timeout, validate_capabilities_response,
};
pub use duration::Duration;
pub use error::{Error, ErrorKind, Result};
pub use event_stream::{Received, clamp_missed, recv_result};
pub use pending::{InboundKind, PendingCalls};
