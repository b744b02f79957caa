//! Error model for the `qmp` crate.

use vstd::prelude::*;

use crate::duration::Duration;

verus! {

/// `std::io::Error`, carried as an opaque value.
#[verifier::external_type_specification]
#[verifier::external_body]
pub struct ExIoError(std::io::Error);

/// What is known of a JSON encoding or decoding failure.
#[derive(Debug, Clone, PartialEq, Eq)]
pub struct JsonError {
    /// Human readable description, as the JSON library renders it.
    pub message: String,
    /// One-based line of the input where the failure was detected (0 when unknown).
    pub line: usize,
    /// One-based column of the input where the failure was detected (0 when unknown).
    pub column: usize,
    /// Broad category of the failure.
    pub category: JsonErrorCategory,
}

/// Broad category of a JSON failure.
#[derive(Debug, Clone, Copy, PartialEq, Eq, Hash, Structural)]
pub enum JsonErrorCategory {
    /// The underlying reader or writer failed.
    Io,
    /// The input was not syntactically valid JSON.
    Syntax,
    /// The input was valid JSON but did not match the expected shape.
    Data,
    /// The input ended in the middle of a value.
    Eof,
}

/// Convenience result type.
pub type Result<T> = core::result::Result<T, Error>;

/// High-level error classification.
#[derive(Debug, Clone, Copy, PartialEq, Eq, Hash, Structural)]
#[non_exhaustive]
pub enum ErrorKind {
    /// An I/O level failure (socket, EOF, etc.).
    Io,
    /// JSON encoding/decoding failure.
    Json,
    /// QMP protocol violation or unexpected message.
    Protocol,
    /// QMP returned an error object.
    Qmp,
    /// The connection was closed.
    Disconnected,
    /// The call timed out.
    Timeout,
    /// The call was cancelled.
    Cancelled,
    /// A safety policy rejected an operation.
    Policy,
    /// The event stream receiver fell behind and dropped messages.
    EventLagged,
}

/// Structured error type.
///
/// This type is designed to be:
/// - **diagnosable** (keeps context when available)
/// - **safe by default** (no sensitive data in its message)
/// - **extensible** (`#[non_exhaustive]`)
#[derive(Debug)]
#[non_exhaustive]
pub enum Error {
    /// Socket / file I/O error.
    Io {
        /// Lower-level error.
        source: std::io::Error,
    },
    /// JSON serialization/deserialization error.
    Json {
        /// Lower-level error.
        source: JsonError,
    },
    /// The QMP peer sent an unexpected or invalid message.
    Protocol {
        /// Human readable message.
        message: String,
    },
    /// QMP returned an error for an `execute` request.
    Qmp {
        /// Command name.
        command: String,
        /// QMP error class.
        class: String,
        /// QMP error description.
        desc: String,
    },
    /// The connection closed while a request was in-flight.
    Disconnected,
    /// A command call exceeded the configured timeout.
    Timeout {
        /// Timeout value.
        timeout: Duration,
    },
    /// A command call was cancelled.
    Cancelled,
    /// A safety policy rejected an operation.
    PolicyViolation {
        /// Command name.
        command: String,
        /// Reason.
        reason: String,
    },
    /// The event receiver lagged behind and dropped events.
    EventLagged {
        /// How many events were dropped.
        missed: usize,
    },
}

/// The classification of an error value.
pub open spec fn kind_of(e: &Error) -> ErrorKind {
    match e {
        Error::Io { .. } => ErrorKind::Io,
        Error::Json { .. } => ErrorKind::Json,
        Error::Protocol { .. } => ErrorKind::Protocol,
        Error::Qmp { .. } => ErrorKind::Qmp,
        Error::Disconnected => ErrorKind::Disconnected,
        Error::Timeout { .. } => ErrorKind::Timeout,
        Error::Cancelled => ErrorKind::Cancelled,
        Error::PolicyViolation { .. } => ErrorKind::Policy,
        Error::EventLagged { .. } => ErrorKind::EventLagged,
    }
}

/// The kinds of failure that are worth retrying at the transport layer.
pub open spec fn kind_is_retryable(k: ErrorKind) -> bool {
    k == ErrorKind::Io || k == ErrorKind::Disconnected || k == ErrorKind::Timeout
}

/// The owned copy of an error that can be handed to another task: errors
/// that wrap a lower-level source become `Disconnected`, all others keep
/// their variant and fields.
pub open spec fn task_copy(e: &Error) -> Error {
    match e {
        Error::Io { .. } => Error::Disconnected,
        Error::Json { .. } => Error::Disconnected,
        Error::Protocol { message } => Error::Protocol { message: *message },
        Error::Qmp { command, class, desc } => Error::Qmp {
            command: *command,
            class: *class,
            desc: *desc,
        },
        Error::Disconnected => Error::Disconnected,
        Error::Timeout { timeout } => Error::Timeout { timeout: *timeout },
        Error::Cancelled => Error::Cancelled,
        Error::PolicyViolation { command, reason } => Error::PolicyViolation {
            command: *command,
            reason: *reason,
        },
        Error::EventLagged { missed } => Error::EventLagged { missed: *missed },
    }
}

impl Error {
    /// Returns a coarse error classification.
    #[must_use]
    pub fn kind(&self) -> (k: ErrorKind)
        ensures
            k == kind_of(self),
    {
        match self {
            Error::Io { .. } => ErrorKind::Io,
            Error::Json { .. } => ErrorKind::Json,
            Error::Protocol { .. } => ErrorKind::Protocol,
            Error::Qmp { .. } => ErrorKind::Qmp,
            Error::Disconnected => ErrorKind::Disconnected,
            Error::Timeout { .. } => ErrorKind::Timeout,
            Error::Cancelled => ErrorKind::Cancelled,
            Error::PolicyViolation { .. } => ErrorKind::Policy,
            Error::EventLagged { .. } => ErrorKind::EventLagged,
        }
    }

    /// Whether this error is likely retryable at the transport/operation layer.
    ///
    /// Note: QMP command errors are typically **not** retryable, unless you
    /// implement a higher-level policy that treats certain classes as retryable.
    #[must_use]
    pub fn is_retryable(&self) -> (b: bool)
        ensures
            b == kind_is_retryable(kind_of(self)),
    {
        match self.kind() {
            ErrorKind::Io | ErrorKind::Disconnected | ErrorKind::Timeout => true,
            _ => false,
        }
    }

    /// A protocol error with the given message.
    pub fn protocol(message: String) -> (e: Error)
        ensures
            e == (Error::Protocol { message }),
    {
        Error::Protocol { message }
    }

    /// A QMP command failure reported by the peer.
    pub fn qmp(command: String, class: String, desc: String) -> (e: Error)
        ensures
            e == (Error::Qmp { command, class, desc }),
    {
        Error::Qmp { command, class, desc }
    }

    /// A rejection by a safety policy.
    pub fn policy(command: String, reason: String) -> (e: Error)
        ensures
            e == (Error::PolicyViolation { command, reason }),
    {
        Error::PolicyViolation { command, reason }
    }

    /// Create a safe, owned copy of this error suitable for broadcasting across tasks.
    ///
    /// `Error` is intentionally not `Clone`. Some components (such as the
    /// reader loop) need to notify multiple waiters; this helper provides a
    /// best-effort owned copy while keeping the error structure.
    pub fn clone_for_task(&self) -> (e: Error)
        ensures
            e == task_copy(self),
    {
        match self {
            Error::Io { .. } => Error::Disconnected,
            Error::Json { .. } => Error::Disconnected,
            Error::Protocol { message } => Error::Protocol { message: message.clone() },
            Error::Qmp { command, class, desc } => Error::Qmp {
                command: command.clone(),
                class: class.clone(),
                desc: desc.clone(),
            },
            Error::Disconnected => Error::Disconnected,
            Error::Timeout { timeout } => Error::Timeout { timeout: *timeout },
            Error::Cancelled => Error::Cancelled,
            Error::PolicyViolation { command, reason } => Error::PolicyViolation {
                command: command.clone(),
                reason: reason.clone(),
            },
            Error::EventLagged { missed } => Error::EventLagged { missed: *missed },
        }
    }
}

impl From<std::io::Error> for Error {
    fn from(source: std::io::Error) -> (e: Error) {
        Error::Io { source }
    }
}

impl vstd::std_specs::convert::FromSpecImpl<std::io::Error> for Error {
    open spec fn obeys_from_spec() -> bool {
        true
    }

    open spec fn from_spec(source: std::io::Error) -> Error {
        Error::Io { source }
    }
}

impl From<JsonError> for Error {
    fn from(source: JsonError) -> (e: Error) {
        Error::Json { source }
    }
}

impl vstd::std_specs::convert::FromSpecImpl<JsonError> for Error {
    open spec fn obeys_from_spec() -> bool {
        true
    }

    open spec fn from_spec(source: JsonError) -> Error {
        Error::Json { source }
    }
}

/// Handing an error to another task keeps its classification, except that
/// an error wrapping a lower-level source is reported as a lost connection.
pub proof fn law_task_copy_kind(e: Error)
    ensures
        kind_of(&e) == ErrorKind::Io || kind_of(&e) == ErrorKind::Json ==> kind_of(&task_copy(&e))
            == ErrorKind::Disconnected,
        kind_of(&e) != ErrorKind::Io && kind_of(&e) != ErrorKind::Json ==> kind_of(&task_copy(&e))
            == kind_of(&e),
        kind_of(&e) != ErrorKind::Io && kind_of(&e) != ErrorKind::Json ==> task_copy(&e) == e,
{
}

/// A copy handed to another task is retryable whenever the original is.
pub proof fn law_task_copy_keeps_retryable(e: Error)
    ensures
        kind_is_retryable(kind_of(&e)) ==> kind_is_retryable(kind_of(&task_copy(&e))),
{
}

} // verus!
