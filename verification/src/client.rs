//! Connection settings and the decisions of a QMP client: how calls are
//! correlated with responses, how a wait for a response ends, and how a
//! response becomes a result.

use vstd::prelude::*;

use std::path::PathBuf;

use serde_json::Value;

use crate::duration::{Duration, secs_to_nanos};
use crate::error::Error;
use crate::types::QmpResponse;

verus! {

/// `std::path::PathBuf`, carried as an opaque value.
#[verifier::external_type_specification]
#[verifier::external_body]
pub struct ExPathBuf(std::path::PathBuf);

/// `Clone` of `std::path::PathBuf`: a copy of the same path.
pub assume_specification[ <std::path::PathBuf as Clone>::clone ](p: &std::path::PathBuf) -> (r: std::path::PathBuf)
    ensures
        r == *p,
;

/// QMP endpoint.
#[derive(Debug, Clone, PartialEq, Eq, Hash)]
pub enum Endpoint {
    /// Connect via a Unix domain socket.
    Unix {
        /// Socket path.
        path: PathBuf,
    },
    /// Connect via a TCP socket.
    Tcp {
        /// Hostname or IP.
        host: String,
        /// Port.
        port: u16,
    },
}

impl Endpoint {
    /// Create a Unix socket endpoint.
    #[must_use]
    pub fn unix(path: PathBuf) -> (e: Self)
        ensures
            e == (Endpoint::Unix { path }),
    {
        Endpoint::Unix { path }
    }

    /// Create a TCP endpoint.
    #[must_use]
    pub fn tcp(host: String, port: u16) -> (e: Self)
        ensures
            e == (Endpoint::Tcp { host, port }),
    {
        Endpoint::Tcp { host, port }
    }
}

/// Options controlling how the QMP connection is established.
#[derive(Debug, Clone)]
pub struct ConnectOptions {
    /// Capabilities to enable during the `qmp_capabilities` negotiation.
    ///
    /// Leaving this empty performs a plain `qmp_capabilities` without arguments.
    pub enable_capabilities: Vec<String>,
    /// Size of the internal event broadcast buffer.
    ///
    /// If consumers lag behind, events will be dropped and surfaced as
    /// [`Error::EventLagged`].
    pub event_buffer: usize,
    /// Default timeout for command calls.
    ///
    /// Individual calls can override this.
    pub default_timeout: Option<Duration>,
}

/// The options used when none are given: no extra capabilities, room for
/// 1024 buffered events, and a 30 second timeout.
pub open spec fn is_default_connect_options(o: ConnectOptions) -> bool {
    &&& o.enable_capabilities@.len() == 0
    &&& o.event_buffer == 1024
    &&& o.default_timeout matches Some(t) && t@ == secs_to_nanos(30)
}

impl Default for ConnectOptions {
    fn default() -> (o: Self)
        ensures
            is_default_connect_options(o),
    {
        ConnectOptions {
            enable_capabilities: Vec::new(),
            event_buffer: 1024,
            default_timeout: Some(Duration::from_secs(30)),
        }
    }
}

impl ConnectOptions {
    /// The capacity of the event broadcast channel: the configured buffer,
    /// but never less than one.
    pub fn event_capacity(&self) -> (n: usize)
        ensures
            n == (if self.event_buffer >= 1 {
                self.event_buffer
            } else {
                1
            }),
    {
        if self.event_buffer >= 1 {
            self.event_buffer
        } else {
            1
        }
    }
}

/// QMP client builder.
#[derive(Debug, Clone)]
pub struct ClientBuilder {
    endpoint: Endpoint,
    options: ConnectOptions,
}

impl ClientBuilder {
    /// A builder for the given endpoint with the default options.
    #[must_use]
    pub fn new(endpoint: Endpoint) -> (b: Self)
        ensures
            b.endpoint_spec() == endpoint,
            is_default_connect_options(b.options_spec()),
    {
        ClientBuilder { endpoint, options: ConnectOptions::default() }
    }

    /// The endpoint the builder connects to.
    pub closed spec fn endpoint_spec(&self) -> Endpoint {
        self.endpoint
    }

    /// The options the builder connects with.
    pub closed spec fn options_spec(&self) -> ConnectOptions {
        self.options
    }

    /// Set capabilities to enable during handshake.
    #[must_use]
    pub fn enable_capabilities(self, caps: Vec<String>) -> (b: Self)
        ensures
            b.endpoint_spec() == self.endpoint_spec(),
            b.options_spec() == (ConnectOptions {
                enable_capabilities: caps,
                ..self.options_spec()
            }),
    {
        let mut b = self;
        b.options.enable_capabilities = caps;
        b
    }

    /// Set internal event buffer size.
    #[must_use]
    pub fn event_buffer(self, size: usize) -> (b: Self)
        ensures
            b.endpoint_spec() == self.endpoint_spec(),
            b.options_spec() == (ConnectOptions { event_buffer: size, ..self.options_spec() }),
    {
        let mut b = self;
        b.options.event_buffer = size;
        b
    }

    /// Set default command timeout.
    #[must_use]
    pub fn default_timeout(self, timeout: Option<Duration>) -> (b: Self)
        ensures
            b.endpoint_spec() == self.endpoint_spec(),
            b.options_spec() == (ConnectOptions {
                default_timeout: timeout,
                ..self.options_spec()
            }),
    {
        let mut b = self;
        b.options.default_timeout = timeout;
        b
    }

    /// The endpoint and options, for connecting.
    pub fn into_parts(self) -> (r: (Endpoint, ConnectOptions))
        ensures
            r.0 == self.endpoint_spec(),
            r.1 == self.options_spec(),
    {
        (self.endpoint, self.options)
    }
}

/// The timeout of a call: the call's own, else the default one.
pub open spec fn chosen_timeout(call: Option<Duration>, default: Option<Duration>) -> Option<
    Duration,
> {
    match call {
        Some(t) => Some(t),
        None => default,
    }
}

/// The timeout of a call: the call's own, else the default one.
pub fn effective_timeout(call: Option<Duration>, default: Option<Duration>) -> (t: Option<Duration>)
    ensures
        t == chosen_timeout(call, default),
{
    match call {
        Some(t) => Some(t),
        None => default,
    }
}

/// How the wait for a response ended.
pub enum CallOutcome {
    /// The reader delivered a response, or the error that ended the connection.
    Replied(Result<QmpResponse, Error>),
    /// The reader stopped without delivering anything.
    Closed,
    /// The timeout elapsed first.
    TimedOut(Duration),
    /// The call was cancelled first.
    Cancelled,
}

/// The result that an ended wait gives the caller.
pub open spec fn outcome_result(o: CallOutcome) -> Result<QmpResponse, Error> {
    match o {
        CallOutcome::Replied(r) => r,
        CallOutcome::Closed => Err(Error::Disconnected),
        CallOutcome::TimedOut(t) => Err(Error::Timeout { timeout: t }),
        CallOutcome::Cancelled => Err(Error::Cancelled),
    }
}

impl CallOutcome {
    /// Whether the call's entry must still be removed from the pending table:
    /// the reader removes the entry when it delivers, so only a wait that
    /// ended by timeout or cancellation leaves one behind.
    pub fn leaves_pending_entry(&self) -> (b: bool)
        ensures
            b == (self is TimedOut || self is Cancelled),
    {
        match self {
            CallOutcome::TimedOut(_) | CallOutcome::Cancelled => true,
            _ => false,
        }
    }

    /// The result that the ended wait gives the caller.
    pub fn settle(self) -> (r: Result<QmpResponse, Error>)
        ensures
            r == outcome_result(self),
    {
        match self {
            CallOutcome::Replied(r) => r,
            CallOutcome::Closed => Err(Error::Disconnected),
            CallOutcome::TimedOut(t) => Err(Error::Timeout { timeout: t }),
            CallOutcome::Cancelled => Err(Error::Cancelled),
        }
    }
}

/// Check the response to `qmp_capabilities`: an error object fails the
/// handshake.
pub fn validate_capabilities_response(resp: &QmpResponse) -> (r: Result<(), Error>)
    ensures
        r is Ok <==> resp.error is None,
        r matches Err(e) ==> e matches Error::Protocol { message } && message@
            == "qmp_capabilities returned an error"@,
{
    if resp.error.is_some() {
        return Err(Error::protocol("qmp_capabilities returned an error".to_owned()));
    }
    Ok(())
}

/// The payload of a response to `command`: an error object becomes a QMP
/// error naming the command, a missing `return` is a protocol error.
pub fn check_execute_response(command: &str, resp: QmpResponse) -> (r: Result<Value, Error>)
    ensures
        match resp.error {
            Some(err) => r matches Err(e) && e matches Error::Qmp { command: c, class, desc } && c@
                == command@ && class == err.class && desc == err.desc,
            None => match resp.result {
                Some(v) => r == Ok::<Value, Error>(v),
                None => r matches Err(e) && e matches Error::Protocol { message } && message@
                    == "missing 'return' field in response"@,
            },
        },
{
    match resp.error {
        Some(err) => Err(Error::qmp(command.to_owned(), err.class, err.desc)),
        None => match resp.result {
            Some(v) => Ok(v),
            None => Err(Error::protocol("missing 'return' field in response".to_owned())),
        },
    }
}

/// The error for a `return` payload that does not decode into the type the
/// caller asked for; `detail` is the decoder's account of the failure.
pub fn decode_failure(command: &str, detail: &str) -> (e: Error)
    ensures
        e matches Error::Protocol { message } && message@ == "failed to decode response for '"@
            + command@ + "': "@ + detail@,
{
    let mut message = String::from_str("failed to decode response for '");
    message.append(command);
    message.append("': ");
    message.append(detail);
    Error::protocol(message)
}

/// A call's own timeout always wins over the default, even when there is no
/// default; without one of its own, the call waits as long as the default
/// says (forever when there is none).
pub proof fn law_call_timeout_wins(t: Duration, default: Option<Duration>)
    ensures
        chosen_timeout(Some(t), default) == Some(t),
        chosen_timeout(None, default) == default,
{
}

} // verus!
