//! The error taxonomy: REST call errors, gateway connection errors, and
//! configuration errors. Transport details from the surrounding runtime are
//! carried as plain description strings.

use vstd::prelude::*;

verus! {

/// What a REST request can fail with.
#[derive(Clone, Debug, PartialEq, Eq)]
pub enum ClientError {
    /// A transport-level failure (connection, DNS, timeout) on the last attempt.
    Network(String),
    /// HTTP 401: the token was rejected.
    Unauthorized,
    /// HTTP 403: missing permissions for the resource.
    Forbidden,
    /// HTTP 404: the named resource does not exist.
    NotFound { resource_type: String, resource_id: String },
    /// HTTP 429: rate limited; `retry_after` is the server's wait hint in seconds.
    RateLimited { retry_after: u64 },
    /// Any other non-success status, with the response body as the message.
    ApiError { status: u16, message: String },
    /// The response arrived but its body did not decode as the expected shape.
    ParseError(String),
    /// The outgoing message content exceeds the server's length ceiling;
    /// rejected before any network activity.
    MessageTooLong,
}

/// What the gateway connection can fail with.
#[derive(Clone, Debug, PartialEq, Eq)]
pub enum GatewayError {
    /// A socket-level failure, described by the transport.
    WebSocket(String),
    /// A frame was not valid JSON or a payload did not decode.
    Json(String),
    /// The invalid-session signal (opcode 9): the token or session was rejected.
    AuthenticationFailed,
    /// The socket ended while a frame was still expected.
    UnexpectedClose,
    /// A malformed or out-of-sequence frame, such as a first frame that is
    /// not Hello.
    ProtocolError(String),
    /// The reconnect-required signal (opcode 7): this connection must be
    /// discarded and a new one established.
    ReconnectRequired,
}

/// What configuration loading can fail with.
#[derive(Clone, Debug, PartialEq, Eq)]
pub enum ConfigError {
    /// The configuration file could not be read.
    Io(String),
    /// The configuration file could not be parsed.
    Parse(String),
    /// No token was found in the configuration file or the environment.
    MissingToken,
    /// The platform offers no configuration directory.
    NoConfigDir,
}

} // verus!
