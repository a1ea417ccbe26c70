//! The closed error taxonomy of the dispatch core.
use vstd::prelude::*;
use crate::utils::{decimal, decimal_string, signed_decimal, signed_decimal_string};

verus! {

/// What a single transport attempt can fail with.
#[derive(Debug, Clone)]
pub enum TransportError {
    /// The per-attempt wall-clock bound was exceeded.
    Timeout,
    /// A transport-level failure (DNS, TCP, TLS).
    Connection(String),
    /// A non-2xx response: status code and the start of the body.
    HttpStatus(u16, String),
    /// The JSON-RPC envelope was malformed.
    Decode(String),
    /// The envelope carried a well-formed remote error.
    Rpc { code: i64, message: String },
}

/// HTTP 429, the status with which an endpoint rejects a request for its rate.
pub const TOO_MANY_REQUESTS: u16 = 429;

impl TransportError {
    /// Whether the dispatch loop may try this outcome again.
    pub open spec fn retryable(&self) -> bool {
        match self {
            TransportError::Timeout => true,
            TransportError::Connection(_) => true,
            TransportError::HttpStatus(code, _) => 500 <= *code <= 599 || *code == TOO_MANY_REQUESTS,
            TransportError::Decode(_) => false,
            TransportError::Rpc { .. } => false,
        }
    }

    pub open spec fn rate_limited(&self) -> bool {
        match self {
            TransportError::HttpStatus(code, _) => *code == TOO_MANY_REQUESTS,
            _ => false,
        }
    }

    /// The text kept as an endpoint's last error.
    pub open spec fn detail(&self) -> Seq<char> {
        match self {
            TransportError::Timeout => seq!['t', 'i', 'm', 'e', 'o', 'u', 't'],
            TransportError::Connection(d) => d@,
            TransportError::HttpStatus(_, body) => body@,
            TransportError::Decode(d) => d@,
            TransportError::Rpc { message, .. } => message@,
        }
    }

    pub fn message(&self) -> (r: String)
        ensures
            r@ == self.detail(),
    {
        match self {
            TransportError::Timeout => {
                let m = String::from_str("timeout");
                proof {
                    reveal_strlit("timeout");
                    assert(m@ =~= self.detail());
                }
                m
            },
            TransportError::Connection(d) => d.clone(),
            TransportError::HttpStatus(_, body) => body.clone(),
            TransportError::Decode(d) => d.clone(),
            TransportError::Rpc { message, .. } => message.clone(),
        }
    }

    pub fn is_retryable(&self) -> (r: bool)
        ensures
            r == self.retryable(),
    {
        match self {
            TransportError::Timeout => true,
            TransportError::Connection(_) => true,
            TransportError::HttpStatus(code, _) => (500 <= *code && *code <= 599) || *code
                == TOO_MANY_REQUESTS,
            TransportError::Decode(_) => false,
            TransportError::Rpc { .. } => false,
        }
    }

    pub fn is_rate_limit(&self) -> (r: bool)
        ensures
            r == self.rate_limited(),
    {
        match self {
            TransportError::HttpStatus(code, _) => *code == TOO_MANY_REQUESTS,
            _ => false,
        }
    }
}

/// One failed attempt of a call: the endpoint tried and what it failed with.
#[derive(Debug, Clone)]
pub struct EndpointFailure {
    pub endpoint: usize,
    pub error: TransportError,
}

/// Errors reported to callers of the dispatch core.
#[derive(Debug, Clone)]
pub enum RpcError {
    /// The configuration cannot be used: zero rate, empty endpoint list, bad URL scheme.
    InvalidConfig(String),
    /// No endpoint is enabled.
    NoEnabledEndpoints,
    /// An endpoint index outside the configured list.
    InvalidEndpoint(usize),
    /// The upstream rejected with 429 and the retry budget was exhausted.
    RateLimitExceeded,
    /// A per-attempt timeout.
    Timeout,
    /// A transport-level failure.
    ConnectionError(String),
    /// A non-2xx remote response.
    HttpStatus(u16, String),
    /// A malformed envelope.
    Decode(String),
    /// A well-formed remote error.
    Rpc { code: i64, message: String },
    /// No endpoint remained eligible; one entry per failed attempt of the call.
    AllEndpointsFailed(Vec<EndpointFailure>),
    /// The retry budget was consumed; the last transport error is attached.
    RetryExhausted(TransportError),
}

impl RpcError {
    /// The error a caller sees for a transport error returned on its first occurrence.
    pub open spec fn from_transport_spec(e: TransportError) -> RpcError {
        match e {
            TransportError::Timeout => RpcError::Timeout,
            TransportError::Connection(d) => RpcError::ConnectionError(d),
            TransportError::HttpStatus(c, b) => RpcError::HttpStatus(c, b),
            TransportError::Decode(d) => RpcError::Decode(d),
            TransportError::Rpc { code, message } => RpcError::Rpc { code, message },
        }
    }

    pub fn from_transport(e: TransportError) -> (r: RpcError)
        ensures
            r == Self::from_transport_spec(e),
    {
        match e {
            TransportError::Timeout => RpcError::Timeout,
            TransportError::Connection(d) => RpcError::ConnectionError(d),
            TransportError::HttpStatus(c, b) => RpcError::HttpStatus(c, b),
            TransportError::Decode(d) => RpcError::Decode(d),
            TransportError::Rpc { code, message } => RpcError::Rpc { code, message },
        }
    }

    pub open spec fn retryable(&self) -> bool {
        match self {
            RpcError::RateLimitExceeded => true,
            RpcError::Timeout => true,
            RpcError::ConnectionError(_) => true,
            RpcError::HttpStatus(code, _) => 500 <= *code <= 599 || *code == TOO_MANY_REQUESTS,
            _ => false,
        }
    }

    /// The human-readable text of the error.
    pub open spec fn text(&self) -> Seq<char> {
        match self {
            RpcError::InvalidConfig(d) => "Invalid configuration: "@ + d@,
            RpcError::NoEnabledEndpoints => "No enabled endpoints found"@,
            RpcError::InvalidEndpoint(i) => "Invalid endpoint index: "@ + decimal(*i as nat),
            RpcError::RateLimitExceeded => "Rate limit exceeded"@,
            RpcError::Timeout => "Request timeout"@,
            RpcError::ConnectionError(d) => "Connection error: "@ + d@,
            RpcError::HttpStatus(c, b) => "HTTP status "@ + decimal(*c as nat) + ": "@ + b@,
            RpcError::Decode(d) => "Decode error: "@ + d@,
            RpcError::Rpc { code, message } => "RPC error "@ + signed_decimal(*code as int) + ": "@
                + message@,
            RpcError::AllEndpointsFailed(v) => "All endpoints failed after "@ + decimal(
                v@.len(),
            ) + " attempts"@,
            RpcError::RetryExhausted(e) => "Retry limit exceeded: "@ + e.detail(),
        }
    }

    /// The human-readable text of the error.
    pub fn message(&self) -> (r: String)
        ensures
            r@ == self.text(),
    {
        match self {
            RpcError::InvalidConfig(d) => {
                let mut s = String::from_str("Invalid configuration: ");
                s.append(d.as_str());
                s
            },
            RpcError::NoEnabledEndpoints => String::from_str("No enabled endpoints found"),
            RpcError::InvalidEndpoint(i) => {
                let mut s = String::from_str("Invalid endpoint index: ");
                let n = decimal_string(*i as u64);
                s.append(n.as_str());
                s
            },
            RpcError::RateLimitExceeded => String::from_str("Rate limit exceeded"),
            RpcError::Timeout => String::from_str("Request timeout"),
            RpcError::ConnectionError(d) => {
                let mut s = String::from_str("Connection error: ");
                s.append(d.as_str());
                s
            },
            RpcError::HttpStatus(c, b) => {
                let mut s = String::from_str("HTTP status ");
                let n = decimal_string(*c as u64);
                s.append(n.as_str());
                s.append(": ");
                s.append(b.as_str());
                s
            },
            RpcError::Decode(d) => {
                let mut s = String::from_str("Decode error: ");
                s.append(d.as_str());
                s
            },
            RpcError::Rpc { code, message } => {
                let mut s = String::from_str("RPC error ");
                let n = signed_decimal_string(*code);
                s.append(n.as_str());
                s.append(": ");
                s.append(message.as_str());
                s
            },
            RpcError::AllEndpointsFailed(v) => {
                let mut s = String::from_str("All endpoints failed after ");
                let n = decimal_string(v.len() as u64);
                s.append(n.as_str());
                s.append(" attempts");
                s
            },
            RpcError::RetryExhausted(e) => {
                let mut s = String::from_str("Retry limit exceeded: ");
                let d = e.message();
                s.append(d.as_str());
                s
            },
        }
    }

    /// Whether the failure is transient, so that trying again may succeed.
    pub fn is_retryable(&self) -> (r: bool)
        ensures
            r == self.retryable(),
    {
        match self {
            RpcError::RateLimitExceeded => true,
            RpcError::Timeout => true,
            RpcError::ConnectionError(_) => true,
            RpcError::HttpStatus(code, _) => (500 <= *code && *code <= 599) || *code
                == TOO_MANY_REQUESTS,
            _ => false,
        }
    }

    pub fn is_timeout(&self) -> (r: bool)
        ensures
            r == (self is Timeout),
    {
        matches!(self, RpcError::Timeout)
    }

    pub fn is_rate_limit(&self) -> (r: bool)
        ensures
            r == (self is RateLimitExceeded),
    {
        matches!(self, RpcError::RateLimitExceeded)
    }

    pub fn is_connection_error(&self) -> (r: bool)
        ensures
            r == (self is ConnectionError),
    {
        matches!(self, RpcError::ConnectionError(_))
    }
}

} // verus!
