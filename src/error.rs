use vstd::prelude::*;
use vstd::string::StringExecFns;

verus! {

/// Every failure the client can report.
///
/// `RaindropApi` and `McpProtocol` may carry an inner error as their cause.
#[derive(Debug)]
pub enum RaindropMcpError {
    RaindropApi(String, Option<Box<RaindropMcpError>>),
    McpProtocol(String, Option<Box<RaindropMcpError>>),
    HttpRequest(String),
    JsonSerialization(String),
    EnvironmentVariable(String),
    Io(String),
    InvalidParameter(String),
    NotFound(String),
    Unauthorized(String),
    RateLimitExceeded { message: String, retry_after: Option<u64> },
    ServiceUnavailable(String),
    Timeout(String),
    Unknown(String),
}

pub type Result<T> = core::result::Result<T, RaindropMcpError>;

/// Seconds a caller should wait before retrying when the service is unavailable.
pub const SERVICE_UNAVAILABLE_RETRY_SECS: u64 = 5;

/// Seconds a caller should wait before retrying after a timeout.
pub const TIMEOUT_RETRY_SECS: u64 = 2;

impl RaindropMcpError {
    /// The kinds for which a retry by the caller may succeed.
    pub open spec fn spec_retryable(&self) -> bool {
        ||| self is HttpRequest
        ||| self is ServiceUnavailable
        ||| self is Timeout
        ||| self is RateLimitExceeded
    }

    /// The suggested delay before a retry, in seconds.
    pub open spec fn spec_retry_after(&self) -> Option<u64> {
        match self {
            RaindropMcpError::RateLimitExceeded { retry_after, .. } => *retry_after,
            RaindropMcpError::ServiceUnavailable(_) => Some(SERVICE_UNAVAILABLE_RETRY_SECS),
            RaindropMcpError::Timeout(_) => Some(TIMEOUT_RETRY_SECS),
            _ => None,
        }
    }

    /// The JSON-RPC error code reported to protocol clients.
    pub open spec fn spec_error_code(&self) -> int {
        match self {
            RaindropMcpError::InvalidParameter(_) => -32602,
            RaindropMcpError::NotFound(_) => -32601,
            RaindropMcpError::Unauthorized(_) => -32603,
            RaindropMcpError::RateLimitExceeded { .. } => -32604,
            RaindropMcpError::ServiceUnavailable(_) => -32605,
            RaindropMcpError::Timeout(_) => -32606,
            _ => -32603,
        }
    }

    /// The human-readable message: a prefix naming the kind, then the detail.
    pub open spec fn spec_message(&self) -> Seq<char> {
        match self {
            RaindropMcpError::RaindropApi(m, _) => "Raindrop API error: "@ + m@,
            RaindropMcpError::McpProtocol(m, _) => "MCP protocol error: "@ + m@,
            RaindropMcpError::HttpRequest(m) => "HTTP request error: "@ + m@,
            RaindropMcpError::JsonSerialization(m) => "JSON serialization error: "@ + m@,
            RaindropMcpError::EnvironmentVariable(m) => "Environment variable error: "@ + m@,
            RaindropMcpError::Io(m) => "IO error: "@ + m@,
            RaindropMcpError::InvalidParameter(m) => "Invalid parameter: "@ + m@,
            RaindropMcpError::NotFound(m) => "Not found: "@ + m@,
            RaindropMcpError::Unauthorized(m) => "Unauthorized: "@ + m@,
            RaindropMcpError::RateLimitExceeded { message, .. } => "Rate limit exceeded: "@
                + message@,
            RaindropMcpError::ServiceUnavailable(m) => "Service unavailable: "@ + m@,
            RaindropMcpError::Timeout(m) => "Timeout: "@ + m@,
            RaindropMcpError::Unknown(m) => "Unknown error: "@ + m@,
        }
    }

    /// Returns true if this error is retryable.
    #[verifier::when_used_as_spec(spec_retryable)]
    pub fn is_retryable(&self) -> (r: bool)
        ensures
            r == self.spec_retryable(),
    {
        match self {
            RaindropMcpError::HttpRequest(_) => true,
            RaindropMcpError::ServiceUnavailable(_) => true,
            RaindropMcpError::Timeout(_) => true,
            RaindropMcpError::RateLimitExceeded { .. } => true,
            _ => false,
        }
    }

    /// Returns the retry delay in seconds, if there is one.
    #[verifier::when_used_as_spec(spec_retry_after)]
    pub fn retry_after(&self) -> (r: Option<u64>)
        ensures
            r == self.spec_retry_after(),
    {
        match self {
            RaindropMcpError::RateLimitExceeded { retry_after, .. } => *retry_after,
            RaindropMcpError::ServiceUnavailable(_) => Some(SERVICE_UNAVAILABLE_RETRY_SECS),
            RaindropMcpError::Timeout(_) => Some(TIMEOUT_RETRY_SECS),
            _ => None,
        }
    }

    /// Converts to a JSON-RPC error code.
    pub fn to_mcp_error_code(&self) -> (r: i32)
        ensures
            r == self.spec_error_code(),
    {
        match self {
            RaindropMcpError::InvalidParameter(_) => -32602,
            RaindropMcpError::NotFound(_) => -32601,
            RaindropMcpError::Unauthorized(_) => -32603,
            RaindropMcpError::RateLimitExceeded { .. } => -32604,
            RaindropMcpError::ServiceUnavailable(_) => -32605,
            RaindropMcpError::Timeout(_) => -32606,
            _ => -32603,
        }
    }

    /// The human-readable message of this error.
    pub fn message(&self) -> (r: String)
        ensures
            r@ == self.spec_message(),
    {
        let (prefix, detail) = match self {
            RaindropMcpError::RaindropApi(m, _) => ("Raindrop API error: ", m),
            RaindropMcpError::McpProtocol(m, _) => ("MCP protocol error: ", m),
            RaindropMcpError::HttpRequest(m) => ("HTTP request error: ", m),
            RaindropMcpError::JsonSerialization(m) => ("JSON serialization error: ", m),
            RaindropMcpError::EnvironmentVariable(m) => ("Environment variable error: ", m),
            RaindropMcpError::Io(m) => ("IO error: ", m),
            RaindropMcpError::InvalidParameter(m) => ("Invalid parameter: ", m),
            RaindropMcpError::NotFound(m) => ("Not found: ", m),
            RaindropMcpError::Unauthorized(m) => ("Unauthorized: ", m),
            RaindropMcpError::RateLimitExceeded { message, .. } => ("Rate limit exceeded: ", message),
            RaindropMcpError::ServiceUnavailable(m) => ("Service unavailable: ", m),
            RaindropMcpError::Timeout(m) => ("Timeout: ", m),
            RaindropMcpError::Unknown(m) => ("Unknown error: ", m),
        };
        let mut text = String::from_str(prefix);
        text.append(detail.as_str());
        text
    }
}

} // verus!
