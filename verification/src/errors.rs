//! Domain error taxonomy: every error carries a machine-readable code, a
//! humanized message, and a retryability classification.

use vstd::prelude::*;

use crate::storage::StorageError;
use crate::text::{dec_rep, u64_to_string};

verus! {

/// API-specific error kinds.
#[derive(Debug)]
pub enum ApiError {
    RequestError(String),
    InvalidResponse(String),
    ApiFailure { status: u16, message: String },
    RateLimitExceeded,
    AuthenticationFailed(String),
    EndpointNotFound(String),
    InvalidApiKey,
    Timeout(String),
    Other(String),
}

/// Network-specific error kinds.
#[derive(Debug)]
pub enum NetworkError {
    ConnectionFailed(String),
    DnsError(String),
    SslError(String),
    Timeout(String),
    InvalidUrl(String),
    ProxyError(String),
}

/// Top-level error type of the library.
#[derive(Debug)]
pub enum FirecrawlError {
    ApiError(ApiError),
    StorageError(StorageError),
    ConfigurationError(String),
    ValidationError(String),
    ExecutionError(String),
    NetworkError(NetworkError),
    UiError(String),
    AuthenticationError(String),
    RateLimitError(String),
    TimeoutError(String),
}

/// Result type for operations of this library.
pub type FirecrawlResult<T> = Result<T, FirecrawlError>;

impl Clone for ApiError {
    fn clone(&self) -> (r: Self)
        ensures
            r == *self,
    {
        match self {
            ApiError::RequestError(s) => ApiError::RequestError(s.clone()),
            ApiError::InvalidResponse(s) => ApiError::InvalidResponse(s.clone()),
            ApiError::ApiFailure { status, message } => ApiError::ApiFailure {
                status: *status,
                message: message.clone(),
            },
            ApiError::RateLimitExceeded => ApiError::RateLimitExceeded,
            ApiError::AuthenticationFailed(s) => ApiError::AuthenticationFailed(s.clone()),
            ApiError::EndpointNotFound(s) => ApiError::EndpointNotFound(s.clone()),
            ApiError::InvalidApiKey => ApiError::InvalidApiKey,
            ApiError::Timeout(s) => ApiError::Timeout(s.clone()),
            ApiError::Other(s) => ApiError::Other(s.clone()),
        }
    }
}

impl Clone for NetworkError {
    fn clone(&self) -> (r: Self)
        ensures
            r == *self,
    {
        match self {
            NetworkError::ConnectionFailed(s) => NetworkError::ConnectionFailed(s.clone()),
            NetworkError::DnsError(s) => NetworkError::DnsError(s.clone()),
            NetworkError::SslError(s) => NetworkError::SslError(s.clone()),
            NetworkError::Timeout(s) => NetworkError::Timeout(s.clone()),
            NetworkError::InvalidUrl(s) => NetworkError::InvalidUrl(s.clone()),
            NetworkError::ProxyError(s) => NetworkError::ProxyError(s.clone()),
        }
    }
}

impl Clone for FirecrawlError {
    fn clone(&self) -> (r: Self)
        ensures
            r == *self,
    {
        match self {
            FirecrawlError::ApiError(e) => FirecrawlError::ApiError(e.clone()),
            FirecrawlError::StorageError(e) => FirecrawlError::StorageError(e.clone()),
            FirecrawlError::ConfigurationError(s) => FirecrawlError::ConfigurationError(s.clone()),
            FirecrawlError::ValidationError(s) => FirecrawlError::ValidationError(s.clone()),
            FirecrawlError::ExecutionError(s) => FirecrawlError::ExecutionError(s.clone()),
            FirecrawlError::NetworkError(e) => FirecrawlError::NetworkError(e.clone()),
            FirecrawlError::UiError(s) => FirecrawlError::UiError(s.clone()),
            FirecrawlError::AuthenticationError(s) => FirecrawlError::AuthenticationError(
                s.clone(),
            ),
            FirecrawlError::RateLimitError(s) => FirecrawlError::RateLimitError(s.clone()),
            FirecrawlError::TimeoutError(s) => FirecrawlError::TimeoutError(s.clone()),
        }
    }
}

impl ApiError {
    /// The humanized message of this error.
    pub open spec fn spec_message(self) -> Seq<char> {
        match self {
            ApiError::RequestError(s) => "HTTP request failed: "@ + s@,
            ApiError::InvalidResponse(s) => "Invalid response format: "@ + s@,
            ApiError::ApiFailure { status, message } => "API request failed with status "@
                + dec_rep(status as int) + ": "@ + message@,
            ApiError::RateLimitExceeded => "API rate limit exceeded"@,
            ApiError::AuthenticationFailed(s) => "Authentication failed: "@ + s@,
            ApiError::EndpointNotFound(s) => "API endpoint not found: "@ + s@,
            ApiError::InvalidApiKey => "Invalid API key format"@,
            ApiError::Timeout(s) => "Request timeout: "@ + s@,
            ApiError::Other(s) => "Other API error: "@ + s@,
        }
    }

    /// Renders the humanized message.
    pub fn message(&self) -> (r: String)
        ensures
            r@ == self.spec_message(),
    {
        match self {
            ApiError::RequestError(s) => String::from_str("HTTP request failed: ").concat(
                s.as_str(),
            ),
            ApiError::InvalidResponse(s) => String::from_str("Invalid response format: ").concat(
                s.as_str(),
            ),
            ApiError::ApiFailure { status, message } => {
                let code = u64_to_string(*status as u64);
                String::from_str("API request failed with status ").concat(code.as_str()).concat(
                    ": ",
                ).concat(message.as_str())
            },
            ApiError::RateLimitExceeded => String::from_str("API rate limit exceeded"),
            ApiError::AuthenticationFailed(s) => String::from_str("Authentication failed: ")
                .concat(s.as_str()),
            ApiError::EndpointNotFound(s) => String::from_str("API endpoint not found: ").concat(
                s.as_str(),
            ),
            ApiError::InvalidApiKey => String::from_str("Invalid API key format"),
            ApiError::Timeout(s) => String::from_str("Request timeout: ").concat(s.as_str()),
            ApiError::Other(s) => String::from_str("Other API error: ").concat(s.as_str()),
        }
    }
}

impl NetworkError {
    /// The humanized message of this error.
    pub open spec fn spec_message(self) -> Seq<char> {
        match self {
            NetworkError::ConnectionFailed(s) => "Connection failed: "@ + s@,
            NetworkError::DnsError(s) => "DNS resolution failed: "@ + s@,
            NetworkError::SslError(s) => "SSL/TLS error: "@ + s@,
            NetworkError::Timeout(s) => "Request timeout: "@ + s@,
            NetworkError::InvalidUrl(s) => "Invalid URL: "@ + s@,
            NetworkError::ProxyError(s) => "Proxy error: "@ + s@,
        }
    }

    /// Renders the humanized message.
    pub fn message(&self) -> (r: String)
        ensures
            r@ == self.spec_message(),
    {
        match self {
            NetworkError::ConnectionFailed(s) => String::from_str("Connection failed: ").concat(
                s.as_str(),
            ),
            NetworkError::DnsError(s) => String::from_str("DNS resolution failed: ").concat(
                s.as_str(),
            ),
            NetworkError::SslError(s) => String::from_str("SSL/TLS error: ").concat(s.as_str()),
            NetworkError::Timeout(s) => String::from_str("Request timeout: ").concat(s.as_str()),
            NetworkError::InvalidUrl(s) => String::from_str("Invalid URL: ").concat(s.as_str()),
            NetworkError::ProxyError(s) => String::from_str("Proxy error: ").concat(s.as_str()),
        }
    }
}

impl FirecrawlError {
    /// The humanized message of this error.
    pub open spec fn spec_message(self) -> Seq<char> {
        match self {
            FirecrawlError::ApiError(e) => "API error: "@ + e.spec_message(),
            FirecrawlError::StorageError(e) => "Storage error: "@ + e.spec_message(),
            FirecrawlError::ConfigurationError(s) => "Configuration error: "@ + s@,
            FirecrawlError::ValidationError(s) => "Validation error: "@ + s@,
            FirecrawlError::ExecutionError(s) => "Execution error: "@ + s@,
            FirecrawlError::NetworkError(e) => "Network error: "@ + e.spec_message(),
            FirecrawlError::UiError(s) => "UI error: "@ + s@,
            FirecrawlError::AuthenticationError(s) => "Authentication error: "@ + s@,
            FirecrawlError::RateLimitError(s) => "Rate limit exceeded: "@ + s@,
            FirecrawlError::TimeoutError(s) => "Operation timed out: "@ + s@,
        }
    }

    /// Renders the humanized message.
    pub fn message(&self) -> (r: String)
        ensures
            r@ == self.spec_message(),
    {
        match self {
            FirecrawlError::ApiError(e) => {
                let inner = e.message();
                String::from_str("API error: ").concat(inner.as_str())
            },
            FirecrawlError::StorageError(e) => {
                let inner = e.message();
                String::from_str("Storage error: ").concat(inner.as_str())
            },
            FirecrawlError::ConfigurationError(s) => String::from_str("Configuration error: ")
                .concat(s.as_str()),
            FirecrawlError::ValidationError(s) => String::from_str("Validation error: ").concat(
                s.as_str(),
            ),
            FirecrawlError::ExecutionError(s) => String::from_str("Execution error: ").concat(
                s.as_str(),
            ),
            FirecrawlError::NetworkError(e) => {
                let inner = e.message();
                String::from_str("Network error: ").concat(inner.as_str())
            },
            FirecrawlError::UiError(s) => String::from_str("UI error: ").concat(s.as_str()),
            FirecrawlError::AuthenticationError(s) => String::from_str("Authentication error: ")
                .concat(s.as_str()),
            FirecrawlError::RateLimitError(s) => String::from_str("Rate limit exceeded: ").concat(
                s.as_str(),
            ),
            FirecrawlError::TimeoutError(s) => String::from_str("Operation timed out: ").concat(
                s.as_str(),
            ),
        }
    }

    /// The machine-readable code of this error.
    pub open spec fn spec_error_code(self) -> Seq<char> {
        match self {
            FirecrawlError::ApiError(_) => "API_ERROR"@,
            FirecrawlError::StorageError(_) => "STORAGE_ERROR"@,
            FirecrawlError::ConfigurationError(_) => "CONFIG_ERROR"@,
            FirecrawlError::ValidationError(_) => "VALIDATION_ERROR"@,
            FirecrawlError::ExecutionError(_) => "EXECUTION_ERROR"@,
            FirecrawlError::NetworkError(_) => "NETWORK_ERROR"@,
            FirecrawlError::UiError(_) => "UI_ERROR"@,
            FirecrawlError::AuthenticationError(_) => "AUTH_ERROR"@,
            FirecrawlError::RateLimitError(_) => "RATE_LIMIT_ERROR"@,
            FirecrawlError::TimeoutError(_) => "TIMEOUT_ERROR"@,
        }
    }

    /// Gets the machine-readable code for programmatic handling.
    pub fn error_code(&self) -> (r: &'static str)
        ensures
            r@ == self.spec_error_code(),
    {
        match self {
            FirecrawlError::ApiError(_) => "API_ERROR",
            FirecrawlError::StorageError(_) => "STORAGE_ERROR",
            FirecrawlError::ConfigurationError(_) => "CONFIG_ERROR",
            FirecrawlError::ValidationError(_) => "VALIDATION_ERROR",
            FirecrawlError::ExecutionError(_) => "EXECUTION_ERROR",
            FirecrawlError::NetworkError(_) => "NETWORK_ERROR",
            FirecrawlError::UiError(_) => "UI_ERROR",
            FirecrawlError::AuthenticationError(_) => "AUTH_ERROR",
            FirecrawlError::RateLimitError(_) => "RATE_LIMIT_ERROR",
            FirecrawlError::TimeoutError(_) => "TIMEOUT_ERROR",
        }
    }

    /// Retryability is a property of the error kind: network, timeout and
    /// rate-limit failures may be retried; validation and storage failures not.
    pub open spec fn spec_is_retryable(self) -> bool {
        match self {
            FirecrawlError::NetworkError(_) => true,
            FirecrawlError::ApiError(api_error) => match api_error {
                ApiError::RequestError(_) => true,
                ApiError::Timeout(_) => true,
                ApiError::RateLimitExceeded => true,
                _ => false,
            },
            FirecrawlError::RateLimitError(_) => true,
            FirecrawlError::TimeoutError(_) => true,
            _ => false,
        }
    }

    /// Checks whether this error may be retried.
    pub fn is_retryable(&self) -> (r: bool)
        ensures
            r == self.spec_is_retryable(),
    {
        match self {
            FirecrawlError::NetworkError(_) => true,
            FirecrawlError::ApiError(api_error) => match api_error {
                ApiError::RequestError(_) => true,
                ApiError::Timeout(_) => true,
                ApiError::RateLimitExceeded => true,
                _ => false,
            },
            FirecrawlError::RateLimitError(_) => true,
            FirecrawlError::TimeoutError(_) => true,
            _ => false,
        }
    }

    /// The user-friendly message of this error.
    pub open spec fn spec_user_message(self) -> Seq<char> {
        match self {
            FirecrawlError::ApiError(ApiError::AuthenticationFailed(_)) =>
                "Please check your API key. You can set it using the FIRECRAWL_API_KEY environment variable."@,
            FirecrawlError::ApiError(ApiError::RateLimitExceeded) =>
                "You've exceeded the rate limit. Please wait and try again later."@,
            FirecrawlError::ValidationError(msg) => "Invalid input: "@ + msg@,
            FirecrawlError::NetworkError(NetworkError::ConnectionFailed(_)) =>
                "Failed to connect to the server. Please check your internet connection."@,
            FirecrawlError::ConfigurationError(_) =>
                "There's a problem with your configuration. Please check your settings."@,
            _ => self.spec_message(),
        }
    }

    /// Gets the user-friendly error message.
    pub fn user_message(&self) -> (r: String)
        ensures
            r@ == self.spec_user_message(),
    {
        match self {
            FirecrawlError::ApiError(ApiError::AuthenticationFailed(_)) => String::from_str(
                "Please check your API key. You can set it using the FIRECRAWL_API_KEY environment variable.",
            ),
            FirecrawlError::ApiError(ApiError::RateLimitExceeded) => String::from_str(
                "You've exceeded the rate limit. Please wait and try again later.",
            ),
            FirecrawlError::ValidationError(msg) => String::from_str("Invalid input: ").concat(
                msg.as_str(),
            ),
            FirecrawlError::NetworkError(NetworkError::ConnectionFailed(_)) => String::from_str(
                "Failed to connect to the server. Please check your internet connection.",
            ),
            FirecrawlError::ConfigurationError(_) => String::from_str(
                "There's a problem with your configuration. Please check your settings.",
            ),
            _ => self.message(),
        }
    }
}

/// Context carried beside an error for diagnosis: the operation and
/// component it arose in, the target if one is known, when it arose
/// (milliseconds since the Unix epoch), and free-form labelled details.
#[derive(Debug)]
pub struct ErrorContext {
    pub operation: String,
    pub url: Option<String>,
    pub component: String,
    pub timestamp_millis: u64,
    pub additional_info: Vec<(String, String)>,
}

impl ErrorContext {
    /// A context for an operation in a component, stamped with the clock's
    /// current reading, no target and no details yet.
    pub fn new(operation: &str, component: &str) -> (r: Self)
        ensures
            r.operation@ == operation@,
            r.component@ == component@,
            r.url is None,
            r.additional_info@.len() == 0,
    {
        ErrorContext {
            operation: String::from_str(operation),
            url: None,
            component: String::from_str(component),
            timestamp_millis: crate::clock::now_millis(),
            additional_info: Vec::new(),
        }
    }

    /// Sets the target the operation was working on.
    pub fn with_url(self, url: &str) -> (r: Self)
        ensures
            r.url matches Some(u) && u@ == url@,
            r.operation == self.operation,
            r.component == self.component,
            r.timestamp_millis == self.timestamp_millis,
            r.additional_info == self.additional_info,
    {
        let mut c = self;
        c.url = Some(String::from_str(url));
        c
    }

    /// Adds one labelled detail.
    pub fn with_info(self, key: &str, value: &str) -> (r: Self)
        ensures
            r.additional_info@.len() == self.additional_info@.len() + 1,
            r.additional_info@.last().0@ == key@,
            r.additional_info@.last().1@ == value@,
            forall|i: int|
                0 <= i < self.additional_info@.len() ==> r.additional_info@[i]
                    == self.additional_info@[i],
            r.operation == self.operation,
            r.component == self.component,
            r.url == self.url,
            r.timestamp_millis == self.timestamp_millis,
    {
        let mut c = self;
        c.additional_info.push((String::from_str(key), String::from_str(value)));
        c
    }
}

/// An error together with the context it arose in.
#[derive(Debug)]
pub struct ContextualError {
    pub error: FirecrawlError,
    pub context: ErrorContext,
}

impl ContextualError {
    /// Pairs an error with a ready-made context.
    pub fn new(error: FirecrawlError, context: ErrorContext) -> (r: Self)
        ensures
            r.error == error,
            r.context == context,
    {
        ContextualError { error, context }
    }

    /// Pairs an error with a fresh context for an operation in a component.
    pub fn with_context(error: FirecrawlError, operation: &str, component: &str) -> (r: Self)
        ensures
            r.error == error,
            r.context.operation@ == operation@,
            r.context.component@ == component@,
            r.context.url is None,
    {
        ContextualError { error, context: ErrorContext::new(operation, component) }
    }
}

} // verus!
