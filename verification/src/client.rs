//! The client-side view of the remote service connection: validated,
//! normalized connection settings, URL assembly, response interpretation,
//! and the retry decision rule. The transport itself is an external
//! collaborator that consumes these settings.

use vstd::prelude::*;

use crate::errors::{ApiError, FirecrawlError, FirecrawlResult};
use crate::scrape_model::ApiResponse;
use crate::text::{spec_trim_leading_slashes, spec_trim_trailing_slashes, trim_leading_slashes, trim_trailing_slashes};

verus! {

/// Connection settings for the remote service: a normalized base URL (no
/// trailing slash) and an optional API key.
#[derive(Debug, Clone)]
pub struct FirecrawlClient {
    pub base_url: String,
    pub api_key: Option<String>,
}

impl FirecrawlClient {
    /// Creates client settings: the base URL loses every trailing slash and
    /// the key is kept as given. Never fails.
    pub fn new(base_url: &str, api_key: Option<&str>) -> (r: FirecrawlResult<Self>)
        ensures
            r matches Ok(c) && c.base_url@ == spec_trim_trailing_slashes(base_url@) && (match (
                api_key,
                c.api_key,
            ) {
                (Some(k), Some(ck)) => ck@ == k@,
                (None, None) => true,
                _ => false,
            }),
    {
        Ok(
            FirecrawlClient {
                base_url: trim_trailing_slashes(base_url),
                api_key: match api_key {
                    Some(k) => Some(String::from_str(k)),
                    None => None,
                },
            },
        )
    }

    /// The normalized base URL.
    pub fn base_url(&self) -> (r: &str)
        ensures
            r@ == self.base_url@,
    {
        self.base_url.as_str()
    }

    /// The API key, if one was given.
    pub fn api_key(&self) -> (r: Option<&str>)
        ensures
            match (r, self.api_key) {
                (Some(k), Some(ck)) => k@ == ck@,
                (None, None) => true,
                _ => false,
            },
    {
        match &self.api_key {
            Some(k) => Some(k.as_str()),
            None => None,
        }
    }

    /// The full URL of an endpoint under the base URL.
    pub fn endpoint_url(&self, path: &str) -> (r: String)
        ensures
            r@ == self.base_url@ + "/"@ + spec_trim_leading_slashes(path@),
    {
        let trimmed = trim_leading_slashes(path);
        self.base_url.clone().concat("/").concat(trimmed.as_str())
    }

    /// The value of the authorization header, where a key is configured.
    pub fn auth_header_value(&self) -> (r: Option<String>)
        ensures
            match (r, self.api_key) {
                (Some(v), Some(k)) => v@ == "Bearer "@ + k@,
                (None, None) => true,
                _ => false,
            },
    {
        match &self.api_key {
            Some(k) => Some(String::from_str("Bearer ").concat(k.as_str())),
            None => None,
        }
    }
}

/// Connection settings with retry policy and default headers, produced by
/// the client builder; the base URL is normalized at construction.
#[derive(Debug)]
pub struct EnhancedFirecrawlClient {
    pub base_url: String,
    pub api_key: Option<String>,
    pub max_retries: u32,
    pub retry_delay_millis: u64,
    pub default_headers: Vec<(String, String)>,
}

impl EnhancedFirecrawlClient {
    /// The base URL.
    pub fn base_url(&self) -> (r: &str)
        ensures
            r@ == self.base_url@,
    {
        self.base_url.as_str()
    }

    /// The API key, if one was given.
    pub fn api_key(&self) -> (r: Option<&str>)
        ensures
            match (r, self.api_key) {
                (Some(k), Some(ck)) => k@ == ck@,
                (None, None) => true,
                _ => false,
            },
    {
        match &self.api_key {
            Some(k) => Some(k.as_str()),
            None => None,
        }
    }

    /// The retry policy: attempts and the delay between them, in
    /// milliseconds.
    pub fn retry_config(&self) -> (r: (u32, u64))
        ensures
            r.0 == self.max_retries,
            r.1 == self.retry_delay_millis,
    {
        (self.max_retries, self.retry_delay_millis)
    }

    /// The default headers included in every request.
    pub fn default_headers(&self) -> (r: &Vec<(String, String)>)
        ensures
            r == &self.default_headers,
    {
        &self.default_headers
    }

    /// The full URL of an endpoint under the base URL.
    pub fn endpoint_url(&self, path: &str) -> (r: String)
        ensures
            r@ == self.base_url@ + "/"@ + spec_trim_leading_slashes(path@),
    {
        let trimmed = trim_leading_slashes(path);
        self.base_url.clone().concat("/").concat(trimmed.as_str())
    }
}

impl From<EnhancedFirecrawlClient> for FirecrawlClient {
    /// Keeps the connection identity and drops the retry policy and default
    /// headers.
    fn from(enhanced: EnhancedFirecrawlClient) -> (r: FirecrawlClient) {
        FirecrawlClient { base_url: enhanced.base_url, api_key: enhanced.api_key }
    }
}

impl vstd::std_specs::convert::FromSpecImpl<EnhancedFirecrawlClient> for FirecrawlClient {
    open spec fn obeys_from_spec() -> bool {
        true
    }

    open spec fn from_spec(enhanced: EnhancedFirecrawlClient) -> FirecrawlClient {
        FirecrawlClient { base_url: enhanced.base_url, api_key: enhanced.api_key }
    }
}

/// What one delivery attempt against the remote service came to.
pub enum AttemptOutcome {
    /// A response arrived, with this HTTP status.
    Delivered { status: u16 },
    /// The transport failed before any response.
    TransportFailure { message: String },
}

/// What to do after one delivery attempt.
#[derive(Debug, Clone, Copy, PartialEq, Eq, Structural)]
pub enum RetryAction {
    /// Hand the response out: success, or a client error that a retry
    /// cannot mend.
    Accept,
    /// Wait for the retry delay, then try again.
    RetryAfterDelay,
    /// No attempts are left; report the last failure.
    GiveUp,
}

/// Whether a status is accepted without retrying: a success, or a client
/// error, which retrying cannot mend.
pub open spec fn spec_accepts_status(status: u16) -> bool {
    (200 <= status && status < 300) || (400 <= status && status < 500)
}

/// The retry rule of the enhanced client: a delivered success or client
/// error is accepted; everything else is retried while attempts remain
/// (`attempt` counts from zero up to `max_retries`), then given up.
pub fn retry_decision(attempt: u32, max_retries: u32, outcome: &AttemptOutcome) -> (r: RetryAction)
    ensures
        (outcome matches AttemptOutcome::Delivered { status } && spec_accepts_status(*status)) ==> r
            == RetryAction::Accept,
        (match outcome {
            AttemptOutcome::Delivered { status } => !spec_accepts_status(*status),
            AttemptOutcome::TransportFailure { .. } => true,
        }) ==> r == (if attempt < max_retries {
            RetryAction::RetryAfterDelay
        } else {
            RetryAction::GiveUp
        }),
{
    let accepted = match outcome {
        AttemptOutcome::Delivered { status } => (200 <= *status && *status < 300) || (400
            <= *status && *status < 500),
        AttemptOutcome::TransportFailure { .. } => false,
    };
    if accepted {
        RetryAction::Accept
    } else if attempt < max_retries {
        RetryAction::RetryAfterDelay
    } else {
        RetryAction::GiveUp
    }
}

/// The error that a failed attempt is reported as once retries are
/// exhausted: an API failure carrying the status, or a network failure
/// carrying the transport's message.
pub fn attempt_failure_error(outcome: AttemptOutcome) -> (r: FirecrawlError)
    ensures
        (outcome matches AttemptOutcome::Delivered { status } ==> r matches
            FirecrawlError::ApiError(e) && e matches ApiError::ApiFailure {
            status: s,
            message,
        } && s == status),
        (outcome matches AttemptOutcome::TransportFailure { message } ==> r matches
            FirecrawlError::NetworkError(crate::errors::NetworkError::ConnectionFailed(m)) && m
            == message),
{
    match outcome {
        AttemptOutcome::Delivered { status } => FirecrawlError::ApiError(
            ApiError::ApiFailure {
                status,
                message: String::from_str("HTTP ").concat(
                    crate::text::u64_to_string(status as u64).as_str(),
                ),
            },
        ),
        AttemptOutcome::TransportFailure { message } => FirecrawlError::NetworkError(
            crate::errors::NetworkError::ConnectionFailed(message),
        ),
    }
}

/// Interprets the generic response wrapper: the payload where the service
/// reported success, an invalid-response error otherwise.
pub fn interpret_api_response<T>(response: ApiResponse<T>) -> (r: FirecrawlResult<T>)
    ensures
        response.success ==> (r matches Ok(d) && d == response.data),
        !response.success ==> (r matches Err(FirecrawlError::ApiError(e)) && e matches
            ApiError::InvalidResponse(m) && m@ == "API request failed"@),
{
    if response.success {
        Ok(response.data)
    } else {
        Err(
            FirecrawlError::ApiError(
                ApiError::InvalidResponse(String::from_str("API request failed")),
            ),
        )
    }
}

} // verus!
