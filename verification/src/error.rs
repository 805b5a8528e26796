//! Errors shared by the gateway's components.

use vstd::prelude::*;

verus! {

/// What can go wrong while a request is served.
#[derive(Debug)]
pub enum CerberusError {
    /// Configuration error.
    Config(String),
    /// The shared store could not be reached or refused an operation.
    Redis(String),
    /// A challenge could not be generated or verified.
    Captcha(String),
    /// A circuit record could not be tracked.
    CircuitTracking(String),
    /// Authentication or authorisation failed.
    Auth(String),
    /// The rate limit was exceeded.
    RateLimited(String),
    /// The circuit is banned.
    Banned(String),
    /// The request was malformed.
    InvalidInput(String),
    /// Internal error.
    Internal(String),
    /// Cluster coordination failed.
    Cluster(String),
    /// An operation timed out.
    Timeout(String),
}

impl CerberusError {
    /// The HTTP status that answers a request which ended in this error.
    pub open spec fn spec_status_code(&self) -> u16 {
        match self {
            CerberusError::Config(_) => 500,
            CerberusError::Redis(_) => 503,
            CerberusError::Captcha(_) => 500,
            CerberusError::CircuitTracking(_) => 500,
            CerberusError::Auth(_) => 401,
            CerberusError::RateLimited(_) => 429,
            CerberusError::Banned(_) => 403,
            CerberusError::InvalidInput(_) => 400,
            CerberusError::Internal(_) => 500,
            CerberusError::Cluster(_) => 503,
            CerberusError::Timeout(_) => 504,
        }
    }

    /// Whether a caller may retry, with backoff, after this error.
    pub open spec fn spec_is_retryable(&self) -> bool {
        self is Redis || self is Cluster || self is Timeout
    }

    /// The words that introduce this kind of error in a message.
    pub open spec fn spec_label(&self) -> Seq<char> {
        match self {
            CerberusError::Config(_) => "Configuration error: "@,
            CerberusError::Redis(_) => "Redis error: "@,
            CerberusError::Captcha(_) => "CAPTCHA error: "@,
            CerberusError::CircuitTracking(_) => "Circuit tracking error: "@,
            CerberusError::Auth(_) => "Auth error: "@,
            CerberusError::RateLimited(_) => "Rate limit exceeded: "@,
            CerberusError::Banned(_) => "Circuit banned: "@,
            CerberusError::InvalidInput(_) => "Invalid input: "@,
            CerberusError::Internal(_) => "Internal error: "@,
            CerberusError::Cluster(_) => "Cluster error: "@,
            CerberusError::Timeout(_) => "Operation timed out: "@,
        }
    }

    /// The detail that the error carries.
    pub open spec fn spec_detail(&self) -> Seq<char> {
        match self {
            CerberusError::Config(d) => d@,
            CerberusError::Redis(d) => d@,
            CerberusError::Captcha(d) => d@,
            CerberusError::CircuitTracking(d) => d@,
            CerberusError::Auth(d) => d@,
            CerberusError::RateLimited(d) => d@,
            CerberusError::Banned(d) => d@,
            CerberusError::InvalidInput(d) => d@,
            CerberusError::Internal(d) => d@,
            CerberusError::Cluster(d) => d@,
            CerberusError::Timeout(d) => d@,
        }
    }

    /// Returns the HTTP status code for this error.
    pub fn status_code(&self) -> (code: u16)
        ensures
            code == self.spec_status_code(),
    {
        match self {
            CerberusError::Config(_) => 500,
            CerberusError::Redis(_) => 503,
            CerberusError::Captcha(_) => 500,
            CerberusError::CircuitTracking(_) => 500,
            CerberusError::Auth(_) => 401,
            CerberusError::RateLimited(_) => 429,
            CerberusError::Banned(_) => 403,
            CerberusError::InvalidInput(_) => 400,
            CerberusError::Internal(_) => 500,
            CerberusError::Cluster(_) => 503,
            CerberusError::Timeout(_) => 504,
        }
    }

    /// Returns true if the failed operation may be retried.
    pub fn is_retryable(&self) -> (r: bool)
        ensures
            r == self.spec_is_retryable(),
    {
        match self {
            CerberusError::Redis(_) | CerberusError::Cluster(_) | CerberusError::Timeout(_) => true,
            _ => false,
        }
    }

    /// The message of this error: its label, then its detail.
    pub fn message(&self) -> (m: String)
        ensures
            m@ == self.spec_label() + self.spec_detail(),
    {
        match self {
            CerberusError::Config(d) => String::from_str("Configuration error: ").concat(d.as_str()),
            CerberusError::Redis(d) => String::from_str("Redis error: ").concat(d.as_str()),
            CerberusError::Captcha(d) => String::from_str("CAPTCHA error: ").concat(d.as_str()),
            CerberusError::CircuitTracking(d) => String::from_str("Circuit tracking error: ").concat(
                d.as_str(),
            ),
            CerberusError::Auth(d) => String::from_str("Auth error: ").concat(d.as_str()),
            CerberusError::RateLimited(d) => String::from_str("Rate limit exceeded: ").concat(
                d.as_str(),
            ),
            CerberusError::Banned(d) => String::from_str("Circuit banned: ").concat(d.as_str()),
            CerberusError::InvalidInput(d) => String::from_str("Invalid input: ").concat(d.as_str()),
            CerberusError::Internal(d) => String::from_str("Internal error: ").concat(d.as_str()),
            CerberusError::Cluster(d) => String::from_str("Cluster error: ").concat(d.as_str()),
            CerberusError::Timeout(d) => String::from_str("Operation timed out: ").concat(d.as_str()),
        }
    }
}

} // verus!
