use vstd::prelude::*;
use vstd::string::StringExecFns;

verus! {

/// The error taxonomy of the client.
///
/// No operation retries internally: every failure is reported upward as one of
/// these typed values.
#[derive(Debug, Clone)]
pub enum ScraperError {
    /// Network or HTTP-layer failure, surfaced to the caller.
    TransportError(String),
    /// Extraction could not interpret expected structure.
    ParsingError(String),
    /// A content fetch was redirected away from the requested path.
    SessionExpired,
    /// Credentials rejected or the login redirect reached a foreign host.
    AuthenticationFailed,
    /// The login form was missing its one-time execution token.
    TokenNotFound,
    /// Extraction could not locate an expected element.
    ElementNotFound(String),
    /// The server rejected a period-change request.
    InvalidPeriod,
    /// The server answered a task submission with neither success nor redirection.
    TaskSubmissionFailed,
    /// The server answered a submission deletion with neither success nor redirection.
    TaskDeletionFailed,
}

/// The message that describes an error.
pub open spec fn message_spec(e: ScraperError) -> Seq<char> {
    match e {
        ScraperError::TransportError(s) => "Request to SPOT failed: "@ + s@,
        ScraperError::ParsingError(s) => "Failed to parse HTML: "@ + s@,
        ScraperError::SessionExpired => "The SPOT session appears to have expired"@,
        ScraperError::AuthenticationFailed => "Authentication failed. Please check your credentials."@,
        ScraperError::TokenNotFound => "Could not find the login CSRF token on the page"@,
        ScraperError::ElementNotFound(s) => "Could not find required element on the page: "@ + s@,
        ScraperError::InvalidPeriod => "The requested academic period was rejected"@,
        ScraperError::TaskSubmissionFailed => "The server did not accept the task submission"@,
        ScraperError::TaskDeletionFailed => "The server did not accept the submission deletion"@,
    }
}

impl ScraperError {
    /// A human-readable description of the error.
    pub fn message(&self) -> (r: String)
        ensures
            r@ == message_spec(*self),
    {
        match self {
            ScraperError::TransportError(s) => String::from_str("Request to SPOT failed: ").concat(s.as_str()),
            ScraperError::ParsingError(s) => String::from_str("Failed to parse HTML: ").concat(s.as_str()),
            ScraperError::SessionExpired => String::from_str("The SPOT session appears to have expired"),
            ScraperError::AuthenticationFailed => String::from_str("Authentication failed. Please check your credentials."),
            ScraperError::TokenNotFound => String::from_str("Could not find the login CSRF token on the page"),
            ScraperError::ElementNotFound(s) => String::from_str("Could not find required element on the page: ").concat(s.as_str()),
            ScraperError::InvalidPeriod => String::from_str("The requested academic period was rejected"),
            ScraperError::TaskSubmissionFailed => String::from_str("The server did not accept the task submission"),
            ScraperError::TaskDeletionFailed => String::from_str("The server did not accept the submission deletion"),
        }
    }
}

} // verus!
