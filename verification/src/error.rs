//! Error taxonomy of the dispatcher.
//!
//! Every adapter-local failure is wrapped into one of these kinds and
//! propagated to the caller. Each kind maps to a distinct numeric code for
//! the HTTP boundary.

use vstd::prelude::*;

verus! {

/// A failure of one dispatch attempt.
#[derive(Debug, Clone)]
pub enum NotifyError {
    /// SMTP transport failure.
    Smtp(String),
    /// Malformed recipient or sender address.
    EmailAddress(String),
    /// Malformed outbound message construction.
    EmailBuild(String),
    /// HTTP transport failure or non-success status.
    Http(String),
    /// Channel not configured, unsupported channel, or malformed secret.
    Config(String),
    /// The remote party accepted the request but reported a failure.
    Send(String),
}

/// Numeric code of the SMTP transport error kind.
pub const SMTP_ERROR: i32 = 5001;

/// Numeric code of the address error kind.
pub const EMAIL_ADDRESS_ERROR: i32 = 4001;

/// Numeric code of the message construction error kind.
pub const EMAIL_BUILD_ERROR: i32 = 5002;

/// Numeric code of the HTTP transport error kind.
pub const HTTP_ERROR: i32 = 5003;

/// Numeric code of the configuration error kind.
pub const NOTIFY_CONFIG_ERROR: i32 = 5004;

/// Numeric code of the send failure kind.
pub const NOTIFY_SEND_ERROR: i32 = 5005;

impl NotifyError {
    /// The numeric code of this error kind, as reported at the HTTP boundary.
    pub fn code(&self) -> (c: i32)
        ensures
            c == self.spec_code(),
    {
        match self {
            NotifyError::Smtp(_) => SMTP_ERROR,
            NotifyError::EmailAddress(_) => EMAIL_ADDRESS_ERROR,
            NotifyError::EmailBuild(_) => EMAIL_BUILD_ERROR,
            NotifyError::Http(_) => HTTP_ERROR,
            NotifyError::Config(_) => NOTIFY_CONFIG_ERROR,
            NotifyError::Send(_) => NOTIFY_SEND_ERROR,
        }
    }

    /// The code of each error kind; distinct kinds have distinct codes.
    pub open spec fn spec_code(&self) -> i32 {
        match self {
            NotifyError::Smtp(_) => SMTP_ERROR,
            NotifyError::EmailAddress(_) => EMAIL_ADDRESS_ERROR,
            NotifyError::EmailBuild(_) => EMAIL_BUILD_ERROR,
            NotifyError::Http(_) => HTTP_ERROR,
            NotifyError::Config(_) => NOTIFY_CONFIG_ERROR,
            NotifyError::Send(_) => NOTIFY_SEND_ERROR,
        }
    }

    /// The message carried by the error.
    pub fn message(&self) -> (m: &String)
        ensures
            m@ == self.spec_message(),
    {
        match self {
            NotifyError::Smtp(m) => m,
            NotifyError::EmailAddress(m) => m,
            NotifyError::EmailBuild(m) => m,
            NotifyError::Http(m) => m,
            NotifyError::Config(m) => m,
            NotifyError::Send(m) => m,
        }
    }

    /// The message carried by the error.
    pub open spec fn spec_message(&self) -> Seq<char> {
        match self {
            NotifyError::Smtp(m) => m@,
            NotifyError::EmailAddress(m) => m@,
            NotifyError::EmailBuild(m) => m@,
            NotifyError::Http(m) => m@,
            NotifyError::Config(m) => m@,
            NotifyError::Send(m) => m@,
        }
    }
}

/// Result type used by every adapter and by the dispatch context.
pub type NotifyResult<T> = Result<T, NotifyError>;

} // verus!
