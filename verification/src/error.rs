//! The error type shared by every component.
use vstd::prelude::*;
use vstd::string::*;

verus! {

/// What went wrong, by kind, each with a message for the log.
#[derive(Debug, Clone)]
pub enum Error {
    /// A failure that fits no other kind.
    RuntimeError(String),
    /// The one-shot callback listener got a request it cannot read.
    HttpServerError(String),
    /// The feed refused a request or a URL for it is malformed.
    RedditError(String),
    /// The reaction log or the state record is unreachable, full or corrupt.
    DBError(String),
    /// An aggregate query matched no row, or a record is absent.
    NotFound(String),
    /// A required setting is missing.
    ConfigurationError(String),
    /// A send to the chat platform failed.
    DeliveryError(String),
    /// Every ranked digest candidate was tried and none was delivered.
    DigestDeliveryFailed(String),
}

impl Error {
    /// The text that introduces the message of each kind.
    pub open spec fn prefix(self) -> Seq<char> {
        match self {
            Error::RuntimeError(_) => "Runtime error: "@,
            Error::HttpServerError(_) => "HTTP server error: "@,
            Error::RedditError(_) => "Reddit error: "@,
            Error::DBError(_) => "Database error: "@,
            Error::NotFound(_) => "Not found: "@,
            Error::ConfigurationError(_) => "Configuration error: "@,
            Error::DeliveryError(_) => "Delivery error: "@,
            Error::DigestDeliveryFailed(_) => "Digest delivery failed: "@,
        }
    }

    /// The message carried by the error, whatever its kind.
    pub open spec fn message(self) -> Seq<char> {
        match self {
            Error::RuntimeError(m) => m@,
            Error::HttpServerError(m) => m@,
            Error::RedditError(m) => m@,
            Error::DBError(m) => m@,
            Error::NotFound(m) => m@,
            Error::ConfigurationError(m) => m@,
            Error::DeliveryError(m) => m@,
            Error::DigestDeliveryFailed(m) => m@,
        }
    }

    /// The line shown for this error: the prefix of its kind, then its message.
    pub fn to_string(&self) -> (text: String)
        ensures
            text@ == self.prefix() + self.message(),
    {
        match self {
            Error::RuntimeError(m) => String::from_str("Runtime error: ").concat(m.as_str()),
            Error::HttpServerError(m) => String::from_str("HTTP server error: ").concat(m.as_str()),
            Error::RedditError(m) => String::from_str("Reddit error: ").concat(m.as_str()),
            Error::DBError(m) => String::from_str("Database error: ").concat(m.as_str()),
            Error::NotFound(m) => String::from_str("Not found: ").concat(m.as_str()),
            Error::ConfigurationError(m) => String::from_str("Configuration error: ").concat(
                m.as_str(),
            ),
            Error::DeliveryError(m) => String::from_str("Delivery error: ").concat(m.as_str()),
            Error::DigestDeliveryFailed(m) => String::from_str("Digest delivery failed: ").concat(
                m.as_str(),
            ),
        }
    }
}

} // verus!
