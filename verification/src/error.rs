//! The application's error model: a closed set of error kinds, each carrying a
//! message, with classification predicates derived from the kind and the
//! message text.

use vstd::prelude::*;
use vstd::string::StringExecFns;

use crate::text::{contains_substr, spec_contains_substr};

verus! {

/// What a failed HTTP request looked like: its message, and whether the
/// underlying failure was a connection or a timeout problem.
#[derive(Debug)]
pub struct RequestFailure {
    pub message: String,
    pub connect: bool,
    pub timeout: bool,
}

/// Every error the application can surface, one variant per kind.
#[derive(Debug)]
pub enum AppError {
    Io(String),
    Config(String),
    Api(String),
    Template(String),
    Smtp(String),
    Json(String),
    Toml(String),
    Request(RequestFailure),
    Email(String),
    Handlebars(String),
    Url(String),
    Task(String),
}

impl AppError {
    /// The human-readable prefix naming the error's kind.
    pub open spec fn spec_prefix(&self) -> Seq<char> {
        match self {
            AppError::Io(_) => "IO error: "@,
            AppError::Config(_) => "Configuration error: "@,
            AppError::Api(_) => "API error: "@,
            AppError::Template(_) => "Template error: "@,
            AppError::Smtp(_) => "SMTP error: "@,
            AppError::Json(_) => "JSON error: "@,
            AppError::Toml(_) => "TOML error: "@,
            AppError::Request(_) => "Request error: "@,
            AppError::Email(_) => "Email error: "@,
            AppError::Handlebars(_) => "Handlebars error: "@,
            AppError::Url(_) => "URL parsing error: "@,
            AppError::Task(_) => "Task error: "@,
        }
    }

    /// The message carried by the error.
    pub open spec fn spec_detail(&self) -> Seq<char> {
        match self {
            AppError::Io(m) => m@,
            AppError::Config(m) => m@,
            AppError::Api(m) => m@,
            AppError::Template(m) => m@,
            AppError::Smtp(m) => m@,
            AppError::Json(m) => m@,
            AppError::Toml(m) => m@,
            AppError::Request(r) => r.message@,
            AppError::Email(m) => m@,
            AppError::Handlebars(m) => m@,
            AppError::Url(m) => m@,
            AppError::Task(m) => m@,
        }
    }

    /// Renders the error as its kind's prefix followed by its message.
    pub fn message(&self) -> (r: String)
        ensures
            r@ == self.spec_prefix() + self.spec_detail(),
    {
        match self {
            AppError::Io(m) => prefixed("IO error: ", m),
            AppError::Config(m) => prefixed("Configuration error: ", m),
            AppError::Api(m) => prefixed("API error: ", m),
            AppError::Template(m) => prefixed("Template error: ", m),
            AppError::Smtp(m) => prefixed("SMTP error: ", m),
            AppError::Json(m) => prefixed("JSON error: ", m),
            AppError::Toml(m) => prefixed("TOML error: ", m),
            AppError::Request(r) => prefixed("Request error: ", &r.message),
            AppError::Email(m) => prefixed("Email error: ", m),
            AppError::Handlebars(m) => prefixed("Handlebars error: ", m),
            AppError::Url(m) => prefixed("URL parsing error: ", m),
            AppError::Task(m) => prefixed("Task error: ", m),
        }
    }

    /// Whether the error reflects a network-level failure.
    pub open spec fn spec_is_network_error(&self) -> bool {
        match self {
            AppError::Request(r) => r.connect || r.timeout,
            AppError::Api(m) => spec_contains_substr(m@, "network"@),
            AppError::Smtp(m) => spec_contains_substr(m@, "connection"@),
            _ => false,
        }
    }

    pub fn is_network_error(&self) -> (r: bool)
        ensures
            r == self.spec_is_network_error(),
    {
        match self {
            AppError::Request(rf) => rf.connect || rf.timeout,
            AppError::Api(m) => contains_substr(m.as_str(), "network"),
            AppError::Smtp(m) => contains_substr(m.as_str(), "connection"),
            _ => false,
        }
    }

    /// Whether the error reflects rejected credentials or authorization.
    pub open spec fn spec_is_auth_error(&self) -> bool {
        match self {
            AppError::Api(m) => spec_contains_substr(m@, "unauthorized"@) || spec_contains_substr(
                m@,
                "forbidden"@,
            ),
            AppError::Smtp(m) => spec_contains_substr(m@, "authentication"@),
            _ => false,
        }
    }

    pub fn is_auth_error(&self) -> (r: bool)
        ensures
            r == self.spec_is_auth_error(),
    {
        match self {
            AppError::Api(m) => contains_substr(m.as_str(), "unauthorized") || contains_substr(
                m.as_str(),
                "forbidden",
            ),
            AppError::Smtp(m) => contains_substr(m.as_str(), "authentication"),
            _ => false,
        }
    }

    /// Whether a later attempt could plausibly succeed.
    pub open spec fn spec_is_retryable(&self) -> bool {
        self.spec_is_network_error() || match self {
            AppError::Api(m) => spec_contains_substr(m@, "rate limit"@) || spec_contains_substr(
                m@,
                "timeout"@,
            ),
            AppError::Smtp(m) => spec_contains_substr(m@, "try again"@),
            _ => false,
        }
    }

    pub fn is_retryable(&self) -> (r: bool)
        ensures
            r == self.spec_is_retryable(),
    {
        if self.is_network_error() {
            return true;
        }
        match self {
            AppError::Api(m) => contains_substr(m.as_str(), "rate limit") || contains_substr(
                m.as_str(),
                "timeout",
            ),
            AppError::Smtp(m) => contains_substr(m.as_str(), "try again"),
            _ => false,
        }
    }

    /// A configuration error with the given message.
    pub fn config(msg: &str) -> (r: AppError)
        ensures
            r matches AppError::Config(m) && m@ == msg@,
    {
        AppError::Config(msg.to_owned())
    }

    /// An API error with the given message.
    pub fn api(msg: &str) -> (r: AppError)
        ensures
            r matches AppError::Api(m) && m@ == msg@,
    {
        AppError::Api(msg.to_owned())
    }

    /// A task error with the given message.
    pub fn task(msg: &str) -> (r: AppError)
        ensures
            r matches AppError::Task(m) && m@ == msg@,
    {
        AppError::Task(msg.to_owned())
    }

    /// An I/O error with the given message.
    pub fn io(msg: &str) -> (r: AppError)
        ensures
            r matches AppError::Io(m) && m@ == msg@,
    {
        AppError::Io(msg.to_owned())
    }
}

/// The prefix followed by the message, as one string.
fn prefixed(prefix: &str, m: &String) -> (r: String)
    ensures
        r@ == prefix@ + m@,
{
    let mut s = prefix.to_owned();
    s.append(m.as_str());
    s
}

impl From<String> for AppError {
    fn from(msg: String) -> (r: AppError) {
        AppError::Task(msg)
    }
}

impl vstd::std_specs::convert::FromSpecImpl<String> for AppError {
    open spec fn obeys_from_spec() -> bool {
        true
    }

    open spec fn from_spec(msg: String) -> AppError {
        AppError::Task(msg)
    }
}

impl From<&str> for AppError {
    fn from(msg: &str) -> (r: AppError) {
        AppError::Task(msg.to_owned())
    }
}

/// A `String` with the borrowed text cannot be written down as a spec value,
/// so this conversion promises nothing; callers that need the exact error use
/// `AppError::task`.
impl vstd::std_specs::convert::FromSpecImpl<&str> for AppError {
    open spec fn obeys_from_spec() -> bool {
        false
    }

    open spec fn from_spec(msg: &str) -> AppError {
        arbitrary()
    }
}

} // verus!
