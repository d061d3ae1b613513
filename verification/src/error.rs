//! The application's error type.

use vstd::prelude::*;
use vstd::string::{to_string_from_display_ensures, StringExecFns};

verus! {

/// `std::io::Error`, the failure of an input or output operation.
#[verifier::external_type_specification]
#[verifier::external_body]
pub struct ExIoError(std::io::Error);

/// Application error type.
///
/// Each kind carries, as text, what it reports: a failure from below is held
/// by its own message.
#[derive(Debug)]
pub enum AppError {
    /// Configuration error, with the message of the failed load.
    Config(String),
    /// User not found.
    UserNotFound { user_id: String },
    /// External service failed; `source` is the message of the cause.
    ServiceError { service_name: String, source: String },
    /// IO error, with the message of the failed operation.
    Io(String),
}

/// Result type alias for application operations.
pub type Result<T> = core::result::Result<T, AppError>;

impl AppError {
    /// The text this error is shown as.
    pub open spec fn rendering(&self) -> Seq<char> {
        match self {
            AppError::Config(message) => "Configuration error: "@ + message@,
            AppError::UserNotFound { user_id } => "User not found (id: "@ + user_id@ + ")"@,
            AppError::ServiceError { service_name, .. } => "External service failed: "@
                + service_name@,
            AppError::Io(message) => message@,
        }
    }

    /// The message of the failure underneath, for the kinds that wrap one
    /// without showing it as their whole text.
    pub open spec fn underlying(&self) -> Option<Seq<char>> {
        match self {
            AppError::Config(message) => Some(message@),
            AppError::ServiceError { source, .. } => Some(source@),
            _ => None,
        }
    }

    /// The configuration error for a failed load: it holds the text that
    /// the failure is displayed as.
    pub fn from_config(error: figment::Error) -> (failure: AppError)
        ensures
            failure matches AppError::Config(message) && to_string_from_display_ensures::<
                figment::Error,
            >(&error, message),
    {
        AppError::Config(error.to_string())
    }

    /// The IO error for a failed operation: it holds the text that the
    /// failure is displayed as, which is then the error's whole message.
    pub fn from_io(error: std::io::Error) -> (failure: AppError)
        ensures
            failure matches AppError::Io(message) && to_string_from_display_ensures::<
                std::io::Error,
            >(&error, message),
    {
        AppError::Io(error.to_string())
    }

    /// Renders the error's message.
    pub fn message(&self) -> (text: String)
        ensures
            text@ == self.rendering(),
    {
        match self {
            AppError::Config(message) => {
                let mut text = String::from_str("Configuration error: ");
                text.append(message.as_str());
                text
            },
            AppError::UserNotFound { user_id } => {
                let mut text = String::from_str("User not found (id: ");
                text.append(user_id.as_str());
                text.append(")");
                text
            },
            AppError::ServiceError { service_name, .. } => {
                let mut text = String::from_str("External service failed: ");
                text.append(service_name.as_str());
                text
            },
            AppError::Io(message) => message.clone(),
        }
    }

    /// The message of the failure underneath, where the error keeps one
    /// apart from its own text.
    pub fn cause(&self) -> (text: Option<String>)
        ensures
            (text is Some) == (self.underlying() is Some),
            text matches Some(t) ==> Some(t@) == self.underlying(),
    {
        match self {
            AppError::Config(message) => Some(message.clone()),
            AppError::ServiceError { source, .. } => Some(source.clone()),
            _ => None,
        }
    }
}

/// An IO error is shown as the message of the failure it wraps, with
/// nothing before or after it.
pub proof fn io_message_is_unchanged(message: String)
    ensures
        AppError::Io(message).rendering() == message@,
{
}

/// The message of a service error names the service and nothing else: two
/// errors for one service are shown alike whatever their causes, and each
/// keeps its own cause.
pub proof fn service_message_leaves_cause_out(service_name: String, first: String, second: String)
    ensures
        (AppError::ServiceError { service_name, source: first }).rendering() == (
        AppError::ServiceError { service_name, source: second }).rendering(),
        (AppError::ServiceError { service_name, source: first }).underlying() == Some(first@),
        (AppError::ServiceError { service_name, source: second }).underlying() == Some(second@),
{
}

} // verus!
