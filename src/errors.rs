//! Errors of the operations on the service.
use crate::text::{decimal, decimal_string};
use vstd::prelude::*;
use vstd::string::*;

verus! {

/// What can go wrong when talking to the service.
#[derive(Debug)]
pub enum SurgeError {
    /// The service process is not running
    SurgeNotRunning,
    /// The HTTP API is disabled or cannot be reached
    HttpApiUnavailable { reason: String },
    /// The command-line tool failed
    CliExecutionFailed { command: String, error: String },
    /// Configuration error
    ConfigError { message: String },
    PolicyNotFound { name: String },
    PolicyGroupNotFound { name: String },
    ConnectionNotFound { id: u64 },
    /// JSON or text could not be parsed
    ParseError { source: String, error: String },
    NetworkError { message: String },
    PermissionDenied { message: String },
    Unknown { message: String },
}

impl SurgeError {
    /// The text that describes the error.
    pub open spec fn text(&self) -> Seq<char> {
        match self {
            SurgeError::SurgeNotRunning => "Surge is not running"@,
            SurgeError::HttpApiUnavailable { reason } => "HTTP API unavailable: "@ + reason@,
            SurgeError::CliExecutionFailed { command, error } => "CLI command failed: "@
                + command@ + " - "@ + error@,
            SurgeError::ConfigError { message } => "Config error: "@ + message@,
            SurgeError::PolicyNotFound { name } => "Policy not found: "@ + name@,
            SurgeError::PolicyGroupNotFound { name } => "Policy group not found: "@ + name@,
            SurgeError::ConnectionNotFound { id } => "Connection not found: #"@ + decimal(
                *id as nat,
            ),
            SurgeError::ParseError { source, error } => "Parse error ("@ + source@ + "): "@
                + error@,
            SurgeError::NetworkError { message } => "Network error: "@ + message@,
            SurgeError::PermissionDenied { message } => "Permission denied: "@ + message@,
            SurgeError::Unknown { message } => "Unknown error: "@ + message@,
        }
    }

    /// The text that describes the error.
    pub fn message(&self) -> (r: String)
        ensures
            r@ == self.text(),
    {
        match self {
            SurgeError::SurgeNotRunning => String::from_str("Surge is not running"),
            SurgeError::HttpApiUnavailable { reason } => {
                let mut s = String::from_str("HTTP API unavailable: ");
                s.append(reason.as_str());
                s
            },
            SurgeError::CliExecutionFailed { command, error } => {
                let mut s = String::from_str("CLI command failed: ");
                s.append(command.as_str());
                s.append(" - ");
                s.append(error.as_str());
                s
            },
            SurgeError::ConfigError { message } => {
                let mut s = String::from_str("Config error: ");
                s.append(message.as_str());
                s
            },
            SurgeError::PolicyNotFound { name } => {
                let mut s = String::from_str("Policy not found: ");
                s.append(name.as_str());
                s
            },
            SurgeError::PolicyGroupNotFound { name } => {
                let mut s = String::from_str("Policy group not found: ");
                s.append(name.as_str());
                s
            },
            SurgeError::ConnectionNotFound { id } => {
                let mut s = String::from_str("Connection not found: #");
                let d = decimal_string(*id);
                s.append(d.as_str());
                s
            },
            SurgeError::ParseError { source, error } => {
                let mut s = String::from_str("Parse error (");
                s.append(source.as_str());
                s.append("): ");
                s.append(error.as_str());
                s
            },
            SurgeError::NetworkError { message } => {
                let mut s = String::from_str("Network error: ");
                s.append(message.as_str());
                s
            },
            SurgeError::PermissionDenied { message } => {
                let mut s = String::from_str("Permission denied: ");
                s.append(message.as_str());
                s
            },
            SurgeError::Unknown { message } => {
                let mut s = String::from_str("Unknown error: ");
                s.append(message.as_str());
                s
            },
        }
    }
}

} // verus!
