//! The errors a store operation can report.

use vstd::prelude::*;

verus! {

/// Enumerates the failures of the goat management client, each carrying a
/// human-readable message.
#[derive(Debug)]
pub enum AppError {
    /// The request could not be sent or the connection failed.
    NetworkError(String),
    /// A form field failed client-side validation.
    InvalidInput(String),
    /// No record with the given identifier exists.
    NotFound(String),
    /// A non-ok HTTP status, or any condition not otherwise classified.
    Unexpected(String),
}

impl AppError {
    /// The error's display text: a fixed prefix naming the kind, then the message.
    pub open spec fn spec_message(&self) -> Seq<char> {
        match self {
            AppError::NetworkError(m) => "Network or API error: "@ + m@,
            AppError::InvalidInput(m) => "Invalid input: "@ + m@,
            AppError::NotFound(m) => "Goat not found: "@ + m@,
            AppError::Unexpected(m) => "Unexpected error: "@ + m@,
        }
    }

    /// Creates a network error with details.
    pub fn network(msg: String) -> (r: AppError)
        ensures
            r == AppError::NetworkError(msg),
    {
        AppError::NetworkError(msg)
    }

    /// Creates an invalid input error with details.
    pub fn invalid_input(msg: String) -> (r: AppError)
        ensures
            r == AppError::InvalidInput(msg),
    {
        AppError::InvalidInput(msg)
    }

    /// Creates a not found error for a given goat identifier.
    pub fn not_found(identifier: String) -> (r: AppError)
        ensures
            r == AppError::NotFound(identifier),
    {
        AppError::NotFound(identifier)
    }

    /// Creates a general unexpected error.
    pub fn unexpected(msg: String) -> (r: AppError)
        ensures
            r == AppError::Unexpected(msg),
    {
        AppError::Unexpected(msg)
    }

    /// Renders the error as display text.
    pub fn message(&self) -> (r: String)
        ensures
            r@ == self.spec_message(),
    {
        match self {
            AppError::NetworkError(m) => {
                let mut s = String::from_str("Network or API error: ");
                s.append(m.as_str());
                s
            },
            AppError::InvalidInput(m) => {
                let mut s = String::from_str("Invalid input: ");
                s.append(m.as_str());
                s
            },
            AppError::NotFound(m) => {
                let mut s = String::from_str("Goat not found: ");
                s.append(m.as_str());
                s
            },
            AppError::Unexpected(m) => {
                let mut s = String::from_str("Unexpected error: ");
                s.append(m.as_str());
                s
            },
        }
    }
}

} // verus!
