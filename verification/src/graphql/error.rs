//! Errors that queries and mutations answer with.

use vstd::prelude::*;

use crate::ids::{fails_with, parse_id, parses_to};

verus! {

/// Why a query or mutation failed.
#[derive(Debug, Clone)]
pub enum GraphqlError {
    /// An identifier argument that is not a UUID: the text given, and the
    /// text of the `uuid` crate's error for it.
    InvalidId { text: String, reason: String },
    /// The expense to edit does not exist.
    ExpenseNotFound,
    /// A split type other than `equal`, `exact`, `percentage` or `shares`; holds the text given.
    InvalidSplitType(String),
    /// The operation needs an authenticated caller, which the service does not
    /// have yet; holds the full message.
    NotImplemented(&'static str),
    /// The system clock reads a time before the Unix epoch.
    ClockBeforeEpoch,
}

/// The message of an error, where the service has it: an invalid
/// identifier answers with the `uuid` crate's error text; the message of the
/// clock error is the standard library's, which the service does not hold.
pub open spec fn error_message(e: GraphqlError) -> Option<Seq<char>> {
    match e {
        GraphqlError::InvalidId { text: _, reason } => Some(reason@),
        GraphqlError::ExpenseNotFound => Some("Expense not found"@),
        GraphqlError::InvalidSplitType(text) => Some("Invalid split_type: "@ + text@),
        GraphqlError::NotImplemented(message) => Some(message@),
        GraphqlError::ClockBeforeEpoch => None,
    }
}

impl GraphqlError {
    /// The message that the service writes for this error, where it writes one.
    pub fn message(&self) -> (text: Option<String>)
        ensures
            match (text, error_message(*self)) {
                (Some(t), Some(m)) => t@ == m,
                (None, None) => true,
                _ => false,
            },
    {
        match self {
            GraphqlError::InvalidId { text: _, reason } => Some(reason.clone()),
            GraphqlError::ExpenseNotFound => Some(String::from_str("Expense not found")),
            GraphqlError::InvalidSplitType(text) => {
                let mut message = String::from_str("Invalid split_type: ");
                message.append(text.as_str());
                Some(message)
            },
            GraphqlError::NotImplemented(message) => Some(String::from_str(message)),
            GraphqlError::ClockBeforeEpoch => None,
        }
    }
}

/// The error is the invalid-identifier error for the text `given`.
pub open spec fn is_invalid_id(e: GraphqlError, given: String) -> bool {
    e matches GraphqlError::InvalidId { text, reason } && text == given && fails_with(given@, reason@)
}

/// Parses an identifier argument.
pub fn parse_id_argument(text: &String) -> (result: Result<u128, GraphqlError>)
    ensures
        match result {
            Ok(id) => parses_to(text@, id),
            Err(e) => is_invalid_id(e, *text),
        },
{
    match parse_id(text.as_str()) {
        Ok(id) => Ok(id),
        Err(reason) => Err(GraphqlError::InvalidId { text: text.clone(), reason }),
    }
}

} // verus!
