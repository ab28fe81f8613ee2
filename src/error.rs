//! Error values of the library.

use vstd::prelude::*;

verus! {

/// Errors related to databases or message brokers.
#[derive(Debug, Clone, Copy, PartialEq, Eq, Structural)]
pub enum Database {
    /// The search index has not been selected.
    MissingIndex,
    /// Failed to get a connection from the pool.
    Pool,
}

/// The kinds of error.
#[derive(Debug, Clone, Copy, PartialEq, Eq, Structural)]
pub enum ErrorType {
    /// A generic error with no additional information.
    Unspecified,
    /// Errors related to databases.
    Database(Database),
}

/// An error, with the text of its cause and where it occurred.
#[derive(Debug)]
pub struct Error {
    /// The type of the error.
    pub error_type: ErrorType,
    /// The text of the error that caused this one.
    pub cause: Option<String>,
    /// Contextual information about where the error occurred.
    pub context: Option<String>,
}

/// The message that describes a database error.
pub open spec fn database_message(d: Database) -> Seq<char> {
    match d {
        Database::MissingIndex => "Index has not been selected."@,
        Database::Pool => "Failed to get pool."@,
    }
}

/// The message that describes an error type.
pub open spec fn error_type_message(t: ErrorType) -> Seq<char> {
    match t {
        ErrorType::Unspecified => "An unspecified error occurred."@,
        ErrorType::Database(d) => database_message(d),
    }
}

impl Database {
    /// The message that describes this error.
    pub fn to_string(&self) -> (r: String)
        ensures
            r@ == database_message(*self),
    {
        match self {
            Database::MissingIndex => "Index has not been selected.".to_owned(),
            Database::Pool => "Failed to get pool.".to_owned(),
        }
    }
}

impl ErrorType {
    /// The message that describes this error type.
    pub fn to_string(&self) -> (r: String)
        ensures
            r@ == error_type_message(*self),
    {
        match self {
            ErrorType::Unspecified => "An unspecified error occurred.".to_owned(),
            ErrorType::Database(d) => d.to_string(),
        }
    }
}

impl Error {
    /// Creates a new [`Error`].
    pub fn new(error_type: ErrorType, cause: Option<String>, context: Option<String>) -> (r: Self)
        ensures
            r.error_type == error_type,
            r.cause == cause,
            r.context == context,
    {
        Error { error_type, cause, context }
    }

    /// The message that describes this error: that of its type, whatever
    /// its cause and context.
    pub fn to_string(&self) -> (r: String)
        ensures
            r@ == error_type_message(self.error_type),
    {
        self.error_type.to_string()
    }
}

} // verus!
