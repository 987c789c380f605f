//! Error types of the query engine.

use vstd::prelude::*;

verus! {

/// A cloneable error envelope.
///
/// Failures of the caller-supplied fetch operation are carried through the
/// engine inside this uniform wrapper, so every cause is treated alike and
/// can be propagated verbatim to each caller awaiting the fetch.
#[derive(Debug, PartialEq, Eq)]
pub struct Error {
    /// A description of the failure, propagated verbatim to every caller.
    pub message: String,
}

impl Error {
    /// Constructs an error from its message.
    pub fn new(message: String) -> (r: Error)
        ensures
            r.message == message,
    {
        Error { message }
    }
}

impl Clone for Error {
    fn clone(&self) -> (r: Self)
        ensures
            r == *self,
    {
        Error { message: self.message.clone() }
    }
}

/// The requested type does not match the type recorded for the entry.
#[derive(Debug, PartialEq, Eq)]
pub struct TypeMismatchError {
    /// The type tag the caller asked for.
    pub expected: u64,
}

impl Clone for TypeMismatchError {
    fn clone(&self) -> (r: Self)
        ensures
            r == *self,
    {
        TypeMismatchError { expected: self.expected }
    }
}

/// No entry exists for the key the operation required.
#[derive(Debug, PartialEq, Eq)]
pub struct KeyNotFoundError {
    /// The name component of the key that was not found.
    pub key: String,
}

impl Clone for KeyNotFoundError {
    fn clone(&self) -> (r: Self)
        ensures
            r == *self,
    {
        KeyNotFoundError { key: self.key.clone() }
    }
}

/// An error that occurred in a query lookup or mutation.
#[derive(Debug, PartialEq, Eq)]
pub enum QueryError {
    /// The value of the query cannot be read or written at the given type.
    TypeMismatch(TypeMismatchError),
    /// There is no query associated with the key.
    KeyNotFound(KeyNotFoundError),
    /// The query exists but has never resolved to a value.
    NotReady,
    /// The query exists and has a value, but the value is past its
    /// time-to-live.
    StaleValue,
}

impl QueryError {
    /// Constructs the error for an access at the wrong type.
    pub fn type_mismatch(expected: u64) -> (r: QueryError)
        ensures
            r == (QueryError::TypeMismatch(TypeMismatchError { expected })),
    {
        QueryError::TypeMismatch(TypeMismatchError { expected })
    }

    /// Constructs the error for a key without an entry.
    pub fn key_not_found(key: String) -> (r: QueryError)
        ensures
            r == (QueryError::KeyNotFound(KeyNotFoundError { key })),
    {
        QueryError::KeyNotFound(KeyNotFoundError { key })
    }
}

impl Clone for QueryError {
    fn clone(&self) -> (r: Self)
        ensures
            r == *self,
    {
        match self {
            QueryError::TypeMismatch(e) => QueryError::TypeMismatch(e.clone()),
            QueryError::KeyNotFound(e) => QueryError::KeyNotFound(e.clone()),
            QueryError::NotReady => QueryError::NotReady,
            QueryError::StaleValue => QueryError::StaleValue,
        }
    }
}

} // verus!
