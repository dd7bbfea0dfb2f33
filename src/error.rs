use vstd::prelude::*;

verus! {

/// The kinds of failure that every operation of the library reports.
#[derive(Debug, Clone, PartialEq, Eq)]
pub enum Error {
    /// The backend cannot be reached.
    Connection(String),
    /// Waiting for a resource took too long.
    Timeout(String),
    /// A backend reported a failure while executing.
    Database(String),
    /// A transport, remote-call or task failure.
    Runtime(String),
    /// A value could not be converted to the requested type.
    FromValue(String),
    /// A row or column index is out of bounds.
    OutOfRange(String),
    /// A query builder was left in a malformed state.
    QueryBuilder(String),
    /// The caller supplied an unsupported SQL construct or malformed parameters.
    Argument(String),
}

/// The kind of an [`Error`], without its message.
#[derive(Debug, Clone, Copy, PartialEq, Eq, Structural)]
pub enum ErrorKind {
    Connection,
    Timeout,
    Database,
    Runtime,
    FromValue,
    OutOfRange,
    QueryBuilder,
    Argument,
}

impl Error {
    pub open spec fn kind(&self) -> ErrorKind {
        match self {
            Error::Connection(_) => ErrorKind::Connection,
            Error::Timeout(_) => ErrorKind::Timeout,
            Error::Database(_) => ErrorKind::Database,
            Error::Runtime(_) => ErrorKind::Runtime,
            Error::FromValue(_) => ErrorKind::FromValue,
            Error::OutOfRange(_) => ErrorKind::OutOfRange,
            Error::QueryBuilder(_) => ErrorKind::QueryBuilder,
            Error::Argument(_) => ErrorKind::Argument,
        }
    }

    /// The kind of this error.
    pub fn error_kind(&self) -> (r: ErrorKind)
        ensures
            r == self.kind(),
    {
        match self {
            Error::Connection(_) => ErrorKind::Connection,
            Error::Timeout(_) => ErrorKind::Timeout,
            Error::Database(_) => ErrorKind::Database,
            Error::Runtime(_) => ErrorKind::Runtime,
            Error::FromValue(_) => ErrorKind::FromValue,
            Error::OutOfRange(_) => ErrorKind::OutOfRange,
            Error::QueryBuilder(_) => ErrorKind::QueryBuilder,
            Error::Argument(_) => ErrorKind::Argument,
        }
    }

    /// The message carried by this error.
    pub fn message(&self) -> (r: &String)
        ensures
            r == match self {
                Error::Connection(m) => m,
                Error::Timeout(m) => m,
                Error::Database(m) => m,
                Error::Runtime(m) => m,
                Error::FromValue(m) => m,
                Error::OutOfRange(m) => m,
                Error::QueryBuilder(m) => m,
                Error::Argument(m) => m,
            },
    {
        match self {
            Error::Connection(m) => m,
            Error::Timeout(m) => m,
            Error::Database(m) => m,
            Error::Runtime(m) => m,
            Error::FromValue(m) => m,
            Error::OutOfRange(m) => m,
            Error::QueryBuilder(m) => m,
            Error::Argument(m) => m,
        }
    }
}

/// Result type of the library.
pub type Result<T> = core::result::Result<T, Error>;

} // verus!

verus! {

/// `r` is the outcome that `s` describes: the same value, or an error of the
/// same kind.
pub open spec fn outcome_is<T>(r: core::result::Result<T, Error>, s: core::result::Result<T, ErrorKind>) -> bool {
    match (r, s) {
        (Ok(a), Ok(b)) => a == b,
        (Err(e), Err(k)) => e.kind() == k,
        _ => false,
    }
}

} // verus!

verus! {

/// The outcome of an operation in specifications: a value or the kind of
/// error.
pub type Outcome<T> = core::result::Result<T, ErrorKind>;

} // verus!
