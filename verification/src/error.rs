//! The error taxonomy: every native error of a backend falls into one of
//! three classes.

use vstd::prelude::*;

verus! {

/// A native error of a backend, normalized.
#[derive(Clone, Debug, PartialEq, Eq)]
pub enum DbError {
    /// The transport failed: the connection is to be probed and reset.
    Io(String),
    /// The backend reported an error under its own numeric code.
    NativeCoded { code: i32, message: String },
    /// Any other error; it has a text, and no code.
    Uncoded(String),
}

/// The status that stands for an error without a code.
pub const UNCODED: i32 = -1;

/// The status of success.
pub const SUCCESS: i32 = 0;

impl DbError {
    /// The numeric status of the error: the backend's own code where it gave
    /// one, else `UNCODED`.
    pub open spec fn code(self) -> int {
        match self {
            DbError::NativeCoded { code, .. } => code as int,
            _ => UNCODED as int,
        }
    }

    /// The text of the error.
    pub open spec fn text(self) -> Seq<char> {
        match self {
            DbError::Io(m) => m@,
            DbError::NativeCoded { message, .. } => message@,
            DbError::Uncoded(m) => m@,
        }
    }

    /// The numeric status of the error.
    pub fn error_code(&self) -> (c: i32)
        ensures
            c == self.code(),
    {
        match self {
            DbError::NativeCoded { code, .. } => *code,
            _ => UNCODED,
        }
    }

    /// The text of the error.
    pub fn message(&self) -> (m: &String)
        ensures
            m@ == self.text(),
    {
        match self {
            DbError::Io(m) => m,
            DbError::NativeCoded { message, .. } => message,
            DbError::Uncoded(m) => m,
        }
    }

    /// Whether the error is a failure of the transport.
    pub fn is_io(&self) -> (r: bool)
        ensures
            r == (*self is Io),
    {
        match self {
            DbError::Io(_) => true,
            _ => false,
        }
    }
}

/// The fault of a connection that was found dead and could not be reset.
#[derive(Clone, Copy, Debug, PartialEq, Eq)]
pub struct ConnectivityError {}

impl ConnectivityError {
    /// The text of the fault.
    pub fn message(&self) -> (m: String)
        ensures
            m@ == "reconnect db error"@,
    {
        "reconnect db error".to_owned()
    }
}

/// The numeric status of an optional error: `SUCCESS` where there is none.
pub open spec fn status_of(error: Option<DbError>) -> int {
    match error {
        Some(e) => e.code(),
        None => SUCCESS as int,
    }
}

} // verus!
