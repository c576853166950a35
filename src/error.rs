//! Errors of the coordination operations.
use vstd::prelude::*;

verus! {

/// Why an operation failed.
#[derive(Clone, Debug)]
pub enum ReviewError {
    /// The lock was not obtained within the retry budget.
    LockTimeout,
    /// The document or the entry is missing.
    NotFound(String),
    /// The document or a timestamp in it is not valid.
    Parse(String),
    /// An agent, session or lock-owner identifier is malformed.
    InvalidId(String),
    /// The request contradicts what the document already holds.
    Conflict(String),
    /// Reading or writing outside the document failed.
    Io(String),
}

impl ReviewError {
    /// A one-line description of the failure.
    pub fn message(&self) -> (r: String)
        ensures
            match self {
                ReviewError::LockTimeout => r@ == "LOCK_TIMEOUT"@,
                ReviewError::NotFound(m) => r@ == m@,
                ReviewError::Parse(m) => r@ == m@,
                ReviewError::InvalidId(m) => r@ == m@,
                ReviewError::Conflict(m) => r@ == m@,
                ReviewError::Io(m) => r@ == m@,
            },
    {
        match self {
            ReviewError::LockTimeout => "LOCK_TIMEOUT".to_owned(),
            ReviewError::NotFound(m) => m.clone(),
            ReviewError::Parse(m) => m.clone(),
            ReviewError::InvalidId(m) => m.clone(),
            ReviewError::Conflict(m) => m.clone(),
            ReviewError::Io(m) => m.clone(),
        }
    }

    /// Whether this is the lock timeout, which a caller may retry as a whole.
    pub fn is_lock_timeout(&self) -> (r: bool)
        ensures
            r == (self is LockTimeout),
    {
        match self {
            ReviewError::LockTimeout => true,
            _ => false,
        }
    }
}

} // verus!
