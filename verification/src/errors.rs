//! The data-access layer's error vocabulary. Absence of a row is never an
//! error: lookups return `Option` and deletion returns `bool`. Errors are
//! reserved for uniqueness conflicts and infrastructure failures.

use vstd::prelude::*;

verus! {

/// Outcome classification for failed store operations. Each variant carries
/// the underlying driver's description, for logging.
#[derive(Debug)]
pub enum DbError {
    /// A uniqueness rule (the `email` column) was violated by a create or
    /// update statement.
    ConstraintViolation(String),
    /// The connection pool could not supply a connection.
    StoreUnavailable(String),
    /// Any other statement-level failure.
    QueryFailed(String),
}

impl Clone for DbError {
    fn clone(&self) -> (res: Self)
        ensures
            res == *self,
    {
        match self {
            DbError::ConstraintViolation(s) => DbError::ConstraintViolation(s.clone()),
            DbError::StoreUnavailable(s) => DbError::StoreUnavailable(s.clone()),
            DbError::QueryFailed(s) => DbError::QueryFailed(s.clone()),
        }
    }
}

impl DbError {
    /// The description carried by the variant.
    pub fn detail(&self) -> (r: &String)
        ensures
            self is ConstraintViolation ==> r == self->ConstraintViolation_0,
            self is StoreUnavailable ==> r == self->StoreUnavailable_0,
            self is QueryFailed ==> r == self->QueryFailed_0,
    {
        match self {
            DbError::ConstraintViolation(s) => s,
            DbError::StoreUnavailable(s) => s,
            DbError::QueryFailed(s) => s,
        }
    }
}

} // verus!
