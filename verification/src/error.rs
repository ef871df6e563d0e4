//! Error taxonomy shared by the data-access layer and the route layer.
//!
//! The data-access layer converts store-specific failures into this
//! taxonomy and never retries; the route layer maps these errors onto
//! externally visible status codes.
use vstd::prelude::*;
use vstd::string::StringExecFns;

verus! {

/// The service-wide error taxonomy.
#[derive(Clone, Copy, Debug, PartialEq, Eq, Structural)]
pub enum Error {
    /// The requested row does not exist.
    NotFound,
    /// A foreign-key or uniqueness constraint was violated.
    ConstraintViolation,
    /// The request carried no valid credential.
    Unauthorized,
    /// The credential is valid but the acting user does not own the target.
    Forbidden,
    /// The request itself is malformed (bad body, zero or negative page size).
    BadRequest,
    /// The connection pool is exhausted.
    ServiceUnavailable,
    /// An unclassified store failure.
    Internal,
}

/// The failure kinds the underlying store can report for a single call.
#[derive(Clone, Copy, Debug, PartialEq, Eq, Structural)]
pub enum StoreFailure {
    /// The query matched no row.
    RowNotFound,
    /// An insert or delete violated a foreign-key relation.
    ForeignKeyViolation,
    /// An insert violated a uniqueness constraint.
    UniqueViolation,
    /// Any other failure of the store.
    Other,
}

/// How a store failure is classified into the service taxonomy.
pub open spec fn classify_store_failure(f: StoreFailure) -> Error {
    match f {
        StoreFailure::RowNotFound => Error::NotFound,
        StoreFailure::ForeignKeyViolation => Error::ConstraintViolation,
        StoreFailure::UniqueViolation => Error::ConstraintViolation,
        StoreFailure::Other => Error::Internal,
    }
}

/// Converts a store failure into the service taxonomy; no failure is
/// silently swallowed and nothing is retried.
pub fn handle_store_error(failure: StoreFailure) -> (r: Error)
    ensures
        r == classify_store_failure(failure),
{
    match failure {
        StoreFailure::RowNotFound => Error::NotFound,
        StoreFailure::ForeignKeyViolation => Error::ConstraintViolation,
        StoreFailure::UniqueViolation => Error::ConstraintViolation,
        StoreFailure::Other => Error::Internal,
    }
}

impl Error {
    /// A short machine-readable tag for the error body sent to clients.
    pub fn tag(&self) -> (r: String)
        ensures
            *self == Error::NotFound ==> r@ == "not found"@,
            *self == Error::ConstraintViolation ==> r@ == "constraint violation"@,
            *self == Error::Unauthorized ==> r@ == "unauthorized"@,
            *self == Error::Forbidden ==> r@ == "forbidden"@,
            *self == Error::BadRequest ==> r@ == "bad request"@,
            *self == Error::ServiceUnavailable ==> r@ == "service unavailable"@,
            *self == Error::Internal ==> r@ == "internal error"@,
    {
        match self {
            Error::NotFound => String::from_str("not found"),
            Error::ConstraintViolation => String::from_str("constraint violation"),
            Error::Unauthorized => String::from_str("unauthorized"),
            Error::Forbidden => String::from_str("forbidden"),
            Error::BadRequest => String::from_str("bad request"),
            Error::ServiceUnavailable => String::from_str("service unavailable"),
            Error::Internal => String::from_str("internal error"),
        }
    }
}

} // verus!
