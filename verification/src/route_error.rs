//! Errors of the HTTP routes and the status each one is answered with.
use vstd::prelude::*;

verus! {

/// HTTP 401 Unauthorized.
pub const STATUS_UNAUTHORIZED: u16 = 401;

/// HTTP 404 Not Found.
pub const STATUS_NOT_FOUND: u16 = 404;

/// HTTP 409 Conflict.
pub const STATUS_CONFLICT: u16 = 409;

/// HTTP 500 Internal Server Error.
pub const STATUS_INTERNAL_SERVER_ERROR: u16 = 500;

/// What a failed database query reports, as far as the routes tell failures apart.
#[derive(Debug, Clone, Copy, PartialEq, Eq, Structural)]
pub enum DbFailure {
    /// The query found no row.
    NotFound,
    /// An insert broke a unique constraint.
    UniqueViolation,
    /// Any other database failure.
    Other,
}

/// A failure that already carries the HTTP status it is answered with.
#[derive(Debug, Clone, Copy, PartialEq, Eq, Structural)]
pub struct HttpFailure {
    pub status: u16,
}

/// Every way a route can fail.
#[derive(Debug, Clone, Copy, PartialEq, Eq, Structural)]
pub enum RouteError {
    /// No connection could be taken from the database pool.
    PoolError,
    /// A database query failed.
    DbError(DbFailure),
    /// Hashing or checking a password failed.
    BcryptError,
    /// A failure of the route itself, with its own status.
    RouteError(HttpFailure),
}

/// The HTTP status with which a route error is answered.
pub open spec fn spec_status_code(e: RouteError) -> u16 {
    match e {
        RouteError::PoolError => STATUS_INTERNAL_SERVER_ERROR,
        RouteError::DbError(DbFailure::NotFound) => STATUS_NOT_FOUND,
        RouteError::DbError(DbFailure::UniqueViolation) => STATUS_CONFLICT,
        RouteError::DbError(DbFailure::Other) => STATUS_INTERNAL_SERVER_ERROR,
        RouteError::BcryptError => STATUS_INTERNAL_SERVER_ERROR,
        RouteError::RouteError(f) => f.status,
    }
}

impl RouteError {
    /// The HTTP status with which this error is answered: a missing row is
    /// 404, a unique-constraint violation 409, a route failure keeps its own
    /// status, and every other failure is 500.
    pub fn status_code(&self) -> (res: u16)
        ensures
            res == spec_status_code(*self),
    {
        match self {
            RouteError::PoolError => STATUS_INTERNAL_SERVER_ERROR,
            RouteError::DbError(failure) => {
                match failure {
                    DbFailure::NotFound => STATUS_NOT_FOUND,
                    DbFailure::UniqueViolation => STATUS_CONFLICT,
                    DbFailure::Other => STATUS_INTERNAL_SERVER_ERROR,
                }
            },
            RouteError::BcryptError => STATUS_INTERNAL_SERVER_ERROR,
            RouteError::RouteError(failure) => failure.status,
        }
    }

    /// The text shown for the error.
    pub fn description(&self) -> (res: &'static str)
        ensures
            *self is PoolError ==> res@ == "Database Connection Pool Error"@,
            *self is DbError ==> res@ == "Database Error"@,
            *self is BcryptError ==> res@ == "Password Hash Error"@,
            *self is RouteError ==> res@ == "Generic Route Error"@,
    {
        match self {
            RouteError::PoolError => "Database Connection Pool Error",
            RouteError::DbError(_) => "Database Error",
            RouteError::BcryptError => "Password Hash Error",
            RouteError::RouteError(_) => "Generic Route Error",
        }
    }
}

/// The error type of the `bcrypt` crate.
#[verifier::external_type_specification]
#[verifier::external_body]
pub struct ExBcryptError(bcrypt::BcryptError);

/// A failure of the `bcrypt` crate is a password hash error.
impl From<bcrypt::BcryptError> for RouteError {
    fn from(_e: bcrypt::BcryptError) -> (res: Self) {
        RouteError::BcryptError
    }
}

impl vstd::std_specs::convert::FromSpecImpl<bcrypt::BcryptError> for RouteError {
    open spec fn obeys_from_spec() -> bool {
        true
    }

    open spec fn from_spec(v: bcrypt::BcryptError) -> Self {
        RouteError::BcryptError
    }
}

/// The failure that `actix_web::error::ErrorUnauthorized` makes of
/// `reason`, by the status it answers with, read through
/// `as_response_error().status_code()`. Claimed, as that function's
/// documentation and source show: the status is 401 Unauthorized. The
/// reason itself only reaches the log, and is not kept.
#[verifier::external_body]
pub(crate) fn error_unauthorized(reason: &str) -> (res: HttpFailure)
    ensures
        res.status == STATUS_UNAUTHORIZED,
{
    let err = actix_web::error::ErrorUnauthorized(reason.to_string());
    HttpFailure { status: err.as_response_error().status_code().as_u16() }
}

} // verus!
