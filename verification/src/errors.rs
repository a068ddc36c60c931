//! Error taxonomy of the authentication subsystem and the HTTP-facing error
//! type it is mapped to.
//!
//! `AuthError` names the precise reason an authentication step failed; the
//! subsystem fails closed, so every ambiguity becomes a denial. `AppError` is
//! what the controller layer reports: the fine-grained reasons collapse so
//! that a caller cannot distinguish an unknown account from a wrong password
//! or a deleted account from a bad token.

use vstd::prelude::*;

verus! {

/// Why an authentication step failed, before the reasons are collapsed for
/// the caller.
#[derive(Clone, Copy, Debug, PartialEq, Eq, Structural)]
pub enum AuthError {
    /// Unknown identity or wrong password; always reported identically.
    InvalidCredentials,
    /// The token is not one this subsystem issued: bad signature, wrong
    /// secret, or unparseable.
    TokenMalformed,
    /// The token's own time bounds exclude the current instant.
    TokenExpired,
    /// The refresh-token record was revoked or rotated away.
    TokenRevoked,
    /// The token verified but its subject no longer resolves to an account.
    PrincipalNotFound,
    /// The account exists but has not verified its email address.
    UnverifiedAccount,
    /// The backing store refused the operation.
    StorageUnavailable,
    /// Password hashing failed (for example, a malformed stored salt).
    HashingFailure,
}

/// Failures of the backing store's own lifecycle, reported by the host
/// program's setup code.
#[derive(Debug)]
pub enum DbError {
    MigrationFailed(String),
    NotFound,
}

/// The error type the controller layer reports to HTTP clients.
#[derive(Debug)]
pub enum AppError {
    InternalError,
    BadRequest(String),
    Unauthorized,
    NotFound,
    BadGateway,
    Forbidden(String),
    Conflict,
    UnverifiedUser(String),
}

pub type AppResult<T> = Result<T, AppError>;

/// The JSON body reported alongside a failed response.
#[derive(Debug)]
pub struct ErrorResponse {
    pub error: String,
    pub message: String,
}

/// The JSON body of a trivially successful response.
#[derive(Debug)]
pub struct OkResponse {
    pub ok: bool,
}

impl OkResponse {
    pub fn new() -> (r: Self)
        ensures
            r.ok,
    {
        Self { ok: true }
    }
}

impl Default for OkResponse {
    fn default() -> (r: Self)
        ensures
            r.ok,
    {
        OkResponse::new()
    }
}

impl AuthError {
    /// How each internal failure reason is reported to the caller: everything
    /// that must not leak detail collapses to `Unauthorized`, infrastructure
    /// failures become an opaque internal error, and an unverified account
    /// keeps its distinguished outcome so the caller can offer a resend link.
    pub fn into_app_error(self) -> (r: AppError)
        ensures
            (self == AuthError::InvalidCredentials
                || self == AuthError::TokenMalformed
                || self == AuthError::TokenExpired
                || self == AuthError::TokenRevoked
                || self == AuthError::PrincipalNotFound) ==> r is Unauthorized,
            self == AuthError::UnverifiedAccount ==> (r matches AppError::UnverifiedUser(m)
                && m@ == "User has not verified their email."@),
            (self == AuthError::StorageUnavailable || self == AuthError::HashingFailure)
                ==> r is InternalError,
    {
        match self {
            AuthError::InvalidCredentials => AppError::Unauthorized,
            AuthError::TokenMalformed => AppError::Unauthorized,
            AuthError::TokenExpired => AppError::Unauthorized,
            AuthError::TokenRevoked => AppError::Unauthorized,
            AuthError::PrincipalNotFound => AppError::Unauthorized,
            AuthError::UnverifiedAccount => AppError::UnverifiedUser(
                String::from_str("User has not verified their email."),
            ),
            AuthError::StorageUnavailable => AppError::InternalError,
            AuthError::HashingFailure => AppError::InternalError,
        }
    }
}

impl AppError {
    /// The HTTP status each variant maps to. `UnverifiedUser` is a
    /// see-other redirect rather than a plain denial, so the client can be
    /// steered to a resend-verification affordance.
    pub open spec fn spec_status_code(&self) -> u16 {
        match self {
            AppError::InternalError => 500,
            AppError::BadRequest(_) => 400,
            AppError::Unauthorized => 401,
            AppError::NotFound => 404,
            AppError::BadGateway => 502,
            AppError::Forbidden(_) => 403,
            AppError::Conflict => 409,
            AppError::UnverifiedUser(_) => 303,
        }
    }

    pub fn status_code(&self) -> (code: u16)
        ensures
            code == self.spec_status_code(),
    {
        match self {
            AppError::InternalError => 500,
            AppError::BadRequest(_) => 400,
            AppError::Unauthorized => 401,
            AppError::NotFound => 404,
            AppError::BadGateway => 502,
            AppError::Forbidden(_) => 403,
            AppError::Conflict => 409,
            AppError::UnverifiedUser(_) => 303,
        }
    }

    /// The stable machine-readable label of each variant.
    pub fn label(&self) -> (s: String)
        ensures
            self is InternalError ==> s@ == "internal_error"@,
            self is BadRequest ==> s@ == "bad_request"@,
            self is Unauthorized ==> s@ == "unauthorized"@,
            self is NotFound ==> s@ == "not_found"@,
            self is BadGateway ==> s@ == "bad_gateway"@,
            self is Forbidden ==> s@ == "forbidden"@,
            self is Conflict ==> s@ == "conflict"@,
            self is UnverifiedUser ==> s@ == "unverified_user"@,
    {
        match self {
            AppError::InternalError => String::from_str("internal_error"),
            AppError::BadRequest(_) => String::from_str("bad_request"),
            AppError::Unauthorized => String::from_str("unauthorized"),
            AppError::NotFound => String::from_str("not_found"),
            AppError::BadGateway => String::from_str("bad_gateway"),
            AppError::Forbidden(_) => String::from_str("forbidden"),
            AppError::Conflict => String::from_str("conflict"),
            AppError::UnverifiedUser(_) => String::from_str("unverified_user"),
        }
    }

    /// The human-readable message carried in the response body: the payload
    /// where the variant carries one, a fixed sentence otherwise.
    pub fn message(&self) -> (s: String)
        ensures
            self is InternalError ==> s@ == "Internal server error."@,
            self matches AppError::BadRequest(m) ==> s@ == m@,
            self is Unauthorized ==> s@ == "Unauthorized."@,
            self is NotFound ==> s@ == "Resource not found."@,
            self is BadGateway ==> s@ == "Bad gateway."@,
            self matches AppError::Forbidden(m) ==> s@ == m@,
            self is Conflict ==> s@ == "Conflict occurred."@,
            self matches AppError::UnverifiedUser(m) ==> s@ == m@,
    {
        match self {
            AppError::InternalError => String::from_str("Internal server error."),
            AppError::BadRequest(m) => m.clone(),
            AppError::Unauthorized => String::from_str("Unauthorized."),
            AppError::NotFound => String::from_str("Resource not found."),
            AppError::BadGateway => String::from_str("Bad gateway."),
            AppError::Forbidden(m) => m.clone(),
            AppError::Conflict => String::from_str("Conflict occurred."),
            AppError::UnverifiedUser(m) => m.clone(),
        }
    }

    /// The full response body for this error, pairing the stable label with
    /// the human-readable message.
    pub fn error_response(&self) -> (r: ErrorResponse)
        ensures
            self is InternalError ==> r.error@ == "internal_error"@ && r.message@
                == "Internal server error."@,
            self matches AppError::BadRequest(m) ==> r.error@ == "bad_request"@ && r.message@
                == m@,
            self is Unauthorized ==> r.error@ == "unauthorized"@ && r.message@
                == "Unauthorized."@,
            self is NotFound ==> r.error@ == "not_found"@ && r.message@ == "Resource not found."@,
            self is BadGateway ==> r.error@ == "bad_gateway"@ && r.message@ == "Bad gateway."@,
            self matches AppError::Forbidden(m) ==> r.error@ == "forbidden"@ && r.message@ == m@,
            self is Conflict ==> r.error@ == "conflict"@ && r.message@ == "Conflict occurred."@,
            self matches AppError::UnverifiedUser(m) ==> r.error@ == "unverified_user"@
                && r.message@ == m@,
    {
        ErrorResponse { error: self.label(), message: self.message() }
    }
}

} // verus!
