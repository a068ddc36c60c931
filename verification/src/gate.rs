//! The request-time authorization gate.
//!
//! `authenticate` is the pure core of the request extractor: it takes the
//! raw `Authorization` header value, verifies the bearer token, re-validates
//! the time bounds itself — deliberately not trusting the signing library's
//! own expiry handling — resolves the principal, and enforces the
//! email-verification gate. Every ambiguity is a denial; nothing here
//! resolves to an implicit allow.

use vstd::prelude::*;

use crate::errors::AppError;
use crate::errors::AuthError;
use crate::token::decoded_of;
use crate::token::token_of;
use crate::token::verify_jwt;
use crate::users::has_user_id;
use crate::users::index_of_user_id;
use crate::users::LoggedUser;
use crate::users::User;
use crate::users::UserDirectory;

verus! {

/// The principal resolved for one request: the account and the role its
/// token carried. Never persisted; built anew by each `authenticate`.
#[derive(Debug)]
pub struct AuthenticatedUser {
    pub user: User,
    pub role: String,
}

impl AuthenticatedUser {
    /// The only authorization primitive: exactly the role string `admin`
    /// grants administrator rights; any other string, case variants
    /// included, does not.
    pub fn is_admin(&self) -> (r: bool)
        ensures
            r == (self.role@ == "admin"@),
    {
        self.role.eq(&String::from_str("admin"))
    }
}

/// Check that a logged-in identity resolves to an account that holds the
/// admin role: `Ok` exactly when the account exists and its stored role is
/// the string `admin`; a missing account and any other role are the same
/// plain denial.
pub fn validate_admin_user(logged_user: &LoggedUser, users: &UserDirectory) -> (r: Result<
    (),
    AppError,
>)
    requires
        users.wf(),
    ensures
        !has_user_id(users@, logged_user.id@) ==> (r matches Err(e) && e is Unauthorized),
        (has_user_id(users@, logged_user.id@) && users@[index_of_user_id(
            users@,
            logged_user.id@,
        )].role != "admin"@) ==> (r matches Err(e) && e is Unauthorized),
        (has_user_id(users@, logged_user.id@) && users@[index_of_user_id(
            users@,
            logged_user.id@,
        )].role == "admin"@) ==> r is Ok,
{
    match users.find(&logged_user.id) {
        Some(user) => {
            if user.role.eq(&String::from_str("admin")) {
                Ok(())
            } else {
                Err(AppError::Unauthorized)
            }
        },
        None => Err(AppError::Unauthorized),
    }
}

/// Whether the header value starts with the bearer marker.
pub open spec fn bearer_prefix(header: Seq<char>) -> bool {
    header.len() >= 7 && header.subrange(0, 7) == "Bearer "@
}

/// The token carried after the bearer marker.
pub open spec fn bearer_token(header: Seq<char>) -> Seq<char> {
    header.subrange(7, header.len() as int)
}

/// Split the token off a `Bearer `-prefixed header value; `None` exactly
/// when the marker is absent.
fn strip_bearer(header: &str) -> (r: Option<String>)
    ensures
        (match r {
            Some(t) => bearer_prefix(header@) && t@ == bearer_token(header@),
            None => !bearer_prefix(header@),
        }),
{
    let n = header.unicode_len();
    if n < 7 {
        return None;
    }
    let prefix = String::from_str(header.substring_char(0, 7));
    if prefix.eq(&String::from_str("Bearer ")) {
        Some(String::from_str(header.substring_char(7, n)))
    } else {
        None
    }
}

/// Decide a request from its `Authorization` header value.
///
/// Failures, each terminal and fail-closed: a missing header or missing
/// bearer marker and every token the verifier rejects are `TokenMalformed`;
/// a token whose own bounds exclude `now` — expiry in the past or issuance
/// in the future, re-checked here regardless of what the signing library
/// validated — is `TokenExpired`; a subject no account resolves for is
/// `PrincipalNotFound` (reported to clients as a plain denial, not as a
/// missing resource); an unverified account, when the deployment enforces
/// verification, is the distinguished `UnverifiedAccount`. Otherwise the
/// principal carries the resolved account and the token's role.
pub fn authenticate(
    header: Option<&str>,
    users: &UserDirectory,
    access_secret: &str,
    enforce_verification: bool,
    now: i64,
) -> (r: Result<AuthenticatedUser, AuthError>)
    requires
        users.wf(),
    ensures
        (match header {
            None => r matches Err(e) && e == AuthError::TokenMalformed,
            Some(h) => if !bearer_prefix(h@) {
                r matches Err(e) && e == AuthError::TokenMalformed
            } else {
                match decoded_of(bearer_token(h@), access_secret@) {
                    None => r matches Err(e) && e == AuthError::TokenMalformed,
                    Some(c) => ({
                        if c.exp < now || c.iat > now {
                            r matches Err(e) && e == AuthError::TokenExpired
                        } else if !has_user_id(users@, c.sub) {
                            r matches Err(e) && e == AuthError::PrincipalNotFound
                        } else if enforce_verification && !users@[index_of_user_id(
                            users@,
                            c.sub,
                        )].verified {
                            r matches Err(e) && e == AuthError::UnverifiedAccount
                        } else {
                            r matches Ok(a) && a.user@ == users@[index_of_user_id(users@, c.sub)]
                                && a.role@ == c.role
                        }
                    }),
                }
            },
        }),
        forall|sub: Seq<char>, role: Seq<char>, iat: i64, exp: i64, jti: Seq<char>|
            (header matches Some(h) && bearer_prefix(h@) && bearer_token(h@) == #[trigger] token_of(
                sub,
                role,
                iat,
                exp,
                jti,
                access_secret@,
            )) ==> ({
                if exp < now || iat > now {
                    r matches Err(e) && e == AuthError::TokenExpired
                } else if !has_user_id(users@, sub) {
                    r matches Err(e) && e == AuthError::PrincipalNotFound
                } else if enforce_verification && !users@[index_of_user_id(
                    users@,
                    sub,
                )].verified {
                    r matches Err(e) && e == AuthError::UnverifiedAccount
                } else {
                    r matches Ok(a) && a.user@ == users@[index_of_user_id(users@, sub)]
                        && a.role@ == role
                }
            }),
        r matches Err(e) ==> (e == AuthError::TokenMalformed || e == AuthError::TokenExpired || e
            == AuthError::PrincipalNotFound || e == AuthError::UnverifiedAccount),
{
    let header_value = match header {
        Some(h) => h,
        None => {
            return Err(AuthError::TokenMalformed);
        },
    };
    let token = match strip_bearer(header_value) {
        Some(t) => t,
        None => {
            return Err(AuthError::TokenMalformed);
        },
    };
    let claims = match verify_jwt(token.as_str(), access_secret) {
        Ok(c) => c,
        Err(_) => {
            return Err(AuthError::TokenMalformed);
        },
    };
    if claims.exp < now || claims.iat > now {
        return Err(AuthError::TokenExpired);
    }
    let user = match users.find(&claims.sub) {
        Some(u) => u,
        None => {
            return Err(AuthError::PrincipalNotFound);
        },
    };
    if enforce_verification && !user.verified {
        return Err(AuthError::UnverifiedAccount);
    }
    Ok(AuthenticatedUser { user, role: claims.role })
}

} // verus!
