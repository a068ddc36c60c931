//! The operations the controller layer exposes: login — by password or
//! through a completed OAuth exchange — refresh, logout, registration, and
//! password change. Each is a pure function of its inputs,
//! the injected directory and store, and the wall-clock instant the caller
//! read — there is no hidden state, so every flow is checked end to end.
//!
//! Denials never leak detail: an unknown email and a wrong password produce
//! the same `Unauthorized` answer, and a missing, expired, revoked or
//! foreign refresh token does too.

use vstd::prelude::*;

use crate::config::JwtConfig;
use crate::credentials::argon2_of;
use crate::credentials::generate_salt;
use crate::credentials::hash_password;
use crate::credentials::hashable_password;
use crate::credentials::verify_password;
use crate::errors::AppError;
use crate::errors::AuthError;
use crate::errors::OkResponse;
use crate::gate::AuthenticatedUser;
use crate::store::count_active;
use crate::store::hash_of;
use crate::store::has_hash;
use crate::store::index_of_hash;
use crate::store::owned_by;
use crate::store::RecordView;
use crate::store::RefreshTokenStore;
use crate::token::create_token;
use crate::token::token_of;
use crate::users::has_email;
use crate::users::has_user_id;
use crate::users::index_of_email;
use crate::users::index_of_user_id;
use crate::users::NewUser;
use crate::users::User;
use crate::users::UserDirectory;
use crate::users::UserView;
use crate::validation::is_valid_email;
use crate::validation::is_valid_username;
use crate::validation::valid_email;
use crate::validation::valid_username;

verus! {

/// The outcome of a credential check, with a note for the caller.
pub enum ValidateResult<'a> {
    Error(&'a str),
    Found(&'a str),
}

/// The details a registration request carries.
#[derive(Clone, Debug)]
pub struct RegisterUserBody {
    pub username: String,
    pub email: String,
    pub password: String,
}

/// The identifier/password pair a login request carries.
#[derive(Clone, Debug)]
pub struct LoginCredentials {
    pub email: String,
    pub password: String,
}

/// The token pair handed back on a successful login.
#[derive(Debug)]
pub struct LoginResponse {
    pub access_token: String,
    pub refresh_token: String,
}

/// The query parameters of an OAuth provider callback.
#[derive(Clone, Debug)]
pub struct QueryCode {
    pub code: String,
    pub state: String,
}

/// The tokens the OAuth provider returns from the code exchange.
#[derive(Clone, Debug)]
pub struct OAuthResponse {
    pub access_token: String,
    pub id_token: String,
}

/// What the provider reports about the account behind a completed code
/// exchange, as plain values.
#[derive(Clone, Debug)]
pub struct GoogleUserResult {
    pub id: String,
    pub email: String,
    pub verified_email: bool,
    pub name: String,
    pub given_name: String,
    pub family_name: String,
    pub picture: String,
}

/// The body of a refresh or logout request: the raw refresh token.
#[derive(Clone, Debug)]
pub struct RefreshTokenBody {
    pub refresh_token: String,
}

/// The fresh token pair handed back on a successful refresh.
#[derive(Debug)]
pub struct RefreshResponse {
    pub access_token: String,
    pub refresh_token: String,
}

/// The fields an account-update request may carry.
#[derive(Clone, Debug)]
pub struct UpdateInformationBody {
    pub username: Option<String>,
    pub email: Option<String>,
}

/// The body of a password-change request.
#[derive(Clone, Debug)]
pub struct PasswordUpdateRequest {
    pub current_password: String,
    pub new_password: String,
}

/// The reasons a login attempt is denied as a plain `Unauthorized`: the
/// email resolves to no account, the account has no stored credential, or
/// the presented password does not hash to the stored hash.
pub open spec fn invalid_login_credentials(
    users: Seq<UserView>,
    email: Seq<char>,
    password: Seq<char>,
) -> bool {
    !has_email(users, email) || ({
        let u = users[index_of_email(users, email)];
        ||| u.password_hash is None
        ||| u.password_salt is None
        ||| (u.password_hash matches Some(h) && u.password_salt matches Some(s) && argon2_of(
            password,
            s,
        ) != h)
    })
}

/// Log a user in by email and password.
///
/// An unknown email, an account without a stored credential, and a wrong
/// password are all answered by the same plain `Unauthorized`, so a caller
/// cannot enumerate accounts; hashing and storage failures surface as the
/// opaque internal error. On success the caller receives an access token
/// minted for the account's id and role and a fresh refresh token whose
/// record — holding only the hash of the raw value — is added to the store.
pub fn login(
    credentials: &LoginCredentials,
    users: &UserDirectory,
    store: &mut RefreshTokenStore,
    config: &JwtConfig,
    now: i64,
) -> (r: Result<LoginResponse, AppError>)
    requires
        users.wf(),
        old(store).wf(),
        0 <= now,
        0 <= config.access_token_expiration,
        0 <= config.refresh_token_expiration,
        now + 60 * config.access_token_expiration <= i64::MAX,
        now + 60 * config.refresh_token_expiration <= i64::MAX,
    ensures
        final(store).wf(),
        r matches Err(e) ==> final(store)@ == old(store)@ && (e is Unauthorized
            || e is InternalError),
        !has_email(users@, credentials.email@) ==> (r matches Err(e) && e is Unauthorized),
        (has_email(users@, credentials.email@) && ({
            let u = users@[index_of_email(users@, credentials.email@)];
            u.password_hash is None || u.password_salt is None
        })) ==> (r matches Err(e) && e is Unauthorized),
        (has_email(users@, credentials.email@) && ({
            let u = users@[index_of_email(users@, credentials.email@)];
            u.password_hash matches Some(h) && u.password_salt matches Some(s) && argon2_of(
                credentials.password@,
                s,
            ) != h
        })) ==> (r matches Err(e) && (e is Unauthorized || e is InternalError)),
        (has_email(users@, credentials.email@) && hashable_password(credentials.password@) && ({
            let u = users@[index_of_email(users@, credentials.email@)];
            u.password_hash matches Some(h) && u.password_salt matches Some(s) && s.len() == 16
                && argon2_of(credentials.password@, s) != h
        })) ==> (r matches Err(e) && e is Unauthorized),
        (r matches Err(e) && e is Unauthorized) ==> invalid_login_credentials(
            users@,
            credentials.email@,
            credentials.password@,
        ),
        r matches Ok(resp) ==> ({
            let u = users@[index_of_email(users@, credentials.email@)];
            &&& has_email(users@, credentials.email@)
            &&& u.password_hash matches Some(h) && u.password_salt matches Some(s) && argon2_of(
                credentials.password@,
                s,
            ) == h
            &&& (exists|jti: Seq<char>|
                resp.access_token@ == #[trigger] token_of(
                    u.id,
                    u.role,
                    now,
                    (now + 60 * config.access_token_expiration) as i64,
                    jti,
                    config.access_secret@,
                ))
            &&& !has_hash(old(store)@, hash_of(resp.refresh_token@))
            &&& final(store)@ =~= old(store)@.push(
                (RecordView {
                    token_hash: hash_of(resp.refresh_token@),
                    user_id: Some(u.id),
                    created_at: now,
                    expires_at: (now + 60 * config.refresh_token_expiration) as i64,
                    parent_token_hash: None,
                    revoked: false,
                }),
            )
        }),
{
    let user = match users.find_by_email(&credentials.email) {
        Some(u) => u,
        None => {
            return Err(AuthError::InvalidCredentials.into_app_error());
        },
    };
    let (stored_hash, stored_salt) = match (&user.password_hash, &user.password_salt) {
        (Some(h), Some(s)) => (h, s),
        _ => {
            return Err(AuthError::InvalidCredentials.into_app_error());
        },
    };
    let password_matches = match verify_password(
        credentials.password.as_str(),
        stored_hash,
        stored_salt,
    ) {
        Ok(b) => b,
        Err(e) => {
            return Err(e.into_app_error());
        },
    };
    if !password_matches {
        return Err(AuthError::InvalidCredentials.into_app_error());
    }
    let uid_str = user.id.as_str();
    let role_str = user.role.as_str();
    let access_secret = config.access_secret.as_str();
    let access_token = create_token(
        uid_str,
        access_secret,
        config.access_token_expiration,
        role_str,
        now,
    );
    proof {
        let jti = choose|jti: Seq<char>|
            access_token@ == #[trigger] token_of(
                uid_str@,
                role_str@,
                now,
                (now + 60 * config.access_token_expiration) as i64,
                jti,
                access_secret@,
            );
        let u = users@[index_of_email(users@, credentials.email@)];
        assert(access_token@ == token_of(
            u.id,
            u.role,
            now,
            (now + 60 * config.access_token_expiration) as i64,
            jti,
            config.access_secret@,
        ));
    }
    let refresh_token = create_token(
        uid_str,
        config.refresh_secret.as_str(),
        config.refresh_token_expiration,
        "",
        now,
    );
    match store.create(refresh_token.as_str(), uid_str, config.refresh_token_expiration, now) {
        Ok(_) => Ok(LoginResponse { access_token, refresh_token }),
        Err(e) => Err(e.into_app_error()),
    }
}

/// The account an OAuth login resolves to: the one already holding the
/// reported email, or else the account freshly appended for it.
pub open spec fn oauth_owner(
    pre_users: Seq<UserView>,
    post_users: Seq<UserView>,
    email: Seq<char>,
) -> UserView {
    if has_email(pre_users, email) {
        pre_users[index_of_email(pre_users, email)]
    } else {
        post_users.last()
    }
}

/// Log a user in through a completed OAuth exchange: resolve the reported
/// email to an account, or link a fresh one — credential-less, with the
/// member role, provider `google`, unverified — and hand out a token pair
/// exactly as a password login would. The provider exchange itself happens
/// outside; this flow takes only what it reported. Every failure is the
/// opaque internal error: the store is then untouched and at most the
/// freshly linked account remains, with every existing account unchanged.
pub fn google_oauth(
    google_user: &GoogleUserResult,
    users: &mut UserDirectory,
    store: &mut RefreshTokenStore,
    config: &JwtConfig,
    now: i64,
) -> (r: Result<LoginResponse, AppError>)
    requires
        old(users).wf(),
        old(store).wf(),
        0 <= now,
        0 <= config.access_token_expiration,
        0 <= config.refresh_token_expiration,
        now + 60 * config.access_token_expiration <= i64::MAX,
        now + 60 * config.refresh_token_expiration <= i64::MAX,
    ensures
        final(users).wf(),
        final(store).wf(),
        has_email(old(users)@, google_user.email@) ==> final(users)@ == old(users)@,
        r matches Err(e) ==> e is InternalError && final(store)@ == old(store)@ && old(
            users,
        )@.len() <= final(users)@.len() <= old(users)@.len() + 1 && (forall|i: int|
            0 <= i < old(users)@.len() ==> #[trigger] final(users)@[i] == old(users)@[i]),
        (r is Ok && !has_email(old(users)@, google_user.email@)) ==> ({
            let owner = oauth_owner(old(users)@, final(users)@, google_user.email@);
            &&& final(users)@ =~= old(users)@.push(final(users)@.last())
            &&& owner.username == google_user.given_name@
            &&& owner.email == google_user.email@
            &&& owner.password_hash is None
            &&& owner.password_salt is None
            &&& owner.provider == "google"@
            &&& owner.role == "user"@
            &&& owner.verified == false
            &&& owner.created_at == now
            &&& owner.updated_at == now
            &&& !has_user_id(old(users)@, owner.id)
        }),
        r matches Ok(resp) ==> (exists|jti: Seq<char>|
            resp.access_token@ == #[trigger] token_of(
                oauth_owner(old(users)@, final(users)@, google_user.email@).id,
                oauth_owner(old(users)@, final(users)@, google_user.email@).role,
                now,
                (now + 60 * config.access_token_expiration) as i64,
                jti,
                config.access_secret@,
            )),
        r matches Ok(resp) ==> !has_hash(old(store)@, hash_of(resp.refresh_token@)),
        r matches Ok(resp) ==> final(store)@ =~= old(store)@.push(
            (RecordView {
                token_hash: hash_of(resp.refresh_token@),
                user_id: Some(oauth_owner(old(users)@, final(users)@, google_user.email@).id),
                created_at: now,
                expires_at: (now + 60 * config.refresh_token_expiration) as i64,
                parent_token_hash: None,
                revoked: false,
            }),
        ),
{
    let user = match users.find_by_email(&google_user.email) {
        Some(u) => u,
        None => {
            let new_user = NewUser {
                username: google_user.given_name.clone(),
                email: google_user.email.clone(),
                password_hash: None,
                password_salt: None,
                avatar: None,
                provider: String::from_str("google"),
            };
            match users.insert(new_user, now) {
                Ok(u) => u,
                Err(e) => {
                    return Err(e.into_app_error());
                },
            }
        },
    };
    let uid_str = user.id.as_str();
    let role_str = user.role.as_str();
    let access_secret = config.access_secret.as_str();
    let access_token = create_token(
        uid_str,
        access_secret,
        config.access_token_expiration,
        role_str,
        now,
    );
    proof {
        let jti = choose|jti: Seq<char>|
            access_token@ == #[trigger] token_of(
                uid_str@,
                role_str@,
                now,
                (now + 60 * config.access_token_expiration) as i64,
                jti,
                access_secret@,
            );
        let owner = oauth_owner(old(users)@, users@, google_user.email@);
        assert(user@ == owner);
        assert(access_token@ == token_of(
            owner.id,
            owner.role,
            now,
            (now + 60 * config.access_token_expiration) as i64,
            jti,
            config.access_secret@,
        ));
    }
    let refresh_token = create_token(
        uid_str,
        config.refresh_secret.as_str(),
        config.refresh_token_expiration,
        "",
        now,
    );
    match store.create(refresh_token.as_str(), uid_str, config.refresh_token_expiration, now) {
        Ok(_) => {
            proof {
                let owner = oauth_owner(old(users)@, users@, google_user.email@);
                if !has_email(old(users)@, google_user.email@) {
                    assert(users@ =~= old(users)@.push(users@.last()));
                    assert(users@.last() == user@);
                }
                assert(user@ == owner);
                assert(store@ =~= old(store)@.push(
                    (RecordView {
                        token_hash: hash_of(refresh_token@),
                        user_id: Some(owner.id),
                        created_at: now,
                        expires_at: (now + 60 * config.refresh_token_expiration) as i64,
                        parent_token_hash: None,
                        revoked: false,
                    }),
                ));
            }
            Ok(LoginResponse { access_token, refresh_token })
        },
        Err(e) => Err(e.into_app_error()),
    }
}

/// The reasons a presented refresh token is denied as a plain
/// `Unauthorized`: its record is missing, revoked, expired, tied to no
/// user, or tied to a user the directory no longer resolves.
pub open spec fn stale_refresh_token(
    records: Seq<RecordView>,
    users: Seq<UserView>,
    raw: Seq<char>,
    now: i64,
) -> bool {
    !has_hash(records, hash_of(raw)) || ({
        let rec = records[index_of_hash(records, hash_of(raw))];
        ||| rec.revoked
        ||| rec.expires_at < now
        ||| rec.user_id is None
        ||| (rec.user_id matches Some(uid) && !has_user_id(users, uid))
    })
}

/// Exchange a live refresh token for a fresh pair.
///
/// A token whose record is missing, already revoked, expired, tied to no
/// user, or tied to an account the directory no longer resolves is
/// answered `Unauthorized` with the store untouched — and `Unauthorized`
/// comes only for those reasons. On success the presented record is
/// rotated — revoked and given exactly one child, in one atomic step — and
/// a fresh access token is minted for the owning account with its stored
/// role; the number of live records does not change.
pub fn refresh(
    body: &RefreshTokenBody,
    users: &UserDirectory,
    store: &mut RefreshTokenStore,
    config: &JwtConfig,
    now: i64,
) -> (r: Result<RefreshResponse, AppError>)
    requires
        users.wf(),
        old(store).wf(),
        0 <= now,
        0 <= config.access_token_expiration,
        0 <= config.refresh_token_expiration,
        now + 60 * config.access_token_expiration <= i64::MAX,
        now + 60 * config.refresh_token_expiration <= i64::MAX,
    ensures
        final(store).wf(),
        r matches Err(e) ==> final(store)@ == old(store)@ && (e is Unauthorized
            || e is InternalError),
        !has_hash(old(store)@, hash_of(body.refresh_token@)) ==> (r matches Err(e)
            && e is Unauthorized),
        (has_hash(old(store)@, hash_of(body.refresh_token@)) && old(store)@[index_of_hash(
            old(store)@,
            hash_of(body.refresh_token@),
        )].revoked) ==> (r matches Err(e) && e is Unauthorized),
        (has_hash(old(store)@, hash_of(body.refresh_token@)) && ({
            let rec = old(store)@[index_of_hash(old(store)@, hash_of(body.refresh_token@))];
            !rec.revoked && rec.expires_at < now
        })) ==> (r matches Err(e) && e is Unauthorized),
        (has_hash(old(store)@, hash_of(body.refresh_token@)) && ({
            let rec = old(store)@[index_of_hash(old(store)@, hash_of(body.refresh_token@))];
            !rec.revoked && rec.expires_at >= now && rec.user_id is None
        })) ==> (r matches Err(e) && e is Unauthorized),
        (has_hash(old(store)@, hash_of(body.refresh_token@)) && ({
            let rec = old(store)@[index_of_hash(old(store)@, hash_of(body.refresh_token@))];
            !rec.revoked && rec.expires_at >= now && (rec.user_id matches Some(uid)
                && !has_user_id(users@, uid))
        })) ==> (r matches Err(e) && e is Unauthorized),
        (r matches Err(e) && e is Unauthorized) ==> stale_refresh_token(
            old(store)@,
            users@,
            body.refresh_token@,
            now,
        ),
        r matches Ok(resp) ==> ({
            let pre = old(store)@;
            let h = hash_of(body.refresh_token@);
            let i = index_of_hash(pre, h);
            &&& has_hash(pre, h)
            &&& !pre[i].revoked
            &&& pre[i].expires_at >= now
            &&& pre[i].user_id matches Some(uid) && has_user_id(users@, uid) && (exists|
                jti: Seq<char>,
            |
                resp.access_token@ == #[trigger] token_of(
                    uid,
                    users@[index_of_user_id(users@, uid)].role,
                    now,
                    (now + 60 * config.access_token_expiration) as i64,
                    jti,
                    config.access_secret@,
                ))
            &&& !has_hash(pre, hash_of(resp.refresh_token@))
            &&& final(store)@ =~= pre.update(i, (RecordView { revoked: true, ..pre[i] })).push(
                (RecordView {
                    token_hash: hash_of(resp.refresh_token@),
                    user_id: pre[i].user_id,
                    created_at: now,
                    expires_at: (now + 60 * config.refresh_token_expiration) as i64,
                    parent_token_hash: Some(pre[i].token_hash),
                    revoked: false,
                }),
            )
            &&& count_active(final(store)@) == count_active(pre)
        }),
{
    let rec = match store.find(body.refresh_token.as_str()) {
        Some(rc) => rc,
        None => {
            return Err(AuthError::TokenMalformed.into_app_error());
        },
    };
    if rec.revoked {
        return Err(AuthError::TokenRevoked.into_app_error());
    }
    if rec.expires_at < now {
        return Err(AuthError::TokenExpired.into_app_error());
    }
    let user_id = match &rec.user_id {
        Some(u) => u.clone(),
        None => {
            return Err(AuthError::PrincipalNotFound.into_app_error());
        },
    };
    let user = match users.find(&user_id) {
        Some(u) => u,
        None => {
            return Err(AuthError::PrincipalNotFound.into_app_error());
        },
    };
    let new_refresh = match store.issue_new(
        &rec.token_hash,
        config.refresh_secret.as_str(),
        config.refresh_token_expiration,
        now,
    ) {
        Ok(t) => t,
        Err(e) => {
            return Err(e.into_app_error());
        },
    };
    let uid_str = user_id.as_str();
    let role_str = user.role.as_str();
    let access_secret = config.access_secret.as_str();
    let access_token = create_token(
        uid_str,
        access_secret,
        config.access_token_expiration,
        role_str,
        now,
    );
    proof {
        let jti = choose|jti: Seq<char>|
            access_token@ == #[trigger] token_of(
                uid_str@,
                role_str@,
                now,
                (now + 60 * config.access_token_expiration) as i64,
                jti,
                access_secret@,
            );
        let pre = old(store)@;
        let i = index_of_hash(pre, hash_of(body.refresh_token@));
        assert(pre[i].user_id matches Some(uid) && access_token@ == token_of(
            uid,
            users@[index_of_user_id(users@, uid)].role,
            now,
            (now + 60 * config.access_token_expiration) as i64,
            jti,
            config.access_secret@,
        ));
    }
    Ok(RefreshResponse { access_token, refresh_token: new_refresh })
}

/// Revoke the presented refresh token for the authenticated principal.
///
/// A token whose record is missing, or which belongs to some other user —
/// or to no user — is answered `Unauthorized` with the store untouched;
/// a record owned by the principal is owed success. On success exactly
/// that record's `revoked` flag is set.
pub fn logout(
    authenticated: &AuthenticatedUser,
    body: &RefreshTokenBody,
    store: &mut RefreshTokenStore,
) -> (r: Result<OkResponse, AppError>)
    requires
        old(store).wf(),
    ensures
        final(store).wf(),
        r matches Err(e) ==> final(store)@ == old(store)@ && e is Unauthorized,
        !has_hash(old(store)@, hash_of(body.refresh_token@)) ==> r is Err,
        (has_hash(old(store)@, hash_of(body.refresh_token@)) && !owned_by(
            old(store)@[index_of_hash(old(store)@, hash_of(body.refresh_token@))],
            authenticated.user.id@,
        )) ==> r is Err,
        (has_hash(old(store)@, hash_of(body.refresh_token@)) && owned_by(
            old(store)@[index_of_hash(old(store)@, hash_of(body.refresh_token@))],
            authenticated.user.id@,
        )) ==> r is Ok,
        r matches Ok(okr) ==> ({
            let pre = old(store)@;
            let i = index_of_hash(pre, hash_of(body.refresh_token@));
            &&& okr.ok
            &&& has_hash(pre, hash_of(body.refresh_token@))
            &&& owned_by(pre[i], authenticated.user.id@)
            &&& final(store)@ =~= pre.update(i, (RecordView { revoked: true, ..pre[i] }))
        }),
{
    let ghost pre = store@;
    let rec = match store.find(body.refresh_token.as_str()) {
        Some(rc) => rc,
        None => {
            return Err(AuthError::TokenMalformed.into_app_error());
        },
    };
    let owner_matches = match &rec.user_id {
        Some(u) => u.eq(&authenticated.user.id),
        None => false,
    };
    if !owner_matches {
        return Err(AppError::Unauthorized);
    }
    store.revoke(&rec.token_hash);
    proof {
        let i = index_of_hash(pre, hash_of(body.refresh_token@));
        assert(store@ =~= pre.update(i, (RecordView { revoked: true, ..pre[i] }))) by {
            assert forall|k: int| 0 <= k < pre.len() implies store@[k] == pre.update(
                i,
                (RecordView { revoked: true, ..pre[i] }),
            )[k] by {
                if k != i {
                    assert(pre[k].token_hash != pre[i].token_hash);
                }
            }
        }
    }
    Ok(OkResponse::new())
}

/// Register a local account: hash the password under a fresh salt, check
/// the username and email shapes, and create the account unverified with
/// the member role. The stored credential is the salt and the hash — the
/// password itself is kept nowhere. A taken email is rejected, since the
/// directory is keyed by it. For every password the hash function accepts —
/// any realistic length — the rejection of invalid input is owed exactly,
/// with its message.
pub fn register_user(body: &RegisterUserBody, users: &mut UserDirectory, now: i64) -> (r: Result<
    User,
    AppError,
>)
    requires
        old(users).wf(),
    ensures
        final(users).wf(),
        r matches Err(e) ==> final(users)@ == old(users)@ && (e is BadRequest
            || e is InternalError),
        !valid_username(body.username@) ==> (r matches Err(e) && ((e matches AppError::BadRequest(
            m,
        ) && m@ == "Username cannot contain spaces or non-alphanumeric characters"@)
            || e is InternalError)),
        (valid_username(body.username@) && !valid_email(body.email@)) ==> (r matches Err(e) && ((
        e matches AppError::BadRequest(m) && m@ == "Malformed email address"@)
            || e is InternalError)),
        (valid_username(body.username@) && valid_email(body.email@) && has_email(
            old(users)@,
            body.email@,
        )) ==> (r matches Err(e) && ((e matches AppError::BadRequest(m) && m@
            == "Email already exists"@) || e is InternalError)),
        (hashable_password(body.password@) && !valid_username(body.username@)) ==> (r matches Err(
            e,
        ) && e matches AppError::BadRequest(m) && m@
            == "Username cannot contain spaces or non-alphanumeric characters"@),
        (hashable_password(body.password@) && valid_username(body.username@) && !valid_email(
            body.email@,
        )) ==> (r matches Err(e) && e matches AppError::BadRequest(m) && m@
            == "Malformed email address"@),
        (hashable_password(body.password@) && valid_username(body.username@) && valid_email(
            body.email@,
        ) && has_email(old(users)@, body.email@)) ==> (r matches Err(e)
            && e matches AppError::BadRequest(m) && m@ == "Email already exists"@),
        r matches Ok(u) ==> ({
            &&& valid_username(body.username@)
            &&& valid_email(body.email@)
            &&& !has_email(old(users)@, body.email@)
            &&& final(users)@ =~= old(users)@.push(u@)
            &&& u@.username == body.username@
            &&& u@.email == body.email@
            &&& (exists|salt: Seq<u8>|
                salt.len() == 16 && u@.password_salt == Some(salt) && u@.password_hash == Some(
                    #[trigger] argon2_of(body.password@, salt),
                ))
            &&& u@.provider == "local"@
            &&& u@.role == "user"@
            &&& u@.verified == false
            &&& u@.created_at == now
            &&& u@.updated_at == now
        }),
{
    let salt = generate_salt();
    let password_hash = match hash_password(body.password.as_str(), &salt) {
        Ok(h) => h,
        Err(e) => {
            return Err(e.into_app_error());
        },
    };
    if !is_valid_username(body.username.as_str()) {
        return Err(
            AppError::BadRequest(
                String::from_str("Username cannot contain spaces or non-alphanumeric characters"),
            ),
        );
    }
    if !is_valid_email(body.email.as_str()) {
        return Err(AppError::BadRequest(String::from_str("Malformed email address")));
    }
    let new_user = NewUser {
        username: body.username.clone(),
        email: body.email.clone(),
        password_hash: Some(password_hash),
        password_salt: Some(salt),
        avatar: None,
        provider: String::from_str("local"),
    };
    match users.insert(new_user, now) {
        Ok(u) => Ok(u),
        Err(_) => Err(AppError::BadRequest(String::from_str("Email already exists"))),
    }
}

/// Change the authenticated user's password.
///
/// Only the account owner may change it; the current password is verified
/// first, and a mismatch is the same plain `Unauthorized` a failed login
/// gives, with nothing touched. For the owner with the right current
/// password and an account on record, success is owed. On success
/// the account carries a fresh salt and the hash of the new password, and —
/// because a password change signals possible compromise — every live
/// refresh token of the user is revoked, while records of other users stay
/// untouched.
pub fn update_user_password(
    authenticated: &AuthenticatedUser,
    user_id: &String,
    body: &PasswordUpdateRequest,
    users: &mut UserDirectory,
    store: &mut RefreshTokenStore,
    now: i64,
) -> (r: Result<OkResponse, AppError>)
    requires
        old(users).wf(),
        old(store).wf(),
    ensures
        final(users).wf(),
        final(store).wf(),
        r matches Err(e) ==> final(users)@ == old(users)@ && final(store)@ == old(store)@ && (
        e is Forbidden || e is Unauthorized || e is InternalError),
        authenticated.user.id@ != user_id@ ==> (r matches Err(e) && e matches AppError::Forbidden(
            m,
        ) && m@ == "Insufficient permissions"@),
        (authenticated.user.id@ == user_id@ && (authenticated.user@.password_hash is None
            || authenticated.user@.password_salt is None)) ==> (r matches Err(e)
            && e is InternalError),
        (authenticated.user.id@ == user_id@ && ({
            let a = authenticated.user@;
            a.password_hash matches Some(h) && a.password_salt matches Some(s) && argon2_of(
                body.current_password@,
                s,
            ) != h
        })) ==> (r matches Err(e) && (e is Unauthorized || e is InternalError)),
        (authenticated.user.id@ == user_id@ && hashable_password(body.current_password@) && ({
            let a = authenticated.user@;
            a.password_hash matches Some(h) && a.password_salt matches Some(s) && s.len() == 16
                && argon2_of(body.current_password@, s) != h
        })) ==> (r matches Err(e) && e is Unauthorized),
        (authenticated.user.id@ == user_id@ && hashable_password(body.current_password@)
            && hashable_password(body.new_password@) && has_user_id(old(users)@, user_id@) && ({
            let a = authenticated.user@;
            a.password_hash matches Some(h) && a.password_salt matches Some(s) && s.len() == 16
                && argon2_of(body.current_password@, s) == h
        })) ==> r is Ok,
        r matches Ok(okr) ==> ({
            let a = authenticated.user@;
            &&& okr.ok
            &&& authenticated.user.id@ == user_id@
            &&& a.password_hash matches Some(h) && a.password_salt matches Some(s) && argon2_of(
                body.current_password@,
                s,
            ) == h
            &&& has_user_id(old(users)@, user_id@)
            &&& (exists|salt: Seq<u8>|
                salt.len() == 16 && final(users)@ =~= old(users)@.update(
                    index_of_user_id(old(users)@, user_id@),
                    (UserView {
                        password_hash: Some(#[trigger] argon2_of(body.new_password@, salt)),
                        password_salt: Some(salt),
                        updated_at: now,
                        ..old(users)@[index_of_user_id(old(users)@, user_id@)]
                    }),
                ))
            &&& final(store)@.len() == old(store)@.len()
            &&& (forall|i: int|
                0 <= i < old(store)@.len() ==> #[trigger] final(store)@[i] == (if owned_by(
                    old(store)@[i],
                    user_id@,
                ) {
                    RecordView { revoked: true, ..old(store)@[i] }
                } else {
                    old(store)@[i]
                }))
        }),
{
    if !authenticated.user.id.eq(user_id) {
        return Err(AppError::Forbidden(String::from_str("Insufficient permissions")));
    }
    let (stored_hash, stored_salt) = match (
        &authenticated.user.password_hash,
        &authenticated.user.password_salt,
    ) {
        (Some(h), Some(s)) => (h, s),
        _ => {
            return Err(AppError::InternalError);
        },
    };
    let password_matches = match verify_password(
        body.current_password.as_str(),
        stored_hash,
        stored_salt,
    ) {
        Ok(b) => b,
        Err(e) => {
            return Err(e.into_app_error());
        },
    };
    if !password_matches {
        return Err(AuthError::InvalidCredentials.into_app_error());
    }
    let new_salt = generate_salt();
    let new_hash = match hash_password(body.new_password.as_str(), &new_salt) {
        Ok(h) => h,
        Err(e) => {
            return Err(e.into_app_error());
        },
    };
    match users.update_password(user_id, new_hash, new_salt, now) {
        Ok(_) => {
            store.revoke_all_user_refresh_tokens(user_id.as_str());
            Ok(OkResponse::new())
        },
        Err(e) => Err(e.into_app_error()),
    }
}

} // verus!
