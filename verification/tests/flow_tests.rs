use journly_auth::config::JwtConfig;
use journly_auth::errors::AppError;
use journly_auth::flows::login;
use journly_auth::flows::logout;
use journly_auth::flows::refresh;
use journly_auth::flows::google_oauth;
use journly_auth::flows::register_user;
use journly_auth::flows::GoogleUserResult;
use journly_auth::flows::update_user_password;
use journly_auth::flows::LoginCredentials;
use journly_auth::flows::PasswordUpdateRequest;
use journly_auth::flows::RefreshTokenBody;
use journly_auth::flows::RegisterUserBody;
use journly_auth::gate::AuthenticatedUser;
use journly_auth::store::token_hash;
use journly_auth::store::RefreshTokenStore;
use journly_auth::token::verify_jwt;
use journly_auth::users::UserDirectory;

fn now_ts() -> i64 {
    chrono::Utc::now().timestamp()
}

fn test_config() -> JwtConfig {
    JwtConfig {
        access_secret: "access-secret".to_string(),
        refresh_secret: "refresh-secret".to_string(),
        access_token_expiration: 15,
        refresh_token_expiration: 60 * 24,
    }
}

fn registered_directory(email: &str, password: &str) -> UserDirectory {
    let mut users = UserDirectory::new();
    register_user(
        &RegisterUserBody {
            username: "flowuser".to_string(),
            email: email.to_string(),
            password: password.to_string(),
        },
        &mut users,
        now_ts(),
    )
    .unwrap();
    users
}

#[test]
fn login_with_valid_credentials_works() {
    let users = registered_directory("login@example.com", "s3cret-pass");
    let mut store = RefreshTokenStore::new();
    let config = test_config();
    let now = now_ts();

    let response = login(
        &LoginCredentials {
            email: "login@example.com".to_string(),
            password: "s3cret-pass".to_string(),
        },
        &users,
        &mut store,
        &config,
        now,
    )
    .unwrap();

    // the access token verifies under the access secret and names the user
    let claims = verify_jwt(&response.access_token, "access-secret").unwrap();
    let user = users.find_by_email(&"login@example.com".to_string()).unwrap();
    assert_eq!(claims.sub, user.id);
    assert_eq!(claims.role, "user");

    // the refresh token's record is stored under its hash, unrevoked
    let record = store.find(&response.refresh_token).unwrap();
    assert_eq!(record.user_id, Some(user.id));
    assert!(!record.revoked);
    assert_eq!(record.token_hash, token_hash(&response.refresh_token));
}

#[test]
fn login_with_invalid_credentials_returns_401() {
    let users = registered_directory("p8@example.com", "right-password");
    let mut store = RefreshTokenStore::new();
    let config = test_config();
    let now = now_ts();

    // correct email, wrong password
    let wrong_password = login(
        &LoginCredentials {
            email: "p8@example.com".to_string(),
            password: "wrong-password".to_string(),
        },
        &users,
        &mut store,
        &config,
        now,
    )
    .unwrap_err();

    // unknown email
    let unknown_email = login(
        &LoginCredentials {
            email: "nobody@example.com".to_string(),
            password: "right-password".to_string(),
        },
        &users,
        &mut store,
        &config,
        now,
    )
    .unwrap_err();

    // identical response shape for both failures: nothing distinguishes an
    // unknown account from a wrong password
    assert_eq!(wrong_password.status_code(), 401);
    assert_eq!(unknown_email.status_code(), 401);
    let body_a = wrong_password.error_response();
    let body_b = unknown_email.error_response();
    assert_eq!(body_a.error, body_b.error);
    assert_eq!(body_a.message, body_b.message);
}

#[test]
fn login_without_stored_credential_returns_401() {
    // an OAuth-linked account has no hash and no salt
    let mut users = UserDirectory::new();
    users
        .insert(
            journly_auth::users::NewUser {
                username: "oauthuser".to_string(),
                email: "oauth@example.com".to_string(),
                password_hash: None,
                password_salt: None,
                avatar: None,
                provider: "google".to_string(),
            },
            now_ts(),
        )
        .unwrap();
    let mut store = RefreshTokenStore::new();

    let e = login(
        &LoginCredentials {
            email: "oauth@example.com".to_string(),
            password: "anything".to_string(),
        },
        &users,
        &mut store,
        &test_config(),
        now_ts(),
    )
    .unwrap_err();
    assert_eq!(e.status_code(), 401);
}

#[test]
fn get_access_token_with_refresh_token() {
    let users = registered_directory("refresh@example.com", "pass-word-1");
    let mut store = RefreshTokenStore::new();
    let config = test_config();
    let now = now_ts();

    let pair = login(
        &LoginCredentials {
            email: "refresh@example.com".to_string(),
            password: "pass-word-1".to_string(),
        },
        &users,
        &mut store,
        &config,
        now,
    )
    .unwrap();

    let refreshed = refresh(
        &RefreshTokenBody { refresh_token: pair.refresh_token.clone() },
        &users,
        &mut store,
        &config,
        now,
    )
    .unwrap();

    // the new access token verifies and carries the account's stored role;
    // the new refresh token is live and the old one is revoked with the new
    // one as its only child
    let claims = verify_jwt(&refreshed.access_token, "access-secret").unwrap();
    let account = users.find_by_email(&"refresh@example.com".to_string()).unwrap();
    assert_eq!(claims.sub, account.id);
    assert_eq!(claims.role, account.role);
    let old_record = store.find(&pair.refresh_token).unwrap();
    assert!(old_record.revoked);
    let new_record = store.find(&refreshed.refresh_token).unwrap();
    assert!(!new_record.revoked);
    assert_eq!(
        new_record.parent_token_hash,
        Some(token_hash(&pair.refresh_token))
    );
}

#[test]
fn refresh_token_invalidation_works() {
    let users = registered_directory("invalidate@example.com", "pass-word-2");
    let mut store = RefreshTokenStore::new();
    let config = test_config();
    let now = now_ts();

    let pair = login(
        &LoginCredentials {
            email: "invalidate@example.com".to_string(),
            password: "pass-word-2".to_string(),
        },
        &users,
        &mut store,
        &config,
        now,
    )
    .unwrap();

    // first rotation succeeds
    refresh(
        &RefreshTokenBody { refresh_token: pair.refresh_token.clone() },
        &users,
        &mut store,
        &config,
        now,
    )
    .unwrap();

    // replaying the consumed token fails with a plain 401
    let replay = refresh(
        &RefreshTokenBody { refresh_token: pair.refresh_token.clone() },
        &users,
        &mut store,
        &config,
        now,
    )
    .unwrap_err();
    assert!(matches!(replay, AppError::Unauthorized));
    assert_eq!(replay.status_code(), 401);
}

#[test]
fn refresh_with_unknown_or_expired_token_returns_401() {
    let users = registered_directory("expiry@example.com", "pass-word-3");
    let mut store = RefreshTokenStore::new();
    let config = test_config();
    let now = now_ts();

    // never-issued token
    let unknown = refresh(
        &RefreshTokenBody { refresh_token: "never-issued".to_string() },
        &users,
        &mut store,
        &config,
        now,
    )
    .unwrap_err();
    assert_eq!(unknown.status_code(), 401);

    // a token whose record has expired
    let pair = login(
        &LoginCredentials {
            email: "expiry@example.com".to_string(),
            password: "pass-word-3".to_string(),
        },
        &users,
        &mut store,
        &config,
        now,
    )
    .unwrap();
    let much_later = now + config.refresh_token_expiration * 60 + 1;
    let expired = refresh(
        &RefreshTokenBody { refresh_token: pair.refresh_token.clone() },
        &users,
        &mut store,
        &config,
        much_later,
    )
    .unwrap_err();
    assert!(matches!(expired, AppError::Unauthorized));
    // and the record was not consumed by the failed attempt
    assert!(!store.find(&pair.refresh_token).unwrap().revoked);
}

#[test]
fn logout_works() {
    let users = registered_directory("logout@example.com", "pass-word-4");
    let mut store = RefreshTokenStore::new();
    let config = test_config();
    let now = now_ts();

    let pair = login(
        &LoginCredentials {
            email: "logout@example.com".to_string(),
            password: "pass-word-4".to_string(),
        },
        &users,
        &mut store,
        &config,
        now,
    )
    .unwrap();

    let user = users.find_by_email(&"logout@example.com".to_string()).unwrap();
    let principal = AuthenticatedUser { role: user.role.clone(), user };

    let ok = logout(
        &principal,
        &RefreshTokenBody { refresh_token: pair.refresh_token.clone() },
        &mut store,
    )
    .unwrap();
    assert!(ok.ok);
    assert!(store.find(&pair.refresh_token).unwrap().revoked);

    // the revoked token can no longer be used to refresh
    let after = refresh(
        &RefreshTokenBody { refresh_token: pair.refresh_token },
        &users,
        &mut store,
        &config,
        now,
    )
    .unwrap_err();
    assert_eq!(after.status_code(), 401);
}

#[test]
fn logout_without_tokens_returns_401() {
    let users = registered_directory("nologout@example.com", "pass-word-5");
    let mut store = RefreshTokenStore::new();
    let user = users.find_by_email(&"nologout@example.com".to_string()).unwrap();
    let principal = AuthenticatedUser { role: user.role.clone(), user };

    let e = logout(
        &principal,
        &RefreshTokenBody { refresh_token: "never-issued".to_string() },
        &mut store,
    )
    .unwrap_err();
    assert!(matches!(e, AppError::Unauthorized));
    assert_eq!(e.status_code(), 401);
}

#[test]
fn logout_with_someone_elses_token_returns_401() {
    let mut users = registered_directory("owner@example.com", "pass-word-6");
    register_user(
        &RegisterUserBody {
            username: "intruder".to_string(),
            email: "intruder@example.com".to_string(),
            password: "pass-word-7".to_string(),
        },
        &mut users,
        now_ts(),
    )
    .unwrap();
    let mut store = RefreshTokenStore::new();
    let config = test_config();
    let now = now_ts();

    let pair = login(
        &LoginCredentials {
            email: "owner@example.com".to_string(),
            password: "pass-word-6".to_string(),
        },
        &users,
        &mut store,
        &config,
        now,
    )
    .unwrap();

    let other = users.find_by_email(&"intruder@example.com".to_string()).unwrap();
    let other_principal = AuthenticatedUser { role: other.role.clone(), user: other };

    let e = logout(
        &other_principal,
        &RefreshTokenBody { refresh_token: pair.refresh_token.clone() },
        &mut store,
    )
    .unwrap_err();
    assert_eq!(e.status_code(), 401);
    // the owner's token is untouched
    assert!(!store.find(&pair.refresh_token).unwrap().revoked);
}

#[test]
fn update_user_password_success() {
    let mut users = registered_directory("change@example.com", "old-password");
    let mut store = RefreshTokenStore::new();
    let config = test_config();
    let now = now_ts();

    // an outstanding session that the change must revoke
    let pair = login(
        &LoginCredentials {
            email: "change@example.com".to_string(),
            password: "old-password".to_string(),
        },
        &users,
        &mut store,
        &config,
        now,
    )
    .unwrap();

    let user = users.find_by_email(&"change@example.com".to_string()).unwrap();
    let user_id = user.id.clone();
    let principal = AuthenticatedUser { role: user.role.clone(), user };

    let ok = update_user_password(
        &principal,
        &user_id,
        &PasswordUpdateRequest {
            current_password: "old-password".to_string(),
            new_password: "new-password".to_string(),
        },
        &mut users,
        &mut store,
        now,
    )
    .unwrap();
    assert!(ok.ok);

    // old password no longer works, the new one does
    let old_attempt = login(
        &LoginCredentials {
            email: "change@example.com".to_string(),
            password: "old-password".to_string(),
        },
        &users,
        &mut store,
        &config,
        now,
    );
    assert!(old_attempt.is_err());
    let new_attempt = login(
        &LoginCredentials {
            email: "change@example.com".to_string(),
            password: "new-password".to_string(),
        },
        &users,
        &mut store,
        &config,
        now,
    );
    assert!(new_attempt.is_ok());

    // the outstanding refresh token was revoked by the change
    let e = refresh(
        &RefreshTokenBody { refresh_token: pair.refresh_token },
        &users,
        &mut store,
        &config,
        now,
    )
    .unwrap_err();
    assert_eq!(e.status_code(), 401);
}

#[test]
fn update_user_password_rejects_wrong_current_or_other_account() {
    let mut users = registered_directory("strict@example.com", "current-pass");
    let mut store = RefreshTokenStore::new();
    let now = now_ts();

    let user = users.find_by_email(&"strict@example.com".to_string()).unwrap();
    let user_id = user.id.clone();
    let principal = AuthenticatedUser { role: user.role.clone(), user };

    // wrong current password
    let e = update_user_password(
        &principal,
        &user_id,
        &PasswordUpdateRequest {
            current_password: "not-the-password".to_string(),
            new_password: "whatever".to_string(),
        },
        &mut users,
        &mut store,
        now,
    )
    .unwrap_err();
    assert!(matches!(e, AppError::Unauthorized));
    assert_eq!(e.status_code(), 401);

    // changing someone else's password
    let e = update_user_password(
        &principal,
        &"some-other-id".to_string(),
        &PasswordUpdateRequest {
            current_password: "current-pass".to_string(),
            new_password: "whatever".to_string(),
        },
        &mut users,
        &mut store,
        now,
    )
    .unwrap_err();
    assert!(matches!(e, AppError::Forbidden(_)));
    assert_eq!(e.status_code(), 403);
}

#[test]
fn login_with_corrupt_stored_salt_is_an_internal_error() {
    // a stored salt too short to hash with: the failure must surface as the
    // opaque internal error, not as a wrong password
    let mut users = UserDirectory::new();
    users
        .insert(
            journly_auth::users::NewUser {
                username: "corrupt".to_string(),
                email: "corrupt@example.com".to_string(),
                password_hash: Some("some-stored-hash".to_string()),
                password_salt: Some(vec![1u8]),
                avatar: None,
                provider: "local".to_string(),
            },
            now_ts(),
        )
        .unwrap();
    let mut store = RefreshTokenStore::new();

    let e = login(
        &LoginCredentials {
            email: "corrupt@example.com".to_string(),
            password: "anything".to_string(),
        },
        &users,
        &mut store,
        &test_config(),
        now_ts(),
    )
    .unwrap_err();
    assert!(matches!(e, AppError::InternalError));
    assert_eq!(e.status_code(), 500);
}

#[test]
fn register_rejects_bad_input_and_duplicates() {
    let mut users = UserDirectory::new();
    let now = now_ts();

    // invalid username
    let e = register_user(
        &RegisterUserBody {
            username: "has space".to_string(),
            email: "a@example.com".to_string(),
            password: "pw-1".to_string(),
        },
        &mut users,
        now,
    )
    .unwrap_err();
    assert!(matches!(e, AppError::BadRequest(_)));
    assert_eq!(e.status_code(), 400);

    // malformed email
    let e = register_user(
        &RegisterUserBody {
            username: "fine".to_string(),
            email: "not-an-email".to_string(),
            password: "pw-1".to_string(),
        },
        &mut users,
        now,
    )
    .unwrap_err();
    assert!(matches!(e, AppError::BadRequest(_)));

    // duplicate email
    register_user(
        &RegisterUserBody {
            username: "first".to_string(),
            email: "taken@example.com".to_string(),
            password: "pw-1".to_string(),
        },
        &mut users,
        now,
    )
    .unwrap();
    let e = register_user(
        &RegisterUserBody {
            username: "second".to_string(),
            email: "taken@example.com".to_string(),
            password: "pw-2".to_string(),
        },
        &mut users,
        now,
    )
    .unwrap_err();
    let body = e.error_response();
    assert_eq!(body.message, "Email already exists");
}

#[test]
fn registered_account_stores_hash_and_salt_not_password() {
    let mut users = UserDirectory::new();
    let user = register_user(
        &RegisterUserBody {
            username: "hashes".to_string(),
            email: "hashes@example.com".to_string(),
            password: "plain-password".to_string(),
        },
        &mut users,
        now_ts(),
    )
    .unwrap();

    let hash = user.password_hash.unwrap();
    let salt = user.password_salt.unwrap();
    assert_eq!(salt.len(), 16);
    assert_ne!(hash, "plain-password");
    assert!(!hash.contains("plain-password"));
    assert_eq!(user.role, "user");
    assert_eq!(user.provider, "local");
    assert!(!user.verified);
}

fn sample_google_user(email: &str, given_name: &str) -> GoogleUserResult {
    GoogleUserResult {
        id: "google-account-id".to_string(),
        email: email.to_string(),
        verified_email: true,
        name: format!("{} Person", given_name),
        given_name: given_name.to_string(),
        family_name: "Person".to_string(),
        picture: "".to_string(),
    }
}

#[test]
fn google_oauth_links_a_new_account_and_issues_tokens() {
    let mut users = UserDirectory::new();
    let mut store = RefreshTokenStore::new();
    let config = test_config();
    let now = now_ts();

    let pair = google_oauth(
        &sample_google_user("linked@example.com", "Linked"),
        &mut users,
        &mut store,
        &config,
        now,
    )
    .unwrap();

    // the linked account: member role, google provider, no stored credential
    let account = users.find_by_email(&"linked@example.com".to_string()).unwrap();
    assert_eq!(account.username, "Linked");
    assert_eq!(account.role, "user");
    assert_eq!(account.provider, "google");
    assert!(account.password_hash.is_none());
    assert!(account.password_salt.is_none());
    assert!(!account.verified);

    // the pair works exactly as a password login's would
    let claims = verify_jwt(&pair.access_token, "access-secret").unwrap();
    assert_eq!(claims.sub, account.id);
    assert_eq!(claims.role, "user");
    let record = store.find(&pair.refresh_token).unwrap();
    assert_eq!(record.user_id, Some(account.id));
    assert!(!record.revoked);
    assert_eq!(record.parent_token_hash, None);

    // a password login against the credential-less account still fails
    let e = login(
        &LoginCredentials {
            email: "linked@example.com".to_string(),
            password: "anything".to_string(),
        },
        &users,
        &mut store,
        &config,
        now,
    )
    .unwrap_err();
    assert_eq!(e.status_code(), 401);
}

#[test]
fn google_oauth_reuses_the_existing_account() {
    let mut users = registered_directory("existing@example.com", "pass-word-8");
    let mut store = RefreshTokenStore::new();
    let config = test_config();
    let now = now_ts();
    let before = users.find_by_email(&"existing@example.com".to_string()).unwrap();

    let pair = google_oauth(
        &sample_google_user("existing@example.com", "Other"),
        &mut users,
        &mut store,
        &config,
        now,
    )
    .unwrap();

    // no second account was created and nothing about the account changed
    let account = users.find_by_email(&"existing@example.com".to_string()).unwrap();
    assert_eq!(account.id, before.id);
    assert_eq!(account.username, "flowuser");
    assert!(account.password_hash.is_some());

    // the minted pair names the existing account with its stored role
    let claims = verify_jwt(&pair.access_token, "access-secret").unwrap();
    assert_eq!(claims.sub, before.id);
    assert_eq!(claims.role, before.role);
    let rotated = refresh(
        &RefreshTokenBody { refresh_token: pair.refresh_token },
        &users,
        &mut store,
        &config,
        now,
    )
    .unwrap();
    assert!(verify_jwt(&rotated.access_token, "access-secret").is_ok());
}
