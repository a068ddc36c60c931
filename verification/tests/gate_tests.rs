use journly_auth::errors::AppError;
use journly_auth::errors::AuthError;
use journly_auth::gate::authenticate;
use journly_auth::gate::AuthenticatedUser;
use journly_auth::token::create_token;
use journly_auth::gate::validate_admin_user;
use journly_auth::users::EncodableUser;
use journly_auth::users::LoggedUser;
use journly_auth::users::NewUser;
use journly_auth::users::User;
use journly_auth::users::UserDirectory;

fn now_ts() -> i64 {
    chrono::Utc::now().timestamp()
}

fn sample_user(role: &str) -> User {
    User {
        id: uuid::Uuid::new_v4().to_string(),
        username: "sample".to_string(),
        email: "sample@example.com".to_string(),
        password_hash: None,
        password_salt: None,
        avatar: None,
        provider: "local".to_string(),
        role: role.to_string(),
        verified: true,
        created_at: 0,
        updated_at: 0,
    }
}

fn directory_with(email: &str) -> (UserDirectory, User) {
    let mut users = UserDirectory::new();
    let user = users
        .insert(
            NewUser {
                username: "gateuser".to_string(),
                email: email.to_string(),
                password_hash: None,
                password_salt: None,
                avatar: None,
                provider: "local".to_string(),
            },
            now_ts(),
        )
        .unwrap();
    (users, user)
}

#[test]
fn is_admin_accepts_exactly_the_admin_role() {
    for (role, expected) in [
        ("admin", true),
        ("Admin", false),
        ("ADMIN", false),
        ("admin ", false),
        (" admin", false),
        ("user", false),
        ("administrator", false),
        ("", false),
    ] {
        let principal = AuthenticatedUser {
            user: sample_user(role),
            role: role.to_string(),
        };
        assert_eq!(principal.is_admin(), expected, "role {:?}", role);
    }
}

#[test]
fn validate_admin_user_requires_the_admin_role() {
    let (users, member) = directory_with("member@example.com");
    // freshly inserted accounts carry the member role
    let member_identity = LoggedUser::from(member);
    assert!(matches!(
        validate_admin_user(&member_identity, &users),
        Err(AppError::Unauthorized)
    ));
    // an identity that resolves to no account is denied the same way
    let ghost_identity = LoggedUser {
        id: uuid::Uuid::new_v4().to_string(),
    };
    assert!(matches!(
        validate_admin_user(&ghost_identity, &users),
        Err(AppError::Unauthorized)
    ));
}

#[test]
fn encodable_user_strips_the_credential() {
    let mut user = sample_user("user");
    user.password_hash = Some("a-hash".to_string());
    user.password_salt = Some(vec![1u8; 16]);
    let id = user.id.clone();
    let encoded = EncodableUser::from(user);
    assert_eq!(encoded.id, id);
    assert_eq!(encoded.username, "sample");
    assert_eq!(encoded.email, "sample@example.com");
    assert_eq!(encoded.avatar, None);
}

#[test]
fn missing_header_or_marker_is_unauthorized() {
    let (users, _) = directory_with("missing@example.com");
    let now = now_ts();

    let r = authenticate(None, &users, "gate-secret", false, now);
    assert!(matches!(r, Err(AuthError::TokenMalformed)));

    let r = authenticate(Some("Basic abc"), &users, "gate-secret", false, now);
    assert!(matches!(r, Err(AuthError::TokenMalformed)));

    let r = authenticate(Some("Bearer"), &users, "gate-secret", false, now);
    assert!(matches!(r, Err(AuthError::TokenMalformed)));

    // the denials map to a plain 401
    let e = authenticate(None, &users, "gate-secret", false, now).unwrap_err();
    assert_eq!(e.into_app_error().status_code(), 401);
}

#[test]
fn valid_token_yields_the_principal() {
    let (users, user) = directory_with("valid@example.com");
    let now = now_ts();
    let token = create_token(&user.id, "gate-secret", 10, "user", now);
    let header = format!("Bearer {}", token);

    let principal = authenticate(Some(&header), &users, "gate-secret", false, now).unwrap();
    assert_eq!(principal.user.id, user.id);
    assert_eq!(principal.user.email, "valid@example.com");
    assert_eq!(principal.role, "user");
    assert!(!principal.is_admin());
}

#[test]
fn token_expired_one_second_ago_fails_despite_valid_signature() {
    let (users, user) = directory_with("expired@example.com");
    let now = now_ts();
    // minted with a zero lifetime one second in the past: signature is
    // valid, expiry is now - 1
    let token = create_token(&user.id, "gate-secret", 0, "user", now - 1);
    let header = format!("Bearer {}", token);

    let r = authenticate(Some(&header), &users, "gate-secret", false, now);
    assert!(matches!(r, Err(AuthError::TokenExpired)));
    let e = r.unwrap_err().into_app_error();
    assert!(matches!(e, AppError::Unauthorized));
    assert_eq!(e.status_code(), 401);
}

#[test]
fn token_issued_in_the_future_fails() {
    let (users, user) = directory_with("future@example.com");
    let now = now_ts();
    let token = create_token(&user.id, "gate-secret", 10, "user", now + 120);
    let header = format!("Bearer {}", token);

    let r = authenticate(Some(&header), &users, "gate-secret", false, now);
    assert!(matches!(r, Err(AuthError::TokenExpired)));
}

#[test]
fn wrong_secret_fails_the_gate() {
    let (users, user) = directory_with("secret@example.com");
    let now = now_ts();
    let token = create_token(&user.id, "other-secret", 10, "user", now);
    let header = format!("Bearer {}", token);

    let r = authenticate(Some(&header), &users, "gate-secret", false, now);
    assert!(matches!(r, Err(AuthError::TokenMalformed)));
}

#[test]
fn deleted_account_is_unauthorized_not_notfound() {
    let (users, _) = directory_with("someone@example.com");
    let now = now_ts();
    // a well-signed token for a subject that resolves to no account
    let token = create_token(&uuid::Uuid::new_v4().to_string(), "gate-secret", 10, "user", now);
    let header = format!("Bearer {}", token);

    let r = authenticate(Some(&header), &users, "gate-secret", false, now);
    assert!(matches!(r, Err(AuthError::PrincipalNotFound)));
    let e = r.unwrap_err().into_app_error();
    assert!(matches!(e, AppError::Unauthorized));
    assert_eq!(e.status_code(), 401);
}

#[test]
fn unverified_account_gets_the_distinguished_outcome() {
    let (users, user) = directory_with("unverified@example.com");
    let now = now_ts();
    // freshly inserted accounts are unverified
    assert!(!user.verified);
    let token = create_token(&user.id, "gate-secret", 10, "user", now);
    let header = format!("Bearer {}", token);

    // with verification enforced: the distinguished outcome
    let r = authenticate(Some(&header), &users, "gate-secret", true, now);
    assert!(matches!(r, Err(AuthError::UnverifiedAccount)));
    let e = r.unwrap_err().into_app_error();
    assert!(matches!(e, AppError::UnverifiedUser(_)));
    // a see-other redirect, not a plain denial: the client is pointed at a
    // resend-verification affordance
    assert_eq!(e.status_code(), 303);

    // without enforcement the same request passes
    let ok = authenticate(Some(&header), &users, "gate-secret", false, now);
    assert!(ok.is_ok());
}
