use journly_auth::errors::AuthError;
use journly_auth::store::token_hash;
use journly_auth::store::RefreshTokenStore;

fn now_ts() -> i64 {
    chrono::Utc::now().timestamp()
}

#[test]
fn token_hash_is_the_sha256_hex_digest() {
    // the digest of the empty string, computed independently
    assert_eq!(
        token_hash(""),
        "e3b0c44298fc1c149afbf4c8996fb92427ae41e4649b934ca495991b7852b855"
    );
    // and through the real hash libraries, for an arbitrary value
    let raw = "some-raw-refresh-token";
    let expected = hex::encode(<sha2::Sha256 as sha2::Digest>::digest(raw.as_bytes()));
    assert_eq!(token_hash(raw), expected);
}

#[test]
fn created_record_stores_only_the_hash() {
    let mut store = RefreshTokenStore::new();
    let now = now_ts();
    let user_id = uuid::Uuid::new_v4().to_string();

    let raw = store
        .issue_new_refresh_token(&user_id, "refresh-secret", 10, now)
        .unwrap();

    let record = store.find(&raw).unwrap();
    assert_eq!(record.token_hash, token_hash(&raw));
    assert_ne!(record.token_hash, raw);
    assert_eq!(record.user_id, Some(user_id));
    assert_eq!(record.created_at, now);
    assert_eq!(record.expires_at, now + 10 * 60);
    assert_eq!(record.parent_token_hash, None);
    assert!(!record.revoked);
}

#[test]
fn find_unknown_token_returns_none() {
    let store = RefreshTokenStore::new();
    assert!(store.find("never-issued").is_none());
}

#[test]
fn rotation_revokes_parent_and_links_child() {
    let mut store = RefreshTokenStore::new();
    let now = now_ts();
    let user_id = uuid::Uuid::new_v4().to_string();

    let t0 = store
        .issue_new_refresh_token(&user_id, "refresh-secret", 10, now)
        .unwrap();
    let h0 = token_hash(&t0);

    let t1 = store.issue_new(&h0, "refresh-secret", 10, now).unwrap();

    let r0 = store.find(&t0).unwrap();
    assert!(r0.revoked);
    let r1 = store.find(&t1).unwrap();
    assert!(!r1.revoked);
    assert_eq!(r1.parent_token_hash, Some(h0.clone()));
    assert_eq!(r1.user_id, Some(user_id));

    // replaying the rotation of the revoked parent fails closed
    let replay = store.issue_new(&h0, "refresh-secret", 10, now);
    assert!(matches!(replay, Err(AuthError::TokenRevoked)));
    // and did not grow a second child
    assert!(store.find(&t1).is_some());
    let r0_after = store.find(&t0).unwrap();
    assert!(r0_after.revoked);
}

#[test]
fn rotation_chain_keeps_exactly_one_live_leaf() {
    let mut store = RefreshTokenStore::new();
    let now = now_ts();
    let user_id = uuid::Uuid::new_v4().to_string();

    let t0 = store
        .issue_new_refresh_token(&user_id, "refresh-secret", 10, now)
        .unwrap();
    let mut raws = vec![t0];
    for _ in 0..4 {
        let parent_hash = token_hash(raws.last().unwrap());
        let next = store
            .issue_new(&parent_hash, "refresh-secret", 10, now)
            .unwrap();
        raws.push(next);
    }

    // every token but the newest is revoked; the newest is the one live leaf
    let mut live = 0;
    for (i, raw) in raws.iter().enumerate() {
        let rec = store.find(raw).unwrap();
        if i + 1 < raws.len() {
            assert!(rec.revoked);
        } else {
            assert!(!rec.revoked);
        }
        if !rec.revoked {
            live += 1;
        }
    }
    assert_eq!(live, 1);

    // the lineage chain is linear: each child names its parent's hash
    for i in 1..raws.len() {
        let rec = store.find(&raws[i]).unwrap();
        assert_eq!(rec.parent_token_hash, Some(token_hash(&raws[i - 1])));
    }
}

#[test]
fn rotating_a_revoked_token_fails() {
    let mut store = RefreshTokenStore::new();
    let now = now_ts();
    let user_id = uuid::Uuid::new_v4().to_string();

    let t0 = store
        .issue_new_refresh_token(&user_id, "refresh-secret", 10, now)
        .unwrap();
    let h0 = token_hash(&t0);
    store.revoke(&h0);

    let result = store.issue_new(&h0, "refresh-secret", 10, now);
    assert!(matches!(result, Err(AuthError::TokenRevoked)));
    // rotating a hash that was never stored fails the same way
    let unknown = token_hash("never-issued");
    assert!(matches!(
        store.issue_new(&unknown, "refresh-secret", 10, now),
        Err(AuthError::TokenRevoked)
    ));
}

#[test]
fn revoke_all_touches_only_that_users_records() {
    let mut store = RefreshTokenStore::new();
    let now = now_ts();
    let alice = uuid::Uuid::new_v4().to_string();
    let bob = uuid::Uuid::new_v4().to_string();

    let a1 = store
        .issue_new_refresh_token(&alice, "refresh-secret", 10, now)
        .unwrap();
    let a2 = store
        .issue_new_refresh_token(&alice, "refresh-secret", 10, now)
        .unwrap();
    let b1 = store
        .issue_new_refresh_token(&bob, "refresh-secret", 10, now)
        .unwrap();

    store.revoke_all_user_refresh_tokens(&alice);

    assert!(store.find(&a1).unwrap().revoked);
    assert!(store.find(&a2).unwrap().revoked);
    let bob_record = store.find(&b1).unwrap();
    assert!(!bob_record.revoked);
    assert_eq!(bob_record.user_id, Some(bob));
}

#[test]
fn storing_the_same_raw_token_twice_is_refused() {
    let mut store = RefreshTokenStore::new();
    let now = now_ts();
    let user_id = uuid::Uuid::new_v4().to_string();

    store.create("the-raw-token", &user_id, 10, now).unwrap();
    let dup = store.create("the-raw-token", &user_id, 10, now);
    assert!(matches!(dup, Err(AuthError::StorageUnavailable)));
    // the store is unchanged: still exactly the first record
    let rec = store.find("the-raw-token").unwrap();
    assert!(!rec.revoked);
    assert_eq!(rec.created_at, now);
}

#[test]
fn revoke_is_idempotent_and_monotonic() {
    let mut store = RefreshTokenStore::new();
    let now = now_ts();
    let user_id = uuid::Uuid::new_v4().to_string();

    let t0 = store
        .issue_new_refresh_token(&user_id, "refresh-secret", 10, now)
        .unwrap();
    let h0 = token_hash(&t0);
    store.revoke(&h0);
    assert!(store.find(&t0).unwrap().revoked);
    store.revoke(&h0);
    assert!(store.find(&t0).unwrap().revoked);
}
