//! The server-side refresh-token store: hashed records with rotation and a
//! revocation lineage.
//!
//! A raw refresh token is returned to the caller exactly once, at creation
//! or rotation, and is never kept: the store holds only its SHA-256 hex
//! digest, which is also the record key. A record's `revoked` flag is
//! monotonic — every operation here either leaves a record unchanged or sets
//! the flag — and rotation revokes the parent and inserts its child in one
//! step, so no interleaving of these operations can observe one half of a
//! rotation.

use vstd::prelude::*;

use crate::errors::AuthError;
use crate::token::create_token;

verus! {

/// SHA-256 digest of the bytes of a string. Opaque here; the wrapper below
/// ties it to the implementation.
pub uninterp spec fn sha256_of(s: Seq<char>) -> Seq<u8>;

/// One lowercase hex digit for a value below sixteen.
pub open spec fn hex_digit(d: u8) -> char {
    if d < 10 {
        ((d + 48) as u8) as char
    } else {
        ((d + 87) as u8) as char
    }
}

/// Lowercase hex encoding: two digits for each byte, high nibble first.
pub open spec fn hex_of(bytes: Seq<u8>) -> Seq<char> {
    Seq::new(
        2 * bytes.len(),
        |i: int|
            if i % 2 == 0 {
                hex_digit(bytes[i / 2] >> 4)
            } else {
                hex_digit(bytes[i / 2] & 0x0f)
            },
    )
}

/// The storage key derived from a raw token: the lowercase hex form of its
/// SHA-256 digest.
pub open spec fn hash_of(raw: Seq<char>) -> Seq<char> {
    hex_of(sha256_of(raw))
}

/// Relies on `sha2::Sha256::digest`: the 32-byte SHA-256 digest of the
/// input bytes.
#[verifier::external_body]
fn sha256_digest(s: &str) -> (r: Vec<u8>)
    ensures
        r@ == sha256_of(s@),
        r@.len() == 32,
{
    let digest = <sha2::Sha256 as sha2::Digest>::digest(s.as_bytes());
    digest.to_vec()
}

/// Relies on `hex::encode`: lowercase hex, two digits per byte, high nibble
/// first, exactly as `hex_of` states.
#[verifier::external_body]
fn hex_encode(bytes: &Vec<u8>) -> (r: String)
    ensures
        r@ == hex_of(bytes@),
{
    hex::encode(bytes)
}

/// The storage key of a raw token.
pub fn token_hash(raw: &str) -> (r: String)
    ensures
        r@ == hash_of(raw@),
{
    let digest = sha256_digest(raw);
    hex_encode(&digest)
}

/// One stored refresh-token record. The key `token_hash` is the digest of
/// the raw token; the raw value itself appears in no field. A non-null
/// `parent_token_hash` links the record to the one whose rotation produced
/// it, forming the lineage chain of a login session.
#[derive(Clone, Debug)]
pub struct RefreshToken {
    pub token_hash: String,
    pub user_id: Option<String>,
    pub created_at: i64,
    pub expires_at: i64,
    pub parent_token_hash: Option<String>,
    pub revoked: bool,
}

/// The mathematical image of a record: every string replaced by its
/// character sequence.
#[verifier::ext_equal]
pub ghost struct RecordView {
    pub token_hash: Seq<char>,
    pub user_id: Option<Seq<char>>,
    pub created_at: i64,
    pub expires_at: i64,
    pub parent_token_hash: Option<Seq<char>>,
    pub revoked: bool,
}

impl View for RefreshToken {
    type V = RecordView;

    open spec fn view(&self) -> RecordView {
        RecordView {
            token_hash: self.token_hash@,
            user_id: match self.user_id {
                Some(u) => Some(u@),
                None => None,
            },
            created_at: self.created_at,
            expires_at: self.expires_at,
            parent_token_hash: match self.parent_token_hash {
                Some(p) => Some(p@),
                None => None,
            },
            revoked: self.revoked,
        }
    }
}

/// Whether some record in `s` is keyed by `h`.
pub open spec fn has_hash(s: Seq<RecordView>, h: Seq<char>) -> bool {
    exists|i: int| 0 <= i < s.len() && #[trigger] s[i].token_hash == h
}

/// The index of the record keyed by `h`; meaningful whenever `has_hash`
/// holds, and unique under the store's well-formedness.
pub open spec fn index_of_hash(s: Seq<RecordView>, h: Seq<char>) -> int {
    choose|i: int| 0 <= i < s.len() && #[trigger] s[i].token_hash == h
}

/// Whether the record belongs to the given user.
pub open spec fn owned_by(r: RecordView, user_id: Seq<char>) -> bool {
    r.user_id matches Some(u) && u == user_id
}

/// Revocation is monotonic: across one operation no record is removed and
/// no `revoked` flag is ever cleared.
pub open spec fn revocation_monotonic(pre: Seq<RecordView>, post: Seq<RecordView>) -> bool {
    pre.len() <= post.len() && forall|i: int|
        0 <= i < pre.len() && (#[trigger] pre[i]).revoked ==> post[i].revoked
}

/// How many records are not revoked. A freshly created session contributes
/// one; a rotation revokes one record and adds one, leaving the count
/// unchanged — which is why a chain of rotations keeps exactly one live
/// leaf.
pub open spec fn count_active(s: Seq<RecordView>) -> int
    decreases s.len(),
{
    if s.len() == 0 {
        0
    } else {
        count_active(s.drop_last()) + if s.last().revoked {
            0int
        } else {
            1int
        }
    }
}

proof fn lemma_count_active_push(s: Seq<RecordView>, r: RecordView)
    ensures
        count_active(s.push(r)) == count_active(s) + if r.revoked {
            0int
        } else {
            1int
        },
{
    assert(s.push(r).drop_last() =~= s);
    assert(s.push(r).last() == r);
}

proof fn lemma_count_active_update(s: Seq<RecordView>, i: int, r: RecordView)
    requires
        0 <= i < s.len(),
    ensures
        count_active(s.update(i, r)) == count_active(s) - (if s[i].revoked {
            0int
        } else {
            1int
        }) + (if r.revoked {
            0int
        } else {
            1int
        }),
    decreases s.len(),
{
    if i == s.len() - 1 {
        assert(s.update(i, r).drop_last() =~= s.drop_last());
        assert(s.update(i, r).last() == r);
    } else {
        assert(s.update(i, r).drop_last() =~= s.drop_last().update(i, r));
        assert(s.update(i, r).last() == s.last());
        lemma_count_active_update(s.drop_last(), i, r);
    }
}

proof fn lemma_count_active_nonneg(s: Seq<RecordView>)
    ensures
        count_active(s) >= 0,
    decreases s.len(),
{
    if s.len() > 0 {
        lemma_count_active_nonneg(s.drop_last());
    }
}

proof fn lemma_count_active_zero(s: Seq<RecordView>)
    requires
        count_active(s) == 0,
    ensures
        forall|i: int| 0 <= i < s.len() ==> (#[trigger] s[i]).revoked,
    decreases s.len(),
{
    if s.len() > 0 {
        lemma_count_active_nonneg(s.drop_last());
        lemma_count_active_zero(s.drop_last());
        assert(s.last().revoked);
        assert forall|i: int| 0 <= i < s.len() implies (#[trigger] s[i]).revoked by {
            if i < s.len() - 1 {
                assert(s[i] == s.drop_last()[i]);
            } else {
                assert(s[i] == s.last());
            }
        }
    }
}

/// The leaf statement behind rotation chains: a session is created with one
/// live record, and every rotation revokes one record while adding one live
/// child, so the count of live records stays one — and a store whose live
/// count is one has exactly one index that is not revoked.
pub proof fn lemma_one_active_leaf(s: Seq<RecordView>)
    requires
        count_active(s) == 1,
    ensures
        exists|i: int| 0 <= i < s.len() && !(#[trigger] s[i]).revoked,
        forall|i: int, j: int|
            (0 <= i < s.len() && !(#[trigger] s[i]).revoked && 0 <= j < s.len() && !(
            #[trigger] s[j]).revoked) ==> i == j,
    decreases s.len(),
{
    assert(s.len() > 0);
    let head = s.drop_last();
    assert(forall|i: int| 0 <= i < s.len() - 1 ==> s[i] == #[trigger] head[i]);
    assert(s[s.len() - 1] == s.last());
    if s.last().revoked {
        lemma_one_active_leaf(head);
        let w = choose|i: int| 0 <= i < head.len() && !(#[trigger] head[i]).revoked;
        assert(0 <= w < s.len() && !s[w].revoked);
        assert forall|i: int, j: int|
            (0 <= i < s.len() && !(#[trigger] s[i]).revoked && 0 <= j < s.len() && !(
            #[trigger] s[j]).revoked) implies i == j by {
            assert(i < s.len() - 1 && j < s.len() - 1);
            assert(!head[i].revoked && !head[j].revoked);
        }
    } else {
        lemma_count_active_zero(head);
        assert(0 <= s.len() - 1 < s.len() && !s[s.len() - 1].revoked);
        assert forall|i: int, j: int|
            (0 <= i < s.len() && !(#[trigger] s[i]).revoked && 0 <= j < s.len() && !(
            #[trigger] s[j]).revoked) implies i == j by {
            if i < s.len() - 1 {
                assert(head[i].revoked);
            }
            if j < s.len() - 1 {
                assert(head[j].revoked);
            }
        }
    }
}

/// The persisted set of refresh-token records, keyed by token hash. Models
/// a uniquely keyed relational table; key uniqueness is the store's
/// invariant and every operation preserves it.
#[derive(Debug)]
pub struct RefreshTokenStore {
    records: Vec<RefreshToken>,
}

impl View for RefreshTokenStore {
    type V = Seq<RecordView>;

    closed spec fn view(&self) -> Seq<RecordView> {
        self.records@.map_values(|r: RefreshToken| r@)
    }
}

impl RefreshTokenStore {
    /// Key uniqueness: no two records share a token hash.
    pub open spec fn wf(&self) -> bool {
        forall|i: int, j: int|
            0 <= i < j < self@.len() ==> #[trigger] self@[i].token_hash != #[trigger] self@[j].token_hash
    }

    pub fn new() -> (r: Self)
        ensures
            r.wf(),
            r@ =~= Seq::<RecordView>::empty(),
    {
        let r = RefreshTokenStore { records: Vec::new() };
        proof {
            assert(r.records@.map_values(|x: RefreshToken| x@) =~= Seq::<RecordView>::empty());
        }
        r
    }

    /// The record at position `i`, looked at through the view.
    fn record_at(&self, i: usize) -> (r: RefreshToken)
        requires
            i < self@.len(),
        ensures
            r@ == self@[i as int],
    {
        let rec = &self.records[i];
        let copy = RefreshToken {
            token_hash: rec.token_hash.clone(),
            user_id: match &rec.user_id {
                Some(u) => Some(u.clone()),
                None => None,
            },
            created_at: rec.created_at,
            expires_at: rec.expires_at,
            parent_token_hash: match &rec.parent_token_hash {
                Some(p) => Some(p.clone()),
                None => None,
            },
            revoked: rec.revoked,
        };
        proof {
            assert(self@[i as int] == self.records@[i as int]@);
        }
        copy
    }

    /// Position of the record keyed by `hash`, if any.
    fn position_of(&self, hash: &String) -> (r: Option<usize>)
        requires
            self.wf(),
        ensures
            (match r {
                Some(i) => i < self@.len() && self@[i as int].token_hash == hash@ && i
                    == index_of_hash(self@, hash@),
                None => !has_hash(self@, hash@),
            }),
    {
        let n = self.records.len();
        let mut i: usize = 0;
        while i < n
            invariant
                self.wf(),
                n == self.records@.len(),
                i <= n,
                self@.len() == n,
                forall|j: int| 0 <= j < i ==> #[trigger] self@[j].token_hash != hash@,
            decreases n - i,
        {
            proof {
                assert(self@[i as int] == self.records@[i as int]@);
            }
            if self.records[i].token_hash == *hash {
                proof {
                    assert(self.records@[i as int].token_hash@ == hash@);
                    assert(self@[i as int].token_hash == hash@);
                    assert(has_hash(self@, hash@));
                    let k = index_of_hash(self@, hash@);
                    assert(0 <= k < self@.len() && self@[k].token_hash == hash@);
                    assert(k == i as int) by {
                        if k < i as int {
                            assert(self@[k].token_hash != hash@);
                        }
                        if (i as int) < k {
                            assert(self@[i as int].token_hash != self@[k].token_hash);
                        }
                    }
                }
                return Some(i);
            }
            i += 1;
        }
        None
    }

    /// Hash the presented raw token and look its record up by key. `Some`
    /// exactly when a record keyed by the hash exists, and then the returned
    /// record is that record.
    pub fn find(&self, token: &str) -> (r: Option<RefreshToken>)
        requires
            self.wf(),
        ensures
            (match r {
                Some(rec) => has_hash(self@, hash_of(token@)) && rec@ == self@[index_of_hash(
                    self@,
                    hash_of(token@),
                )],
                None => !has_hash(self@, hash_of(token@)),
            }),
    {
        let hash = token_hash(token);
        match self.position_of(&hash) {
            Some(i) => Some(self.record_at(i)),
            None => None,
        }
    }

    /// Store a record for an externally minted raw token: key `hash_of` the
    /// raw value — no field holds the raw token itself — owned by `user_id`,
    /// expiring `expiration_in_mins` minutes after `now`, with no parent and
    /// not revoked. Fails only when a record with the same key already
    /// exists, as a uniquely keyed table would; nothing changes then.
    pub fn create(&mut self, token: &str, user_id: &str, expiration_in_mins: i64, now: i64) -> (r:
        Result<(), AuthError>)
        requires
            old(self).wf(),
            0 <= now,
            0 <= expiration_in_mins,
            now + 60 * expiration_in_mins <= i64::MAX,
        ensures
            final(self).wf(),
            revocation_monotonic(old(self)@, final(self)@),
            r matches Ok(u) ==> !has_hash(old(self)@, hash_of(token@)) && final(self)@ =~= old(self)@.push(
                (RecordView {
                    token_hash: hash_of(token@),
                    user_id: Some(user_id@),
                    created_at: now,
                    expires_at: (now + 60 * expiration_in_mins) as i64,
                    parent_token_hash: None,
                    revoked: false,
                }),
            ),
            r matches Ok(u) ==> count_active(final(self)@) == count_active(old(self)@) + 1,
            r matches Err(e) ==> e == AuthError::StorageUnavailable && has_hash(
                old(self)@,
                hash_of(token@),
            ) && final(self)@ == old(self)@,
    {
        let hash = token_hash(token);
        match self.position_of(&hash) {
            Some(_) => Err(AuthError::StorageUnavailable),
            None => {
                let rec = RefreshToken {
                    token_hash: hash,
                    user_id: Some(String::from_str(user_id)),
                    created_at: now,
                    expires_at: now + 60 * expiration_in_mins,
                    parent_token_hash: None,
                    revoked: false,
                };
                let ghost pre_view = self@;
                self.records.push(rec);
                proof {
                    assert(self@ =~= pre_view.push(rec@));
                    assert(forall|k: int| 0 <= k < pre_view.len() ==> #[trigger] self@[k]
                        == pre_view[k]);
                    assert(self@.last().token_hash == hash_of(token@));
                    lemma_count_active_push(pre_view, rec@);
                }
                Ok(())
            },
        }
    }

    /// Mint a fresh raw refresh token for `user_id` and store its record:
    /// the caller receives the raw value — the only time it exists outside
    /// the client — and the store keeps only its hash.
    pub fn issue_new_refresh_token(
        &mut self,
        user_id: &str,
        secret: &str,
        expiration_in_mins: i64,
        now: i64,
    ) -> (r: Result<String, AuthError>)
        requires
            old(self).wf(),
            0 <= now,
            0 <= expiration_in_mins,
            now + 60 * expiration_in_mins <= i64::MAX,
        ensures
            final(self).wf(),
            revocation_monotonic(old(self)@, final(self)@),
            r matches Ok(raw) ==> !has_hash(old(self)@, hash_of(raw@)) && final(self)@ =~= old(
                self,
            )@.push(
                (RecordView {
                    token_hash: hash_of(raw@),
                    user_id: Some(user_id@),
                    created_at: now,
                    expires_at: (now + 60 * expiration_in_mins) as i64,
                    parent_token_hash: None,
                    revoked: false,
                }),
            ),
            r matches Ok(raw) ==> count_active(final(self)@) == count_active(old(self)@) + 1,
            r matches Err(e) ==> e == AuthError::StorageUnavailable && final(self)@ == old(self)@,
    {
        let raw = create_token(user_id, secret, expiration_in_mins, "", now);
        match self.create(raw.as_str(), user_id, expiration_in_mins, now) {
            Ok(_) => Ok(raw),
            Err(e) => Err(e),
        }
    }

    /// Rotate the record keyed by `parent_token_hash`: inside one atomic
    /// step, mint a fresh raw token, insert its record as the child of the
    /// parent, and set the parent's `revoked` flag. Both writes happen or
    /// neither. The update is conditional on the parent being live, so a
    /// replay of a rotation fails closed with `TokenRevoked` instead of
    /// growing a second child. A rotation never changes the number of
    /// unrevoked records: the chain keeps exactly one live leaf.
    pub fn issue_new(
        &mut self,
        parent_token_hash: &String,
        secret: &str,
        expiration_in_mins: i64,
        now: i64,
    ) -> (r: Result<String, AuthError>)
        requires
            old(self).wf(),
            0 <= now,
            0 <= expiration_in_mins,
            now + 60 * expiration_in_mins <= i64::MAX,
        ensures
            final(self).wf(),
            revocation_monotonic(old(self)@, final(self)@),
            (!has_hash(old(self)@, parent_token_hash@) || old(self)@[index_of_hash(
                old(self)@,
                parent_token_hash@,
            )].revoked) ==> (r matches Err(e) && e == AuthError::TokenRevoked && final(self)@ == old(
                self,
            )@),
            r matches Err(e) ==> final(self)@ == old(self)@ && ({
                let pre = old(self)@;
                let live = has_hash(pre, parent_token_hash@) && !pre[index_of_hash(
                    pre,
                    parent_token_hash@,
                )].revoked;
                ||| e == AuthError::TokenRevoked && !live
                ||| e == AuthError::PrincipalNotFound && live && pre[index_of_hash(
                    pre,
                    parent_token_hash@,
                )].user_id is None
                ||| e == AuthError::StorageUnavailable && live && pre[index_of_hash(
                    pre,
                    parent_token_hash@,
                )].user_id is Some
            }),
            r matches Ok(raw) ==> ({
                let pre = old(self)@;
                let i = index_of_hash(pre, parent_token_hash@);
                &&& has_hash(pre, parent_token_hash@)
                &&& !pre[i].revoked
                &&& pre[i].user_id is Some
                &&& !has_hash(pre, hash_of(raw@))
                &&& final(self)@ =~= pre.update(i, (RecordView { revoked: true, ..pre[i] })).push(
                    (RecordView {
                        token_hash: hash_of(raw@),
                        user_id: pre[i].user_id,
                        created_at: now,
                        expires_at: (now + 60 * expiration_in_mins) as i64,
                        parent_token_hash: Some(parent_token_hash@),
                        revoked: false,
                    }),
                )
                &&& count_active(final(self)@) == count_active(pre)
            }),
    {
        let ghost pre_view = self@;
        let i = match self.position_of(parent_token_hash) {
            Some(i) => i,
            None => {
                return Err(AuthError::TokenRevoked);
            },
        };
        proof {
            assert(self@[i as int] == self.records@[i as int]@);
        }
        if self.records[i].revoked {
            return Err(AuthError::TokenRevoked);
        }
        let user_id = match &self.records[i].user_id {
            Some(u) => u.clone(),
            None => {
                return Err(AuthError::PrincipalNotFound);
            },
        };
        let raw = create_token(user_id.as_str(), secret, expiration_in_mins, "", now);
        let new_hash = token_hash(&raw);
        if let Some(_) = self.position_of(&new_hash) {
            return Err(AuthError::StorageUnavailable);
        }
        proof {
            assert(forall|k: int| 0 <= k < self.records@.len() ==> self@[k] == #[trigger] self
                .records@[k]@);
        }
        self.records[i].revoked = true;
        proof {
            assert(self@ =~= pre_view.update(
                i as int,
                (RecordView { revoked: true, ..pre_view[i as int] }),
            ));
        }
        let ghost mid_view = self@;
        let rec = RefreshToken {
            token_hash: new_hash,
            user_id: Some(user_id),
            created_at: now,
            expires_at: now + 60 * expiration_in_mins,
            parent_token_hash: Some(parent_token_hash.clone()),
            revoked: false,
        };
        self.records.push(rec);
        proof {
            assert(self@ =~= mid_view.push(rec@));
            lemma_count_active_update(
                pre_view,
                i as int,
                (RecordView { revoked: true, ..pre_view[i as int] }),
            );
            lemma_count_active_push(mid_view, rec@);
        }
        Ok(raw)
    }

    /// Set the `revoked` flag of the record keyed by `token_hash`. Touching
    /// nothing else; a miss changes nothing, and a record already revoked
    /// stays revoked — the flag is monotonic.
    pub fn revoke(&mut self, token_hash: &String)
        requires
            old(self).wf(),
        ensures
            final(self).wf(),
            revocation_monotonic(old(self)@, final(self)@),
            final(self)@.len() == old(self)@.len(),
            forall|i: int|
                0 <= i < old(self)@.len() ==> #[trigger] final(self)@[i] == (if old(self)@[i].token_hash
                    == token_hash@ {
                    RecordView { revoked: true, ..old(self)@[i] }
                } else {
                    old(self)@[i]
                }),
    {
        let ghost pre_view = self@;
        match self.position_of(token_hash) {
            Some(i) => {
                proof {
                    assert(forall|k: int| 0 <= k < self.records@.len() ==> self@[k]
                        == #[trigger] self.records@[k]@);
                }
                self.records[i].revoked = true;
                proof {
                    assert(self@ =~= pre_view.update(
                        i as int,
                        (RecordView { revoked: true, ..pre_view[i as int] }),
                    ));
                    assert(forall|k: int|
                        0 <= k < pre_view.len() && k != i as int ==> pre_view[k].token_hash
                            != token_hash@);
                }
            },
            None => {},
        }
    }

    /// Revoke every record owned by `user_id` that is not already revoked,
    /// and leave every record owned by anyone else — and every field but the
    /// flag — untouched.
    pub fn revoke_all_user_refresh_tokens(&mut self, user_id: &str)
        requires
            old(self).wf(),
        ensures
            final(self).wf(),
            revocation_monotonic(old(self)@, final(self)@),
            final(self)@.len() == old(self)@.len(),
            forall|i: int|
                0 <= i < old(self)@.len() ==> #[trigger] final(self)@[i] == (if owned_by(
                    old(self)@[i],
                    user_id@,
                ) {
                    RecordView { revoked: true, ..old(self)@[i] }
                } else {
                    old(self)@[i]
                }),
    {
        let uid = String::from_str(user_id);
        let n = self.records.len();
        let mut i: usize = 0;
        while i < n
            invariant
                uid@ == user_id@,
                n == self.records@.len(),
                self@.len() == n,
                old(self)@.len() == n,
                i <= n,
                forall|j: int|
                    0 <= j < i ==> #[trigger] self@[j] == (if owned_by(old(self)@[j], user_id@) {
                        RecordView { revoked: true, ..old(self)@[j] }
                    } else {
                        old(self)@[j]
                    }),
                forall|j: int| i <= j < n ==> #[trigger] self@[j] == old(self)@[j],
            decreases n - i,
        {
            proof {
                assert(self@[i as int] == self.records@[i as int]@);
            }
            let is_owner = match &self.records[i].user_id {
                Some(u) => u.eq(&uid),
                None => false,
            };
            if is_owner {
                let ghost pre_view = self@;
                self.records[i].revoked = true;
                proof {
                    assert(self@ =~= pre_view.update(
                        i as int,
                        (RecordView { revoked: true, ..pre_view[i as int] }),
                    ));
                }
            }
            i += 1;
        }
        proof {
            assert forall|a: int, b: int| 0 <= a < b < self@.len() implies self@[a].token_hash
                != self@[b].token_hash by {
                assert(self@[a].token_hash == old(self)@[a].token_hash);
                assert(self@[b].token_hash == old(self)@[b].token_hash);
            }
        }
    }
}

} // verus!
