//! Stateless access-token issuance and verification.
//!
//! Tokens are compact three-segment signed tokens (header.payload.signature)
//! under a symmetric secret. A minted token is a pure function of its claim
//! fields and the secret, named `token_of` below; verification checks the
//! signature only, and callers are required to re-check the time bounds
//! themselves (see `gate`), so that a permissive or misconfigured library
//! check can never widen the acceptance window.

use vstd::prelude::*;

use crate::errors::AuthError;

verus! {

/// The claim set carried by an access token. Never persisted; validity is
/// purely cryptographic and time-bound.
#[derive(Clone, Debug)]
pub struct Claims {
    /// Subject: the user this token speaks for.
    pub sub: String,
    /// Expiry, seconds since the Unix epoch.
    pub exp: i64,
    /// Issued-at, seconds since the Unix epoch.
    pub iat: i64,
    /// Fresh unique identifier of this token.
    pub jti: String,
    /// Role string of the subject at issuance time.
    pub role: String,
}

/// The mathematical image of a claim set.
#[verifier::ext_equal]
pub ghost struct ClaimsView {
    pub sub: Seq<char>,
    pub exp: i64,
    pub iat: i64,
    pub jti: Seq<char>,
    pub role: Seq<char>,
}

impl View for Claims {
    type V = ClaimsView;

    open spec fn view(&self) -> ClaimsView {
        ClaimsView {
            sub: self.sub@,
            exp: self.exp,
            iat: self.iat,
            jti: self.jti@,
            role: self.role@,
        }
    }
}

/// The compact signed token minted for a claim set under a secret. Its value
/// is fixed by the signing library; nothing here depends on what it looks
/// like, only on the round trip stated by the two wrappers below.
pub uninterp spec fn token_of(
    sub: Seq<char>,
    role: Seq<char>,
    iat: i64,
    exp: i64,
    jti: Seq<char>,
    secret: Seq<char>,
) -> Seq<char>;

/// Relies on `jsonwebtoken::encode` with the default `HS256` header and a
/// secret-derived HMAC key: the token is a deterministic function of the
/// claim fields and the secret alone (the payload map is serialized with
/// sorted keys and HMAC signing is deterministic). For this algorithm and
/// claim shape `encode` cannot fail, so the fallback arm is never taken.
#[verifier::external_body]
fn encode_claims(claims: &Claims, secret: &str) -> (token: String)
    ensures
        token@ == token_of(
            claims.sub@,
            claims.role@,
            claims.iat,
            claims.exp,
            claims.jti@,
            secret@,
        ),
{
    let mut m = serde_json::Map::new();
    m.insert("sub".to_string(), serde_json::Value::String(claims.sub.clone()));
    m.insert("exp".to_string(), serde_json::Value::from(claims.exp));
    m.insert("iat".to_string(), serde_json::Value::from(claims.iat));
    m.insert("jti".to_string(), serde_json::Value::String(claims.jti.clone()));
    m.insert("role".to_string(), serde_json::Value::String(claims.role.clone()));
    let key = jsonwebtoken::EncodingKey::from_secret(secret.as_bytes());
    jsonwebtoken::encode(&jsonwebtoken::Header::default(), &serde_json::Value::Object(m), &key)
        .unwrap_or_default()
}

/// What the signature check and payload parse answer for a token under a
/// secret. With expiry validation disabled the decode depends on the token
/// and the secret alone, so its outcome is a function of the two and has a
/// name; `None` is a rejection.
pub uninterp spec fn decoded_of(token: Seq<char>, secret: Seq<char>) -> Option<ClaimsView>;

/// Holds when `r` answers a decode of `token` under `secret` correctly on
/// every minted token: whenever `token` is what `encode_claims` produces for
/// some claim fields under this secret, `r` carries exactly those fields.
pub open spec fn decodes_minted_tokens(r: Option<Claims>, token: Seq<char>, secret: Seq<char>) -> bool {
    forall|sub: Seq<char>, role: Seq<char>, iat: i64, exp: i64, jti: Seq<char>|
        token == token_of(sub, role, iat, exp, jti, secret) ==> (r matches Some(c)
            && c.sub@ == sub && c.role@ == role && c.iat == iat && c.exp == exp && c.jti@
            == jti)
}

/// The round-trip law of the token pair: whenever a decode answer is
/// correct on minted tokens — which `verify_jwt` guarantees of every answer
/// it returns — decoding a token minted for some claim fields under the
/// same secret succeeds and yields exactly those fields. Verification with
/// a different secret is a different token family altogether, about which
/// this law says nothing; rejecting it rests on the signature check of the
/// signing library.
pub proof fn lemma_minted_token_roundtrip(
    r: Option<Claims>,
    sub: Seq<char>,
    role: Seq<char>,
    iat: i64,
    exp: i64,
    jti: Seq<char>,
    secret: Seq<char>,
)
    requires
        decodes_minted_tokens(r, token_of(sub, role, iat, exp, jti, secret), secret),
    ensures
        r matches Some(c) && c.sub@ == sub && c.role@ == role && c.iat == iat && c.exp == exp
            && c.jti@ == jti,
{
}

/// Relies on `jsonwebtoken::decode`: it verifies the HMAC signature and
/// deserializes the payload that `encode` serialized, so a token minted by
/// `encode_claims` with the same secret decodes back to the claims that went
/// in. Expiry validation is disabled here, which makes the result a function
/// of the token and secret alone; time bounds are re-checked by the caller.
#[verifier::external_body]
fn decode_claims(token: &str, secret: &str) -> (r: Option<Claims>)
    ensures
        r matches Some(c) ==> decoded_of(token@, secret@) == Some(c@),
        r is None ==> decoded_of(token@, secret@) is None,
        decodes_minted_tokens(r, token@, secret@),
{
    let mut validation = jsonwebtoken::Validation::default();
    validation.validate_exp = false;
    validation.required_spec_claims.clear();
    let key = jsonwebtoken::DecodingKey::from_secret(secret.as_bytes());
    let c = jsonwebtoken::decode::<serde_json::Value>(token, &key, &validation).ok()?.claims;
    Some(Claims {
        sub: c.get("sub")?.as_str()?.to_string(),
        exp: c.get("exp")?.as_i64()?,
        iat: c.get("iat")?.as_i64()?,
        jti: c.get("jti")?.as_str()?.to_string(),
        role: c.get("role")?.as_str()?.to_string(),
    })
}

/// Mint a signed token for `user_id` with the given role, issued at `now`
/// and expiring `expiration_in_mins` minutes later. The token identifier is
/// drawn fresh, so the result is pinned only up to its value.
pub fn create_token(
    user_id: &str,
    secret: &str,
    expiration_in_mins: i64,
    role: &str,
    now: i64,
) -> (token: String)
    requires
        0 <= now,
        0 <= expiration_in_mins,
        now + 60 * expiration_in_mins <= i64::MAX,
    ensures
        exists|jti: Seq<char>|
            token@ == #[trigger] token_of(
                user_id@,
                role@,
                now,
                (now + 60 * expiration_in_mins) as i64,
                jti,
                secret@,
            ),
{
    let claims = Claims {
        sub: String::from_str(user_id),
        exp: now + 60 * expiration_in_mins,
        iat: now,
        jti: crate::ids::fresh_uuid(),
        role: String::from_str(role),
    };
    let token = encode_claims(&claims, secret);
    proof {
        let jti = claims.jti@;
        assert(token@ == token_of(
            user_id@,
            role@,
            now,
            (now + 60 * expiration_in_mins) as i64,
            jti,
            secret@,
        ));
    }
    token
}

/// Check the signature of `token` against `secret` and return the parsed
/// claims. Every token minted by `create_token` with this secret verifies,
/// and yields exactly the claims it was minted with; any rejection is
/// reported as `TokenMalformed`. Time bounds are deliberately not checked
/// here — the authorization gate re-validates them.
pub fn verify_jwt(token: &str, secret: &str) -> (r: Result<Claims, AuthError>)
    ensures
        forall|sub: Seq<char>, role: Seq<char>, iat: i64, exp: i64, jti: Seq<char>|
            token@ == token_of(sub, role, iat, exp, jti, secret@) ==> (r matches Ok(c)
                && c.sub@ == sub && c.role@ == role && c.iat == iat && c.exp == exp && c.jti@
                == jti),
        r matches Ok(c) ==> decoded_of(token@, secret@) == Some(c@),
        r matches Err(e) ==> e == AuthError::TokenMalformed && decoded_of(token@, secret@) is None,
{
    match decode_claims(token, secret) {
        Some(claims) => Ok(claims),
        None => Err(AuthError::TokenMalformed),
    }
}

} // verus!
