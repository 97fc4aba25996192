use vstd::prelude::*;
use vstd::string::StringSliceAdditionalSpecFns;
use crate::errors::{CustomJWTTokenError, GenericError};
use crate::schemas::JWTClaims;

verus! {

/// Seconds in one hour.
pub const SECONDS_PER_HOUR: i128 = 3600;

/// The HS256 token that jsonwebtoken writes for the claims `{sub, exp}` under a key.
pub uninterp spec fn hs256_token(sub: Seq<char>, exp: u64, key: Seq<u8>) -> Seq<char>;

/// The `sub` text and `exp` of a token whose HS256 signature checks out under a
/// key, or `None`. The expiry instant is not compared with any clock here.
pub uninterp spec fn hs256_claims(token: Seq<char>, key: Seq<u8>) -> Option<(Seq<char>, u64)>;

/// The 128-bit value of a UUID written as text, or `None` if the text is no UUID.
pub uninterp spec fn uuid_value(text: Seq<char>) -> Option<u128>;

/// The lower-case hexadecimal digit for `d` (below 16).
pub open spec fn hex_digit(d: int) -> char {
    seq!['0', '1', '2', '3', '4', '5', '6', '7', '8', '9', 'a', 'b', 'c', 'd', 'e', 'f'][d]
}

/// The last `n` hexadecimal digits of `v`, most significant first.
pub open spec fn hex_digits(v: nat, n: nat) -> Seq<char>
    decreases n,
{
    if n == 0 {
        Seq::empty()
    } else {
        hex_digits(v / 16, (n - 1) as nat).push(hex_digit((v % 16) as int))
    }
}

/// The hyphenated lower-case text of a UUID: 32 hexadecimal digits of its
/// 128-bit value, grouped 8-4-4-4-12.
pub open spec fn uuid_string(value: u128) -> Seq<char> {
    let v = value as nat;
    hex_digits(v / 0x1_0000_0000_0000_0000_0000_0000, 8) + "-"@
        + hex_digits(v / 0x1_0000_0000_0000_0000_0000, 4) + "-"@
        + hex_digits(v / 0x1_0000_0000_0000_0000, 4) + "-"@
        + hex_digits(v / 0x1_0000_0000_0000, 4) + "-"@
        + hex_digits(v, 12)
}

/// Relies on jsonwebtoken::encode with an HS256 header and the claims
/// `{"sub": sub, "exp": exp}`: the token is a function of the claims and the key,
/// and jsonwebtoken::decode under the same key gives the same claims back. With
/// an HMAC key under an HS256 header, encoding does not fail.
#[verifier::external_body]
fn encode_hs256(sub: &str, exp: u64, key: &[u8]) -> (r: Option<String>)
    ensures
        r is Some,
        r matches Some(t) ==> t@ == hs256_token(sub@, exp, key@),
        r matches Some(t) ==> hs256_claims(t@, key@) == Some((sub@, exp)),
{
    let mut claims = serde_json::Map::new();
    claims.insert("sub".to_string(), serde_json::Value::from(sub));
    claims.insert("exp".to_string(), serde_json::Value::from(exp));
    let header = jsonwebtoken::Header::new(jsonwebtoken::Algorithm::HS256);
    let key = jsonwebtoken::EncodingKey::from_secret(key);
    jsonwebtoken::encode(&header, &serde_json::Value::Object(claims), &key).ok()
}

/// Relies on jsonwebtoken::decode with HS256 and its expiry check switched off,
/// reading the `sub` string and the `exp` integer: the outcome depends on the
/// token and the key alone.
#[verifier::external_body]
fn decode_hs256(token: &str, key: &[u8]) -> (r: Option<(String, u64)>)
    ensures
        hs256_claims(token@, key@) == (match r {
            Some(c) => Some((c.0@, c.1)),
            None => None,
        }),
{
    let mut validation = jsonwebtoken::Validation::new(jsonwebtoken::Algorithm::HS256);
    validation.validate_exp = false;
    let key = jsonwebtoken::DecodingKey::from_secret(key);
    let data = jsonwebtoken::decode::<serde_json::Value>(token, &key, &validation).ok()?;
    Some((data.claims["sub"].as_str()?.to_string(), data.claims["exp"].as_u64()?))
}

/// Relies on uuid::Uuid::parse_str, read as the UUID's 128-bit value.
#[verifier::external_body]
fn parse_uuid(text: &str) -> (r: Option<u128>)
    ensures
        r == uuid_value(text@),
{
    uuid::Uuid::parse_str(text).ok().map(|u| u.as_u128())
}

/// Relies on uuid::Uuid's `Display`: the hyphenated lower-case form, which
/// parse_str reads back.
#[verifier::external_body]
fn uuid_text(value: u128) -> (r: String)
    ensures
        r@ == uuid_string(value),
        uuid_value(r@) == Some(value),
{
    uuid::Uuid::from_u128(value).to_string()
}

/// Relies on chrono::Utc::now: the wall clock, in Unix seconds.
#[verifier::external_body]
pub(crate) fn now_unix() -> (r: i64) {
    chrono::Utc::now().timestamp()
}

/// The claims of a token signed with a key, with its subject read as a UUID.
pub open spec fn token_claims(token: Seq<char>, key: Seq<u8>) -> Option<(u128, u64)> {
    match hs256_claims(token, key) {
        None => None,
        Some(c) => match uuid_value(c.0) {
            None => None,
            Some(sub) => Some((sub, c.1)),
        },
    }
}

/// A token is expired once its expiry instant has passed; at that very second
/// it is still valid. No leeway.
pub open spec fn is_expired(exp: u64, now: u64) -> bool {
    now > exp
}

/// `r` is what verifying a token with the given claims at `now` yields.
pub open spec fn verified_as(r: Result<u128, CustomJWTTokenError>, claims: Option<(u128, u64)>, now: u64) -> bool {
    match claims {
        None => r matches Err(CustomJWTTokenError::Invalid(m)) && m@ == "Invalid Token"@,
        Some(c) => if is_expired(c.1, now) {
            r matches Err(CustomJWTTokenError::Expired)
        } else {
            r == Ok::<u128, CustomJWTTokenError>(c.0)
        },
    }
}

/// Expiry instant of a token issued at `now` that lives `hours` hours, if it is
/// a valid Unix time.
pub open spec fn expiry_after(now: i64, hours: i64) -> Option<u64> {
    let exp = now + hours * 3600;
    if 0 <= exp <= u64::MAX { Some(exp as u64) } else { None }
}

/// A token issued at `issued_at` with a lifetime of one hour verifies to its
/// subject at every instant up to its expiry instant, and fails as expired after it.
pub proof fn lemma_one_hour_token(token: Seq<char>, key: Seq<u8>, sub: u128, issued_at: i64, now: u64)
    requires
        expiry_after(issued_at, 1) matches Some(exp) && token_claims(token, key) == Some((sub, exp)),
    ensures
        forall|r: Result<u128, CustomJWTTokenError>| issued_at <= now <= issued_at + 3600 ==>
            (#[trigger] verified_as(r, token_claims(token, key), now) <==> r == Ok::<u128, CustomJWTTokenError>(sub)),
        forall|r: Result<u128, CustomJWTTokenError>| now > issued_at + 3600 ==>
            (#[trigger] verified_as(r, token_claims(token, key), now) <==> r matches Err(CustomJWTTokenError::Expired)),
{
}

/// A token whose signature does not check out under a key is refused as invalid
/// at every instant: never accepted, never reported expired.
pub proof fn lemma_bad_signature_invalid(token: Seq<char>, key: Seq<u8>, now: u64)
    requires
        hs256_claims(token, key) is None,
    ensures
        forall|r: Result<u128, CustomJWTTokenError>| #[trigger] verified_as(r, token_claims(token, key), now)
            <==> (r matches Err(CustomJWTTokenError::Invalid(m)) && m@ == "Invalid Token"@),
{
}

fn invalid_token() -> (r: CustomJWTTokenError)
    ensures
        r matches CustomJWTTokenError::Invalid(m) && m@ == "Invalid Token"@,
{
    CustomJWTTokenError::Invalid("Invalid Token".to_owned())
}

/// Decides on claims that a signature check has already accepted.
pub fn check_claims(claims: &JWTClaims, now: u64) -> (r: Result<u128, CustomJWTTokenError>)
    ensures
        verified_as(r, Some((claims.sub, claims.exp)), now),
{
    if now > claims.exp {
        Err(CustomJWTTokenError::Expired)
    } else {
        Ok(claims.sub)
    }
}

/// Verifies a bearer token against a secret at the instant `now` (Unix seconds).
pub fn decode_token_at(token: &str, secret: &str, now: u64) -> (r: Result<u128, CustomJWTTokenError>)
    ensures
        verified_as(r, token_claims(token@, secret.spec_bytes()), now),
{
    match decode_hs256(token, secret.as_bytes()) {
        None => Err(invalid_token()),
        Some((sub_text, exp)) => match parse_uuid(sub_text.as_str()) {
            None => Err(invalid_token()),
            Some(sub) => check_claims(&JWTClaims { sub, exp }, now),
        },
    }
}

/// Verifies a bearer token against a secret at the current wall-clock time.
pub fn decode_token(token: &str, secret: &str) -> (r: Result<u128, CustomJWTTokenError>)
    ensures
        exists|now: u64| verified_as(r, token_claims(token@, secret.spec_bytes()), now),
{
    let clock = now_unix();
    let now: u64 = if clock < 0 { 0 } else { clock as u64 };
    decode_token_at(token, secret, now)
}

/// `r` is what issuing a token for `user_id` at `now`, living `hours` hours,
/// under `key` yields.
pub open spec fn issued_as(r: Result<String, GenericError>, user_id: u128, hours: i64, key: Seq<u8>, now: i64) -> bool {
    match expiry_after(now, hours) {
        None => r matches Err(GenericError::UnexpectedError(_)),
        Some(exp) => r matches Ok(t) && t@ == hs256_token(uuid_string(user_id), exp, key)
            && token_claims(t@, key) == Some((user_id, exp)),
    }
}

/// Issues a token for `user_id` at the instant `now` that expires `expiry_time`
/// hours later.
pub fn issue_token_at(user_id: u128, expiry_time: i64, secret: &str, now: i64) -> (r: Result<String, GenericError>)
    ensures
        issued_as(r, user_id, expiry_time, secret.spec_bytes(), now),
{
    let exp_wide: i128 = now as i128 + expiry_time as i128 * SECONDS_PER_HOUR;
    if exp_wide < 0 || exp_wide > u64::MAX as i128 {
        return Err(GenericError::UnexpectedError("Token expiry out of range".to_owned()));
    }
    let exp = exp_wide as u64;
    let sub = uuid_text(user_id);
    match encode_hs256(sub.as_str(), exp, secret.as_bytes()) {
        Some(t) => Ok(t),
        None => Err(GenericError::UnexpectedError("Failed to generate token".to_owned())),
    }
}

/// Issues a token for `user_id` that expires `expiry_time` hours from the
/// wall-clock time of the call.
pub fn generate_jwt_token_for_user(user_id: u128, expiry_time: i64, secret: &str) -> (r: Result<String, GenericError>)
    ensures
        exists|now: i64| issued_as(r, user_id, expiry_time, secret.spec_bytes(), now),
{
    let now = now_unix();
    issue_token_at(user_id, expiry_time, secret, now)
}

} // verus!
