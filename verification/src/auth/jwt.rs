use crate::ids::{uuid_text, uuid_to_text};
use crate::time::{unix_seconds_now, utc_now, EARLIEST_SECS, LATEST_SECS};
use vstd::prelude::*;

verus! {

#[verifier::external_type_specification]
#[verifier::external_body]
pub struct ExJwtLibError(jsonwebtoken::errors::Error);

/// The key with which access tokens are signed and checked: the bytes of
/// the text `super_secret_key`.
pub const JWT_SECRET: [u8; 16] = [115,117,112,101,114,95,115,101,99,114,101,116,95,107,101,121];

/// How long an access token stays valid after it is issued.
pub const TOKEN_LIFETIME_SECS: i64 = 86400;

/// How many seconds past its expiry a token is still accepted.
pub const EXPIRY_LEEWAY_SECS: u64 = 60;

/// The claims that an access token carries.
#[derive(Clone, Debug)]
pub struct Claims {
    pub sub: String,
    pub email: String,
    pub role: String,
    pub exp: usize,
}

/// The plain content of a set of claims: subject, e-mail, role, expiry.
pub type ClaimFields = (Seq<char>, Seq<char>, Seq<char>, usize);

impl Claims {
    pub open spec fn fields(self) -> ClaimFields {
        (self.sub@, self.email@, self.role@, self.exp)
    }
}

/// Why a token could not be issued or was not accepted.
#[derive(Clone, Copy, Debug, PartialEq, Eq, Structural)]
pub enum JwtError {
    /// The expiry would lie beyond the last instant the clock type holds.
    ClockOutOfRange,
    /// The token is malformed, badly signed, or lacks a claim.
    Invalid,
    /// The token's expiry, with the leeway, lies before the current time.
    Expired,
}

/// The token that `jsonwebtoken::encode` gives for an HS256 token over the
/// claims `{sub, email, role, exp}` signed with `secret`.
pub uninterp spec fn jwt_signed(
    sub: Seq<char>,
    email: Seq<char>,
    role: Seq<char>,
    exp: usize,
    secret: Seq<u8>,
) -> Seq<char>;

/// What `jsonwebtoken::decode` with HS256, the key `secret` and the
/// default validation apart from the expiry comparison gives for a token:
/// its claims `{sub, email, role, exp}`, or nothing when it is refused.
pub uninterp spec fn jwt_payload(token: Seq<char>, secret: Seq<u8>) -> Option<ClaimFields>;

/// Signs the claims with `jsonwebtoken::encode` under the default HS256
/// header; the token is named by `jwt_signed`. The call succeeds: the key
/// is an HMAC key as HS256 asks, HMAC takes a key of any length, and a JSON
/// map always serialises. The last clause is the round trip of the crate:
/// a token it signed decodes, under the same secret, to the claims it was
/// made from.
#[verifier::external_body]
fn encode_hs256(sub: &str, email: &str, role: &str, exp: usize, secret: &[u8]) -> (r: Result<
    String,
    jsonwebtoken::errors::Error,
>)
    ensures
        r is Ok,
        r matches Ok(t) ==> t@ == jwt_signed(sub@, email@, role@, exp, secret@),
        r matches Ok(t) ==> jwt_payload(t@, secret@) == Some((sub@, email@, role@, exp)),
{
    let mut claims = serde_json::Map::new();
    claims.insert("sub".to_string(), serde_json::Value::from(sub));
    claims.insert("email".to_string(), serde_json::Value::from(email));
    claims.insert("role".to_string(), serde_json::Value::from(role));
    claims.insert("exp".to_string(), serde_json::Value::from(exp));
    let key = jsonwebtoken::EncodingKey::from_secret(secret);
    jsonwebtoken::encode(&jsonwebtoken::Header::default(), &serde_json::Value::Object(claims), &key)
}

/// Checks a token with `jsonwebtoken::decode` (HS256, key `secret`, the
/// default validation with the expiry comparison left to the caller) and
/// picks the four claims out of the payload; named by `jwt_payload`. The
/// payload is read as a JSON map, so of a claim that the payload repeats
/// the last one counts.
#[verifier::external_body]
fn decode_hs256(token: &str, secret: &[u8]) -> (r: Option<(String, String, String, usize)>)
    ensures
        match r {
            Some(c) => jwt_payload(token@, secret@) == Some((c.0@, c.1@, c.2@, c.3)),
            None => jwt_payload(token@, secret@) is None,
        },
{
    let mut validation = jsonwebtoken::Validation::default();
    validation.validate_exp = false;
    let key = jsonwebtoken::DecodingKey::from_secret(secret);
    let c = jsonwebtoken::decode::<serde_json::Value>(token, &key, &validation).ok()?.claims;
    let exp = usize::try_from(c.get("exp")?.as_u64()?).ok()?;
    Some((c.get("sub")?.as_str()?.to_string(), c.get("email")?.as_str()?.to_string(),
        c.get("role")?.as_str()?.to_string(), exp))
}

/// The expiry of a token issued at `now_secs`, when the clock type can hold it.
pub open spec fn expiry_for(now_secs: i64) -> Option<usize> {
    if now_secs + TOKEN_LIFETIME_SECS <= LATEST_SECS {
        Some((now_secs + TOKEN_LIFETIME_SECS) as usize)
    } else {
        None
    }
}

/// The token issued for a user at `now_secs`.
pub open spec fn issued_token(user_id: u128, email: Seq<char>, role: Seq<char>, now_secs: i64) -> Result<
    Seq<char>,
    JwtError,
> {
    match expiry_for(now_secs) {
        None => Err(JwtError::ClockOutOfRange),
        Some(exp) => Ok(jwt_signed(uuid_text(user_id), email, role, exp, JWT_SECRET@)),
    }
}

/// The plain content of the result of issuing a token.
pub open spec fn token_result(r: Result<String, JwtError>) -> Result<Seq<char>, JwtError> {
    match r {
        Ok(t) => Ok(t@),
        Err(e) => Err(e),
    }
}

/// The outcome of checking `token` at `now` (seconds since the epoch).
pub open spec fn verification(token: Seq<char>, now: u64) -> Result<ClaimFields, JwtError> {
    match jwt_payload(token, JWT_SECRET@) {
        None => Err(JwtError::Invalid),
        Some(c) => if c.3 + EXPIRY_LEEWAY_SECS < now {
            Err(JwtError::Expired)
        } else {
            Ok(c)
        },
    }
}

/// The plain content of the result of checking a token.
pub open spec fn claims_result(r: Result<Claims, JwtError>) -> Result<ClaimFields, JwtError> {
    match r {
        Ok(c) => Ok(c.fields()),
        Err(e) => Err(e),
    }
}

/// Issues the access token of a user at the instant `now_secs`: the
/// subject is the user's identifier, the expiry lies one day later. It
/// fails only when that expiry lies beyond the clock type's range.
pub fn create_jwt_at(user_id: u128, email: String, role: String, now_secs: i64) -> (r: Result<
    String,
    JwtError,
>)
    ensures
        token_result(r) == issued_token(user_id, email@, role@, now_secs),
        now_secs + TOKEN_LIFETIME_SECS <= LATEST_SECS ==> r is Ok,
        r matches Ok(t) ==> jwt_payload(t@, JWT_SECRET@) == Some(
            (uuid_text(user_id), email@, role@, expiry_for(now_secs)->0),
        ),
{
    if now_secs > LATEST_SECS - TOKEN_LIFETIME_SECS {
        return Err(JwtError::ClockOutOfRange);
    }
    let later: i64 = now_secs + TOKEN_LIFETIME_SECS;
    let exp: usize = later as usize;
    let sub = uuid_to_text(user_id);
    let token = encode_hs256(sub.as_str(), email.as_str(), role.as_str(), exp, JWT_SECRET.as_slice()).unwrap();
    Ok(token)
}

/// Issues the access token of a user now. The instant comes from the
/// clock; whatever it was, the result is the token issued at it, and it is
/// a token unless the instant lies in the last day the clock type holds.
pub fn create_jwt(user_id: u128, email: String, role: String) -> (r: Result<String, JwtError>)
    ensures
        exists|now: i64|
            EARLIEST_SECS <= now <= LATEST_SECS && token_result(r) == #[trigger] issued_token(
                user_id,
                email@,
                role@,
                now,
            ),
        r matches Ok(t) ==> exists|exp: usize|
            jwt_payload(t@, JWT_SECRET@) == Some((uuid_text(user_id), email@, role@, exp)),
{
    let now = utc_now();
    create_jwt_at(user_id, email, role, now.secs)
}

/// Checks an access token at the instant `now` (seconds since the epoch):
/// the signature and claims must be sound and the expiry, with the leeway,
/// must not lie before `now`.
pub fn verify_jwt_at(token: &str, now: u64) -> (r: Result<Claims, JwtError>)
    ensures
        claims_result(r) == verification(token@, now),
{
    match decode_hs256(token, JWT_SECRET.as_slice()) {
        None => Err(JwtError::Invalid),
        Some((sub, email, role, exp)) => {
            let exp_secs: u64 = exp as u64;
            if now >= EXPIRY_LEEWAY_SECS && exp_secs < now - EXPIRY_LEEWAY_SECS {
                Err(JwtError::Expired)
            } else {
                Ok(Claims { sub, email, role, exp })
            }
        },
    }
}

/// Checks an access token now. The instant comes from the clock; whatever
/// it was, the result is the outcome of checking the token at it.
pub fn verify_jwt(token: &str) -> (r: Result<Claims, JwtError>)
    ensures
        exists|now: u64| claims_result(r) == #[trigger] verification(token@, now),
{
    let now = unix_seconds_now();
    verify_jwt_at(token, now)
}

/// A token whose payload is sound is accepted, with its claims, at every
/// instant up to its expiry plus the leeway.
pub proof fn lemma_unexpired_token_accepted(token: Seq<char>, fields: ClaimFields, now: u64)
    requires
        jwt_payload(token, JWT_SECRET@) == Some(fields),
        now <= fields.3 + EXPIRY_LEEWAY_SECS,
    ensures
        verification(token, now) == Ok::<ClaimFields, JwtError>(fields),
{
}

/// A token is refused as expired at every instant past its expiry plus the
/// leeway.
pub proof fn lemma_expired_token_refused(token: Seq<char>, fields: ClaimFields, now: u64)
    requires
        jwt_payload(token, JWT_SECRET@) == Some(fields),
        fields.3 + EXPIRY_LEEWAY_SECS < now,
    ensures
        verification(token, now) == Err::<ClaimFields, JwtError>(JwtError::Expired),
{
}

/// A token that was not signed with the service's key, or is malformed, is
/// refused at every instant.
pub proof fn lemma_unsound_token_refused(token: Seq<char>, now: u64)
    requires
        jwt_payload(token, JWT_SECRET@) is None,
    ensures
        verification(token, now) == Err::<ClaimFields, JwtError>(JwtError::Invalid),
{
}

/// A token issued at a non-negative instant expires exactly one day later.
pub proof fn lemma_expiry_one_day_later(now_secs: i64)
    requires
        0 <= now_secs,
        now_secs + TOKEN_LIFETIME_SECS <= LATEST_SECS,
        now_secs + TOKEN_LIFETIME_SECS <= usize::MAX,
    ensures
        expiry_for(now_secs) == Some((now_secs + TOKEN_LIFETIME_SECS) as usize),
        (now_secs + TOKEN_LIFETIME_SECS) as usize == now_secs + TOKEN_LIFETIME_SECS,
{
}

} // verus!
