//! Signed, time-bound bearer tokens: standard JWTs signed with HMAC-SHA256
//! (HS256) under a secret key held by the service, made and read by the
//! `jsonwebtoken` crate. Expiry is checked here, against a given time.
use vstd::prelude::*;
use vstd::utf8::encode_utf8;
use crate::auth::AuthenticationError;
use crate::user::{lemma_uuid_string_chars, parse_uuid, uuid_parsed, uuid_string, uuid_text, User};

verus! {

/// Lifetime, in seconds, of a token issued without an explicit one.
pub const DEFAULT_TTL: i64 = 3600;

/// The largest timestamp that chrono represents: 262142-12-31T23:59:59Z.
pub const LATEST_TIMESTAMP: i64 = 8210266876799;

/// The payload of a bearer token.
#[derive(Debug)]
pub struct Claims {
    /// The account the token speaks for, in its textual form.
    pub sub: String,
    /// Issued-at, in seconds since the epoch.
    pub iat: u64,
    /// Expires-at, in seconds since the epoch.
    pub exp: u64,
}

/// Why a token was not accepted.
#[derive(Clone, Copy, Debug, PartialEq, Eq, Structural)]
pub enum TokenError {
    /// Not a token signed under this service's key, or not a well-formed one.
    InvalidToken,
    /// A token signed under this service's key whose expiry time has passed.
    ExpiredToken,
}

/// The HS256 token that jsonwebtoken writes, with its default header, for a
/// payload of these three claims, signed under `secret`.
pub uninterp spec fn jwt_token(sub: Seq<char>, iat: u64, exp: u64, secret: Seq<u8>) -> Seq<char>;

/// The subject, issue time and expiry time that jsonwebtoken reads from an
/// HS256 token signed under `secret`, expiry not checked; `None` when the
/// token is malformed, signed otherwise, or lacks one of these claims.
pub uninterp spec fn jwt_claims(token: Seq<char>, secret: Seq<u8>) -> Option<(Seq<char>, u64, u64)>;

/// Relies on `jsonwebtoken::encode` with `Header::default()` (HS256) and
/// `EncodingKey::from_secret`: for an HMAC key and a JSON map it always
/// succeeds, and `decode` under the same key reads the same claims back.
#[verifier::external_body]
fn encode_hs256(sub: &str, iat: u64, exp: u64, secret: &[u8]) -> (r: Option<String>)
    ensures
        r is Some,
        r->0@ == jwt_token(sub@, iat, exp, secret@),
        jwt_claims(r->0@, secret@) == Some((sub@, iat, exp)),
{
    let mut claims = serde_json::Map::new();
    claims.insert("sub".to_string(), serde_json::Value::from(sub));
    claims.insert("iat".to_string(), serde_json::Value::from(iat));
    claims.insert("exp".to_string(), serde_json::Value::from(exp));
    let key = jsonwebtoken::EncodingKey::from_secret(secret);
    jsonwebtoken::encode(&jsonwebtoken::Header::default(), &claims, &key).ok()
}

/// Relies on `jsonwebtoken::decode` with `Validation::new(Algorithm::HS256)`
/// and `validate_exp` off, which checks the framing, the algorithm and the
/// signature; the three claims are then picked from the payload.
#[verifier::external_body]
fn decode_hs256(token: &str, secret: &[u8]) -> (r: Option<(String, u64, u64)>)
    ensures
        match r {
            Some((sub, iat, exp)) => jwt_claims(token@, secret@) == Some((sub@, iat, exp)),
            None => jwt_claims(token@, secret@) is None,
        },
{
    let mut validation = jsonwebtoken::Validation::new(jsonwebtoken::Algorithm::HS256);
    validation.validate_exp = false;
    let key = jsonwebtoken::DecodingKey::from_secret(secret);
    let data = jsonwebtoken::decode::<serde_json::Value>(token, &key, &validation).ok()?;
    let sub = data.claims.get("sub")?.as_str()?.to_string();
    let iat = data.claims.get("iat")?.as_u64()?;
    let exp = data.claims.get("exp")?.as_u64()?;
    Some((sub, iat, exp))
}

/// Relies on chrono's `Utc::now` and `DateTime::timestamp`: the time now, in
/// whole seconds since the epoch. `Utc::now` panics on a clock set before the
/// epoch and unwraps `DateTime::from_timestamp`, so what it returns lies
/// between the epoch and chrono's largest timestamp.
#[verifier::external_body]
pub(crate) fn now_seconds() -> (r: i64)
    ensures
        0 <= r <= LATEST_TIMESTAMP,
{
    chrono::Utc::now().timestamp()
}

/// What checking token `t` at time `now` gives: its claims while
/// `now <= exp`, an expiry error after, and an invalid-token error when `t`
/// is not a token signed under `key`.
pub open spec fn verify_outcome(key: Seq<u8>, t: Seq<char>, now: int) -> Result<(Seq<char>, u64, u64), TokenError> {
    match jwt_claims(t, key) {
        None => Err(TokenError::InvalidToken),
        Some((sub, iat, exp)) => if now <= exp {
            Ok((sub, iat, exp))
        } else {
            Err(TokenError::ExpiredToken)
        },
    }
}

/// Whether a token issued at `now` with lifetime `exp_offset` has times
/// that fit: not before the epoch, and within 64 bits.
pub open spec fn times_fit(now: int, exp_offset: int) -> bool {
    0 <= now && 0 <= now + exp_offset <= i64::MAX
}

/// Whether `t` is the token for account `id` issued at `now` under `key`,
/// expiring `exp_offset` seconds later.
pub open spec fn issued_as(key: Seq<u8>, t: Seq<char>, id: u128, now: int, exp_offset: int) -> bool {
    &&& t == jwt_token(uuid_string(id), now as u64, (now + exp_offset) as u64, key)
    &&& jwt_claims(t, key) == Some((uuid_string(id), now as u64, (now + exp_offset) as u64))
}

/// Issues and checks the service's bearer tokens.
pub struct JwtClient {
    auth_key: String,
}

impl JwtClient {
    /// The signing key, as bytes.
    pub closed spec fn key(&self) -> Seq<u8> {
        encode_utf8(self.auth_key@)
    }

    /// A client that signs with `auth_key`.
    pub fn new(auth_key: String) -> (r: Self)
        ensures
            r.key() == encode_utf8(auth_key@),
    {
        JwtClient { auth_key }
    }

    /// The token for account `user_id`, issued at `now` (seconds since the
    /// epoch) and expiring `exp_offset` seconds later. Times before the epoch
    /// or past the 64-bit range are a fault.
    pub fn encode_token_at(&self, user_id: u128, now: i64, exp_offset: i64) -> (r: Result<String, AuthenticationError>)
        ensures
            times_fit(now as int, exp_offset as int) <==> r is Ok,
            r is Ok ==> r->Ok_0@ == jwt_token(uuid_string(user_id), now as u64, (now + exp_offset) as u64, self.key()),
            r is Ok ==> jwt_claims(r->Ok_0@, self.key()) == Some((uuid_string(user_id), now as u64, (now + exp_offset) as u64)),
            uuid_parsed(uuid_string(user_id)) == Some(user_id),
            r matches Err(e) ==> e is UnexpectedError,
    {
        let sub = uuid_text(user_id);
        proof {
            lemma_uuid_string_chars(user_id);
        }
        if now < 0 || (exp_offset >= 0 && now > i64::MAX - exp_offset) || (exp_offset < 0 && now + exp_offset < 0) {
            return Err(AuthenticationError::UnexpectedError("Token times out of range.".to_owned()));
        }
        let exp = now + exp_offset;
        let key = self.auth_key.as_str().as_bytes();
        match encode_hs256(sub.as_str(), now as u64, exp as u64, key) {
            Some(t) => Ok(t),
            None => Err(AuthenticationError::UnexpectedError("Failed to sign token.".to_owned())),
        }
    }

    /// The token for account `user_id`, issued now and expiring `exp_offset`
    /// seconds later. It fails only where some reading of the clock would
    /// put a time out of range, so never for a lifetime from zero up to
    /// `i64::MAX - LATEST_TIMESTAMP`.
    pub fn encode_token_with_exp(&self, user_id: u128, exp_offset: i64) -> (r: Result<String, AuthenticationError>)
        ensures
            r matches Ok(t) ==> exists|now: int|
                0 <= now <= LATEST_TIMESTAMP && #[trigger] issued_as(self.key(), t@, user_id, now, exp_offset as int),
            r is Err ==> exists|now: int| 0 <= now <= LATEST_TIMESTAMP && !#[trigger] times_fit(now, exp_offset as int),
            0 <= exp_offset <= i64::MAX - LATEST_TIMESTAMP ==> r is Ok,
            r matches Err(e) ==> e is UnexpectedError,
    {
        let now = now_seconds();
        let r = self.encode_token_at(user_id, now, exp_offset);
        proof {
            if r is Ok {
                assert(issued_as(self.key(), r->Ok_0@, user_id, now as int, exp_offset as int));
            } else {
                assert(!times_fit(now as int, exp_offset as int));
            }
        }
        r
    }

    /// The token for account `user_id`, issued now, valid for an hour.
    pub fn encode_token(&self, user_id: u128) -> (r: Result<String, AuthenticationError>)
        ensures
            r is Ok,
            exists|now: int|
                0 <= now <= LATEST_TIMESTAMP && #[trigger] issued_as(self.key(), r->Ok_0@, user_id, now, DEFAULT_TTL as int),
    {
        self.encode_token_with_exp(user_id, DEFAULT_TTL)
    }

    /// The claims of `token` checked at time `now` (seconds since the epoch).
    pub fn decode_token_at(&self, token: &str, now: i64) -> (r: Result<Claims, TokenError>)
        ensures
            match verify_outcome(self.key(), token@, now as int) {
                Ok((sub, iat, exp)) => r matches Ok(c) && c.sub@ == sub && c.iat == iat && c.exp == exp,
                Err(e) => r == Err::<Claims, TokenError>(e),
            },
    {
        let key = self.auth_key.as_str().as_bytes();
        let (sub, iat, exp) = match decode_hs256(token, key) {
            Some(c) => c,
            None => return Err(TokenError::InvalidToken),
        };
        if (now as i128) > (exp as i128) {
            return Err(TokenError::ExpiredToken);
        }
        Ok(Claims { sub, iat, exp })
    }

    /// The claims of `token`, checked against the time now.
    pub fn decode_token(&self, token: &str) -> (r: Result<Claims, TokenError>)
        ensures
            r matches Ok(c) ==> jwt_claims(token@, self.key()) == Some((c.sub@, c.iat, c.exp)),
            r == Err::<Claims, TokenError>(TokenError::InvalidToken) <==> jwt_claims(token@, self.key()) is None,
            r == Err::<Claims, TokenError>(TokenError::ExpiredToken) ==> jwt_claims(token@, self.key()) is Some,
    {
        let now = now_seconds();
        self.decode_token_at(token, now)
    }
}

/// The account that a request with this `Authorization` value acts as, at
/// time `now`: the subject of a valid, unexpired token, read as an account
/// identifier.
pub open spec fn authorized_account(key: Seq<u8>, authorization: Option<Seq<char>>, now: int) -> Option<u128> {
    match authorization {
        None => None,
        Some(t) => match verify_outcome(key, t, now) {
            Ok((sub, _iat, _exp)) => uuid_parsed(sub),
            Err(_) => None,
        },
    }
}

impl JwtClient {
    /// The identifier of the account that a request acts as, from the raw
    /// token in its `Authorization` header, checked at time `now`. A missing
    /// header, a token that fails verification or has expired, and a subject
    /// that is no account identifier are all `Unauthorized`.
    pub fn account_id_at(&self, authorization: Option<&str>, now: i64) -> (r: Result<u128, AuthenticationError>)
        ensures
            ({
                let header = match authorization {
                    Some(h) => Some(h@),
                    None => None,
                };
                match authorized_account(self.key(), header, now as int) {
                    Some(id) => r == Ok::<u128, AuthenticationError>(id),
                    None => r matches Err(AuthenticationError::Unauthorized),
                }
            }),
    {
        let token = match authorization {
            Some(t) => t,
            None => return Err(AuthenticationError::Unauthorized),
        };
        let claims = match self.decode_token_at(token, now) {
            Ok(c) => c,
            Err(_) => return Err(AuthenticationError::Unauthorized),
        };
        match parse_uuid(claims.sub.as_str()) {
            Some(id) => Ok(id),
            None => Err(AuthenticationError::Unauthorized),
        }
    }

    /// The identifier of the account that a request acts as, checked against
    /// the time now.
    pub fn account_id(&self, authorization: Option<&str>) -> (r: Result<u128, AuthenticationError>)
        ensures
            authorization is None ==> r matches Err(AuthenticationError::Unauthorized),
            r matches Ok(id) ==> authorization matches Some(h) && exists|now: int|
                #[trigger] authorized_account(self.key(), Some(h@), now) == Some(id),
            r matches Err(e) ==> e is Unauthorized,
    {
        let now = now_seconds();
        let r = self.account_id_at(authorization, now);
        proof {
            if let Some(h) = authorization {
                if r is Ok {
                    assert(authorized_account(self.key(), Some(h@), now as int) == Some(r->Ok_0));
                }
            }
        }
        r
    }
}

/// The account that a looked-up identifier resolves to: a store fault stays
/// a fault, and an account that no longer exists is `Unauthorized`.
pub fn resolve_account(lookup: Result<Option<User>, String>) -> (r: Result<User, AuthenticationError>)
    ensures
        match lookup {
            Ok(Some(u)) => r == Ok::<User, AuthenticationError>(u),
            Ok(None) => r == Err::<User, AuthenticationError>(AuthenticationError::Unauthorized),
            Err(msg) => r == Err::<User, AuthenticationError>(AuthenticationError::UnexpectedError(msg)),
        },
{
    match lookup {
        Ok(Some(u)) => Ok(u),
        Ok(None) => Err(AuthenticationError::Unauthorized),
        Err(msg) => Err(AuthenticationError::UnexpectedError(msg)),
    }
}

/// A token issued for an account, checked before it expires, gives back the
/// claims it was issued with: the account's identifier as subject, and its
/// issue and expiry times.
pub proof fn lemma_issue_then_verify(key: Seq<u8>, t: Seq<char>, id: u128, iat: u64, exp: u64, now: int)
    requires
        jwt_claims(t, key) == Some((uuid_string(id), iat, exp)),
        now <= exp,
    ensures
        verify_outcome(key, t, now) == Ok::<(Seq<char>, u64, u64), TokenError>((uuid_string(id), iat, exp)),
        uuid_parsed(uuid_string(id)) == Some(id) ==> authorized_account(key, Some(t), now) == Some(id),
{
}

/// Checking the same token twice while it is unexpired gives the same claims.
pub proof fn lemma_verify_repeatable(key: Seq<u8>, t: Seq<char>, now1: int, now2: int)
    requires
        verify_outcome(key, t, now1) is Ok,
        verify_outcome(key, t, now2) is Ok,
    ensures
        verify_outcome(key, t, now1) == verify_outcome(key, t, now2),
{
}

/// A token is accepted up to and including its expiry second and refused as
/// expired after it.
pub proof fn lemma_expiry_boundary(key: Seq<u8>, t: Seq<char>, sub: Seq<char>, iat: u64, exp: u64, now: int)
    requires
        jwt_claims(t, key) == Some((sub, iat, exp)),
    ensures
        now <= exp ==> verify_outcome(key, t, now) == Ok::<(Seq<char>, u64, u64), TokenError>((sub, iat, exp)),
        now > exp ==> verify_outcome(key, t, now) == Err::<(Seq<char>, u64, u64), TokenError>(
            TokenError::ExpiredToken,
        ),
{
}

} // verus!
