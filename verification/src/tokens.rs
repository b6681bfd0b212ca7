//! Access/refresh token primitives for API authentication.
//!
//! Access tokens are short-lived claims signed as HS256 JSON web tokens,
//! checked for their signature, form and expiry (with a small clock skew);
//! refresh tokens are opaque random strings that are stored only as their
//! SHA-256 digest. Here live the claims, the signing and checking of access
//! tokens, the checks on a stored refresh session, and the refresh-token
//! material.

use vstd::prelude::*;
use vstd::string::StringSliceAdditionalSpecFns;
use base64::Engine;
use rand::RngCore;
use sha2::Digest;
use std::collections::BTreeMap;
use jsonwebtoken::{decode, encode, Algorithm, DecodingKey, EncodingKey, Header, Validation};
use serde_json::Value;

use crate::ids::{spec_uuid_hyphenated, spec_uuid_parse, uuid_parse, uuid_to_string, hex_digit_lower};

verus! {

/// Why a token or a refresh session was refused.
#[derive(Debug, Clone, PartialEq, Eq)]
pub enum AuthTokenError {
    InvalidToken,
    TokenExpired,
    RefreshExpired,
    SessionRevoked,
    Database(String),
    Internal(String),
}

/// Identity carried by a valid access token.
#[derive(Debug, Clone, Copy, PartialEq, Eq, Structural)]
pub struct AuthenticatedTokenContext {
    pub user_id: u128,
    pub player_id: u128,
    pub current_village_id: u32,
    pub refresh_session_id: u128,
}

/// A refresh session that is neither revoked nor expired (times are unix seconds).
#[derive(Debug, Clone, Copy, PartialEq, Eq, Structural)]
pub struct RefreshSession {
    pub id: u128,
    pub user_id: u128,
    pub player_id: u128,
    pub current_village_id: u32,
    pub expires_at: i64,
    pub revoked_at: Option<i64>,
}

/// A refresh session as it is stored (the village id is a signed column).
#[derive(Debug, Clone, Copy, PartialEq, Eq, Structural)]
pub struct RefreshSessionRow {
    pub id: u128,
    pub user_id: u128,
    pub player_id: u128,
    pub current_village_id: i32,
    pub expires_at: i64,
    pub revoked_at: Option<i64>,
}

/// Token pair handed to a client after login, registration or refresh.
#[derive(Debug, Clone)]
pub struct IssuedTokenPair {
    pub access_token: String,
    pub expires_in: i64,
    pub refresh_token: String,
    pub refresh_session_id: u128,
}

/// Claims signed into an access token.
#[derive(Debug, Clone)]
pub struct AccessTokenClaims {
    pub sub: String,
    pub player_id: String,
    pub current_village_id: u32,
    pub refresh_session_id: String,
    pub iat: i64,
    pub exp: i64,
}

/// Leeway, in seconds, granted on the expiry of an access token.
pub const ACCESS_TOKEN_CLOCK_SKEW_SECS: i64 = 30;

/// The token service: the key that signs access tokens, and the token
/// lifetimes in seconds.
#[derive(Debug, Clone)]
pub struct AuthTokenService {
    pub signing_key: Vec<u8>,
    pub access_ttl_secs: i64,
    pub refresh_ttl_secs: i64,
}

/// The claims for the given identity issued at `now` with lifetime `ttl`.
pub open spec fn spec_access_claims(
    user_id: u128,
    player_id: u128,
    current_village_id: u32,
    refresh_session_id: u128,
    now: int,
    ttl: int,
) -> (Seq<char>, Seq<char>, u32, Seq<char>, int, int) {
    (
        spec_uuid_hyphenated(user_id),
        spec_uuid_hyphenated(player_id),
        current_village_id,
        spec_uuid_hyphenated(refresh_session_id),
        now,
        now + ttl,
    )
}

/// The plain content of a set of claims.
pub open spec fn claims_view(c: AccessTokenClaims) -> (Seq<char>, Seq<char>, u32, Seq<char>, int, int) {
    (c.sub@, c.player_id@, c.current_village_id, c.refresh_session_id@, c.iat as int, c.exp as int)
}

/// What reading the identifiers of a set of claims gives.
pub open spec fn spec_context_from_claims(
    sub: Seq<char>,
    player_id: Seq<char>,
    current_village_id: u32,
    refresh_session_id: Seq<char>,
) -> Result<AuthenticatedTokenContext, AuthTokenError> {
    match (spec_uuid_parse(sub), spec_uuid_parse(player_id), spec_uuid_parse(refresh_session_id)) {
        (Some(u), Some(p), Some(s)) => Ok(
            AuthenticatedTokenContext {
                user_id: u,
                player_id: p,
                current_village_id,
                refresh_session_id: s,
            },
        ),
        _ => Err(AuthTokenError::InvalidToken),
    }
}

/// Text of std's `TryFromIntError`, reported when a village id does not fit a column.
pub open spec fn spec_int_conversion_message() -> Seq<char> {
    "out of range integral type conversion attempted"@
}

fn int_conversion_error() -> (e: AuthTokenError)
    ensures
        e matches AuthTokenError::Internal(m) && m@ == spec_int_conversion_message(),
{
    AuthTokenError::Internal(String::from_str("out of range integral type conversion attempted"))
}

impl AuthTokenService {
    /// A service signing access tokens with `signing_key`, issuing them valid
    /// for `access_ttl_secs` and refresh sessions valid for `refresh_ttl_secs`.
    pub fn new(signing_key: Vec<u8>, access_ttl_secs: i64, refresh_ttl_secs: i64) -> (s: Self)
        ensures
            s.signing_key@ == signing_key@,
            s.access_ttl_secs == access_ttl_secs,
            s.refresh_ttl_secs == refresh_ttl_secs,
    {
        AuthTokenService { signing_key, access_ttl_secs, refresh_ttl_secs }
    }

    /// Claims of an access token issued at `now` (unix seconds).
    pub fn access_claims_for(
        &self,
        user_id: u128,
        player_id: u128,
        current_village_id: u32,
        refresh_session_id: u128,
        now: i64,
    ) -> (c: AccessTokenClaims)
        requires
            i64::MIN <= now + self.access_ttl_secs <= i64::MAX,
        ensures
            claims_view(c) == spec_access_claims(
                user_id,
                player_id,
                current_village_id,
                refresh_session_id,
                now as int,
                self.access_ttl_secs as int,
            ),
    {
        AccessTokenClaims {
            sub: uuid_to_string(user_id),
            player_id: uuid_to_string(player_id),
            current_village_id,
            refresh_session_id: uuid_to_string(refresh_session_id),
            iat: now,
            exp: now + self.access_ttl_secs,
        }
    }

    /// Packs an access token and a refresh token into the pair returned to clients;
    /// the access token lives for the service's access lifetime.
    pub fn issue_token_pair(
        &self,
        access_token: String,
        refresh_session_id: u128,
        refresh_token: String,
    ) -> (p: IssuedTokenPair)
        ensures
            p.access_token@ == access_token@,
            p.expires_in == self.access_ttl_secs,
            p.refresh_token@ == refresh_token@,
            p.refresh_session_id == refresh_session_id,
    {
        IssuedTokenPair {
            access_token,
            expires_in: self.access_ttl_secs,
            refresh_token,
            refresh_session_id,
        }
    }

    /// Expiry of a refresh session created or rotated at `now`.
    pub fn refresh_expires_at(&self, now: i64) -> (t: i64)
        requires
            i64::MIN <= now + self.refresh_ttl_secs <= i64::MAX,
        ensures
            t == now + self.refresh_ttl_secs,
    {
        now + self.refresh_ttl_secs
    }
}

/// Reads the identity out of decoded claims; any identifier that is not a UUID
/// makes the token invalid.
pub fn context_from_claims(claims: &AccessTokenClaims) -> (r: Result<AuthenticatedTokenContext, AuthTokenError>)
    ensures
        r == spec_context_from_claims(
            claims.sub@,
            claims.player_id@,
            claims.current_village_id,
            claims.refresh_session_id@,
        ),
        forall|u: u128, p: u128, sid: u128|
            #![trigger spec_uuid_hyphenated(u), spec_uuid_hyphenated(p), spec_uuid_hyphenated(sid)]
            claims.sub@ == spec_uuid_hyphenated(u) && claims.player_id@ == spec_uuid_hyphenated(p)
                && claims.refresh_session_id@ == spec_uuid_hyphenated(sid) ==> r == Ok::<
                AuthenticatedTokenContext,
                AuthTokenError,
            >(
                AuthenticatedTokenContext {
                    user_id: u,
                    player_id: p,
                    current_village_id: claims.current_village_id,
                    refresh_session_id: sid,
                },
            ),
{
    let user_id = match uuid_parse(claims.sub.as_str()) {
        Some(id) => id,
        None => return Err(AuthTokenError::InvalidToken),
    };
    let player_id = match uuid_parse(claims.player_id.as_str()) {
        Some(id) => id,
        None => return Err(AuthTokenError::InvalidToken),
    };
    let refresh_session_id = match uuid_parse(claims.refresh_session_id.as_str()) {
        Some(id) => id,
        None => return Err(AuthTokenError::InvalidToken),
    };
    Ok(AuthenticatedTokenContext {
        user_id,
        player_id,
        current_village_id: claims.current_village_id,
        refresh_session_id,
    })
}

/// The text of the HS256 JSON web token that carries the claims `claims`
/// (subject, player, village, refresh session, issued at, expiry) signed with
/// `key`, as `jsonwebtoken::encode` writes it for them.
pub uninterp spec fn spec_jwt_hs256(claims: (Seq<char>, Seq<char>, u32, Seq<char>, int, int), key: Seq<u8>) -> Seq<
    char,
>;

/// What `jsonwebtoken::decode` reads out of `token` with `key` when expiry is
/// not checked: the subject, player, village, refresh session, issued-at and
/// expiry claims, or nothing when the token does not read.
pub uninterp spec fn spec_jwt_decode(token: Seq<char>, key: Seq<u8>) -> Option<
    (Seq<char>, Seq<char>, u64, Seq<char>, int, int),
>;

/// The plain content of decoded claims.
pub open spec fn decoded_view(d: (String, String, u64, String, i64, i64)) -> (
    Seq<char>,
    Seq<char>,
    u64,
    Seq<char>,
    int,
    int,
) {
    (d.0@, d.1@, d.2, d.3@, d.4 as int, d.5 as int)
}

/// Claims whose numbers a token carries back: the issue time a signed
/// 64-bit number, the expiry a non-negative one.
pub open spec fn is_carried_claims(cv: (Seq<char>, Seq<char>, u32, Seq<char>, int, int)) -> bool {
    &&& i64::MIN <= cv.4 <= i64::MAX
    &&& 0 <= cv.5 <= i64::MAX
}

/// `r` holds the claims `cv` as read out of a token.
pub open spec fn reads_back(
    r: Option<(String, String, u64, String, i64, i64)>,
    cv: (Seq<char>, Seq<char>, u32, Seq<char>, int, int),
) -> bool {
    r matches Some(d) && decoded_view(d) == (cv.0, cv.1, cv.2 as u64, cv.3, cv.4, cv.5)
}

/// Signs `claims` with `jsonwebtoken::encode` (header `HS256`, the claims as a
/// JSON object, `EncodingKey::from_secret(key)`); an error comes back as its text.
/// Claimed: signing succeeds (the key's family matches HS256, the crate's
/// `rust_crypto` HMAC signer takes a key of any length, and a map of strings
/// and integers always serialises), and the token is a function of the claims
/// and the key alone.
#[verifier::external_body]
fn jwt_encode_hs256(claims: &AccessTokenClaims, key: &[u8]) -> (r: Result<String, String>)
    ensures
        r is Ok,
        r matches Ok(t) ==> t@ == spec_jwt_hs256(claims_view(*claims), key@),
{
    let c = BTreeMap::from([
        ("sub", Value::from(claims.sub.as_str())),
        ("player_id", Value::from(claims.player_id.as_str())),
        ("current_village_id", Value::from(claims.current_village_id)),
        ("refresh_session_id", Value::from(claims.refresh_session_id.as_str())),
        ("iat", Value::from(claims.iat)),
        ("exp", Value::from(claims.exp)),
    ]);
    encode(&Header::new(Algorithm::HS256), &c, &EncodingKey::from_secret(key)).map_err(|e| e.to_string())
}

/// Reads a token with `jsonwebtoken::decode` (algorithm `HS256`,
/// `DecodingKey::from_secret(key)`, expiry not checked), then its six claims
/// out of the JSON object. Claimed: the result is a function of the token and
/// the key alone; the expiry read is non-negative (the crate requires `exp`
/// as an unsigned number); and a token that `jwt_encode_hs256` wrote with the
/// same key reads back as the claims it carries.
#[verifier::external_body]
fn jwt_decode_hs256(token: &str, key: &[u8]) -> (r: Option<(String, String, u64, String, i64, i64)>)
    ensures
        r is None <==> spec_jwt_decode(token@, key@) is None,
        r matches Some(d) ==> spec_jwt_decode(token@, key@) == Some(decoded_view(d)),
        r matches Some(d) ==> d.5 >= 0,
        forall|cv: (Seq<char>, Seq<char>, u32, Seq<char>, int, int)|
            #[trigger] spec_jwt_hs256(cv, key@) == token@ && is_carried_claims(cv) ==> reads_back(r, cv),
{
    let mut v = Validation::new(Algorithm::HS256);
    v.validate_exp = false;
    let c = decode::<BTreeMap<String, Value>>(token, &DecodingKey::from_secret(key), &v).ok()?.claims;
    Some((
        c.get("sub")?.as_str()?.to_string(),
        c.get("player_id")?.as_str()?.to_string(),
        c.get("current_village_id")?.as_u64()?,
        c.get("refresh_session_id")?.as_str()?.to_string(),
        c.get("iat")?.as_i64()?,
        c.get("exp")?.as_i64()?,
    ))
}

/// What checking a read token at time `now` (unix seconds) gives: a token
/// that does not read, or whose village id does not fit a `u32`, is invalid;
/// one whose expiry lies more than the allowed clock skew before `now` has
/// expired; otherwise its identity is read out of its claims.
pub open spec fn spec_check_decoded(
    decoded: Option<(Seq<char>, Seq<char>, u64, Seq<char>, int, int)>,
    now: int,
) -> Result<AuthenticatedTokenContext, AuthTokenError> {
    match decoded {
        None => Err(AuthTokenError::InvalidToken),
        Some(c) => if c.2 > u32::MAX {
            Err(AuthTokenError::InvalidToken)
        } else if c.5 + ACCESS_TOKEN_CLOCK_SKEW_SECS < now {
            Err(AuthTokenError::TokenExpired)
        } else {
            spec_context_from_claims(c.0, c.1, c.2 as u32, c.3)
        },
    }
}

/// The plain content of what decoding gave.
pub open spec fn decoded_option_view(decoded: Option<(String, String, u64, String, i64, i64)>) -> Option<
    (Seq<char>, Seq<char>, u64, Seq<char>, int, int),
> {
    match decoded {
        Some(d) => Some(decoded_view(d)),
        None => None,
    }
}

/// Checks the claims read out of an access token at time `now` (unix seconds).
pub fn check_decoded_claims(decoded: Option<(String, String, u64, String, i64, i64)>, now: i64) -> (r: Result<
    AuthenticatedTokenContext,
    AuthTokenError,
>)
    ensures
        r == spec_check_decoded(decoded_option_view(decoded), now as int),
        forall|u: u128, p: u128, sid: u128|
            #![trigger spec_uuid_hyphenated(u), spec_uuid_hyphenated(p), spec_uuid_hyphenated(sid)]
            decoded is Some && decoded.unwrap().0@ == spec_uuid_hyphenated(u) && decoded.unwrap().1@ == spec_uuid_hyphenated(p)
                && decoded.unwrap().3@ == spec_uuid_hyphenated(sid) && decoded.unwrap().2 <= u32::MAX && !(decoded.unwrap().5
                + ACCESS_TOKEN_CLOCK_SKEW_SECS < now) ==> r == Ok::<AuthenticatedTokenContext, AuthTokenError>(
                AuthenticatedTokenContext {
                    user_id: u,
                    player_id: p,
                    current_village_id: decoded.unwrap().2 as u32,
                    refresh_session_id: sid,
                },
            ),
{
    match decoded {
        None => Err(AuthTokenError::InvalidToken),
        Some(d) => {
            if d.2 > 4294967295u64 {
                return Err(AuthTokenError::InvalidToken);
            }
            if (d.5 as i128) + (ACCESS_TOKEN_CLOCK_SKEW_SECS as i128) < (now as i128) {
                return Err(AuthTokenError::TokenExpired);
            }
            let claims = AccessTokenClaims {
                sub: d.0,
                player_id: d.1,
                current_village_id: d.2 as u32,
                refresh_session_id: d.3,
                iat: d.4,
                exp: d.5,
            };
            context_from_claims(&claims)
        },
    }
}

impl AuthTokenService {
    /// Issues an access token at `now` (unix seconds) for the given identity,
    /// signed with the service's key; returns it with its lifetime.
    pub fn issue_access_token_for(
        &self,
        user_id: u128,
        player_id: u128,
        current_village_id: u32,
        refresh_session_id: u128,
        now: i64,
    ) -> (r: Result<(String, i64), AuthTokenError>)
        requires
            i64::MIN <= now + self.access_ttl_secs <= i64::MAX,
        ensures
            r matches Ok(p) && p.0@ == spec_jwt_hs256(
                spec_access_claims(
                    user_id,
                    player_id,
                    current_village_id,
                    refresh_session_id,
                    now as int,
                    self.access_ttl_secs as int,
                ),
                self.signing_key@,
            ) && p.1 == self.access_ttl_secs,
    {
        let claims = self.access_claims_for(user_id, player_id, current_village_id, refresh_session_id, now);
        match jwt_encode_hs256(&claims, self.signing_key.as_slice()) {
            Ok(token) => Ok((token, self.access_ttl_secs)),
            Err(message) => Err(AuthTokenError::Internal(message)),
        }
    }

    /// Issues an access token at `now` for the signed-in user: their account,
    /// player and current village.
    pub fn issue_access_token(&self, user: &crate::model::CurrentUser, refresh_session_id: u128, now: i64) -> (r:
        Result<(String, i64), AuthTokenError>)
        requires
            i64::MIN <= now + self.access_ttl_secs <= i64::MAX,
        ensures
            r matches Ok(p) && p.0@ == spec_jwt_hs256(
                spec_access_claims(
                    user.account.id,
                    user.player.id,
                    user.village.id,
                    refresh_session_id,
                    now as int,
                    self.access_ttl_secs as int,
                ),
                self.signing_key@,
            ) && p.1 == self.access_ttl_secs,
    {
        self.issue_access_token_for(user.account.id, user.player.id, user.village.id, refresh_session_id, now)
    }

    /// Checks an access token at time `now` (unix seconds) against the
    /// service's key: its signature and form, its expiry with the allowed
    /// clock skew, and the identifiers it carries. A token this service
    /// issued for an identity gives back that identity until its expiry plus
    /// the clock skew, and is refused as expired after that.
    pub fn verify_access_token(&self, token: &str, now: i64) -> (r: Result<AuthenticatedTokenContext, AuthTokenError>)
        ensures
            r == spec_check_decoded(spec_jwt_decode(token@, self.signing_key@), now as int),
            forall|u: u128, p: u128, sid: u128, v: u32, iat: int, exp: int|
                #![trigger spec_jwt_hs256(
                    (spec_uuid_hyphenated(u), spec_uuid_hyphenated(p), v, spec_uuid_hyphenated(sid), iat, exp),
                    self.signing_key@,
                )]
                token@ == spec_jwt_hs256(
                    (spec_uuid_hyphenated(u), spec_uuid_hyphenated(p), v, spec_uuid_hyphenated(sid), iat, exp),
                    self.signing_key@,
                ) && i64::MIN <= iat <= i64::MAX && 0 <= exp <= i64::MAX && now <= exp + ACCESS_TOKEN_CLOCK_SKEW_SECS
                    ==> r == Ok::<AuthenticatedTokenContext, AuthTokenError>(
                    AuthenticatedTokenContext {
                        user_id: u,
                        player_id: p,
                        current_village_id: v,
                        refresh_session_id: sid,
                    },
                ),
            forall|cv: (Seq<char>, Seq<char>, u32, Seq<char>, int, int)|
                #![trigger spec_jwt_hs256(cv, self.signing_key@)]
                token@ == spec_jwt_hs256(cv, self.signing_key@) && is_carried_claims(cv) && cv.5
                    + ACCESS_TOKEN_CLOCK_SKEW_SECS < now ==> r == Err::<AuthenticatedTokenContext, AuthTokenError>(
                    AuthTokenError::TokenExpired,
                ),
    {
        let decoded = jwt_decode_hs256(token, self.signing_key.as_slice());
        let ghost dv = decoded_option_view(decoded);
        let r = check_decoded_claims(decoded, now);
        proof {
            assert forall|u: u128, p: u128, sid: u128, v: u32, iat: int, exp: int|
                token@ == spec_jwt_hs256(
                    (spec_uuid_hyphenated(u), spec_uuid_hyphenated(p), v, spec_uuid_hyphenated(sid), iat, exp),
                    self.signing_key@,
                ) && i64::MIN <= iat <= i64::MAX && 0 <= exp <= i64::MAX && now <= exp + ACCESS_TOKEN_CLOCK_SKEW_SECS
                implies r == Ok::<AuthenticatedTokenContext, AuthTokenError>(
                AuthenticatedTokenContext {
                    user_id: u,
                    player_id: p,
                    current_village_id: v,
                    refresh_session_id: sid,
                },
            ) by {
                let cv = (spec_uuid_hyphenated(u), spec_uuid_hyphenated(p), v, spec_uuid_hyphenated(sid), iat, exp);
                assert(is_carried_claims(cv));
                assert(spec_jwt_hs256(cv, self.signing_key@) == token@);
                let d = decoded->0;
                assert(decoded_view(d) == (cv.0, cv.1, cv.2 as u64, cv.3, cv.4, cv.5));
                assert(d.0@ == spec_uuid_hyphenated(u));
                assert(d.1@ == spec_uuid_hyphenated(p));
                assert(d.3@ == spec_uuid_hyphenated(sid));
            }
            assert forall|cv: (Seq<char>, Seq<char>, u32, Seq<char>, int, int)|
                token@ == spec_jwt_hs256(cv, self.signing_key@) && is_carried_claims(cv) && cv.5
                    + ACCESS_TOKEN_CLOCK_SKEW_SECS < now implies r == Err::<AuthenticatedTokenContext, AuthTokenError>(
                AuthTokenError::TokenExpired,
            ) by {
                assert(spec_jwt_hs256(cv, self.signing_key@) == token@);
                let d = decoded->0;
                assert(decoded_view(d) == (cv.0, cv.1, cv.2 as u64, cv.3, cv.4, cv.5));
            }
        }
        r
    }
}

/// The session that a stored row describes.
pub open spec fn session_of_row(r: RefreshSessionRow) -> RefreshSession {
    RefreshSession {
        id: r.id,
        user_id: r.user_id,
        player_id: r.player_id,
        current_village_id: r.current_village_id as u32,
        expires_at: r.expires_at,
        revoked_at: r.revoked_at,
    }
}

/// Checks a looked-up refresh session at time `now` (unix seconds): a missing
/// row gives `missing`, a revoked one `SessionRevoked`, one whose expiry is not
/// after `now` `RefreshExpired`, a negative village id an internal error, and
/// otherwise the session.
pub fn check_refresh_session(
    row: Option<RefreshSessionRow>,
    now: i64,
    missing: AuthTokenError,
) -> (r: Result<RefreshSession, AuthTokenError>)
    ensures
        row is None ==> r == Err::<RefreshSession, AuthTokenError>(missing),
        row matches Some(x) ==> {
            &&& x.revoked_at is Some ==> r == Err::<RefreshSession, AuthTokenError>(
                AuthTokenError::SessionRevoked,
            )
            &&& x.revoked_at is None && x.expires_at <= now ==> r == Err::<
                RefreshSession,
                AuthTokenError,
            >(AuthTokenError::RefreshExpired)
            &&& x.revoked_at is None && x.expires_at > now && x.current_village_id < 0 ==> (r matches Err(
                AuthTokenError::Internal(m),
            ) && m@ == spec_int_conversion_message())
            &&& x.revoked_at is None && x.expires_at > now && x.current_village_id >= 0 ==> r
                == Ok::<RefreshSession, AuthTokenError>(session_of_row(x))
        },
{
    match row {
        None => Err(missing),
        Some(x) => {
            if x.revoked_at.is_some() {
                Err(AuthTokenError::SessionRevoked)
            } else if x.expires_at <= now {
                Err(AuthTokenError::RefreshExpired)
            } else if x.current_village_id < 0 {
                Err(int_conversion_error())
            } else {
                Ok(RefreshSession {
                    id: x.id,
                    user_id: x.user_id,
                    player_id: x.player_id,
                    current_village_id: x.current_village_id as u32,
                    expires_at: x.expires_at,
                    revoked_at: x.revoked_at,
                })
            }
        },
    }
}

/// The stored form of a village id; ids above `i32::MAX` do not fit the column.
pub fn village_id_for_storage(id: u32) -> (r: Result<i32, AuthTokenError>)
    ensures
        id <= i32::MAX ==> r == Ok::<i32, AuthTokenError>(id as i32),
        id > i32::MAX ==> (r matches Err(AuthTokenError::Internal(m)) && m@
            == spec_int_conversion_message()),
{
    if id <= 2147483647u32 {
        Ok(id as i32)
    } else {
        Err(int_conversion_error())
    }
}

/// SHA-256 digest of a byte string, as `sha2::Sha256` computes it.
pub uninterp spec fn spec_sha256(data: Seq<u8>) -> Seq<u8>;

/// Digests `data` with `sha2::Sha256` (`new`, `update`, `finalize`).
/// Claimed: the 32-byte digest, a function of the input alone.
#[verifier::external_body]
fn sha256_digest(data: &[u8]) -> (d: Vec<u8>)
    ensures
        d@ == spec_sha256(data@),
        d@.len() == 32,
{
    let mut hasher = sha2::Sha256::new();
    hasher.update(data);
    hasher.finalize().to_vec()
}

/// Lower-case hexadecimal text of a byte string, two digits per byte.
pub open spec fn spec_hex_lower(bytes: Seq<u8>) -> Seq<char> {
    Seq::new(
        2 * bytes.len(),
        |i: int|
            if i % 2 == 0 {
                hex_digit_lower(bytes[i / 2] as int / 16)
            } else {
                hex_digit_lower(bytes[i / 2] as int % 16)
            },
    )
}

fn hex_char(n: u8) -> (c: char)
    requires
        n < 16,
    ensures
        c == hex_digit_lower(n as int),
{
    if n < 10 {
        (48u8 + n) as char
    } else {
        (87u8 + n) as char
    }
}

/// Lower-case hexadecimal text of `bytes`.
pub fn hex_lower(bytes: &[u8]) -> (s: String)
    requires
        2 * bytes@.len() <= usize::MAX,
    ensures
        s@ == spec_hex_lower(bytes@),
{
    let mut s = String::new();
    let mut i: usize = 0;
    while i < bytes.len()
        invariant
            i <= bytes.len(),
            s@ =~= spec_hex_lower(bytes@.take(i as int)),
        decreases bytes.len() - i,
    {
        let b = bytes[i];
        crate::text::push_char(&mut s, hex_char(b / 16));
        crate::text::push_char(&mut s, hex_char(b % 16));
        assert(spec_hex_lower(bytes@.take(i + 1)) =~= spec_hex_lower(bytes@.take(i as int)).push(
            hex_digit_lower(b as int / 16),
        ).push(hex_digit_lower(b as int % 16)));
        i = i + 1;
    }
    assert(bytes@.take(bytes.len() as int) =~= bytes@);
    s
}

/// Digest under which a refresh token is stored: lower-case hex of the
/// SHA-256 of its UTF-8 bytes (64 characters).
pub fn hash_refresh_token(refresh_token: &str) -> (h: String)
    ensures
        h@ == spec_hex_lower(spec_sha256(refresh_token.spec_bytes())),
        h@.len() == 64,
{
    let digest = sha256_digest(refresh_token.as_bytes());
    hex_lower(digest.as_slice())
}

/// URL-safe unpadded base64 text of a byte string, as the `base64` crate encodes it.
pub uninterp spec fn spec_base64_url_no_pad(data: Seq<u8>) -> Seq<char>;

/// Length of the unpadded base64 text of `n` bytes.
pub open spec fn base64_unpadded_len(n: nat) -> nat {
    (n / 3) * 4 + if n % 3 == 0 {
        0nat
    } else if n % 3 == 1 {
        2nat
    } else {
        3nat
    }
}

/// A character of the URL-safe base64 alphabet.
pub open spec fn is_url_safe_base64_char(c: char) -> bool {
    ('A' <= c <= 'Z') || ('a' <= c <= 'z') || ('0' <= c <= '9') || c == '-' || c == '_'
}

/// Encodes with `base64::engine::general_purpose::URL_SAFE_NO_PAD`.
/// Claimed: a function of the input alone, of the length that the crate's
/// `encoded_len` gives without padding, over the URL-safe alphabet.
#[verifier::external_body]
fn base64_url_no_pad(data: &[u8]) -> (s: String)
    requires
        base64_unpadded_len(data@.len()) <= usize::MAX,
    ensures
        s@ == spec_base64_url_no_pad(data@),
        s@.len() == base64_unpadded_len(data@.len()),
        forall|i: int| 0 <= i < s@.len() ==> is_url_safe_base64_char(#[trigger] s@[i]),
{
    base64::engine::general_purpose::URL_SAFE_NO_PAD.encode(data)
}

/// Number of random bytes in a refresh token.
pub const REFRESH_TOKEN_BYTES: usize = 48;

/// 48 bytes from `rand::thread_rng().fill_bytes`. Nothing is claimed of their values.
#[verifier::external_body]
fn random_token_bytes() -> (b: Vec<u8>)
    ensures
        b@.len() == REFRESH_TOKEN_BYTES,
{
    let mut bytes = [0u8; 48];
    rand::thread_rng().fill_bytes(&mut bytes);
    bytes.to_vec()
}

/// A fresh opaque refresh token: 48 random bytes in URL-safe unpadded base64,
/// so 64 characters of that alphabet.
pub fn generate_refresh_token() -> (t: String)
    ensures
        t@.len() == 64,
        forall|i: int| 0 <= i < t@.len() ==> is_url_safe_base64_char(#[trigger] t@[i]),
        exists|b: Seq<u8>| b.len() == REFRESH_TOKEN_BYTES && t@ == spec_base64_url_no_pad(b),
{
    let bytes = random_token_bytes();
    let t = base64_url_no_pad(bytes.as_slice());
    assert(t@ == spec_base64_url_no_pad(bytes@));
    t
}

/// The stored digest of a refresh token depends on the token alone: two
/// tokens with the same text are stored under the same digest.
pub proof fn lemma_refresh_hash_stable(a: &str, b: &str)
    requires
        a@ == b@,
    ensures
        spec_hex_lower(spec_sha256(a.spec_bytes())) == spec_hex_lower(spec_sha256(b.spec_bytes())),
{
}

} // verus!
