//! Request authentication helpers: the bearer token, the forwarded client
//! address, and the checks on a token's refresh session.

use vstd::prelude::*;

use crate::errors::{is_api_error, ApiError, ApiErrorKind};
use crate::metrics::{counter_after, inc_token_expired, AuthMetrics};
use crate::text::{chars_eq, chars_of, spec_trim, string_from_chars, trimmed_chars};
use crate::tokens::{AuthTokenError, AuthenticatedTokenContext, RefreshSession};

verus! {

/// The bearer token of a request, or the refusal of a request without one
/// (`Unauthorized`, "Authentication required").
pub fn require_bearer_token(authorization: Option<&str>) -> (r: Result<String, ApiError>)
    ensures
        spec_bearer_token(authorization) matches Some(t) ==> (r matches Ok(s) && s@ == t),
        spec_bearer_token(authorization) is None ==> (r matches Err(e) && is_api_error(
            e,
            ApiErrorKind::Unauthorized,
            "Authentication required"@,
        )),
{
    match bearer_token(authorization) {
        Some(t) => Ok(t),
        None => Err(ApiError::new(ApiErrorKind::Unauthorized, "Authentication required")),
    }
}

/// The text of `s` before its first comma (all of it when it has none).
pub open spec fn before_first_comma(s: Seq<char>) -> Seq<char>
    decreases s.len(),
{
    if s.len() == 0 {
        s
    } else if s[0] == ',' {
        Seq::empty()
    } else {
        seq![s[0]] + before_first_comma(s.drop_first())
    }
}

/// The address a request was forwarded for, as an `X-Forwarded-For` value
/// (given when the request has the header and its value is visible ASCII)
/// names it: its first entry, trimmed. Whether that text is an IP address is
/// checked by the caller.
pub fn forwarded_client(header: Option<&str>) -> (r: Option<String>)
    ensures
        header is None ==> r is None,
        header matches Some(h) ==> (r matches Some(t) && t@ == spec_trim(before_first_comma(h@))),
{
    match header {
        None => None,
        Some(h) => {
            let cs = chars_of(h);
            let mut i: usize = 0;
            assert(cs@.skip(0) =~= cs@);
            assert(cs@.take(0) + before_first_comma(cs@.skip(0)) =~= before_first_comma(cs@));
            while i < cs.len() && cs[i] != ','
                invariant
                    i <= cs@.len(),
                    cs@ == h@,
                    before_first_comma(cs@) == cs@.take(i as int) + before_first_comma(cs@.skip(i as int)),
                decreases cs.len() - i,
            {
                let ghost rest = cs@.skip(i as int);
                assert(rest[0] == cs@[i as int]);
                assert(rest.drop_first() =~= cs@.skip(i + 1));
                assert(cs@.take(i + 1) =~= cs@.take(i as int).push(cs@[i as int]));
                assert(cs@.take(i as int) + (seq![cs@[i as int]] + before_first_comma(cs@.skip(i + 1)))
                    =~= cs@.take(i + 1) + before_first_comma(cs@.skip(i + 1)));
                i = i + 1;
            }
            proof {
                if i < cs@.len() {
                    assert(cs@.skip(i as int)[0] == ',');
                }
                assert(before_first_comma(cs@.skip(i as int)) =~= Seq::<char>::empty());
                assert(before_first_comma(cs@) =~= cs@.take(i as int));
            }
            let first = string_from_chars(&cs.as_slice()[0..i]);
            let trimmed = trimmed_chars(first.as_str());
            Some(string_from_chars(trimmed.as_slice()))
        },
    }
}

/// The token carried by an `Authorization` header value: the text after
/// `Bearer `, when there is any.
pub open spec fn spec_bearer_token(header: Option<&str>) -> Option<Seq<char>> {
    match header {
        None => None,
        Some(h) => if h@.len() > 7 && h@.take(7) == "Bearer "@ {
            Some(h@.skip(7))
        } else {
            None
        },
    }
}

/// Reads `Authorization: Bearer <token>` from the header's value (given when
/// the request has the header and its value is visible ASCII).
pub fn bearer_token(authorization: Option<&str>) -> (r: Option<String>)
    ensures
        r matches Some(t) ==> spec_bearer_token(authorization) == Some(t@),
        r is None ==> spec_bearer_token(authorization) is None,
{
    match authorization {
        None => None,
        Some(raw) => {
            let cs = chars_of(raw);
            let prefix = chars_of("Bearer ");
            if cs.len() <= 7 {
                return None;
            }
            let mut head: Vec<char> = Vec::new();
            let mut i: usize = 0;
            while i < 7
                invariant
                    cs.len() > 7,
                    i <= 7,
                    head@ =~= cs@.take(i as int),
                decreases 7 - i,
            {
                head.push(cs[i]);
                i = i + 1;
            }
            if !chars_eq(head.as_slice(), prefix.as_slice()) {
                return None;
            }
            let mut rest: Vec<char> = Vec::new();
            let mut j: usize = 7;
            while j < cs.len()
                invariant
                    7 <= j <= cs.len(),
                    rest@ =~= cs@.subrange(7, j as int),
                decreases cs.len() - j,
            {
                rest.push(cs[j]);
                j = j + 1;
            }
            Some(string_from_chars(rest.as_slice()))
        },
    }
}

/// Checks that an access token's identity matches its refresh session.
pub fn validate_refresh_context(
    claims: &AuthenticatedTokenContext,
    refresh_session: &RefreshSession,
) -> (r: Result<(), ApiError>)
    ensures
        r is Ok <==> (refresh_session.user_id == claims.user_id && refresh_session.player_id
            == claims.player_id && refresh_session.current_village_id
            == claims.current_village_id),
        r matches Err(e) ==> is_api_error(e, ApiErrorKind::Unauthorized, "Invalid token context"@),
{
    if refresh_session.user_id != claims.user_id || refresh_session.player_id != claims.player_id
        || refresh_session.current_village_id != claims.current_village_id
    {
        return Err(ApiError::new(ApiErrorKind::Unauthorized, "Invalid token context"));
    }
    Ok(())
}

/// Maps a token failure met while authenticating a request onto the API
/// error; an expired access token is also counted.
pub fn map_token_error(error: AuthTokenError, metrics: &mut AuthMetrics) -> (e: ApiError)
    ensures
        error is TokenExpired ==> *final(metrics) == (AuthMetrics {
            token_expired: counter_after(old(metrics).token_expired),
            ..*old(metrics)
        }),
        !(error is TokenExpired) ==> *final(metrics) == *old(metrics),
        error is TokenExpired ==> is_api_error(e, ApiErrorKind::TokenExpired, "Access token expired"@),
        error is RefreshExpired ==> is_api_error(e, ApiErrorKind::RefreshExpired, "Refresh session expired"@),
        error is SessionRevoked ==> is_api_error(e, ApiErrorKind::SessionRevoked, "Session revoked"@),
        error is InvalidToken ==> is_api_error(e, ApiErrorKind::Unauthorized, "Invalid bearer token"@),
        error matches AuthTokenError::Database(m) ==> is_api_error(e, ApiErrorKind::Internal, m@),
        error matches AuthTokenError::Internal(m) ==> is_api_error(e, ApiErrorKind::Internal, m@),
{
    match error {
        AuthTokenError::TokenExpired => {
            inc_token_expired(metrics);
            ApiError::new(ApiErrorKind::TokenExpired, "Access token expired")
        },
        AuthTokenError::RefreshExpired => ApiError::new(ApiErrorKind::RefreshExpired, "Refresh session expired"),
        AuthTokenError::SessionRevoked => ApiError::new(ApiErrorKind::SessionRevoked, "Session revoked"),
        AuthTokenError::InvalidToken => ApiError::new(ApiErrorKind::Unauthorized, "Invalid bearer token"),
        AuthTokenError::Database(msg) => ApiError::with_message(ApiErrorKind::Internal, msg),
        AuthTokenError::Internal(msg) => ApiError::with_message(ApiErrorKind::Internal, msg),
    }
}

} // verus!
