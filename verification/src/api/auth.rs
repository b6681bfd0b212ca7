//! Rules of the token authentication endpoints (login, register, refresh, logout).

use vstd::prelude::*;

use crate::errors::{
    internal_error, is_api_error, is_api_field_error, ApiError, ApiErrorKind, AppError,
    ApplicationError, DbError,
};
use crate::model::{spec_quadrant_key, spec_tribe_key, MapQuadrant, Tribe};
use crate::text::{is_blank, spec_trim, str_eq};
use crate::tokens::AuthTokenError;

verus! {

/// Login payload for token-based authentication.
#[derive(Debug, Clone)]
pub struct TokenLoginRequest {
    pub email: String,
    pub password: String,
}

/// Registration payload.
#[derive(Debug, Clone)]
pub struct TokenRegisterRequest {
    pub username: String,
    pub email: String,
    pub password: String,
    pub tribe: String,
    pub quadrant: String,
}

/// Refresh request with the current refresh token.
#[derive(Debug, Clone)]
pub struct TokenRefreshRequest {
    pub refresh_token: String,
}

/// Logout request; optionally revokes every session of the user.
#[derive(Debug, Clone)]
pub struct TokenLogoutRequest {
    pub refresh_token: String,
    pub all_sessions: bool,
}

/// Logout response payload.
#[derive(Debug, Clone, Copy)]
pub struct LogoutResponse {
    pub success: bool,
}

/// Text that is empty once trimmed.
pub open spec fn blank(s: Seq<char>) -> bool {
    spec_trim(s).len() == 0
}

/// Checks that a login request names both an email and a password.
pub fn validate_login_request(req: &TokenLoginRequest) -> (r: Result<(), ApiError>)
    ensures
        r is Ok <==> !blank(req.email@) && !blank(req.password@),
        blank(req.email@) ==> (r matches Err(e) && is_api_field_error(
            e,
            ApiErrorKind::Unprocessable,
            "Missing required login fields."@,
            "email"@,
            "Email is required"@,
        )),
        !blank(req.email@) && blank(req.password@) ==> (r matches Err(e) && is_api_field_error(
            e,
            ApiErrorKind::Unprocessable,
            "Missing required login fields."@,
            "password"@,
            "Password is required"@,
        )),
{
    if is_blank(req.email.as_str()) {
        return Err(ApiError::new(ApiErrorKind::Unprocessable, "Missing required login fields.")
            .with_field_error("email", "Email is required"));
    }
    if is_blank(req.password.as_str()) {
        return Err(ApiError::new(ApiErrorKind::Unprocessable, "Missing required login fields.")
            .with_field_error("password", "Password is required"));
    }
    Ok(())
}

/// The tribe named by a registration payload.
pub open spec fn spec_parse_tribe(s: Seq<char>) -> Option<Tribe> {
    if s == "Roman"@ {
        Some(Tribe::Roman)
    } else if s == "Gaul"@ {
        Some(Tribe::Gaul)
    } else if s == "Teuton"@ {
        Some(Tribe::Teuton)
    } else {
        None
    }
}

/// A tribe's name as clients are shown it reads back as that tribe.
pub proof fn lemma_tribe_key_round_trip(t: Tribe)
    ensures
        spec_parse_tribe(spec_tribe_key(t)) == Some(t),
{
    reveal_strlit("Roman");
    reveal_strlit("Gaul");
    reveal_strlit("Teuton");
    match t {
        Tribe::Roman => {},
        Tribe::Gaul => {
            assert("Gaul"@.len() != "Roman"@.len());
        },
        Tribe::Teuton => {
            assert("Teuton"@.len() != "Roman"@.len());
            assert("Teuton"@.len() != "Gaul"@.len());
        },
    }
}

/// Parses the tribe of a registration payload.
pub fn parse_tribe(value: &str) -> (r: Result<Tribe, ApiError>)
    ensures
        spec_parse_tribe(value@) matches Some(t) ==> r == Ok::<Tribe, ApiError>(t),
        spec_parse_tribe(value@) is None ==> (r matches Err(e) && is_api_field_error(
            e,
            ApiErrorKind::Unprocessable,
            "Unsupported tribe '"@ + value@ + "'"@,
            "tribe"@,
            "Expected Roman, Gaul, or Teuton"@,
        )),
{
    if str_eq(value, "Roman") {
        Ok(Tribe::Roman)
    } else if str_eq(value, "Gaul") {
        Ok(Tribe::Gaul)
    } else if str_eq(value, "Teuton") {
        Ok(Tribe::Teuton)
    } else {
        let mut message = String::from_str("Unsupported tribe '");
        message.append(value);
        message.append("'");
        Err(ApiError::with_message(ApiErrorKind::Unprocessable, message)
            .with_field_error("tribe", "Expected Roman, Gaul, or Teuton"))
    }
}

/// The starting quadrant named by a registration payload.
pub open spec fn spec_parse_quadrant(s: Seq<char>) -> Option<MapQuadrant> {
    if s == "NorthEast"@ {
        Some(MapQuadrant::NorthEast)
    } else if s == "NorthWest"@ {
        Some(MapQuadrant::NorthWest)
    } else if s == "SouthEast"@ {
        Some(MapQuadrant::SouthEast)
    } else if s == "SouthWest"@ {
        Some(MapQuadrant::SouthWest)
    } else {
        None
    }
}

/// Quadrant names read back as their quadrants, and only they do: a text
/// names quadrant `q` exactly when it is the name of `q`, so two different
/// texts never name the same quadrant and each name gives its own quadrant.
pub proof fn lemma_quadrant_key_round_trip(s: Seq<char>, q: MapQuadrant)
    ensures
        spec_parse_quadrant(spec_quadrant_key(q)) == Some(q),
        spec_parse_quadrant(s) == Some(q) <==> s == spec_quadrant_key(q),
{
    reveal_strlit("NorthEast");
    reveal_strlit("NorthWest");
    reveal_strlit("SouthEast");
    reveal_strlit("SouthWest");
    assert("NorthWest"@[5] != "NorthEast"@[5]);
    assert("SouthEast"@[0] != "NorthEast"@[0]);
    assert("SouthEast"@[0] != "NorthWest"@[0]);
    assert("SouthWest"@[0] != "NorthEast"@[0]);
    assert("SouthWest"@[0] != "NorthWest"@[0]);
    assert("SouthWest"@[5] != "SouthEast"@[5]);
}

/// Two texts that name a quadrant name the same one only when they are the
/// same text.
pub proof fn lemma_parse_quadrant_injective(a: Seq<char>, b: Seq<char>)
    ensures
        spec_parse_quadrant(a) is Some && spec_parse_quadrant(a) == spec_parse_quadrant(b) ==> a == b,
{
    if spec_parse_quadrant(a) is Some && spec_parse_quadrant(a) == spec_parse_quadrant(b) {
        let q = spec_parse_quadrant(a).unwrap();
        lemma_quadrant_key_round_trip(a, q);
        lemma_quadrant_key_round_trip(b, q);
    }
}

/// Parses the starting quadrant of a registration payload.
pub fn parse_quadrant(value: &str) -> (r: Result<MapQuadrant, ApiError>)
    ensures
        spec_parse_quadrant(value@) matches Some(q) ==> r == Ok::<MapQuadrant, ApiError>(q),
        spec_parse_quadrant(value@) is None ==> (r matches Err(e) && is_api_field_error(
            e,
            ApiErrorKind::Unprocessable,
            "Unsupported quadrant '"@ + value@ + "'"@,
            "quadrant"@,
            "Expected NorthEast, NorthWest, SouthEast, or SouthWest"@,
        )),
{
    if str_eq(value, "NorthEast") {
        Ok(MapQuadrant::NorthEast)
    } else if str_eq(value, "NorthWest") {
        Ok(MapQuadrant::NorthWest)
    } else if str_eq(value, "SouthEast") {
        Ok(MapQuadrant::SouthEast)
    } else if str_eq(value, "SouthWest") {
        Ok(MapQuadrant::SouthWest)
    } else {
        let mut message = String::from_str("Unsupported quadrant '");
        message.append(value);
        message.append("'");
        Err(ApiError::with_message(ApiErrorKind::Unprocessable, message)
            .with_field_error("quadrant", "Expected NorthEast, NorthWest, SouthEast, or SouthWest"))
    }
}

/// Checks a registration request: username, email and password must be given,
/// then the tribe and the quadrant must be known ones.
pub fn validate_register_request(req: &TokenRegisterRequest) -> (r: Result<(Tribe, MapQuadrant), ApiError>)
    ensures
        r matches Ok((t, q)) ==> !blank(req.username@) && !blank(req.email@) && !blank(req.password@)
            && spec_parse_tribe(req.tribe@) == Some(t) && spec_parse_quadrant(req.quadrant@) == Some(q),
        (!blank(req.username@) && !blank(req.email@) && !blank(req.password@)
            && spec_parse_tribe(req.tribe@) is Some && spec_parse_quadrant(req.quadrant@) is Some) ==> r is Ok,
        blank(req.username@) ==> (r matches Err(e) && is_api_field_error(
            e,
            ApiErrorKind::Unprocessable,
            "Missing required registration fields."@,
            "username"@,
            "Username is required"@,
        )),
        !blank(req.username@) && blank(req.email@) ==> (r matches Err(e) && is_api_field_error(
            e,
            ApiErrorKind::Unprocessable,
            "Missing required registration fields."@,
            "email"@,
            "Email is required"@,
        )),
        !blank(req.username@) && !blank(req.email@) && blank(req.password@) ==> (r matches Err(e)
            && is_api_field_error(
            e,
            ApiErrorKind::Unprocessable,
            "Missing required registration fields."@,
            "password"@,
            "Password is required"@,
        )),
        !blank(req.username@) && !blank(req.email@) && !blank(req.password@) && spec_parse_tribe(
            req.tribe@,
        ) is None ==> (r matches Err(e) && is_api_field_error(
            e,
            ApiErrorKind::Unprocessable,
            "Unsupported tribe '"@ + req.tribe@ + "'"@,
            "tribe"@,
            "Expected Roman, Gaul, or Teuton"@,
        )),
        !blank(req.username@) && !blank(req.email@) && !blank(req.password@) && spec_parse_tribe(
            req.tribe@,
        ) is Some && spec_parse_quadrant(req.quadrant@) is None ==> (r matches Err(e)
            && is_api_field_error(
            e,
            ApiErrorKind::Unprocessable,
            "Unsupported quadrant '"@ + req.quadrant@ + "'"@,
            "quadrant"@,
            "Expected NorthEast, NorthWest, SouthEast, or SouthWest"@,
        )),
{
    if is_blank(req.username.as_str()) {
        return Err(ApiError::new(ApiErrorKind::Unprocessable, "Missing required registration fields.")
            .with_field_error("username", "Username is required"));
    }
    if is_blank(req.email.as_str()) {
        return Err(ApiError::new(ApiErrorKind::Unprocessable, "Missing required registration fields.")
            .with_field_error("email", "Email is required"));
    }
    if is_blank(req.password.as_str()) {
        return Err(ApiError::new(ApiErrorKind::Unprocessable, "Missing required registration fields.")
            .with_field_error("password", "Password is required"));
    }
    let tribe = parse_tribe(req.tribe.as_str())?;
    let quadrant = parse_quadrant(req.quadrant.as_str())?;
    Ok((tribe, quadrant))
}

/// Checks that a refresh token is given (refresh and logout requests).
pub fn validate_refresh_token_field(refresh_token: &str) -> (r: Result<(), ApiError>)
    ensures
        r is Ok <==> !blank(refresh_token@),
        blank(refresh_token@) ==> (r matches Err(e) && is_api_field_error(
            e,
            ApiErrorKind::Unprocessable,
            "Refresh token is required."@,
            "refresh_token"@,
            "Refresh token is required"@,
        )),
{
    if is_blank(refresh_token) {
        return Err(ApiError::new(ApiErrorKind::Unprocessable, "Refresh token is required.")
            .with_field_error("refresh_token", "Refresh token is required"));
    }
    Ok(())
}

/// Maps a failed login: wrong credentials and unknown emails look alike to the client.
pub fn map_auth_error(error: ApplicationError) -> (e: ApiError)
    ensures
        (error matches ApplicationError::App(AppError::WrongAuthCredentials) || error matches ApplicationError::Db(
            DbError::UserByEmailNotFound,
        )) ==> is_api_error(e, ApiErrorKind::Unauthorized, "Invalid email or password."@),
        !(error matches ApplicationError::App(AppError::WrongAuthCredentials) || error matches ApplicationError::Db(
            DbError::UserByEmailNotFound,
        )) ==> is_api_error(e, ApiErrorKind::Internal, "Internal server error"@),
{
    match error {
        ApplicationError::App(AppError::WrongAuthCredentials) | ApplicationError::Db(
            DbError::UserByEmailNotFound,
        ) => ApiError::new(ApiErrorKind::Unauthorized, "Invalid email or password."),
        _ => internal_error("auth_login_failed"),
    }
}

/// The SQLSTATE code that a database failure reports, if it is one.
pub open spec fn db_code(error: ApplicationError) -> Option<Seq<char>> {
    match error {
        ApplicationError::Db(DbError::Database { code: Some(c) }) => Some(c@),
        _ => None,
    }
}

/// Maps a failed registration: a password rule violation, a duplicate email
/// (unique violation `23505`) and a missing field (not-null violation `23502`)
/// are told apart; anything else is internal.
pub fn map_register_error(error: ApplicationError) -> (e: ApiError)
    ensures
        error matches ApplicationError::App(AppError::PasswordError) ==> is_api_field_error(
            e,
            ApiErrorKind::Unprocessable,
            "Invalid password or internal password error."@,
            "password"@,
            "The password does not satisfy the server rules"@,
        ),
        db_code(error) == Some("23505"@) ==> is_api_field_error(
            e,
            ApiErrorKind::Conflict,
            "An account with this email already exists."@,
            "email"@,
            "Email already exists"@,
        ),
        db_code(error) == Some("23502"@) ==> is_api_error(
            e,
            ApiErrorKind::Unprocessable,
            "Missing required registration fields."@,
        ),
        !(error matches ApplicationError::App(AppError::PasswordError)) && db_code(error) != Some(
            "23505"@,
        ) && db_code(error) != Some("23502"@) ==> is_api_error(
            e,
            ApiErrorKind::Internal,
            "Internal server error"@,
        ),
{
    match error {
        ApplicationError::App(AppError::PasswordError) => ApiError::new(
            ApiErrorKind::Unprocessable,
            "Invalid password or internal password error.",
        ).with_field_error("password", "The password does not satisfy the server rules"),
        ApplicationError::Db(DbError::Database { code: Some(code) }) => {
            proof {
                reveal_strlit("23505");
                reveal_strlit("23502");
                assert("23505"@[4] != "23502"@[4]);
            }
            if str_eq(code.as_str(), "23505") {
                ApiError::new(ApiErrorKind::Conflict, "An account with this email already exists.")
                    .with_field_error("email", "Email already exists")
            } else if str_eq(code.as_str(), "23502") {
                ApiError::new(ApiErrorKind::Unprocessable, "Missing required registration fields.")
            } else {
                internal_error("auth_register_failed")
            }
        },
        _ => internal_error("auth_register_failed"),
    }
}

/// Maps a token failure met by the token endpoints onto the API error.
pub fn map_token_error(error: AuthTokenError) -> (e: ApiError)
    ensures
        error is TokenExpired ==> is_api_error(e, ApiErrorKind::TokenExpired, "Access token expired"@),
        error is RefreshExpired ==> is_api_error(e, ApiErrorKind::RefreshExpired, "Refresh token expired"@),
        error is SessionRevoked ==> is_api_error(e, ApiErrorKind::SessionRevoked, "Refresh session revoked"@),
        error is InvalidToken ==> is_api_error(e, ApiErrorKind::Unauthorized, "Invalid token"@),
        (error is Database || error is Internal) ==> is_api_error(e, ApiErrorKind::Internal, "Internal server error"@),
{
    match error {
        AuthTokenError::TokenExpired => ApiError::new(ApiErrorKind::TokenExpired, "Access token expired"),
        AuthTokenError::RefreshExpired => ApiError::new(ApiErrorKind::RefreshExpired, "Refresh token expired"),
        AuthTokenError::SessionRevoked => ApiError::new(ApiErrorKind::SessionRevoked, "Refresh session revoked"),
        AuthTokenError::InvalidToken => ApiError::new(ApiErrorKind::Unauthorized, "Invalid token"),
        AuthTokenError::Database(_) | AuthTokenError::Internal(_) => internal_error("auth_token_validation_failed"),
    }
}

} // verus!
