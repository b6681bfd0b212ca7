//! Rules of the sign-up and sign-in pages: how the sign-up form's choices
//! are read, and what the pages tell a user whose request failed.

use vstd::prelude::*;

use crate::api::auth::{spec_parse_quadrant, spec_parse_tribe};
use crate::errors::{AppError, ApplicationError, DbError};
use crate::model::{MapQuadrant, Tribe};
use crate::text::{contains_text, str_eq, text_contains};

verus! {

/// The tribe chosen on the sign-up form; anything unknown counts as Roman.
pub fn form_tribe(value: &str) -> (r: Tribe)
    ensures
        spec_parse_tribe(value@) matches Some(t) ==> r == t,
        spec_parse_tribe(value@) is None ==> r == Tribe::Roman,
{
    if str_eq(value, "Roman") {
        Tribe::Roman
    } else if str_eq(value, "Gaul") {
        Tribe::Gaul
    } else if str_eq(value, "Teuton") {
        Tribe::Teuton
    } else {
        Tribe::Roman
    }
}

/// The map quadrant chosen on the sign-up form; anything unknown counts as
/// north-east.
pub fn form_quadrant(value: &str) -> (r: MapQuadrant)
    ensures
        spec_parse_quadrant(value@) matches Some(q) ==> r == q,
        spec_parse_quadrant(value@) is None ==> r == MapQuadrant::NorthEast,
{
    if str_eq(value, "NorthEast") {
        MapQuadrant::NorthEast
    } else if str_eq(value, "NorthWest") {
        MapQuadrant::NorthWest
    } else if str_eq(value, "SouthEast") {
        MapQuadrant::SouthEast
    } else if str_eq(value, "SouthWest") {
        MapQuadrant::SouthWest
    } else {
        MapQuadrant::NorthEast
    }
}

/// What the sign-up page says of a database failure, read from the failure's
/// text: a broken uniqueness means the account exists, a missing value means
/// a field was left out, anything else is an internal error.
pub open spec fn spec_signup_db_message(text: Seq<char>) -> Seq<char> {
    if contains_text(text, "duplicate key value"@) || contains_text(text, "UNIQUE constraint"@) {
        "An account with this email already exists."@
    } else if contains_text(text, "null value in column"@) {
        "Missing required fields."@
    } else {
        "Registration failed due to an internal error."@
    }
}

/// Reads the sign-up page's message out of a database failure's text.
pub fn signup_db_message(text: &str) -> (s: String)
    ensures
        s@ == spec_signup_db_message(text@),
{
    if text_contains(text, "duplicate key value") || text_contains(text, "UNIQUE constraint") {
        String::from_str("An account with this email already exists.")
    } else if text_contains(text, "null value in column") {
        String::from_str("Missing required fields.")
    } else {
        String::from_str("Registration failed due to an internal error.")
    }
}

/// A failed request shown on a page: its HTTP status and message.
#[derive(Debug, Clone)]
pub struct PageFailure {
    pub status: u16,
    pub message: String,
}

/// What the sign-up page shows when registering failed: a bad password gives
/// a server error, a database failure the message read from `db_text` (the
/// failure's text) with status 422, anything else a bare server error.
pub fn signup_failure(err: &ApplicationError, db_text: &str) -> (f: PageFailure)
    ensures
        err matches ApplicationError::App(AppError::PasswordError) ==> f.status == 500 && f.message@
            == "Invalid password or internal error."@,
        err is Db ==> f.status == 422 && f.message@ == spec_signup_db_message(db_text@),
        !(err matches ApplicationError::App(AppError::PasswordError)) && !(err is Db) ==> f.status == 500
            && f.message@ == "Internal server error."@,
{
    match err {
        ApplicationError::App(AppError::PasswordError) => PageFailure {
            status: 500,
            message: String::from_str("Invalid password or internal error."),
        },
        ApplicationError::Db(_) => PageFailure { status: 422, message: signup_db_message(db_text) },
        _ => PageFailure { status: 500, message: String::from_str("Internal server error.") },
    }
}

/// What the sign-in page shows when signing in failed: wrong credentials and
/// an unknown e-mail are refused with 401, anything else is a server error.
pub fn login_failure(err: &ApplicationError) -> (f: PageFailure)
    ensures
        err matches ApplicationError::App(AppError::WrongAuthCredentials) ==> f.status == 401 && f.message@
            == "Invalid email or password."@,
        err matches ApplicationError::Db(DbError::UserByEmailNotFound) ==> f.status == 401 && f.message@
            == "User not found."@,
        !(err matches ApplicationError::App(AppError::WrongAuthCredentials)) && !(err matches ApplicationError::Db(
            DbError::UserByEmailNotFound,
        )) ==> f.status == 500 && f.message@ == "Internal server error."@,
{
    match err {
        ApplicationError::App(AppError::WrongAuthCredentials) => PageFailure {
            status: 401,
            message: String::from_str("Invalid email or password."),
        },
        ApplicationError::Db(DbError::UserByEmailNotFound) => PageFailure {
            status: 401,
            message: String::from_str("User not found."),
        },
        _ => PageFailure { status: 500, message: String::from_str("Internal server error.") },
    }
}

} // verus!
