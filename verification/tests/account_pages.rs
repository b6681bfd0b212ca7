use parabellum_web::errors::{AppError, ApplicationError, DbError, GameError};
use parabellum_web::handlers::account::{form_quadrant, form_tribe, login_failure, signup_db_message, signup_failure};
use parabellum_web::model::{MapQuadrant, Tribe};
use parabellum_web::text::text_contains;

#[test]
fn signup_choices_fall_back_to_defaults() {
    assert_eq!(form_tribe("Teuton"), Tribe::Teuton);
    assert_eq!(form_tribe("Gaul"), Tribe::Gaul);
    assert_eq!(form_tribe("Roman"), Tribe::Roman);
    assert_eq!(form_tribe("gaul"), Tribe::Roman);
    assert_eq!(form_tribe(""), Tribe::Roman);
    assert_eq!(form_quadrant("SouthWest"), MapQuadrant::SouthWest);
    assert_eq!(form_quadrant("NorthWest"), MapQuadrant::NorthWest);
    assert_eq!(form_quadrant("Center"), MapQuadrant::NorthEast);
}

#[test]
fn signup_database_failures_are_explained() {
    assert_eq!(
        signup_db_message("error returned from database: duplicate key value violates unique constraint"),
        "An account with this email already exists."
    );
    assert_eq!(signup_db_message("UNIQUE constraint failed: users.email"), "An account with this email already exists.");
    assert_eq!(
        signup_db_message("null value in column \"email\" violates not-null constraint"),
        "Missing required fields."
    );
    assert_eq!(signup_db_message("connection reset"), "Registration failed due to an internal error.");
    assert_eq!(signup_db_message(""), "Registration failed due to an internal error.");
}

#[test]
fn signup_failures_have_status_and_message() {
    let f = signup_failure(&ApplicationError::App(AppError::PasswordError), "");
    assert_eq!((f.status, f.message.as_str()), (500, "Invalid password or internal error."));
    let f = signup_failure(&ApplicationError::Db(DbError::Other), "duplicate key value");
    assert_eq!((f.status, f.message.as_str()), (422, "An account with this email already exists."));
    let f = signup_failure(&ApplicationError::Game(GameError::InvalidValley), "duplicate key value");
    assert_eq!((f.status, f.message.as_str()), (500, "Internal server error."));
}

#[test]
fn login_failures_have_status_and_message() {
    let f = login_failure(&ApplicationError::App(AppError::WrongAuthCredentials));
    assert_eq!((f.status, f.message.as_str()), (401, "Invalid email or password."));
    let f = login_failure(&ApplicationError::Db(DbError::UserByEmailNotFound));
    assert_eq!((f.status, f.message.as_str()), (401, "User not found."));
    let f = login_failure(&ApplicationError::Db(DbError::UserByIdNotFound));
    assert_eq!((f.status, f.message.as_str()), (500, "Internal server error."));
}

#[test]
fn text_search() {
    assert!(text_contains("abcabd", "abd"));
    assert!(text_contains("abc", ""));
    assert!(!text_contains("ab", "abc"));
    assert!(!text_contains("aXbXc", "abc"));
}
