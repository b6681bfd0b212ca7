//! API error values and the mapping of application failures onto them.

use vstd::prelude::*;

verus! {

/// Category of an API error; each one stands for one HTTP status and error code.
#[derive(Debug, Clone, Copy, PartialEq, Eq, Structural)]
pub enum ApiErrorKind {
    BadRequest,
    Unauthorized,
    TokenExpired,
    RefreshExpired,
    SessionRevoked,
    NotFound,
    Conflict,
    Unprocessable,
    Internal,
}

/// A message attached to one request field.
#[derive(Debug, Clone)]
pub struct FieldError {
    pub field: String,
    pub message: String,
}

/// Error returned by an API endpoint.
#[derive(Debug, Clone)]
pub struct ApiError {
    pub kind: ApiErrorKind,
    pub message: String,
    pub field_errors: Vec<FieldError>,
}

/// `e` is an error of kind `kind` with message `message` and no field errors.
pub open spec fn is_api_error(e: ApiError, kind: ApiErrorKind, message: Seq<char>) -> bool {
    &&& e.kind == kind
    &&& e.message@ == message
    &&& e.field_errors@.len() == 0
}

/// `e` is an error of kind `kind` with message `message` and exactly one field
/// error, on `field` with `field_message`.
pub open spec fn is_api_field_error(
    e: ApiError,
    kind: ApiErrorKind,
    message: Seq<char>,
    field: Seq<char>,
    field_message: Seq<char>,
) -> bool {
    &&& e.kind == kind
    &&& e.message@ == message
    &&& e.field_errors@.len() == 1
    &&& e.field_errors@[0].field@ == field
    &&& e.field_errors@[0].message@ == field_message
}

impl ApiError {
    /// An error of the given kind and message, without field errors.
    pub fn new(kind: ApiErrorKind, message: &str) -> (e: Self)
        ensures
            is_api_error(e, kind, message@),
    {
        ApiError { kind, message: String::from_str(message), field_errors: Vec::new() }
    }

    /// An error of the given kind whose message is an owned string.
    pub fn with_message(kind: ApiErrorKind, message: String) -> (e: Self)
        ensures
            is_api_error(e, kind, message@),
    {
        ApiError { kind, message, field_errors: Vec::new() }
    }

    /// Adds a message for one request field.
    pub fn with_field_error(self, field: &str, message: &str) -> (e: Self)
        ensures
            e.kind == self.kind,
            e.message@ == self.message@,
            e.field_errors@.len() == self.field_errors@.len() + 1,
            forall|i: int| 0 <= i < self.field_errors@.len() ==> e.field_errors@[i] == self.field_errors@[i],
            e.field_errors@.last().field@ == field@,
            e.field_errors@.last().message@ == message@,
    {
        let mut e = self;
        e.field_errors.push(FieldError { field: String::from_str(field), message: String::from_str(message) });
        e
    }
}

/// Database failures that the API tells apart.
#[derive(Debug, Clone)]
pub enum DbError {
    VillageNotFound,
    PlayerNotFound,
    ArmyNotFound,
    HeroNotFound,
    MarketplaceOfferNotFound,
    MapFieldNotFound,
    UserByIdNotFound,
    UserByEmailNotFound,
    UserPlayerNotFound,
    PlayerDoesNotOwnVillage,
    /// A failure reported by the database server, with its SQLSTATE code when it has one.
    Database { code: Option<String> },
    Other,
}

/// Game-rule failures that the API tells apart; `message` is the failure's text.
#[derive(Debug, Clone)]
pub enum GameError {
    VillageNotOwned,
    InvalidValley,
    TargetOccupied,
    Other { message: String },
}

/// Application failures that the API tells apart; `message` is the failure's text.
#[derive(Debug, Clone)]
pub enum AppError {
    WrongAuthCredentials,
    PasswordError,
    QueueLimitReached { message: String },
    QueueItemAlreadyQueued { message: String },
    InvalidAggregateTarget { message: String },
    Other,
}

/// A failure of the game application.
#[derive(Debug, Clone)]
pub enum ApplicationError {
    Db(DbError),
    Game(GameError),
    App(AppError),
    Other,
}

/// The response for an unexpected failure: its details stay on the server.
pub fn internal_error(context: &str) -> (e: ApiError)
    ensures
        is_api_error(e, ApiErrorKind::Internal, "Internal server error"@),
{
    ApiError::new(ApiErrorKind::Internal, "Internal server error")
}

/// The API error for a failure of the game application.
pub open spec fn spec_application_error_kind(err: ApplicationError) -> (ApiErrorKind, Option<Seq<char>>) {
    match err {
        ApplicationError::Db(db) => match db {
            DbError::VillageNotFound => (ApiErrorKind::NotFound, Some("Village not found"@)),
            DbError::PlayerNotFound => (ApiErrorKind::NotFound, Some("Player not found"@)),
            DbError::ArmyNotFound => (ApiErrorKind::NotFound, Some("Army not found"@)),
            DbError::HeroNotFound => (ApiErrorKind::NotFound, Some("Hero not found"@)),
            DbError::MarketplaceOfferNotFound => (ApiErrorKind::NotFound, Some("Marketplace offer not found"@)),
            DbError::MapFieldNotFound => (ApiErrorKind::NotFound, Some("Map field not found"@)),
            DbError::UserByIdNotFound | DbError::UserByEmailNotFound => (ApiErrorKind::NotFound, Some("User not found"@)),
            DbError::UserPlayerNotFound => (ApiErrorKind::NotFound, Some("Player not found"@)),
            DbError::PlayerDoesNotOwnVillage => (ApiErrorKind::NotFound, Some("Village not available for the current player"@)),
            _ => (ApiErrorKind::Internal, Some("Internal server error"@)),
        },
        ApplicationError::Game(game) => match game {
            GameError::VillageNotOwned => (ApiErrorKind::NotFound, Some("Village not available for the current player"@)),
            GameError::InvalidValley | GameError::TargetOccupied => (ApiErrorKind::Unprocessable, Some("Target field is not available"@)),
            GameError::Other { message } => (ApiErrorKind::Unprocessable, Some(message@)),
        },
        ApplicationError::App(app) => match app {
            AppError::WrongAuthCredentials | AppError::PasswordError => (ApiErrorKind::Unauthorized, Some("Invalid credentials"@)),
            AppError::QueueLimitReached { message } | AppError::QueueItemAlreadyQueued { message } => (ApiErrorKind::Conflict, Some(message@)),
            AppError::InvalidAggregateTarget { message } => (ApiErrorKind::BadRequest, Some(message@)),
            AppError::Other => (ApiErrorKind::Internal, Some("Internal server error"@)),
        },
        ApplicationError::Other => (ApiErrorKind::Internal, Some("Internal server error"@)),
    }
}

/// Maps a failure of the game application onto the API error returned to the client.
pub fn map_application_error(context: &str, err: ApplicationError) -> (e: ApiError)
    ensures
        ({
            let (kind, message) = spec_application_error_kind(err);
            is_api_error(e, kind, message.unwrap())
        }),
{
    match err {
        ApplicationError::Db(db) => match db {
            DbError::VillageNotFound => ApiError::new(ApiErrorKind::NotFound, "Village not found"),
            DbError::PlayerNotFound => ApiError::new(ApiErrorKind::NotFound, "Player not found"),
            DbError::ArmyNotFound => ApiError::new(ApiErrorKind::NotFound, "Army not found"),
            DbError::HeroNotFound => ApiError::new(ApiErrorKind::NotFound, "Hero not found"),
            DbError::MarketplaceOfferNotFound => ApiError::new(ApiErrorKind::NotFound, "Marketplace offer not found"),
            DbError::MapFieldNotFound => ApiError::new(ApiErrorKind::NotFound, "Map field not found"),
            DbError::UserByIdNotFound | DbError::UserByEmailNotFound => ApiError::new(ApiErrorKind::NotFound, "User not found"),
            DbError::UserPlayerNotFound => ApiError::new(ApiErrorKind::NotFound, "Player not found"),
            DbError::PlayerDoesNotOwnVillage => ApiError::new(ApiErrorKind::NotFound, "Village not available for the current player"),
            _ => internal_error(context),
        },
        ApplicationError::Game(game) => match game {
            GameError::VillageNotOwned => ApiError::new(ApiErrorKind::NotFound, "Village not available for the current player"),
            GameError::InvalidValley | GameError::TargetOccupied => ApiError::new(ApiErrorKind::Unprocessable, "Target field is not available"),
            GameError::Other { message } => ApiError::with_message(ApiErrorKind::Unprocessable, message),
        },
        ApplicationError::App(app) => match app {
            AppError::WrongAuthCredentials | AppError::PasswordError => ApiError::new(ApiErrorKind::Unauthorized, "Invalid credentials"),
            AppError::QueueLimitReached { message } | AppError::QueueItemAlreadyQueued { message } => ApiError::with_message(ApiErrorKind::Conflict, message),
            AppError::InvalidAggregateTarget { message } => ApiError::with_message(ApiErrorKind::BadRequest, message),
            AppError::Other => internal_error(context),
        },
        ApplicationError::Other => internal_error(context),
    }
}

} // verus!
