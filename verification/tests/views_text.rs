use parabellum_web::api::auth::{
    map_register_error, parse_quadrant, parse_tribe, validate_login_request, validate_refresh_token_field,
    TokenLoginRequest,
};
use parabellum_web::api::helpers::{bearer_token, forwarded_client, require_bearer_token};
use parabellum_web::errors::{internal_error, map_application_error, ApiErrorKind, ApplicationError, DbError};
use parabellum_web::model::{building_key, parse_building_name, tribe_key, BuildingName, MapQuadrant, Tribe};
use parabellum_web::text::{decimal_string, is_blank};
use parabellum_web::text_order::{compare_texts, TextOrder};
use parabellum_web::views::{format_duration, format_server_time, hex_color, ArmyCategory, BuildingSlot};

#[test]
fn durations_are_padded() {
    assert_eq!(format_duration(0), "00:00");
    assert_eq!(format_duration(65), "01:05");
    assert_eq!(format_duration(3_661), "01:01:01");
    assert_eq!(format_duration(360_000), "100:00:00");
}

#[test]
fn slot_classes_and_titles() {
    let slot = BuildingSlot { slot_id: 20, building_name: Some(BuildingName::Warehouse), level: 3, in_queue: Some(false) };
    assert_eq!(slot.render_classes("slot", true), "slot occupied construction-pending");
    assert_eq!(slot.render_classes("slot", false), "slot construction-pending");
    assert_eq!(slot.title(), "Warehouse (Level 3)");
    let empty = BuildingSlot { slot_id: 21, building_name: None, level: 0, in_queue: Some(true) };
    assert_eq!(empty.render_classes("slot", true), "slot construction-active");
    assert_eq!(empty.title(), "Empty slot");
    let unbuilt = BuildingSlot { building_name: Some(BuildingName::Granary), ..empty };
    assert_eq!(unbuilt.title(), "Empty slot");
}

#[test]
fn colours() {
    assert_eq!(hex_color(BuildingName::ClayPit), "#d98536");
    assert_eq!(hex_color(BuildingName::Warehouse), "#6c9a35");
    assert_eq!(ArmyCategory::Incoming.badge_color(), "bg-red-100 text-red-800");
}

#[test]
fn building_names_read_back() {
    assert_eq!(building_key(BuildingName::TournamentSquare), "TournamentSquare");
    assert_eq!(parse_building_name("GreatStable"), Some(BuildingName::GreatStable));
    assert_eq!(parse_building_name(&building_key(BuildingName::Cranny)), Some(BuildingName::Cranny));
    assert_eq!(parse_building_name("greatstable"), None);
    assert_eq!(tribe_key(Tribe::Gaul), "Gaul");
}

#[test]
fn text_helpers() {
    assert_eq!(decimal_string(0), "0");
    assert_eq!(decimal_string(1_234_567), "1234567");
    assert!(is_blank("  \t "));
    assert!(!is_blank(" a "));
    let a: Vec<char> = "Apple".chars().collect();
    let b: Vec<char> = "Apples".chars().collect();
    let c: Vec<char> = "Banana".chars().collect();
    assert_eq!(compare_texts(&a, &b), TextOrder::Before);
    assert_eq!(compare_texts(&c, &a), TextOrder::After);
    assert_eq!(compare_texts(&a, &a), TextOrder::Same);
}

#[test]
fn bearer_tokens_are_read_from_the_header() {
    assert_eq!(bearer_token(Some("Bearer abc")).as_deref(), Some("abc"));
    assert_eq!(bearer_token(Some("Basic abc")), None);
    assert_eq!(bearer_token(None), None);
}

#[test]
fn auth_requests_are_validated() {
    let ok = TokenLoginRequest { email: "a@b.c".to_string(), password: "pw".to_string() };
    assert!(validate_login_request(&ok).is_ok());
    let blank = TokenLoginRequest { email: "  ".to_string(), password: "pw".to_string() };
    let err = validate_login_request(&blank).unwrap_err();
    assert_eq!(err.kind, ApiErrorKind::Unprocessable);
    assert_eq!(err.message, "Missing required login fields.");
    assert_eq!(err.field_errors[0].field, "email");
    assert_eq!(err.field_errors[0].message, "Email is required");
    assert!(validate_refresh_token_field(" ").is_err());
    assert_eq!(parse_tribe("Roman").unwrap(), Tribe::Roman);
    assert!(parse_tribe("Egyptian").is_err());
    assert_eq!(parse_quadrant("NorthEast").unwrap(), MapQuadrant::NorthEast);
}

#[test]
fn application_errors_become_api_errors() {
    let e = internal_error("unable_to_load");
    assert_eq!(e.kind, ApiErrorKind::Internal);
    assert_eq!(e.message, "Internal server error");
    let e = map_application_error("ctx", ApplicationError::Db(DbError::VillageNotFound));
    assert_eq!(e.kind, ApiErrorKind::NotFound);
    let e = map_register_error(ApplicationError::Db(DbError::Database { code: Some("23505".to_string()) }));
    assert_eq!(e.kind, ApiErrorKind::Conflict);
}

#[test]
fn forwarded_client_is_the_first_entry() {
    assert_eq!(forwarded_client(Some(" 203.0.113.7 , 10.0.0.1")), Some("203.0.113.7".to_string()));
    assert_eq!(forwarded_client(Some("198.51.100.2")), Some("198.51.100.2".to_string()));
    assert_eq!(forwarded_client(Some(",10.0.0.1")), Some(String::new()));
    assert_eq!(forwarded_client(None), None);
}

#[test]
fn requests_without_a_bearer_token_are_refused() {
    assert_eq!(require_bearer_token(Some("Bearer tok")).unwrap(), "tok");
    let err = require_bearer_token(Some("Basic abc")).unwrap_err();
    assert_eq!(err.kind, ApiErrorKind::Unauthorized);
    assert_eq!(err.message, "Authentication required");
    assert!(require_bearer_token(None).is_err());
}

#[test]
fn server_clock_is_utc_time_of_day() {
    assert_eq!(format_server_time(0), "00:00:00");
    assert_eq!(format_server_time(3_661), "01:01:01");
    assert_eq!(format_server_time(86_399), "23:59:59");
    assert_eq!(format_server_time(-1), "23:59:59");
    assert_eq!(format_server_time(1_700_000_000), "22:13:20");
    assert_eq!(format_server_time(i64::MAX), "00:00:00");
    assert_eq!(format_server_time(8_210_266_876_799), "23:59:59");
    assert_eq!(format_server_time(8_210_266_876_800 + 3_661), "00:00:00");
    assert_eq!(format_server_time(-8_334_601_228_800 + 3_661), "01:01:01");
    assert_eq!(format_server_time(-8_334_601_228_801), "00:00:00");
}

#[test]
fn tribe_names_read_back() {
    for t in [Tribe::Roman, Tribe::Gaul, Tribe::Teuton] {
        assert_eq!(parse_tribe(&tribe_key(t)).unwrap(), t);
    }
}

#[test]
fn stable_order_sorts_by_key_keeping_ties() {
    assert_eq!(parabellum_web::order::stable_order(&vec![5, 1, 5, 0, 1]), vec![3, 1, 4, 0, 2]);
    assert!(parabellum_web::order::stable_order(&vec![]).is_empty());
}
