use parabellum_web::api::actions::{AttackType, ScoutingTarget};
use parabellum_web::handlers::forms::{
    form_entry, form_key_name, movement_of, parse_confirm_send_troops_form, parse_found_village_confirm_form,
    parse_found_village_execute_form, parse_send_troops_form, BuildAction, BuildActionForm, FormEntry, FormError,
    FormKey, HasCsrfToken, SendMovementKind, TrainUnitsForm,
};
use parabellum_web::handlers::session::{parse_i32, parse_u32, parse_u8, pick_active_village, select_current_village, validate_csrf, village_from_cookie};
use parabellum_web::handlers::troops::{
    check_build_form, check_found_village, check_send_troops_form, check_train_units_form, confirm_send_troops,
    confirmation_type, found_village_units, founding_settlers, movement_value, parse_troop_set,
    parse_troop_set_lenient, refusal_key, send_troops_direct, BuildCommand, BuildRefusal, ConfirmationType,
    ConfirmedCommand, FormRefusal, FoundingRefusal,
};
use parabellum_web::model::{
    BuildingName, MapField, MapFieldTopology, OasisTopology, Position, ProductionRates, ResourceGroup, Tribe,
    UnitRole, UnitStats, ValleyTopology, Village, VillageBuilding,
};

fn send_entries() -> Vec<FormEntry> {
    vec![
        FormEntry::SlotId(Some(39)),
        FormEntry::TargetX(Some(4)),
        FormEntry::Unit(Some(5)),
        FormEntry::TargetY(Some(-2)),
        FormEntry::Movement(Some(SendMovementKind::Raid)),
        FormEntry::Unit(Some(0)),
        FormEntry::Unit(Some(7)),
        FormEntry::CsrfToken(Some("tok".to_string())),
    ]
}

fn rally_village() -> Vec<VillageBuilding> {
    vec![VillageBuilding { slot_id: 39, name: BuildingName::RallyPoint, level: 1 }]
}

fn stats(role: UnitRole) -> UnitStats {
    UnitStats { role, speed: 5, attack: 1, defense_infantry: 1, defense_cavalry: 1, upkeep: 1 }
}

fn village(id: u32, player_id: u128, is_capital: bool) -> Village {
    Village {
        id,
        player_id,
        name: format!("V{id}"),
        position: Position { x: 0, y: 0 },
        is_capital,
        parent_village_id: None,
        tribe: Tribe::Roman,
        buildings: vec![],
        population: 1,
        loyalty: 100,
        warehouse_capacity: 800,
        granary_capacity: 800,
        stocks: ResourceGroup { lumber: 0, clay: 0, iron: 0, crop: 0 },
        production: ProductionRates { lumber: 0, clay: 0, iron: 0, crop: 0 },
    }
}

#[test]
fn send_form_collects_units_in_order() {
    let form = parse_send_troops_form(send_entries()).unwrap();
    assert_eq!(form.slot_id, 39);
    assert_eq!((form.target_x, form.target_y), (4, -2));
    assert_eq!(form.movement, SendMovementKind::Raid);
    assert_eq!(form.units, vec![5, 0, 7]);
    assert_eq!(form.csrf_token(), "tok");
}

#[test]
fn send_form_refusals() {
    let mut twice = send_entries();
    twice.push(FormEntry::SlotId(Some(1)));
    assert_eq!(parse_send_troops_form(twice).unwrap_err(), FormError::Duplicate(FormKey::SlotId));
    let mut missing = send_entries();
    missing.remove(0);
    assert_eq!(parse_send_troops_form(missing).unwrap_err(), FormError::Missing(FormKey::SlotId));
    let mut foreign = send_entries();
    foreign.insert(1, FormEntry::VillageId(Some(3)));
    assert_eq!(parse_send_troops_form(foreign).unwrap_err(), FormError::Unknown(FormKey::VillageId));
    let mut bad = send_entries();
    bad.insert(2, FormEntry::Unit(None));
    assert_eq!(parse_send_troops_form(bad).unwrap_err(), FormError::InvalidValue(FormKey::Units));
    assert_eq!(form_key_name(FormKey::Units), "units[]");
}

#[test]
fn confirm_form_keeps_last_targets() {
    let entries = vec![
        FormEntry::VillageId(Some(10)),
        FormEntry::SlotId(Some(39)),
        FormEntry::TargetX(Some(1)),
        FormEntry::TargetY(Some(2)),
        FormEntry::Movement(Some(SendMovementKind::Attack)),
        FormEntry::CatapultTarget1(Some("Granary".to_string())),
        FormEntry::CatapultTarget1(Some("Smithy".to_string())),
        FormEntry::CatapultTarget2(Some("Nothing".to_string())),
        FormEntry::Unit(Some(2)),
        FormEntry::CsrfToken(Some("t".to_string())),
    ];
    let form = parse_confirm_send_troops_form(entries).unwrap();
    assert_eq!(form.catapult_target_1.as_deref(), Some("Smithy"));
    assert_eq!(form.scouting_target, None);
    let (units, command) = confirm_send_troops(&form, true).unwrap();
    assert_eq!(units, vec![2, 0, 0, 0, 0, 0, 0, 0, 0, 0]);
    assert_eq!(
        command,
        ConfirmedCommand::Attack {
            attack_type: AttackType::Normal,
            first_target: BuildingName::Smithy,
            second_target: BuildingName::Warehouse,
        }
    );
    assert_eq!(confirm_send_troops(&form, false).unwrap_err(), FormRefusal::ArmyMissing);
}

#[test]
fn confirm_scouting_and_reinforcement() {
    let entries = |movement: SendMovementKind, scouting: &str| {
        vec![
            FormEntry::VillageId(Some(10)),
            FormEntry::SlotId(Some(39)),
            FormEntry::TargetX(Some(1)),
            FormEntry::TargetY(Some(2)),
            FormEntry::Movement(Some(movement)),
            FormEntry::ScoutingTarget(Some(scouting.to_string())),
            FormEntry::CsrfToken(Some("t".to_string())),
        ]
    };
    let form = parse_confirm_send_troops_form(entries(SendMovementKind::Raid, "defenses")).unwrap();
    assert_eq!(
        confirm_send_troops(&form, true).unwrap().1,
        ConfirmedCommand::Scout { attack_type: AttackType::Raid, target: ScoutingTarget::Defenses }
    );
    let form = parse_confirm_send_troops_form(entries(SendMovementKind::Attack, "walls")).unwrap();
    assert_eq!(
        confirm_send_troops(&form, true).unwrap().1,
        ConfirmedCommand::Scout { attack_type: AttackType::Normal, target: ScoutingTarget::Resources }
    );
    let form = parse_confirm_send_troops_form(entries(SendMovementKind::Reinforcement, "walls")).unwrap();
    assert_eq!(confirm_send_troops(&form, true).unwrap_err(), FormRefusal::ScoutRequiresAttack);
    let form = parse_confirm_send_troops_form(entries(SendMovementKind::Reinforcement, "")).unwrap();
    assert_eq!(confirm_send_troops(&form, true).unwrap().1, ConfirmedCommand::Reinforce);
    assert_eq!(refusal_key(FormRefusal::ScoutRequiresAttack), "game.rally_point.scout_requires_attack");
}

#[test]
fn found_village_forms() {
    let confirm = parse_found_village_confirm_form(vec![
        FormEntry::FieldId(Some(7)),
        FormEntry::TargetX(Some(1)),
        FormEntry::TargetY(Some(2)),
        FormEntry::CsrfToken(Some("c".to_string())),
    ])
    .unwrap();
    assert_eq!(confirm.field_id, 7);
    let execute = parse_found_village_execute_form(vec![
        FormEntry::VillageId(Some(1)),
        FormEntry::TargetFieldId(Some(7)),
        FormEntry::TargetX(Some(1)),
        FormEntry::TargetY(Some(2)),
        FormEntry::Unit(Some(-4)),
        FormEntry::Unit(Some(3)),
        FormEntry::CsrfToken(Some("c".to_string())),
    ])
    .unwrap();
    assert_eq!(found_village_units(&execute.units, true).unwrap(), vec![0, 3, 0, 0, 0, 0, 0, 0, 0, 0]);
    assert_eq!(found_village_units(&execute.units, false).unwrap_err(), FoundingRefusal::NoArmy);
    assert_eq!(
        parse_found_village_execute_form(vec![FormEntry::VillageId(Some(1))]).unwrap_err(),
        FormError::Missing(FormKey::TargetFieldId)
    );
}

#[test]
fn send_form_checks() {
    let form = parse_send_troops_form(send_entries()).unwrap();
    assert_eq!(check_send_troops_form(&rally_village(), &form).unwrap(), vec![5, 0, 7, 0, 0, 0, 0, 0, 0, 0]);
    assert_eq!(check_send_troops_form(&vec![], &form).unwrap_err(), FormRefusal::InvalidBuilding);
    let mut zero = form.clone();
    zero.units = vec![0, 0];
    assert_eq!(check_send_troops_form(&rally_village(), &zero).unwrap_err(), FormRefusal::InvalidUnits);
    let (_, command) = send_troops_direct(&rally_village(), &form, true).unwrap();
    assert_eq!(
        command,
        ConfirmedCommand::Attack {
            attack_type: AttackType::Raid,
            first_target: BuildingName::MainBuilding,
            second_target: BuildingName::Warehouse,
        }
    );
    assert_eq!(send_troops_direct(&rally_village(), &form, false).unwrap_err(), FormRefusal::ArmyMissing);
    assert_eq!(movement_value(SendMovementKind::Reinforcement), "reinforcement");
}

#[test]
fn troop_sets_strict_and_lenient() {
    assert_eq!(parse_troop_set(&[1, -1]), None);
    assert_eq!(parse_troop_set(&[1]).unwrap()[0], 1);
    assert_eq!(parse_troop_set_lenient(&[-1, 2]), vec![0, 2, 0, 0, 0, 0, 0, 0, 0, 0]);
}

#[test]
fn confirmation_type_by_army() {
    let tribe = vec![stats(UnitRole::Other), stats(UnitRole::Scout), stats(UnitRole::Cata)];
    assert!(matches!(confirmation_type(SendMovementKind::Raid, &vec![0, 4, 0], &tribe), ConfirmationType::ScoutingChoice));
    assert!(matches!(confirmation_type(SendMovementKind::Reinforcement, &vec![0, 4, 0], &tribe), ConfirmationType::Simple));
    match confirmation_type(SendMovementKind::Attack, &vec![1, 0, 2], &tribe) {
        ConfirmationType::CatapultTargets { available_buildings } => {
            assert_eq!(available_buildings.len(), 10);
            assert_eq!(available_buildings[0], BuildingName::MainBuilding);
        }
        other => panic!("unexpected {other:?}"),
    }
    assert!(matches!(confirmation_type(SendMovementKind::Raid, &vec![1, 0, 2], &tribe), ConfirmationType::Simple));
}

#[test]
fn training_and_build_form_checks() {
    let buildings = vec![VillageBuilding { slot_id: 19, name: BuildingName::Barracks, level: 1 }];
    let form = TrainUnitsForm { slot_id: 19, unit_idx: 0, quantity: 3, building_name: BuildingName::Barracks, csrf_token: "x".to_string() };
    assert!(check_train_units_form(&buildings, &form).is_ok());
    let zero = TrainUnitsForm { quantity: 0, ..form.clone() };
    assert_eq!(check_train_units_form(&buildings, &zero).unwrap_err(), FormRefusal::InvalidTrainingQuantity);
    let wrong = TrainUnitsForm { building_name: BuildingName::Stable, ..form };
    assert_eq!(check_train_units_form(&buildings, &wrong).unwrap_err(), FormRefusal::InvalidTrainingBuilding);

    let build = BuildActionForm { slot_id: 21, action: BuildAction::Build, building_name: Some(BuildingName::Granary), csrf_token: "x".to_string() };
    assert_eq!(check_build_form(21, &build).unwrap(), BuildCommand::Add(BuildingName::Granary));
    assert_eq!(check_build_form(22, &build).unwrap_err(), BuildRefusal::SlotMismatch);
    assert_eq!(check_build_form(41, &build).unwrap_err(), BuildRefusal::BackToVillage);
    let nameless = BuildActionForm { building_name: None, ..build.clone() };
    assert_eq!(check_build_form(21, &nameless).unwrap_err(), BuildRefusal::MissingBuildingName);
    let upgrade = BuildActionForm { action: BuildAction::Upgrade, ..nameless };
    assert_eq!(check_build_form(21, &upgrade).unwrap(), BuildCommand::Upgrade);
}

#[test]
fn founding_checks() {
    let valley = MapField {
        id: 1,
        position: Position { x: 0, y: 0 },
        village_id: None,
        player_id: None,
        topology: MapFieldTopology::Valley(ValleyTopology { lumber: 4, clay: 4, iron: 4, crop: 6 }),
    };
    assert!(check_found_village(&valley, 100, 50, Some(3)).is_ok());
    assert_eq!(check_found_village(&valley, 10, 50, Some(3)).unwrap_err(), FoundingRefusal::NotReady);
    assert_eq!(check_found_village(&valley, 100, 50, None).unwrap_err(), FoundingRefusal::NotReady);
    let oasis = MapField { topology: MapFieldTopology::Oasis(OasisTopology::Clay), ..valley };
    assert_eq!(check_found_village(&oasis, 100, 50, Some(3)).unwrap_err(), FoundingRefusal::Oasis);
    let taken = MapField { village_id: Some(5), ..valley };
    assert_eq!(check_found_village(&taken, 100, 50, Some(3)).unwrap_err(), FoundingRefusal::Occupied);
    assert_eq!(founding_settlers(9), vec![0, 0, 0, 0, 0, 0, 0, 0, 0, 3]);
}

#[test]
fn session_helpers() {
    assert!(validate_csrf(Some("abc"), "abc"));
    assert!(!validate_csrf(Some("abc"), "abd"));
    assert!(!validate_csrf(None, "abc"));
    assert_eq!(parse_u32("+42"), Some(42));
    assert_eq!(parse_u32("4294967295"), Some(u32::MAX));
    assert_eq!(parse_u32("4294967296"), None);
    assert_eq!(parse_u32(""), None);
    assert_eq!(parse_u32("+"), None);
    assert_eq!(parse_u32("-1"), None);
    assert_eq!(parse_u32("1 "), None);
    let villages = vec![village(1, 9, false), village(2, 9, true), village(3, 8, false)];
    assert_eq!(pick_active_village(&villages), Some(1));
    assert_eq!(pick_active_village(&vec![village(5, 9, false)]), Some(0));
    assert_eq!(pick_active_village(&vec![]), None);
    assert_eq!(village_from_cookie(Some("1"), &villages, 9), Some(0));
    assert_eq!(village_from_cookie(Some("3"), &villages, 9), None);
    assert_eq!(select_current_village(Some("3"), &villages, 9), Some(1));
    assert_eq!(select_current_village(Some("x"), &villages, 9), Some(1));
}

#[test]
fn village_cookie_reads_back() {
    for id in [0u32, 7, 10, 4_200, u32::MAX] {
        let written = parabellum_web::text::decimal_string(id as u64);
        assert_eq!(parse_u32(&written), Some(id));
    }
}

#[test]
fn csrf_tokens_are_fresh_uuids() {
    let a = parabellum_web::handlers::session::new_csrf_token();
    let b = parabellum_web::handlers::session::new_csrf_token();
    assert_eq!(a.len(), 36);
    assert!(uuid::Uuid::parse_str(&a).is_ok());
    assert_eq!(uuid::Uuid::parse_str(&a).unwrap().to_string(), a);
    assert_ne!(a, b);
}

#[test]
fn numbers_read_like_the_standard_parsers() {
    for text in ["0", "+7", "-0", "-2147483648", "2147483647", "2147483648", "-2147483649", "-", "+", "", "-+3", "+-3", "12a", " 1", "007"] {
        assert_eq!(parse_i32(text), text.parse::<i32>().ok(), "i32 {text:?}");
    }
    for text in ["0", "255", "256", "+9", "-1", "", "4294967296"] {
        assert_eq!(parse_u8(text), text.parse::<u8>().ok(), "u8 {text:?}");
    }
    for text in ["4294967295", "4294967296", "+1", "-1", "x"] {
        assert_eq!(parse_u32(text), text.parse::<u32>().ok(), "u32 {text:?}");
    }
}

#[test]
fn submitted_fields_are_read_by_name() {
    assert!(matches!(form_entry("slot_id", "39".to_string()), Some(FormEntry::SlotId(Some(39)))));
    assert!(matches!(form_entry("slot_id", "300".to_string()), Some(FormEntry::SlotId(None))));
    assert!(matches!(form_entry("target_x", "-12".to_string()), Some(FormEntry::TargetX(Some(-12)))));
    assert!(matches!(form_entry("units[]", "5".to_string()), Some(FormEntry::Unit(Some(5)))));
    assert!(matches!(
        form_entry("movement", "raid".to_string()),
        Some(FormEntry::Movement(Some(SendMovementKind::Raid)))
    ));
    assert!(matches!(form_entry("movement", "siege".to_string()), Some(FormEntry::Movement(None))));
    match form_entry("csrf_token", "tok".to_string()) {
        Some(FormEntry::CsrfToken(Some(t))) => assert_eq!(t, "tok"),
        other => panic!("unexpected {other:?}"),
    }
    assert!(form_entry("colour", "red".to_string()).is_none());
    assert_eq!(movement_of("reinforcement"), Some(SendMovementKind::Reinforcement));
}
