use parabellum_web::api::actions::{
    arrival_delay_secs, create_marketplace_offer, ensure_rally_point_slot, ensure_slot, founded_village_name,
    parse_catapult_targets, parse_resource_quantity, parse_troop_set, preview_found_village, preview_send_resources,
    preview_troops, send_troops, train_units, AttackType, CatapultTargetInput, CreateOfferRequest, MovementKind,
    PreviewDetectedKind, PreviewSendResourcesRequest, PreviewTroopsRequest, ResourceKind, ScoutingTarget,
    ScoutingTargetKind, SendTroopsRequest, TrainUnitsRequest, TroopCommand,
};
use parabellum_web::errors::ApiErrorKind;
use parabellum_web::model::{
    BuildingName, MapField, MapFieldTopology, OasisTopology, Position, UnitRole, UnitStats, ValleyTopology,
    VillageBuilding,
};

fn b(slot_id: u8, name: BuildingName, level: u8) -> VillageBuilding {
    VillageBuilding { slot_id, name, level }
}

fn stats(role: UnitRole, speed: u8) -> UnitStats {
    UnitStats { role, speed, attack: 10, defense_infantry: 10, defense_cavalry: 10, upkeep: 1 }
}

fn tribe_stats() -> Vec<UnitStats> {
    let mut v = vec![stats(UnitRole::Other, 6); 10];
    v[2] = stats(UnitRole::Scout, 16);
    v[7] = stats(UnitRole::Cata, 3);
    v[9] = stats(UnitRole::Settler, 5);
    v
}

fn village() -> Vec<VillageBuilding> {
    vec![b(39, BuildingName::RallyPoint, 1), b(25, BuildingName::Marketplace, 3), b(19, BuildingName::Barracks, 2)]
}

fn troops_request(movement: MovementKind, units: Vec<i32>) -> SendTroopsRequest {
    SendTroopsRequest {
        slot_id: 39,
        target_x: 1,
        target_y: 2,
        movement,
        units,
        hero_id: None,
        scouting_target: None,
        catapult_targets: None,
    }
}

#[test]
fn slot_ids_outside_range_are_refused() {
    assert!(ensure_slot(1).is_ok());
    assert!(ensure_slot(40).is_ok());
    let err = ensure_slot(0).unwrap_err();
    assert_eq!(err.kind, ApiErrorKind::BadRequest);
    assert_eq!(err.message, "Invalid building slot");
    assert!(ensure_slot(41).is_err());
}

#[test]
fn troops_leave_only_from_rally_point_slot() {
    assert!(ensure_rally_point_slot(39).is_ok());
    let err = ensure_rally_point_slot(20).unwrap_err();
    assert_eq!(err.kind, ApiErrorKind::Unprocessable);
    assert_eq!(err.message, "Troops can only be sent from the rally point slot");
}

#[test]
fn troop_set_pads_and_refuses_negatives() {
    assert_eq!(parse_troop_set(&[1, 2]).unwrap(), vec![1, 2, 0, 0, 0, 0, 0, 0, 0, 0]);
    assert_eq!(parse_troop_set(&[1; 12]).unwrap(), vec![1; 10]);
    let err = parse_troop_set(&[1, -1]).unwrap_err();
    assert_eq!(err.message, "Unit amounts cannot be negative");
}

#[test]
fn catapult_targets_default_and_random() {
    let t = parse_catapult_targets(None).unwrap();
    assert_eq!(t, [Some(BuildingName::MainBuilding), Some(BuildingName::Warehouse)]);
    let t = parse_catapult_targets(Some(vec![CatapultTargetInput::Text("  RANDOM ".to_string())])).unwrap();
    assert_eq!(t, [None, None]);
    let t = parse_catapult_targets(Some(vec![
        CatapultTargetInput::Building(BuildingName::Granary),
        CatapultTargetInput::Text("random".to_string()),
    ]))
    .unwrap();
    assert_eq!(t, [Some(BuildingName::Granary), None]);
    let err = parse_catapult_targets(Some(vec![CatapultTargetInput::Text("walls".to_string())])).unwrap_err();
    assert_eq!(err.message, "catapultTargets entries must be a building name or 'random'");
    let err = parse_catapult_targets(Some(vec![])).unwrap_err();
    assert_eq!(err.message, "catapultTargets must contain 1 or 2 entries");
}

#[test]
fn offers_need_exactly_one_resource() {
    let q = parse_resource_quantity(0, 30, 0, 0).unwrap();
    assert_eq!(q.resource, ResourceKind::Clay);
    assert_eq!(q.quantity, 30);
    assert!(parse_resource_quantity(0, 0, 0, 0).is_err());
    let err = parse_resource_quantity(1, 1, 0, 0).unwrap_err();
    assert_eq!(err.message, "Marketplace offers require exactly one non-zero resource type.");
}

#[test]
fn create_offer_checks_marketplace_then_amounts() {
    let req = CreateOfferRequest {
        slot_id: 25,
        offer_lumber: 100,
        offer_clay: 0,
        offer_iron: 0,
        offer_crop: 0,
        seek_lumber: 0,
        seek_clay: 0,
        seek_iron: 0,
        seek_crop: 50,
    };
    let (offer, seek) = create_marketplace_offer(&village(), &req).unwrap();
    assert_eq!(offer.resource, ResourceKind::Lumber);
    assert_eq!(seek.resource, ResourceKind::Crop);
    let wrong = CreateOfferRequest { slot_id: 39, ..req };
    let err = create_marketplace_offer(&village(), &wrong).unwrap_err();
    assert_eq!(err.message, "Selected building does not match slot");
    let empty = CreateOfferRequest { slot_id: 30, ..req };
    let err = create_marketplace_offer(&village(), &empty).unwrap_err();
    assert_eq!(err.message, "No building in the selected slot");
}

#[test]
fn preview_send_resources_needs_some_amount() {
    let req = PreviewSendResourcesRequest { slot_id: 25, target_x: 0, target_y: 0, lumber: 0, clay: 0, iron: 0, crop: 0 };
    let err = preview_send_resources(&village(), &req).unwrap_err();
    assert_eq!(err.message, "At least one resource amount must be greater than zero");
    let req = PreviewSendResourcesRequest { iron: 5, ..req };
    assert!(preview_send_resources(&village(), &req).is_ok());
}

#[test]
fn training_needs_positive_quantity_and_building() {
    let req = TrainUnitsRequest { slot_id: 19, unit_idx: 0, quantity: 5, building_name: BuildingName::Barracks };
    assert!(train_units(&village(), &req).is_ok());
    let zero = TrainUnitsRequest { quantity: 0, ..req };
    assert_eq!(train_units(&village(), &zero).unwrap_err().message, "Training quantity must be greater than zero");
    let stable = TrainUnitsRequest { building_name: BuildingName::Stable, ..req };
    assert_eq!(train_units(&village(), &stable).unwrap_err().message, "Selected building does not match slot");
}

#[test]
fn send_troops_attack_uses_default_catapults() {
    let order = send_troops(&village(), troops_request(MovementKind::Attack, vec![5])).unwrap();
    assert_eq!(order.units, vec![5, 0, 0, 0, 0, 0, 0, 0, 0, 0]);
    assert_eq!(
        order.command,
        TroopCommand::Attack {
            attack_type: AttackType::Normal,
            first_target: Some(BuildingName::MainBuilding),
            second_target: Some(BuildingName::Warehouse),
        }
    );
}

#[test]
fn send_troops_scouting_and_its_refusals() {
    let mut req = troops_request(MovementKind::Raid, vec![0, 0, 3]);
    req.scouting_target = Some(ScoutingTargetKind::Defenses);
    let order = send_troops(&village(), req).unwrap();
    assert_eq!(
        order.command,
        TroopCommand::Scout { attack_type: AttackType::Raid, target: ScoutingTarget::Defenses }
    );

    let mut req = troops_request(MovementKind::Reinforcement, vec![0, 0, 3]);
    req.scouting_target = Some(ScoutingTargetKind::Resources);
    let err = send_troops(&village(), req).unwrap_err();
    assert_eq!(err.kind, ApiErrorKind::BadRequest);
    assert_eq!(err.message, "Scouting is only available for attack or raid movements");

    let mut req = troops_request(MovementKind::Attack, vec![0, 0, 3]);
    req.scouting_target = Some(ScoutingTargetKind::Resources);
    req.hero_id = Some(7);
    let err = send_troops(&village(), req).unwrap_err();
    assert_eq!(err.message, "Heroes cannot be sent with scout-only movements");
}

#[test]
fn send_troops_needs_units_or_hero() {
    let err = send_troops(&village(), troops_request(MovementKind::Attack, vec![])).unwrap_err();
    assert_eq!(err.message, "At least one unit is required");
    let mut req = troops_request(MovementKind::Reinforcement, vec![]);
    req.hero_id = Some(9);
    let order = send_troops(&village(), req).unwrap();
    assert_eq!(order.command, TroopCommand::Reinforce);
    assert_eq!(order.hero_id, Some(9));
    let mut wrong_slot = troops_request(MovementKind::Attack, vec![1]);
    wrong_slot.slot_id = 25;
    assert_eq!(
        send_troops(&village(), wrong_slot).unwrap_err().message,
        "Selected building does not match slot"
    );
}

#[test]
fn preview_takes_slowest_unit_and_detects_scouts() {
    let req = PreviewTroopsRequest { target_x: 0, target_y: 0, movement: MovementKind::Attack, units: vec![1, 0, 0, 0, 0, 0, 0, 2], hero_id: None };
    let p = preview_troops(&req, &tribe_stats(), None).unwrap();
    assert_eq!(p.min_speed, 3);
    assert!(p.has_catapult_units);
    assert_eq!(p.detected_kind, PreviewDetectedKind::AttackOrRaid);

    let scouts = PreviewTroopsRequest { units: vec![0, 0, 4], ..req };
    let p = preview_troops(&scouts, &tribe_stats(), None).unwrap();
    assert_eq!(p.detected_kind, PreviewDetectedKind::ScoutOnly);
    assert!(p.supports_scouting_target_choice);
    assert_eq!(p.min_speed, 16);
}

#[test]
fn preview_with_hero_checks_the_hero() {
    let req = PreviewTroopsRequest { target_x: 0, target_y: 0, movement: MovementKind::Reinforcement, units: vec![], hero_id: Some(5) };
    let p = preview_troops(&req, &tribe_stats(), Some((5, 7))).unwrap();
    assert_eq!(p.min_speed, 7);
    assert_eq!(p.detected_kind, PreviewDetectedKind::Reinforcement);
    let err = preview_troops(&req, &tribe_stats(), Some((6, 7))).unwrap_err();
    assert_eq!(err.kind, ApiErrorKind::NotFound);
    assert_eq!(err.message, "Hero not found");
    assert!(preview_troops(&req, &tribe_stats(), None).is_err());
}

#[test]
fn found_village_preview_needs_empty_valley() {
    let valley = MapField {
        id: 1,
        position: Position { x: 1, y: 1 },
        village_id: None,
        player_id: None,
        topology: MapFieldTopology::Valley(ValleyTopology { lumber: 4, clay: 4, iron: 4, crop: 6 }),
    };
    let p = preview_found_village(&valley, &tribe_stats()).unwrap();
    assert_eq!(p.min_speed, 5);
    assert_eq!(p.detected_kind, PreviewDetectedKind::FoundVillage);
    let oasis = MapField { topology: MapFieldTopology::Oasis(OasisTopology::Crop), ..valley };
    assert_eq!(preview_found_village(&oasis, &tribe_stats()).unwrap_err().message, "Target field is not available");
    let owned = MapField { player_id: Some(3), ..valley };
    assert!(preview_found_village(&owned, &tribe_stats()).is_err());
    assert_eq!(preview_found_village(&valley, &vec![]).unwrap().min_speed, 1);
}

#[test]
fn founded_village_is_named_after_player() {
    assert_eq!(founded_village_name("Ada"), "Ada's Village");
}

#[test]
fn arrival_is_at_least_one_second_away() {
    assert_eq!(arrival_delay_secs(0), 1);
    assert_eq!(arrival_delay_secs(90), 90);
}
