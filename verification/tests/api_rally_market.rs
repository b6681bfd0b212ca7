use std::collections::{HashMap, HashSet};

use parabellum_web::api::buildings::{MerchantMovementDirectionDto, RallyActionDto, RallyCardCategoryDto, RallyMovementKindDto};
use parabellum_web::api::marketplace::{
    ensure_marketplace_slot, invalid_marketplace_message, marketplace_offer_dto, merchant_movements,
    paired_outgoing_going_exists, MarketplaceOffer, MerchantMovement, MerchantMovementKind,
};
use parabellum_web::api::rally::{
    prepare_rally_point_cards, rally_card_dto, rally_reference_ids, rally_card_upkeep, sendable_units, troop_upkeep, ArmyAction, ArmyView,
    RallyInputs, VillageArmyState, VillageReference,
};
use parabellum_web::model::{
    BuildingName, Position, ResourceGroup, TribeUnit, TroopMovement, TroopMovementType, Tribe, UnitRole, UnitStats,
    VillageBuilding,
};

fn army(id: u128, village_id: u32, field: Option<u32>, tribe: Tribe) -> ArmyView {
    ArmyView { id, village_id, current_map_field_id: field, tribe, units: vec![1, 2, 0, 0, 0, 0, 0, 0, 0, 0], has_hero: false }
}

fn troop_movement(job_id: u128, kind: TroopMovementType) -> TroopMovement {
    TroopMovement {
        job_id,
        movement_type: kind,
        origin_player_id: 1,
        origin_village_id: 10,
        origin_village_name: Some("Home".to_string()),
        origin_position: Position { x: 0, y: 0 },
        target_village_id: 20,
        target_village_name: Some("Target".to_string()),
        target_position: Position { x: 5, y: 5 },
        units: vec![3; 10],
        has_hero: true,
        tribe: Tribe::Gaul,
        arrives_at: 500,
        bounty: None,
    }
}

fn reference(id: u32, name: &str, x: i32) -> VillageReference {
    VillageReference { id, name: name.to_string(), position: Position { x, y: 0 } }
}

#[test]
fn rally_cards_come_in_section_order() {
    let state = VillageArmyState {
        home_army: Some(army(1, 10, None, Tribe::Roman)),
        deployed_armies: vec![army(2, 10, Some(30), Tribe::Roman)],
        reinforcements: vec![army(3, 40, None, Tribe::Teuton)],
        trapped_here: vec![],
        trapped_away: vec![army(4, 10, None, Tribe::Roman)],
    };
    let mut refs = HashMap::new();
    refs.insert(30, reference(30, "Oasis Camp", 7));
    let outgoing = vec![troop_movement(100, TroopMovementType::Raid)];
    let incoming = vec![troop_movement(101, TroopMovementType::Return)];
    let mut cancelable = HashSet::new();
    cancelable.insert(100u128);
    let inputs = RallyInputs {
        village_id: 10,
        village_name: "Capital",
        village_position: Position { x: 1, y: 2 },
        village_tribe: Tribe::Roman,
        armies: &state,
        outgoing: &outgoing,
        incoming: &incoming,
        references: &refs,
        cancelable: &cancelable,
    };
    let cards = prepare_rally_point_cards(&inputs);
    assert_eq!(cards.len(), 6);
    assert_eq!(cards[0].category, RallyCardCategoryDto::Stationed);
    assert_eq!(cards[0].village_name.as_deref(), Some("Capital"));
    assert_eq!(cards[1].category, RallyCardCategoryDto::Deployed);
    assert_eq!(cards[1].village_name.as_deref(), Some("Oasis Camp"));
    assert_eq!(cards[1].action, Some(ArmyAction::Recall(2)));
    assert_eq!(cards[2].village_name.as_deref(), Some("Village #40"));
    assert_eq!(cards[2].position, None);
    assert_eq!(cards[2].action, Some(ArmyAction::Release(3)));
    assert_eq!(cards[3].village_id, 10);
    assert_eq!(cards[3].action, Some(ArmyAction::DisbandTrapped(4)));
    assert_eq!(cards[4].category, RallyCardCategoryDto::Outgoing);
    assert_eq!(cards[4].village_id, 20);
    assert_eq!(cards[4].movement_kind, Some(RallyMovementKindDto::Raid));
    assert_eq!(cards[4].action, Some(ArmyAction::Cancel(100)));
    assert_eq!(cards[5].category, RallyCardCategoryDto::Incoming);
    assert_eq!(cards[5].village_id, 10);
    assert_eq!(cards[5].action, None);
}

#[test]
fn upkeep_of_cards() {
    let upkeeps = vec![1, 2, 3];
    assert_eq!(troop_upkeep(&upkeeps, &vec![10, 1, 0, 9]), 12);
    let village_upkeeps = vec![2; 10];
    let base_upkeeps = vec![1; 10];
    let state = VillageArmyState {
        home_army: Some(army(1, 10, None, Tribe::Roman)),
        deployed_armies: vec![army(2, 10, Some(30), Tribe::Roman)],
        reinforcements: vec![army(3, 40, None, Tribe::Teuton)],
        trapped_here: vec![],
        trapped_away: vec![],
    };
    let refs = HashMap::new();
    let cancelable = HashSet::new();
    let outgoing = vec![];
    let incoming = vec![troop_movement(9, TroopMovementType::Attack)];
    let inputs = RallyInputs {
        village_id: 10,
        village_name: "Capital",
        village_position: Position { x: 1, y: 2 },
        village_tribe: Tribe::Roman,
        armies: &state,
        outgoing: &outgoing,
        incoming: &incoming,
        references: &refs,
        cancelable: &cancelable,
    };
    let cards = prepare_rally_point_cards(&inputs);
    assert_eq!(rally_card_upkeep(&cards[0], Tribe::Roman, &village_upkeeps, &base_upkeeps), Some(6));
    assert_eq!(rally_card_upkeep(&cards[1], Tribe::Roman, &village_upkeeps, &base_upkeeps), None);
    assert_eq!(rally_card_upkeep(&cards[2], Tribe::Roman, &village_upkeeps, &base_upkeeps), Some(3));
    assert_eq!(rally_card_upkeep(&cards[3], Tribe::Roman, &village_upkeeps, &base_upkeeps), None);
    let dto = rally_card_dto(cards[1].clone(), None);
    assert_eq!(dto.action, Some(RallyActionDto::Recall));
    assert_eq!(dto.action_id.as_deref(), Some("00000000-0000-0000-0000-000000000002"));
    assert_eq!(dto.tribe, "Roman");
}

#[test]
fn sendable_units_report_home_counts() {
    let unit = |name: &str, research_time: u32| TribeUnit {
        name: name.to_string(),
        stats: UnitStats { role: UnitRole::Other, speed: 6, attack: 1, defense_infantry: 1, defense_cavalry: 1, upkeep: 1 },
        cost: ResourceGroup { lumber: 1, clay: 1, iron: 1, crop: 1 },
        capacity: 10,
        research_time,
        research_cost: ResourceGroup { lumber: 1, clay: 1, iron: 1, crop: 1 },
        requirements: vec![],
    };
    let units = vec![unit("Phalanx", 0), unit("Swordsman", 100), unit("Pathfinder", 100)];
    let home = Some(army(1, 10, None, Tribe::Gaul));
    let list = sendable_units(&units, &home, &vec![false, true]);
    assert_eq!(list.len(), 3);
    assert_eq!((list[0].available, list[0].is_researched), (1, true));
    assert_eq!((list[1].available, list[1].is_researched), (2, true));
    assert_eq!((list[2].available, list[2].is_researched), (0, false));
    let none = sendable_units(&units, &None, &vec![]);
    assert_eq!(none[1].available, 0);
}

fn merchants(job_id: u128, kind: MerchantMovementKind, from: u32, to: u32, arrives_at: i64) -> MerchantMovement {
    MerchantMovement {
        job_id,
        kind,
        origin_village_id: from,
        destination_village_id: to,
        resources: ResourceGroup { lumber: 100, clay: 0, iron: 0, crop: 0 },
        merchants_used: 1,
        arrives_at,
    }
}

#[test]
fn paired_returns_are_hidden_and_movements_ordered() {
    let mut refs = HashMap::new();
    refs.insert(1, reference(1, "Home", 0));
    refs.insert(2, reference(2, "Friend", 9));
    let going = merchants(10, MerchantMovementKind::Going, 1, 2, 100);
    let back = merchants(11, MerchantMovementKind::Return, 2, 1, 200);
    let outgoing = vec![back, going];
    assert!(paired_outgoing_going_exists(&refs, &back, &outgoing));
    let early_back = merchants(12, MerchantMovementKind::Return, 2, 1, 50);
    assert!(!paired_outgoing_going_exists(&refs, &early_back, &outgoing));
    let incoming = vec![merchants(13, MerchantMovementKind::Going, 3, 1, 100), merchants(14, MerchantMovementKind::Going, 2, 1, 20)];
    let listed = merchant_movements(&refs, &outgoing, &incoming);
    let order: Vec<String> = listed.iter().map(|m| m.job_id.clone()).collect();
    assert_eq!(
        order,
        vec![
            "00000000-0000-0000-0000-00000000000e".to_string(),
            "00000000-0000-0000-0000-00000000000a".to_string(),
            "00000000-0000-0000-0000-00000000000d".to_string(),
        ]
    );
    assert_eq!(listed[1].direction, MerchantMovementDirectionDto::Outgoing);
    assert_eq!(listed[2].origin_name, "Village #3");
    assert_eq!(listed[2].origin_position, None);
    assert_eq!(listed[0].origin_name, "Friend");
}

#[test]
fn marketplace_forms_need_the_marketplace() {
    let buildings = vec![VillageBuilding { slot_id: 25, name: BuildingName::Marketplace, level: 1 }];
    assert!(ensure_marketplace_slot(&buildings, 25).is_ok());
    assert_eq!(ensure_marketplace_slot(&buildings, 26).unwrap_err(), invalid_marketplace_message());
    assert_eq!(
        ensure_marketplace_slot(&buildings, 0).unwrap_err(),
        "You can only use marketplace actions from the Marketplace."
    );
}

#[test]
fn marketplace_offers_name_their_village() {
    let mut refs = HashMap::new();
    refs.insert(7, reference(7, "Lutetia", -4));
    let offer = MarketplaceOffer {
        id: 5,
        village_id: 7,
        offer_resources: ResourceGroup { lumber: 100, clay: 0, iron: 0, crop: 0 },
        seek_resources: ResourceGroup { lumber: 0, clay: 0, iron: 0, crop: 120 },
        merchants_required: 1,
        created_at: 1_000,
    };
    let dto = marketplace_offer_dto(&refs, &offer, 12, 900);
    assert_eq!(dto.offer_id, "00000000-0000-0000-0000-000000000005");
    assert_eq!(dto.village_name, "Lutetia");
    assert_eq!((dto.position.x, dto.position.y), (-4, 0));
    assert_eq!((dto.distance, dto.travel_time_seconds), (12, 900));
    assert_eq!(dto.offer_resources.lumber, 100);
    assert_eq!(dto.seek_resources.crop, 120);
    assert_eq!(dto.merchants_required, 1);
    assert_eq!(dto.created_at, 1_000);
}

#[test]
fn rally_point_looks_up_each_named_village_once() {
    let state = VillageArmyState {
        home_army: Some(army(1, 10, None, Tribe::Roman)),
        deployed_armies: vec![army(2, 10, Some(30), Tribe::Roman), army(3, 10, None, Tribe::Roman)],
        reinforcements: vec![army(4, 40, None, Tribe::Gaul), army(5, 30, None, Tribe::Gaul)],
        trapped_here: vec![army(6, 50, None, Tribe::Teuton)],
        trapped_away: vec![army(7, 10, Some(60), Tribe::Roman)],
    };
    let mut ids = rally_reference_ids(&state);
    ids.sort();
    assert_eq!(ids, vec![30, 40, 50, 60]);
    let empty = VillageArmyState {
        home_army: None,
        deployed_armies: vec![],
        reinforcements: vec![],
        trapped_here: vec![],
        trapped_away: vec![],
    };
    assert!(rally_reference_ids(&empty).is_empty());
}
