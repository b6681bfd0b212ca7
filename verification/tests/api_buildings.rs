use parabellum_web::api::buildings::{
    available_foundation_slots, build_options_for_slot, building_blocked_by_queue, building_queue_capacity,
    building_type_of, conflicts_with_queued, count_expansion_units_moving, effective_merchant_stats,
    last_queued_for_slot, main_building_detail, missing_building_requirements, optional_value, queued_levels,
    queued_preview_levels, upgrade_plan, BuildCandidate, BuildingRules, BuildingTypeDto,
};
use parabellum_web::api::dto::{BuildingQueueItem, BuildingWorkflowKind, ScheduledActionStatus};
use parabellum_web::model::{BuildingName, Position, ResourceGroup, TroopMovement, TroopMovementType, Tribe, VillageBuilding};

fn job(slot_id: u8, kind: BuildingWorkflowKind, name: BuildingName, target: u8) -> BuildingQueueItem {
    BuildingQueueItem {
        job_id: 0x11,
        kind,
        slot_id,
        building_name: name,
        target_level: target,
        status: ScheduledActionStatus::Pending,
        finishes_at: 1_000,
    }
}

fn rules(name: BuildingName, max_level: u8, allow_multiple: bool) -> BuildingRules {
    BuildingRules { name, max_level, allow_multiple, conflicts: vec![], requirements: vec![] }
}

fn movement(player: u128, units: Vec<u32>) -> TroopMovement {
    TroopMovement {
        job_id: 1,
        movement_type: TroopMovementType::Attack,
        origin_player_id: player,
        origin_village_id: 1,
        origin_village_name: None,
        origin_position: Position { x: 0, y: 0 },
        target_village_id: 2,
        target_village_name: None,
        target_position: Position { x: 1, y: 1 },
        units,
        has_hero: false,
        tribe: Tribe::Roman,
        arrives_at: 100,
        bounty: None,
    }
}

#[test]
fn building_pages_by_type() {
    assert_eq!(building_type_of(BuildingName::GreatStable), BuildingTypeDto::Training);
    assert_eq!(building_type_of(BuildingName::Palace), BuildingTypeDto::Expansion);
    assert_eq!(building_type_of(BuildingName::RallyPoint), BuildingTypeDto::RallyPoint);
    assert_eq!(building_type_of(BuildingName::Warehouse), BuildingTypeDto::Generic);
}

#[test]
fn romans_queue_three_buildings() {
    assert_eq!(building_queue_capacity(Tribe::Roman), 3);
    assert_eq!(building_queue_capacity(Tribe::Gaul), 2);
}

#[test]
fn upgrade_plan_counts_queued_raises() {
    let queue = vec![
        job(5, BuildingWorkflowKind::Upgrade, BuildingName::Woodcutter, 3),
        job(5, BuildingWorkflowKind::Upgrade, BuildingName::Woodcutter, 4),
    ];
    let p = upgrade_plan(5, 2, Some(10), &queue, Tribe::Roman);
    assert_eq!(p.queued_upgrades, 2);
    assert_eq!(p.pending_level, 4);
    assert_eq!(p.next_level, 5);
    assert!(!p.at_max_level);
    assert!(!p.queue_full);
    let p = upgrade_plan(5, 2, Some(10), &queue, Tribe::Teuton);
    assert!(p.queue_full);
    let p = upgrade_plan(5, 9, Some(10), &queue, Tribe::Roman);
    assert!(p.at_max_level);
    assert_eq!(p.next_level, 10);
    let down = vec![job(5, BuildingWorkflowKind::Downgrade, BuildingName::Woodcutter, 1)];
    assert!(upgrade_plan(5, 2, Some(10), &down, Tribe::Roman).queue_full);
    let p = upgrade_plan(6, 7, None, &vec![], Tribe::Roman);
    assert!(p.at_max_level);
    assert_eq!(p.next_level, 7);
}

#[test]
fn zero_values_are_hidden() {
    assert_eq!(optional_value(0), None);
    assert_eq!(optional_value(12), Some(12));
}

#[test]
fn moving_chiefs_and_settlers_of_the_player() {
    let mut chief = vec![0; 10];
    chief[8] = 1;
    let mut settlers = vec![0; 10];
    settlers[9] = 3;
    let out = vec![movement(7, chief.clone()), movement(8, settlers.clone())];
    let inc = vec![movement(7, settlers)];
    assert_eq!(count_expansion_units_moving(&out, &inc, 7), (1, 3));
    assert_eq!(count_expansion_units_moving(&vec![movement(7, vec![u32::MAX; 10])], &out, 7), (u32::MAX, u32::MAX));
}

#[test]
fn foundation_slots_left() {
    assert_eq!(available_foundation_slots(0, 5), 0);
    assert_eq!(available_foundation_slots(2, 1), 1);
    assert_eq!(available_foundation_slots(2, 3), 0);
    assert_eq!(available_foundation_slots(2, 256), 2);
}

#[test]
fn merchant_stats_scale_with_speed() {
    assert_eq!(effective_merchant_stats(500, 16, 3), (1_500, 48));
    assert_eq!(effective_merchant_stats(500, 16, 0), (500, 16));
    assert_eq!(effective_merchant_stats(u32::MAX, 200, 2), (u32::MAX, 255));
}

#[test]
fn main_building_offers_downgrades_by_slot() {
    let buildings = vec![
        VillageBuilding { slot_id: 30, name: BuildingName::Granary, level: 3 },
        VillageBuilding { slot_id: 20, name: BuildingName::Warehouse, level: 2 },
        VillageBuilding { slot_id: 25, name: BuildingName::Cranny, level: 0 },
        VillageBuilding { slot_id: 5, name: BuildingName::Woodcutter, level: 4 },
        VillageBuilding { slot_id: 22, name: BuildingName::Academy, level: 1 },
    ];
    let queue = vec![job(22, BuildingWorkflowKind::Upgrade, BuildingName::Academy, 2)];
    let d = main_building_detail(10, &buildings, &queue, 0);
    assert!(d.can_downgrade);
    assert!(!d.queue_full);
    let slots: Vec<u8> = d.options.iter().map(|o| o.slot_id).collect();
    assert_eq!(slots, vec![20, 30]);
    assert_eq!(d.options[0].building_name, "Warehouse");
    assert_eq!(d.options[0].next_level, 1);
    assert!(d.queue.is_empty());

    let d = main_building_detail(9, &buildings, &queue, 0);
    assert!(!d.can_downgrade);
    assert!(d.options.is_empty());

    let downs = vec![
        job(20, BuildingWorkflowKind::Downgrade, BuildingName::Warehouse, 1),
        job(30, BuildingWorkflowKind::Downgrade, BuildingName::Granary, 2),
    ];
    let d = main_building_detail(12, &buildings, &downs, 400);
    assert!(d.queue_full);
    assert!(d.options.is_empty());
    assert_eq!(d.queue.len(), 2);
    assert_eq!(d.queue[0].time_seconds, 600);
    assert_eq!(d.queue[0].action_id, "00000000-0000-0000-0000-000000000011");
}

#[test]
fn queue_blocks_single_and_conflicting_buildings() {
    let mut palace = rules(BuildingName::Palace, 20, false);
    palace.conflicts = vec![BuildingName::Residence];
    let catalog = vec![palace, rules(BuildingName::Residence, 20, false), rules(BuildingName::Warehouse, 20, true)];
    let queue = vec![job(21, BuildingWorkflowKind::Add, BuildingName::Palace, 1)];
    assert!(building_blocked_by_queue(&catalog, BuildingName::Palace, &queue));
    assert!(building_blocked_by_queue(&catalog, BuildingName::Residence, &queue));
    assert!(!building_blocked_by_queue(&catalog, BuildingName::Warehouse, &queue));
    assert!(!building_blocked_by_queue(&catalog, BuildingName::Warehouse, &vec![]));
    assert!(!building_blocked_by_queue(&catalog, BuildingName::Stable, &queue));
    assert!(conflicts_with_queued(&catalog, BuildingName::Residence, BuildingName::Palace));
    assert!(!conflicts_with_queued(&catalog, BuildingName::Palace, BuildingName::Residence));
}

#[test]
fn requirements_and_build_options() {
    let mut academy = rules(BuildingName::Academy, 20, false);
    academy.requirements = vec![(BuildingName::MainBuilding, 3), (BuildingName::Barracks, 3)];
    let catalog = vec![academy, rules(BuildingName::Warehouse, 20, true)];
    let buildings = vec![
        VillageBuilding { slot_id: 26, name: BuildingName::MainBuilding, level: 5 },
        VillageBuilding { slot_id: 19, name: BuildingName::Barracks, level: 1 },
    ];
    let missing = missing_building_requirements(&catalog, &buildings, BuildingName::Academy);
    assert_eq!(missing.len(), 1);
    assert_eq!(missing[0].building_name, "Barracks");
    assert_eq!(missing[0].required_level, 3);

    let cost = ResourceGroup { lumber: 1, clay: 2, iron: 3, crop: 4 };
    let candidates = vec![
        BuildCandidate { name: BuildingName::Academy, validation_ok: false, cost, upkeep: 4, time_secs: 60 },
        BuildCandidate { name: BuildingName::Warehouse, validation_ok: true, cost, upkeep: 1, time_secs: 30 },
        BuildCandidate { name: BuildingName::Stable, validation_ok: false, cost, upkeep: 1, time_secs: 30 },
    ];
    let (buildable, locked) = build_options_for_slot(&catalog, &buildings, &vec![], &candidates);
    assert_eq!(buildable.len(), 1);
    assert_eq!(buildable[0].building_name, "Warehouse");
    assert_eq!(buildable[0].cost.clay, 2);
    assert_eq!(locked.len(), 1);
    assert_eq!(locked[0].building_name, "Academy");
    assert_eq!(locked[0].missing_requirements.len(), 1);
}

#[test]
fn queued_empty_slot_levels() {
    let catalog = vec![rules(BuildingName::Warehouse, 20, true)];
    let queue = vec![
        job(21, BuildingWorkflowKind::Add, BuildingName::Warehouse, 1),
        job(22, BuildingWorkflowKind::Add, BuildingName::Granary, 1),
        job(21, BuildingWorkflowKind::Upgrade, BuildingName::Warehouse, 2),
    ];
    let last = last_queued_for_slot(&queue, 21).unwrap();
    assert_eq!(last.target_level, 2);
    assert!(last_queued_for_slot(&queue, 23).is_none());
    let l = queued_levels(&catalog, &last);
    assert_eq!((l.target_level, l.next_level, l.can_upgrade), (2, 3, Some(true)));
    let granary = queue[1];
    assert_eq!(queued_levels(&catalog, &granary).can_upgrade, None);
    assert_eq!(queued_preview_levels(&catalog, &last), (3, false));
    assert_eq!(queued_preview_levels(&catalog, &granary), (1, true));
}
