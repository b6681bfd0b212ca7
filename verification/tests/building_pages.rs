use parabellum_web::api::actions::{strength_per_point, ResourceKind};
use parabellum_web::api::buildings::ensure_detail_slot;
use parabellum_web::api::dto::{BuildingQueueItem, BuildingQueueItemDto, BuildingWorkflowKind, ScheduledActionStatus};
use parabellum_web::api::training::{
    free_expansion_slots, trapper_detail, training_group, training_unit_options, TrainableUnit, TrapQueueItem,
    TrapperCounts, UnitGroup,
};
use parabellum_web::errors::ApiErrorKind;
use parabellum_web::handlers::building_page::{
    first_queued_for_slot, nav_section, page_kind, page_next_level, page_queue_full, slot_holds_building,
    virtual_building_after_queue, BuildingPageKind, BuildingValueType, NavSection,
};
use parabellum_web::model::{
    BuildingName, Position, ProductionRates, ResourceGroup, Tribe, TribeUnit, UnitRole, UnitStats, Village, VillageBuilding,
};
use parabellum_web::views::{
    card_title, empty_slot_notice, find_slot, movement_kind_class, option_button, position_label, resource_bar,
    resource_field_hexes, unit_cell_classes, upgrade_block_state, village_building_slots, village_map_nodes,
    BuildingSlot, EmptySlotNotice, MovementKind, OptionButton, ResourceSlot, UpgradeBlockState,
};

fn trainable(name: &str, role: UnitRole, roster_idx: Option<u8>) -> TrainableUnit {
    TrainableUnit {
        unit: TribeUnit {
            name: name.to_string(),
            stats: UnitStats { role, speed: 7, attack: 40, defense_infantry: 35, defense_cavalry: 50, upkeep: 1 },
            cost: ResourceGroup { lumber: 120, clay: 100, iron: 150, crop: 30 },
            capacity: 50,
            research_time: 0,
            research_cost: ResourceGroup { lumber: 0, clay: 0, iron: 0, crop: 0 },
            requirements: vec![],
        },
        roster_idx,
        upkeep: 2,
        time_secs: 1600,
    }
}

fn queued(slot_id: u8, name: BuildingName, target_level: u8, kind: BuildingWorkflowKind) -> BuildingQueueItem {
    BuildingQueueItem {
        job_id: 1,
        kind,
        slot_id,
        building_name: name,
        target_level,
        status: ScheduledActionStatus::Pending,
        finishes_at: 100,
    }
}

#[test]
fn training_options_follow_the_building_group() {
    let units = vec![
        trainable("Legionnaire", UnitRole::Other, Some(0)),
        trainable("Ghost", UnitRole::Other, None),
        trainable("Senator", UnitRole::Chief, Some(8)),
        trainable("Settler", UnitRole::Settler, Some(9)),
    ];
    let expected = vec![BuildingName::Residence, BuildingName::Palace];
    let options = training_unit_options(BuildingName::Palace, &expected, &units, (0, 2));
    assert_eq!(options.len(), 2);
    assert_eq!(options[0].name, "Legionnaire");
    assert_eq!(options[0].unit_idx, 0);
    assert_eq!(options[0].max_trainable, None);
    assert_eq!(options[0].cost.iron, 150);
    assert_eq!(options[0].upkeep, 2);
    assert_eq!(options[0].time_secs, 1600);
    assert_eq!(options[0].defense_cavalry, 50);
    assert_eq!(options[1].name, "Settler");
    assert_eq!(options[1].unit_idx, 9);
    assert_eq!(options[1].max_trainable, Some(2));

    let none = training_unit_options(BuildingName::Barracks, &expected, &units, (3, 3));
    assert!(none.is_empty());
}

#[test]
fn expansion_slots_left_free() {
    assert_eq!(free_expansion_slots(3, 1), 2);
    assert_eq!(free_expansion_slots(1, 5), 0);
    assert_eq!(free_expansion_slots(3, 257), 2);
}

#[test]
fn training_groups_of_buildings() {
    let (group, buildings) = training_group(BuildingName::GreatStable).unwrap();
    assert_eq!(group, UnitGroup::Cavalry);
    assert_eq!(buildings, vec![BuildingName::Stable, BuildingName::GreatStable]);
    let (group, buildings) = training_group(BuildingName::Residence).unwrap();
    assert_eq!(group, UnitGroup::Expansion);
    assert_eq!(buildings, vec![BuildingName::Residence, BuildingName::Palace]);
    assert!(training_group(BuildingName::Academy).is_none());
}

#[test]
fn trapper_section_needs_capacity() {
    let cost = ResourceGroup { lumber: 20, clay: 30, iron: 10, crop: 20 };
    let counts = TrapperCounts { capacity: 0, active: 0, occupied: 0, broken: 0, queued: 0, buildable: 0 };
    assert!(trapper_detail(counts, &vec![], &cost, 600).is_none());

    let counts = TrapperCounts { capacity: 20, active: 10, occupied: 3, broken: 1, queued: 2, buildable: 6 };
    let queue = vec![TrapQueueItem {
        quantity: -4,
        time_per_trap: 600,
        finishes_at: 77,
        status: ScheduledActionStatus::Processing,
    }];
    let detail = trapper_detail(counts, &queue, &cost, 600).unwrap();
    assert_eq!(detail.capacity, 20);
    assert_eq!(detail.occupied, 3);
    assert_eq!(detail.buildable, 6);
    assert_eq!(detail.queue.len(), 1);
    assert_eq!(detail.queue[0].quantity, 0);
    assert!(detail.queue[0].is_processing);
    assert_eq!(detail.cost_per_trap.clay, 30);
    assert_eq!(detail.time_per_trap_seconds, 600);
}

#[test]
fn detail_slots_are_one_to_forty() {
    assert!(ensure_detail_slot(1).is_ok());
    assert!(ensure_detail_slot(40).is_ok());
    let err = ensure_detail_slot(41).unwrap_err();
    assert_eq!(err.kind, ApiErrorKind::NotFound);
    assert_eq!(err.message, "Building slot not found");
    assert!(ensure_detail_slot(0).is_err());
}

#[test]
fn building_pages_are_chosen_by_building() {
    assert_eq!(nav_section(18), NavSection::Resources);
    assert_eq!(nav_section(19), NavSection::Village);
    assert_eq!(page_kind(None), BuildingPageKind::EmptySlot);
    assert_eq!(page_kind(Some(BuildingName::Cropland)), BuildingPageKind::ResourceField);
    assert_eq!(page_kind(Some(BuildingName::Workshop)), BuildingPageKind::Training(UnitGroup::Siege));
    assert_eq!(
        page_kind(Some(BuildingName::Brickyard)),
        BuildingPageKind::Static(BuildingValueType::ProductionBonus(ResourceKind::Clay))
    );
    assert_eq!(
        page_kind(Some(BuildingName::MainBuilding)),
        BuildingPageKind::Static(BuildingValueType::ConstructionSpeedBonus)
    );
    assert_eq!(page_kind(Some(BuildingName::Palace)), BuildingPageKind::Expansion);
    assert_eq!(page_kind(Some(BuildingName::Embassy)), BuildingPageKind::Generic);
}

#[test]
fn page_upgrades_count_every_queued_job() {
    let queue = vec![
        queued(22, BuildingName::Academy, 4, BuildingWorkflowKind::Upgrade),
        queued(5, BuildingName::Cropland, 2, BuildingWorkflowKind::Upgrade),
        queued(22, BuildingName::Academy, 5, BuildingWorkflowKind::Upgrade),
    ];
    assert_eq!(page_next_level(3, &queue, 22), 6);
    assert_eq!(page_next_level(254, &queue, 22), 255);
    assert_eq!(page_next_level(0, &queue, 30), 1);
    assert_eq!(first_queued_for_slot(&queue, 22).unwrap().target_level, 4);
    assert!(first_queued_for_slot(&queue, 30).is_none());
    assert!(page_queue_full(Tribe::Gaul, 2));
    assert!(!page_queue_full(Tribe::Roman, 2));
    assert!(page_queue_full(Tribe::Roman, 3));
}

#[test]
fn building_after_the_queue() {
    let built = VillageBuilding { slot_id: 22, name: BuildingName::Academy, level: 3 };
    let job = queued(22, BuildingName::Academy, 5, BuildingWorkflowKind::Upgrade);
    assert_eq!(
        virtual_building_after_queue(Some(built), Some(job)),
        Some(VillageBuilding { slot_id: 22, name: BuildingName::Academy, level: 5 })
    );
    let new_job = queued(30, BuildingName::Granary, 1, BuildingWorkflowKind::Add);
    assert_eq!(
        virtual_building_after_queue(None, Some(new_job)),
        Some(VillageBuilding { slot_id: 30, name: BuildingName::Granary, level: 1 })
    );
    assert_eq!(virtual_building_after_queue(Some(built), None), Some(built));
    assert_eq!(virtual_building_after_queue(None, None), None);
}

#[test]
fn village_map_draws_known_slots() {
    let slots = vec![
        BuildingSlot { slot_id: 26, building_name: Some(BuildingName::Warehouse), level: 7, in_queue: Some(true) },
        BuildingSlot { slot_id: 35, building_name: None, level: 0, in_queue: None },
        BuildingSlot { slot_id: 26, building_name: Some(BuildingName::Granary), level: 1, in_queue: None },
        BuildingSlot { slot_id: 19, building_name: Some(BuildingName::MainBuilding), level: 3, in_queue: None },
    ];
    assert_eq!(find_slot(&slots, 26).unwrap().building_name, Some(BuildingName::Warehouse));
    assert!(find_slot(&slots, 40).is_none());
    let nodes = village_map_nodes(&slots);
    assert_eq!(nodes.len(), 2);
    assert_eq!((nodes[0].slot_id, nodes[0].cx, nodes[0].cy), (26, 220, 260));
    assert!(!nodes[0].is_empty);
    assert_eq!(nodes[0].classes, "village-node-bg village-node-occupied construction-active");
    assert_eq!(nodes[0].level_text, "7");
    assert_eq!(nodes[0].title, "Warehouse (Level 7)");
    assert_eq!((nodes[1].slot_id, nodes[1].cx, nodes[1].cy), (35, 600, 860));
    assert!(nodes[1].is_empty);
    assert_eq!(nodes[1].classes, "village-node-bg village-node-empty");
    assert_eq!(nodes[1].level_text, "-");
    assert_eq!(nodes[1].title, "Empty slot");
}

#[test]
fn army_card_labels() {
    assert_eq!(movement_kind_class(MovementKind::Raid), "text-xs px-2 py-0.5 rounded bg-orange-100 text-orange-800");
    assert_eq!(card_title(&None), "Unknown Village");
    assert_eq!(card_title(&Some("Roma".to_string())), "Roma");
    assert_eq!(position_label(-12, 7), "(-12, 7)");
    assert_eq!(position_label(i32::MIN, 0), "(-2147483648, 0)");
    let (cell, count) = unit_cell_classes(0);
    assert_eq!(cell, "bg-gray-50 opacity-40");
    assert_eq!(count, "text-gray-400 text-sm");
    let (cell, count) = unit_cell_classes(3);
    assert_eq!(cell, "bg-gray-100");
    assert_eq!(count, "text-gray-900 font-semibold");
}

#[test]
fn village_view_lists_every_centre_slot() {
    let buildings = vec![
        VillageBuilding { slot_id: 19, name: BuildingName::MainBuilding, level: 5 },
        VillageBuilding { slot_id: 39, name: BuildingName::RallyPoint, level: 1 },
        VillageBuilding { slot_id: 3, name: BuildingName::Woodcutter, level: 2 },
    ];
    let queue = vec![
        BuildingQueueItemDto {
            kind: "Upgrade".to_string(),
            slot_id: 39,
            building_name: "RallyPoint".to_string(),
            target_level: 2,
            finishes_at: 50,
            time_seconds: 30,
            is_processing: true,
        },
        BuildingQueueItemDto {
            kind: "Add".to_string(),
            slot_id: 25,
            building_name: "Granary".to_string(),
            target_level: 1,
            finishes_at: 90,
            time_seconds: 70,
            is_processing: false,
        },
    ];
    let slots = village_building_slots(&buildings, &queue);
    assert_eq!(slots.len(), 22);
    assert_eq!(slots[0], BuildingSlot { slot_id: 19, building_name: Some(BuildingName::MainBuilding), level: 5, in_queue: None });
    assert_eq!(slots[6], BuildingSlot { slot_id: 25, building_name: None, level: 0, in_queue: Some(false) });
    assert_eq!(slots[20], BuildingSlot { slot_id: 39, building_name: Some(BuildingName::RallyPoint), level: 1, in_queue: Some(true) });
    assert_eq!(slots[21].slot_id, 40);
}

#[test]
fn building_forms_come_from_their_building() {
    let buildings = vec![
        VillageBuilding { slot_id: 24, name: BuildingName::Smithy, level: 3 },
        VillageBuilding { slot_id: 24, name: BuildingName::Academy, level: 1 },
    ];
    assert!(slot_holds_building(&buildings, 24, BuildingName::Smithy));
    assert!(!slot_holds_building(&buildings, 24, BuildingName::Academy));
    assert!(!slot_holds_building(&buildings, 25, BuildingName::Smithy));
    assert!(!slot_holds_building(&buildings, 0, BuildingName::Smithy));
}

#[test]
fn empty_slot_options_and_upgrades() {
    let stored = ResourceGroup { lumber: 100, clay: 100, iron: 100, crop: 100 };
    let cheap = ResourceGroup { lumber: 50, clay: 60, iron: 70, crop: 80 };
    let dear = ResourceGroup { lumber: 50, clay: 160, iron: 70, crop: 80 };
    assert_eq!(
        option_button(&stored, &cheap, 0, false, false),
        OptionButton { can_afford: true, can_start: true, enabled: true }
    );
    assert_eq!(
        option_button(&stored, &cheap, 0, true, false),
        OptionButton { can_afford: true, can_start: true, enabled: false }
    );
    assert_eq!(
        option_button(&stored, &cheap, 2, false, false),
        OptionButton { can_afford: true, can_start: false, enabled: false }
    );
    assert_eq!(
        option_button(&stored, &dear, 0, false, false),
        OptionButton { can_afford: false, can_start: false, enabled: false }
    );
    assert_eq!(
        option_button(&stored, &cheap, 0, false, true),
        OptionButton { can_afford: false, can_start: false, enabled: false }
    );
    assert_eq!(empty_slot_notice(1, 0, true), None);
    assert_eq!(empty_slot_notice(0, 0, true), Some(EmptySlotNotice::QueueLocked));
    assert_eq!(empty_slot_notice(0, 0, false), Some(EmptySlotNotice::NoneAvailable));
    assert_eq!(upgrade_block_state(20, 21, 0, &stored, &cheap, false), UpgradeBlockState::MaxLevel);
    assert_eq!(
        upgrade_block_state(3, 4, 600, &stored, &cheap, false),
        UpgradeBlockState::Upgrade { can_upgrade: true }
    );
    assert_eq!(
        upgrade_block_state(3, 4, 600, &stored, &dear, false),
        UpgradeBlockState::Upgrade { can_upgrade: false }
    );
    assert_eq!(
        upgrade_block_state(3, 4, 600, &stored, &cheap, true),
        UpgradeBlockState::Upgrade { can_upgrade: false }
    );
}

#[test]
fn resource_view_draws_known_fields() {
    let slots = vec![
        ResourceSlot { slot_id: 3, building_name: BuildingName::IronMine, level: 4, in_queue: Some(false) },
        ResourceSlot { slot_id: 1, building_name: BuildingName::Woodcutter, level: 10, in_queue: None },
    ];
    let hexes = resource_field_hexes(&slots);
    assert_eq!(hexes.len(), 2);
    assert_eq!((hexes[0].slot_id, hexes[0].tx, hexes[0].ty), (1, 279, 190));
    assert_eq!(hexes[0].fill, "#6c9a35");
    assert_eq!(hexes[0].classes, "resource-hex-group");
    assert_eq!(hexes[0].level_text, "10");
    assert_eq!(hexes[0].title, "Woodcutter (Level 10)");
    assert_eq!((hexes[1].slot_id, hexes[1].tx, hexes[1].ty), (3, 521, 190));
    assert_eq!(hexes[1].fill, "#999999");
    assert_eq!(hexes[1].classes, "resource-hex-group construction-pending");
}

#[test]
fn header_bar_shows_storage_by_resource() {
    let village = Village {
        id: 1,
        player_id: 2,
        name: "Roma".to_string(),
        position: Position { x: 0, y: 0 },
        is_capital: true,
        parent_village_id: None,
        tribe: Tribe::Roman,
        buildings: vec![],
        population: 120,
        loyalty: 100,
        warehouse_capacity: 1200,
        granary_capacity: 900,
        stocks: ResourceGroup { lumber: 10, clay: 20, iron: 30, crop: 40 },
        production: ProductionRates { lumber: 5, clay: 6, iron: 7, crop: -3 },
    };
    let bar = resource_bar(&village);
    assert_eq!(bar.len(), 4);
    assert_eq!((bar[0].amount, bar[0].capacity, bar[0].prod_per_hour), (10, 1200, 5));
    assert_eq!((bar[2].amount, bar[2].capacity, bar[2].prod_per_hour), (30, 1200, 7));
    assert_eq!((bar[3].amount, bar[3].capacity, bar[3].prod_per_hour), (40, 900, u32::MAX - 2));
    assert_eq!(bar[3].kind, ResourceKind::Crop);
}

#[test]
fn hero_strength_follows_the_top_unit() {
    let top = UnitStats { role: UnitRole::Other, speed: 5, attack: 70, defense_infantry: 40, defense_cavalry: 95, upkeep: 3 };
    assert_eq!(strength_per_point(Some(top)), 95);
    let striker = UnitStats { attack: 120, ..top };
    assert_eq!(strength_per_point(Some(striker)), 120);
    assert_eq!(strength_per_point(None), 0);
}
