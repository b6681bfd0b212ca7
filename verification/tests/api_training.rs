use parabellum_web::api::dto::ScheduledActionStatus;
use parabellum_web::api::research::{
    academy_options, academy_queue, smithy_options, smithy_queue, ResearchQueueItem, SmithyUpgradeCost,
};
use parabellum_web::api::training::{
    expansion_commitment, trap_queue, training_queue_for_slot, ExpansionRole, TrainingQueueItem, TrapQueueItem,
};
use parabellum_web::api::troops::{current_troops, ArmyUnits};
use parabellum_web::model::{BuildingName, ResourceGroup, TribeUnit, UnitRole, UnitStats, VillageBuilding};

fn unit(name: &str, research_time: u32, requirements: Vec<(BuildingName, u8)>) -> TribeUnit {
    TribeUnit {
        name: name.to_string(),
        stats: UnitStats { role: UnitRole::Other, speed: 6, attack: 1, defense_infantry: 1, defense_cavalry: 1, upkeep: 1 },
        cost: ResourceGroup { lumber: 1, clay: 1, iron: 1, crop: 1 },
        capacity: 10,
        research_time,
        research_cost: ResourceGroup { lumber: 5, clay: 6, iron: 7, crop: 8 },
        requirements,
    }
}

fn job(name: &str) -> ResearchQueueItem {
    ResearchQueueItem { unit_name: name.to_string(), finishes_at: 99, status: ScheduledActionStatus::Processing }
}

#[test]
fn academy_splits_units() {
    let units = vec![
        unit("Legionnaire", 0, vec![]),
        unit("Praetorian", 100, vec![(BuildingName::Smithy, 1)]),
        unit("Imperian", 100, vec![]),
        unit("Scout", 100, vec![]),
    ];
    let buildings = vec![VillageBuilding { slot_id: 20, name: BuildingName::Academy, level: 1 }];
    let options = academy_options(&units, &vec![0, 50, 60, 70], &vec![true], &buildings, &vec![job("Scout")]);
    assert_eq!(options.researched, vec!["Legionnaire".to_string()]);
    assert_eq!(options.ready.len(), 1);
    assert_eq!(options.ready[0].unit_name, "Imperian");
    assert_eq!(options.ready[0].time_secs, 60);
    assert_eq!(options.ready[0].cost.iron, 7);
    assert_eq!(options.locked.len(), 1);
    assert_eq!(options.locked[0].unit_name, "Praetorian");
    assert_eq!(options.locked[0].missing_requirements[0].building_name, "Smithy");
    let q = academy_queue(&vec![job("Scout")]);
    assert_eq!(q[0].unit_name, "Scout");
    assert!(q[0].is_processing);
}

#[test]
fn smithy_offers_researched_units_below_cap() {
    let units = vec![unit("A", 0, vec![]), unit("B", 100, vec![]), unit("C", 0, vec![])];
    let cost = SmithyUpgradeCost { cost: ResourceGroup { lumber: 9, clay: 9, iron: 9, crop: 9 }, time_secs: 40 };
    let costs = vec![vec![Some(cost); 21], vec![Some(cost); 21], vec![Some(cost); 21]];
    let queue = vec![job("A")];
    let options = smithy_options(&units, &vec![], &vec![1, 0, 3], 3, &queue, false, &costs);
    assert_eq!(options.len(), 1);
    assert_eq!(options[0].unit_name, "A");
    assert_eq!(options[0].current_level, 1);
    assert_eq!(options[0].next_level, 3);
    assert_eq!(options[0].max_level, 3);
    assert!(!options[0].can_upgrade);
    let options = smithy_options(&units, &vec![], &vec![1, 0, 3], 25, &vec![], false, &costs);
    assert_eq!(options.len(), 2);
    assert_eq!(options[1].max_level, 20);
    assert!(options[1].can_upgrade);
    assert!(smithy_options(&units, &vec![], &vec![1, 0, 3], 0, &vec![], false, &costs).is_empty());
    let q = smithy_queue(&vec![job("A"), job("B"), job("A")]);
    let levels: Vec<u8> = q.iter().map(|j| j.target_level).collect();
    assert_eq!(levels, vec![1, 1, 2]);
}

#[test]
fn training_queue_of_a_slot() {
    let item = |slot_id: u8, quantity: i32| TrainingQueueItem {
        slot_id,
        unit_name: "Settler".to_string(),
        expansion_role: Some(ExpansionRole::Settler),
        quantity,
        time_per_unit: -5,
        finishes_at: 7,
    };
    let queue = vec![item(19, 3), item(20, 1), item(19, -2)];
    let listed = training_queue_for_slot(19, &queue);
    assert_eq!(listed.len(), 2);
    assert_eq!(listed[0].quantity, 3);
    assert_eq!(listed[0].time_per_unit, 0);
    assert_eq!(listed[1].quantity, 0);
    let c = expansion_commitment((1, 2), &vec![vec![0, 0, 0, 0, 0, 0, 0, 0, 1, 1]], &queue, (0, 3));
    assert_eq!(c.chiefs, 2);
    assert_eq!(c.settlers, 2 + 1 + 4 + 3);
}

#[test]
fn trap_queue_reads_counts() {
    let q = trap_queue(&vec![TrapQueueItem { quantity: -1, time_per_trap: 60, finishes_at: 5, status: ScheduledActionStatus::Pending }]);
    assert_eq!(q[0].quantity, 0);
    assert_eq!(q[0].time_per_trap, 60);
    assert!(!q[0].is_processing);
}

#[test]
fn troops_are_summed_by_name_in_order() {
    let names = |ns: &[&str]| ns.iter().map(|s| s.to_string()).collect::<Vec<_>>();
    let home = ArmyUnits { unit_names: names(&["Phalanx", "Swordsman"]), units: vec![5, 0, 2] };
    let guest = ArmyUnits { unit_names: names(&["Clubswinger", "Phalanx"]), units: vec![1, 3] };
    let troops = current_troops(&Some(home), &vec![guest]);
    let listed: Vec<(String, u32)> = troops.into_iter().map(|t| (t.unit_name, t.count)).collect();
    assert_eq!(
        listed,
        vec![("Clubswinger".to_string(), 1), ("Phalanx".to_string(), 8), ("Unit3".to_string(), 2)]
    );
    assert!(current_troops(&None, &vec![]).is_empty());
}
