//! Decisions of the server-rendered building page: which section of the
//! navigation it belongs to, which page a slot shows, what an upgrade from
//! the page reaches, what an empty slot has queued, what a slot holds once
//! its queue is done, and which slot a building's form must come from.

use vstd::prelude::*;

use crate::api::buildings::{
    building_queue_capacity, queued_for_slot, saturating_add_u8, spec_building_queue_capacity,
};
use crate::api::actions::ResourceKind;
use crate::api::dto::BuildingQueueItem;
use crate::api::training::UnitGroup;
use crate::model::{building_in_slot, spec_building_in_slot, BuildingName, Tribe, VillageBuilding};

verus! {

/// The two sections of the game's navigation that building pages belong to.
#[derive(Debug, Clone, Copy, PartialEq, Eq, Structural)]
pub enum NavSection {
    Resources,
    Village,
}

/// Slots `1..=18` are resource fields and belong to the resources view; the
/// others belong to the village view.
pub fn nav_section(slot_id: u8) -> (r: NavSection)
    ensures
        slot_id <= 18 ==> r == NavSection::Resources,
        slot_id > 18 ==> r == NavSection::Village,
{
    if slot_id <= 18 {
        NavSection::Resources
    } else {
        NavSection::Village
    }
}

/// What the value of a building without a page of its own measures.
#[derive(Debug, Clone, Copy, PartialEq, Eq, Structural)]
pub enum BuildingValueType {
    Capacity,
    ProductionBonus(ResourceKind),
    ConstructionSpeedBonus,
    HiddenCapacity,
    DefenseBonus,
}

/// The page that a building slot shows.
#[derive(Debug, Clone, Copy, PartialEq, Eq, Structural)]
pub enum BuildingPageKind {
    EmptySlot,
    ResourceField,
    Training(UnitGroup),
    Academy,
    Smithy,
    RallyPoint,
    Marketplace,
    Static(BuildingValueType),
    Expansion,
    Generic,
}

/// The page for a slot holding `building` (none for an empty slot).
pub open spec fn spec_page_kind(building: Option<BuildingName>) -> BuildingPageKind {
    match building {
        None => BuildingPageKind::EmptySlot,
        Some(name) => match name {
            BuildingName::Woodcutter | BuildingName::ClayPit | BuildingName::IronMine
            | BuildingName::Cropland => BuildingPageKind::ResourceField,
            BuildingName::Barracks | BuildingName::GreatBarracks => BuildingPageKind::Training(
                UnitGroup::Infantry,
            ),
            BuildingName::Stable | BuildingName::GreatStable => BuildingPageKind::Training(
                UnitGroup::Cavalry,
            ),
            BuildingName::Workshop | BuildingName::GreatWorkshop => BuildingPageKind::Training(
                UnitGroup::Siege,
            ),
            BuildingName::Academy => BuildingPageKind::Academy,
            BuildingName::Smithy => BuildingPageKind::Smithy,
            BuildingName::RallyPoint => BuildingPageKind::RallyPoint,
            BuildingName::Marketplace => BuildingPageKind::Marketplace,
            BuildingName::Warehouse | BuildingName::GreatWarehouse | BuildingName::Granary
            | BuildingName::GreatGranary => BuildingPageKind::Static(BuildingValueType::Capacity),
            BuildingName::Sawmill => BuildingPageKind::Static(
                BuildingValueType::ProductionBonus(ResourceKind::Lumber),
            ),
            BuildingName::Brickyard => BuildingPageKind::Static(
                BuildingValueType::ProductionBonus(ResourceKind::Clay),
            ),
            BuildingName::IronFoundry => BuildingPageKind::Static(
                BuildingValueType::ProductionBonus(ResourceKind::Iron),
            ),
            BuildingName::GrainMill | BuildingName::Bakery => BuildingPageKind::Static(
                BuildingValueType::ProductionBonus(ResourceKind::Crop),
            ),
            BuildingName::MainBuilding => BuildingPageKind::Static(
                BuildingValueType::ConstructionSpeedBonus,
            ),
            BuildingName::Cranny => BuildingPageKind::Static(BuildingValueType::HiddenCapacity),
            BuildingName::CityWall | BuildingName::EarthWall | BuildingName::Palisade => {
                BuildingPageKind::Static(BuildingValueType::DefenseBonus)
            },
            BuildingName::Residence | BuildingName::Palace => BuildingPageKind::Expansion,
            _ => BuildingPageKind::Generic,
        },
    }
}

/// Chooses the page for a slot holding `building` (none for an empty slot).
pub fn page_kind(building: Option<BuildingName>) -> (r: BuildingPageKind)
    ensures
        r == spec_page_kind(building),
{
    match building {
        None => BuildingPageKind::EmptySlot,
        Some(name) => match name {
            BuildingName::Woodcutter | BuildingName::ClayPit | BuildingName::IronMine
            | BuildingName::Cropland => BuildingPageKind::ResourceField,
            BuildingName::Barracks | BuildingName::GreatBarracks => BuildingPageKind::Training(
                UnitGroup::Infantry,
            ),
            BuildingName::Stable | BuildingName::GreatStable => BuildingPageKind::Training(
                UnitGroup::Cavalry,
            ),
            BuildingName::Workshop | BuildingName::GreatWorkshop => BuildingPageKind::Training(
                UnitGroup::Siege,
            ),
            BuildingName::Academy => BuildingPageKind::Academy,
            BuildingName::Smithy => BuildingPageKind::Smithy,
            BuildingName::RallyPoint => BuildingPageKind::RallyPoint,
            BuildingName::Marketplace => BuildingPageKind::Marketplace,
            BuildingName::Warehouse | BuildingName::GreatWarehouse | BuildingName::Granary
            | BuildingName::GreatGranary => BuildingPageKind::Static(BuildingValueType::Capacity),
            BuildingName::Sawmill => BuildingPageKind::Static(
                BuildingValueType::ProductionBonus(ResourceKind::Lumber),
            ),
            BuildingName::Brickyard => BuildingPageKind::Static(
                BuildingValueType::ProductionBonus(ResourceKind::Clay),
            ),
            BuildingName::IronFoundry => BuildingPageKind::Static(
                BuildingValueType::ProductionBonus(ResourceKind::Iron),
            ),
            BuildingName::GrainMill | BuildingName::Bakery => BuildingPageKind::Static(
                BuildingValueType::ProductionBonus(ResourceKind::Crop),
            ),
            BuildingName::MainBuilding => BuildingPageKind::Static(
                BuildingValueType::ConstructionSpeedBonus,
            ),
            BuildingName::Cranny => BuildingPageKind::Static(BuildingValueType::HiddenCapacity),
            BuildingName::CityWall | BuildingName::EarthWall | BuildingName::Palisade => {
                BuildingPageKind::Static(BuildingValueType::DefenseBonus)
            },
            BuildingName::Residence | BuildingName::Palace => BuildingPageKind::Expansion,
            _ => BuildingPageKind::Generic,
        },
    }
}

/// The level an upgrade queued from the page reaches: every job queued for the
/// slot (counted in a byte, so modulo 256) comes on top of the current level,
/// and the upgrade adds one more, each step saturating.
pub open spec fn spec_page_next_level(current_level: u8, queue: Seq<BuildingQueueItem>, slot_id: u8) -> u8 {
    let queued = (queued_for_slot(queue, slot_id).len() % 256) as u8;
    saturating_add_u8(saturating_add_u8(current_level, queued), 1)
}

/// Works out the level that the page's upgrade button reaches.
pub fn page_next_level(current_level: u8, queue: &Vec<BuildingQueueItem>, slot_id: u8) -> (r: u8)
    ensures
        r == spec_page_next_level(current_level, queue@, slot_id),
{
    let ghost pred = |q: BuildingQueueItem| q.slot_id == slot_id;
    let mut count: usize = 0;
    let mut i: usize = 0;
    while i < queue.len()
        invariant
            i <= queue@.len(),
            pred == (|q: BuildingQueueItem| q.slot_id == slot_id),
            count == queue@.take(i as int).filter(pred).len(),
            count <= i,
        decreases queue.len() - i,
    {
        proof {
            assert(queue@.take(i + 1).drop_last() =~= queue@.take(i as int));
            reveal(Seq::filter);
        }
        if queue[i].slot_id == slot_id {
            count = count + 1;
        }
        i = i + 1;
    }
    assert(queue@.take(i as int) =~= queue@);
    let queued: u8 = (count % 256) as u8;
    current_level.saturating_add(queued).saturating_add(1)
}

/// The first job queued for an empty slot, if any: the page names its
/// building and target level.
pub fn first_queued_for_slot(queue: &Vec<BuildingQueueItem>, slot_id: u8) -> (r: Option<BuildingQueueItem>)
    ensures
        queued_for_slot(queue@, slot_id).len() == 0 ==> r is None,
        queued_for_slot(queue@, slot_id).len() > 0 ==> r == Some(queued_for_slot(queue@, slot_id)[0]),
{
    let ghost pred = |q: BuildingQueueItem| q.slot_id == slot_id;
    let mut i: usize = 0;
    while i < queue.len()
        invariant
            i <= queue@.len(),
            pred == (|q: BuildingQueueItem| q.slot_id == slot_id),
            queue@.take(i as int).filter(pred).len() == 0,
        decreases queue.len() - i,
    {
        proof {
            assert(queue@.take(i + 1).drop_last() =~= queue@.take(i as int));
            reveal(Seq::filter);
        }
        if queue[i].slot_id == slot_id {
            proof {
                let head = queue@.take(i + 1);
                let tail = queue@.skip(i + 1);
                assert(head + tail =~= queue@);
                Seq::filter_distributes_over_add(head, tail, pred);
                assert(head.filter(pred) =~= seq![queue@[i as int]]);
            }
            return Some(queue[i]);
        }
        i = i + 1;
    }
    assert(queue@.take(i as int) =~= queue@);
    None
}

/// The page's building queue is full once it holds as many jobs as the tribe
/// may queue at once.
pub fn page_queue_full(tribe: Tribe, queued_jobs: usize) -> (r: bool)
    ensures
        r == (queued_jobs >= spec_building_queue_capacity(tribe)),
{
    queued_jobs >= building_queue_capacity(tribe)
}

/// The building a slot will hold once its queue is done, as the page shows
/// it: the built one raised to the level of the last queued job, or, for an
/// empty slot, the queued building at that level. Whether the game knows that
/// level for the building is checked where the building's data lives.
pub open spec fn spec_virtual_building_after_queue(
    slot_building: Option<VillageBuilding>,
    last_queued: Option<BuildingQueueItem>,
) -> Option<VillageBuilding> {
    match (slot_building, last_queued) {
        (Some(b), Some(q)) => Some(VillageBuilding { slot_id: b.slot_id, name: b.name, level: q.target_level }),
        (None, Some(q)) => Some(VillageBuilding { slot_id: q.slot_id, name: q.building_name, level: q.target_level }),
        (Some(b), None) => Some(b),
        (None, None) => None,
    }
}

/// Works out the building a slot will hold once its queue is done.
pub fn virtual_building_after_queue(
    slot_building: Option<VillageBuilding>,
    last_queued: Option<BuildingQueueItem>,
) -> (r: Option<VillageBuilding>)
    ensures
        r == spec_virtual_building_after_queue(slot_building, last_queued),
{
    match (slot_building, last_queued) {
        (Some(b), Some(q)) => Some(VillageBuilding { slot_id: b.slot_id, name: b.name, level: q.target_level }),
        (None, Some(q)) => Some(VillageBuilding { slot_id: q.slot_id, name: q.building_name, level: q.target_level }),
        (Some(b), None) => Some(b),
        (None, None) => None,
    }
}

/// A building form (the smithy's, the academy's) is accepted only from a
/// slot in `1..=40` that holds the building it belongs to.
pub open spec fn spec_slot_holds(buildings: Seq<VillageBuilding>, slot_id: u8, name: BuildingName) -> bool {
    &&& 1 <= slot_id <= 40
    &&& spec_building_in_slot(buildings, slot_id) matches Some(b) && b.name == name
}

/// Checks that `slot_id` is a valid slot holding building `name`.
pub fn slot_holds_building(buildings: &Vec<VillageBuilding>, slot_id: u8, name: BuildingName) -> (r: bool)
    ensures
        r == spec_slot_holds(buildings@, slot_id, name),
{
    if !(1 <= slot_id && slot_id <= 40) {
        return false;
    }
    match building_in_slot(buildings, slot_id) {
        Some(b) => b.name == name,
        None => false,
    }
}

} // verus!
