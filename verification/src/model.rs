//! Plain-value model of the game entities that the web layer reads.

use vstd::prelude::*;

use crate::text::str_eq;

verus! {

/// Building kinds that the web layer names.
#[derive(Clone, Copy, Debug, PartialEq, Eq, Structural, Hash)]
pub enum BuildingName {
    Woodcutter,
    ClayPit,
    IronMine,
    Cropland,
    Sawmill,
    Brickyard,
    IronFoundry,
    GrainMill,
    Bakery,
    Warehouse,
    Granary,
    GreatWarehouse,
    GreatGranary,
    Smithy,
    TournamentSquare,
    MainBuilding,
    RallyPoint,
    Marketplace,
    Embassy,
    Barracks,
    Stable,
    Workshop,
    GreatBarracks,
    GreatStable,
    GreatWorkshop,
    Academy,
    Cranny,
    TownHall,
    Residence,
    Palace,
    Treasury,
    TradeOffice,
    CityWall,
    EarthWall,
    Palisade,
    Trapper,
}

/// The key under which a building is exposed to clients (its variant name).
pub open spec fn spec_building_key(name: BuildingName) -> Seq<char> {
    match name {
        BuildingName::Woodcutter => "Woodcutter"@,
        BuildingName::ClayPit => "ClayPit"@,
        BuildingName::IronMine => "IronMine"@,
        BuildingName::Cropland => "Cropland"@,
        BuildingName::Sawmill => "Sawmill"@,
        BuildingName::Brickyard => "Brickyard"@,
        BuildingName::IronFoundry => "IronFoundry"@,
        BuildingName::GrainMill => "GrainMill"@,
        BuildingName::Bakery => "Bakery"@,
        BuildingName::Warehouse => "Warehouse"@,
        BuildingName::Granary => "Granary"@,
        BuildingName::GreatWarehouse => "GreatWarehouse"@,
        BuildingName::GreatGranary => "GreatGranary"@,
        BuildingName::Smithy => "Smithy"@,
        BuildingName::TournamentSquare => "TournamentSquare"@,
        BuildingName::MainBuilding => "MainBuilding"@,
        BuildingName::RallyPoint => "RallyPoint"@,
        BuildingName::Marketplace => "Marketplace"@,
        BuildingName::Embassy => "Embassy"@,
        BuildingName::Barracks => "Barracks"@,
        BuildingName::Stable => "Stable"@,
        BuildingName::Workshop => "Workshop"@,
        BuildingName::GreatBarracks => "GreatBarracks"@,
        BuildingName::GreatStable => "GreatStable"@,
        BuildingName::GreatWorkshop => "GreatWorkshop"@,
        BuildingName::Academy => "Academy"@,
        BuildingName::Cranny => "Cranny"@,
        BuildingName::TownHall => "TownHall"@,
        BuildingName::Residence => "Residence"@,
        BuildingName::Palace => "Palace"@,
        BuildingName::Treasury => "Treasury"@,
        BuildingName::TradeOffice => "TradeOffice"@,
        BuildingName::CityWall => "CityWall"@,
        BuildingName::EarthWall => "EarthWall"@,
        BuildingName::Palisade => "Palisade"@,
        BuildingName::Trapper => "Trapper"@,
    }
}

/// Returns the client-facing key of a building (its variant name).
pub fn building_key(name: BuildingName) -> (key: String)
    ensures
        key@ == spec_building_key(name),
{
    match name {
        BuildingName::Woodcutter => String::from_str("Woodcutter"),
        BuildingName::ClayPit => String::from_str("ClayPit"),
        BuildingName::IronMine => String::from_str("IronMine"),
        BuildingName::Cropland => String::from_str("Cropland"),
        BuildingName::Sawmill => String::from_str("Sawmill"),
        BuildingName::Brickyard => String::from_str("Brickyard"),
        BuildingName::IronFoundry => String::from_str("IronFoundry"),
        BuildingName::GrainMill => String::from_str("GrainMill"),
        BuildingName::Bakery => String::from_str("Bakery"),
        BuildingName::Warehouse => String::from_str("Warehouse"),
        BuildingName::Granary => String::from_str("Granary"),
        BuildingName::GreatWarehouse => String::from_str("GreatWarehouse"),
        BuildingName::GreatGranary => String::from_str("GreatGranary"),
        BuildingName::Smithy => String::from_str("Smithy"),
        BuildingName::TournamentSquare => String::from_str("TournamentSquare"),
        BuildingName::MainBuilding => String::from_str("MainBuilding"),
        BuildingName::RallyPoint => String::from_str("RallyPoint"),
        BuildingName::Marketplace => String::from_str("Marketplace"),
        BuildingName::Embassy => String::from_str("Embassy"),
        BuildingName::Barracks => String::from_str("Barracks"),
        BuildingName::Stable => String::from_str("Stable"),
        BuildingName::Workshop => String::from_str("Workshop"),
        BuildingName::GreatBarracks => String::from_str("GreatBarracks"),
        BuildingName::GreatStable => String::from_str("GreatStable"),
        BuildingName::GreatWorkshop => String::from_str("GreatWorkshop"),
        BuildingName::Academy => String::from_str("Academy"),
        BuildingName::Cranny => String::from_str("Cranny"),
        BuildingName::TownHall => String::from_str("TownHall"),
        BuildingName::Residence => String::from_str("Residence"),
        BuildingName::Palace => String::from_str("Palace"),
        BuildingName::Treasury => String::from_str("Treasury"),
        BuildingName::TradeOffice => String::from_str("TradeOffice"),
        BuildingName::CityWall => String::from_str("CityWall"),
        BuildingName::EarthWall => String::from_str("EarthWall"),
        BuildingName::Palisade => String::from_str("Palisade"),
        BuildingName::Trapper => String::from_str("Trapper"),
    }
}

/// The building named by a form value, among the names that the rally point
/// accepts as catapult targets.
pub open spec fn spec_parse_building_name(s: Seq<char>) -> Option<BuildingName> {
    if s == "Woodcutter"@ {
        Some(BuildingName::Woodcutter)
    } else if s == "ClayPit"@ {
        Some(BuildingName::ClayPit)
    } else if s == "IronMine"@ {
        Some(BuildingName::IronMine)
    } else if s == "Cropland"@ {
        Some(BuildingName::Cropland)
    } else if s == "Sawmill"@ {
        Some(BuildingName::Sawmill)
    } else if s == "Brickyard"@ {
        Some(BuildingName::Brickyard)
    } else if s == "IronFoundry"@ {
        Some(BuildingName::IronFoundry)
    } else if s == "GrainMill"@ {
        Some(BuildingName::GrainMill)
    } else if s == "Bakery"@ {
        Some(BuildingName::Bakery)
    } else if s == "Warehouse"@ {
        Some(BuildingName::Warehouse)
    } else if s == "Granary"@ {
        Some(BuildingName::Granary)
    } else if s == "Smithy"@ {
        Some(BuildingName::Smithy)
    } else if s == "TournamentSquare"@ {
        Some(BuildingName::TournamentSquare)
    } else if s == "MainBuilding"@ {
        Some(BuildingName::MainBuilding)
    } else if s == "RallyPoint"@ {
        Some(BuildingName::RallyPoint)
    } else if s == "Marketplace"@ {
        Some(BuildingName::Marketplace)
    } else if s == "Embassy"@ {
        Some(BuildingName::Embassy)
    } else if s == "Barracks"@ {
        Some(BuildingName::Barracks)
    } else if s == "Stable"@ {
        Some(BuildingName::Stable)
    } else if s == "Workshop"@ {
        Some(BuildingName::Workshop)
    } else if s == "Academy"@ {
        Some(BuildingName::Academy)
    } else if s == "Cranny"@ {
        Some(BuildingName::Cranny)
    } else if s == "TownHall"@ {
        Some(BuildingName::TownHall)
    } else if s == "Residence"@ {
        Some(BuildingName::Residence)
    } else if s == "Palace"@ {
        Some(BuildingName::Palace)
    } else if s == "Treasury"@ {
        Some(BuildingName::Treasury)
    } else if s == "TradeOffice"@ {
        Some(BuildingName::TradeOffice)
    } else if s == "GreatBarracks"@ {
        Some(BuildingName::GreatBarracks)
    } else if s == "GreatStable"@ {
        Some(BuildingName::GreatStable)
    } else {
        None
    }
}

/// Parses a building name exactly as written in a form field.
pub fn parse_building_name(s: &str) -> (r: Option<BuildingName>)
    ensures
        r == spec_parse_building_name(s@),
{
    if str_eq(s, "Woodcutter") {
        Some(BuildingName::Woodcutter)
    } else if str_eq(s, "ClayPit") {
        Some(BuildingName::ClayPit)
    } else if str_eq(s, "IronMine") {
        Some(BuildingName::IronMine)
    } else if str_eq(s, "Cropland") {
        Some(BuildingName::Cropland)
    } else if str_eq(s, "Sawmill") {
        Some(BuildingName::Sawmill)
    } else if str_eq(s, "Brickyard") {
        Some(BuildingName::Brickyard)
    } else if str_eq(s, "IronFoundry") {
        Some(BuildingName::IronFoundry)
    } else if str_eq(s, "GrainMill") {
        Some(BuildingName::GrainMill)
    } else if str_eq(s, "Bakery") {
        Some(BuildingName::Bakery)
    } else if str_eq(s, "Warehouse") {
        Some(BuildingName::Warehouse)
    } else if str_eq(s, "Granary") {
        Some(BuildingName::Granary)
    } else if str_eq(s, "Smithy") {
        Some(BuildingName::Smithy)
    } else if str_eq(s, "TournamentSquare") {
        Some(BuildingName::TournamentSquare)
    } else if str_eq(s, "MainBuilding") {
        Some(BuildingName::MainBuilding)
    } else if str_eq(s, "RallyPoint") {
        Some(BuildingName::RallyPoint)
    } else if str_eq(s, "Marketplace") {
        Some(BuildingName::Marketplace)
    } else if str_eq(s, "Embassy") {
        Some(BuildingName::Embassy)
    } else if str_eq(s, "Barracks") {
        Some(BuildingName::Barracks)
    } else if str_eq(s, "Stable") {
        Some(BuildingName::Stable)
    } else if str_eq(s, "Workshop") {
        Some(BuildingName::Workshop)
    } else if str_eq(s, "Academy") {
        Some(BuildingName::Academy)
    } else if str_eq(s, "Cranny") {
        Some(BuildingName::Cranny)
    } else if str_eq(s, "TownHall") {
        Some(BuildingName::TownHall)
    } else if str_eq(s, "Residence") {
        Some(BuildingName::Residence)
    } else if str_eq(s, "Palace") {
        Some(BuildingName::Palace)
    } else if str_eq(s, "Treasury") {
        Some(BuildingName::Treasury)
    } else if str_eq(s, "TradeOffice") {
        Some(BuildingName::TradeOffice)
    } else if str_eq(s, "GreatBarracks") {
        Some(BuildingName::GreatBarracks)
    } else if str_eq(s, "GreatStable") {
        Some(BuildingName::GreatStable)
    } else {
        None
    }
}

/// Whether the rally point accepts this building as a catapult target name.
pub open spec fn is_catapult_target_name(name: BuildingName) -> bool {
    !(name == BuildingName::GreatWarehouse || name == BuildingName::GreatGranary || name == BuildingName::GreatWorkshop || name == BuildingName::CityWall || name == BuildingName::EarthWall || name == BuildingName::Palisade || name == BuildingName::Trapper)
}

/// Every building key that the rally point accepts parses back to its building,
/// and the other keys are refused.
pub proof fn lemma_parse_building_key(name: BuildingName)
    ensures
        is_catapult_target_name(name) ==> spec_parse_building_name(spec_building_key(name)) == Some(name),
        !is_catapult_target_name(name) ==> spec_parse_building_name(spec_building_key(name)) is None,
{
    reveal_strlit("Woodcutter");
    assert("Woodcutter"@.len() == 10 && "Woodcutter"@[0] == 'W' && "Woodcutter"@[9] == 'r');
    reveal_strlit("ClayPit");
    assert("ClayPit"@.len() == 7 && "ClayPit"@[0] == 'C' && "ClayPit"@[6] == 't');
    reveal_strlit("IronMine");
    assert("IronMine"@.len() == 8 && "IronMine"@[0] == 'I' && "IronMine"@[7] == 'e');
    reveal_strlit("Cropland");
    assert("Cropland"@.len() == 8 && "Cropland"@[0] == 'C' && "Cropland"@[7] == 'd');
    reveal_strlit("Sawmill");
    assert("Sawmill"@.len() == 7 && "Sawmill"@[0] == 'S' && "Sawmill"@[6] == 'l');
    reveal_strlit("Brickyard");
    assert("Brickyard"@.len() == 9 && "Brickyard"@[0] == 'B' && "Brickyard"@[8] == 'd');
    reveal_strlit("IronFoundry");
    assert("IronFoundry"@.len() == 11 && "IronFoundry"@[0] == 'I' && "IronFoundry"@[10] == 'y');
    reveal_strlit("GrainMill");
    assert("GrainMill"@.len() == 9 && "GrainMill"@[0] == 'G' && "GrainMill"@[8] == 'l');
    reveal_strlit("Bakery");
    assert("Bakery"@.len() == 6 && "Bakery"@[0] == 'B' && "Bakery"@[5] == 'y');
    reveal_strlit("Warehouse");
    assert("Warehouse"@.len() == 9 && "Warehouse"@[0] == 'W' && "Warehouse"@[8] == 'e');
    reveal_strlit("Granary");
    assert("Granary"@.len() == 7 && "Granary"@[0] == 'G' && "Granary"@[6] == 'y');
    reveal_strlit("GreatWarehouse");
    assert("GreatWarehouse"@.len() == 14 && "GreatWarehouse"@[0] == 'G' && "GreatWarehouse"@[13] == 'e');
    reveal_strlit("GreatGranary");
    assert("GreatGranary"@.len() == 12 && "GreatGranary"@[0] == 'G' && "GreatGranary"@[11] == 'y');
    reveal_strlit("Smithy");
    assert("Smithy"@.len() == 6 && "Smithy"@[0] == 'S' && "Smithy"@[5] == 'y');
    reveal_strlit("TournamentSquare");
    assert("TournamentSquare"@.len() == 16 && "TournamentSquare"@[0] == 'T' && "TournamentSquare"@[15] == 'e');
    reveal_strlit("MainBuilding");
    assert("MainBuilding"@.len() == 12 && "MainBuilding"@[0] == 'M' && "MainBuilding"@[11] == 'g');
    reveal_strlit("RallyPoint");
    assert("RallyPoint"@.len() == 10 && "RallyPoint"@[0] == 'R' && "RallyPoint"@[9] == 't');
    reveal_strlit("Marketplace");
    assert("Marketplace"@.len() == 11 && "Marketplace"@[0] == 'M' && "Marketplace"@[10] == 'e');
    reveal_strlit("Embassy");
    assert("Embassy"@.len() == 7 && "Embassy"@[0] == 'E' && "Embassy"@[6] == 'y');
    reveal_strlit("Barracks");
    assert("Barracks"@.len() == 8 && "Barracks"@[0] == 'B' && "Barracks"@[7] == 's');
    reveal_strlit("Stable");
    assert("Stable"@.len() == 6 && "Stable"@[0] == 'S' && "Stable"@[5] == 'e');
    reveal_strlit("Workshop");
    assert("Workshop"@.len() == 8 && "Workshop"@[0] == 'W' && "Workshop"@[7] == 'p');
    reveal_strlit("GreatBarracks");
    assert("GreatBarracks"@.len() == 13 && "GreatBarracks"@[0] == 'G' && "GreatBarracks"@[12] == 's');
    reveal_strlit("GreatStable");
    assert("GreatStable"@.len() == 11 && "GreatStable"@[0] == 'G' && "GreatStable"@[10] == 'e');
    reveal_strlit("GreatWorkshop");
    assert("GreatWorkshop"@.len() == 13 && "GreatWorkshop"@[0] == 'G' && "GreatWorkshop"@[12] == 'p');
    reveal_strlit("Academy");
    assert("Academy"@.len() == 7 && "Academy"@[0] == 'A' && "Academy"@[6] == 'y');
    reveal_strlit("Cranny");
    assert("Cranny"@.len() == 6 && "Cranny"@[0] == 'C' && "Cranny"@[5] == 'y');
    reveal_strlit("TownHall");
    assert("TownHall"@.len() == 8 && "TownHall"@[0] == 'T' && "TownHall"@[7] == 'l');
    reveal_strlit("Residence");
    assert("Residence"@.len() == 9 && "Residence"@[0] == 'R' && "Residence"@[8] == 'e');
    reveal_strlit("Palace");
    assert("Palace"@.len() == 6 && "Palace"@[0] == 'P' && "Palace"@[5] == 'e');
    reveal_strlit("Treasury");
    assert("Treasury"@.len() == 8 && "Treasury"@[0] == 'T' && "Treasury"@[7] == 'y');
    reveal_strlit("TradeOffice");
    assert("TradeOffice"@.len() == 11 && "TradeOffice"@[0] == 'T' && "TradeOffice"@[10] == 'e');
    reveal_strlit("CityWall");
    assert("CityWall"@.len() == 8 && "CityWall"@[0] == 'C' && "CityWall"@[7] == 'l');
    reveal_strlit("EarthWall");
    assert("EarthWall"@.len() == 9 && "EarthWall"@[0] == 'E' && "EarthWall"@[8] == 'l');
    reveal_strlit("Palisade");
    assert("Palisade"@.len() == 8 && "Palisade"@[0] == 'P' && "Palisade"@[7] == 'e');
    reveal_strlit("Trapper");
    assert("Trapper"@.len() == 7 && "Trapper"@[0] == 'T' && "Trapper"@[6] == 'r');
    match name {
        BuildingName::Woodcutter => {}
        BuildingName::ClayPit => {}
        BuildingName::IronMine => {}
        BuildingName::Cropland => {}
        BuildingName::Sawmill => {}
        BuildingName::Brickyard => {}
        BuildingName::IronFoundry => {}
        BuildingName::GrainMill => {}
        BuildingName::Bakery => {}
        BuildingName::Warehouse => {}
        BuildingName::Granary => {}
        BuildingName::GreatWarehouse => {}
        BuildingName::GreatGranary => {}
        BuildingName::Smithy => {}
        BuildingName::TournamentSquare => {}
        BuildingName::MainBuilding => {}
        BuildingName::RallyPoint => {}
        BuildingName::Marketplace => {}
        BuildingName::Embassy => {}
        BuildingName::Barracks => {}
        BuildingName::Stable => {}
        BuildingName::Workshop => {}
        BuildingName::GreatBarracks => {}
        BuildingName::GreatStable => {}
        BuildingName::GreatWorkshop => {}
        BuildingName::Academy => {}
        BuildingName::Cranny => {}
        BuildingName::TownHall => {}
        BuildingName::Residence => {}
        BuildingName::Palace => {}
        BuildingName::Treasury => {}
        BuildingName::TradeOffice => {}
        BuildingName::CityWall => {}
        BuildingName::EarthWall => {}
        BuildingName::Palisade => {}
        BuildingName::Trapper => {}
    }
}

/// Playable tribes.
#[derive(Clone, Copy, Debug, PartialEq, Eq, Structural, Hash)]
pub enum Tribe {
    Roman,
    Gaul,
    Teuton,
}

/// The name under which a tribe is shown to clients (its variant name).
pub open spec fn spec_tribe_key(t: Tribe) -> Seq<char> {
    match t {
        Tribe::Roman => "Roman"@,
        Tribe::Gaul => "Gaul"@,
        Tribe::Teuton => "Teuton"@,
    }
}

/// Returns the client-facing name of a tribe.
pub fn tribe_key(t: Tribe) -> (s: String)
    ensures
        s@ == spec_tribe_key(t),
{
    match t {
        Tribe::Roman => String::from_str("Roman"),
        Tribe::Gaul => String::from_str("Gaul"),
        Tribe::Teuton => String::from_str("Teuton"),
    }
}

/// Quadrant of the map in which a new player starts.
#[derive(Clone, Copy, Debug, PartialEq, Eq, Structural)]
pub enum MapQuadrant {
    NorthEast,
    NorthWest,
    SouthEast,
    SouthWest,
}

/// The name of a map quadrant, as the sign-up form and the API write it.
pub open spec fn spec_quadrant_key(q: MapQuadrant) -> Seq<char> {
    match q {
        MapQuadrant::NorthEast => "NorthEast"@,
        MapQuadrant::NorthWest => "NorthWest"@,
        MapQuadrant::SouthEast => "SouthEast"@,
        MapQuadrant::SouthWest => "SouthWest"@,
    }
}

/// A point of the world map.
#[derive(Clone, Copy, Debug, PartialEq, Eq, Structural)]
pub struct Position {
    pub x: i32,
    pub y: i32,
}

/// A building standing in a village slot.
#[derive(Clone, Copy, Debug, PartialEq, Eq, Structural)]
pub struct VillageBuilding {
    pub slot_id: u8,
    pub name: BuildingName,
    pub level: u8,
}

/// Hourly production of a village; crop is net of upkeep and may be negative.
#[derive(Clone, Copy, Debug, PartialEq, Eq, Structural)]
pub struct ProductionRates {
    pub lumber: u32,
    pub clay: u32,
    pub iron: u32,
    pub crop: i64,
}

/// What the web layer reads of a village.
#[derive(Clone, Debug)]
pub struct Village {
    pub id: u32,
    pub player_id: u128,
    pub name: String,
    pub position: Position,
    pub is_capital: bool,
    pub parent_village_id: Option<u32>,
    pub tribe: Tribe,
    pub buildings: Vec<VillageBuilding>,
    pub population: u32,
    pub loyalty: u8,
    pub warehouse_capacity: u32,
    pub granary_capacity: u32,
    pub stocks: ResourceGroup,
    pub production: ProductionRates,
}

/// A player of the game.
#[derive(Clone, Debug)]
pub struct Player {
    pub id: u128,
    pub username: String,
    pub tribe: Tribe,
}

/// The account a player signs in with.
#[derive(Clone, Debug)]
pub struct Account {
    pub id: u128,
    pub email: String,
}

/// The signed-in user of a request: account, player, current village and
/// all villages of the player.
#[derive(Clone, Debug)]
pub struct CurrentUser {
    pub account: Account,
    pub player: Player,
    pub village: Village,
    pub villages: Vec<Village>,
}

/// Index of the first building of `buildings` in slot `slot_id`, if any.
pub open spec fn first_in_slot(buildings: Seq<VillageBuilding>, slot_id: u8) -> Option<int>
    decreases buildings.len(),
{
    if buildings.len() == 0 {
        None
    } else if buildings[0].slot_id == slot_id {
        Some(0)
    } else {
        match first_in_slot(buildings.drop_first(), slot_id) {
            Some(i) => Some(i + 1),
            None => None,
        }
    }
}

/// The building in slot `slot_id` (the first one listed, as a lookup finds it).
pub open spec fn spec_building_in_slot(buildings: Seq<VillageBuilding>, slot_id: u8) -> Option<VillageBuilding> {
    match first_in_slot(buildings, slot_id) {
        Some(i) => Some(buildings[i]),
        None => None,
    }
}

proof fn lemma_first_in_slot(buildings: Seq<VillageBuilding>, slot_id: u8)
    ensures
        first_in_slot(buildings, slot_id) matches Some(i) ==> 0 <= i < buildings.len()
            && buildings[i].slot_id == slot_id
            && forall|k: int| 0 <= k < i ==> buildings[k].slot_id != slot_id,
        first_in_slot(buildings, slot_id) is None ==> forall|k: int|
            0 <= k < buildings.len() ==> buildings[k].slot_id != slot_id,
    decreases buildings.len(),
{
    if buildings.len() > 0 {
        let tail = buildings.drop_first();
        lemma_first_in_slot(tail, slot_id);
        assert forall|k: int| 1 <= k < buildings.len() implies buildings[k] == tail[k - 1] by {}
        if buildings[0].slot_id != slot_id {
            if let Some(i) = first_in_slot(tail, slot_id) {
                assert forall|k: int| 0 <= k < i + 1 implies buildings[k].slot_id != slot_id by {
                    if k > 0 {
                        assert(buildings[k] == tail[k - 1]);
                    }
                }
            } else {
                assert forall|k: int| 0 <= k < buildings.len() implies buildings[k].slot_id != slot_id by {
                    if k > 0 {
                        assert(buildings[k] == tail[k - 1]);
                    }
                }
            }
        }
    }
}

/// Finds the building in a slot (`get_building_by_slot_id`).
pub fn building_in_slot(buildings: &Vec<VillageBuilding>, slot_id: u8) -> (r: Option<VillageBuilding>)
    ensures
        r == spec_building_in_slot(buildings@, slot_id),
{
    let mut i: usize = 0;
    while i < buildings.len()
        invariant
            i <= buildings.len(),
            forall|k: int| 0 <= k < i ==> buildings@[k].slot_id != slot_id,
        decreases buildings.len() - i,
    {
        if buildings[i].slot_id == slot_id {
            proof {
                lemma_first_in_slot(buildings@, slot_id);
                if let Some(j) = first_in_slot(buildings@, slot_id) {
                    assert(j == i);
                }
            }
            return Some(buildings[i]);
        }
        i = i + 1;
    }
    proof {
        lemma_first_in_slot(buildings@, slot_id);
    }
    None
}

/// Role of a unit type, as far as the web layer tells roles apart.
#[derive(Clone, Copy, Debug, PartialEq, Eq, Structural)]
pub enum UnitRole {
    Scout,
    Cata,
    Chief,
    Settler,
    Other,
}

/// Combat and movement figures of a unit type of a tribe.
#[derive(Clone, Copy, Debug, PartialEq, Eq, Structural)]
pub struct UnitStats {
    pub role: UnitRole,
    pub speed: u8,
    pub attack: u32,
    pub defense_infantry: u32,
    pub defense_cavalry: u32,
    pub upkeep: u32,
}

/// Number of unit types of a tribe (and of slots in a troop set).
pub const TROOP_SLOTS: usize = 10;

/// Kind of oasis, by the resource bonus it gives.
#[derive(Clone, Copy, Debug, PartialEq, Eq, Structural)]
pub enum OasisTopology {
    Lumber,
    LumberCrop,
    Clay,
    ClayCrop,
    Iron,
    IronCrop,
    Crop,
    Crop50,
}

/// Number of lumber, clay, iron and crop fields of a valley.
#[derive(Clone, Copy, Debug, PartialEq, Eq, Structural)]
pub struct ValleyTopology {
    pub lumber: u8,
    pub clay: u8,
    pub iron: u8,
    pub crop: u8,
}

/// What lies on a map field.
#[derive(Clone, Copy, Debug, PartialEq, Eq, Structural)]
pub enum MapFieldTopology {
    Oasis(OasisTopology),
    Valley(ValleyTopology),
}

/// A field of the world map.
#[derive(Clone, Copy, Debug, PartialEq, Eq, Structural)]
pub struct MapField {
    pub id: u32,
    pub position: Position,
    pub village_id: Option<u32>,
    pub player_id: Option<u128>,
    pub topology: MapFieldTopology,
}

/// Amounts of the four resources.
#[derive(Clone, Copy, Debug, PartialEq, Eq, Structural)]
pub struct ResourceGroup {
    pub lumber: u32,
    pub clay: u32,
    pub iron: u32,
    pub crop: u32,
}

/// `stock` covers `cost` in every resource.
pub open spec fn covers(stock: ResourceGroup, cost: ResourceGroup) -> bool {
    &&& stock.lumber >= cost.lumber
    &&& stock.clay >= cost.clay
    &&& stock.iron >= cost.iron
    &&& stock.crop >= cost.crop
}

/// Whether `stock` covers `cost` in every resource.
pub fn has_enough_resources(stock: &ResourceGroup, cost: &ResourceGroup) -> (r: bool)
    ensures
        r == covers(*stock, *cost),
{
    stock.lumber >= cost.lumber && stock.clay >= cost.clay && stock.iron >= cost.iron && stock.crop >= cost.crop
}

/// `i` is the index of the first building named `name`.
pub open spec fn is_first_named(buildings: Seq<VillageBuilding>, name: BuildingName, i: int) -> bool {
    &&& 0 <= i < buildings.len()
    &&& buildings[i].name == name
    &&& forall|j: int| 0 <= j < i ==> #[trigger] buildings[j].name != name
}

/// Some building is named `name`.
pub open spec fn has_building_named(buildings: Seq<VillageBuilding>, name: BuildingName) -> bool {
    exists|i: int| 0 <= i < buildings.len() && #[trigger] buildings[i].name == name
}

/// The first building named `name`, if the village has one.
pub fn building_by_name(buildings: &Vec<VillageBuilding>, name: BuildingName) -> (r: Option<VillageBuilding>)
    ensures
        r is None <==> !has_building_named(buildings@, name),
        r matches Some(b) ==> exists|i: int| is_first_named(buildings@, name, i) && b == #[trigger] buildings@[i],
{
    let mut i: usize = 0;
    while i < buildings.len()
        invariant
            i <= buildings.len(),
            forall|j: int| 0 <= j < i ==> #[trigger] buildings@[j].name != name,
        decreases buildings.len() - i,
    {
        if buildings[i].name == name {
            assert(is_first_named(buildings@, name, i as int));
            return Some(buildings[i]);
        }
        i = i + 1;
    }
    None
}

/// Kind of a troop movement.
#[derive(Clone, Copy, Debug, PartialEq, Eq, Structural)]
pub enum TroopMovementType {
    Attack,
    Raid,
    Scout,
    Reinforcement,
    Return,
    FoundVillage,
}

/// The name of a movement type, in snake case.
pub open spec fn spec_troop_movement_type_key(t: TroopMovementType) -> Seq<char> {
    match t {
        TroopMovementType::Attack => "attack"@,
        TroopMovementType::Raid => "raid"@,
        TroopMovementType::Scout => "scout"@,
        TroopMovementType::Reinforcement => "reinforcement"@,
        TroopMovementType::Return => "return"@,
        TroopMovementType::FoundVillage => "found_village"@,
    }
}

/// A troop movement to or from a village.
#[derive(Clone, Debug)]
pub struct TroopMovement {
    pub job_id: u128,
    pub movement_type: TroopMovementType,
    pub origin_player_id: u128,
    pub origin_village_id: u32,
    pub origin_village_name: Option<String>,
    pub origin_position: Position,
    pub target_village_id: u32,
    pub target_village_name: Option<String>,
    pub target_position: Position,
    /// Units moving, by the index of the unit type in the tribe.
    pub units: Vec<u32>,
    pub has_hero: bool,
    pub tribe: Tribe,
    /// Arrival time, unix seconds.
    pub arrives_at: i64,
    pub bounty: Option<ResourceGroup>,
}

/// The count of unit type `idx` in a troop list, zero past its end.
pub open spec fn unit_count(units: Seq<u32>, idx: int) -> u32 {
    if 0 <= idx < units.len() {
        units[idx]
    } else {
        0
    }
}

/// Reads the count of unit type `idx`.
pub fn get_unit_count(units: &Vec<u32>, idx: usize) -> (r: u32)
    ensures
        r == unit_count(units@, idx as int),
{
    if idx < units.len() {
        units[idx]
    } else {
        0
    }
}

/// A unit type of a tribe, with what the pages show of it.
#[derive(Clone, Debug)]
pub struct TribeUnit {
    /// The unit's name as clients know it.
    pub name: String,
    pub stats: UnitStats,
    pub cost: ResourceGroup,
    pub capacity: u32,
    /// Research time at the academy; 0 for units known from the start.
    pub research_time: u32,
    pub research_cost: ResourceGroup,
    /// Buildings, with their levels, that the research needs.
    pub requirements: Vec<(BuildingName, u8)>,
}

} // verus!
