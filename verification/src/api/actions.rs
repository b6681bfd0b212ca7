//! Rules of the command endpoints (build, train, research, marketplace,
//! troop movements, village founding): what each request must satisfy and
//! which game command it becomes.

use vstd::prelude::*;

use crate::errors::{is_api_error, ApiError, ApiErrorKind};
use crate::model::{
    building_in_slot, spec_building_in_slot, BuildingName, MapField, MapFieldTopology, Position, UnitRole,
    UnitStats, VillageBuilding, TROOP_SLOTS,
};
use crate::text::{chars_eq_ignore_ascii_case, chars_of, eq_ignore_ascii_case, spec_trim, trimmed_chars};

verus! {

/// Highest building slot id.
pub const MAX_SLOT_ID: u8 = 40;

/// Slot that holds the rally point.
pub const RALLY_POINT_SLOT: u8 = 39;

/// Generic success response for command endpoints.
#[derive(Debug, Clone, Copy)]
pub struct ActionResponse {
    pub success: bool,
}

/// Payload for upgrading a building by slot.
#[derive(Debug, Clone, Copy)]
pub struct UpgradeBuildingRequest {
    pub slot_id: u8,
}

/// Payload for downgrading a building by slot.
#[derive(Debug, Clone, Copy)]
pub struct DowngradeBuildingRequest {
    pub slot_id: u8,
}

/// Payload for the village rename action.
#[derive(Debug, Clone)]
pub struct RenameVillageRequest {
    pub village_id: u32,
    pub village_name: String,
}

/// Payload for unit training.
#[derive(Debug, Clone, Copy)]
pub struct TrainUnitsRequest {
    pub slot_id: u8,
    pub unit_idx: u8,
    pub quantity: i32,
    pub building_name: BuildingName,
}

/// Payload for a direct resource transfer via the marketplace.
#[derive(Debug, Clone, Copy)]
pub struct SendResourcesRequest {
    pub slot_id: u8,
    pub target_x: i32,
    pub target_y: i32,
    pub lumber: u32,
    pub clay: u32,
    pub iron: u32,
    pub crop: u32,
}

/// Payload for creating a marketplace offer.
#[derive(Debug, Clone, Copy)]
pub struct CreateOfferRequest {
    pub slot_id: u8,
    pub offer_lumber: u32,
    pub offer_clay: u32,
    pub offer_iron: u32,
    pub offer_crop: u32,
    pub seek_lumber: u32,
    pub seek_clay: u32,
    pub seek_iron: u32,
    pub seek_crop: u32,
}

/// Common payload for accepting or cancelling a marketplace offer.
#[derive(Debug, Clone, Copy)]
pub struct OfferActionRequest {
    pub slot_id: u8,
}

/// Kind of troop movement asked for.
#[derive(Debug, Clone, Copy, PartialEq, Eq, Structural)]
pub enum MovementKind {
    Attack,
    Raid,
    Reinforcement,
}

/// What a scout-only movement looks for.
#[derive(Debug, Clone, Copy, PartialEq, Eq, Structural)]
pub enum ScoutingTargetKind {
    Resources,
    Defenses,
}

/// A catapult target as sent by a client: a building name or free text.
#[derive(Debug, Clone)]
pub enum CatapultTargetInput {
    Building(BuildingName),
    Text(String),
}

/// Payload for troop movement commands.
#[derive(Debug, Clone)]
pub struct SendTroopsRequest {
    pub slot_id: u8,
    pub target_x: i32,
    pub target_y: i32,
    pub movement: MovementKind,
    pub units: Vec<i32>,
    pub hero_id: Option<u128>,
    pub scouting_target: Option<ScoutingTargetKind>,
    pub catapult_targets: Option<Vec<CatapultTargetInput>>,
}

/// Payload for building traps.
#[derive(Debug, Clone, Copy)]
pub struct BuildTrapsRequest {
    pub village_id: u32,
    pub quantity: u32,
}

/// Payload for sending settlers to found a village.
#[derive(Debug, Clone, Copy)]
pub struct FoundVillageRequest {
    pub target_x: i32,
    pub target_y: i32,
}

/// Payload for previewing a resource transfer.
#[derive(Debug, Clone, Copy)]
pub struct PreviewSendResourcesRequest {
    pub slot_id: u8,
    pub target_x: i32,
    pub target_y: i32,
    pub lumber: u32,
    pub clay: u32,
    pub iron: u32,
    pub crop: u32,
}

/// Payload for previewing a village founding.
#[derive(Debug, Clone, Copy)]
pub struct PreviewFoundVillageRequest {
    pub target_x: i32,
    pub target_y: i32,
}

/// How a previewed movement will be carried out.
#[derive(Debug, Clone, Copy, PartialEq, Eq, Structural)]
pub enum PreviewDetectedKind {
    AttackOrRaid,
    ScoutOnly,
    Reinforcement,
    FoundVillage,
}

/// Rejects slot ids outside `1..=40`.
pub fn ensure_slot(slot_id: u8) -> (r: Result<(), ApiError>)
    ensures
        r is Ok <==> 1 <= slot_id <= MAX_SLOT_ID,
        r matches Err(e) ==> is_api_error(e, ApiErrorKind::BadRequest, "Invalid building slot"@),
{
    if !(1 <= slot_id && slot_id <= MAX_SLOT_ID) {
        Err(ApiError::new(ApiErrorKind::BadRequest, "Invalid building slot"))
    } else {
        Ok(())
    }
}

/// Troops leave only from the rally point slot.
pub fn ensure_rally_point_slot(slot_id: u8) -> (r: Result<(), ApiError>)
    ensures
        r is Ok <==> slot_id == RALLY_POINT_SLOT,
        r matches Err(e) ==> is_api_error(
            e,
            ApiErrorKind::Unprocessable,
            "Troops can only be sent from the rally point slot"@,
        ),
{
    if slot_id != RALLY_POINT_SLOT {
        Err(ApiError::new(ApiErrorKind::Unprocessable, "Troops can only be sent from the rally point slot"))
    } else {
        Ok(())
    }
}

/// Checks that slot `slot_id` holds a building named `building_name`.
pub fn ensure_building_in_slot(
    buildings: &Vec<VillageBuilding>,
    slot_id: u8,
    building_name: BuildingName,
) -> (r: Result<(), ApiError>)
    ensures
        r is Ok <==> (spec_building_in_slot(buildings@, slot_id) matches Some(b) && b.name == building_name),
        spec_building_in_slot(buildings@, slot_id) is None ==> (r matches Err(e) && is_api_error(
            e,
            ApiErrorKind::BadRequest,
            "No building in the selected slot"@,
        )),
        spec_building_in_slot(buildings@, slot_id) matches Some(b) && b.name != building_name ==> (
        r matches Err(e) && is_api_error(e, ApiErrorKind::Unprocessable, "Selected building does not match slot"@)),
{
    let slot = match building_in_slot(buildings, slot_id) {
        Some(b) => b,
        None => return Err(ApiError::new(ApiErrorKind::BadRequest, "No building in the selected slot")),
    };
    if slot.name != building_name {
        return Err(ApiError::new(ApiErrorKind::Unprocessable, "Selected building does not match slot"));
    }
    Ok(())
}

/// The amount asked for unit `idx`: the value given, or zero past the end.
pub open spec fn requested_amount(values: Seq<i32>, idx: int) -> i32 {
    if idx < values.len() {
        values[idx]
    } else {
        0
    }
}

/// Some amount among the ten unit slots is negative.
pub open spec fn has_negative_amount(values: Seq<i32>) -> bool {
    exists|i: int| 0 <= i < TROOP_SLOTS && #[trigger] requested_amount(values, i) < 0
}

/// The troop set that the amounts describe (extra values are ignored, missing ones are zero).
pub open spec fn troop_set_of(values: Seq<i32>) -> Seq<u32> {
    Seq::new(TROOP_SLOTS as nat, |i: int| requested_amount(values, i) as u32)
}

/// Reads unit amounts into a troop set; negative amounts are refused.
pub fn parse_troop_set(values: &[i32]) -> (r: Result<Vec<u32>, ApiError>)
    ensures
        r is Ok <==> !has_negative_amount(values@),
        r matches Ok(t) ==> t@ == troop_set_of(values@),
        r matches Err(e) ==> is_api_error(e, ApiErrorKind::Unprocessable, "Unit amounts cannot be negative"@),
{
    let mut troops: Vec<u32> = Vec::new();
    let mut idx: usize = 0;
    while idx < TROOP_SLOTS
        invariant
            idx <= TROOP_SLOTS,
            troops@ =~= troop_set_of(values@).take(idx as int),
            forall|i: int| 0 <= i < idx ==> #[trigger] requested_amount(values@, i) >= 0,
        decreases TROOP_SLOTS - idx,
    {
        let amount: i32 = if idx < values.len() { values[idx] } else { 0 };
        if amount < 0 {
            assert(requested_amount(values@, idx as int) < 0);
            return Err(ApiError::new(ApiErrorKind::Unprocessable, "Unit amounts cannot be negative"));
        }
        troops.push(amount as u32);
        idx = idx + 1;
    }
    assert(troops@ =~= troop_set_of(values@));
    Ok(troops)
}

/// One catapult target of a request: a building, or `None` for a random
/// target when the text reads `random` in any case, once trimmed.
pub open spec fn spec_catapult_target(input: CatapultTargetInput) -> Option<Option<BuildingName>> {
    match input {
        CatapultTargetInput::Building(name) => Some(Some(name)),
        CatapultTargetInput::Text(t) => if eq_ignore_ascii_case(spec_trim(t@), "random"@) {
            Some(None)
        } else {
            None
        },
    }
}

fn parse_catapult_target(input: &CatapultTargetInput) -> (r: Result<Option<BuildingName>, ApiError>)
    ensures
        spec_catapult_target(*input) matches Some(t) ==> r == Ok::<Option<BuildingName>, ApiError>(t),
        spec_catapult_target(*input) is None ==> (r matches Err(e) && is_api_error(
            e,
            ApiErrorKind::Unprocessable,
            "catapultTargets entries must be a building name or 'random'"@,
        )),
{
    match input {
        CatapultTargetInput::Building(name) => Ok(Some(*name)),
        CatapultTargetInput::Text(value) => {
            let trimmed = trimmed_chars(value.as_str());
            let keyword = chars_of("random");
            if chars_eq_ignore_ascii_case(trimmed.as_slice(), keyword.as_slice()) {
                Ok(None)
            } else {
                Err(ApiError::new(
                    ApiErrorKind::Unprocessable,
                    "catapultTargets entries must be a building name or 'random'",
                ))
            }
        },
    }
}

/// The two catapult targets of an attack, or the message refusing the request:
/// main building and warehouse when none are given, one target used twice,
/// or the two given.
pub open spec fn spec_catapult_targets(targets: Option<Vec<CatapultTargetInput>>) -> Result<
    Seq<Option<BuildingName>>,
    Seq<char>,
> {
    match targets {
        None => Ok(seq![Some(BuildingName::MainBuilding), Some(BuildingName::Warehouse)]),
        Some(v) => if v@.len() == 1 {
            match spec_catapult_target(v@[0]) {
                Some(t) => Ok(seq![t, t]),
                None => Err("catapultTargets entries must be a building name or 'random'"@),
            }
        } else if v@.len() == 2 {
            match (spec_catapult_target(v@[0]), spec_catapult_target(v@[1])) {
                (Some(t0), Some(t1)) => Ok(seq![t0, t1]),
                _ => Err("catapultTargets entries must be a building name or 'random'"@),
            }
        } else {
            Err("catapultTargets must contain 1 or 2 entries"@)
        },
    }
}

/// Reads the catapult targets of an attack request.
pub fn parse_catapult_targets(targets: Option<Vec<CatapultTargetInput>>) -> (r: Result<
    [Option<BuildingName>; 2],
    ApiError,
>)
    ensures
        spec_catapult_targets(targets) matches Ok(ts) ==> (r matches Ok(a) && a@ == ts),
        spec_catapult_targets(targets) matches Err(m) ==> (r matches Err(e) && is_api_error(
            e,
            ApiErrorKind::Unprocessable,
            m,
        )),
{
    match targets {
        None => Ok([Some(BuildingName::MainBuilding), Some(BuildingName::Warehouse)]),
        Some(values) => {
            if values.len() == 1 {
                let first = parse_catapult_target(&values[0])?;
                Ok([first, first])
            } else if values.len() == 2 {
                let first = parse_catapult_target(&values[0])?;
                let second = parse_catapult_target(&values[1])?;
                Ok([first, second])
            } else {
                Err(ApiError::new(ApiErrorKind::Unprocessable, "catapultTargets must contain 1 or 2 entries"))
            }
        },
    }
}

/// Kinds of resources.
#[derive(Debug, Clone, Copy, PartialEq, Eq, Structural)]
pub enum ResourceKind {
    Lumber,
    Clay,
    Iron,
    Crop,
}

/// An amount of a single resource.
#[derive(Debug, Clone, Copy, PartialEq, Eq, Structural)]
pub struct ResourceQuantity {
    pub resource: ResourceKind,
    pub quantity: u64,
}

/// The single resource of an offer, when exactly one amount is non-zero.
pub open spec fn spec_resource_quantity(lumber: u32, clay: u32, iron: u32, crop: u32) -> Option<ResourceQuantity> {
    let n = (if lumber > 0 { 1int } else { 0int }) + (if clay > 0 { 1int } else { 0int }) + (if iron > 0 {
        1int
    } else {
        0int
    }) + (if crop > 0 { 1int } else { 0int });
    if n != 1 {
        None
    } else if lumber > 0 {
        Some(ResourceQuantity { resource: ResourceKind::Lumber, quantity: lumber as u64 })
    } else if clay > 0 {
        Some(ResourceQuantity { resource: ResourceKind::Clay, quantity: clay as u64 })
    } else if iron > 0 {
        Some(ResourceQuantity { resource: ResourceKind::Iron, quantity: iron as u64 })
    } else {
        Some(ResourceQuantity { resource: ResourceKind::Crop, quantity: crop as u64 })
    }
}

/// Marketplace offers carry exactly one non-zero resource amount.
pub fn parse_resource_quantity(lumber: u32, clay: u32, iron: u32, crop: u32) -> (r: Result<
    ResourceQuantity,
    ApiError,
>)
    ensures
        spec_resource_quantity(lumber, clay, iron, crop) matches Some(q) ==> r == Ok::<
            ResourceQuantity,
            ApiError,
        >(q),
        spec_resource_quantity(lumber, clay, iron, crop) is None ==> (r matches Err(e) && is_api_error(
            e,
            ApiErrorKind::Unprocessable,
            "Marketplace offers require exactly one non-zero resource type."@,
        )),
{
    let n: u8 = (if lumber > 0 { 1u8 } else { 0u8 }) + (if clay > 0 { 1u8 } else { 0u8 }) + (if iron > 0 {
        1u8
    } else {
        0u8
    }) + (if crop > 0 { 1u8 } else { 0u8 });
    if n != 1 {
        return Err(ApiError::new(
            ApiErrorKind::Unprocessable,
            "Marketplace offers require exactly one non-zero resource type.",
        ));
    }
    if lumber > 0 {
        Ok(ResourceQuantity { resource: ResourceKind::Lumber, quantity: lumber as u64 })
    } else if clay > 0 {
        Ok(ResourceQuantity { resource: ResourceKind::Clay, quantity: clay as u64 })
    } else if iron > 0 {
        Ok(ResourceQuantity { resource: ResourceKind::Iron, quantity: iron as u64 })
    } else {
        Ok(ResourceQuantity { resource: ResourceKind::Crop, quantity: crop as u64 })
    }
}

/// The first refusal among: slot out of range, then no building `name` in the slot.
pub open spec fn spec_building_at_error(buildings: Seq<VillageBuilding>, slot_id: u8, name: BuildingName) -> Option<
    (ApiErrorKind, Seq<char>),
> {
    if !(1 <= slot_id <= MAX_SLOT_ID) {
        Some((ApiErrorKind::BadRequest, "Invalid building slot"@))
    } else {
        match spec_building_in_slot(buildings, slot_id) {
            None => Some((ApiErrorKind::BadRequest, "No building in the selected slot"@)),
            Some(b) => if b.name != name {
                Some((ApiErrorKind::Unprocessable, "Selected building does not match slot"@))
            } else {
                None
            },
        }
    }
}

/// Checks that the slot is valid and holds a building `name` (the guard of the
/// academy, smithy and marketplace endpoints).
pub fn ensure_building_at(buildings: &Vec<VillageBuilding>, slot_id: u8, name: BuildingName) -> (r: Result<
    (),
    ApiError,
>)
    ensures
        spec_building_at_error(buildings@, slot_id, name) is None ==> r is Ok,
        spec_building_at_error(buildings@, slot_id, name) matches Some((k, m)) ==> (r matches Err(e)
            && is_api_error(e, k, m)),
{
    ensure_slot(slot_id)?;
    ensure_building_in_slot(buildings, slot_id, name)
}

/// Checks a training request: valid slot, positive quantity, and the named
/// building standing in the slot.
pub fn train_units(buildings: &Vec<VillageBuilding>, req: &TrainUnitsRequest) -> (r: Result<(), ApiError>)
    ensures
        !(1 <= req.slot_id <= MAX_SLOT_ID) ==> (r matches Err(e) && is_api_error(
            e,
            ApiErrorKind::BadRequest,
            "Invalid building slot"@,
        )),
        1 <= req.slot_id <= MAX_SLOT_ID && req.quantity <= 0 ==> (r matches Err(e) && is_api_error(
            e,
            ApiErrorKind::Unprocessable,
            "Training quantity must be greater than zero"@,
        )),
        req.quantity > 0 ==> (spec_building_at_error(buildings@, req.slot_id, req.building_name) matches Some(
            (k, m),
        ) ==> (r matches Err(e) && is_api_error(e, k, m))),
        req.quantity > 0 && spec_building_at_error(buildings@, req.slot_id, req.building_name) is None
            ==> r is Ok,
{
    ensure_slot(req.slot_id)?;
    if req.quantity <= 0 {
        return Err(ApiError::new(ApiErrorKind::Unprocessable, "Training quantity must be greater than zero"));
    }
    ensure_building_in_slot(buildings, req.slot_id, req.building_name)
}

/// Checks a marketplace offer: the marketplace slot, then exactly one
/// offered and exactly one sought resource.
pub fn create_marketplace_offer(buildings: &Vec<VillageBuilding>, req: &CreateOfferRequest) -> (r: Result<
    (ResourceQuantity, ResourceQuantity),
    ApiError,
>)
    ensures
        spec_building_at_error(buildings@, req.slot_id, BuildingName::Marketplace) matches Some((k, m))
            ==> (r matches Err(e) && is_api_error(e, k, m)),
        spec_building_at_error(buildings@, req.slot_id, BuildingName::Marketplace) is None ==> {
            let offer = spec_resource_quantity(req.offer_lumber, req.offer_clay, req.offer_iron, req.offer_crop);
            let seek = spec_resource_quantity(req.seek_lumber, req.seek_clay, req.seek_iron, req.seek_crop);
            &&& (offer matches Some(o) && seek matches Some(sk)) ==> r == Ok::<
                (ResourceQuantity, ResourceQuantity),
                ApiError,
            >((offer->0, seek->0))
            &&& (offer is None || seek is None) ==> (r matches Err(e) && is_api_error(
                e,
                ApiErrorKind::Unprocessable,
                "Marketplace offers require exactly one non-zero resource type."@,
            ))
        },
{
    ensure_building_at(buildings, req.slot_id, BuildingName::Marketplace)?;
    let offer = parse_resource_quantity(req.offer_lumber, req.offer_clay, req.offer_iron, req.offer_crop)?;
    let seek = parse_resource_quantity(req.seek_lumber, req.seek_clay, req.seek_iron, req.seek_crop)?;
    Ok((offer, seek))
}

/// Checks a resource transfer preview: the marketplace slot, then a non-zero total.
pub fn preview_send_resources(buildings: &Vec<VillageBuilding>, req: &PreviewSendResourcesRequest) -> (r: Result<
    (),
    ApiError,
>)
    requires
        req.lumber + req.clay + req.iron + req.crop <= u32::MAX,
    ensures
        spec_building_at_error(buildings@, req.slot_id, BuildingName::Marketplace) matches Some((k, m))
            ==> (r matches Err(e) && is_api_error(e, k, m)),
        spec_building_at_error(buildings@, req.slot_id, BuildingName::Marketplace) is None ==> (r is Ok
            <==> req.lumber + req.clay + req.iron + req.crop > 0),
        spec_building_at_error(buildings@, req.slot_id, BuildingName::Marketplace) is None && req.lumber
            + req.clay + req.iron + req.crop == 0 ==> (r matches Err(e) && is_api_error(
            e,
            ApiErrorKind::Unprocessable,
            "At least one resource amount must be greater than zero"@,
        )),
{
    ensure_building_at(buildings, req.slot_id, BuildingName::Marketplace)?;
    let total = req.lumber + req.clay + req.iron + req.crop;
    if total == 0 {
        return Err(ApiError::new(
            ApiErrorKind::Unprocessable,
            "At least one resource amount must be greater than zero",
        ));
    }
    Ok(())
}

/// Attack flavour of a hostile movement.
#[derive(Debug, Clone, Copy, PartialEq, Eq, Structural)]
pub enum AttackType {
    Normal,
    Raid,
}

/// What scouts report on.
#[derive(Debug, Clone, Copy, PartialEq, Eq, Structural)]
pub enum ScoutingTarget {
    Resources,
    Defenses,
}

/// The game command that an accepted troop movement request becomes.
#[derive(Debug, Clone, Copy, PartialEq, Eq, Structural)]
pub enum TroopCommand {
    Scout { attack_type: AttackType, target: ScoutingTarget },
    Attack {
        attack_type: AttackType,
        first_target: Option<BuildingName>,
        second_target: Option<BuildingName>,
    },
    Reinforce,
}

/// A troop movement accepted for dispatch.
#[derive(Debug, Clone)]
pub struct TroopOrder {
    pub units: Vec<u32>,
    pub hero_id: Option<u128>,
    pub command: TroopCommand,
}

/// No unit is asked for.
pub open spec fn all_zero(units: Seq<u32>) -> bool {
    forall|i: int| 0 <= i < units.len() ==> #[trigger] units[i] == 0
}

/// A raid stays a raid; anything else attacks normally.
pub open spec fn attack_type_of(movement: MovementKind) -> AttackType {
    match movement {
        MovementKind::Raid => AttackType::Raid,
        _ => AttackType::Normal,
    }
}

pub open spec fn scouting_target_of(kind: ScoutingTargetKind) -> ScoutingTarget {
    match kind {
        ScoutingTargetKind::Resources => ScoutingTarget::Resources,
        ScoutingTargetKind::Defenses => ScoutingTarget::Defenses,
    }
}

/// The command a troop movement request becomes, or the first refusal:
/// rally point slot, unit amounts, at least one unit or a hero, then the
/// scouting and catapult rules.
pub open spec fn spec_send_troops(buildings: Seq<VillageBuilding>, req: SendTroopsRequest) -> Result<
    TroopCommand,
    (ApiErrorKind, Seq<char>),
> {
    match spec_building_at_error(buildings, req.slot_id, BuildingName::RallyPoint) {
        Some(err) => Err(err),
        None => if req.slot_id != RALLY_POINT_SLOT {
            Err((ApiErrorKind::Unprocessable, "Troops can only be sent from the rally point slot"@))
        } else if has_negative_amount(req.units@) {
            Err((ApiErrorKind::Unprocessable, "Unit amounts cannot be negative"@))
        } else if all_zero(troop_set_of(req.units@)) && req.hero_id is None {
            Err((ApiErrorKind::Unprocessable, "At least one unit is required"@))
        } else {
            match req.scouting_target {
                Some(kind) => if req.hero_id is Some {
                    Err((ApiErrorKind::BadRequest, "Heroes cannot be sent with scout-only movements"@))
                } else if req.movement == MovementKind::Reinforcement {
                    Err((ApiErrorKind::BadRequest, "Scouting is only available for attack or raid movements"@))
                } else {
                    Ok(
                        TroopCommand::Scout {
                            attack_type: attack_type_of(req.movement),
                            target: scouting_target_of(kind),
                        },
                    )
                },
                None => if req.movement == MovementKind::Reinforcement {
                    Ok(TroopCommand::Reinforce)
                } else {
                    match spec_catapult_targets(req.catapult_targets) {
                        Ok(ts) => Ok(
                            TroopCommand::Attack {
                                attack_type: attack_type_of(req.movement),
                                first_target: ts[0],
                                second_target: ts[1],
                            },
                        ),
                        Err(m) => Err((ApiErrorKind::Unprocessable, m)),
                    }
                },
            }
        },
    }
}

fn is_all_zero(units: &Vec<u32>) -> (r: bool)
    ensures
        r == all_zero(units@),
{
    let mut i: usize = 0;
    while i < units.len()
        invariant
            i <= units.len(),
            forall|j: int| 0 <= j < i ==> #[trigger] units@[j] == 0,
        decreases units.len() - i,
    {
        if units[i] != 0 {
            return false;
        }
        i = i + 1;
    }
    true
}

/// Checks a troop movement request and decides the command it becomes:
/// a scouting run, an attack or raid with its catapult targets, or a
/// reinforcement.
pub fn send_troops(buildings: &Vec<VillageBuilding>, req: SendTroopsRequest) -> (r: Result<TroopOrder, ApiError>)
    ensures
        match spec_send_troops(buildings@, req) {
            Ok(c) => r matches Ok(o) && o.units@ == troop_set_of(req.units@) && o.hero_id == req.hero_id
                && o.command == c,
            Err((k, m)) => r matches Err(e) && is_api_error(e, k, m),
        },
{
    ensure_building_at(buildings, req.slot_id, BuildingName::RallyPoint)?;
    ensure_rally_point_slot(req.slot_id)?;
    let units = parse_troop_set(req.units.as_slice())?;
    if is_all_zero(&units) && req.hero_id.is_none() {
        return Err(ApiError::new(ApiErrorKind::Unprocessable, "At least one unit is required"));
    }
    let attack_type = match req.movement {
        MovementKind::Raid => AttackType::Raid,
        _ => AttackType::Normal,
    };
    if let Some(kind) = req.scouting_target {
        if req.hero_id.is_some() {
            return Err(ApiError::new(ApiErrorKind::BadRequest, "Heroes cannot be sent with scout-only movements"));
        }
        if req.movement == MovementKind::Reinforcement {
            return Err(ApiError::new(
                ApiErrorKind::BadRequest,
                "Scouting is only available for attack or raid movements",
            ));
        }
        let target = match kind {
            ScoutingTargetKind::Resources => ScoutingTarget::Resources,
            ScoutingTargetKind::Defenses => ScoutingTarget::Defenses,
        };
        return Ok(TroopOrder { units, hero_id: None, command: TroopCommand::Scout { attack_type, target } });
    }
    if req.movement == MovementKind::Reinforcement {
        return Ok(TroopOrder { units, hero_id: req.hero_id, command: TroopCommand::Reinforce });
    }
    let targets = parse_catapult_targets(req.catapult_targets)?;
    Ok(
        TroopOrder {
            units,
            hero_id: req.hero_id,
            command: TroopCommand::Attack {
                attack_type,
                first_target: targets[0],
                second_target: targets[1],
            },
        },
    )
}

/// Payload for previewing a troop movement.
#[derive(Debug, Clone)]
pub struct PreviewTroopsRequest {
    pub target_x: i32,
    pub target_y: i32,
    pub movement: MovementKind,
    pub units: Vec<i32>,
    pub hero_id: Option<u128>,
}

/// What a troop movement preview reports, beside its timing.
#[derive(Debug, Clone, Copy, PartialEq, Eq, Structural)]
pub struct TroopPreview {
    /// Speed of the slowest unit sent (the hero included), 1 when none.
    pub min_speed: u8,
    pub detected_kind: PreviewDetectedKind,
    pub supports_scouting_target_choice: bool,
    pub has_catapult_units: bool,
}

/// The slowest speed among the first `n` unit types asked for, if any is.
pub open spec fn min_unit_speed(units: Seq<u32>, stats: Seq<UnitStats>, n: nat) -> Option<u8>
    decreases n,
{
    if n == 0 {
        None
    } else {
        let before = min_unit_speed(units, stats, (n - 1) as nat);
        if units[n - 1] > 0 {
            let s = stats[n - 1].speed;
            match before {
                Some(b) => Some(if s < b { s } else { b }),
                None => Some(s),
            }
        } else {
            before
        }
    }
}

/// The speed of a movement: the slowest of the units and the hero sent, 1 when neither.
pub open spec fn movement_speed(units: Seq<u32>, stats: Seq<UnitStats>, hero_speed: Option<u8>) -> u8 {
    match (min_unit_speed(units, stats, TROOP_SLOTS as nat), hero_speed) {
        (Some(u), Some(h)) => if h < u {
            h
        } else {
            u
        },
        (Some(u), None) => u,
        (None, Some(h)) => h,
        (None, None) => 1,
    }
}

/// Only scouts are sent, without a hero.
pub open spec fn is_scout_only(units: Seq<u32>, stats: Seq<UnitStats>, hero_id: Option<u128>) -> bool {
    &&& hero_id is None
    &&& exists|i: int| 0 <= i < TROOP_SLOTS && #[trigger] units[i] > 0
    &&& forall|i: int| 0 <= i < TROOP_SLOTS && #[trigger] units[i] > 0 ==> stats[i].role == UnitRole::Scout
}

/// Some catapult is sent.
pub open spec fn sends_catapults(units: Seq<u32>, stats: Seq<UnitStats>) -> bool {
    exists|i: int| 0 <= i < TROOP_SLOTS && #[trigger] units[i] > 0 && stats[i].role == UnitRole::Cata
}

/// The preview of a troop movement, given the tribe's unit figures and the
/// player's hero as loaded (its id and speed), or the first refusal.
pub open spec fn spec_preview_troops(req: PreviewTroopsRequest, stats: Seq<UnitStats>, hero: Option<(u128, u8)>) -> Result<
    TroopPreview,
    (ApiErrorKind, Seq<char>),
> {
    let units = troop_set_of(req.units@);
    if has_negative_amount(req.units@) {
        Err((ApiErrorKind::Unprocessable, "Unit amounts cannot be negative"@))
    } else if all_zero(units) && req.hero_id is None {
        Err((ApiErrorKind::Unprocessable, "At least one unit is required"@))
    } else if req.hero_id matches Some(h) && !(hero matches Some((id, _)) && id == h) {
        Err((ApiErrorKind::NotFound, "Hero not found"@))
    } else {
        let hero_speed = match (req.hero_id, hero) {
            (Some(_), Some((_, speed))) => Some(speed),
            _ => None,
        };
        let scout_only = is_scout_only(units, stats, req.hero_id);
        Ok(
            TroopPreview {
                min_speed: movement_speed(units, stats, hero_speed),
                detected_kind: if req.movement == MovementKind::Reinforcement {
                    PreviewDetectedKind::Reinforcement
                } else if scout_only {
                    PreviewDetectedKind::ScoutOnly
                } else {
                    PreviewDetectedKind::AttackOrRaid
                },
                supports_scouting_target_choice: scout_only,
                has_catapult_units: sends_catapults(units, stats),
            },
        )
    }
}

/// The slowest speed among the first `n` unit types is no greater than the
/// speed of any of them asked for, and is the speed of one of them; there is
/// none when none is asked for.
proof fn lemma_min_unit_speed_is_slowest(units: Seq<u32>, stats: Seq<UnitStats>, n: nat)
    requires
        n <= units.len(),
        n <= stats.len(),
    ensures
        match min_unit_speed(units, stats, n) {
            Some(m) => {
                &&& forall|i: int| 0 <= i < n && #[trigger] units[i] > 0 ==> m <= stats[i].speed
                &&& exists|i: int| 0 <= i < n && #[trigger] units[i] > 0 && m == stats[i].speed
            },
            None => forall|i: int| 0 <= i < n ==> #[trigger] units[i] == 0,
        },
    decreases n,
{
    if n > 0 {
        lemma_min_unit_speed_is_slowest(units, stats, (n - 1) as nat);
        let last = n - 1;
        match min_unit_speed(units, stats, (n - 1) as nat) {
            Some(b) => {
                let w = choose|i: int| 0 <= i < n - 1 && #[trigger] units[i] > 0 && b == stats[i].speed;
                if units[last] > 0 {
                    if stats[last].speed < b {
                        assert(units[last] > 0);
                    } else {
                        assert(units[w] > 0);
                    }
                } else {
                    assert(units[w] > 0);
                }
            },
            None => {
                if units[last] > 0 {
                    assert(units[last] > 0);
                }
            },
        }
    }
}

/// A movement goes at the pace of its slowest member: the speed a preview
/// reports is no greater than the speed of any unit type sent and, when a
/// hero goes along, no greater than the hero's speed; and it is the speed of
/// one of them.
pub proof fn lemma_preview_speed_is_slowest_member(
    req: PreviewTroopsRequest,
    stats: Seq<UnitStats>,
    hero: Option<(u128, u8)>,
)
    requires
        stats.len() == TROOP_SLOTS,
    ensures
        spec_preview_troops(req, stats, hero) matches Ok(p) ==> {
            let units = troop_set_of(req.units@);
            &&& forall|i: int| 0 <= i < TROOP_SLOTS && #[trigger] units[i] > 0 ==> p.min_speed <= stats[i].speed
            &&& req.hero_id is Some ==> (hero matches Some((_, h)) && p.min_speed <= h)
            &&& (exists|i: int| 0 <= i < TROOP_SLOTS && #[trigger] units[i] > 0 && p.min_speed == stats[i].speed)
                || (req.hero_id is Some && (hero matches Some((_, h)) && p.min_speed == h))
        },
{
    let units = troop_set_of(req.units@);
    lemma_min_unit_speed_is_slowest(units, stats, TROOP_SLOTS as nat);
    if spec_preview_troops(req, stats, hero) is Ok && min_unit_speed(units, stats, TROOP_SLOTS as nat) is None {
        assert(all_zero(units));
    }
}

struct SelectionSummary {
    min_speed: Option<u8>,
    any_selected: bool,
    all_scouts: bool,
    any_catapult: bool,
}

fn summarize_selection(units: &Vec<u32>, stats: &Vec<UnitStats>) -> (r: SelectionSummary)
    requires
        units.len() == TROOP_SLOTS,
        stats.len() == TROOP_SLOTS,
    ensures
        r.min_speed == min_unit_speed(units@, stats@, TROOP_SLOTS as nat),
        r.any_selected == exists|i: int| 0 <= i < TROOP_SLOTS && #[trigger] units@[i] > 0,
        r.all_scouts == forall|i: int|
            0 <= i < TROOP_SLOTS && #[trigger] units@[i] > 0 ==> stats@[i].role == UnitRole::Scout,
        r.any_catapult == exists|i: int|
            0 <= i < TROOP_SLOTS && #[trigger] units@[i] > 0 && stats@[i].role == UnitRole::Cata,
{
    let mut min_speed: Option<u8> = None;
    let mut any_selected = false;
    let mut all_scouts = true;
    let mut any_catapult = false;
    let mut i: usize = 0;
    while i < TROOP_SLOTS
        invariant
            i <= TROOP_SLOTS,
            units.len() == TROOP_SLOTS,
            stats.len() == TROOP_SLOTS,
            min_speed == min_unit_speed(units@, stats@, i as nat),
            any_selected == exists|j: int| 0 <= j < i && #[trigger] units@[j] > 0,
            all_scouts == forall|j: int| 0 <= j < i && #[trigger] units@[j] > 0 ==> stats@[j].role == UnitRole::Scout,
            any_catapult == exists|j: int| 0 <= j < i && #[trigger] units@[j] > 0 && stats@[j].role == UnitRole::Cata,
        decreases TROOP_SLOTS - i,
    {
        if units[i] > 0 {
            let s = stats[i].speed;
            min_speed = match min_speed {
                Some(b) => Some(if s < b { s } else { b }),
                None => Some(s),
            };
            any_selected = true;
            if stats[i].role != UnitRole::Scout {
                all_scouts = false;
            }
            if stats[i].role == UnitRole::Cata {
                any_catapult = true;
            }
        }
        i = i + 1;
    }
    SelectionSummary { min_speed, any_selected, all_scouts, any_catapult }
}

/// Previews a troop movement: checks the units asked for and the hero, then
/// reports the movement's speed, how it will be carried out, and whether it
/// carries catapults. `stats` are the figures of the tribe's unit types and
/// `hero` the player's hero as loaded (id and speed), if there is one.
pub fn preview_troops(req: &PreviewTroopsRequest, stats: &Vec<UnitStats>, hero: Option<(u128, u8)>) -> (r: Result<
    TroopPreview,
    ApiError,
>)
    requires
        stats.len() == TROOP_SLOTS,
    ensures
        match spec_preview_troops(*req, stats@, hero) {
            Ok(p) => r == Ok::<TroopPreview, ApiError>(p),
            Err((k, m)) => r matches Err(e) && is_api_error(e, k, m),
        },
{
    let units = parse_troop_set(req.units.as_slice())?;
    if is_all_zero(&units) && req.hero_id.is_none() {
        return Err(ApiError::new(ApiErrorKind::Unprocessable, "At least one unit is required"));
    }
    let hero_speed: Option<u8> = match req.hero_id {
        Some(wanted) => match hero {
            Some((id, speed)) => {
                if id != wanted {
                    return Err(ApiError::new(ApiErrorKind::NotFound, "Hero not found"));
                }
                Some(speed)
            },
            None => return Err(ApiError::new(ApiErrorKind::NotFound, "Hero not found")),
        },
        None => None,
    };
    let summary = summarize_selection(&units, stats);
    let min_speed: u8 = match (summary.min_speed, hero_speed) {
        (Some(u), Some(h)) => if h < u {
            h
        } else {
            u
        },
        (Some(u), None) => u,
        (None, Some(h)) => h,
        (None, None) => 1,
    };
    let scout_only = req.hero_id.is_none() && summary.any_selected && summary.all_scouts;
    let detected_kind = if req.movement == MovementKind::Reinforcement {
        PreviewDetectedKind::Reinforcement
    } else if scout_only {
        PreviewDetectedKind::ScoutOnly
    } else {
        PreviewDetectedKind::AttackOrRaid
    };
    Ok(
        TroopPreview {
            min_speed,
            detected_kind,
            supports_scouting_target_choice: scout_only,
            has_catapult_units: summary.any_catapult,
        },
    )
}

/// Index of the settler among a tribe's unit types.
pub const SETTLER_SLOT: usize = 9;

/// A field where a village can be founded: a valley that no village and no
/// player holds.
pub open spec fn is_empty_valley(field: MapField) -> bool {
    &&& field.village_id is None
    &&& field.player_id is None
    &&& field.topology is Valley
}

/// Speed of the tribe's settlers, 1 when the tribe has none.
pub open spec fn settler_speed(stats: Seq<UnitStats>) -> u8 {
    if SETTLER_SLOT < stats.len() {
        stats[SETTLER_SLOT as int].speed
    } else {
        1
    }
}

/// Previews sending settlers to `field`: refused unless the field is an
/// empty valley; the movement goes at settler speed.
pub fn preview_found_village(field: &MapField, stats: &Vec<UnitStats>) -> (r: Result<TroopPreview, ApiError>)
    ensures
        r is Ok <==> is_empty_valley(*field),
        r matches Ok(p) ==> p == (TroopPreview {
            min_speed: settler_speed(stats@),
            detected_kind: PreviewDetectedKind::FoundVillage,
            supports_scouting_target_choice: false,
            has_catapult_units: false,
        }),
        r matches Err(e) ==> is_api_error(e, ApiErrorKind::Unprocessable, "Target field is not available"@),
{
    let is_valley = match field.topology {
        MapFieldTopology::Valley(_) => true,
        MapFieldTopology::Oasis(_) => false,
    };
    if !(field.village_id.is_none() && field.player_id.is_none() && is_valley) {
        return Err(ApiError::new(ApiErrorKind::Unprocessable, "Target field is not available"));
    }
    let speed: u8 = if SETTLER_SLOT < stats.len() {
        stats[SETTLER_SLOT].speed
    } else {
        1
    };
    Ok(
        TroopPreview {
            min_speed: speed,
            detected_kind: PreviewDetectedKind::FoundVillage,
            supports_scouting_target_choice: false,
            has_catapult_units: false,
        },
    )
}

/// Name given to a village founded by `username`: `"<username>'s Village"`.
pub fn founded_village_name(username: &str) -> (name: String)
    ensures
        name@ == username@ + "'s Village"@,
{
    let mut name = String::from_str(username);
    name.append("'s Village");
    name
}

/// Seconds until a previewed movement arrives: its travel time, and at least one.
pub fn arrival_delay_secs(travel_time_secs: u32) -> (secs: u32)
    ensures
        secs == if travel_time_secs < 1 { 1 } else { travel_time_secs },
{
    if travel_time_secs < 1 {
        1
    } else {
        travel_time_secs
    }
}

/// The strength a hero gains per point: the best of the attack and the two
/// defences of the tribe's top unit, or 0 when the tribe has none.
pub open spec fn spec_strength_per_point(top_unit: Option<UnitStats>) -> u32 {
    match top_unit {
        Some(u) => {
            let best_defence = if u.defense_infantry >= u.defense_cavalry {
                u.defense_infantry
            } else {
                u.defense_cavalry
            };
            if u.attack >= best_defence {
                u.attack
            } else {
                best_defence
            }
        },
        None => 0,
    }
}

/// Works out the strength a hero gains per point.
pub fn strength_per_point(top_unit: Option<UnitStats>) -> (r: u32)
    ensures
        r == spec_strength_per_point(top_unit),
        top_unit matches Some(u) ==> r >= u.attack && r >= u.defense_infantry && r >= u.defense_cavalry,
{
    match top_unit {
        Some(u) => {
            let best_defence = if u.defense_infantry >= u.defense_cavalry {
                u.defense_infantry
            } else {
                u.defense_cavalry
            };
            if u.attack >= best_defence {
                u.attack
            } else {
                best_defence
            }
        },
        None => 0,
    }
}

} // verus!
