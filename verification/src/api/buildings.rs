//! Rules of the building detail page: the kind of page a slot shows, the
//! next level an upgrade reaches, what the main building may downgrade,
//! which buildings an empty slot offers, and what blocks them.

use vstd::prelude::*;

use crate::api::dto::{
    remaining_seconds, BuildingQueueItem, BuildingWorkflowKind, ResourceAmountsDto, ScheduledActionStatus,
};
use crate::errors::{is_api_error, ApiError, ApiErrorKind};
use crate::ids::{spec_uuid_hyphenated, uuid_to_string};
use crate::model::{
    building_key, get_unit_count, spec_building_key, unit_count, BuildingName, ResourceGroup, TroopMovement, Tribe,
    VillageBuilding,
};

verus! {

/// Highest level a smithy upgrade reaches.
pub const SMITHY_LEVEL_CAP: u8 = 20;

/// Main building level from which buildings may be downgraded.
pub const DOWNGRADE_MAIN_BUILDING_LEVEL: u8 = 10;

/// Jobs the academy, the smithy and the downgrade queue each hold.
pub const SMALL_QUEUE_CAPACITY: usize = 2;

/// Kind of page a building slot shows.
#[derive(Debug, Clone, Copy, PartialEq, Eq, Structural)]
pub enum BuildingTypeDto {
    Empty,
    Generic,
    Training,
    Expansion,
    Academy,
    Smithy,
    Marketplace,
    RallyPoint,
}

/// Culture points and foundation slots shown at a residence or palace.
#[derive(Debug, Clone, Copy, PartialEq, Eq, Structural)]
pub struct ExpansionDetailDto {
    pub loyalty: u8,
    pub village_culture_points_production: u32,
    pub account_culture_points_production: u32,
    pub account_culture_points: u32,
    pub next_cp_required: u32,
    pub max_foundation_slots: u8,
    pub child_villages_count: u32,
}

/// A building requirement that the village does not meet yet.
#[derive(Debug, Clone)]
pub struct RequirementDto {
    pub building_name: String,
    pub required_level: u8,
}

/// A building that an empty slot offers.
#[derive(Debug, Clone)]
pub struct BuildOptionDto {
    pub building_name: String,
    pub cost: ResourceAmountsDto,
    pub next_upkeep: u32,
    pub upkeep: u32,
    pub time_secs: u32,
    pub missing_requirements: Vec<RequirementDto>,
}

/// Preview of the next upgrade of a building queued on an empty slot.
#[derive(Debug, Clone)]
pub struct QueuedUpgradePreviewDto {
    pub building_name: String,
    pub current_level: u8,
    pub next_level: u8,
    pub current_upkeep: u32,
    pub next_upkeep: u32,
    pub time_secs: u32,
    pub at_max_level: bool,
    pub current_value: Option<u32>,
    pub next_value: Option<u32>,
    pub cost: ResourceAmountsDto,
}

/// What an empty slot shows.
#[derive(Debug, Clone)]
pub struct EmptySlotDetailDto {
    pub buildable_buildings: Vec<BuildOptionDto>,
    pub locked_buildings: Vec<BuildOptionDto>,
    pub has_queue_for_slot: bool,
    pub queued_building_name: Option<String>,
    pub queued_target_level: Option<u8>,
    pub queued_next_level: Option<u8>,
    pub queued_can_upgrade: Option<bool>,
    pub queued_upgrade_preview: Option<QueuedUpgradePreviewDto>,
}

/// A unit that a training building offers.
#[derive(Debug, Clone)]
pub struct TrainingUnitOptionDto {
    pub unit_idx: u8,
    pub name: String,
    pub max_trainable: Option<u32>,
    pub cost: ResourceAmountsDto,
    pub upkeep: u32,
    pub attack: u32,
    pub defense_infantry: u32,
    pub defense_cavalry: u32,
    pub speed: u8,
    pub capacity: u32,
    pub time_secs: u32,
}

/// A unit that the academy can research.
#[derive(Debug, Clone)]
pub struct AcademyResearchOptionDto {
    pub unit_name: String,
    pub cost: ResourceAmountsDto,
    pub time_secs: u32,
    pub missing_requirements: Vec<RequirementDto>,
}

/// A unit whose equipment the smithy can improve.
#[derive(Debug, Clone)]
pub struct SmithyUpgradeOptionDto {
    pub unit_name: String,
    pub current_level: u8,
    pub next_level: u8,
    pub max_level: u8,
    pub cost: ResourceAmountsDto,
    pub time_secs: u32,
    pub can_upgrade: bool,
}

/// A point of the map.
#[derive(Debug, Clone, Copy, PartialEq, Eq, Structural)]
pub struct PositionDto {
    pub x: i32,
    pub y: i32,
}

/// A marketplace offer.
#[derive(Debug, Clone)]
pub struct MarketplaceOfferDto {
    pub offer_id: String,
    pub village_id: u32,
    pub village_name: String,
    pub position: PositionDto,
    pub distance: u32,
    pub travel_time_seconds: u32,
    pub offer_resources: ResourceAmountsDto,
    pub seek_resources: ResourceAmountsDto,
    pub merchants_required: u8,
    pub created_at: i64,
}

/// Whether merchants leave the village or come to it.
#[derive(Debug, Clone, Copy, PartialEq, Eq, Structural)]
pub enum MerchantMovementDirectionDto {
    Outgoing,
    Incoming,
}

/// Whether merchants carry goods or come back.
#[derive(Debug, Clone, Copy, PartialEq, Eq, Structural)]
pub enum MerchantMovementKindDto {
    Going,
    Return,
}

/// A building that the main building may take down one level.
#[derive(Debug, Clone)]
pub struct BuildingDowngradeOptionDto {
    pub slot_id: u8,
    pub building_name: String,
    pub current_level: u8,
    pub next_level: u8,
}

/// Category of a rally point card.
#[derive(Debug, Clone, Copy, PartialEq, Eq, Structural)]
pub enum RallyCardCategoryDto {
    Stationed,
    Reinforcement,
    Deployed,
    Trapped,
    Incoming,
    Outgoing,
}

/// Kind of a troop movement shown on a rally point card.
#[derive(Debug, Clone, Copy, PartialEq, Eq, Structural)]
pub enum RallyMovementKindDto {
    Attack,
    Raid,
    Scout,
    Reinforcement,
    Return,
    FoundVillage,
}

/// The name under which clients receive a card's movement kind.
pub open spec fn spec_rally_movement_kind_key(k: RallyMovementKindDto) -> Seq<char> {
    match k {
        RallyMovementKindDto::Attack => "attack"@,
        RallyMovementKindDto::Raid => "raid"@,
        RallyMovementKindDto::Scout => "scout"@,
        RallyMovementKindDto::Reinforcement => "reinforcement"@,
        RallyMovementKindDto::Return => "return"@,
        RallyMovementKindDto::FoundVillage => "found_village"@,
    }
}

/// Action offered on a rally point card.
#[derive(Debug, Clone, Copy, PartialEq, Eq, Structural)]
pub enum RallyActionDto {
    Recall,
    Release,
    Cancel,
    ReleaseTrapped,
    DisbandTrapped,
}

/// A unit type that can be sent from the rally point.
#[derive(Debug, Clone)]
pub struct RallySendableUnitDto {
    pub unit_idx: usize,
    pub name: String,
    pub available: u32,
    pub is_researched: bool,
}

/// The page a building shows, by its name.
pub open spec fn spec_building_type(name: BuildingName) -> BuildingTypeDto {
    match name {
        BuildingName::Barracks | BuildingName::GreatBarracks | BuildingName::Stable | BuildingName::GreatStable
        | BuildingName::Workshop | BuildingName::GreatWorkshop => BuildingTypeDto::Training,
        BuildingName::Residence | BuildingName::Palace => BuildingTypeDto::Expansion,
        BuildingName::Academy => BuildingTypeDto::Academy,
        BuildingName::Smithy => BuildingTypeDto::Smithy,
        BuildingName::Marketplace => BuildingTypeDto::Marketplace,
        BuildingName::RallyPoint => BuildingTypeDto::RallyPoint,
        _ => BuildingTypeDto::Generic,
    }
}

/// Returns the kind of page a building shows.
pub fn building_type_of(name: BuildingName) -> (t: BuildingTypeDto)
    ensures
        t == spec_building_type(name),
{
    match name {
        BuildingName::Barracks | BuildingName::GreatBarracks | BuildingName::Stable | BuildingName::GreatStable
        | BuildingName::Workshop | BuildingName::GreatWorkshop => BuildingTypeDto::Training,
        BuildingName::Residence | BuildingName::Palace => BuildingTypeDto::Expansion,
        BuildingName::Academy => BuildingTypeDto::Academy,
        BuildingName::Smithy => BuildingTypeDto::Smithy,
        BuildingName::Marketplace => BuildingTypeDto::Marketplace,
        BuildingName::RallyPoint => BuildingTypeDto::RallyPoint,
        _ => BuildingTypeDto::Generic,
    }
}

/// The detail page exists for slots `1..=40` only; any other slot is not found.
pub fn ensure_detail_slot(slot_id: u8) -> (r: Result<(), ApiError>)
    ensures
        r is Ok <==> 1 <= slot_id <= 40,
        r matches Err(e) ==> is_api_error(e, ApiErrorKind::NotFound, "Building slot not found"@),
{
    if 1 <= slot_id && slot_id <= 40 {
        Ok(())
    } else {
        Err(ApiError::new(ApiErrorKind::NotFound, "Building slot not found"))
    }
}

/// Building jobs a village may queue at once: three for Romans, two otherwise.
pub open spec fn spec_building_queue_capacity(tribe: Tribe) -> usize {
    if tribe == Tribe::Roman {
        3
    } else {
        2
    }
}

/// Returns how many building jobs a tribe may queue at once.
pub fn building_queue_capacity(tribe: Tribe) -> (n: usize)
    ensures
        n == spec_building_queue_capacity(tribe),
{
    match tribe {
        Tribe::Roman => 3,
        _ => 2,
    }
}

/// A building's value (production, capacity, bonus) when it has one.
pub open spec fn spec_optional_value(value: u32) -> Option<u32> {
    if value == 0 {
        None
    } else {
        Some(value)
    }
}

/// Returns a building's value, `None` when it is zero.
pub fn optional_value(value: u32) -> (r: Option<u32>)
    ensures
        r == spec_optional_value(value),
{
    if value == 0 {
        None
    } else {
        Some(value)
    }
}

/// A queued job that raises the building in slot `slot_id`.
pub open spec fn is_queued_raise(item: BuildingQueueItem, slot_id: u8) -> bool {
    item.slot_id == slot_id && (item.kind == BuildingWorkflowKind::Add || item.kind
        == BuildingWorkflowKind::Upgrade)
}

/// Jobs among the first `n` that raise slot `slot_id`.
pub open spec fn count_queued_raises(queue: Seq<BuildingQueueItem>, slot_id: u8, n: nat) -> nat
    decreases n,
{
    if n == 0 {
        0
    } else {
        count_queued_raises(queue, slot_id, (n - 1) as nat) + if is_queued_raise(queue[n - 1], slot_id) {
            1nat
        } else {
            0nat
        }
    }
}

/// A downgrade of slot `slot_id` is queued.
pub open spec fn has_queued_downgrade(queue: Seq<BuildingQueueItem>, slot_id: u8) -> bool {
    exists|i: int|
        0 <= i < queue.len() && #[trigger] queue[i].slot_id == slot_id && queue[i].kind
            == BuildingWorkflowKind::Downgrade
}

/// Where the upgrade of a built slot stands.
#[derive(Debug, Clone, Copy, PartialEq, Eq, Structural)]
pub struct UpgradePlan {
    /// Raises of the slot already queued (as a byte).
    pub queued_upgrades: u8,
    /// No further job can be queued for the slot.
    pub queue_full: bool,
    /// The level the slot reaches once the queue is done.
    pub pending_level: u8,
    /// The pending level is the building's highest.
    pub at_max_level: bool,
    /// The level the next upgrade reaches.
    pub next_level: u8,
}

pub open spec fn saturating_add_u8(a: u8, b: u8) -> u8 {
    if a + b > u8::MAX {
        u8::MAX
    } else {
        (a + b) as u8
    }
}

/// The upgrade plan of a built slot: its queued raises count on top of the
/// current level; the queue is full when the village queue is, or when the
/// slot has a downgrade queued; the next level never passes the highest
/// level (the current one when the building's data is unknown).
pub open spec fn spec_upgrade_plan(
    slot_id: u8,
    current_level: u8,
    max_level: Option<u8>,
    queue: Seq<BuildingQueueItem>,
    tribe: Tribe,
) -> UpgradePlan {
    let raises = (count_queued_raises(queue, slot_id, queue.len()) % 256) as u8;
    let max = match max_level {
        Some(m) => m,
        None => current_level,
    };
    let pending = saturating_add_u8(current_level, raises);
    let after = saturating_add_u8(pending, 1);
    UpgradePlan {
        queued_upgrades: raises,
        queue_full: queue.len() >= spec_building_queue_capacity(tribe) || has_queued_downgrade(queue, slot_id),
        pending_level: pending,
        at_max_level: pending >= max,
        next_level: if after < max {
            after
        } else {
            max
        },
    }
}

/// Works out where the upgrade of the building in `slot_id` stands.
pub fn upgrade_plan(
    slot_id: u8,
    current_level: u8,
    max_level: Option<u8>,
    queue: &Vec<BuildingQueueItem>,
    tribe: Tribe,
) -> (r: UpgradePlan)
    ensures
        r == spec_upgrade_plan(slot_id, current_level, max_level, queue@, tribe),
{
    let mut raises: usize = 0;
    let mut downgrade = false;
    let mut i: usize = 0;
    while i < queue.len()
        invariant
            i <= queue@.len(),
            raises == count_queued_raises(queue@, slot_id, i as nat),
            raises <= i,
            downgrade == exists|j: int|
                0 <= j < i && #[trigger] queue@[j].slot_id == slot_id && queue@[j].kind
                    == BuildingWorkflowKind::Downgrade,
        decreases queue.len() - i,
    {
        let item = queue[i];
        if item.slot_id == slot_id && (item.kind == BuildingWorkflowKind::Add || item.kind
            == BuildingWorkflowKind::Upgrade) {
            raises = raises + 1;
        }
        if item.slot_id == slot_id && item.kind == BuildingWorkflowKind::Downgrade {
            downgrade = true;
        }
        i = i + 1;
    }
    let raises_byte: u8 = (raises % 256) as u8;
    let max: u8 = match max_level {
        Some(m) => m,
        None => current_level,
    };
    let pending = current_level.saturating_add(raises_byte);
    let after = pending.saturating_add(1);
    UpgradePlan {
        queued_upgrades: raises_byte,
        queue_full: queue.len() >= building_queue_capacity(tribe) || downgrade,
        pending_level: pending,
        at_max_level: pending >= max,
        next_level: if after < max {
            after
        } else {
            max
        },
    }
}

/// Counting raises one job at a time is counting the jobs that `pred` keeps,
/// when `pred` picks the raises of `slot_id`.
proof fn lemma_count_queued_raises_is_filter(
    queue: Seq<BuildingQueueItem>,
    slot_id: u8,
    n: nat,
    pred: spec_fn(BuildingQueueItem) -> bool,
)
    requires
        n <= queue.len(),
        forall|item: BuildingQueueItem| #[trigger] pred(item) == is_queued_raise(item, slot_id),
    ensures
        count_queued_raises(queue, slot_id, n) == queue.take(n as int).filter(pred).len(),
    decreases n,
{
    if n == 0 {
        assert(queue.take(0) =~= Seq::<BuildingQueueItem>::empty());
        reveal(Seq::filter);
    } else {
        lemma_count_queued_raises_is_filter(queue, slot_id, (n - 1) as nat, pred);
        assert(queue.take(n as int) =~= queue.take(n - 1).push(queue[n - 1]));
        queue.take(n - 1).lemma_filter_len_push(pred, queue[n - 1]);
    }
}

/// Only the raises queued for the slot itself count: the queued upgrades of
/// a slot's plan are the number of queue jobs that add or upgrade the
/// building in that very slot (as a byte), and the pending level is the
/// current level raised by that many (saturating).
pub proof fn lemma_upgrade_plan_counts_own_raises(
    slot_id: u8,
    current_level: u8,
    max_level: Option<u8>,
    queue: Seq<BuildingQueueItem>,
    tribe: Tribe,
)
    ensures
        ({
            let own = queue.filter(
                |item: BuildingQueueItem|
                    item.slot_id == slot_id && (item.kind == BuildingWorkflowKind::Add || item.kind
                        == BuildingWorkflowKind::Upgrade),
            ).len();
            let plan = spec_upgrade_plan(slot_id, current_level, max_level, queue, tribe);
            &&& plan.queued_upgrades == (own % 256) as u8
            &&& plan.pending_level == if current_level + own % 256 > u8::MAX {
                u8::MAX as int
            } else {
                current_level + own % 256
            }
        }),
{
    let pred = |item: BuildingQueueItem|
        item.slot_id == slot_id && (item.kind == BuildingWorkflowKind::Add || item.kind
            == BuildingWorkflowKind::Upgrade);
    lemma_count_queued_raises_is_filter(queue, slot_id, queue.len(), pred);
    assert(queue.take(queue.len() as int) =~= queue);
}

/// The levels of a plan: the pending level never falls below the current
/// one; the next level is one above the pending level while that is below
/// the building's highest level (the current level when unknown), and the
/// highest level otherwise, so it never passes it; the plan is at the highest
/// level exactly when the pending level has reached it. The queue counts as
/// full when the village queue is, or when a downgrade of the slot waits, and
/// only then.
pub proof fn lemma_upgrade_plan_levels(
    slot_id: u8,
    current_level: u8,
    max_level: Option<u8>,
    queue: Seq<BuildingQueueItem>,
    tribe: Tribe,
)
    ensures
        ({
            let plan = spec_upgrade_plan(slot_id, current_level, max_level, queue, tribe);
            let max = match max_level {
                Some(m) => m,
                None => current_level,
            };
            &&& plan.pending_level >= current_level
            &&& plan.next_level <= max
            &&& plan.pending_level < max ==> plan.next_level == plan.pending_level + 1
            &&& plan.pending_level >= max ==> plan.next_level == max
            &&& plan.at_max_level <==> plan.pending_level >= max
            &&& plan.queue_full <==> (queue.len() >= spec_building_queue_capacity(tribe) || exists|i: int|
                0 <= i < queue.len() && #[trigger] queue[i].slot_id == slot_id && queue[i].kind
                    == BuildingWorkflowKind::Downgrade)
        }),
{
}

/// A job queued for another slot leaves a slot's plan as it was: the queued
/// raises, the pending level, whether that is the highest level, and the next
/// level are the same with or without it (only whether the queue is full may
/// change, and only from not full to full).
pub proof fn lemma_upgrade_plan_ignores_other_slots(
    slot_id: u8,
    current_level: u8,
    max_level: Option<u8>,
    queue: Seq<BuildingQueueItem>,
    other: BuildingQueueItem,
    tribe: Tribe,
)
    requires
        other.slot_id != slot_id,
    ensures
        ({
            let before = spec_upgrade_plan(slot_id, current_level, max_level, queue, tribe);
            let after = spec_upgrade_plan(slot_id, current_level, max_level, queue.push(other), tribe);
            &&& after.queued_upgrades == before.queued_upgrades
            &&& after.pending_level == before.pending_level
            &&& after.at_max_level == before.at_max_level
            &&& after.next_level == before.next_level
            &&& before.queue_full ==> after.queue_full
        }),
{
    let pred = |item: BuildingQueueItem|
        item.slot_id == slot_id && (item.kind == BuildingWorkflowKind::Add || item.kind
            == BuildingWorkflowKind::Upgrade);
    lemma_upgrade_plan_counts_own_raises(slot_id, current_level, max_level, queue, tribe);
    lemma_upgrade_plan_counts_own_raises(slot_id, current_level, max_level, queue.push(other), tribe);
    queue.lemma_filter_push(other, pred);
    if has_queued_downgrade(queue, slot_id) {
        let i = choose|i: int|
            0 <= i < queue.len() && #[trigger] queue[i].slot_id == slot_id && queue[i].kind
                == BuildingWorkflowKind::Downgrade;
        assert(queue.push(other)[i] == queue[i]);
    }
}

/// Index of the chief (senator, chieftain) among a tribe's unit types.
pub const CHIEF_SLOT: usize = 8;

/// Index of the settler among a tribe's unit types.
pub const SETTLER_SLOT: usize = 9;

pub open spec fn saturating_add_u32(a: u32, b: u32) -> u32 {
    if a + b > u32::MAX {
        u32::MAX
    } else {
        (a + b) as u32
    }
}

/// Chiefs and settlers of player `player_id` on the move among the first
/// `n` movements, counted with saturation.
pub open spec fn expansion_units_moving(movements: Seq<TroopMovement>, player_id: u128, n: nat) -> (u32, u32)
    decreases n,
{
    if n == 0 {
        (0, 0)
    } else {
        let (chiefs, settlers) = expansion_units_moving(movements, player_id, (n - 1) as nat);
        let m = movements[n - 1];
        if m.origin_player_id == player_id {
            (
                saturating_add_u32(chiefs, unit_count(m.units@, CHIEF_SLOT as int)),
                saturating_add_u32(settlers, unit_count(m.units@, SETTLER_SLOT as int)),
            )
        } else {
            (chiefs, settlers)
        }
    }
}

/// Counts the player's chiefs and settlers on the move, outgoing movements
/// first, then incoming ones.
pub fn count_expansion_units_moving(
    outgoing: &Vec<TroopMovement>,
    incoming: &Vec<TroopMovement>,
    player_id: u128,
) -> (r: (u32, u32))
    ensures
        r == expansion_units_moving(outgoing@ + incoming@, player_id, (outgoing@.len() + incoming@.len()) as nat),
{
    let ghost all = outgoing@ + incoming@;
    let mut chiefs: u32 = 0;
    let mut settlers: u32 = 0;
    let mut i: usize = 0;
    while i < outgoing.len()
        invariant
            i <= outgoing@.len(),
            all == outgoing@ + incoming@,
            (chiefs, settlers) == expansion_units_moving(all, player_id, i as nat),
        decreases outgoing.len() - i,
    {
        assert(all[i as int] == outgoing@[i as int]);
        if outgoing[i].origin_player_id == player_id {
            chiefs = chiefs.saturating_add(get_unit_count(&outgoing[i].units, CHIEF_SLOT));
            settlers = settlers.saturating_add(get_unit_count(&outgoing[i].units, SETTLER_SLOT));
        }
        i = i + 1;
    }
    let mut k: usize = 0;
    while k < incoming.len()
        invariant
            k <= incoming@.len(),
            all == outgoing@ + incoming@,
            (chiefs, settlers) == expansion_units_moving(all, player_id, (outgoing@.len() + k) as nat),
        decreases incoming.len() - k,
    {
        assert(all[outgoing@.len() + k] == incoming@[k as int]);
        if incoming[k].origin_player_id == player_id {
            chiefs = chiefs.saturating_add(get_unit_count(&incoming[k].units, CHIEF_SLOT));
            settlers = settlers.saturating_add(get_unit_count(&incoming[k].units, SETTLER_SLOT));
        }
        k = k + 1;
    }
    (chiefs, settlers)
}

/// Foundation slots still free: none counted when the village has no slot;
/// otherwise the slots less the villages founded from it (the count taken
/// as a byte), never below zero.
pub open spec fn spec_available_foundation_slots(max_slots: u8, child_villages: usize) -> u8 {
    if max_slots == 0 {
        0
    } else {
        let children = (child_villages % 256) as u8;
        if max_slots >= children {
            (max_slots - children) as u8
        } else {
            0
        }
    }
}

/// Returns the free foundation slots of a village.
pub fn available_foundation_slots(max_slots: u8, child_villages: usize) -> (r: u8)
    ensures
        r == spec_available_foundation_slots(max_slots, child_villages),
{
    if max_slots == 0 {
        return 0;
    }
    let children: u8 = (child_villages % 256) as u8;
    max_slots.saturating_sub(children)
}

/// The academy and the smithy hold at most two jobs.
pub fn small_queue_full(queued_jobs: usize) -> (r: bool)
    ensures
        r == (queued_jobs >= SMALL_QUEUE_CAPACITY),
{
    queued_jobs >= SMALL_QUEUE_CAPACITY
}

/// The merchant figures of the marketplace page at the server's speed: the
/// tribe's capacity and speed multiplied by the speed (at least 1), each
/// saturating at its type's maximum.
pub fn effective_merchant_stats(base_capacity: u32, base_speed: u8, server_speed: i8) -> (r: (u32, u32))
    ensures
        ({
            let factor: int = if server_speed < 1 {
                1
            } else {
                server_speed as int
            };
            &&& r.0 == if base_capacity * factor > u32::MAX {
                u32::MAX as int
            } else {
                base_capacity * factor
            }
            &&& r.1 == if base_speed * factor > u8::MAX {
                u8::MAX as int
            } else {
                base_speed * factor
            }
        }),
{
    let factor: i8 = if server_speed < 1 {
        1
    } else {
        server_speed
    };
    assert(base_capacity * factor <= u32::MAX * 127) by (nonlinear_arith)
        requires
            1 <= factor <= 127,
    ;
    assert(base_speed * factor <= u8::MAX * 127) by (nonlinear_arith)
        requires
            1 <= factor <= 127,
    ;
    let wide_capacity: u64 = (base_capacity as u64) * (factor as u64);
    let capacity: u32 = if wide_capacity > u32::MAX as u64 {
        u32::MAX
    } else {
        wide_capacity as u32
    };
    let wide_speed: u32 = (base_speed as u32) * (factor as u32);
    let speed: u32 = if wide_speed > u8::MAX as u32 {
        u8::MAX as u32
    } else {
        wide_speed
    };
    (capacity, speed)
}

/// A queued downgrade, as the main building lists it.
#[derive(Debug, Clone)]
pub struct MainBuildingDowngradeQueueItemDto {
    pub action_id: String,
    pub slot_id: u8,
    pub building_name: String,
    pub target_level: u8,
    pub finishes_at: i64,
    pub time_seconds: u32,
    pub is_processing: bool,
}

/// The downgrade section of the main building page.
#[derive(Debug, Clone)]
pub struct MainBuildingDetailDto {
    pub can_downgrade: bool,
    pub queue_full: bool,
    pub options: Vec<BuildingDowngradeOptionDto>,
    pub queue: Vec<MainBuildingDowngradeQueueItemDto>,
}

/// Some queued job concerns slot `slot_id`.
pub open spec fn slot_is_queued(queue: Seq<BuildingQueueItem>, slot_id: u8) -> bool {
    exists|i: int| 0 <= i < queue.len() && #[trigger] queue[i].slot_id == slot_id
}

/// Whether some queued job concerns slot `slot_id`.
pub fn slot_has_queued_job(queue: &Vec<BuildingQueueItem>, slot_id: u8) -> (r: bool)
    ensures
        r == slot_is_queued(queue@, slot_id),
{
    let mut i: usize = 0;
    while i < queue.len()
        invariant
            i <= queue@.len(),
            forall|j: int| 0 <= j < i ==> #[trigger] queue@[j].slot_id != slot_id,
        decreases queue.len() - i,
    {
        if queue[i].slot_id == slot_id {
            return true;
        }
        i = i + 1;
    }
    false
}

/// A building of the village centre, above level 0, with no job queued on its slot.
pub open spec fn is_downgrade_candidate(b: VillageBuilding, queue: Seq<BuildingQueueItem>) -> bool {
    b.slot_id > 18 && b.level > 0 && !slot_is_queued(queue, b.slot_id)
}

/// The downgrade candidates in slot `slot_id`, in the village's order.
pub open spec fn candidates_in_slot(buildings: Seq<VillageBuilding>, queue: Seq<BuildingQueueItem>, slot_id: int) -> Seq<
    VillageBuilding,
> {
    buildings.filter(|b: VillageBuilding| is_downgrade_candidate(b, queue) && b.slot_id == slot_id)
}

/// The downgrade candidates of slots below `n`, ordered by slot (the
/// village's order kept within a slot).
pub open spec fn candidates_by_slot(buildings: Seq<VillageBuilding>, queue: Seq<BuildingQueueItem>, n: nat) -> Seq<
    VillageBuilding,
>
    decreases n,
{
    if n == 0 {
        Seq::empty()
    } else {
        candidates_by_slot(buildings, queue, (n - 1) as nat) + candidates_in_slot(buildings, queue, n - 1)
    }
}

/// `dto` offers to take building `b` down one level.
pub open spec fn is_downgrade_option(b: VillageBuilding, dto: BuildingDowngradeOptionDto) -> bool {
    &&& dto.slot_id == b.slot_id
    &&& dto.building_name@ == spec_building_key(b.name)
    &&& dto.current_level == b.level
    &&& dto.next_level == b.level - 1
}

/// `dto` lists queued downgrade `item` at time `now`.
pub open spec fn is_downgrade_queue_dto(item: BuildingQueueItem, now: i64, dto: MainBuildingDowngradeQueueItemDto) -> bool {
    &&& dto.action_id@ == spec_uuid_hyphenated(item.job_id)
    &&& dto.slot_id == item.slot_id
    &&& dto.building_name@ == spec_building_key(item.building_name)
    &&& dto.target_level == item.target_level
    &&& dto.finishes_at == item.finishes_at
    &&& dto.time_seconds == remaining_seconds(item.finishes_at, now)
    &&& dto.is_processing == (item.status == ScheduledActionStatus::Processing)
}

pub open spec fn is_downgrade_job(item: BuildingQueueItem) -> bool {
    item.kind == BuildingWorkflowKind::Downgrade
}

fn downgrade_options(buildings: &Vec<VillageBuilding>, queue: &Vec<BuildingQueueItem>) -> (r: Vec<
    BuildingDowngradeOptionDto,
>)
    ensures
        r@.len() == candidates_by_slot(buildings@, queue@, 256).len(),
        forall|k: int|
            0 <= k < r@.len() ==> is_downgrade_option(
                candidates_by_slot(buildings@, queue@, 256)[k],
                #[trigger] r@[k],
            ),
{
    let mut out: Vec<BuildingDowngradeOptionDto> = Vec::new();
    let mut slot: u16 = 0;
    while slot < 256
        invariant
            slot <= 256,
            out@.len() == candidates_by_slot(buildings@, queue@, slot as nat).len(),
            forall|k: int|
                0 <= k < out@.len() ==> is_downgrade_option(
                    candidates_by_slot(buildings@, queue@, slot as nat)[k],
                    #[trigger] out@[k],
                ),
        decreases 256 - slot,
    {
        let ghost before = candidates_by_slot(buildings@, queue@, slot as nat);
        let ghost pred = |b: VillageBuilding| is_downgrade_candidate(b, queue@) && b.slot_id == slot as int;
        let mut i: usize = 0;
        while i < buildings.len()
            invariant
                slot < 256,
                i <= buildings@.len(),
                pred == (|b: VillageBuilding| is_downgrade_candidate(b, queue@) && b.slot_id == slot as int),
                before == candidates_by_slot(buildings@, queue@, slot as nat),
                out@.len() == before.len() + buildings@.take(i as int).filter(pred).len(),
                forall|k: int|
                    0 <= k < out@.len() ==> is_downgrade_option(
                        (before + buildings@.take(i as int).filter(pred))[k],
                        #[trigger] out@[k],
                    ),
            decreases buildings.len() - i,
        {
            let b = buildings[i];
            proof {
                assert(buildings@.take(i + 1).drop_last() =~= buildings@.take(i as int));
                reveal(Seq::filter);
            }
            if b.slot_id as u16 == slot && b.slot_id > 18 && b.level > 0 && !slot_has_queued_job(queue, b.slot_id) {
                out.push(
                    BuildingDowngradeOptionDto {
                        slot_id: b.slot_id,
                        building_name: building_key(b.name),
                        current_level: b.level,
                        next_level: b.level - 1,
                    },
                );
                proof {
                    assert(pred(b));
                    assert(buildings@.take(i + 1).filter(pred) == buildings@.take(i as int).filter(pred).push(b));
                    assert(before + buildings@.take(i + 1).filter(pred) =~= (before + buildings@.take(
                        i as int,
                    ).filter(pred)).push(b));
                }
            } else {
                proof {
                    assert(!pred(b));
                }
            }
            i = i + 1;
        }
        proof {
            assert(buildings@.take(i as int) =~= buildings@);
            assert(candidates_in_slot(buildings@, queue@, slot as int) == buildings@.filter(pred));
        }
        slot = slot + 1;
    }
    out
}

fn downgrade_queue(queue: &Vec<BuildingQueueItem>, now: i64) -> (r: Vec<MainBuildingDowngradeQueueItemDto>)
    requires
        forall|i: int| 0 <= i < queue@.len() ==> i64::MIN <= #[trigger] queue@[i].finishes_at - now <= i64::MAX,
    ensures
        r@.len() == queue@.filter(|q: BuildingQueueItem| is_downgrade_job(q)).len(),
        forall|k: int|
            0 <= k < r@.len() ==> is_downgrade_queue_dto(
                queue@.filter(|q: BuildingQueueItem| is_downgrade_job(q))[k],
                now,
                #[trigger] r@[k],
            ),
{
    let ghost pred = |q: BuildingQueueItem| is_downgrade_job(q);
    let mut out: Vec<MainBuildingDowngradeQueueItemDto> = Vec::new();
    let mut i: usize = 0;
    while i < queue.len()
        invariant
            i <= queue@.len(),
            pred == (|q: BuildingQueueItem| is_downgrade_job(q)),
            forall|j: int| 0 <= j < queue@.len() ==> i64::MIN <= #[trigger] queue@[j].finishes_at - now <= i64::MAX,
            out@.len() == queue@.take(i as int).filter(pred).len(),
            forall|k: int|
                0 <= k < out@.len() ==> is_downgrade_queue_dto(
                    queue@.take(i as int).filter(pred)[k],
                    now,
                    #[trigger] out@[k],
                ),
        decreases queue.len() - i,
    {
        let item = queue[i];
        proof {
            assert(queue@.take(i + 1).drop_last() =~= queue@.take(i as int));
            reveal(Seq::filter);
        }
        if item.kind == BuildingWorkflowKind::Downgrade {
            let d: i64 = item.finishes_at - now;
            let remaining: u32 = if d < 0 {
                0
            } else {
                (d % 0x1_0000_0000) as u32
            };
            out.push(
                MainBuildingDowngradeQueueItemDto {
                    action_id: uuid_to_string(item.job_id),
                    slot_id: item.slot_id,
                    building_name: building_key(item.building_name),
                    target_level: item.target_level,
                    finishes_at: item.finishes_at,
                    time_seconds: remaining,
                    is_processing: item.status == ScheduledActionStatus::Processing,
                },
            );
        }
        i = i + 1;
    }
    assert(queue@.take(i as int) =~= queue@);
    out
}

/// Downgrade jobs queued.
pub open spec fn queued_downgrades(queue: Seq<BuildingQueueItem>) -> nat {
    queue.filter(|q: BuildingQueueItem| is_downgrade_job(q)).len()
}

/// The main building's downgrade section: downgrades are allowed from main
/// building level 10; the queue holds two; when both hold, the buildings of
/// the village centre above level 0 and without a queued job are offered,
/// ordered by slot; the queued downgrades follow, in queue order.
pub fn main_building_detail(
    main_building_level: u8,
    buildings: &Vec<VillageBuilding>,
    queue: &Vec<BuildingQueueItem>,
    now: i64,
) -> (r: MainBuildingDetailDto)
    requires
        forall|i: int| 0 <= i < queue@.len() ==> i64::MIN <= #[trigger] queue@[i].finishes_at - now <= i64::MAX,
    ensures
        r.can_downgrade == (main_building_level >= DOWNGRADE_MAIN_BUILDING_LEVEL),
        r.queue_full == (queued_downgrades(queue@) >= SMALL_QUEUE_CAPACITY),
        r.can_downgrade && !r.queue_full ==> {
            &&& r.options@.len() == candidates_by_slot(buildings@, queue@, 256).len()
            &&& forall|k: int|
                0 <= k < r.options@.len() ==> is_downgrade_option(
                    candidates_by_slot(buildings@, queue@, 256)[k],
                    #[trigger] r.options@[k],
                )
        },
        !(r.can_downgrade && !r.queue_full) ==> r.options@.len() == 0,
        r.queue@.len() == queued_downgrades(queue@),
        forall|k: int|
            0 <= k < r.queue@.len() ==> is_downgrade_queue_dto(
                queue@.filter(|q: BuildingQueueItem| is_downgrade_job(q))[k],
                now,
                #[trigger] r.queue@[k],
            ),
{
    let can_downgrade = main_building_level >= DOWNGRADE_MAIN_BUILDING_LEVEL;
    let listed = downgrade_queue(queue, now);
    let queue_full = listed.len() >= SMALL_QUEUE_CAPACITY;
    let options = if can_downgrade && !queue_full {
        downgrade_options(buildings, queue)
    } else {
        Vec::new()
    };
    MainBuildingDetailDto { can_downgrade, queue_full, options, queue: listed }
}

/// The construction rules of a building, as the game's building data gives them.
#[derive(Debug, Clone)]
pub struct BuildingRules {
    pub name: BuildingName,
    pub max_level: u8,
    pub allow_multiple: bool,
    /// Buildings that cannot stand (or be queued) beside this one.
    pub conflicts: Vec<BuildingName>,
    /// Buildings, with their levels, that must stand first.
    pub requirements: Vec<(BuildingName, u8)>,
}

/// The rules of building `name`: the first entry of the catalog for it.
pub open spec fn spec_rules_of(catalog: Seq<BuildingRules>, name: BuildingName) -> Option<BuildingRules>
    decreases catalog.len(),
{
    if catalog.len() == 0 {
        None
    } else if catalog[0].name == name {
        Some(catalog[0])
    } else {
        spec_rules_of(catalog.drop_first(), name)
    }
}

/// Looks up the rules of a building.
pub fn rules_of(catalog: &Vec<BuildingRules>, name: BuildingName) -> (r: Option<&BuildingRules>)
    ensures
        match spec_rules_of(catalog@, name) {
            Some(d) => r matches Some(x) && *x == d,
            None => r is None,
        },
{
    let mut i: usize = 0;
    assert(catalog@.skip(0) =~= catalog@);
    while i < catalog.len()
        invariant
            i <= catalog@.len(),
            spec_rules_of(catalog@, name) == spec_rules_of(catalog@.skip(i as int), name),
        decreases catalog.len() - i,
    {
        assert(catalog@.skip(i as int).drop_first() =~= catalog@.skip(i + 1));
        if catalog[i].name == name {
            return Some(&catalog[i]);
        }
        i = i + 1;
    }
    assert(catalog@.skip(i as int).len() == 0);
    None
}

fn lists_building(names: &Vec<BuildingName>, name: BuildingName) -> (r: bool)
    ensures
        r == names@.contains(name),
{
    let mut i: usize = 0;
    while i < names.len()
        invariant
            i <= names@.len(),
            forall|j: int| 0 <= j < i ==> names@[j] != name,
        decreases names.len() - i,
    {
        if names[i] == name {
            assert(names@[i as int] == name);
            return true;
        }
        i = i + 1;
    }
    false
}

/// Building `a` is ruled out beside a queued `b` by the rules `rules` of one
/// of them: a second copy of a single building, or a declared conflict.
pub open spec fn rules_exclude(rules: BuildingRules, a: BuildingName, b: BuildingName) -> bool {
    (!rules.allow_multiple && a == b) || rules.conflicts@.contains(b)
}

/// By the rules of the queued building, the candidate cannot join it.
pub open spec fn spec_conflicts_with_queued(catalog: Seq<BuildingRules>, candidate: BuildingName, queued: BuildingName) -> bool {
    match spec_rules_of(catalog, queued) {
        Some(d) => rules_exclude(d, queued, candidate),
        None => false,
    }
}

/// Whether the rules of a queued building rule out the candidate.
pub fn conflicts_with_queued(catalog: &Vec<BuildingRules>, candidate: BuildingName, queued: BuildingName) -> (r: bool)
    ensures
        r == spec_conflicts_with_queued(catalog@, candidate, queued),
{
    match rules_of(catalog, queued) {
        Some(d) => (!d.allow_multiple && queued == candidate) || lists_building(&d.conflicts, candidate),
        None => false,
    }
}

/// A queued job blocks a candidate building: by the candidate's rules, or by
/// those of the queued building. A candidate without rules is never blocked.
pub open spec fn spec_blocked_by_queue(catalog: Seq<BuildingRules>, name: BuildingName, queue: Seq<BuildingQueueItem>) -> bool {
    match spec_rules_of(catalog, name) {
        None => false,
        Some(c) => exists|i: int|
            0 <= i < queue.len() && (rules_exclude(c, name, #[trigger] queue[i].building_name)
                || spec_conflicts_with_queued(catalog, name, queue[i].building_name)),
    }
}

/// Whether the queue blocks a candidate building.
pub fn building_blocked_by_queue(catalog: &Vec<BuildingRules>, name: BuildingName, queue: &Vec<BuildingQueueItem>) -> (r:
    bool)
    ensures
        r == spec_blocked_by_queue(catalog@, name, queue@),
{
    if queue.len() == 0 {
        return false;
    }
    let candidate = match rules_of(catalog, name) {
        Some(d) => d,
        None => return false,
    };
    let mut i: usize = 0;
    while i < queue.len()
        invariant
            i <= queue@.len(),
            spec_rules_of(catalog@, name) == Some(*candidate),
            forall|j: int|
                0 <= j < i ==> !(rules_exclude(*candidate, name, #[trigger] queue@[j].building_name)
                    || spec_conflicts_with_queued(catalog@, name, queue@[j].building_name)),
        decreases queue.len() - i,
    {
        let queued = queue[i].building_name;
        if (!candidate.allow_multiple && queued == name) || lists_building(&candidate.conflicts, queued)
            || conflicts_with_queued(catalog, name, queued) {
            return true;
        }
        i = i + 1;
    }
    false
}

/// Level of the first building named `name`, 0 when there is none.
pub open spec fn level_of(buildings: Seq<VillageBuilding>, name: BuildingName) -> u8
    decreases buildings.len(),
{
    if buildings.len() == 0 {
        0
    } else if buildings[0].name == name {
        buildings[0].level
    } else {
        level_of(buildings.drop_first(), name)
    }
}

/// Returns the level of the first building named `name`, 0 when there is none.
pub fn building_level(buildings: &Vec<VillageBuilding>, name: BuildingName) -> (r: u8)
    ensures
        r == level_of(buildings@, name),
{
    let mut i: usize = 0;
    assert(buildings@.skip(0) =~= buildings@);
    while i < buildings.len()
        invariant
            i <= buildings@.len(),
            level_of(buildings@, name) == level_of(buildings@.skip(i as int), name),
        decreases buildings.len() - i,
    {
        assert(buildings@.skip(i as int).drop_first() =~= buildings@.skip(i + 1));
        if buildings[i].name == name {
            return buildings[i].level;
        }
        i = i + 1;
    }
    assert(buildings@.skip(i as int).len() == 0);
    0
}

/// A requirement the village does not meet yet.
pub open spec fn is_unmet(buildings: Seq<VillageBuilding>, req: (BuildingName, u8)) -> bool {
    level_of(buildings, req.0) < req.1
}

/// `dto` reports requirement `req`.
pub open spec fn is_requirement_dto(req: (BuildingName, u8), dto: RequirementDto) -> bool {
    dto.building_name@ == spec_building_key(req.0) && dto.required_level == req.1
}

/// The unmet requirements among `reqs`, in order.
pub open spec fn unmet_requirements(buildings: Seq<VillageBuilding>, reqs: Seq<(BuildingName, u8)>) -> Seq<(BuildingName, u8)> {
    reqs.filter(|req: (BuildingName, u8)| is_unmet(buildings, req))
}

/// `out` reports exactly the unmet requirements among `reqs`, in order.
pub open spec fn reports_unmet(buildings: Seq<VillageBuilding>, reqs: Seq<(BuildingName, u8)>, out: Seq<RequirementDto>) -> bool {
    &&& out.len() == unmet_requirements(buildings, reqs).len()
    &&& forall|k: int|
        0 <= k < out.len() ==> is_requirement_dto(unmet_requirements(buildings, reqs)[k], #[trigger] out[k])
}

/// Lists the requirements among `reqs` that the village does not meet.
pub fn missing_requirements(buildings: &Vec<VillageBuilding>, reqs: &Vec<(BuildingName, u8)>) -> (r: Vec<RequirementDto>)
    ensures
        reports_unmet(buildings@, reqs@, r@),
{
    let ghost pred = |req: (BuildingName, u8)| is_unmet(buildings@, req);
    let mut out: Vec<RequirementDto> = Vec::new();
    let mut i: usize = 0;
    while i < reqs.len()
        invariant
            i <= reqs@.len(),
            pred == (|req: (BuildingName, u8)| is_unmet(buildings@, req)),
            out@.len() == reqs@.take(i as int).filter(pred).len(),
            forall|k: int|
                0 <= k < out@.len() ==> is_requirement_dto(reqs@.take(i as int).filter(pred)[k], #[trigger] out@[k]),
        decreases reqs.len() - i,
    {
        let req = reqs[i];
        proof {
            assert(reqs@.take(i + 1).drop_last() =~= reqs@.take(i as int));
            reveal(Seq::filter);
        }
        if building_level(buildings, req.0) < req.1 {
            out.push(RequirementDto { building_name: building_key(req.0), required_level: req.1 });
        }
        i = i + 1;
    }
    assert(reqs@.take(i as int) =~= reqs@);
    out
}

/// Unmet requirements of building `name`; none when its rules are unknown.
pub open spec fn building_requirements(catalog: Seq<BuildingRules>, name: BuildingName) -> Seq<(BuildingName, u8)> {
    match spec_rules_of(catalog, name) {
        Some(d) => d.requirements@,
        None => Seq::empty(),
    }
}

/// Lists the requirements of building `name` that the village does not meet.
pub fn missing_building_requirements(
    catalog: &Vec<BuildingRules>,
    buildings: &Vec<VillageBuilding>,
    name: BuildingName,
) -> (r: Vec<RequirementDto>)
    ensures
        reports_unmet(buildings@, building_requirements(catalog@, name), r@),
{
    match rules_of(catalog, name) {
        Some(d) => missing_requirements(buildings, &d.requirements),
        None => {
            let out: Vec<RequirementDto> = Vec::new();
            proof {
                reveal(Seq::filter);
                assert(unmet_requirements(buildings@, Seq::<(BuildingName, u8)>::empty()) =~= Seq::empty());
            }
            out
        },
    }
}

/// A building that the game allows on a slot, with what the game says of
/// building it: whether the village may build it now, its cost, upkeep and
/// build time.
#[derive(Debug, Clone, Copy, PartialEq, Eq, Structural)]
pub struct BuildCandidate {
    pub name: BuildingName,
    pub validation_ok: bool,
    pub cost: ResourceGroup,
    pub upkeep: u32,
    pub time_secs: u32,
}

pub open spec fn amounts_of(r: ResourceGroup) -> ResourceAmountsDto {
    ResourceAmountsDto { lumber: r.lumber, clay: r.clay, iron: r.iron, crop: r.crop }
}

/// Converts resource amounts into their answer form.
pub fn resource_amounts(r: &ResourceGroup) -> (d: ResourceAmountsDto)
    ensures
        d == amounts_of(*r),
{
    ResourceAmountsDto { lumber: r.lumber, clay: r.clay, iron: r.iron, crop: r.crop }
}

/// A candidate is offered unless the queue blocks it, or it can neither be
/// built now nor shown with the requirements it lacks.
pub open spec fn is_offered(
    catalog: Seq<BuildingRules>,
    buildings: Seq<VillageBuilding>,
    queue: Seq<BuildingQueueItem>,
    c: BuildCandidate,
) -> bool {
    &&& !spec_blocked_by_queue(catalog, c.name, queue)
    &&& (c.validation_ok || unmet_requirements(buildings, building_requirements(catalog, c.name)).len() > 0)
}

/// `dto` offers candidate `c`.
pub open spec fn is_build_option(
    catalog: Seq<BuildingRules>,
    buildings: Seq<VillageBuilding>,
    c: BuildCandidate,
    dto: BuildOptionDto,
) -> bool {
    &&& dto.building_name@ == spec_building_key(c.name)
    &&& dto.cost == amounts_of(c.cost)
    &&& dto.next_upkeep == c.upkeep
    &&& dto.upkeep == c.upkeep
    &&& dto.time_secs == c.time_secs
    &&& reports_unmet(buildings, building_requirements(catalog, c.name), dto.missing_requirements@)
}

/// The candidates offered as buildable (`ok`) or locked (`!ok`), in order.
pub open spec fn offered_with(
    catalog: Seq<BuildingRules>,
    buildings: Seq<VillageBuilding>,
    queue: Seq<BuildingQueueItem>,
    candidates: Seq<BuildCandidate>,
    ok: bool,
) -> Seq<BuildCandidate> {
    candidates.filter(|c: BuildCandidate| is_offered(catalog, buildings, queue, c) && c.validation_ok == ok)
}

/// `out` offers exactly `wanted`, in order.
pub open spec fn offers_exactly(
    catalog: Seq<BuildingRules>,
    buildings: Seq<VillageBuilding>,
    wanted: Seq<BuildCandidate>,
    out: Seq<BuildOptionDto>,
) -> bool {
    &&& out.len() == wanted.len()
    &&& forall|k: int| 0 <= k < out.len() ==> is_build_option(catalog, buildings, wanted[k], #[trigger] out[k])
}

/// Splits the candidates of an empty slot into those the village can build
/// now and those it lacks requirements for; candidates that the queue blocks,
/// or that cannot be built though nothing is missing, are left out.
pub fn build_options_for_slot(
    catalog: &Vec<BuildingRules>,
    buildings: &Vec<VillageBuilding>,
    queue: &Vec<BuildingQueueItem>,
    candidates: &Vec<BuildCandidate>,
) -> (r: (Vec<BuildOptionDto>, Vec<BuildOptionDto>))
    ensures
        offers_exactly(catalog@, buildings@, offered_with(catalog@, buildings@, queue@, candidates@, true), r.0@),
        offers_exactly(catalog@, buildings@, offered_with(catalog@, buildings@, queue@, candidates@, false), r.1@),
{
    let ghost p_ok = |c: BuildCandidate| is_offered(catalog@, buildings@, queue@, c) && c.validation_ok == true;
    let ghost p_locked = |c: BuildCandidate| is_offered(catalog@, buildings@, queue@, c) && c.validation_ok == false;
    let mut buildable: Vec<BuildOptionDto> = Vec::new();
    let mut locked: Vec<BuildOptionDto> = Vec::new();
    let mut i: usize = 0;
    while i < candidates.len()
        invariant
            i <= candidates@.len(),
            p_ok == (|c: BuildCandidate| is_offered(catalog@, buildings@, queue@, c) && c.validation_ok == true),
            p_locked == (|c: BuildCandidate| is_offered(catalog@, buildings@, queue@, c) && c.validation_ok == false),
            offers_exactly(catalog@, buildings@, candidates@.take(i as int).filter(p_ok), buildable@),
            offers_exactly(catalog@, buildings@, candidates@.take(i as int).filter(p_locked), locked@),
        decreases candidates.len() - i,
    {
        let c = candidates[i];
        proof {
            assert(candidates@.take(i + 1).drop_last() =~= candidates@.take(i as int));
            reveal(Seq::filter);
        }
        if !building_blocked_by_queue(catalog, c.name, queue) {
            let missing = missing_building_requirements(catalog, buildings, c.name);
            if c.validation_ok || missing.len() > 0 {
                let option = BuildOptionDto {
                    building_name: building_key(c.name),
                    cost: resource_amounts(&c.cost),
                    next_upkeep: c.upkeep,
                    upkeep: c.upkeep,
                    time_secs: c.time_secs,
                    missing_requirements: missing,
                };
                if c.validation_ok {
                    buildable.push(option);
                } else {
                    locked.push(option);
                }
            }
        }
        i = i + 1;
    }
    assert(candidates@.take(i as int) =~= candidates@);
    (buildable, locked)
}

/// What the queue holds for an empty slot: whether anything, and its last job.
pub open spec fn queued_for_slot(queue: Seq<BuildingQueueItem>, slot_id: u8) -> Seq<BuildingQueueItem> {
    queue.filter(|q: BuildingQueueItem| q.slot_id == slot_id)
}

/// Returns the last job queued for a slot, if any.
pub fn last_queued_for_slot(queue: &Vec<BuildingQueueItem>, slot_id: u8) -> (r: Option<BuildingQueueItem>)
    ensures
        queued_for_slot(queue@, slot_id).len() == 0 ==> r is None,
        queued_for_slot(queue@, slot_id).len() > 0 ==> r == Some(queued_for_slot(queue@, slot_id).last()),
{
    let ghost pred = |q: BuildingQueueItem| q.slot_id == slot_id;
    let mut last: Option<BuildingQueueItem> = None;
    let mut i: usize = 0;
    while i < queue.len()
        invariant
            i <= queue@.len(),
            pred == (|q: BuildingQueueItem| q.slot_id == slot_id),
            queue@.take(i as int).filter(pred).len() == 0 ==> last is None,
            queue@.take(i as int).filter(pred).len() > 0 ==> last == Some(queue@.take(i as int).filter(pred).last()),
        decreases queue.len() - i,
    {
        proof {
            assert(queue@.take(i + 1).drop_last() =~= queue@.take(i as int));
            reveal(Seq::filter);
        }
        if queue[i].slot_id == slot_id {
            last = Some(queue[i]);
        }
        i = i + 1;
    }
    assert(queue@.take(i as int) =~= queue@);
    last
}

/// Levels shown for a building queued on an empty slot: the queued level,
/// the one after it (saturating), and whether it can still be raised (when
/// its rules are known).
#[derive(Debug, Clone, Copy, PartialEq, Eq, Structural)]
pub struct QueuedLevels {
    pub target_level: u8,
    pub next_level: u8,
    pub can_upgrade: Option<bool>,
}

pub fn queued_levels(catalog: &Vec<BuildingRules>, item: &BuildingQueueItem) -> (r: QueuedLevels)
    ensures
        r.target_level == item.target_level,
        r.next_level == saturating_add_u8(item.target_level, 1),
        r.can_upgrade == match spec_rules_of(catalog@, item.building_name) {
            Some(d) => Some(item.target_level < d.max_level),
            None => None,
        },
{
    let can_upgrade = match rules_of(catalog, item.building_name) {
        Some(d) => Some(item.target_level < d.max_level),
        None => None,
    };
    QueuedLevels {
        target_level: item.target_level,
        next_level: item.target_level.saturating_add(1),
        can_upgrade,
    }
}

/// Levels of the upgrade previewed for a queued building: its queued level
/// is current; the next is one above, within the highest level (the current
/// one when its rules are unknown).
pub fn queued_preview_levels(catalog: &Vec<BuildingRules>, item: &BuildingQueueItem) -> (r: (u8, bool))
    ensures
        ({
            let max = match spec_rules_of(catalog@, item.building_name) {
                Some(d) => d.max_level,
                None => item.target_level,
            };
            let after = saturating_add_u8(item.target_level, 1);
            &&& r.0 == if after < max {
                after
            } else {
                max
            }
            &&& r.1 == (item.target_level >= max)
        }),
{
    let max: u8 = match rules_of(catalog, item.building_name) {
        Some(d) => d.max_level,
        None => item.target_level,
    };
    let after = item.target_level.saturating_add(1);
    let next = if after < max {
        after
    } else {
        max
    };
    (next, item.target_level >= max)
}

} // verus!
