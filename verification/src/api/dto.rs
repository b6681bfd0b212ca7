//! Response models of the JSON API and the rules that fill them from the
//! game state: village summaries and lists, building and resource slots,
//! the building queue, troops at home and the troop movement summary.

use vstd::prelude::*;

use crate::model::{
    building_in_slot, building_key, spec_building_in_slot, spec_building_key, spec_tribe_key, tribe_key,
    BuildingName, CurrentUser, TroopMovement, TroopMovementType, Village, VillageBuilding,
};

verus! {

/// Public identity of the signed-in user.
#[derive(Debug, Clone)]
pub struct SessionUserDto {
    pub user_id: u128,
    pub player_id: u128,
    pub username: String,
    pub email: String,
    pub tribe: String,
}

/// Amounts of the four resources.
#[derive(Debug, Clone, Copy, PartialEq, Eq, Structural)]
pub struct ResourceAmountsDto {
    pub lumber: u32,
    pub clay: u32,
    pub iron: u32,
    pub crop: u32,
}

/// Hourly production; crop is net of upkeep.
#[derive(Debug, Clone, Copy, PartialEq, Eq, Structural)]
pub struct ProductionAmountsDto {
    pub lumber: u32,
    pub clay: u32,
    pub iron: u32,
    pub crop: i64,
}

/// Summary of a village.
#[derive(Debug, Clone)]
pub struct VillageSummaryDto {
    pub id: u32,
    pub name: String,
    pub x: i32,
    pub y: i32,
    pub is_capital: bool,
    pub loyalty: u8,
    pub population: i32,
    pub warehouse_capacity: u32,
    pub granary_capacity: u32,
    pub resources: ResourceAmountsDto,
    pub production_per_hour: ProductionAmountsDto,
}

/// One village of the player's village list.
#[derive(Debug, Clone)]
pub struct VillageListItemDto {
    pub id: u32,
    pub name: String,
    pub x: i32,
    pub y: i32,
    pub is_capital: bool,
    pub is_current: bool,
}

/// A slot of the village centre.
#[derive(Debug, Clone)]
pub struct BuildingSlotDto {
    pub slot_id: u8,
    pub building_name: Option<String>,
    pub level: u8,
    pub in_queue: Option<bool>,
}

/// A resource field slot.
#[derive(Debug, Clone)]
pub struct ResourceSlotDto {
    pub slot_id: u8,
    pub building_name: String,
    pub level: u8,
    pub in_queue: Option<bool>,
}

/// A building queue entry with its completion time (unix seconds).
#[derive(Debug, Clone)]
pub struct BuildingQueueItemDto {
    pub kind: String,
    pub slot_id: u8,
    pub building_name: String,
    pub target_level: u8,
    pub finishes_at: i64,
    pub time_seconds: u32,
    pub is_processing: bool,
}

/// Short summary of a player.
#[derive(Debug, Clone)]
pub struct PlayerSummaryDto {
    pub id: u128,
    pub username: String,
    pub tribe: String,
}

/// Troops of one unit type, home army and reinforcements together.
#[derive(Debug, Clone)]
pub struct CurrentTroopDto {
    pub unit_name: String,
    pub count: u32,
}

/// Counts of troop movements by kind, with the earliest arrival (unix seconds) of each.
#[derive(Debug, Clone, Copy, PartialEq, Eq, Structural)]
pub struct TroopMovementSummaryDto {
    pub incoming_attacks: usize,
    pub incoming_attacks_next_at: Option<i64>,
    pub incoming_raids: usize,
    pub incoming_raids_next_at: Option<i64>,
    pub incoming_returns_reinforcements: usize,
    pub incoming_returns_reinforcements_next_at: Option<i64>,
    pub outgoing_attacks: usize,
    pub outgoing_attacks_next_at: Option<i64>,
    pub outgoing_raids: usize,
    pub outgoing_raids_next_at: Option<i64>,
    pub outgoing_reinforcements: usize,
    pub outgoing_reinforcements_next_at: Option<i64>,
}

/// Kind of a building job.
#[derive(Debug, Clone, Copy, PartialEq, Eq, Structural)]
pub enum BuildingWorkflowKind {
    Add,
    Upgrade,
    Downgrade,
}

/// State of a scheduled job.
#[derive(Debug, Clone, Copy, PartialEq, Eq, Structural)]
pub enum ScheduledActionStatus {
    Pending,
    Processing,
}

/// A queued building job of a village.
#[derive(Debug, Clone, Copy, PartialEq, Eq, Structural)]
pub struct BuildingQueueItem {
    pub job_id: u128,
    pub kind: BuildingWorkflowKind,
    pub slot_id: u8,
    pub building_name: BuildingName,
    pub target_level: u8,
    pub status: ScheduledActionStatus,
    /// Completion time, unix seconds.
    pub finishes_at: i64,
}

pub open spec fn spec_building_queue_kind_key(kind: BuildingWorkflowKind) -> Seq<char> {
    match kind {
        BuildingWorkflowKind::Add => "add"@,
        BuildingWorkflowKind::Upgrade => "upgrade"@,
        BuildingWorkflowKind::Downgrade => "downgrade"@,
    }
}

/// The key under which a building job kind is sent to clients.
pub fn building_queue_kind_key(kind: BuildingWorkflowKind) -> (s: String)
    ensures
        s@ == spec_building_queue_kind_key(kind),
{
    match kind {
        BuildingWorkflowKind::Add => String::from_str("add"),
        BuildingWorkflowKind::Upgrade => String::from_str("upgrade"),
        BuildingWorkflowKind::Downgrade => String::from_str("downgrade"),
    }
}

/// Seconds left until `finishes_at`, none once it is past, as a 32-bit count
/// (the low 32 bits of larger counts).
pub open spec fn remaining_seconds(finishes_at: i64, now: i64) -> u32 {
    let d = finishes_at - now;
    (if d < 0 {
        0
    } else {
        d % 0x1_0000_0000
    }) as u32
}

/// `dto` is the queue entry for `item` at time `now`.
pub open spec fn is_queue_item_dto(item: BuildingQueueItem, now: i64, dto: BuildingQueueItemDto) -> bool {
    &&& dto.kind@ == spec_building_queue_kind_key(item.kind)
    &&& dto.slot_id == item.slot_id
    &&& dto.building_name@ == spec_building_key(item.building_name)
    &&& dto.target_level == item.target_level
    &&& dto.finishes_at == item.finishes_at
    &&& dto.time_seconds == remaining_seconds(item.finishes_at, now)
    &&& dto.is_processing == (item.status == ScheduledActionStatus::Processing)
}

/// Builds the queue entries of a village at time `now`.
pub fn building_queue_items(items: &Vec<BuildingQueueItem>, now: i64) -> (r: Vec<BuildingQueueItemDto>)
    requires
        forall|i: int| 0 <= i < items@.len() ==> i64::MIN <= #[trigger] items@[i].finishes_at - now <= i64::MAX,
    ensures
        r@.len() == items@.len(),
        forall|i: int| 0 <= i < items@.len() ==> is_queue_item_dto(items@[i], now, #[trigger] r@[i]),
{
    let mut out: Vec<BuildingQueueItemDto> = Vec::new();
    let mut i: usize = 0;
    while i < items.len()
        invariant
            i <= items@.len(),
            out@.len() == i,
            forall|j: int| 0 <= j < items@.len() ==> i64::MIN <= #[trigger] items@[j].finishes_at - now <= i64::MAX,
            forall|j: int| 0 <= j < i ==> is_queue_item_dto(items@[j], now, #[trigger] out@[j]),
        decreases items.len() - i,
    {
        let item = items[i];
        let d: i64 = item.finishes_at - now;
        let remaining: u32 = if d < 0 {
            0
        } else {
            (d % 0x1_0000_0000) as u32
        };
        out.push(
            BuildingQueueItemDto {
                kind: building_queue_kind_key(item.kind),
                slot_id: item.slot_id,
                building_name: building_key(item.building_name),
                target_level: item.target_level,
                finishes_at: item.finishes_at,
                time_seconds: remaining,
                is_processing: item.status == ScheduledActionStatus::Processing,
            },
        );
        i = i + 1;
    }
    out
}

/// The public identity of the signed-in user.
pub fn session_user(user: &CurrentUser) -> (r: SessionUserDto)
    ensures
        r.user_id == user.account.id,
        r.player_id == user.player.id,
        r.username@ == user.player.username@,
        r.email@ == user.account.email@,
        r.tribe@ == spec_tribe_key(user.player.tribe),
{
    SessionUserDto {
        user_id: user.account.id,
        player_id: user.player.id,
        username: user.player.username.clone(),
        email: user.account.email.clone(),
        tribe: tribe_key(user.player.tribe),
    }
}

/// Short summary of the signed-in player.
pub fn player_summary(user: &CurrentUser) -> (r: PlayerSummaryDto)
    ensures
        r.id == user.player.id,
        r.username@ == user.player.username@,
        r.tribe@ == spec_tribe_key(user.player.tribe),
{
    PlayerSummaryDto {
        id: user.player.id,
        username: user.player.username.clone(),
        tribe: tribe_key(user.player.tribe),
    }
}

/// Summary of a village.
pub fn village_summary(village: &Village) -> (r: VillageSummaryDto)
    requires
        village.population <= i32::MAX,
    ensures
        r.id == village.id,
        r.name@ == village.name@,
        r.x == village.position.x,
        r.y == village.position.y,
        r.is_capital == village.is_capital,
        r.loyalty == village.loyalty,
        r.population == village.population,
        r.warehouse_capacity == village.warehouse_capacity,
        r.granary_capacity == village.granary_capacity,
        r.resources == (ResourceAmountsDto {
            lumber: village.stocks.lumber,
            clay: village.stocks.clay,
            iron: village.stocks.iron,
            crop: village.stocks.crop,
        }),
        r.production_per_hour == (ProductionAmountsDto {
            lumber: village.production.lumber,
            clay: village.production.clay,
            iron: village.production.iron,
            crop: village.production.crop,
        }),
{
    VillageSummaryDto {
        id: village.id,
        name: village.name.clone(),
        x: village.position.x,
        y: village.position.y,
        is_capital: village.is_capital,
        loyalty: village.loyalty,
        population: village.population as i32,
        warehouse_capacity: village.warehouse_capacity,
        granary_capacity: village.granary_capacity,
        resources: ResourceAmountsDto {
            lumber: village.stocks.lumber,
            clay: village.stocks.clay,
            iron: village.stocks.iron,
            crop: village.stocks.crop,
        },
        production_per_hour: ProductionAmountsDto {
            lumber: village.production.lumber,
            clay: village.production.clay,
            iron: village.production.iron,
            crop: village.production.crop,
        },
    }
}

/// `item` lists `village`, marked current when it is the village with id `current_id`.
pub open spec fn is_village_list_item(village: Village, current_id: u32, item: VillageListItemDto) -> bool {
    &&& item.id == village.id
    &&& item.name@ == village.name@
    &&& item.x == village.position.x
    &&& item.y == village.position.y
    &&& item.is_capital == village.is_capital
    &&& item.is_current == (village.id == current_id)
}

/// The player's villages, in order, marking the current one.
pub fn village_list(user: &CurrentUser) -> (r: Vec<VillageListItemDto>)
    ensures
        r@.len() == user.villages@.len(),
        forall|i: int|
            0 <= i < user.villages@.len() ==> is_village_list_item(
                user.villages@[i],
                user.village.id,
                #[trigger] r@[i],
            ),
{
    let mut out: Vec<VillageListItemDto> = Vec::new();
    let mut i: usize = 0;
    while i < user.villages.len()
        invariant
            i <= user.villages@.len(),
            out@.len() == i,
            forall|j: int|
                0 <= j < i ==> is_village_list_item(user.villages@[j], user.village.id, #[trigger] out@[j]),
        decreases user.villages.len() - i,
    {
        let v = &user.villages[i];
        out.push(
            VillageListItemDto {
                id: v.id,
                name: v.name.clone(),
                x: v.position.x,
                y: v.position.y,
                is_capital: v.is_capital,
                is_current: v.id == user.village.id,
            },
        );
        i = i + 1;
    }
    out
}

/// Whether the first queued job of slot `slot_id` is being processed, if
/// the slot has a job queued.
pub open spec fn spec_queue_status(queue: Seq<BuildingQueueItemDto>, slot_id: u8) -> Option<bool>
    decreases queue.len(),
{
    if queue.len() == 0 {
        None
    } else if queue[0].slot_id == slot_id {
        Some(queue[0].is_processing)
    } else {
        spec_queue_status(queue.drop_first(), slot_id)
    }
}

/// Looks up the queue state of a slot.
pub fn queue_status(queue: &Vec<BuildingQueueItemDto>, slot_id: u8) -> (r: Option<bool>)
    ensures
        r == spec_queue_status(queue@, slot_id),
{
    let mut i: usize = 0;
    assert(queue@.skip(0) =~= queue@);
    while i < queue.len()
        invariant
            i <= queue@.len(),
            spec_queue_status(queue@, slot_id) == spec_queue_status(queue@.skip(i as int), slot_id),
        decreases queue.len() - i,
    {
        assert(queue@.skip(i as int).drop_first() =~= queue@.skip(i + 1));
        if queue[i].slot_id == slot_id {
            return Some(queue[i].is_processing);
        }
        i = i + 1;
    }
    assert(queue@.skip(i as int).len() == 0);
    None
}

/// First slot of the village centre.
pub const FIRST_CENTER_SLOT: u8 = 19;

/// Last slot of the village.
pub const LAST_SLOT: u8 = 40;

/// `dto` describes village centre slot `slot_id`.
pub open spec fn is_building_slot_dto(
    buildings: Seq<VillageBuilding>,
    queue: Seq<BuildingQueueItemDto>,
    slot_id: u8,
    dto: BuildingSlotDto,
) -> bool {
    &&& dto.slot_id == slot_id
    &&& match spec_building_in_slot(buildings, slot_id) {
        Some(b) => dto.building_name matches Some(n) && n@ == spec_building_key(b.name) && dto.level == b.level,
        None => dto.building_name is None && dto.level == 0,
    }
    &&& dto.in_queue == spec_queue_status(queue, slot_id)
}

/// The slots of the village centre, 19 to 40 in order.
pub fn building_slots(buildings: &Vec<VillageBuilding>, queue: &Vec<BuildingQueueItemDto>) -> (r: Vec<
    BuildingSlotDto,
>)
    ensures
        r@.len() == LAST_SLOT - FIRST_CENTER_SLOT + 1,
        forall|k: int|
            0 <= k < r@.len() ==> is_building_slot_dto(
                buildings@,
                queue@,
                (FIRST_CENTER_SLOT + k) as u8,
                #[trigger] r@[k],
            ),
{
    let mut out: Vec<BuildingSlotDto> = Vec::new();
    let mut slot_id: u8 = FIRST_CENTER_SLOT;
    while slot_id <= LAST_SLOT
        invariant
            FIRST_CENTER_SLOT <= slot_id <= LAST_SLOT + 1,
            out@.len() == slot_id - FIRST_CENTER_SLOT,
            forall|k: int|
                0 <= k < out@.len() ==> is_building_slot_dto(
                    buildings@,
                    queue@,
                    (FIRST_CENTER_SLOT + k) as u8,
                    #[trigger] out@[k],
                ),
        decreases LAST_SLOT + 1 - slot_id,
    {
        let dto = match building_in_slot(buildings, slot_id) {
            Some(b) => BuildingSlotDto {
                slot_id,
                building_name: Some(building_key(b.name)),
                level: b.level,
                in_queue: queue_status(queue, slot_id),
            },
            None => BuildingSlotDto {
                slot_id,
                building_name: None,
                level: 0,
                in_queue: queue_status(queue, slot_id),
            },
        };
        out.push(dto);
        slot_id = slot_id + 1;
    }
    out
}

/// Resource fields stand in slots 1 to 18.
pub open spec fn is_resource_field(b: VillageBuilding) -> bool {
    1 <= b.slot_id <= 18
}

/// `dto` describes resource field `field`.
pub open spec fn is_resource_slot_dto(field: VillageBuilding, queue: Seq<BuildingQueueItemDto>, dto: ResourceSlotDto) -> bool {
    &&& dto.slot_id == field.slot_id
    &&& dto.building_name@ == spec_building_key(field.name)
    &&& dto.level == field.level
    &&& dto.in_queue == spec_queue_status(queue, field.slot_id)
}

/// The resource fields of the village, in the order the village lists them.
pub fn resource_slots(buildings: &Vec<VillageBuilding>, queue: &Vec<BuildingQueueItemDto>) -> (r: Vec<
    ResourceSlotDto,
>)
    ensures
        r@.len() == buildings@.filter(|b: VillageBuilding| is_resource_field(b)).len(),
        forall|k: int|
            0 <= k < r@.len() ==> is_resource_slot_dto(
                buildings@.filter(|b: VillageBuilding| is_resource_field(b))[k],
                queue@,
                #[trigger] r@[k],
            ),
{
    let ghost pred = |b: VillageBuilding| is_resource_field(b);
    let mut out: Vec<ResourceSlotDto> = Vec::new();
    let mut i: usize = 0;
    while i < buildings.len()
        invariant
            i <= buildings@.len(),
            pred == (|b: VillageBuilding| is_resource_field(b)),
            out@.len() == buildings@.take(i as int).filter(pred).len(),
            forall|k: int|
                0 <= k < out@.len() ==> is_resource_slot_dto(
                    buildings@.take(i as int).filter(pred)[k],
                    queue@,
                    #[trigger] out@[k],
                ),
        decreases buildings.len() - i,
    {
        let b = buildings[i];
        proof {
            assert(buildings@.take(i + 1).drop_last() =~= buildings@.take(i as int));
            reveal(Seq::filter);
        }
        if 1 <= b.slot_id && b.slot_id <= 18 {
            out.push(
                ResourceSlotDto {
                    slot_id: b.slot_id,
                    building_name: building_key(b.name),
                    level: b.level,
                    in_queue: queue_status(queue, b.slot_id),
                },
            );
        }
        i = i + 1;
    }
    assert(buildings@.take(i as int) =~= buildings@);
    out
}

/// Groups of troop movements counted by the game context.
#[derive(Debug, Clone, Copy, PartialEq, Eq, Structural)]
pub enum MovementClass {
    /// Attacks and scouting runs.
    Attacks,
    Raids,
    /// Returns and reinforcements.
    ReturnsAndReinforcements,
    Reinforcements,
}

pub open spec fn in_class(class: MovementClass, t: TroopMovementType) -> bool {
    match class {
        MovementClass::Attacks => t == TroopMovementType::Attack || t == TroopMovementType::Scout,
        MovementClass::Raids => t == TroopMovementType::Raid,
        MovementClass::ReturnsAndReinforcements => t == TroopMovementType::Return || t
            == TroopMovementType::Reinforcement,
        MovementClass::Reinforcements => t == TroopMovementType::Reinforcement,
    }
}

fn is_in_class(class: MovementClass, t: TroopMovementType) -> (r: bool)
    ensures
        r == in_class(class, t),
{
    match class {
        MovementClass::Attacks => t == TroopMovementType::Attack || t == TroopMovementType::Scout,
        MovementClass::Raids => t == TroopMovementType::Raid,
        MovementClass::ReturnsAndReinforcements => t == TroopMovementType::Return || t
            == TroopMovementType::Reinforcement,
        MovementClass::Reinforcements => t == TroopMovementType::Reinforcement,
    }
}

/// Movements of a class among the first `n`, and the earliest arrival among them.
pub open spec fn class_summary(items: Seq<TroopMovement>, class: MovementClass, n: nat) -> (nat, Option<i64>)
    decreases n,
{
    if n == 0 {
        (0, None)
    } else {
        let (count, next) = class_summary(items, class, (n - 1) as nat);
        let m = items[n - 1];
        if in_class(class, m.movement_type) {
            (
                count + 1,
                match next {
                    Some(t) => Some(if m.arrives_at < t {
                        m.arrives_at
                    } else {
                        t
                    }),
                    None => Some(m.arrives_at),
                },
            )
        } else {
            (count, next)
        }
    }
}

proof fn lemma_class_count_bound(items: Seq<TroopMovement>, class: MovementClass, n: nat)
    ensures
        class_summary(items, class, n).0 <= n,
    decreases n,
{
    if n > 0 {
        lemma_class_count_bound(items, class, (n - 1) as nat);
    }
}

/// Counts the movements of a class and finds their earliest arrival.
pub fn summarize_movements(items: &Vec<TroopMovement>, class: MovementClass) -> (r: (usize, Option<i64>))
    ensures
        r.0 == class_summary(items@, class, items@.len()).0,
        r.1 == class_summary(items@, class, items@.len()).1,
{
    let mut count: usize = 0;
    let mut next: Option<i64> = None;
    let mut i: usize = 0;
    while i < items.len()
        invariant
            i <= items@.len(),
            count == class_summary(items@, class, i as nat).0,
            next == class_summary(items@, class, i as nat).1,
        decreases items.len() - i,
    {
        proof {
            lemma_class_count_bound(items@, class, i as nat);
        }
        let m = &items[i];
        if is_in_class(class, m.movement_type) {
            count = count + 1;
            next = match next {
                Some(t) => Some(if m.arrives_at < t {
                    m.arrives_at
                } else {
                    t
                }),
                None => Some(m.arrives_at),
            };
        }
        i = i + 1;
    }
    (count, next)
}

/// The troop movement summary of the game context.
pub fn troop_movement_summary(incoming: &Vec<TroopMovement>, outgoing: &Vec<TroopMovement>) -> (r:
    TroopMovementSummaryDto)
    ensures
        (r.incoming_attacks as nat, r.incoming_attacks_next_at) == class_summary(
            incoming@,
            MovementClass::Attacks,
            incoming@.len(),
        ),
        (r.incoming_raids as nat, r.incoming_raids_next_at) == class_summary(
            incoming@,
            MovementClass::Raids,
            incoming@.len(),
        ),
        (r.incoming_returns_reinforcements as nat, r.incoming_returns_reinforcements_next_at) == class_summary(
            incoming@,
            MovementClass::ReturnsAndReinforcements,
            incoming@.len(),
        ),
        (r.outgoing_attacks as nat, r.outgoing_attacks_next_at) == class_summary(
            outgoing@,
            MovementClass::Attacks,
            outgoing@.len(),
        ),
        (r.outgoing_raids as nat, r.outgoing_raids_next_at) == class_summary(
            outgoing@,
            MovementClass::Raids,
            outgoing@.len(),
        ),
        (r.outgoing_reinforcements as nat, r.outgoing_reinforcements_next_at) == class_summary(
            outgoing@,
            MovementClass::Reinforcements,
            outgoing@.len(),
        ),
{
    let (incoming_attacks, incoming_attacks_next_at) = summarize_movements(incoming, MovementClass::Attacks);
    let (incoming_raids, incoming_raids_next_at) = summarize_movements(incoming, MovementClass::Raids);
    let (incoming_returns_reinforcements, incoming_returns_reinforcements_next_at) = summarize_movements(
        incoming,
        MovementClass::ReturnsAndReinforcements,
    );
    let (outgoing_attacks, outgoing_attacks_next_at) = summarize_movements(outgoing, MovementClass::Attacks);
    let (outgoing_raids, outgoing_raids_next_at) = summarize_movements(outgoing, MovementClass::Raids);
    let (outgoing_reinforcements, outgoing_reinforcements_next_at) = summarize_movements(
        outgoing,
        MovementClass::Reinforcements,
    );
    TroopMovementSummaryDto {
        incoming_attacks,
        incoming_attacks_next_at,
        incoming_raids,
        incoming_raids_next_at,
        incoming_returns_reinforcements,
        incoming_returns_reinforcements_next_at,
        outgoing_attacks,
        outgoing_attacks_next_at,
        outgoing_raids,
        outgoing_raids_next_at,
        outgoing_reinforcements,
        outgoing_reinforcements_next_at,
    }
}

/// Everything the single-page client loads at start.
#[derive(Debug, Clone)]
pub struct GameContextResponse {
    pub server_time: i64,
    pub world_size: i32,
    pub server_speed: i8,
    pub unread_reports_count: i64,
    pub player: PlayerSummaryDto,
    pub current_village_id: u32,
    pub current_village: VillageSummaryDto,
    pub villages: Vec<VillageListItemDto>,
    pub building_slots: Vec<BuildingSlotDto>,
    pub resource_slots: Vec<ResourceSlotDto>,
    pub building_queue: Vec<BuildingQueueItemDto>,
    pub current_troops: Vec<CurrentTroopDto>,
    pub troop_movement_summary: TroopMovementSummaryDto,
}

/// The state of the current village that the game context reads.
pub struct VillageActivity<'a> {
    pub building_queue: &'a Vec<BuildingQueueItem>,
    pub home_army: &'a Option<crate::api::troops::ArmyUnits>,
    pub reinforcements: &'a Vec<crate::api::troops::ArmyUnits>,
    pub incoming: &'a Vec<TroopMovement>,
    pub outgoing: &'a Vec<TroopMovement>,
}

/// Assembles the game context of the signed-in user for village `village`
/// at time `now`.
pub fn game_context_response(
    server_time: i64,
    world_size: i32,
    server_speed: i8,
    unread_reports_count: i64,
    user: &CurrentUser,
    village: &Village,
    activity: &VillageActivity,
    now: i64,
) -> (r: GameContextResponse)
    requires
        village.population <= i32::MAX,
        forall|i: int|
            0 <= i < activity.building_queue@.len() ==> i64::MIN <= #[trigger] activity.building_queue@[i].finishes_at
                - now <= i64::MAX,
        forall|name: Seq<char>|
            #[trigger] crate::api::troops::count_for(
                crate::api::troops::troop_entries(*activity.home_army, activity.reinforcements@),
                name,
            ) <= u32::MAX,
    ensures
        r.server_time == server_time,
        r.world_size == world_size,
        r.server_speed == server_speed,
        r.unread_reports_count == unread_reports_count,
        r.player.id == user.player.id && r.player.username@ == user.player.username@ && r.player.tribe@
            == spec_tribe_key(user.player.tribe),
        r.current_village_id == village.id,
        r.current_village.id == village.id && r.current_village.name@ == village.name@,
        r.current_village.population == village.population,
        r.villages@.len() == user.villages@.len(),
        forall|i: int|
            0 <= i < user.villages@.len() ==> is_village_list_item(
                user.villages@[i],
                user.village.id,
                #[trigger] r.villages@[i],
            ),
        r.building_queue@.len() == activity.building_queue@.len(),
        forall|i: int|
            0 <= i < activity.building_queue@.len() ==> is_queue_item_dto(
                activity.building_queue@[i],
                now,
                #[trigger] r.building_queue@[i],
            ),
        r.building_slots@.len() == LAST_SLOT - FIRST_CENTER_SLOT + 1,
        forall|k: int|
            0 <= k < r.building_slots@.len() ==> is_building_slot_dto(
                village.buildings@,
                r.building_queue@,
                (FIRST_CENTER_SLOT + k) as u8,
                #[trigger] r.building_slots@[k],
            ),
        r.resource_slots@.len() == village.buildings@.filter(|b: VillageBuilding| is_resource_field(b)).len(),
        forall|k: int|
            0 <= k < r.resource_slots@.len() ==> is_resource_slot_dto(
                village.buildings@.filter(|b: VillageBuilding| is_resource_field(b))[k],
                r.building_queue@,
                #[trigger] r.resource_slots@[k],
            ),
        crate::api::troops::groups_troops(
            crate::api::troops::troop_entries(*activity.home_army, activity.reinforcements@),
            r.current_troops@,
        ),
        (r.troop_movement_summary.incoming_attacks as nat, r.troop_movement_summary.incoming_attacks_next_at)
            == class_summary(activity.incoming@, MovementClass::Attacks, activity.incoming@.len()),
        (r.troop_movement_summary.incoming_raids as nat, r.troop_movement_summary.incoming_raids_next_at)
            == class_summary(activity.incoming@, MovementClass::Raids, activity.incoming@.len()),
        (
            r.troop_movement_summary.incoming_returns_reinforcements as nat,
            r.troop_movement_summary.incoming_returns_reinforcements_next_at,
        ) == class_summary(activity.incoming@, MovementClass::ReturnsAndReinforcements, activity.incoming@.len()),
        (r.troop_movement_summary.outgoing_attacks as nat, r.troop_movement_summary.outgoing_attacks_next_at)
            == class_summary(activity.outgoing@, MovementClass::Attacks, activity.outgoing@.len()),
        (r.troop_movement_summary.outgoing_raids as nat, r.troop_movement_summary.outgoing_raids_next_at)
            == class_summary(activity.outgoing@, MovementClass::Raids, activity.outgoing@.len()),
        (
            r.troop_movement_summary.outgoing_reinforcements as nat,
            r.troop_movement_summary.outgoing_reinforcements_next_at,
        ) == class_summary(activity.outgoing@, MovementClass::Reinforcements, activity.outgoing@.len()),
{
    let building_queue = building_queue_items(activity.building_queue, now);
    let slots = building_slots(&village.buildings, &building_queue);
    let fields = resource_slots(&village.buildings, &building_queue);
    GameContextResponse {
        server_time,
        world_size,
        server_speed,
        unread_reports_count,
        player: player_summary(user),
        current_village_id: village.id,
        current_village: village_summary(village),
        villages: village_list(user),
        building_slots: slots,
        resource_slots: fields,
        building_queue,
        current_troops: crate::api::troops::current_troops(activity.home_army, activity.reinforcements),
        troop_movement_summary: troop_movement_summary(activity.incoming, activity.outgoing),
    }
}

/// A row of the leaderboard.
#[derive(Debug, Clone)]
pub struct LeaderboardEntryDto {
    pub player_id: String,
    pub rank: i64,
    pub username: String,
    pub tribe: String,
    pub village_count: i64,
    pub population: i64,
}

/// Page data of the leaderboard.
#[derive(Debug, Clone, Copy, PartialEq, Eq, Structural)]
pub struct PaginationDto {
    pub page: i64,
    pub per_page: i64,
    pub total_players: i64,
    pub total_pages: i64,
}

/// A leaderboard page.
#[derive(Debug, Clone)]
pub struct StatsResponse {
    pub server_time: i64,
    pub entries: Vec<LeaderboardEntryDto>,
    pub pagination: PaginationDto,
}

/// A village of a player's profile.
#[derive(Debug, Clone)]
pub struct PlayerVillageDto {
    pub village_id: u32,
    pub name: String,
    pub x: i32,
    pub y: i32,
    pub is_capital: bool,
    pub population: i32,
    pub distance_from_current: u32,
}

/// One of a player's villages on the player's profile, `distance_from_current`
/// fields away from the viewer's village (as the game's map measures it); the
/// population is shown as an `i32`.
pub fn player_village_dto(village: &Village, distance_from_current: u32) -> (r: PlayerVillageDto)
    ensures
        r.village_id == village.id,
        r.name@ == village.name@,
        r.x == village.position.x,
        r.y == village.position.y,
        r.is_capital == village.is_capital,
        r.population == village.population as i32,
        r.distance_from_current == distance_from_current,
{
    PlayerVillageDto {
        village_id: village.id,
        name: village.name.clone(),
        x: village.position.x,
        y: village.position.y,
        is_capital: village.is_capital,
        population: village.population as i32,
        distance_from_current,
    }
}

/// Page data of the report list.
#[derive(Debug, Clone, Copy, PartialEq, Eq, Structural)]
pub struct ReportsPaginationDto {
    pub page: i64,
    pub per_page: i64,
    pub has_more: bool,
}

/// A point of the map, in report documents.
#[derive(Debug, Clone, Copy, PartialEq, Eq, Structural)]
pub struct PositionDoc {
    pub x: i32,
    pub y: i32,
}

/// Resource amounts, in report documents.
#[derive(Debug, Clone, Copy, PartialEq, Eq, Structural)]
pub struct ResourceGroupDoc {
    pub lumber: u32,
    pub clay: u32,
    pub iron: u32,
    pub crop: u32,
}

/// Defence levels seen by scouts.
#[derive(Debug, Clone, Copy, PartialEq, Eq, Structural)]
pub struct ScoutingTargetDefensesDoc {
    pub wall: Option<u8>,
    pub palace: Option<u8>,
    pub residence: Option<u8>,
}

/// What scouts report.
#[derive(Debug, Clone, Copy, PartialEq, Eq, Structural)]
pub enum ScoutingTargetReportDoc {
    Resources(ResourceGroupDoc),
    Defenses(ScoutingTargetDefensesDoc),
}

/// A marketplace delivery report.
#[derive(Debug, Clone)]
pub struct MarketplaceDeliveryReportPayloadDoc {
    pub sender_player: String,
    pub sender_village: String,
    pub sender_position: PositionDoc,
    pub receiver_player: String,
    pub receiver_village: String,
    pub receiver_position: PositionDoc,
    pub resources: ResourceGroupDoc,
    pub merchants_used: u8,
}

/// A player on a leaderboard page, as the game ranks them.
#[derive(Debug, Clone)]
pub struct LeaderboardRow {
    pub player_id: u128,
    pub username: String,
    pub tribe: crate::model::Tribe,
    pub village_count: i64,
    pub population: i64,
}

/// `dto` is row `idx` of leaderboard page `page` for `row`.
pub open spec fn is_leaderboard_entry(row: LeaderboardRow, page: i64, idx: int, dto: LeaderboardEntryDto) -> bool {
    &&& dto.player_id@ == crate::ids::spec_uuid_hyphenated(row.player_id)
    &&& dto.rank == (page - 1) * crate::api::game::LEADERBOARD_PAGE_SIZE + idx + 1
    &&& dto.username@ == row.username@
    &&& dto.tribe@ == spec_tribe_key(row.tribe)
    &&& dto.village_count == row.village_count
    &&& dto.population == row.population
}

/// The answer for leaderboard page `page` of `total_pages`: its rows ranked
/// from the page's first rank on.
pub fn stats_response(
    server_time: i64,
    rows: &Vec<LeaderboardRow>,
    page: i64,
    total_players: i64,
    total_pages: i64,
) -> (r: StatsResponse)
    requires
        page >= 1,
        rows@.len() > 0 ==> (page - 1) * crate::api::game::LEADERBOARD_PAGE_SIZE + rows@.len() <= i64::MAX,
    ensures
        r.server_time == server_time,
        r.entries@.len() == rows@.len(),
        forall|i: int| 0 <= i < rows@.len() ==> is_leaderboard_entry(rows@[i], page, i, #[trigger] r.entries@[i]),
        r.pagination == (PaginationDto {
            page,
            per_page: crate::api::game::LEADERBOARD_PAGE_SIZE,
            total_players,
            total_pages: if total_pages < 1 {
                1
            } else {
                total_pages
            },
        }),
{
    let mut entries: Vec<LeaderboardEntryDto> = Vec::new();
    let mut i: usize = 0;
    while i < rows.len()
        invariant
            i <= rows@.len(),
            page >= 1,
            rows@.len() > 0 ==> (page - 1) * crate::api::game::LEADERBOARD_PAGE_SIZE + rows@.len() <= i64::MAX,
            entries@.len() == i,
            forall|k: int| 0 <= k < i ==> is_leaderboard_entry(rows@[k], page, k, #[trigger] entries@[k]),
        decreases rows.len() - i,
    {
        let row = &rows[i];
        entries.push(
            LeaderboardEntryDto {
                player_id: crate::ids::uuid_to_string(row.player_id),
                rank: crate::api::game::leaderboard_rank(page, i),
                username: row.username.clone(),
                tribe: tribe_key(row.tribe),
                village_count: row.village_count,
                population: row.population,
            },
        );
        i = i + 1;
    }
    StatsResponse {
        server_time,
        entries,
        pagination: PaginationDto {
            page,
            per_page: crate::api::game::LEADERBOARD_PAGE_SIZE,
            total_players,
            total_pages: if total_pages < 1 {
                1
            } else {
                total_pages
            },
        },
    }
}

} // verus!
