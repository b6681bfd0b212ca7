//! Training buildings: the units they offer, their queues, the trapper's
//! section, and how many chiefs and settlers a village has committed to
//! expansion.

use vstd::prelude::*;

use crate::api::buildings::{saturating_add_u32, amounts_of, resource_amounts, TrainingUnitOptionDto};
use crate::api::dto::ScheduledActionStatus;
use crate::api::dto::ResourceAmountsDto;
use crate::model::{unit_count, get_unit_count, BuildingName, ResourceGroup, TribeUnit, UnitRole};

verus! {

/// A queued training job.
#[derive(Debug, Clone)]
pub struct TrainingQueueItem {
    pub slot_id: u8,
    pub unit_name: String,
    /// Whether the unit is a chief (senator, chieftain) or a settler.
    pub expansion_role: Option<ExpansionRole>,
    pub quantity: i32,
    pub time_per_unit: i32,
    /// Completion time, unix seconds.
    pub finishes_at: i64,
}

/// The two kinds of expansion units.
#[derive(Debug, Clone, Copy, PartialEq, Eq, Structural)]
pub enum ExpansionRole {
    Chief,
    Settler,
}

/// A training job as a training building lists it.
#[derive(Debug, Clone)]
pub struct TrainingQueueItemDto {
    pub quantity: u32,
    pub unit_name: String,
    pub time_per_unit: u32,
    pub finishes_at: i64,
}

/// A count that cannot be negative: negative values read as zero.
pub open spec fn non_negative(v: i32) -> u32 {
    if v < 0 {
        0
    } else {
        v as u32
    }
}

/// `dto` lists training job `item`.
pub open spec fn is_training_queue_dto(item: TrainingQueueItem, dto: TrainingQueueItemDto) -> bool {
    &&& dto.quantity == non_negative(item.quantity)
    &&& dto.unit_name@ == item.unit_name@
    &&& dto.time_per_unit == non_negative(item.time_per_unit)
    &&& dto.finishes_at == item.finishes_at
}

/// The training jobs of slot `slot_id`, in queue order.
pub fn training_queue_for_slot(slot_id: u8, queue: &Vec<TrainingQueueItem>) -> (r: Vec<TrainingQueueItemDto>)
    ensures
        ({
            let jobs = queue@.filter(|q: TrainingQueueItem| q.slot_id == slot_id);
            &&& r@.len() == jobs.len()
            &&& forall|k: int| 0 <= k < r@.len() ==> is_training_queue_dto(jobs[k], #[trigger] r@[k])
        }),
{
    let ghost pred = |q: TrainingQueueItem| q.slot_id == slot_id;
    let mut out: Vec<TrainingQueueItemDto> = Vec::new();
    let mut i: usize = 0;
    while i < queue.len()
        invariant
            i <= queue@.len(),
            pred == (|q: TrainingQueueItem| q.slot_id == slot_id),
            out@.len() == queue@.take(i as int).filter(pred).len(),
            forall|k: int|
                0 <= k < out@.len() ==> is_training_queue_dto(queue@.take(i as int).filter(pred)[k], #[trigger] out@[k]),
        decreases queue.len() - i,
    {
        proof {
            assert(queue@.take(i + 1).drop_last() =~= queue@.take(i as int));
            reveal(Seq::filter);
        }
        let item = &queue[i];
        if item.slot_id == slot_id {
            let quantity: u32 = if item.quantity < 0 {
                0
            } else {
                item.quantity as u32
            };
            let time_per_unit: u32 = if item.time_per_unit < 0 {
                0
            } else {
                item.time_per_unit as u32
            };
            out.push(
                TrainingQueueItemDto {
                    quantity,
                    unit_name: item.unit_name.clone(),
                    time_per_unit,
                    finishes_at: item.finishes_at,
                },
            );
        }
        i = i + 1;
    }
    assert(queue@.take(i as int) =~= queue@);
    out
}

/// A queued trap-building job.
#[derive(Debug, Clone, Copy, PartialEq, Eq, Structural)]
pub struct TrapQueueItem {
    pub quantity: i32,
    pub time_per_trap: i32,
    pub finishes_at: i64,
    pub status: ScheduledActionStatus,
}

/// A trap job as the trapper lists it.
#[derive(Debug, Clone, Copy, PartialEq, Eq, Structural)]
pub struct TrapQueueItemDto {
    pub quantity: u32,
    pub time_per_trap: u32,
    pub finishes_at: i64,
    pub is_processing: bool,
}

pub open spec fn spec_trap_queue_dto(item: TrapQueueItem) -> TrapQueueItemDto {
    TrapQueueItemDto {
        quantity: non_negative(item.quantity),
        time_per_trap: non_negative(item.time_per_trap),
        finishes_at: item.finishes_at,
        is_processing: item.status == ScheduledActionStatus::Processing,
    }
}

/// The trapper's queue, in order.
pub fn trap_queue(queue: &Vec<TrapQueueItem>) -> (r: Vec<TrapQueueItemDto>)
    ensures
        r@ == queue@.map_values(|q: TrapQueueItem| spec_trap_queue_dto(q)),
{
    let mut out: Vec<TrapQueueItemDto> = Vec::new();
    let mut i: usize = 0;
    while i < queue.len()
        invariant
            i <= queue@.len(),
            out@ == queue@.take(i as int).map_values(|q: TrapQueueItem| spec_trap_queue_dto(q)),
        decreases queue.len() - i,
    {
        let item = queue[i];
        out.push(
            TrapQueueItemDto {
                quantity: if item.quantity < 0 {
                    0
                } else {
                    item.quantity as u32
                },
                time_per_trap: if item.time_per_trap < 0 {
                    0
                } else {
                    item.time_per_trap as u32
                },
                finishes_at: item.finishes_at,
                is_processing: item.status == ScheduledActionStatus::Processing,
            },
        );
        assert(out@ =~= queue@.take(i + 1).map_values(|q: TrapQueueItem| spec_trap_queue_dto(q)));
        i = i + 1;
    }
    assert(queue@.take(i as int) =~= queue@);
    out
}

/// Units of type `idx` among the first `n` armies.
pub open spec fn deployed_count(armies: Seq<Vec<u32>>, idx: int, n: nat) -> int
    decreases n,
{
    if n == 0 {
        0
    } else {
        deployed_count(armies, idx, (n - 1) as nat) + unit_count(armies[n - 1]@, idx)
    }
}

/// Expansion units of role `role` queued among the first `n` jobs (saturating).
pub open spec fn queued_expansion(queue: Seq<TrainingQueueItem>, role: ExpansionRole, n: nat) -> u32
    decreases n,
{
    if n == 0 {
        0
    } else {
        let before = queued_expansion(queue, role, (n - 1) as nat);
        if queue[n - 1].expansion_role == Some(role) {
            saturating_add_u32(before, non_negative(queue[n - 1].quantity))
        } else {
            before
        }
    }
}

/// Index of the chief among a tribe's unit types.
pub const CHIEF_IDX: usize = 8;

/// Index of the settler among a tribe's unit types.
pub const SETTLER_IDX: usize = 9;

fn deployed_units(armies: &Vec<Vec<u32>>, idx: usize) -> (r: u32)
    requires
        deployed_count(armies@, idx as int, armies@.len()) <= u32::MAX,
    ensures
        r == deployed_count(armies@, idx as int, armies@.len()),
{
    let mut total: u32 = 0;
    let mut i: usize = 0;
    while i < armies.len()
        invariant
            i <= armies@.len(),
            deployed_count(armies@, idx as int, armies@.len()) <= u32::MAX,
            total == deployed_count(armies@, idx as int, i as nat),
        decreases armies.len() - i,
    {
        proof {
            lemma_deployed_grows(armies@, idx as int, (i + 1) as nat, armies@.len());
        }
        total = total + get_unit_count(&armies[i], idx);
        i = i + 1;
    }
    total
}

proof fn lemma_deployed_grows(armies: Seq<Vec<u32>>, idx: int, i: nat, n: nat)
    requires
        i <= n,
    ensures
        0 <= deployed_count(armies, idx, i) <= deployed_count(armies, idx, n),
    decreases n,
{
    if n > 0 {
        if i < n {
            lemma_deployed_grows(armies, idx, i, (n - 1) as nat);
        } else {
            lemma_deployed_grows(armies, idx, (n - 1) as nat, (n - 1) as nat);
        }
    }
}

fn queued_units(queue: &Vec<TrainingQueueItem>, role: ExpansionRole) -> (r: u32)
    ensures
        r == queued_expansion(queue@, role, queue@.len()),
{
    let mut total: u32 = 0;
    let mut i: usize = 0;
    while i < queue.len()
        invariant
            i <= queue@.len(),
            total == queued_expansion(queue@, role, i as nat),
        decreases queue.len() - i,
    {
        if queue[i].expansion_role == Some(role) {
            let q: u32 = if queue[i].quantity < 0 {
                0
            } else {
                queue[i].quantity as u32
            };
            total = total.saturating_add(q);
        }
        i = i + 1;
    }
    total
}

/// Chiefs and settlers a village has committed: at home, deployed, queued
/// (counted with saturation) and on the move.
#[derive(Debug, Clone, Copy, PartialEq, Eq, Structural)]
pub struct ExpansionCommitment {
    pub chiefs: u32,
    pub settlers: u32,
}

/// The chiefs and settlers committed by a village: `at_home` are those of the
/// home army, `deployed` the unit counts of the armies it deployed, `moving`
/// the chiefs and settlers on the way.
pub fn expansion_commitment(
    at_home: (u32, u32),
    deployed: &Vec<Vec<u32>>,
    queue: &Vec<TrainingQueueItem>,
    moving: (u32, u32),
) -> (r: ExpansionCommitment)
    requires
        at_home.0 + deployed_count(deployed@, CHIEF_IDX as int, deployed@.len()) + queued_expansion(
            queue@,
            ExpansionRole::Chief,
            queue@.len(),
        ) + moving.0 <= u32::MAX,
        at_home.1 + deployed_count(deployed@, SETTLER_IDX as int, deployed@.len()) + queued_expansion(
            queue@,
            ExpansionRole::Settler,
            queue@.len(),
        ) + moving.1 <= u32::MAX,
    ensures
        r.chiefs == at_home.0 + deployed_count(deployed@, CHIEF_IDX as int, deployed@.len()) + queued_expansion(
            queue@,
            ExpansionRole::Chief,
            queue@.len(),
        ) + moving.0,
        r.settlers == at_home.1 + deployed_count(deployed@, SETTLER_IDX as int, deployed@.len())
            + queued_expansion(queue@, ExpansionRole::Settler, queue@.len()) + moving.1,
{
    proof {
        lemma_deployed_grows(deployed@, CHIEF_IDX as int, 0, deployed@.len());
        lemma_deployed_grows(deployed@, SETTLER_IDX as int, 0, deployed@.len());
    }
    let chiefs_deployed = deployed_units(deployed, CHIEF_IDX);
    let settlers_deployed = deployed_units(deployed, SETTLER_IDX);
    let chiefs_queued = queued_units(queue, ExpansionRole::Chief);
    let settlers_queued = queued_units(queue, ExpansionRole::Settler);
    ExpansionCommitment {
        chiefs: at_home.0 + chiefs_deployed + chiefs_queued + moving.0,
        settlers: at_home.1 + settlers_deployed + settlers_queued + moving.1,
    }
}

/// Expansion slots left free: the village's available slots less those its
/// chiefs and settlers take (counted in a `u8`, so modulo 256), not below zero.
pub open spec fn spec_free_expansion_slots(available: u8, committed: u32) -> u8 {
    let used = (committed % 256) as u8;
    if available >= used {
        (available - used) as u8
    } else {
        0
    }
}

/// The expansion slots still free for training chiefs and settlers.
pub fn free_expansion_slots(available: u8, committed: u32) -> (r: u8)
    ensures
        r == spec_free_expansion_slots(available, committed),
{
    let used = committed as u8;
    assert(used == committed % 256) by (bit_vector)
        requires
            used == committed as u8,
    ;
    available.saturating_sub(used)
}

/// A unit that a training building could offer, as the game reports it for a
/// village: its position in the tribe's roster (none when the roster lacks it),
/// its upkeep in this village and its training time per unit in seconds.
#[derive(Debug, Clone)]
pub struct TrainableUnit {
    pub unit: TribeUnit,
    pub roster_idx: Option<u8>,
    pub upkeep: u32,
    pub time_secs: u32,
}

/// How many units of `role` the free expansion slots allow (`caps` holds the
/// limits for chiefs and settlers); no limit for other roles.
pub open spec fn expansion_cap(role: UnitRole, caps: (u32, u32)) -> Option<u32> {
    match role {
        UnitRole::Chief => Some(caps.0),
        UnitRole::Settler => Some(caps.1),
        _ => None,
    }
}

/// A unit is offered when the roster knows it and, for a chief or a settler,
/// when the free slots allow at least one.
pub open spec fn is_offered_unit(t: TrainableUnit, caps: (u32, u32)) -> bool {
    &&& t.roster_idx is Some
    &&& expansion_cap(t.unit.stats.role, caps) != Some(0u32)
}

/// `dto` describes the training of unit `t`.
pub open spec fn is_training_option(t: TrainableUnit, caps: (u32, u32), dto: TrainingUnitOptionDto) -> bool {
    &&& t.roster_idx == Some(dto.unit_idx)
    &&& dto.name@ == t.unit.name@
    &&& dto.max_trainable == expansion_cap(t.unit.stats.role, caps)
    &&& dto.cost == amounts_of(t.unit.cost)
    &&& dto.upkeep == t.upkeep
    &&& dto.attack == t.unit.stats.attack
    &&& dto.defense_infantry == t.unit.stats.defense_infantry
    &&& dto.defense_cavalry == t.unit.stats.defense_cavalry
    &&& dto.speed == t.unit.stats.speed
    &&& dto.capacity == t.unit.capacity
    &&& dto.time_secs == t.time_secs
}

fn names_contain(names: &Vec<BuildingName>, name: BuildingName) -> (r: bool)
    ensures
        r == names@.contains(name),
{
    let mut i: usize = 0;
    while i < names.len()
        invariant
            i <= names@.len(),
            forall|k: int| 0 <= k < i ==> names@[k] != name,
        decreases names.len() - i,
    {
        if names[i] == name {
            assert(names@[i as int] == name);
            return true;
        }
        i = i + 1;
    }
    false
}

fn cap_for(role: UnitRole, caps: (u32, u32)) -> (r: Option<u32>)
    ensures
        r == expansion_cap(role, caps),
{
    match role {
        UnitRole::Chief => Some(caps.0),
        UnitRole::Settler => Some(caps.1),
        _ => None,
    }
}

/// The units that the training building `building` offers. A building that is
/// not one of `expected` (those that train this group of units) offers none;
/// otherwise each of `units` is offered, in order, when the roster knows it and,
/// for a chief or a settler, when `caps` (the chiefs and the settlers that the
/// free expansion slots allow) leaves room for one; those two carry that limit.
pub fn training_unit_options(
    building: BuildingName,
    expected: &Vec<BuildingName>,
    units: &Vec<TrainableUnit>,
    caps: (u32, u32),
) -> (r: Vec<TrainingUnitOptionDto>)
    ensures
        !expected@.contains(building) ==> r@.len() == 0,
        expected@.contains(building) ==> {
            &&& r@.len() == units@.filter(|t: TrainableUnit| is_offered_unit(t, caps)).len()
            &&& forall|k: int|
                0 <= k < r@.len() ==> is_training_option(
                    units@.filter(|t: TrainableUnit| is_offered_unit(t, caps))[k],
                    caps,
                    #[trigger] r@[k],
                )
        },
{
    let mut out: Vec<TrainingUnitOptionDto> = Vec::new();
    if !names_contain(expected, building) {
        return out;
    }
    let ghost pred = |t: TrainableUnit| is_offered_unit(t, caps);
    let mut i: usize = 0;
    while i < units.len()
        invariant
            i <= units@.len(),
            pred == (|t: TrainableUnit| is_offered_unit(t, caps)),
            out@.len() == units@.take(i as int).filter(pred).len(),
            forall|k: int|
                0 <= k < out@.len() ==> is_training_option(
                    units@.take(i as int).filter(pred)[k],
                    caps,
                    #[trigger] out@[k],
                ),
        decreases units.len() - i,
    {
        let t = &units[i];
        proof {
            assert(units@.take(i + 1).drop_last() =~= units@.take(i as int));
            reveal(Seq::filter);
        }
        let cap = cap_for(t.unit.stats.role, caps);
        let blocked = match cap {
            Some(n) => n == 0,
            None => false,
        };
        if !blocked {
            match t.roster_idx {
                Some(idx) => {
                    out.push(
                        TrainingUnitOptionDto {
                            unit_idx: idx,
                            name: t.unit.name.clone(),
                            max_trainable: cap,
                            cost: resource_amounts(&t.unit.cost),
                            upkeep: t.upkeep,
                            attack: t.unit.stats.attack,
                            defense_infantry: t.unit.stats.defense_infantry,
                            defense_cavalry: t.unit.stats.defense_cavalry,
                            speed: t.unit.stats.speed,
                            capacity: t.unit.capacity,
                            time_secs: t.time_secs,
                        },
                    );
                },
                None => {},
            }
        }
        i = i + 1;
    }
    assert(units@.take(i as int) =~= units@);
    out
}

/// Groups of units, each trained by its own kind of building.
#[derive(Debug, Clone, Copy, PartialEq, Eq, Structural)]
pub enum UnitGroup {
    Infantry,
    Cavalry,
    Siege,
    Expansion,
}

/// The group of units that a building trains, with the buildings that train
/// that group; none for a building that trains nothing.
pub open spec fn spec_training_group(name: BuildingName) -> Option<(UnitGroup, Seq<BuildingName>)> {
    match name {
        BuildingName::Barracks | BuildingName::GreatBarracks => Some(
            (UnitGroup::Infantry, seq![BuildingName::Barracks, BuildingName::GreatBarracks]),
        ),
        BuildingName::Stable | BuildingName::GreatStable => Some(
            (UnitGroup::Cavalry, seq![BuildingName::Stable, BuildingName::GreatStable]),
        ),
        BuildingName::Workshop | BuildingName::GreatWorkshop => Some(
            (UnitGroup::Siege, seq![BuildingName::Workshop, BuildingName::GreatWorkshop]),
        ),
        BuildingName::Residence | BuildingName::Palace => Some(
            (UnitGroup::Expansion, seq![BuildingName::Residence, BuildingName::Palace]),
        ),
        _ => None,
    }
}

/// The group of units that `name` trains and the buildings that train it.
pub fn training_group(name: BuildingName) -> (r: Option<(UnitGroup, Vec<BuildingName>)>)
    ensures
        r is None <==> spec_training_group(name) is None,
        r matches Some(g) ==> spec_training_group(name) == Some((g.0, g.1@)),
{
    match name {
        BuildingName::Barracks | BuildingName::GreatBarracks => Some(
            (UnitGroup::Infantry, vec![BuildingName::Barracks, BuildingName::GreatBarracks]),
        ),
        BuildingName::Stable | BuildingName::GreatStable => Some(
            (UnitGroup::Cavalry, vec![BuildingName::Stable, BuildingName::GreatStable]),
        ),
        BuildingName::Workshop | BuildingName::GreatWorkshop => Some(
            (UnitGroup::Siege, vec![BuildingName::Workshop, BuildingName::GreatWorkshop]),
        ),
        BuildingName::Residence | BuildingName::Palace => Some(
            (UnitGroup::Expansion, vec![BuildingName::Residence, BuildingName::Palace]),
        ),
        _ => None,
    }
}

/// The trapper's counts of traps, as the game reports them for a village.
#[derive(Debug, Clone, Copy, PartialEq, Eq, Structural)]
pub struct TrapperCounts {
    pub capacity: u32,
    pub active: u32,
    pub occupied: u32,
    pub broken: u32,
    pub queued: u32,
    pub buildable: u32,
}

/// What the trapper section of a building page shows.
#[derive(Debug, Clone)]
pub struct TrapperDetailDto {
    pub capacity: u32,
    pub active: u32,
    pub occupied: u32,
    pub broken: u32,
    pub queued: u32,
    pub buildable: u32,
    pub queue: Vec<TrapQueueItemDto>,
    pub cost_per_trap: ResourceAmountsDto,
    pub time_per_trap_seconds: u32,
}

/// The trapper section: none for a village without trap capacity; otherwise
/// its counts, its queue in order, and the cost and time of one trap.
pub fn trapper_detail(
    counts: TrapperCounts,
    queue: &Vec<TrapQueueItem>,
    cost_per_trap: &ResourceGroup,
    time_per_trap_seconds: u32,
) -> (r: Option<TrapperDetailDto>)
    ensures
        r is None <==> counts.capacity == 0,
        r matches Some(d) ==> {
            &&& d.capacity == counts.capacity
            &&& d.active == counts.active
            &&& d.occupied == counts.occupied
            &&& d.broken == counts.broken
            &&& d.queued == counts.queued
            &&& d.buildable == counts.buildable
            &&& d.queue@ == queue@.map_values(|q: TrapQueueItem| spec_trap_queue_dto(q))
            &&& d.cost_per_trap == amounts_of(*cost_per_trap)
            &&& d.time_per_trap_seconds == time_per_trap_seconds
        },
{
    if counts.capacity == 0 {
        return None;
    }
    Some(
        TrapperDetailDto {
            capacity: counts.capacity,
            active: counts.active,
            occupied: counts.occupied,
            broken: counts.broken,
            queued: counts.queued,
            buildable: counts.buildable,
            queue: trap_queue(queue),
            cost_per_trap: resource_amounts(cost_per_trap),
            time_per_trap_seconds,
        },
    )
}

} // verus!
