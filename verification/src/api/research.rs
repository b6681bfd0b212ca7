//! The academy and the smithy: which units can be researched or improved,
//! which are locked by missing buildings, and the queues of both.

use vstd::prelude::*;

use crate::api::buildings::{
    amounts_of, missing_requirements, reports_unmet, resource_amounts, saturating_add_u8, unmet_requirements,
    AcademyResearchOptionDto, SmithyUpgradeOptionDto, SMITHY_LEVEL_CAP,
};
use crate::api::dto::ScheduledActionStatus;
use crate::model::{ResourceGroup, TribeUnit, VillageBuilding};
use crate::text::str_eq;

verus! {

/// A queued academy or smithy job.
#[derive(Debug, Clone)]
pub struct ResearchQueueItem {
    pub unit_name: String,
    /// Completion time, unix seconds.
    pub finishes_at: i64,
    pub status: ScheduledActionStatus,
}

/// A research job as the academy lists it.
#[derive(Debug, Clone)]
pub struct AcademyQueueItemDto {
    pub unit_name: String,
    pub finishes_at: i64,
    pub is_processing: bool,
}

/// A smithy job with the level it brings the unit to.
#[derive(Debug, Clone)]
pub struct SmithyQueueItemDto {
    pub unit_name: String,
    pub target_level: u8,
    pub finishes_at: i64,
    pub is_processing: bool,
}

/// The academy page's lists.
#[derive(Debug, Clone)]
pub struct AcademyOptions {
    pub ready: Vec<AcademyResearchOptionDto>,
    pub locked: Vec<AcademyResearchOptionDto>,
    pub researched: Vec<String>,
}

/// Unit type `idx` is researched at the academy.
pub open spec fn is_researched_at(research: Seq<bool>, idx: int) -> bool {
    0 <= idx < research.len() && research[idx]
}

/// Some queued job concerns the unit named `name`.
pub open spec fn is_queued_unit(queue: Seq<ResearchQueueItem>, name: Seq<char>) -> bool {
    exists|i: int| 0 <= i < queue.len() && #[trigger] queue[i].unit_name@ == name
}

fn unit_is_queued(queue: &Vec<ResearchQueueItem>, name: &String) -> (r: bool)
    ensures
        r == is_queued_unit(queue@, name@),
{
    let mut i: usize = 0;
    while i < queue.len()
        invariant
            i <= queue@.len(),
            forall|j: int| 0 <= j < i ==> #[trigger] queue@[j].unit_name@ != name@,
        decreases queue.len() - i,
    {
        if str_eq(queue[i].unit_name.as_str(), name.as_str()) {
            return true;
        }
        i = i + 1;
    }
    false
}

/// Unit type `idx` can be researched: not researched yet, nothing missing.
pub open spec fn can_research(units: Seq<TribeUnit>, research: Seq<bool>, buildings: Seq<VillageBuilding>, idx: int) -> bool {
    !is_researched_at(research, idx) && unmet_requirements(buildings, units[idx].requirements@).len() == 0
}

/// Unit types offered for research now: researchable and not queued.
pub open spec fn is_ready_unit(
    units: Seq<TribeUnit>,
    research: Seq<bool>,
    buildings: Seq<VillageBuilding>,
    queue: Seq<ResearchQueueItem>,
    idx: int,
) -> bool {
    can_research(units, research, buildings, idx) && !is_queued_unit(queue, units[idx].name@)
}

/// Unit types shown locked: not researched and lacking buildings.
pub open spec fn is_locked_unit(units: Seq<TribeUnit>, research: Seq<bool>, buildings: Seq<VillageBuilding>, idx: int) -> bool {
    !is_researched_at(research, idx) && !can_research(units, research, buildings, idx)
}

/// The positions `0..n`.
pub open spec fn positions(n: nat) -> Seq<int> {
    Seq::new(n, |i: int| i)
}

/// `dto` offers unit type `u` for research, taking `time_secs`.
pub open spec fn is_research_option(buildings: Seq<VillageBuilding>, u: TribeUnit, time_secs: u32, dto: AcademyResearchOptionDto) -> bool {
    &&& dto.unit_name@ == u.name@
    &&& dto.cost == amounts_of(u.research_cost)
    &&& dto.time_secs == time_secs
    &&& reports_unmet(buildings, u.requirements@, dto.missing_requirements@)
}

/// `out` offers exactly the unit types at positions `idxs`.
pub open spec fn offers_units(
    buildings: Seq<VillageBuilding>,
    units: Seq<TribeUnit>,
    times: Seq<u32>,
    idxs: Seq<int>,
    out: Seq<AcademyResearchOptionDto>,
) -> bool {
    &&& out.len() == idxs.len()
    &&& forall|k: int| 0 <= k < out.len() ==> is_research_option(buildings, units[idxs[k]], times[idxs[k]], #[trigger] out[k])
}

/// Splits the tribe's units for the academy: researchable now, locked by
/// missing buildings, and already researched (by name). Units that can be
/// researched but are queued are in no list. `times` are the research times
/// at the server's speed.
pub fn academy_options(
    units: &Vec<TribeUnit>,
    times: &Vec<u32>,
    research: &Vec<bool>,
    buildings: &Vec<VillageBuilding>,
    queue: &Vec<ResearchQueueItem>,
) -> (r: AcademyOptions)
    requires
        times@.len() == units@.len(),
    ensures
        offers_units(
            buildings@,
            units@,
            times@,
            positions(units@.len()).filter(|i: int| is_ready_unit(units@, research@, buildings@, queue@, i)),
            r.ready@,
        ),
        offers_units(
            buildings@,
            units@,
            times@,
            positions(units@.len()).filter(|i: int| is_locked_unit(units@, research@, buildings@, i)),
            r.locked@,
        ),
        ({
            let done = positions(units@.len()).filter(|i: int| is_researched_at(research@, i));
            &&& r.researched@.len() == done.len()
            &&& forall|k: int| 0 <= k < done.len() ==> #[trigger] r.researched@[k]@ == units@[done[k]].name@
        }),
{
    let ghost p_ready = |i: int| is_ready_unit(units@, research@, buildings@, queue@, i);
    let ghost p_locked = |i: int| is_locked_unit(units@, research@, buildings@, i);
    let ghost p_done = |i: int| is_researched_at(research@, i);
    let ghost all = positions(units@.len());
    let mut ready: Vec<AcademyResearchOptionDto> = Vec::new();
    let mut locked: Vec<AcademyResearchOptionDto> = Vec::new();
    let mut researched: Vec<String> = Vec::new();
    let mut i: usize = 0;
    while i < units.len()
        invariant
            i <= units@.len(),
            times@.len() == units@.len(),
            all == positions(units@.len()),
            p_ready == (|i: int| is_ready_unit(units@, research@, buildings@, queue@, i)),
            p_locked == (|i: int| is_locked_unit(units@, research@, buildings@, i)),
            p_done == (|i: int| is_researched_at(research@, i)),
            offers_units(buildings@, units@, times@, all.take(i as int).filter(p_ready), ready@),
            offers_units(buildings@, units@, times@, all.take(i as int).filter(p_locked), locked@),
            researched@.len() == all.take(i as int).filter(p_done).len(),
            forall|k: int|
                0 <= k < researched@.len() ==> #[trigger] researched@[k]@ == units@[all.take(
                    i as int,
                ).filter(p_done)[k]].name@,
        decreases units.len() - i,
    {
        proof {
            assert(all.take(i + 1).drop_last() =~= all.take(i as int));
            assert(all.take(i + 1).last() == i);
            reveal(Seq::filter);
        }
        let unit = &units[i];
        let is_researched = i < research.len() && research[i];
        let is_queued = unit_is_queued(queue, &unit.name);
        let missing = missing_requirements(buildings, &unit.requirements);
        let can = !is_researched && missing.len() == 0;
        if is_researched {
            researched.push(unit.name.clone());
        } else {
            let option = AcademyResearchOptionDto {
                unit_name: unit.name.clone(),
                cost: resource_amounts(&unit.research_cost),
                time_secs: times[i],
                missing_requirements: missing,
            };
            if can && !is_queued {
                ready.push(option);
            } else if !can {
                locked.push(option);
            }
        }
        i = i + 1;
    }
    assert(all.take(i as int) =~= all);
    AcademyOptions { ready, locked, researched }
}

/// `dto` lists research job `item`.
pub open spec fn is_academy_queue_dto(item: ResearchQueueItem, dto: AcademyQueueItemDto) -> bool {
    &&& dto.unit_name@ == item.unit_name@
    &&& dto.finishes_at == item.finishes_at
    &&& dto.is_processing == (item.status == ScheduledActionStatus::Processing)
}

/// The academy's queue, in order.
pub fn academy_queue(queue: &Vec<ResearchQueueItem>) -> (r: Vec<AcademyQueueItemDto>)
    ensures
        r@.len() == queue@.len(),
        forall|k: int| 0 <= k < queue@.len() ==> is_academy_queue_dto(queue@[k], #[trigger] r@[k]),
{
    let mut out: Vec<AcademyQueueItemDto> = Vec::new();
    let mut i: usize = 0;
    while i < queue.len()
        invariant
            i <= queue@.len(),
            out@.len() == i,
            forall|k: int| 0 <= k < i ==> is_academy_queue_dto(queue@[k], #[trigger] out@[k]),
        decreases queue.len() - i,
    {
        out.push(
            AcademyQueueItemDto {
                unit_name: queue[i].unit_name.clone(),
                finishes_at: queue[i].finishes_at,
                is_processing: queue[i].status == ScheduledActionStatus::Processing,
            },
        );
        i = i + 1;
    }
    out
}

/// Smithy jobs among the first `n` that concern the unit named `name`.
pub open spec fn jobs_for(queue: Seq<ResearchQueueItem>, name: Seq<char>, n: nat) -> nat
    decreases n,
{
    if n == 0 {
        0
    } else {
        jobs_for(queue, name, (n - 1) as nat) + if queue[n - 1].unit_name@ == name {
            1nat
        } else {
            0nat
        }
    }
}

proof fn lemma_jobs_for_grows(queue: Seq<ResearchQueueItem>, name: Seq<char>, i: nat, n: nat)
    requires
        i <= n,
    ensures
        jobs_for(queue, name, i) <= jobs_for(queue, name, n),
    decreases n,
{
    if i < n {
        lemma_jobs_for_grows(queue, name, i, (n - 1) as nat);
    }
}

fn count_jobs_for(queue: &Vec<ResearchQueueItem>, name: &String) -> (r: u8)
    requires
        jobs_for(queue@, name@, queue@.len()) <= u8::MAX,
    ensures
        r == jobs_for(queue@, name@, queue@.len()),
{
    let mut count: u8 = 0;
    let mut i: usize = 0;
    while i < queue.len()
        invariant
            i <= queue@.len(),
            jobs_for(queue@, name@, queue@.len()) <= u8::MAX,
            count == jobs_for(queue@, name@, i as nat),
        decreases queue.len() - i,
    {
        proof {
            lemma_jobs_for_grows(queue@, name@, (i + 1) as nat, queue@.len());
        }
        if str_eq(queue[i].unit_name.as_str(), name.as_str()) {
            count = count + 1;
        }
        i = i + 1;
    }
    count
}

/// `dto` lists smithy job `k` of the queue: the level it brings its unit to
/// is the number of jobs for that unit up to and including it.
pub open spec fn is_smithy_queue_dto(queue: Seq<ResearchQueueItem>, k: int, dto: SmithyQueueItemDto) -> bool {
    &&& dto.unit_name@ == queue[k].unit_name@
    &&& dto.target_level == jobs_for(queue, queue[k].unit_name@, (k + 1) as nat)
    &&& dto.finishes_at == queue[k].finishes_at
    &&& dto.is_processing == (queue[k].status == ScheduledActionStatus::Processing)
}

/// The smithy's queue, each job with the level it brings its unit to.
pub fn smithy_queue(queue: &Vec<ResearchQueueItem>) -> (r: Vec<SmithyQueueItemDto>)
    requires
        forall|k: int| 0 <= k < queue@.len() ==> jobs_for(queue@, #[trigger] queue@[k].unit_name@, queue@.len()) <= u8::MAX,
    ensures
        r@.len() == queue@.len(),
        forall|k: int| 0 <= k < queue@.len() ==> is_smithy_queue_dto(queue@, k, #[trigger] r@[k]),
{
    let mut out: Vec<SmithyQueueItemDto> = Vec::new();
    let mut i: usize = 0;
    while i < queue.len()
        invariant
            i <= queue@.len(),
            forall|k: int| 0 <= k < queue@.len() ==> jobs_for(queue@, #[trigger] queue@[k].unit_name@, queue@.len()) <= u8::MAX,
            out@.len() == i,
            forall|k: int| 0 <= k < i ==> is_smithy_queue_dto(queue@, k, #[trigger] out@[k]),
        decreases queue.len() - i,
    {
        let name = &queue[i].unit_name;
        let mut count: u8 = 0;
        let mut j: usize = 0;
        while j <= i
            invariant
                i < queue@.len(),
                i < usize::MAX,
                j <= i + 1,
                name@ == queue@[i as int].unit_name@,
                jobs_for(queue@, name@, queue@.len()) <= u8::MAX,
                count == jobs_for(queue@, name@, j as nat),
            decreases i + 1 - j,
        {
            proof {
                lemma_jobs_for_grows(queue@, name@, (j + 1) as nat, queue@.len());
            }
            if str_eq(queue[j].unit_name.as_str(), name.as_str()) {
                count = count + 1;
            }
            j = j + 1;
        }
        out.push(
            SmithyQueueItemDto {
                unit_name: name.clone(),
                target_level: count,
                finishes_at: queue[i].finishes_at,
                is_processing: queue[i].status == ScheduledActionStatus::Processing,
            },
        );
        i = i + 1;
    }
    out
}

/// Cost and time (at the server's speed) of a smithy upgrade.
#[derive(Debug, Clone, Copy, PartialEq, Eq, Structural)]
pub struct SmithyUpgradeCost {
    pub cost: ResourceGroup,
    pub time_secs: u32,
}

/// The smithy upgrade of unit type `idx` from level `level`, when the game's
/// tables have one.
pub open spec fn upgrade_cost_of(costs: Seq<Vec<Option<SmithyUpgradeCost>>>, idx: int, level: int) -> Option<SmithyUpgradeCost> {
    if 0 <= idx < costs.len() && 0 <= level < costs[idx]@.len() {
        costs[idx]@[level]
    } else {
        None
    }
}

/// Where the smithy stands for unit type `idx`: whether it can be
/// improved further, the level cap, its queued jobs and its level once they are done.
pub open spec fn smithy_state(
    units: Seq<TribeUnit>,
    research: Seq<bool>,
    levels: Seq<u8>,
    smithy_level: u8,
    queue: Seq<ResearchQueueItem>,
    idx: int,
) -> (bool, u8, u8, u8) {
    let cap: u8 = if smithy_level < SMITHY_LEVEL_CAP {
        smithy_level
    } else {
        SMITHY_LEVEL_CAP
    };
    let researched = units[idx].research_time == 0 || is_researched_at(research, idx);
    let queued = jobs_for(queue, units[idx].name@, queue.len()) as u8;
    let effective = saturating_add_u8(levels[idx], queued);
    let available = researched && effective < cap && cap > 0;
    (available, cap, queued, effective)
}

/// Unit type `idx` is listed by the smithy: researched, below the level cap
/// once the queue is done, with an upgrade in the game's tables.
pub open spec fn is_smithy_listed(
    units: Seq<TribeUnit>,
    research: Seq<bool>,
    levels: Seq<u8>,
    smithy_level: u8,
    queue: Seq<ResearchQueueItem>,
    costs: Seq<Vec<Option<SmithyUpgradeCost>>>,
    idx: int,
) -> bool {
    let (available, _, _, effective) = smithy_state(units, research, levels, smithy_level, queue, idx);
    available && upgrade_cost_of(costs, idx, effective as int) is Some
}

/// `dto` offers the smithy upgrade of unit type `idx`.
pub open spec fn is_smithy_option(
    units: Seq<TribeUnit>,
    research: Seq<bool>,
    levels: Seq<u8>,
    smithy_level: u8,
    queue: Seq<ResearchQueueItem>,
    queue_full: bool,
    costs: Seq<Vec<Option<SmithyUpgradeCost>>>,
    idx: int,
    dto: SmithyUpgradeOptionDto,
) -> bool {
    let (available, cap, queued, effective) = smithy_state(units, research, levels, smithy_level, queue, idx);
    let after = saturating_add_u8(effective, 1);
    let up = upgrade_cost_of(costs, idx, effective as int)->0;
    &&& dto.unit_name@ == units[idx].name@
    &&& dto.current_level == levels[idx]
    &&& dto.next_level == if after < cap {
        after
    } else {
        cap
    }
    &&& dto.max_level == cap
    &&& dto.cost == amounts_of(up.cost)
    &&& dto.time_secs == up.time_secs
    &&& dto.can_upgrade == (available && queued == 0 && !queue_full)
}

fn lookup_upgrade_cost(costs: &Vec<Vec<Option<SmithyUpgradeCost>>>, idx: usize, level: u8) -> (r: Option<SmithyUpgradeCost>)
    ensures
        r == upgrade_cost_of(costs@, idx as int, level as int),
{
    if idx < costs.len() && (level as usize) < costs[idx].len() {
        costs[idx][level as usize]
    } else {
        None
    }
}

/// The smithy's upgrade offers: for each researched unit type (as far as
/// the smithy keeps levels), while its level after the queue is below the
/// smithy's level (capped at 20); an upgrade can be started when the unit
/// has none queued and the queue has room.
pub fn smithy_options(
    units: &Vec<TribeUnit>,
    research: &Vec<bool>,
    levels: &Vec<u8>,
    smithy_level: u8,
    queue: &Vec<ResearchQueueItem>,
    queue_full: bool,
    costs: &Vec<Vec<Option<SmithyUpgradeCost>>>,
) -> (r: Vec<SmithyUpgradeOptionDto>)
    requires
        forall|k: int| 0 <= k < units@.len() ==> jobs_for(queue@, #[trigger] units@[k].name@, queue@.len()) <= u8::MAX,
    ensures
        ({
            let n = if units@.len() < levels@.len() {
                units@.len()
            } else {
                levels@.len()
            };
            let listed = positions(n).filter(
                |i: int| is_smithy_listed(units@, research@, levels@, smithy_level, queue@, costs@, i),
            );
            &&& r@.len() == listed.len()
            &&& forall|k: int|
                0 <= k < r@.len() ==> is_smithy_option(
                    units@,
                    research@,
                    levels@,
                    smithy_level,
                    queue@,
                    queue_full,
                    costs@,
                    listed[k],
                    #[trigger] r@[k],
                )
        }),
{
    let n: usize = if units.len() < levels.len() {
        units.len()
    } else {
        levels.len()
    };
    let ghost listed_pred = |i: int| is_smithy_listed(units@, research@, levels@, smithy_level, queue@, costs@, i);
    let ghost all = positions(n as nat);
    let cap: u8 = if smithy_level < SMITHY_LEVEL_CAP {
        smithy_level
    } else {
        SMITHY_LEVEL_CAP
    };
    let mut out: Vec<SmithyUpgradeOptionDto> = Vec::new();
    let mut i: usize = 0;
    while i < n
        invariant
            i <= n,
            n <= units@.len(),
            n <= levels@.len(),
            cap == if smithy_level < SMITHY_LEVEL_CAP {
                smithy_level
            } else {
                SMITHY_LEVEL_CAP
            },
            all == positions(n as nat),
            listed_pred == (|i: int| is_smithy_listed(units@, research@, levels@, smithy_level, queue@, costs@, i)),
            forall|k: int| 0 <= k < units@.len() ==> jobs_for(queue@, #[trigger] units@[k].name@, queue@.len()) <= u8::MAX,
            out@.len() == all.take(i as int).filter(listed_pred).len(),
            forall|k: int|
                0 <= k < out@.len() ==> is_smithy_option(
                    units@,
                    research@,
                    levels@,
                    smithy_level,
                    queue@,
                    queue_full,
                    costs@,
                    all.take(i as int).filter(listed_pred)[k],
                    #[trigger] out@[k],
                ),
        decreases n - i,
    {
        proof {
            assert(all.take(i + 1).drop_last() =~= all.take(i as int));
            assert(all.take(i + 1).last() == i);
            reveal(Seq::filter);
        }
        let unit = &units[i];
        let researched = unit.research_time == 0 || (i < research.len() && research[i]);
        let queued = count_jobs_for(queue, &unit.name);
        let current = levels[i];
        let effective = current.saturating_add(queued);
        let after = effective.saturating_add(1);
        let next: u8 = if after < cap {
            after
        } else {
            cap
        };
        let available = researched && effective < cap && cap > 0;
        if available {
            match lookup_upgrade_cost(costs, i, effective) {
                Some(up) => {
                    out.push(
                        SmithyUpgradeOptionDto {
                            unit_name: unit.name.clone(),
                            current_level: current,
                            next_level: next,
                            max_level: cap,
                            cost: resource_amounts(&up.cost),
                            time_secs: up.time_secs,
                            can_upgrade: available && queued == 0 && !queue_full,
                        },
                    );
                },
                None => {},
            }
        }
        i = i + 1;
    }
    assert(all.take(i as int) =~= all);
    out
}

} // verus!
