//! Small rules of the rendered pages: durations and the server clock, the
//! slots of the village view and the nodes of its map, the CSS classes and
//! titles of building slots, the labels of army cards, and badge and field
//! colours.

use vstd::prelude::*;
use chrono::Timelike;

use crate::api::dto::{queue_status, spec_queue_status, BuildingQueueItemDto};
use crate::api::actions::ResourceKind;
use crate::model::{
    building_in_slot, building_key, covers, has_enough_resources, spec_building_in_slot, spec_building_key, BuildingName,
    ResourceGroup, Village, VillageBuilding,
};
use crate::text::{append_decimal, push_char, spec_decimal};

verus! {

/// A number written with at least two digits.
pub open spec fn two_digits(n: nat) -> Seq<char> {
    if n < 10 {
        "0"@ + spec_decimal(n)
    } else {
        spec_decimal(n)
    }
}

fn push_two_digits(s: &mut String, n: u32)
    ensures
        final(s)@ == old(s)@ + two_digits(n as nat),
{
    if n < 10 {
        s.append("0");
    }
    append_decimal(s, n as u64);
}

/// A duration in seconds as `HH:MM:SS`, or `MM:SS` under an hour (hours may
/// take more than two digits).
pub open spec fn spec_format_duration(seconds: u32) -> Seq<char> {
    let hours = seconds / 3600;
    let minutes = (seconds % 3600) / 60;
    let secs = seconds % 60;
    if hours > 0 {
        two_digits(hours as nat) + ":"@ + two_digits(minutes as nat) + ":"@ + two_digits(secs as nat)
    } else {
        two_digits(minutes as nat) + ":"@ + two_digits(secs as nat)
    }
}

/// Writes a duration.
pub fn format_duration(seconds: u32) -> (s: String)
    ensures
        s@ == spec_format_duration(seconds),
{
    let hours = seconds / 3600;
    let minutes = (seconds % 3600) / 60;
    let secs = seconds % 60;
    let mut s = String::new();
    if hours > 0 {
        push_two_digits(&mut s, hours);
        s.append(":");
    }
    push_two_digits(&mut s, minutes);
    s.append(":");
    push_two_digits(&mut s, secs);
    proof {
        if hours > 0 {
            assert(s@ =~= spec_format_duration(seconds));
        } else {
            assert(s@ =~= spec_format_duration(seconds));
        }
    }
    s
}

/// Hour, minute and second of the UTC day in which `timestamp` (unix
/// seconds) falls.
pub open spec fn spec_time_of_day(timestamp: int) -> (int, int, int) {
    let secs = timestamp % 86400;
    (secs / 3600, (secs / 60) % 60, secs % 60)
}

/// Earliest and latest timestamps (unix seconds) that `chrono` turns into a
/// date: January 1 of the year -262143 and the last second of December 31,
/// 262142.
pub open spec fn in_calendar_range(timestamp: int) -> bool {
    -8_334_601_228_800 <= timestamp <= 8_210_266_876_799
}

/// Reads hour, minute and second of `chrono::DateTime::from_timestamp(timestamp, 0)`.
/// Claimed: the crate gives a time exactly for timestamps whose day falls in
/// its calendar (its source rejects days outside `NaiveDate::MIN..=MAX`), and
/// that time is the time of day of the timestamp in UTC (the source takes
/// `timestamp.rem_euclid(86_400)` as the seconds from midnight).
#[verifier::external_body]
fn utc_time_of_day(timestamp: i64) -> (r: Option<(u32, u32, u32)>)
    ensures
        r is Some <==> in_calendar_range(timestamp as int),
        r matches Some(t) ==> t.0 == spec_time_of_day(timestamp as int).0 && t.1 == spec_time_of_day(
            timestamp as int,
        ).1 && t.2 == spec_time_of_day(timestamp as int).2,
{
    match chrono::DateTime::from_timestamp(timestamp, 0) {
        Some(dt) => Some((dt.hour(), dt.minute(), dt.second())),
        None => None,
    }
}

/// A time of day written `HH:MM:SS`.
pub open spec fn spec_clock(t: (int, int, int)) -> Seq<char> {
    two_digits(t.0 as nat) + ":"@ + two_digits(t.1 as nat) + ":"@ + two_digits(t.2 as nat)
}

/// The server clock of the page footer: the UTC time of day of `timestamp`,
/// `HH:MM:SS`; a timestamp outside the calendar's range shows midnight.
pub fn format_server_time(timestamp: i64) -> (s: String)
    ensures
        in_calendar_range(timestamp as int) ==> s@ == spec_clock(spec_time_of_day(timestamp as int)),
        !in_calendar_range(timestamp as int) ==> s@ == spec_clock((0, 0, 0)),
{
    let (h, m, sec) = match utc_time_of_day(timestamp) {
        Some(t) => t,
        None => (0, 0, 0),
    };
    let mut s = String::new();
    push_two_digits(&mut s, h);
    s.append(":");
    push_two_digits(&mut s, m);
    s.append(":");
    push_two_digits(&mut s, sec);
    proof {
        assert(s@ =~= spec_clock((h as int, m as int, sec as int)));
    }
    s
}

/// A building slot of the village view.
#[derive(Debug, Clone, Copy, PartialEq, Eq, Structural)]
pub struct BuildingSlot {
    pub slot_id: u8,
    pub building_name: Option<BuildingName>,
    pub level: u8,
    /// `None` when nothing is queued, `Some(true)` when the job runs, `Some(false)` when it waits.
    pub in_queue: Option<bool>,
}

/// The CSS classes of a slot: the base class, `occupied` when asked for and
/// built on, and the state of its construction.
pub open spec fn spec_render_classes(slot: BuildingSlot, base: Seq<char>, include_occupied: bool) -> Seq<char> {
    let occupied = if include_occupied && slot.building_name is Some {
        " occupied"@
    } else {
        Seq::empty()
    };
    let queue = match slot.in_queue {
        Some(true) => " construction-active"@,
        Some(false) => " construction-pending"@,
        None => Seq::empty(),
    };
    base + occupied + queue
}

/// The title of a slot: the building and its level, or `Empty slot`.
pub open spec fn spec_slot_title(slot: BuildingSlot) -> Seq<char> {
    match slot.building_name {
        Some(name) => if slot.level > 0 {
            spec_building_key(name) + " (Level "@ + spec_decimal(slot.level as nat) + ")"@
        } else {
            "Empty slot"@
        },
        None => "Empty slot"@,
    }
}

impl BuildingSlot {
    /// The CSS classes of the slot.
    pub fn render_classes(&self, base_class: &str, include_occupied: bool) -> (s: String)
        ensures
            s@ == spec_render_classes(*self, base_class@, include_occupied),
    {
        let mut classes = String::from_str(base_class);
        if include_occupied && self.building_name.is_some() {
            classes.append(" occupied");
        }
        match self.in_queue {
            Some(true) => classes.append(" construction-active"),
            Some(false) => classes.append(" construction-pending"),
            None => {},
        }
        proof {
            assert(classes@ =~= spec_render_classes(*self, base_class@, include_occupied));
        }
        classes
    }

    /// The title of the slot.
    pub fn title(&self) -> (s: String)
        ensures
            s@ == spec_slot_title(*self),
    {
        match self.building_name {
            Some(name) => if self.level > 0 {
                let mut s = building_key(name);
                s.append(" (Level ");
                append_decimal(&mut s, self.level as u64);
                s.append(")");
                s
            } else {
                String::from_str("Empty slot")
            },
            None => String::from_str("Empty slot"),
        }
    }
}

/// The village-view slot `slot_id`: the building in it (the first one listed
/// for the slot) with its level, or an empty slot at level 0, and the state of
/// its first queued job.
pub open spec fn spec_village_slot(
    buildings: Seq<VillageBuilding>,
    queue: Seq<BuildingQueueItemDto>,
    slot_id: u8,
) -> BuildingSlot {
    match spec_building_in_slot(buildings, slot_id) {
        Some(b) => BuildingSlot {
            slot_id,
            building_name: Some(b.name),
            level: b.level,
            in_queue: spec_queue_status(queue, slot_id),
        },
        None => BuildingSlot { slot_id, building_name: None, level: 0, in_queue: spec_queue_status(queue, slot_id) },
    }
}

/// The slots of the village view, 19 to 40 in order, empty ones included.
pub fn village_building_slots(buildings: &Vec<VillageBuilding>, queue: &Vec<BuildingQueueItemDto>) -> (r: Vec<
    BuildingSlot,
>)
    ensures
        r@.len() == 22,
        forall|k: int| 0 <= k < r@.len() ==> #[trigger] r@[k] == spec_village_slot(buildings@, queue@, (19 + k) as u8),
{
    let mut out: Vec<BuildingSlot> = Vec::new();
    let mut slot_id: u8 = 19;
    while slot_id <= 40
        invariant
            19 <= slot_id <= 41,
            out@.len() == slot_id - 19,
            forall|k: int|
                0 <= k < out@.len() ==> #[trigger] out@[k] == spec_village_slot(buildings@, queue@, (19 + k) as u8),
        decreases 41 - slot_id,
    {
        let in_queue = queue_status(queue, slot_id);
        let slot = match building_in_slot(buildings, slot_id) {
            Some(b) => BuildingSlot { slot_id, building_name: Some(b.name), level: b.level, in_queue },
            None => BuildingSlot { slot_id, building_name: None, level: 0, in_queue },
        };
        out.push(slot);
        slot_id = slot_id + 1;
    }
    out
}

/// The first slot of `slots` with id `slot_id`, if any.
pub open spec fn spec_find_slot(slots: Seq<BuildingSlot>, slot_id: u8) -> Option<BuildingSlot> {
    let matching = slots.filter(|s: BuildingSlot| s.slot_id == slot_id);
    if matching.len() == 0 {
        None
    } else {
        Some(matching[0])
    }
}

/// Finds the first slot with id `slot_id`.
pub fn find_slot(slots: &Vec<BuildingSlot>, slot_id: u8) -> (r: Option<BuildingSlot>)
    ensures
        r == spec_find_slot(slots@, slot_id),
{
    let ghost pred = |s: BuildingSlot| s.slot_id == slot_id;
    let mut i: usize = 0;
    while i < slots.len()
        invariant
            i <= slots@.len(),
            pred == (|s: BuildingSlot| s.slot_id == slot_id),
            slots@.take(i as int).filter(pred).len() == 0,
        decreases slots.len() - i,
    {
        proof {
            assert(slots@.take(i + 1).drop_last() =~= slots@.take(i as int));
            reveal(Seq::filter);
        }
        if slots[i].slot_id == slot_id {
            proof {
                let head = slots@.take(i + 1);
                let tail = slots@.skip(i + 1);
                assert(head + tail =~= slots@);
                Seq::filter_distributes_over_add(head, tail, pred);
                assert(head.filter(pred) =~= seq![slots@[i as int]]);
            }
            return Some(slots[i]);
        }
        i = i + 1;
    }
    assert(slots@.take(i as int) =~= slots@);
    None
}

/// The regular building slots of the village map with the centre of their
/// node (slot id, x, y), in drawing order.
pub open spec fn spec_village_node_positions() -> Seq<(u8, u16, u16)> {
    seq![
        (26u8, 220u16, 260u16),
        (27u8, 340u16, 160u16),
        (28u8, 490u16, 120u16),
        (29u8, 680u16, 180u16),
        (30u8, 800u16, 300u16),
        (32u8, 860u16, 440u16),
        (33u8, 860u16, 600u16),
        (34u8, 780u16, 760u16),
        (35u8, 600u16, 860u16),
        (36u8, 350u16, 840u16),
        (37u8, 210u16, 740u16),
        (38u8, 130u16, 590u16),
        (31u8, 140u16, 420u16),
        (22u8, 380u16, 330u16),
        (20u8, 300u16, 480u16),
        (21u8, 350u16, 660u16),
        (25u8, 530u16, 260u16),
        (24u8, 640u16, 380u16),
        (23u8, 520u16, 710u16)
    ]
}

fn village_node_positions() -> (v: Vec<(u8, u16, u16)>)
    ensures
        v@ == spec_village_node_positions(),
{
    let mut v: Vec<(u8, u16, u16)> = Vec::new();
    v.push((26u8, 220u16, 260u16));
    v.push((27u8, 340u16, 160u16));
    v.push((28u8, 490u16, 120u16));
    v.push((29u8, 680u16, 180u16));
    v.push((30u8, 800u16, 300u16));
    v.push((32u8, 860u16, 440u16));
    v.push((33u8, 860u16, 600u16));
    v.push((34u8, 780u16, 760u16));
    v.push((35u8, 600u16, 860u16));
    v.push((36u8, 350u16, 840u16));
    v.push((37u8, 210u16, 740u16));
    v.push((38u8, 130u16, 590u16));
    v.push((31u8, 140u16, 420u16));
    v.push((22u8, 380u16, 330u16));
    v.push((20u8, 300u16, 480u16));
    v.push((21u8, 350u16, 660u16));
    v.push((25u8, 530u16, 260u16));
    v.push((24u8, 640u16, 380u16));
    v.push((23u8, 520u16, 710u16));
    v
}

/// A building node drawn on the village map.
#[derive(Debug, Clone)]
pub struct VillageMapNode {
    pub slot_id: u8,
    pub cx: u16,
    pub cy: u16,
    pub is_empty: bool,
    pub classes: String,
    pub level_text: String,
    pub title: String,
}

/// `node` draws `slot` at `pos`: an empty slot shows `-` and the empty style,
/// a built one its level and the occupied style.
pub open spec fn is_map_node(slot: BuildingSlot, pos: (u8, u16, u16), node: VillageMapNode) -> bool {
    let empty = slot.building_name is None;
    &&& node.slot_id == pos.0
    &&& node.cx == pos.1
    &&& node.cy == pos.2
    &&& node.is_empty == empty
    &&& node.classes@ == spec_render_classes(
        slot,
        if empty {
            "village-node-bg village-node-empty"@
        } else {
            "village-node-bg village-node-occupied"@
        },
        false,
    )
    &&& node.level_text@ == if empty {
        "-"@
    } else {
        spec_decimal(slot.level as nat)
    }
    &&& node.title@ == spec_slot_title(slot)
}

/// The nodes of the village map: one for each regular position whose slot is
/// among `slots` (the first slot with that id), in drawing order.
pub fn village_map_nodes(slots: &Vec<BuildingSlot>) -> (r: Vec<VillageMapNode>)
    ensures
        r@.len() == spec_village_node_positions().filter(
            |p: (u8, u16, u16)| spec_find_slot(slots@, p.0) is Some,
        ).len(),
        forall|k: int|
            0 <= k < r@.len() ==> {
                let pos = spec_village_node_positions().filter(
                    |p: (u8, u16, u16)| spec_find_slot(slots@, p.0) is Some,
                )[k];
                is_map_node(spec_find_slot(slots@, pos.0)->0, pos, #[trigger] r@[k])
            },
{
    let positions = village_node_positions();
    let ghost pred = |p: (u8, u16, u16)| spec_find_slot(slots@, p.0) is Some;
    let mut out: Vec<VillageMapNode> = Vec::new();
    let mut i: usize = 0;
    while i < positions.len()
        invariant
            i <= positions@.len(),
            positions@ == spec_village_node_positions(),
            pred == (|p: (u8, u16, u16)| spec_find_slot(slots@, p.0) is Some),
            out@.len() == positions@.take(i as int).filter(pred).len(),
            forall|k: int|
                0 <= k < out@.len() ==> {
                    let pos = positions@.take(i as int).filter(pred)[k];
                    is_map_node(spec_find_slot(slots@, pos.0)->0, pos, #[trigger] out@[k])
                },
        decreases positions.len() - i,
    {
        let pos = positions[i];
        proof {
            assert(positions@.take(i + 1).drop_last() =~= positions@.take(i as int));
            reveal(Seq::filter);
        }
        match find_slot(slots, pos.0) {
            Some(slot) => {
                let empty = slot.building_name.is_none();
                let classes = if empty {
                    slot.render_classes("village-node-bg village-node-empty", false)
                } else {
                    slot.render_classes("village-node-bg village-node-occupied", false)
                };
                let level_text = if empty {
                    String::from_str("-")
                } else {
                    let mut t = String::new();
                    append_decimal(&mut t, slot.level as u64);
                    proof {
                        assert(t@ =~= spec_decimal(slot.level as nat));
                    }
                    t
                };
                out.push(
                    VillageMapNode {
                        slot_id: pos.0,
                        cx: pos.1,
                        cy: pos.2,
                        is_empty: empty,
                        classes,
                        level_text,
                        title: slot.title(),
                    },
                );
            },
            None => {},
        }
        i = i + 1;
    }
    assert(positions@.take(i as int) =~= positions@);
    out
}

pub open spec fn spec_hex_color(name: BuildingName) -> Seq<char> {
    match name {
        BuildingName::ClayPit => "#d98536"@,
        BuildingName::IronMine => "#999999"@,
        BuildingName::Cropland => "#f2d649"@,
        _ => "#6c9a35"@,
    }
}

/// The fill colour of a resource field.
pub fn hex_color(name: BuildingName) -> (s: String)
    ensures
        s@ == spec_hex_color(name),
{
    match name {
        BuildingName::ClayPit => String::from_str("#d98536"),
        BuildingName::IronMine => String::from_str("#999999"),
        BuildingName::Cropland => String::from_str("#f2d649"),
        _ => String::from_str("#6c9a35"),
    }
}

/// Category of an army card of the village view.
#[derive(Debug, Clone, Copy, PartialEq, Eq, Structural)]
pub enum ArmyCategory {
    Stationed,
    Reinforcement,
    Deployed,
    Incoming,
    Outgoing,
}

pub open spec fn spec_badge_color(c: ArmyCategory) -> Seq<char> {
    match c {
        ArmyCategory::Stationed => "bg-gray-100 text-gray-800"@,
        ArmyCategory::Reinforcement => "bg-blue-100 text-blue-800"@,
        ArmyCategory::Deployed => "bg-purple-100 text-purple-800"@,
        ArmyCategory::Incoming => "bg-red-100 text-red-800"@,
        ArmyCategory::Outgoing => "bg-green-100 text-green-800"@,
    }
}

impl ArmyCategory {
    /// The badge classes of the category.
    pub fn badge_color(&self) -> (s: String)
        ensures
            s@ == spec_badge_color(*self),
    {
        match self {
            ArmyCategory::Stationed => String::from_str("bg-gray-100 text-gray-800"),
            ArmyCategory::Reinforcement => String::from_str("bg-blue-100 text-blue-800"),
            ArmyCategory::Deployed => String::from_str("bg-purple-100 text-purple-800"),
            ArmyCategory::Incoming => String::from_str("bg-red-100 text-red-800"),
            ArmyCategory::Outgoing => String::from_str("bg-green-100 text-green-800"),
        }
    }
}

/// Whether troops of a card come to the village or leave it.
#[derive(Debug, Clone, Copy, PartialEq, Eq, Structural)]
pub enum MovementDirection {
    Incoming,
    Outgoing,
}

/// Kind of movement shown on an army card.
#[derive(Debug, Clone, Copy, PartialEq, Eq, Structural)]
pub enum MovementKind {
    Attack,
    Raid,
    Reinforcement,
    Return,
}

pub open spec fn spec_movement_kind_class(kind: MovementKind) -> Seq<char> {
    match kind {
        MovementKind::Attack => "text-xs px-2 py-0.5 rounded bg-red-100 text-red-800"@,
        MovementKind::Raid => "text-xs px-2 py-0.5 rounded bg-orange-100 text-orange-800"@,
        MovementKind::Reinforcement => "text-xs px-2 py-0.5 rounded bg-blue-100 text-blue-800"@,
        MovementKind::Return => "text-xs px-2 py-0.5 rounded bg-gray-100 text-gray-800"@,
    }
}

/// The badge classes of a card's movement kind.
pub fn movement_kind_class(kind: MovementKind) -> (s: String)
    ensures
        s@ == spec_movement_kind_class(kind),
{
    match kind {
        MovementKind::Attack => String::from_str("text-xs px-2 py-0.5 rounded bg-red-100 text-red-800"),
        MovementKind::Raid => String::from_str("text-xs px-2 py-0.5 rounded bg-orange-100 text-orange-800"),
        MovementKind::Reinforcement => String::from_str(
            "text-xs px-2 py-0.5 rounded bg-blue-100 text-blue-800",
        ),
        MovementKind::Return => String::from_str("text-xs px-2 py-0.5 rounded bg-gray-100 text-gray-800"),
    }
}

/// The heading of an army card: the village's name, or `Unknown Village`.
pub fn card_title(village_name: &Option<String>) -> (s: String)
    ensures
        village_name matches Some(n) ==> s@ == n@,
        village_name is None ==> s@ == "Unknown Village"@,
{
    match village_name {
        Some(n) => n.clone(),
        None => String::from_str("Unknown Village"),
    }
}

/// A signed integer in decimal, with a leading `-` when negative.
pub open spec fn spec_signed_decimal(v: int) -> Seq<char> {
    if v < 0 {
        seq!['-'] + spec_decimal((-v) as nat)
    } else {
        spec_decimal(v as nat)
    }
}

pub(crate) fn append_signed(s: &mut String, v: i32)
    ensures
        final(s)@ == old(s)@ + spec_signed_decimal(v as int),
{
    if v < 0 {
        push_char(s, '-');
        let magnitude: i64 = -(v as i64);
        append_decimal(s, magnitude as u64);
        proof {
            assert(final(s)@ =~= old(s)@ + spec_signed_decimal(v as int));
        }
    } else {
        append_decimal(s, v as u64);
    }
}

/// The coordinates of a card's village, written `(x, y)`.
pub fn position_label(x: i32, y: i32) -> (s: String)
    ensures
        s@ == seq!['('] + spec_signed_decimal(x as int) + ", "@ + spec_signed_decimal(y as int) + seq![')'],
{
    let mut s = String::new();
    push_char(&mut s, '(');
    append_signed(&mut s, x);
    s.append(", ");
    append_signed(&mut s, y);
    push_char(&mut s, ')');
    proof {
        assert(s@ =~= seq!['('] + spec_signed_decimal(x as int) + ", "@ + spec_signed_decimal(y as int) + seq![')']);
    }
    s
}

/// The classes of a unit cell of an army card and of the count in it: a
/// count of zero is dimmed.
pub fn unit_cell_classes(count: u32) -> (r: (String, String))
    ensures
        count == 0 ==> r.0@ == "bg-gray-50 opacity-40"@ && r.1@ == "text-gray-400 text-sm"@,
        count != 0 ==> r.0@ == "bg-gray-100"@ && r.1@ == "text-gray-900 font-semibold"@,
{
    if count == 0 {
        (String::from_str("bg-gray-50 opacity-40"), String::from_str("text-gray-400 text-sm"))
    } else {
        (String::from_str("bg-gray-100"), String::from_str("text-gray-900 font-semibold"))
    }
}

/// What the build button of an option on the empty-slot page allows.
#[derive(Debug, Clone, Copy, PartialEq, Eq, Structural)]
pub struct OptionButton {
    /// The village's stock covers the cost.
    pub can_afford: bool,
    /// Affordable with nothing missing.
    pub can_start: bool,
    /// The button can be pressed (it is shown only for options that are not locked).
    pub enabled: bool,
}

/// The button of a building option: a locked option (one the village lacks
/// requirements for) can be neither afforded nor started; another can be
/// started when the stock covers its cost and no requirement is missing, and
/// pressed when moreover the building queue has room.
pub fn option_button(
    stored: &ResourceGroup,
    cost: &ResourceGroup,
    missing_requirements: usize,
    queue_full: bool,
    locked: bool,
) -> (r: OptionButton)
    ensures
        locked ==> !r.can_afford && !r.can_start && !r.enabled,
        !locked ==> r.can_afford == covers(*stored, *cost) && r.can_start == (r.can_afford && missing_requirements
            == 0) && r.enabled == (r.can_start && !queue_full),
{
    if locked {
        return OptionButton { can_afford: false, can_start: false, enabled: false };
    }
    let can_afford = has_enough_resources(stored, cost);
    let can_start = can_afford && missing_requirements == 0;
    OptionButton { can_afford, can_start, enabled: can_start && !queue_full }
}

/// What the empty-slot page says when it offers no building.
#[derive(Debug, Clone, Copy, PartialEq, Eq, Structural)]
pub enum EmptySlotNotice {
    /// A job for the slot is queued, which locks it.
    QueueLocked,
    /// Nothing can be built in the slot.
    NoneAvailable,
}

/// The notice of the empty-slot page: none while it offers buildings; else
/// the slot is locked by its queued job, or nothing is available.
pub fn empty_slot_notice(buildable: usize, locked: usize, has_queue_for_slot: bool) -> (r: Option<EmptySlotNotice>)
    ensures
        buildable > 0 || locked > 0 ==> r is None,
        buildable == 0 && locked == 0 && has_queue_for_slot ==> r == Some(EmptySlotNotice::QueueLocked),
        buildable == 0 && locked == 0 && !has_queue_for_slot ==> r == Some(EmptySlotNotice::NoneAvailable),
{
    if buildable > 0 || locked > 0 {
        None
    } else if has_queue_for_slot {
        Some(EmptySlotNotice::QueueLocked)
    } else {
        Some(EmptySlotNotice::NoneAvailable)
    }
}

/// The state of the upgrade block of a building page.
#[derive(Debug, Clone, Copy, PartialEq, Eq, Structural)]
pub enum UpgradeBlockState {
    /// The building is at its highest level.
    MaxLevel,
    /// An upgrade is offered; it can be queued when affordable and the queue has room.
    Upgrade { can_upgrade: bool },
}

/// The upgrade block: a building is at its highest level when the page found
/// no upgrade time for the level after the current one; otherwise the
/// upgrade can be queued when the stock covers its cost and the queue has room.
pub fn upgrade_block_state(
    current_level: u8,
    next_level: u8,
    time_secs: u32,
    stored: &ResourceGroup,
    cost: &ResourceGroup,
    queue_full: bool,
) -> (r: UpgradeBlockState)
    requires
        current_level < 255,
    ensures
        time_secs == 0 && next_level == current_level + 1 ==> r == UpgradeBlockState::MaxLevel,
        !(time_secs == 0 && next_level == current_level + 1) ==> r == (UpgradeBlockState::Upgrade {
            can_upgrade: covers(*stored, *cost) && !queue_full,
        }),
{
    if time_secs == 0 && next_level == current_level + 1 {
        UpgradeBlockState::MaxLevel
    } else {
        UpgradeBlockState::Upgrade { can_upgrade: has_enough_resources(stored, cost) && !queue_full }
    }
}

/// A resource field of the resources view.
#[derive(Debug, Clone, Copy, PartialEq, Eq, Structural)]
pub struct ResourceSlot {
    pub slot_id: u8,
    pub building_name: BuildingName,
    pub level: u8,
    /// `None` when nothing is queued, `Some(true)` when the job runs, `Some(false)` when it waits.
    pub in_queue: Option<bool>,
}

/// The first field of `slots` with id `slot_id`, if any.
pub open spec fn spec_find_field(slots: Seq<ResourceSlot>, slot_id: u8) -> Option<ResourceSlot> {
    let matching = slots.filter(|s: ResourceSlot| s.slot_id == slot_id);
    if matching.len() == 0 {
        None
    } else {
        Some(matching[0])
    }
}

fn find_field(slots: &Vec<ResourceSlot>, slot_id: u8) -> (r: Option<ResourceSlot>)
    ensures
        r == spec_find_field(slots@, slot_id),
{
    let ghost pred = |s: ResourceSlot| s.slot_id == slot_id;
    let mut i: usize = 0;
    while i < slots.len()
        invariant
            i <= slots@.len(),
            pred == (|s: ResourceSlot| s.slot_id == slot_id),
            slots@.take(i as int).filter(pred).len() == 0,
        decreases slots.len() - i,
    {
        proof {
            assert(slots@.take(i + 1).drop_last() =~= slots@.take(i as int));
            reveal(Seq::filter);
        }
        if slots[i].slot_id == slot_id {
            proof {
                let head = slots@.take(i + 1);
                let tail = slots@.skip(i + 1);
                assert(head + tail =~= slots@);
                Seq::filter_distributes_over_add(head, tail, pred);
                assert(head.filter(pred) =~= seq![slots@[i as int]]);
            }
            return Some(slots[i]);
        }
        i = i + 1;
    }
    assert(slots@.take(i as int) =~= slots@);
    None
}

/// The resource fields of the resources view with the centre of their hex
/// (slot id, x, y), in drawing order.
pub open spec fn spec_field_hex_positions() -> Seq<(u8, u16, u16)> {
    seq![
        (1u8, 279u16, 190u16),
        (2u8, 400u16, 190u16),
        (3u8, 521u16, 190u16),
        (4u8, 218u16, 295u16),
        (5u8, 339u16, 295u16),
        (6u8, 460u16, 295u16),
        (7u8, 581u16, 295u16),
        (8u8, 157u16, 400u16),
        (9u8, 278u16, 400u16),
        (10u8, 521u16, 400u16),
        (11u8, 642u16, 400u16),
        (12u8, 218u16, 505u16),
        (13u8, 339u16, 505u16),
        (14u8, 460u16, 505u16),
        (15u8, 581u16, 505u16),
        (16u8, 279u16, 610u16),
        (17u8, 400u16, 610u16),
        (18u8, 521u16, 610u16)
    ]
}

fn field_hex_positions() -> (v: Vec<(u8, u16, u16)>)
    ensures
        v@ == spec_field_hex_positions(),
{
    let mut v: Vec<(u8, u16, u16)> = Vec::new();
    v.push((1u8, 279u16, 190u16));
    v.push((2u8, 400u16, 190u16));
    v.push((3u8, 521u16, 190u16));
    v.push((4u8, 218u16, 295u16));
    v.push((5u8, 339u16, 295u16));
    v.push((6u8, 460u16, 295u16));
    v.push((7u8, 581u16, 295u16));
    v.push((8u8, 157u16, 400u16));
    v.push((9u8, 278u16, 400u16));
    v.push((10u8, 521u16, 400u16));
    v.push((11u8, 642u16, 400u16));
    v.push((12u8, 218u16, 505u16));
    v.push((13u8, 339u16, 505u16));
    v.push((14u8, 460u16, 505u16));
    v.push((15u8, 581u16, 505u16));
    v.push((16u8, 279u16, 610u16));
    v.push((17u8, 400u16, 610u16));
    v.push((18u8, 521u16, 610u16));
    v
}

/// A resource field drawn as a hex on the resources view.
#[derive(Debug, Clone)]
pub struct ResourceHex {
    pub slot_id: u8,
    pub tx: u16,
    pub ty: u16,
    pub fill: String,
    pub classes: String,
    pub level_text: String,
    pub title: String,
}

/// The classes of a field's hex: the state of its construction, if any.
pub open spec fn spec_hex_classes(in_queue: Option<bool>) -> Seq<char> {
    match in_queue {
        Some(true) => "resource-hex-group construction-active"@,
        Some(false) => "resource-hex-group construction-pending"@,
        None => "resource-hex-group"@,
    }
}

/// `hex` draws field `slot` at `pos`, coloured by its resource, with its level.
pub open spec fn is_field_hex(slot: ResourceSlot, pos: (u8, u16, u16), hex: ResourceHex) -> bool {
    &&& hex.slot_id == pos.0
    &&& hex.tx == pos.1
    &&& hex.ty == pos.2
    &&& hex.fill@ == spec_hex_color(slot.building_name)
    &&& hex.classes@ == spec_hex_classes(slot.in_queue)
    &&& hex.level_text@ == spec_decimal(slot.level as nat)
    &&& hex.title@ == spec_building_key(slot.building_name) + " (Level "@ + spec_decimal(slot.level as nat) + ")"@
}

/// The hexes of the resources view: one for each field position whose field
/// is among `slots` (the first one with that id), in drawing order.
pub fn resource_field_hexes(slots: &Vec<ResourceSlot>) -> (r: Vec<ResourceHex>)
    ensures
        r@.len() == spec_field_hex_positions().filter(|p: (u8, u16, u16)| spec_find_field(slots@, p.0) is Some).len(),
        forall|k: int|
            0 <= k < r@.len() ==> {
                let pos = spec_field_hex_positions().filter(
                    |p: (u8, u16, u16)| spec_find_field(slots@, p.0) is Some,
                )[k];
                is_field_hex(spec_find_field(slots@, pos.0)->0, pos, #[trigger] r@[k])
            },
{
    let positions = field_hex_positions();
    let ghost pred = |p: (u8, u16, u16)| spec_find_field(slots@, p.0) is Some;
    let mut out: Vec<ResourceHex> = Vec::new();
    let mut i: usize = 0;
    while i < positions.len()
        invariant
            i <= positions@.len(),
            positions@ == spec_field_hex_positions(),
            pred == (|p: (u8, u16, u16)| spec_find_field(slots@, p.0) is Some),
            out@.len() == positions@.take(i as int).filter(pred).len(),
            forall|k: int|
                0 <= k < out@.len() ==> {
                    let pos = positions@.take(i as int).filter(pred)[k];
                    is_field_hex(spec_find_field(slots@, pos.0)->0, pos, #[trigger] out@[k])
                },
        decreases positions.len() - i,
    {
        let pos = positions[i];
        proof {
            assert(positions@.take(i + 1).drop_last() =~= positions@.take(i as int));
            reveal(Seq::filter);
        }
        match find_field(slots, pos.0) {
            Some(slot) => {
                let classes = match slot.in_queue {
                    Some(true) => String::from_str("resource-hex-group construction-active"),
                    Some(false) => String::from_str("resource-hex-group construction-pending"),
                    None => String::from_str("resource-hex-group"),
                };
                let mut level_text = String::new();
                append_decimal(&mut level_text, slot.level as u64);
                let mut title = building_key(slot.building_name);
                title.append(" (Level ");
                append_decimal(&mut title, slot.level as u64);
                title.append(")");
                proof {
                    assert(level_text@ =~= spec_decimal(slot.level as nat));
                }
                out.push(
                    ResourceHex {
                        slot_id: pos.0,
                        tx: pos.1,
                        ty: pos.2,
                        fill: hex_color(slot.building_name),
                        classes,
                        level_text,
                        title,
                    },
                );
            },
            None => {},
        }
        i = i + 1;
    }
    assert(positions@.take(i as int) =~= positions@);
    out
}

/// A resource shown in the page header: its stock, the storage it fills and
/// its hourly production.
#[derive(Debug, Clone, Copy, PartialEq, Eq, Structural)]
pub struct ResourceDisplay {
    pub kind: ResourceKind,
    pub amount: u32,
    pub capacity: u32,
    pub prod_per_hour: u32,
}

/// The four resources of the header bar, in order lumber, clay, iron, crop:
/// the first three fill the warehouse, crop the granary; the crop production
/// is shown as a `u32` (a deficit wraps around, as the bar receives it).
pub fn resource_bar(village: &Village) -> (r: Vec<ResourceDisplay>)
    ensures
        r@ == seq![
            ResourceDisplay {
                kind: ResourceKind::Lumber,
                amount: village.stocks.lumber,
                capacity: village.warehouse_capacity,
                prod_per_hour: village.production.lumber,
            },
            ResourceDisplay {
                kind: ResourceKind::Clay,
                amount: village.stocks.clay,
                capacity: village.warehouse_capacity,
                prod_per_hour: village.production.clay,
            },
            ResourceDisplay {
                kind: ResourceKind::Iron,
                amount: village.stocks.iron,
                capacity: village.warehouse_capacity,
                prod_per_hour: village.production.iron,
            },
            ResourceDisplay {
                kind: ResourceKind::Crop,
                amount: village.stocks.crop,
                capacity: village.granary_capacity,
                prod_per_hour: village.production.crop as u32,
            },
        ],
{
    let mut v: Vec<ResourceDisplay> = Vec::new();
    v.push(
        ResourceDisplay {
            kind: ResourceKind::Lumber,
            amount: village.stocks.lumber,
            capacity: village.warehouse_capacity,
            prod_per_hour: village.production.lumber,
        },
    );
    v.push(
        ResourceDisplay {
            kind: ResourceKind::Clay,
            amount: village.stocks.clay,
            capacity: village.warehouse_capacity,
            prod_per_hour: village.production.clay,
        },
    );
    v.push(
        ResourceDisplay {
            kind: ResourceKind::Iron,
            amount: village.stocks.iron,
            capacity: village.warehouse_capacity,
            prod_per_hour: village.production.iron,
        },
    );
    v.push(
        ResourceDisplay {
            kind: ResourceKind::Crop,
            amount: village.stocks.crop,
            capacity: village.granary_capacity,
            prod_per_hour: village.production.crop as u32,
        },
    );
    v
}

} // verus!
