//! The rally point page: one card per army at home, deployed, reinforcing,
//! trapped, or on the move, with the upkeep it costs and the action it offers.

use std::collections::{HashMap, HashSet};

use vstd::prelude::*;

use crate::api::buildings::{
    spec_rally_movement_kind_key, PositionDto, RallyActionDto, RallyCardCategoryDto, RallyMovementKindDto,
};
use crate::api::dto::ResourceAmountsDto;
use crate::ids::{spec_uuid_hyphenated, uuid_to_string};
use crate::api::buildings::{amounts_of, resource_amounts, RallySendableUnitDto};
use crate::model::{
    get_unit_count, spec_tribe_key, spec_troop_movement_type_key, tribe_key, unit_count, Position, ResourceGroup,
    TribeUnit, TroopMovement, TroopMovementType, Tribe,
};
use crate::text::{append_decimal, spec_decimal};

verus! {

broadcast use vstd::std_specs::hash::group_hash_axioms;

/// An army as the rally point shows it.
#[derive(Debug, Clone)]
pub struct ArmyView {
    pub id: u128,
    /// The village the army belongs to.
    pub village_id: u32,
    /// The map field where the army stands, when away.
    pub current_map_field_id: Option<u32>,
    pub tribe: Tribe,
    pub units: Vec<u32>,
    pub has_hero: bool,
}

/// The armies a village sees: its own at home and away, reinforcements it
/// hosts, armies caught in its traps and its armies caught elsewhere.
#[derive(Debug, Clone)]
pub struct VillageArmyState {
    pub home_army: Option<ArmyView>,
    pub deployed_armies: Vec<ArmyView>,
    pub reinforcements: Vec<ArmyView>,
    pub trapped_here: Vec<ArmyView>,
    pub trapped_away: Vec<ArmyView>,
}

/// Name and position of a village.
#[derive(Debug, Clone)]
pub struct VillageReference {
    pub id: u32,
    pub name: String,
    pub position: Position,
}

/// Action offered on a card, with the army or movement it acts on.
#[derive(Debug, Clone, Copy, PartialEq, Eq, Structural)]
pub enum ArmyAction {
    Recall(u128),
    Release(u128),
    Cancel(u128),
    ReleaseTrapped(u128),
    DisbandTrapped(u128),
}

/// One card of the rally point.
#[derive(Debug, Clone)]
pub struct ArmyCard {
    pub village_id: u32,
    pub village_name: Option<String>,
    pub position: Option<Position>,
    pub units: Vec<u32>,
    pub has_hero: bool,
    pub tribe: Tribe,
    pub category: RallyCardCategoryDto,
    pub movement_kind: Option<RallyMovementKindDto>,
    pub arrives_at: Option<i64>,
    pub bounty: Option<ResourceGroup>,
    pub action: Option<ArmyAction>,
}

pub open spec fn spec_movement_kind(t: TroopMovementType) -> RallyMovementKindDto {
    match t {
        TroopMovementType::Attack => RallyMovementKindDto::Attack,
        TroopMovementType::Raid => RallyMovementKindDto::Raid,
        TroopMovementType::Scout => RallyMovementKindDto::Scout,
        TroopMovementType::Reinforcement => RallyMovementKindDto::Reinforcement,
        TroopMovementType::Return => RallyMovementKindDto::Return,
        TroopMovementType::FoundVillage => RallyMovementKindDto::FoundVillage,
    }
}

/// The card kind of a troop movement.
pub fn movement_kind(t: TroopMovementType) -> (k: RallyMovementKindDto)
    ensures
        k == spec_movement_kind(t),
{
    match t {
        TroopMovementType::Attack => RallyMovementKindDto::Attack,
        TroopMovementType::Raid => RallyMovementKindDto::Raid,
        TroopMovementType::Scout => RallyMovementKindDto::Scout,
        TroopMovementType::Reinforcement => RallyMovementKindDto::Reinforcement,
        TroopMovementType::Return => RallyMovementKindDto::Return,
        TroopMovementType::FoundVillage => RallyMovementKindDto::FoundVillage,
    }
}

/// A card shows the kind of its movement: each movement type becomes the
/// card kind of the same name, and two different movement types never share
/// a card kind.
pub proof fn lemma_movement_kind_keeps_type(a: TroopMovementType, b: TroopMovementType)
    ensures
        spec_rally_movement_kind_key(spec_movement_kind(a)) == spec_troop_movement_type_key(a),
        spec_movement_kind(a) == spec_movement_kind(b) ==> a == b,
{
}

/// The name shown for a village that is not known: `Village #<id>`.
pub open spec fn unknown_village_name(id: u32) -> Seq<char> {
    "Village #"@ + spec_decimal(id as nat)
}

/// `name` and `position` label village `id`: those of its reference, or a
/// numbered name and no position when it has none.
pub open spec fn labels_village(
    refs: Map<u32, VillageReference>,
    id: u32,
    name: Option<String>,
    position: Option<Position>,
) -> bool {
    if refs.contains_key(id) {
        name matches Some(n) && n@ == refs[id].name@ && position == Some(refs[id].position)
    } else {
        name matches Some(n) && n@ == unknown_village_name(id) && position is None
    }
}

fn village_label(refs: &HashMap<u32, VillageReference>, id: u32) -> (r: (Option<String>, Option<Position>))
    ensures
        labels_village(refs@, id, r.0, r.1),
{
    match refs.get(&id) {
        Some(info) => (Some(info.name.clone()), Some(info.position)),
        None => {
            let mut name = String::from_str("Village #");
            append_decimal(&mut name, id as u64);
            (Some(name), None)
        },
    }
}

fn copy_units(units: &Vec<u32>) -> (r: Vec<u32>)
    ensures
        r@ == units@,
{
    let mut out: Vec<u32> = Vec::new();
    let mut i: usize = 0;
    while i < units.len()
        invariant
            i <= units@.len(),
            out@ == units@.take(i as int),
        decreases units.len() - i,
    {
        out.push(units[i]);
        assert(units@.take(i + 1) == units@.take(i as int).push(units@[i as int]));
        i = i + 1;
    }
    assert(units@.take(i as int) =~= units@);
    out
}

/// `card` shows army `army` of the kind given, labelled by village `id`.
pub open spec fn is_army_card(
    refs: Map<u32, VillageReference>,
    army: ArmyView,
    id: u32,
    category: RallyCardCategoryDto,
    action: ArmyAction,
    card: ArmyCard,
) -> bool {
    &&& card.village_id == id
    &&& labels_village(refs, id, card.village_name, card.position)
    &&& card.units@ == army.units@
    &&& card.has_hero == army.has_hero
    &&& card.tribe == army.tribe
    &&& card.category == category
    &&& card.movement_kind is None
    &&& card.arrives_at is None
    &&& card.bounty is None
    &&& card.action == Some(action)
}

/// Where an army away from home is shown: the field it stands on, or the
/// village itself when that is unknown.
pub open spec fn destination_of(army: ArmyView, village_id: u32) -> u32 {
    match army.current_map_field_id {
        Some(id) => id,
        None => village_id,
    }
}

/// Two optional texts hold the same characters.
pub open spec fn same_text(a: Option<String>, b: Option<String>) -> bool {
    match (a, b) {
        (Some(x), Some(y)) => x@ == y@,
        (None, None) => true,
        _ => false,
    }
}

fn copy_text(t: &Option<String>) -> (r: Option<String>)
    ensures
        same_text(r, *t),
{
    match t {
        Some(s) => Some(s.clone()),
        None => None,
    }
}

/// `card` shows movement `m`, labelled by its other end.
pub open spec fn is_movement_card(m: TroopMovement, outgoing: bool, cancelable: Set<u128>, card: ArmyCard) -> bool {
    &&& card.village_id == if outgoing {
        m.target_village_id
    } else {
        m.origin_village_id
    }
    &&& same_text(
        card.village_name,
        if outgoing {
            m.target_village_name
        } else {
            m.origin_village_name
        },
    )
    &&& card.position == Some(
        if outgoing {
            m.target_position
        } else {
            m.origin_position
        },
    )
    &&& card.units@ == m.units@
    &&& card.has_hero == m.has_hero
    &&& card.tribe == m.tribe
    &&& card.category == if outgoing {
        RallyCardCategoryDto::Outgoing
    } else {
        RallyCardCategoryDto::Incoming
    }
    &&& card.movement_kind == Some(spec_movement_kind(m.movement_type))
    &&& card.arrives_at == Some(m.arrives_at)
    &&& card.bounty == m.bounty
    &&& card.action == if outgoing && cancelable.contains(m.job_id) {
        Some(ArmyAction::Cancel(m.job_id))
    } else {
        None
    }
}

/// Village `id` is named by an army of the rally point: the place where one of
/// the village's armies stands or is trapped, or the home of a reinforcement
/// or of an army caught in the village's traps.
pub open spec fn is_referenced_village(a: VillageArmyState, id: u32) -> bool {
    ||| exists|i: int| 0 <= i < a.deployed_armies@.len() && #[trigger] a.deployed_armies@[i].current_map_field_id == Some(id)
    ||| exists|i: int| 0 <= i < a.reinforcements@.len() && #[trigger] a.reinforcements@[i].village_id == id
    ||| exists|i: int| 0 <= i < a.trapped_here@.len() && #[trigger] a.trapped_here@[i].village_id == id
    ||| exists|i: int| 0 <= i < a.trapped_away@.len() && #[trigger] a.trapped_away@[i].current_map_field_id == Some(id)
}

fn push_unique(ids: &mut Vec<u32>, id: u32)
    requires
        old(ids)@.no_duplicates(),
    ensures
        final(ids)@.no_duplicates(),
        forall|x: u32| final(ids)@.contains(x) <==> (old(ids)@.contains(x) || x == id),
{
    let mut i: usize = 0;
    while i < ids.len()
        invariant
            i <= ids@.len(),
            ids@ == old(ids)@,
            ids@.no_duplicates(),
            forall|k: int| 0 <= k < i ==> ids@[k] != id,
        decreases ids.len() - i,
    {
        if ids[i] == id {
            assert(ids@[i as int] == id);
            return;
        }
        i = i + 1;
    }
    ids.push(id);
    proof {
        assert forall|x: u32| final(ids)@.contains(x) <==> (old(ids)@.contains(x) || x == id) by {
            if final(ids)@.contains(x) {
                let k = choose|k: int| 0 <= k < final(ids)@.len() && final(ids)@[k] == x;
                if k < old(ids)@.len() {
                    assert(old(ids)@[k] == x);
                }
            }
            if old(ids)@.contains(x) {
                let k = choose|k: int| 0 <= k < old(ids)@.len() && old(ids)@[k] == x;
                assert(final(ids)@[k] == x);
            }
            if x == id {
                assert(final(ids)@[old(ids)@.len() as int] == x);
            }
        }
    }
}

/// The villages whose names and positions the rally point needs, each once
/// (in no particular order).
pub fn rally_reference_ids(a: &VillageArmyState) -> (r: Vec<u32>)
    ensures
        r@.no_duplicates(),
        forall|id: u32| r@.contains(id) <==> is_referenced_village(*a, id),
{
    let mut ids: Vec<u32> = Vec::new();
    let mut i: usize = 0;
    while i < a.deployed_armies.len()
        invariant
            i <= a.deployed_armies@.len(),
            ids@.no_duplicates(),
            forall|x: u32| ids@.contains(x) <==> exists|k: int| 0 <= k < i && #[trigger] a.deployed_armies@[k].current_map_field_id == Some(x),
        decreases a.deployed_armies.len() - i,
    {
        match a.deployed_armies[i].current_map_field_id {
            Some(id) => push_unique(&mut ids, id),
            None => {},
        }
        proof {
            assert forall|x: u32| ids@.contains(x) <==> exists|k: int| 0 <= k < i + 1 && #[trigger] a.deployed_armies@[k].current_map_field_id == Some(x) by {
                if a.deployed_armies@[i as int].current_map_field_id == Some(x) {
                    assert(ids@.contains(x));
                }
            }
        }
        i = i + 1;
    }
    let mut j: usize = 0;
    while j < a.reinforcements.len()
        invariant
            j <= a.reinforcements@.len(),
            ids@.no_duplicates(),
            forall|x: u32| ids@.contains(x) <==> ((exists|k: int| 0 <= k < a.deployed_armies@.len() && #[trigger] a.deployed_armies@[k].current_map_field_id == Some(x))
                || exists|k: int| 0 <= k < j && #[trigger] a.reinforcements@[k].village_id == x),
        decreases a.reinforcements.len() - j,
    {
        push_unique(&mut ids, a.reinforcements[j].village_id);
        proof {
            assert forall|x: u32| ids@.contains(x) <==> ((exists|k: int| 0 <= k < a.deployed_armies@.len() && #[trigger] a.deployed_armies@[k].current_map_field_id == Some(x))
                || exists|k: int| 0 <= k < j + 1 && #[trigger] a.reinforcements@[k].village_id == x) by {
                if a.reinforcements@[j as int].village_id == x {
                    assert(ids@.contains(x));
                }
            }
        }
        j = j + 1;
    }
    let mut h: usize = 0;
    while h < a.trapped_here.len()
        invariant
            h <= a.trapped_here@.len(),
            ids@.no_duplicates(),
            forall|x: u32| ids@.contains(x) <==> ((exists|k: int| 0 <= k < a.deployed_armies@.len() && #[trigger] a.deployed_armies@[k].current_map_field_id == Some(x))
                || (exists|k: int| 0 <= k < a.reinforcements@.len() && #[trigger] a.reinforcements@[k].village_id == x)
                || exists|k: int| 0 <= k < h && #[trigger] a.trapped_here@[k].village_id == x),
        decreases a.trapped_here.len() - h,
    {
        push_unique(&mut ids, a.trapped_here[h].village_id);
        proof {
            assert forall|x: u32| ids@.contains(x) <==> ((exists|k: int| 0 <= k < a.deployed_armies@.len() && #[trigger] a.deployed_armies@[k].current_map_field_id == Some(x))
                || (exists|k: int| 0 <= k < a.reinforcements@.len() && #[trigger] a.reinforcements@[k].village_id == x)
                || exists|k: int| 0 <= k < h + 1 && #[trigger] a.trapped_here@[k].village_id == x) by {
                if a.trapped_here@[h as int].village_id == x {
                    assert(ids@.contains(x));
                }
            }
        }
        h = h + 1;
    }
    let mut t: usize = 0;
    while t < a.trapped_away.len()
        invariant
            t <= a.trapped_away@.len(),
            ids@.no_duplicates(),
            forall|x: u32| ids@.contains(x) <==> ((exists|k: int| 0 <= k < a.deployed_armies@.len() && #[trigger] a.deployed_armies@[k].current_map_field_id == Some(x))
                || (exists|k: int| 0 <= k < a.reinforcements@.len() && #[trigger] a.reinforcements@[k].village_id == x)
                || (exists|k: int| 0 <= k < a.trapped_here@.len() && #[trigger] a.trapped_here@[k].village_id == x)
                || exists|k: int| 0 <= k < t && #[trigger] a.trapped_away@[k].current_map_field_id == Some(x)),
        decreases a.trapped_away.len() - t,
    {
        match a.trapped_away[t].current_map_field_id {
            Some(id) => push_unique(&mut ids, id),
            None => {},
        }
        proof {
            assert forall|x: u32| ids@.contains(x) <==> ((exists|k: int| 0 <= k < a.deployed_armies@.len() && #[trigger] a.deployed_armies@[k].current_map_field_id == Some(x))
                || (exists|k: int| 0 <= k < a.reinforcements@.len() && #[trigger] a.reinforcements@[k].village_id == x)
                || (exists|k: int| 0 <= k < a.trapped_here@.len() && #[trigger] a.trapped_here@[k].village_id == x)
                || exists|k: int| 0 <= k < t + 1 && #[trigger] a.trapped_away@[k].current_map_field_id == Some(x)) by {
                if a.trapped_away@[t as int].current_map_field_id == Some(x) {
                    assert(ids@.contains(x));
                }
            }
        }
        t = t + 1;
    }
    ids
}

/// What the rally point is built from.
pub struct RallyInputs<'a> {
    pub village_id: u32,
    pub village_name: &'a str,
    pub village_position: Position,
    pub village_tribe: Tribe,
    pub armies: &'a VillageArmyState,
    pub outgoing: &'a Vec<TroopMovement>,
    pub incoming: &'a Vec<TroopMovement>,
    pub references: &'a HashMap<u32, VillageReference>,
    pub cancelable: &'a HashSet<u128>,
}

/// Number of cards before each section: home, deployed, reinforcements,
/// trapped here, trapped away, outgoing, incoming.
pub open spec fn section_start(a: VillageArmyState, outgoing: Seq<TroopMovement>, section: int) -> int {
    let s1 = if a.home_army is Some {
        1int
    } else {
        0int
    };
    let s2 = s1 + a.deployed_armies@.len();
    let s3 = s2 + a.reinforcements@.len();
    let s4 = s3 + a.trapped_here@.len();
    let s5 = s4 + a.trapped_away@.len();
    let s6 = s5 + outgoing.len();
    if section <= 0 {
        0
    } else if section == 1 {
        s1
    } else if section == 2 {
        s2
    } else if section == 3 {
        s3
    } else if section == 4 {
        s4
    } else if section == 5 {
        s5
    } else {
        s6
    }
}

/// `card` is card `k` of the rally point: the home army first, then armies
/// deployed, reinforcements hosted, armies trapped here and away, outgoing
/// movements and incoming movements, each section in its own order.
pub open spec fn is_rally_card(
    village_id: u32,
    village_name: Seq<char>,
    village_position: Position,
    village_tribe: Tribe,
    a: VillageArmyState,
    outgoing: Seq<TroopMovement>,
    incoming: Seq<TroopMovement>,
    refs: Map<u32, VillageReference>,
    cancelable: Set<u128>,
    k: int,
    card: ArmyCard,
) -> bool {
    if k < section_start(a, outgoing, 1) {
        let army = a.home_army->0;
        &&& card.village_id == village_id
        &&& card.village_name matches Some(n) && n@ == village_name
        &&& card.position == Some(village_position)
        &&& card.units@ == army.units@
        &&& card.has_hero == army.has_hero
        &&& card.tribe == village_tribe
        &&& card.category == RallyCardCategoryDto::Stationed
        &&& card.movement_kind is None
        &&& card.arrives_at is None
        &&& card.bounty is None
        &&& card.action is None
    } else if k < section_start(a, outgoing, 2) {
        let army = a.deployed_armies@[k - section_start(a, outgoing, 1)];
        is_army_card(
            refs,
            army,
            destination_of(army, village_id),
            RallyCardCategoryDto::Deployed,
            ArmyAction::Recall(army.id),
            card,
        )
    } else if k < section_start(a, outgoing, 3) {
        let army = a.reinforcements@[k - section_start(a, outgoing, 2)];
        is_army_card(refs, army, army.village_id, RallyCardCategoryDto::Reinforcement, ArmyAction::Release(army.id), card)
    } else if k < section_start(a, outgoing, 4) {
        let army = a.trapped_here@[k - section_start(a, outgoing, 3)];
        is_army_card(
            refs,
            army,
            army.village_id,
            RallyCardCategoryDto::Trapped,
            ArmyAction::ReleaseTrapped(army.id),
            card,
        )
    } else if k < section_start(a, outgoing, 5) {
        let army = a.trapped_away@[k - section_start(a, outgoing, 4)];
        is_army_card(
            refs,
            army,
            destination_of(army, village_id),
            RallyCardCategoryDto::Trapped,
            ArmyAction::DisbandTrapped(army.id),
            card,
        )
    } else if k < section_start(a, outgoing, 6) {
        is_movement_card(outgoing[k - section_start(a, outgoing, 5)], true, cancelable, card)
    } else {
        is_movement_card(incoming[k - section_start(a, outgoing, 6)], false, cancelable, card)
    }
}

/// The cards match the rally point's sources up to `n`.
pub open spec fn cards_match(inp: RallyInputs, cards: Seq<ArmyCard>, n: int) -> bool {
    &&& cards.len() == n
    &&& forall|k: int|
        0 <= k < n ==> is_rally_card(
            inp.village_id,
            inp.village_name@,
            inp.village_position,
            inp.village_tribe,
            *inp.armies,
            inp.outgoing@,
            inp.incoming@,
            inp.references@,
            inp.cancelable@,
            k,
            #[trigger] cards[k],
        )
}

fn army_card(
    refs: &HashMap<u32, VillageReference>,
    army: &ArmyView,
    id: u32,
    category: RallyCardCategoryDto,
    action: ArmyAction,
) -> (card: ArmyCard)
    ensures
        is_army_card(refs@, *army, id, category, action, card),
{
    let (village_name, position) = village_label(refs, id);
    ArmyCard {
        village_id: id,
        village_name,
        position,
        units: copy_units(&army.units),
        has_hero: army.has_hero,
        tribe: army.tribe,
        category,
        movement_kind: None,
        arrives_at: None,
        bounty: None,
        action: Some(action),
    }
}

fn movement_card(m: &TroopMovement, outgoing: bool, cancelable: &HashSet<u128>) -> (card: ArmyCard)
    ensures
        is_movement_card(*m, outgoing, cancelable@, card),
{
    let action = if outgoing && cancelable.contains(&m.job_id) {
        Some(ArmyAction::Cancel(m.job_id))
    } else {
        None
    };
    ArmyCard {
        village_id: if outgoing {
            m.target_village_id
        } else {
            m.origin_village_id
        },
        village_name: if outgoing {
            copy_text(&m.target_village_name)
        } else {
            copy_text(&m.origin_village_name)
        },
        position: Some(
            if outgoing {
                m.target_position
            } else {
                m.origin_position
            },
        ),
        units: copy_units(&m.units),
        has_hero: m.has_hero,
        tribe: m.tribe,
        category: if outgoing {
            RallyCardCategoryDto::Outgoing
        } else {
            RallyCardCategoryDto::Incoming
        },
        movement_kind: Some(movement_kind(m.movement_type)),
        arrives_at: Some(m.arrives_at),
        bounty: m.bounty,
        action,
    }
}

fn push_army_cards(
    inp: &RallyInputs,
    cards: &mut Vec<ArmyCard>,
    armies: &Vec<ArmyView>,
    section: u8,
    category: RallyCardCategoryDto,
)
    requires
        1 <= section <= 4,
        cards_match(*inp, old(cards)@, section_start(*inp.armies, inp.outgoing@, section as int)),
        section == 1 ==> *armies == inp.armies.deployed_armies && category == RallyCardCategoryDto::Deployed,
        section == 2 ==> *armies == inp.armies.reinforcements && category == RallyCardCategoryDto::Reinforcement,
        section == 3 ==> *armies == inp.armies.trapped_here && category == RallyCardCategoryDto::Trapped,
        section == 4 ==> *armies == inp.armies.trapped_away && category == RallyCardCategoryDto::Trapped,
    ensures
        cards_match(*inp, final(cards)@, section_start(*inp.armies, inp.outgoing@, section + 1int)),
{
    let ghost start = section_start(*inp.armies, inp.outgoing@, section as int);
    assert(section_start(*inp.armies, inp.outgoing@, section + 1int) == start + armies@.len());
    let mut i: usize = 0;
    while i < armies.len()
        invariant
            1 <= section <= 4,
            i <= armies@.len(),
            start == section_start(*inp.armies, inp.outgoing@, section as int),
            section_start(*inp.armies, inp.outgoing@, section + 1int) == start + armies@.len(),
            section == 1 ==> *armies == inp.armies.deployed_armies && category == RallyCardCategoryDto::Deployed,
            section == 2 ==> *armies == inp.armies.reinforcements && category == RallyCardCategoryDto::Reinforcement,
            section == 3 ==> *armies == inp.armies.trapped_here && category == RallyCardCategoryDto::Trapped,
            section == 4 ==> *armies == inp.armies.trapped_away && category == RallyCardCategoryDto::Trapped,
            cards_match(*inp, cards@, start + i),
        decreases armies.len() - i,
    {
        let army = &armies[i];
        let card = if section == 1 {
            let id = match army.current_map_field_id {
                Some(id) => id,
                None => inp.village_id,
            };
            army_card(inp.references, army, id, category, ArmyAction::Recall(army.id))
        } else if section == 2 {
            army_card(inp.references, army, army.village_id, category, ArmyAction::Release(army.id))
        } else if section == 3 {
            army_card(inp.references, army, army.village_id, category, ArmyAction::ReleaseTrapped(army.id))
        } else {
            let id = match army.current_map_field_id {
                Some(id) => id,
                None => inp.village_id,
            };
            army_card(inp.references, army, id, category, ArmyAction::DisbandTrapped(army.id))
        };
        cards.push(card);
        i = i + 1;
    }
}

fn push_movement_cards(inp: &RallyInputs, cards: &mut Vec<ArmyCard>, outgoing: bool)
    requires
        cards_match(
            *inp,
            old(cards)@,
            section_start(
                *inp.armies,
                inp.outgoing@,
                if outgoing {
                    5int
                } else {
                    6int
                },
            ),
        ),
    ensures
        cards_match(
            *inp,
            final(cards)@,
            if outgoing {
                section_start(*inp.armies, inp.outgoing@, 6)
            } else {
                section_start(*inp.armies, inp.outgoing@, 6) + inp.incoming@.len()
            },
        ),
{
    let movements = if outgoing {
        inp.outgoing
    } else {
        inp.incoming
    };
    let ghost start = section_start(
        *inp.armies,
        inp.outgoing@,
        if outgoing {
            5int
        } else {
            6int
        },
    );
    let mut i: usize = 0;
    while i < movements.len()
        invariant
            i <= movements@.len(),
            movements == if outgoing {
                inp.outgoing
            } else {
                inp.incoming
            },
            start == section_start(
                *inp.armies,
                inp.outgoing@,
                if outgoing {
                    5int
                } else {
                    6int
                },
            ),
            cards_match(*inp, cards@, start + i),
        decreases movements.len() - i,
    {
        let card = movement_card(&movements[i], outgoing, inp.cancelable);
        cards.push(card);
        i = i + 1;
    }
}

/// Builds the cards of the rally point: the home army, armies deployed,
/// reinforcements hosted, armies trapped here and away, then outgoing and
/// incoming movements. Armies away are labelled by the village where they
/// stand, known villages by name and position, others as `Village #<id>`;
/// outgoing movements that can still be cancelled offer to cancel them.
pub fn prepare_rally_point_cards(inp: &RallyInputs) -> (r: Vec<ArmyCard>)
    ensures
        cards_match(*inp, r@, section_start(*inp.armies, inp.outgoing@, 6) + inp.incoming@.len()),
{
    let mut cards: Vec<ArmyCard> = Vec::new();
    if let Some(army) = &inp.armies.home_army {
        cards.push(
            ArmyCard {
                village_id: inp.village_id,
                village_name: Some(String::from_str(inp.village_name)),
                position: Some(inp.village_position),
                units: copy_units(&army.units),
                has_hero: army.has_hero,
                tribe: inp.village_tribe,
                category: RallyCardCategoryDto::Stationed,
                movement_kind: None,
                arrives_at: None,
                bounty: None,
                action: None,
            },
        );
    }
    push_army_cards(inp, &mut cards, &inp.armies.deployed_armies, 1, RallyCardCategoryDto::Deployed);
    push_army_cards(inp, &mut cards, &inp.armies.reinforcements, 2, RallyCardCategoryDto::Reinforcement);
    push_army_cards(inp, &mut cards, &inp.armies.trapped_here, 3, RallyCardCategoryDto::Trapped);
    push_army_cards(inp, &mut cards, &inp.armies.trapped_away, 4, RallyCardCategoryDto::Trapped);
    push_movement_cards(inp, &mut cards, true);
    push_movement_cards(inp, &mut cards, false);
    cards
}

/// Upkeep of the first `n` unit types: each count times its upkeep
/// (saturating), summed.
pub open spec fn upkeep_total(upkeeps: Seq<u32>, units: Seq<u32>, n: nat) -> int
    decreases n,
{
    if n == 0 {
        0
    } else {
        upkeep_total(upkeeps, units, (n - 1) as nat) + {
            let p = upkeeps[n - 1] * unit_count(units, n - 1);
            if p > u32::MAX {
                u32::MAX as int
            } else {
                p
            }
        }
    }
}

proof fn lemma_upkeep_total_grows(upkeeps: Seq<u32>, units: Seq<u32>, i: nat, n: nat)
    requires
        i <= n,
    ensures
        0 <= upkeep_total(upkeeps, units, i) <= upkeep_total(upkeeps, units, n),
    decreases n,
{
    if n > 0 {
        if i < n {
            lemma_upkeep_total_grows(upkeeps, units, i, (n - 1) as nat);
        } else {
            lemma_upkeep_total_grows(upkeeps, units, (n - 1) as nat, (n - 1) as nat);
        }
    }
}

/// Upkeep of a troop: per unit type, the count times the upkeep (saturating), summed.
pub fn troop_upkeep(upkeeps: &Vec<u32>, units: &Vec<u32>) -> (r: u32)
    requires
        upkeep_total(upkeeps@, units@, upkeeps@.len()) <= u32::MAX,
    ensures
        r == upkeep_total(upkeeps@, units@, upkeeps@.len()),
{
    let mut total: u32 = 0;
    let mut i: usize = 0;
    while i < upkeeps.len()
        invariant
            i <= upkeeps@.len(),
            upkeep_total(upkeeps@, units@, upkeeps@.len()) <= u32::MAX,
            total == upkeep_total(upkeeps@, units@, i as nat),
        decreases upkeeps.len() - i,
    {
        proof {
            lemma_upkeep_total_grows(upkeeps@, units@, (i + 1) as nat, upkeeps@.len());
        }
        let count = get_unit_count(units, i);
        assert(upkeeps@[i as int] * count <= u32::MAX * u32::MAX) by (nonlinear_arith)
            requires
                upkeeps@[i as int] <= u32::MAX,
                count <= u32::MAX,
        ;
        let wide: u64 = (upkeeps[i] as u64) * (count as u64);
        let part: u32 = if wide > u32::MAX as u64 {
            u32::MAX
        } else {
            wide as u32
        };
        total = total + part;
        i = i + 1;
    }
    total
}

/// Which upkeep a card shows: none for incoming movements other than one's
/// own returns, nor for armies deployed elsewhere; the village's own figures
/// for its own armies of its tribe at home, outgoing or returning; the tribe's
/// base figures otherwise. `Some(true)` stands for the village's figures.
pub open spec fn upkeep_basis(card: ArmyCard, village_tribe: Tribe) -> Option<bool> {
    let returning = card.category == RallyCardCategoryDto::Incoming && card.movement_kind == Some(
        RallyMovementKindDto::Return,
    );
    let hidden = (card.category == RallyCardCategoryDto::Incoming && !returning) || card.category
        == RallyCardCategoryDto::Deployed;
    let own = card.category == RallyCardCategoryDto::Stationed || card.category == RallyCardCategoryDto::Outgoing
        || returning;
    if hidden {
        None
    } else {
        Some(own && card.tribe == village_tribe)
    }
}

/// The upkeep shown on a card. `village_upkeeps` are the village's own
/// upkeep figures for its tribe's units, `tribe_upkeeps` the base figures of
/// the card's tribe.
pub fn rally_card_upkeep(
    card: &ArmyCard,
    village_tribe: Tribe,
    village_upkeeps: &Vec<u32>,
    tribe_upkeeps: &Vec<u32>,
) -> (r: Option<u32>)
    requires
        upkeep_basis(*card, village_tribe) == Some(true) ==> upkeep_total(
            village_upkeeps@,
            card.units@,
            village_upkeeps@.len(),
        ) <= u32::MAX,
        upkeep_basis(*card, village_tribe) == Some(false) ==> upkeep_total(
            tribe_upkeeps@,
            card.units@,
            tribe_upkeeps@.len(),
        ) <= u32::MAX,
    ensures
        match upkeep_basis(*card, village_tribe) {
            None => r is None,
            Some(true) => r == Some(upkeep_total(village_upkeeps@, card.units@, village_upkeeps@.len()) as u32),
            Some(false) => r == Some(upkeep_total(tribe_upkeeps@, card.units@, tribe_upkeeps@.len()) as u32),
        },
{
    let returning = card.category == RallyCardCategoryDto::Incoming && card.movement_kind == Some(
        RallyMovementKindDto::Return,
    );
    let hidden = (card.category == RallyCardCategoryDto::Incoming && !returning) || card.category
        == RallyCardCategoryDto::Deployed;
    if hidden {
        return None;
    }
    let own = card.category == RallyCardCategoryDto::Stationed || card.category == RallyCardCategoryDto::Outgoing
        || returning;
    if own && card.tribe == village_tribe {
        Some(troop_upkeep(village_upkeeps, &card.units))
    } else {
        Some(troop_upkeep(tribe_upkeeps, &card.units))
    }
}

/// A card of the rally point, as sent to clients.
#[derive(Debug, Clone)]
pub struct RallyCardDto {
    pub village_id: u32,
    pub village_name: Option<String>,
    pub position: Option<PositionDto>,
    pub tribe: String,
    pub units: Vec<u32>,
    pub has_hero: bool,
    pub upkeep: Option<u32>,
    pub category: RallyCardCategoryDto,
    pub movement_kind: Option<RallyMovementKindDto>,
    pub arrives_at: Option<i64>,
    pub bounty: Option<ResourceAmountsDto>,
    pub action: Option<RallyActionDto>,
    pub action_id: Option<String>,
}

/// The action kind and the id of what it acts on.
pub open spec fn action_parts(a: ArmyAction) -> (RallyActionDto, u128) {
    match a {
        ArmyAction::Recall(id) => (RallyActionDto::Recall, id),
        ArmyAction::Release(id) => (RallyActionDto::Release, id),
        ArmyAction::Cancel(id) => (RallyActionDto::Cancel, id),
        ArmyAction::ReleaseTrapped(id) => (RallyActionDto::ReleaseTrapped, id),
        ArmyAction::DisbandTrapped(id) => (RallyActionDto::DisbandTrapped, id),
    }
}

/// Turns a card into its answer form, with the upkeep it shows.
pub fn rally_card_dto(card: ArmyCard, upkeep: Option<u32>) -> (r: RallyCardDto)
    ensures
        r.village_id == card.village_id,
        r.village_name == card.village_name,
        r.position == match card.position {
            Some(p) => Some(PositionDto { x: p.x, y: p.y }),
            None => None,
        },
        r.tribe@ == spec_tribe_key(card.tribe),
        r.units == card.units,
        r.has_hero == card.has_hero,
        r.upkeep == upkeep,
        r.category == card.category,
        r.movement_kind == card.movement_kind,
        r.arrives_at == card.arrives_at,
        r.bounty == match card.bounty {
            Some(b) => Some(amounts_of(b)),
            None => None,
        },
        match card.action {
            Some(a) => r.action == Some(action_parts(a).0) && (r.action_id matches Some(s) && s@
                == spec_uuid_hyphenated(action_parts(a).1)),
            None => r.action is None && r.action_id is None,
        },
{
    let (action, action_id) = match card.action {
        Some(ArmyAction::Recall(id)) => (Some(RallyActionDto::Recall), Some(uuid_to_string(id))),
        Some(ArmyAction::Release(id)) => (Some(RallyActionDto::Release), Some(uuid_to_string(id))),
        Some(ArmyAction::Cancel(id)) => (Some(RallyActionDto::Cancel), Some(uuid_to_string(id))),
        Some(ArmyAction::ReleaseTrapped(id)) => (Some(RallyActionDto::ReleaseTrapped), Some(uuid_to_string(id))),
        Some(ArmyAction::DisbandTrapped(id)) => (Some(RallyActionDto::DisbandTrapped), Some(uuid_to_string(id))),
        None => (None, None),
    };
    let position = match card.position {
        Some(p) => Some(PositionDto { x: p.x, y: p.y }),
        None => None,
    };
    let bounty = match card.bounty {
        Some(b) => Some(resource_amounts(&b)),
        None => None,
    };
    RallyCardDto {
        village_id: card.village_id,
        village_name: card.village_name,
        position,
        tribe: tribe_key(card.tribe),
        units: card.units,
        has_hero: card.has_hero,
        upkeep,
        category: card.category,
        movement_kind: card.movement_kind,
        arrives_at: card.arrives_at,
        bounty,
        action,
        action_id,
    }
}

/// `dto` offers unit type `idx` of the tribe for sending.
pub open spec fn is_sendable_unit(
    unit: TribeUnit,
    idx: int,
    home_units: Seq<u32>,
    researched: Seq<bool>,
    dto: RallySendableUnitDto,
) -> bool {
    &&& dto.unit_idx == idx
    &&& dto.name@ == unit.name@
    &&& dto.available == unit_count(home_units, idx)
    &&& dto.is_researched == ((0 <= idx < researched.len() && researched[idx]) || unit.research_time == 0)
}

/// The unit types that the rally point can send: each of the tribe's units
/// with the count at home (none without a home army) and whether it is
/// researched (known from the start, or researched at the academy).
pub fn sendable_units(units: &Vec<TribeUnit>, home_army: &Option<ArmyView>, researched: &Vec<bool>) -> (r: Vec<
    RallySendableUnitDto,
>)
    ensures
        r@.len() == units@.len(),
        forall|i: int|
            0 <= i < units@.len() ==> is_sendable_unit(
                units@[i],
                i,
                match home_army {
                    Some(a) => a.units@,
                    None => Seq::empty(),
                },
                researched@,
                #[trigger] r@[i],
            ),
{
    let empty: Vec<u32> = Vec::new();
    let home: &Vec<u32> = match home_army {
        Some(a) => &a.units,
        None => &empty,
    };
    let mut out: Vec<RallySendableUnitDto> = Vec::new();
    let mut i: usize = 0;
    while i < units.len()
        invariant
            i <= units@.len(),
            home@ == match home_army {
                Some(a) => a.units@,
                None => Seq::<u32>::empty(),
            },
            out@.len() == i,
            forall|j: int| 0 <= j < i ==> is_sendable_unit(units@[j], j, home@, researched@, #[trigger] out@[j]),
        decreases units.len() - i,
    {
        let is_researched = (i < researched.len() && researched[i]) || units[i].research_time == 0;
        out.push(
            RallySendableUnitDto {
                unit_idx: i,
                name: units[i].name.clone(),
                available: get_unit_count(home, i),
                is_researched,
            },
        );
        i = i + 1;
    }
    out
}

} // verus!
