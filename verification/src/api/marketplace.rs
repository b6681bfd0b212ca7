//! The marketplace: merchants on the way, offers, and the guard of the
//! marketplace forms.

use std::collections::HashMap;

use vstd::prelude::*;

use crate::api::buildings::{
    amounts_of, resource_amounts, MarketplaceOfferDto, MerchantMovementDirectionDto, MerchantMovementKindDto,
    PositionDto,
};
use crate::api::dto::ResourceAmountsDto;
use crate::api::rally::{unknown_village_name, VillageReference};
use crate::ids::{spec_uuid_hyphenated, uuid_to_string};
use crate::model::{spec_building_in_slot, building_in_slot, BuildingName, Position, ResourceGroup, VillageBuilding};
use crate::order::{is_stable_order, stable_order};
use crate::text::append_decimal;

verus! {

broadcast use vstd::std_specs::hash::group_hash_axioms;

/// Whether merchants carry goods or come back.
#[derive(Debug, Clone, Copy, PartialEq, Eq, Structural)]
pub enum MerchantMovementKind {
    Going,
    Return,
}

/// Merchants on the way between two villages.
#[derive(Debug, Clone, Copy, PartialEq, Eq, Structural)]
pub struct MerchantMovement {
    pub job_id: u128,
    pub kind: MerchantMovementKind,
    pub origin_village_id: u32,
    pub destination_village_id: u32,
    pub resources: ResourceGroup,
    pub merchants_used: u8,
    /// Arrival time, unix seconds.
    pub arrives_at: i64,
}

/// Merchants on the way, as the marketplace page lists them.
#[derive(Debug, Clone)]
pub struct MerchantMovementDto {
    pub job_id: String,
    pub direction: MerchantMovementDirectionDto,
    pub kind: MerchantMovementKindDto,
    pub origin_name: String,
    pub origin_position: Option<PositionDto>,
    pub destination_name: String,
    pub destination_position: Option<PositionDto>,
    pub resources: ResourceAmountsDto,
    pub merchants_used: u8,
    pub arrives_at: i64,
}

/// The position of a known village.
pub open spec fn position_of(refs: Map<u32, VillageReference>, id: u32) -> Option<Position> {
    if refs.contains_key(id) {
        Some(refs[id].position)
    } else {
        None
    }
}

fn lookup_position(refs: &HashMap<u32, VillageReference>, id: u32) -> (r: Option<Position>)
    ensures
        r == position_of(refs@, id),
{
    match refs.get(&id) {
        Some(info) => Some(info.position),
        None => None,
    }
}

/// An outgoing delivery `going` pairs with the return `ret`: it runs the
/// reverse route (or the return loops back on itself), with as many
/// merchants, arriving no later.
pub open spec fn pairs_with(refs: Map<u32, VillageReference>, going: MerchantMovement, ret: MerchantMovement) -> bool {
    let return_origin = position_of(refs, ret.origin_village_id);
    let return_destination = position_of(refs, ret.destination_village_id);
    let reverse = position_of(refs, going.origin_village_id) == return_destination && position_of(
        refs,
        going.destination_village_id,
    ) == return_origin;
    &&& going.kind == MerchantMovementKind::Going
    &&& (reverse || return_origin == return_destination)
    &&& going.merchants_used == ret.merchants_used
    &&& going.arrives_at <= ret.arrives_at
}

/// Some outgoing delivery pairs with the return `ret`.
pub open spec fn has_paired_going(refs: Map<u32, VillageReference>, ret: MerchantMovement, outgoing: Seq<MerchantMovement>) -> bool {
    exists|i: int| 0 <= i < outgoing.len() && pairs_with(refs, #[trigger] outgoing[i], ret)
}

/// Whether an outgoing delivery pairs with the return `ret` (such a return is
/// scheduled ahead and not shown yet).
pub fn paired_outgoing_going_exists(
    refs: &HashMap<u32, VillageReference>,
    ret: &MerchantMovement,
    outgoing: &Vec<MerchantMovement>,
) -> (r: bool)
    ensures
        r == has_paired_going(refs@, *ret, outgoing@),
{
    let return_origin = lookup_position(refs, ret.origin_village_id);
    let return_destination = lookup_position(refs, ret.destination_village_id);
    let mut i: usize = 0;
    while i < outgoing.len()
        invariant
            i <= outgoing@.len(),
            return_origin == position_of(refs@, ret.origin_village_id),
            return_destination == position_of(refs@, ret.destination_village_id),
            forall|j: int| 0 <= j < i ==> !pairs_with(refs@, #[trigger] outgoing@[j], *ret),
        decreases outgoing.len() - i,
    {
        let going = outgoing[i];
        if going.kind == MerchantMovementKind::Going {
            let reverse = lookup_position(refs, going.origin_village_id) == return_destination && lookup_position(
                refs,
                going.destination_village_id,
            ) == return_origin;
            if (reverse || return_origin == return_destination) && going.merchants_used == ret.merchants_used
                && going.arrives_at <= ret.arrives_at {
                return true;
            }
        }
        i = i + 1;
    }
    false
}

/// An outgoing movement is shown unless it is a return paired with a delivery.
pub open spec fn is_shown_outgoing(refs: Map<u32, VillageReference>, outgoing: Seq<MerchantMovement>, m: MerchantMovement) -> bool {
    !(m.kind == MerchantMovementKind::Return && has_paired_going(refs, m, outgoing))
}

/// The movements listed, before ordering: shown outgoing ones, then incoming ones.
pub open spec fn listed_movements(
    refs: Map<u32, VillageReference>,
    outgoing: Seq<MerchantMovement>,
    incoming: Seq<MerchantMovement>,
) -> Seq<(MerchantMovement, MerchantMovementDirectionDto)> {
    outgoing.filter(|m: MerchantMovement| is_shown_outgoing(refs, outgoing, m)).map_values(
        |m: MerchantMovement| (m, MerchantMovementDirectionDto::Outgoing),
    ) + incoming.map_values(|m: MerchantMovement| (m, MerchantMovementDirectionDto::Incoming))
}

/// `name` and `position` label village `id`: its reference, or a numbered
/// name and no position.
pub open spec fn labels_endpoint(refs: Map<u32, VillageReference>, id: u32, name: String, position: Option<PositionDto>) -> bool {
    if refs.contains_key(id) {
        name@ == refs[id].name@ && position == Some(PositionDto { x: refs[id].position.x, y: refs[id].position.y })
    } else {
        name@ == unknown_village_name(id) && position is None
    }
}

fn endpoint_label(refs: &HashMap<u32, VillageReference>, id: u32) -> (r: (String, Option<PositionDto>))
    ensures
        labels_endpoint(refs@, id, r.0, r.1),
{
    match refs.get(&id) {
        Some(info) => (info.name.clone(), Some(PositionDto { x: info.position.x, y: info.position.y })),
        None => {
            let mut name = String::from_str("Village #");
            append_decimal(&mut name, id as u64);
            (name, None)
        },
    }
}

/// `dto` lists movement `m` in direction `direction`.
pub open spec fn is_movement_dto(
    refs: Map<u32, VillageReference>,
    m: MerchantMovement,
    direction: MerchantMovementDirectionDto,
    dto: MerchantMovementDto,
) -> bool {
    &&& dto.job_id@ == spec_uuid_hyphenated(m.job_id)
    &&& dto.direction == direction
    &&& dto.kind == match m.kind {
        MerchantMovementKind::Going => MerchantMovementKindDto::Going,
        MerchantMovementKind::Return => MerchantMovementKindDto::Return,
    }
    &&& labels_endpoint(refs, m.origin_village_id, dto.origin_name, dto.origin_position)
    &&& labels_endpoint(refs, m.destination_village_id, dto.destination_name, dto.destination_position)
    &&& dto.resources == amounts_of(m.resources)
    &&& dto.merchants_used == m.merchants_used
    &&& dto.arrives_at == m.arrives_at
}

/// Turns a merchant movement into its listed form.
pub fn merchant_movement_dto(
    refs: &HashMap<u32, VillageReference>,
    m: &MerchantMovement,
    direction: MerchantMovementDirectionDto,
) -> (r: MerchantMovementDto)
    ensures
        is_movement_dto(refs@, *m, direction, r),
{
    let (origin_name, origin_position) = endpoint_label(refs, m.origin_village_id);
    let (destination_name, destination_position) = endpoint_label(refs, m.destination_village_id);
    MerchantMovementDto {
        job_id: uuid_to_string(m.job_id),
        direction,
        kind: match m.kind {
            MerchantMovementKind::Going => MerchantMovementKindDto::Going,
            MerchantMovementKind::Return => MerchantMovementKindDto::Return,
        },
        origin_name,
        origin_position,
        destination_name,
        destination_position,
        resources: resource_amounts(&m.resources),
        merchants_used: m.merchants_used,
        arrives_at: m.arrives_at,
    }
}

/// A marketplace offer: resources offered for resources sought.
#[derive(Debug, Clone, Copy, PartialEq, Eq, Structural)]
pub struct MarketplaceOffer {
    pub id: u128,
    pub village_id: u32,
    pub offer_resources: ResourceGroup,
    pub seek_resources: ResourceGroup,
    pub merchants_required: u8,
    /// Creation time, unix seconds.
    pub created_at: i64,
}

/// `dto` lists `offer`, made by a village whose reference is `r`, at
/// `distance` fields and `travel_time_seconds` from the viewer's village.
pub open spec fn is_offer_dto(
    offer: MarketplaceOffer,
    r: VillageReference,
    distance: u32,
    travel_time_seconds: u32,
    dto: MarketplaceOfferDto,
) -> bool {
    &&& dto.offer_id@ == spec_uuid_hyphenated(offer.id)
    &&& dto.village_id == offer.village_id
    &&& dto.village_name@ == r.name@
    &&& dto.position == (PositionDto { x: r.position.x, y: r.position.y })
    &&& dto.distance == distance
    &&& dto.travel_time_seconds == travel_time_seconds
    &&& dto.offer_resources == amounts_of(offer.offer_resources)
    &&& dto.seek_resources == amounts_of(offer.seek_resources)
    &&& dto.merchants_required == offer.merchants_required
    &&& dto.created_at == offer.created_at
}

/// Lists an offer for the viewer's village; the offering village must be
/// among the references. Its distance and the merchants' travel time are
/// worked out by the game's map.
pub fn marketplace_offer_dto(
    refs: &HashMap<u32, VillageReference>,
    offer: &MarketplaceOffer,
    distance: u32,
    travel_time_seconds: u32,
) -> (r: MarketplaceOfferDto)
    requires
        refs@.contains_key(offer.village_id),
    ensures
        is_offer_dto(*offer, refs@[offer.village_id], distance, travel_time_seconds, r),
{
    let reference = refs.get(&offer.village_id).unwrap();
    MarketplaceOfferDto {
        offer_id: uuid_to_string(offer.id),
        village_id: offer.village_id,
        village_name: reference.name.clone(),
        position: PositionDto { x: reference.position.x, y: reference.position.y },
        distance,
        travel_time_seconds,
        offer_resources: resource_amounts(&offer.offer_resources),
        seek_resources: resource_amounts(&offer.seek_resources),
        merchants_required: offer.merchants_required,
        created_at: offer.created_at,
    }
}

/// Arrival times of listed movements.
pub open spec fn arrival_keys(listed: Seq<(MerchantMovement, MerchantMovementDirectionDto)>) -> Seq<i64> {
    listed.map_values(|e: (MerchantMovement, MerchantMovementDirectionDto)| e.0.arrives_at)
}

/// The merchants of the marketplace page: outgoing movements (but for
/// returns already paired with a delivery), then incoming ones, ordered by
/// arrival, movements arriving at the same time kept in that order.
pub fn merchant_movements(
    refs: &HashMap<u32, VillageReference>,
    outgoing: &Vec<MerchantMovement>,
    incoming: &Vec<MerchantMovement>,
) -> (r: Vec<MerchantMovementDto>)
    ensures
        ({
            let listed = listed_movements(refs@, outgoing@, incoming@);
            &&& r@.len() == listed.len()
            &&& exists|order: Seq<usize>|
                #[trigger] is_stable_order(arrival_keys(listed), order) && forall|k: int|
                    0 <= k < r@.len() ==> is_movement_dto(
                        refs@,
                        listed[order[k] as int].0,
                        listed[order[k] as int].1,
                        #[trigger] r@[k],
                    )
        }),
{
    let ghost shown = |m: MerchantMovement| is_shown_outgoing(refs@, outgoing@, m);
    let mut listed: Vec<(MerchantMovement, MerchantMovementDirectionDto)> = Vec::new();
    let mut i: usize = 0;
    while i < outgoing.len()
        invariant
            i <= outgoing@.len(),
            shown == (|m: MerchantMovement| is_shown_outgoing(refs@, outgoing@, m)),
            listed@ == outgoing@.take(i as int).filter(shown).map_values(
                |m: MerchantMovement| (m, MerchantMovementDirectionDto::Outgoing),
            ),
        decreases outgoing.len() - i,
    {
        let m = outgoing[i];
        proof {
            assert(outgoing@.take(i + 1).drop_last() =~= outgoing@.take(i as int));
            reveal(Seq::filter);
        }
        let hidden = m.kind == MerchantMovementKind::Return && paired_outgoing_going_exists(refs, &m, outgoing);
        if !hidden {
            listed.push((m, MerchantMovementDirectionDto::Outgoing));
        }
        proof {
            assert(listed@ =~= outgoing@.take(i + 1).filter(shown).map_values(
                |m: MerchantMovement| (m, MerchantMovementDirectionDto::Outgoing),
            ));
        }
        i = i + 1;
    }
    assert(outgoing@.take(i as int) =~= outgoing@);
    let ghost first = listed@;
    let mut k: usize = 0;
    while k < incoming.len()
        invariant
            k <= incoming@.len(),
            listed@ == first + incoming@.take(k as int).map_values(
                |m: MerchantMovement| (m, MerchantMovementDirectionDto::Incoming),
            ),
        decreases incoming.len() - k,
    {
        listed.push((incoming[k], MerchantMovementDirectionDto::Incoming));
        assert(listed@ =~= first + incoming@.take(k + 1).map_values(
            |m: MerchantMovement| (m, MerchantMovementDirectionDto::Incoming),
        ));
        k = k + 1;
    }
    assert(incoming@.take(k as int) =~= incoming@);
    assert(listed@ =~= listed_movements(refs@, outgoing@, incoming@));
    let mut keys: Vec<i64> = Vec::new();
    let mut j: usize = 0;
    while j < listed.len()
        invariant
            j <= listed@.len(),
            keys@ == arrival_keys(listed@).take(j as int),
        decreases listed.len() - j,
    {
        keys.push(listed[j].0.arrives_at);
        assert(keys@ =~= arrival_keys(listed@).take(j + 1));
        j = j + 1;
    }
    assert(keys@ =~= arrival_keys(listed@));
    let order = stable_order(&keys);
    let mut out: Vec<MerchantMovementDto> = Vec::new();
    let mut t: usize = 0;
    while t < order.len()
        invariant
            t <= order@.len(),
            is_stable_order(arrival_keys(listed@), order@),
            keys@ == arrival_keys(listed@),
            out@.len() == t,
            forall|q: int|
                0 <= q < t ==> is_movement_dto(
                    refs@,
                    listed@[order@[q] as int].0,
                    listed@[order@[q] as int].1,
                    #[trigger] out@[q],
                ),
        decreases order.len() - t,
    {
        let idx = order[t];
        let entry = listed[idx];
        out.push(merchant_movement_dto(refs, &entry.0, entry.1));
        t = t + 1;
    }
    out
}

/// The message shown when a marketplace form is used elsewhere.
pub open spec fn invalid_marketplace_text() -> Seq<char> {
    "You can only use marketplace actions from the Marketplace."@
}

/// Returns the message shown when a marketplace form is used elsewhere.
pub fn invalid_marketplace_message() -> (s: String)
    ensures
        s@ == invalid_marketplace_text(),
{
    String::from_str("You can only use marketplace actions from the Marketplace.")
}

/// The marketplace forms are accepted only from a valid slot holding the marketplace.
pub open spec fn is_marketplace_slot(buildings: Seq<VillageBuilding>, slot_id: u8) -> bool {
    &&& 1 <= slot_id <= 40
    &&& spec_building_in_slot(buildings, slot_id) matches Some(b) && b.name == BuildingName::Marketplace
}

/// Checks that a marketplace form comes from the marketplace's slot; the
/// error is the message to show otherwise.
pub fn ensure_marketplace_slot(buildings: &Vec<VillageBuilding>, slot_id: u8) -> (r: Result<(), String>)
    ensures
        r is Ok <==> is_marketplace_slot(buildings@, slot_id),
        r matches Err(m) ==> m@ == invalid_marketplace_text(),
{
    if !(1 <= slot_id && slot_id <= 40) {
        return Err(invalid_marketplace_message());
    }
    match building_in_slot(buildings, slot_id) {
        Some(b) => if b.name == BuildingName::Marketplace {
            Ok(())
        } else {
            Err(invalid_marketplace_message())
        },
        None => Err(invalid_marketplace_message()),
    }
}

} // verus!
