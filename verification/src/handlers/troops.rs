//! Checks of the rally point, training, building and founding forms before
//! their commands run, and the commands they become.

use vstd::prelude::*;

use crate::api::actions::{has_negative_amount, requested_amount, troop_set_of, AttackType, ScoutingTarget};
use crate::handlers::forms::{
    BuildAction, BuildActionForm, ConfirmSendTroopsForm, SendMovementKind, SendTroopsForm, TrainUnitsForm,
};
use crate::model::{
    building_in_slot, parse_building_name, spec_building_in_slot, spec_parse_building_name, BuildingName,
    MapField, MapFieldTopology, UnitRole, UnitStats, VillageBuilding, TROOP_SLOTS,
};
use crate::text::str_eq;

verus! {

/// Highest building slot id.
pub const MAX_SLOT_ID: u8 = 40;

/// Why a rally point, training or founding form is refused.
#[derive(Debug, Clone, Copy, PartialEq, Eq, Structural)]
pub enum FormRefusal {
    InvalidBuilding,
    InvalidUnits,
    InvalidTarget,
    ArmyMissing,
    ScoutRequiresAttack,
    InvalidTrainingQuantity,
    InvalidTrainingBuilding,
}

pub open spec fn spec_refusal_key(r: FormRefusal) -> Seq<char> {
    match r {
        FormRefusal::InvalidBuilding => "game.rally_point.invalid_building"@,
        FormRefusal::InvalidUnits => "game.rally_point.invalid_units"@,
        FormRefusal::InvalidTarget => "game.rally_point.invalid_target"@,
        FormRefusal::ArmyMissing => "game.rally_point.army_missing"@,
        FormRefusal::ScoutRequiresAttack => "game.rally_point.scout_requires_attack"@,
        FormRefusal::InvalidTrainingQuantity => "game.building.invalid_training_quantity"@,
        FormRefusal::InvalidTrainingBuilding => "game.building.invalid_training_building"@,
    }
}

/// The translation key of the message shown for a refusal.
pub fn refusal_key(r: FormRefusal) -> (s: String)
    ensures
        s@ == spec_refusal_key(r),
{
    match r {
        FormRefusal::InvalidBuilding => String::from_str("game.rally_point.invalid_building"),
        FormRefusal::InvalidUnits => String::from_str("game.rally_point.invalid_units"),
        FormRefusal::InvalidTarget => String::from_str("game.rally_point.invalid_target"),
        FormRefusal::ArmyMissing => String::from_str("game.rally_point.army_missing"),
        FormRefusal::ScoutRequiresAttack => String::from_str("game.rally_point.scout_requires_attack"),
        FormRefusal::InvalidTrainingQuantity => String::from_str("game.building.invalid_training_quantity"),
        FormRefusal::InvalidTrainingBuilding => String::from_str("game.building.invalid_training_building"),
    }
}

/// Reads unit amounts from a form: `None` when one is negative.
pub fn parse_troop_set(values: &[i32]) -> (r: Option<Vec<u32>>)
    ensures
        r is Some <==> !has_negative_amount(values@),
        r matches Some(t) ==> t@ == troop_set_of(values@),
{
    let mut troops: Vec<u32> = Vec::new();
    let mut idx: usize = 0;
    while idx < TROOP_SLOTS
        invariant
            idx <= TROOP_SLOTS,
            troops@ =~= troop_set_of(values@).take(idx as int),
            forall|i: int| 0 <= i < idx ==> #[trigger] requested_amount(values@, i) >= 0,
        decreases TROOP_SLOTS - idx,
    {
        let amount: i32 = if idx < values.len() {
            values[idx]
        } else {
            0
        };
        if amount < 0 {
            assert(requested_amount(values@, idx as int) < 0);
            return None;
        }
        troops.push(amount as u32);
        idx = idx + 1;
    }
    assert(troops@ =~= troop_set_of(values@));
    Some(troops)
}

/// The troop set of the founding form: negative amounts read as none.
pub open spec fn lenient_troop_set(values: Seq<i32>) -> Seq<u32> {
    Seq::new(
        TROOP_SLOTS as nat,
        |i: int|
            if requested_amount(values, i) < 0 {
                0u32
            } else {
                requested_amount(values, i) as u32
            },
    )
}

/// Reads unit amounts from the founding form, negative ones as none.
pub fn parse_troop_set_lenient(values: &[i32]) -> (r: Vec<u32>)
    ensures
        r@ == lenient_troop_set(values@),
{
    let mut troops: Vec<u32> = Vec::new();
    let mut idx: usize = 0;
    while idx < TROOP_SLOTS
        invariant
            idx <= TROOP_SLOTS,
            troops@ =~= lenient_troop_set(values@).take(idx as int),
        decreases TROOP_SLOTS - idx,
    {
        let amount: i32 = if idx < values.len() {
            values[idx]
        } else {
            0
        };
        troops.push(
            if amount >= 0 {
                amount as u32
            } else {
                0
            },
        );
        idx = idx + 1;
    }
    assert(troops@ =~= lenient_troop_set(values@));
    troops
}

/// No unit is asked for.
pub open spec fn no_units(units: Seq<u32>) -> bool {
    forall|i: int| 0 <= i < units.len() ==> #[trigger] units[i] == 0
}

fn all_zero(units: &Vec<u32>) -> (r: bool)
    ensures
        r == no_units(units@),
{
    let mut i: usize = 0;
    while i < units.len()
        invariant
            i <= units@.len(),
            forall|j: int| 0 <= j < i ==> #[trigger] units@[j] == 0,
        decreases units.len() - i,
    {
        if units[i] != 0 {
            return false;
        }
        i = i + 1;
    }
    true
}

/// The form's slot holds the village's rally point.
pub open spec fn is_rally_point_slot(buildings: Seq<VillageBuilding>, slot_id: u8) -> bool {
    &&& 1 <= slot_id <= MAX_SLOT_ID
    &&& spec_building_in_slot(buildings, slot_id) matches Some(b) && b.name == BuildingName::RallyPoint
}

fn check_rally_point_slot(buildings: &Vec<VillageBuilding>, slot_id: u8) -> (r: bool)
    ensures
        r == is_rally_point_slot(buildings@, slot_id),
{
    if !(1 <= slot_id && slot_id <= MAX_SLOT_ID) {
        return false;
    }
    match building_in_slot(buildings, slot_id) {
        Some(b) => b.name == BuildingName::RallyPoint,
        None => false,
    }
}

/// The units of a rally point send form, or why it is refused: the slot must
/// hold the rally point, no amount may be negative, and some unit must be sent.
pub open spec fn spec_check_send_form(buildings: Seq<VillageBuilding>, slot_id: u8, values: Seq<i32>) -> Result<
    Seq<u32>,
    FormRefusal,
> {
    if !is_rally_point_slot(buildings, slot_id) {
        Err(FormRefusal::InvalidBuilding)
    } else if has_negative_amount(values) || no_units(troop_set_of(values)) {
        Err(FormRefusal::InvalidUnits)
    } else {
        Ok(troop_set_of(values))
    }
}

/// Checks the rally point send form.
pub fn check_send_troops_form(buildings: &Vec<VillageBuilding>, form: &SendTroopsForm) -> (r: Result<
    Vec<u32>,
    FormRefusal,
>)
    ensures
        match spec_check_send_form(buildings@, form.slot_id, form.units@) {
            Ok(t) => r matches Ok(v) && v@ == t,
            Err(e) => r == Err::<Vec<u32>, FormRefusal>(e),
        },
{
    if !check_rally_point_slot(buildings, form.slot_id) {
        return Err(FormRefusal::InvalidBuilding);
    }
    match parse_troop_set(form.units.as_slice()) {
        Some(t) => {
            if all_zero(&t) {
                Err(FormRefusal::InvalidUnits)
            } else {
                Ok(t)
            }
        },
        None => Err(FormRefusal::InvalidUnits),
    }
}

/// How the confirmation page asks about a movement.
#[derive(Debug, Clone)]
pub enum ConfirmationType {
    Simple,
    ScoutingChoice,
    CatapultTargets { available_buildings: Vec<BuildingName> },
}

/// The buildings offered as catapult targets.
pub open spec fn catapult_choices() -> Seq<BuildingName> {
    seq![
        BuildingName::MainBuilding,
        BuildingName::Warehouse,
        BuildingName::Granary,
        BuildingName::Barracks,
        BuildingName::Stable,
        BuildingName::Workshop,
        BuildingName::Academy,
        BuildingName::Smithy,
        BuildingName::RallyPoint,
        BuildingName::Marketplace,
    ]
}

/// Only scouts are sent.
pub open spec fn only_scouts(units: Seq<u32>, stats: Seq<UnitStats>) -> bool {
    &&& exists|i: int| 0 <= i < units.len() && #[trigger] units[i] > 0
    &&& forall|i: int| 0 <= i < units.len() && #[trigger] units[i] > 0 ==> stats[i].role == UnitRole::Scout
}

/// Catapults are sent.
pub open spec fn with_catapults(units: Seq<u32>, stats: Seq<UnitStats>) -> bool {
    exists|i: int| 0 <= i < units.len() && #[trigger] units[i] > 0 && stats[i].role == UnitRole::Cata
}

/// How the confirmation page treats a movement: reinforcements are simple;
/// scouts alone choose what to scout (attack or raid); a normal attack with
/// catapults chooses their targets.
pub open spec fn spec_confirmation(movement: SendMovementKind, units: Seq<u32>, stats: Seq<UnitStats>) -> (bool, bool) {
    match movement {
        SendMovementKind::Reinforcement => (false, false),
        SendMovementKind::Raid => (only_scouts(units, stats), false),
        SendMovementKind::Attack => if only_scouts(units, stats) {
            (true, false)
        } else {
            (false, with_catapults(units, stats))
        },
    }
}

/// Works out how the confirmation page treats a movement of `units`, given
/// the figures of the tribe's unit types.
pub fn confirmation_type(movement: SendMovementKind, units: &Vec<u32>, stats: &Vec<UnitStats>) -> (r: ConfirmationType)
    requires
        stats@.len() == units@.len(),
    ensures
        match r {
            ConfirmationType::Simple => spec_confirmation(movement, units@, stats@) == (false, false),
            ConfirmationType::ScoutingChoice => spec_confirmation(movement, units@, stats@) == (true, false),
            ConfirmationType::CatapultTargets { available_buildings } => spec_confirmation(movement, units@, stats@)
                == (false, true) && available_buildings@ == catapult_choices(),
        },
{
    if movement == SendMovementKind::Reinforcement {
        return ConfirmationType::Simple;
    }
    let mut any = false;
    let mut all_scouts = true;
    let mut catapults = false;
    let mut i: usize = 0;
    while i < units.len()
        invariant
            i <= units@.len(),
            stats@.len() == units@.len(),
            any == exists|j: int| 0 <= j < i && #[trigger] units@[j] > 0,
            all_scouts == forall|j: int| 0 <= j < i && #[trigger] units@[j] > 0 ==> stats@[j].role == UnitRole::Scout,
            catapults == exists|j: int| 0 <= j < i && #[trigger] units@[j] > 0 && stats@[j].role == UnitRole::Cata,
        decreases units.len() - i,
    {
        if units[i] > 0 {
            any = true;
            if stats[i].role != UnitRole::Scout {
                all_scouts = false;
            }
            if stats[i].role == UnitRole::Cata {
                catapults = true;
            }
        }
        i = i + 1;
    }
    let scouts_only = any && all_scouts;
    if scouts_only {
        return ConfirmationType::ScoutingChoice;
    }
    if movement == SendMovementKind::Attack && catapults {
        let available_buildings = vec![
            BuildingName::MainBuilding,
            BuildingName::Warehouse,
            BuildingName::Granary,
            BuildingName::Barracks,
            BuildingName::Stable,
            BuildingName::Workshop,
            BuildingName::Academy,
            BuildingName::Smithy,
            BuildingName::RallyPoint,
            BuildingName::Marketplace,
        ];
        assert(available_buildings@ =~= catapult_choices());
        return ConfirmationType::CatapultTargets { available_buildings };
    }
    ConfirmationType::Simple
}

pub open spec fn spec_movement_value(m: SendMovementKind) -> Seq<char> {
    match m {
        SendMovementKind::Attack => "attack"@,
        SendMovementKind::Raid => "raid"@,
        SendMovementKind::Reinforcement => "reinforcement"@,
    }
}

/// The value the confirmation form sends back for a movement kind.
pub fn movement_value(m: SendMovementKind) -> (s: String)
    ensures
        s@ == spec_movement_value(m),
{
    match m {
        SendMovementKind::Attack => String::from_str("attack"),
        SendMovementKind::Raid => String::from_str("raid"),
        SendMovementKind::Reinforcement => String::from_str("reinforcement"),
    }
}

/// The command a confirmed movement becomes.
#[derive(Debug, Clone, Copy, PartialEq, Eq, Structural)]
pub enum ConfirmedCommand {
    Scout { attack_type: AttackType, target: ScoutingTarget },
    Attack { attack_type: AttackType, first_target: BuildingName, second_target: BuildingName },
    Reinforce,
}

/// The catapult targets of a confirmation: both named ones (an unknown name
/// falls back to main building, warehouse), or main building and warehouse
/// unless both are given.
pub open spec fn spec_confirm_targets(first: Option<String>, second: Option<String>) -> (BuildingName, BuildingName) {
    match (first, second) {
        (Some(a), Some(b)) => (
            match spec_parse_building_name(a@) {
                Some(n) => n,
                None => BuildingName::MainBuilding,
            },
            match spec_parse_building_name(b@) {
                Some(n) => n,
                None => BuildingName::Warehouse,
            },
        ),
        _ => (BuildingName::MainBuilding, BuildingName::Warehouse),
    }
}

/// A movement scouts when its scouting target is given and not empty;
/// `defenses` scouts defences, anything else resources.
pub open spec fn spec_confirm_command(form: ConfirmSendTroopsForm) -> Result<ConfirmedCommand, FormRefusal> {
    let attack_type = if form.movement == SendMovementKind::Raid {
        AttackType::Raid
    } else {
        AttackType::Normal
    };
    match form.scouting_target {
        Some(t) if t@.len() > 0 => if form.movement == SendMovementKind::Reinforcement {
            Err(FormRefusal::ScoutRequiresAttack)
        } else {
            Ok(
                ConfirmedCommand::Scout {
                    attack_type,
                    target: if t@ == "defenses"@ {
                        ScoutingTarget::Defenses
                    } else {
                        ScoutingTarget::Resources
                    },
                },
            )
        },
        _ => if form.movement == SendMovementKind::Reinforcement {
            Ok(ConfirmedCommand::Reinforce)
        } else {
            let (a, b) = spec_confirm_targets(form.catapult_target_1, form.catapult_target_2);
            Ok(ConfirmedCommand::Attack { attack_type, first_target: a, second_target: b })
        },
    }
}

/// Decides what a confirmed movement does: the units sent and the command,
/// or why it is refused (no army at home, negative amounts, scouting on a
/// reinforcement).
pub fn confirm_send_troops(form: &ConfirmSendTroopsForm, has_home_army: bool) -> (r: Result<
    (Vec<u32>, ConfirmedCommand),
    FormRefusal,
>)
    ensures
        !has_home_army ==> r == Err::<(Vec<u32>, ConfirmedCommand), FormRefusal>(FormRefusal::ArmyMissing),
        has_home_army && has_negative_amount(form.units@) ==> r == Err::<(Vec<u32>, ConfirmedCommand), FormRefusal>(
            FormRefusal::InvalidUnits,
        ),
        has_home_army && !has_negative_amount(form.units@) ==> match spec_confirm_command(*form) {
            Ok(c) => r matches Ok((units, cmd)) && units@ == troop_set_of(form.units@) && cmd == c,
            Err(e) => r == Err::<(Vec<u32>, ConfirmedCommand), FormRefusal>(e),
        },
{
    if !has_home_army {
        return Err(FormRefusal::ArmyMissing);
    }
    let units = match parse_troop_set(form.units.as_slice()) {
        Some(t) => t,
        None => return Err(FormRefusal::InvalidUnits),
    };
    let attack_type = if form.movement == SendMovementKind::Raid {
        AttackType::Raid
    } else {
        AttackType::Normal
    };
    let (first, second) = match (&form.catapult_target_1, &form.catapult_target_2) {
        (Some(a), Some(b)) => (
            match parse_building_name(a.as_str()) {
                Some(n) => n,
                None => BuildingName::MainBuilding,
            },
            match parse_building_name(b.as_str()) {
                Some(n) => n,
                None => BuildingName::Warehouse,
            },
        ),
        _ => (BuildingName::MainBuilding, BuildingName::Warehouse),
    };
    let scouting = match &form.scouting_target {
        Some(t) => t.as_str().unicode_len() > 0,
        None => false,
    };
    if scouting {
        let target_text = match &form.scouting_target {
            Some(t) => t,
            None => return Err(FormRefusal::ScoutRequiresAttack),
        };
        if form.movement == SendMovementKind::Reinforcement {
            return Err(FormRefusal::ScoutRequiresAttack);
        }
        let target = if str_eq(target_text.as_str(), "defenses") {
            ScoutingTarget::Defenses
        } else {
            ScoutingTarget::Resources
        };
        return Ok((units, ConfirmedCommand::Scout { attack_type, target }));
    }
    if form.movement == SendMovementKind::Reinforcement {
        Ok((units, ConfirmedCommand::Reinforce))
    } else {
        Ok((units, ConfirmedCommand::Attack { attack_type, first_target: first, second_target: second }))
    }
}

/// The command of the army page's send form: attacks and raids aim their
/// catapults at main building and warehouse.
pub open spec fn spec_direct_command(movement: SendMovementKind) -> ConfirmedCommand {
    match movement {
        SendMovementKind::Attack => ConfirmedCommand::Attack {
            attack_type: AttackType::Normal,
            first_target: BuildingName::MainBuilding,
            second_target: BuildingName::Warehouse,
        },
        SendMovementKind::Raid => ConfirmedCommand::Attack {
            attack_type: AttackType::Raid,
            first_target: BuildingName::MainBuilding,
            second_target: BuildingName::Warehouse,
        },
        SendMovementKind::Reinforcement => ConfirmedCommand::Reinforce,
    }
}

/// Checks the army page's send form and decides its command: the slot must
/// hold the rally point, the village must have an army at home, and units
/// must be sent (none negative).
pub fn send_troops_direct(buildings: &Vec<VillageBuilding>, form: &SendTroopsForm, has_home_army: bool) -> (r: Result<
    (Vec<u32>, ConfirmedCommand),
    FormRefusal,
>)
    ensures
        !is_rally_point_slot(buildings@, form.slot_id) ==> r == Err::<(Vec<u32>, ConfirmedCommand), FormRefusal>(
            FormRefusal::InvalidBuilding,
        ),
        is_rally_point_slot(buildings@, form.slot_id) && !has_home_army ==> r == Err::<
            (Vec<u32>, ConfirmedCommand),
            FormRefusal,
        >(FormRefusal::ArmyMissing),
        is_rally_point_slot(buildings@, form.slot_id) && has_home_army ==> match spec_check_send_form(
            buildings@,
            form.slot_id,
            form.units@,
        ) {
            Ok(t) => r matches Ok((units, cmd)) && units@ == t && cmd == spec_direct_command(form.movement),
            Err(e) => r == Err::<(Vec<u32>, ConfirmedCommand), FormRefusal>(e),
        },
{
    if !check_rally_point_slot(buildings, form.slot_id) {
        return Err(FormRefusal::InvalidBuilding);
    }
    if !has_home_army {
        return Err(FormRefusal::ArmyMissing);
    }
    let units = check_send_troops_form(buildings, form)?;
    let command = match form.movement {
        SendMovementKind::Attack => ConfirmedCommand::Attack {
            attack_type: AttackType::Normal,
            first_target: BuildingName::MainBuilding,
            second_target: BuildingName::Warehouse,
        },
        SendMovementKind::Raid => ConfirmedCommand::Attack {
            attack_type: AttackType::Raid,
            first_target: BuildingName::MainBuilding,
            second_target: BuildingName::Warehouse,
        },
        SendMovementKind::Reinforcement => ConfirmedCommand::Reinforce,
    };
    Ok((units, command))
}

/// Checks the training form: a positive quantity, then the named building in
/// a valid slot.
pub fn check_train_units_form(buildings: &Vec<VillageBuilding>, form: &TrainUnitsForm) -> (r: Result<(), FormRefusal>)
    ensures
        form.quantity <= 0 ==> r == Err::<(), FormRefusal>(FormRefusal::InvalidTrainingQuantity),
        form.quantity > 0 ==> (r is Ok <==> (1 <= form.slot_id <= MAX_SLOT_ID && (spec_building_in_slot(
            buildings@,
            form.slot_id,
        ) matches Some(b) && b.name == form.building_name))),
        form.quantity > 0 && r is Err ==> r == Err::<(), FormRefusal>(FormRefusal::InvalidTrainingBuilding),
{
    if form.quantity <= 0 {
        return Err(FormRefusal::InvalidTrainingQuantity);
    }
    if !(1 <= form.slot_id && form.slot_id <= MAX_SLOT_ID) {
        return Err(FormRefusal::InvalidTrainingBuilding);
    }
    match building_in_slot(buildings, form.slot_id) {
        Some(b) => if b.name == form.building_name {
            Ok(())
        } else {
            Err(FormRefusal::InvalidTrainingBuilding)
        },
        None => Err(FormRefusal::InvalidTrainingBuilding),
    }
}

/// What the building form asks for once checked.
#[derive(Debug, Clone, Copy, PartialEq, Eq, Structural)]
pub enum BuildCommand {
    Add(BuildingName),
    Upgrade,
}

/// Why the building form is refused: a slot out of range sends the player
/// back to the village; otherwise a message is shown.
#[derive(Debug, Clone, Copy, PartialEq, Eq, Structural)]
pub enum BuildRefusal {
    BackToVillage,
    SlotMismatch,
    MissingBuildingName,
}

pub open spec fn spec_build_refusal_message(r: BuildRefusal) -> Seq<char> {
    match r {
        BuildRefusal::BackToVillage => Seq::empty(),
        BuildRefusal::SlotMismatch => "Slot mismatch, please retry."@,
        BuildRefusal::MissingBuildingName => "Missing building name."@,
    }
}

/// The message shown for a refused building form (none when the player is
/// sent back to the village).
pub fn build_refusal_message(r: BuildRefusal) -> (s: String)
    ensures
        s@ == spec_build_refusal_message(r),
{
    match r {
        BuildRefusal::BackToVillage => String::new(),
        BuildRefusal::SlotMismatch => String::from_str("Slot mismatch, please retry."),
        BuildRefusal::MissingBuildingName => String::from_str("Missing building name."),
    }
}

/// Checks the building form posted for slot `slot_id`.
pub fn check_build_form(slot_id: u8, form: &BuildActionForm) -> (r: Result<BuildCommand, BuildRefusal>)
    ensures
        !(1 <= slot_id <= MAX_SLOT_ID) ==> r == Err::<BuildCommand, BuildRefusal>(BuildRefusal::BackToVillage),
        1 <= slot_id <= MAX_SLOT_ID && slot_id != form.slot_id ==> r == Err::<BuildCommand, BuildRefusal>(
            BuildRefusal::SlotMismatch,
        ),
        1 <= slot_id <= MAX_SLOT_ID && slot_id == form.slot_id ==> match form.action {
            BuildAction::Upgrade => r == Ok::<BuildCommand, BuildRefusal>(BuildCommand::Upgrade),
            BuildAction::Build => match form.building_name {
                Some(n) => r == Ok::<BuildCommand, BuildRefusal>(BuildCommand::Add(n)),
                None => r == Err::<BuildCommand, BuildRefusal>(BuildRefusal::MissingBuildingName),
            },
        },
{
    if !(1 <= slot_id && slot_id <= MAX_SLOT_ID) {
        return Err(BuildRefusal::BackToVillage);
    }
    if slot_id != form.slot_id {
        return Err(BuildRefusal::SlotMismatch);
    }
    match form.action {
        BuildAction::Build => match form.building_name {
            Some(n) => Ok(BuildCommand::Add(n)),
            None => Err(BuildRefusal::MissingBuildingName),
        },
        BuildAction::Upgrade => Ok(BuildCommand::Upgrade),
    }
}

/// Why founding a village is refused.
#[derive(Debug, Clone, Copy, PartialEq, Eq, Structural)]
pub enum FoundingRefusal {
    Oasis,
    Occupied,
    NotReady,
    NoArmy,
}

pub open spec fn spec_founding_message(r: FoundingRefusal) -> Seq<char> {
    match r {
        FoundingRefusal::Oasis => "Cannot found village on an oasis"@,
        FoundingRefusal::Occupied => "This valley already has a village"@,
        FoundingRefusal::NotReady => "Insufficient culture points or settlers"@,
        FoundingRefusal::NoArmy => "No army found"@,
    }
}

/// The message shown for a refused founding.
pub fn founding_message(r: FoundingRefusal) -> (s: String)
    ensures
        s@ == spec_founding_message(r),
{
    match r {
        FoundingRefusal::Oasis => String::from_str("Cannot found village on an oasis"),
        FoundingRefusal::Occupied => String::from_str("This valley already has a village"),
        FoundingRefusal::NotReady => String::from_str("Insufficient culture points or settlers"),
        FoundingRefusal::NoArmy => String::from_str("No army found"),
    }
}

/// Settlers a founding takes.
pub const FOUNDING_SETTLERS: u32 = 3;

/// A village can be founded: enough culture points for one more village and
/// three settlers at home (none without an army at home).
pub open spec fn spec_can_found(culture_points: u32, required_cp: u32, settlers_at_home: Option<u32>) -> bool {
    culture_points >= required_cp && (settlers_at_home matches Some(n) && n >= FOUNDING_SETTLERS)
}

/// Founding takes both the culture points and three settlers at home: with
/// fewer than three settlers, or no army at home, it is refused whatever the
/// culture points; with too few culture points it is refused whatever the
/// settlers; and when it is allowed, the settlers at home cover the settlers
/// a founding sends.
pub proof fn lemma_founding_needs_three_settlers(culture_points: u32, required_cp: u32, settlers_at_home: Option<u32>)
    ensures
        settlers_at_home matches Some(n) && n < 3 ==> !spec_can_found(culture_points, required_cp, settlers_at_home),
        settlers_at_home is None ==> !spec_can_found(culture_points, required_cp, settlers_at_home),
        culture_points < required_cp ==> !spec_can_found(culture_points, required_cp, settlers_at_home),
        spec_can_found(culture_points, required_cp, settlers_at_home) <==> (culture_points >= required_cp
            && (settlers_at_home matches Some(n) && n >= 3)),
        spec_can_found(culture_points, required_cp, settlers_at_home) ==> (settlers_at_home matches Some(n)
            && n >= FOUNDING_SETTLERS),
{
}

/// More culture points or more settlers never turn an allowed founding into
/// a refused one.
pub proof fn lemma_founding_monotone(cp: u32, more_cp: u32, required_cp: u32, settlers: u32, more_settlers: u32)
    requires
        cp <= more_cp,
        settlers <= more_settlers,
    ensures
        spec_can_found(cp, required_cp, Some(settlers)) ==> spec_can_found(more_cp, required_cp, Some(more_settlers)),
{
}

/// Whether the player can found a village now.
pub fn can_found_village(culture_points: u32, required_cp: u32, settlers_at_home: Option<u32>) -> (r: bool)
    ensures
        r == spec_can_found(culture_points, required_cp, settlers_at_home),
{
    culture_points >= required_cp && match settlers_at_home {
        Some(n) => n >= FOUNDING_SETTLERS,
        None => false,
    }
}

/// Checks a founding request on `field`: a valley, without a village, and a
/// player ready to found.
pub fn check_found_village(field: &MapField, culture_points: u32, required_cp: u32, settlers_at_home: Option<u32>) -> (r:
    Result<(), FoundingRefusal>)
    ensures
        field.topology is Oasis ==> r == Err::<(), FoundingRefusal>(FoundingRefusal::Oasis),
        field.topology is Valley && field.village_id is Some ==> r == Err::<(), FoundingRefusal>(
            FoundingRefusal::Occupied,
        ),
        field.topology is Valley && field.village_id is None ==> (r is Ok <==> spec_can_found(
            culture_points,
            required_cp,
            settlers_at_home,
        )),
        field.topology is Valley && field.village_id is None && r is Err ==> r == Err::<(), FoundingRefusal>(
            FoundingRefusal::NotReady,
        ),
{
    match field.topology {
        MapFieldTopology::Oasis(_) => return Err(FoundingRefusal::Oasis),
        MapFieldTopology::Valley(_) => {},
    }
    if field.village_id.is_some() {
        return Err(FoundingRefusal::Occupied);
    }
    if !can_found_village(culture_points, required_cp, settlers_at_home) {
        return Err(FoundingRefusal::NotReady);
    }
    Ok(())
}

/// The settlers shown on the founding confirmation: three of the tribe's
/// settler slot.
pub fn founding_settlers(settler_idx: usize) -> (r: Vec<u32>)
    requires
        settler_idx < TROOP_SLOTS,
    ensures
        r@.len() == TROOP_SLOTS,
        forall|i: int| 0 <= i < TROOP_SLOTS ==> #[trigger] r@[i] == if i == settler_idx {
            FOUNDING_SETTLERS
        } else {
            0
        },
{
    let mut r: Vec<u32> = Vec::new();
    let mut i: usize = 0;
    while i < TROOP_SLOTS
        invariant
            i <= TROOP_SLOTS,
            settler_idx < TROOP_SLOTS,
            r@.len() == i,
            forall|j: int| 0 <= j < i ==> #[trigger] r@[j] == if j == settler_idx {
                FOUNDING_SETTLERS
            } else {
                0
            },
        decreases TROOP_SLOTS - i,
    {
        r.push(
            if i == settler_idx {
                FOUNDING_SETTLERS
            } else {
                0
            },
        );
        i = i + 1;
    }
    r
}

/// Units sent by the founding form, or the refusal when no army is at home.
pub fn found_village_units(values: &[i32], has_home_army: bool) -> (r: Result<Vec<u32>, FoundingRefusal>)
    ensures
        !has_home_army ==> r == Err::<Vec<u32>, FoundingRefusal>(FoundingRefusal::NoArmy),
        has_home_army ==> (r matches Ok(t) && t@ == lenient_troop_set(values@)),
{
    if !has_home_army {
        return Err(FoundingRefusal::NoArmy);
    }
    Ok(parse_troop_set_lenient(values))
}

} // verus!
