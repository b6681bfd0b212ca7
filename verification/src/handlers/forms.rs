//! The HTML forms of the game pages and how their submitted fields are put
//! together: a field given twice, missing, unknown to the form, or with a
//! value that does not read is refused, at the first offending field.

use vstd::prelude::*;

use crate::handlers::session::{parse_i32, parse_u32, parse_u8, spec_parse_i32, spec_parse_u32, spec_parse_u8};
use crate::model::BuildingName;
use crate::text::str_eq;

verus! {

/// Forms that carry the anti-forgery token of the page they came from.
pub trait HasCsrfToken {
    fn csrf_token(&self) -> &str;
}

/// Query of the building page: the slot, when given.
#[derive(Debug, Clone, Copy, Default)]
pub struct BuildParams {
    pub slot_id: Option<u8>,
}

/// What the building form asks for.
#[derive(Debug, Clone, Copy, PartialEq, Eq, Structural)]
pub enum BuildAction {
    Build,
    Upgrade,
}

/// The build or upgrade form of a slot.
#[derive(Debug, Clone)]
pub struct BuildActionForm {
    pub slot_id: u8,
    pub action: BuildAction,
    pub building_name: Option<BuildingName>,
    pub csrf_token: String,
}

/// The training form of a training building.
#[derive(Debug, Clone)]
pub struct TrainUnitsForm {
    pub slot_id: u8,
    pub unit_idx: u8,
    pub quantity: i32,
    pub building_name: BuildingName,
    pub csrf_token: String,
}

/// The marketplace form sending resources.
#[derive(Debug, Clone)]
pub struct SendResourcesForm {
    pub slot_id: u8,
    pub target_x: i32,
    pub target_y: i32,
    pub lumber: u32,
    pub clay: u32,
    pub iron: u32,
    pub crop: u32,
    pub csrf_token: String,
}

/// The marketplace form creating an offer.
#[derive(Debug, Clone)]
pub struct CreateOfferForm {
    pub slot_id: u8,
    pub offer_lumber: u32,
    pub offer_clay: u32,
    pub offer_iron: u32,
    pub offer_crop: u32,
    pub seek_lumber: u32,
    pub seek_clay: u32,
    pub seek_iron: u32,
    pub seek_crop: u32,
    pub csrf_token: String,
}

/// The marketplace form accepting or cancelling an offer.
#[derive(Debug, Clone)]
pub struct OfferActionForm {
    pub slot_id: u8,
    pub csrf_token: String,
}

/// The rally point form recalling troops.
#[derive(Debug, Clone)]
pub struct RecallForm {
    pub movement_id: String,
    pub csrf_token: String,
}

/// The rally point form releasing reinforcements.
#[derive(Debug, Clone)]
pub struct ReleaseForm {
    pub source_village_id: u32,
    pub csrf_token: String,
}

impl HasCsrfToken for BuildActionForm {
    fn csrf_token(&self) -> (t: &str)
        ensures
            t@ == self.csrf_token@,
    {
        self.csrf_token.as_str()
    }
}

impl HasCsrfToken for TrainUnitsForm {
    fn csrf_token(&self) -> (t: &str)
        ensures
            t@ == self.csrf_token@,
    {
        self.csrf_token.as_str()
    }
}

impl HasCsrfToken for SendResourcesForm {
    fn csrf_token(&self) -> (t: &str)
        ensures
            t@ == self.csrf_token@,
    {
        self.csrf_token.as_str()
    }
}

impl HasCsrfToken for CreateOfferForm {
    fn csrf_token(&self) -> (t: &str)
        ensures
            t@ == self.csrf_token@,
    {
        self.csrf_token.as_str()
    }
}

impl HasCsrfToken for OfferActionForm {
    fn csrf_token(&self) -> (t: &str)
        ensures
            t@ == self.csrf_token@,
    {
        self.csrf_token.as_str()
    }
}

impl HasCsrfToken for RecallForm {
    fn csrf_token(&self) -> (t: &str)
        ensures
            t@ == self.csrf_token@,
    {
        self.csrf_token.as_str()
    }
}

impl HasCsrfToken for ReleaseForm {
    fn csrf_token(&self) -> (t: &str)
        ensures
            t@ == self.csrf_token@,
    {
        self.csrf_token.as_str()
    }
}

/// Kind of troop movement asked for by the rally point forms.
#[derive(Debug, Clone, Copy, PartialEq, Eq, Structural)]
pub enum SendMovementKind {
    Attack,
    Raid,
    Reinforcement,
}

/// The field names the game's forms use.
#[derive(Debug, Clone, Copy, PartialEq, Eq, Structural)]
pub enum FormKey {
    VillageId,
    SlotId,
    FieldId,
    TargetFieldId,
    TargetX,
    TargetY,
    Movement,
    Units,
    ScoutingTarget,
    CatapultTarget1,
    CatapultTarget2,
    CsrfToken,
}

pub open spec fn spec_form_key_name(key: FormKey) -> Seq<char> {
    match key {
        FormKey::VillageId => "village_id"@,
        FormKey::SlotId => "slot_id"@,
        FormKey::FieldId => "field_id"@,
        FormKey::TargetFieldId => "target_field_id"@,
        FormKey::TargetX => "target_x"@,
        FormKey::TargetY => "target_y"@,
        FormKey::Movement => "movement"@,
        FormKey::Units => "units[]"@,
        FormKey::ScoutingTarget => "scouting_target"@,
        FormKey::CatapultTarget1 => "catapult_target_1"@,
        FormKey::CatapultTarget2 => "catapult_target_2"@,
        FormKey::CsrfToken => "csrf_token"@,
    }
}

/// The name under which a field is submitted.
pub fn form_key_name(key: FormKey) -> (s: String)
    ensures
        s@ == spec_form_key_name(key),
{
    match key {
        FormKey::VillageId => String::from_str("village_id"),
        FormKey::SlotId => String::from_str("slot_id"),
        FormKey::FieldId => String::from_str("field_id"),
        FormKey::TargetFieldId => String::from_str("target_field_id"),
        FormKey::TargetX => String::from_str("target_x"),
        FormKey::TargetY => String::from_str("target_y"),
        FormKey::Movement => String::from_str("movement"),
        FormKey::Units => String::from_str("units[]"),
        FormKey::ScoutingTarget => String::from_str("scouting_target"),
        FormKey::CatapultTarget1 => String::from_str("catapult_target_1"),
        FormKey::CatapultTarget2 => String::from_str("catapult_target_2"),
        FormKey::CsrfToken => String::from_str("csrf_token"),
    }
}

/// A submitted field with its value read; `None` when the value does not read.
#[derive(Debug, Clone)]
pub enum FormEntry {
    VillageId(Option<u32>),
    SlotId(Option<u8>),
    FieldId(Option<u32>),
    TargetFieldId(Option<u32>),
    TargetX(Option<i32>),
    TargetY(Option<i32>),
    Movement(Option<SendMovementKind>),
    Unit(Option<i32>),
    ScoutingTarget(Option<String>),
    CatapultTarget1(Option<String>),
    CatapultTarget2(Option<String>),
    CsrfToken(Option<String>),
}

/// The field that a submitted name belongs to; none for an unknown name.
pub open spec fn spec_form_key_of(name: Seq<char>) -> Option<FormKey> {
    if name == "village_id"@ {
        Some(FormKey::VillageId)
    } else if name == "slot_id"@ {
        Some(FormKey::SlotId)
    } else if name == "field_id"@ {
        Some(FormKey::FieldId)
    } else if name == "target_field_id"@ {
        Some(FormKey::TargetFieldId)
    } else if name == "target_x"@ {
        Some(FormKey::TargetX)
    } else if name == "target_y"@ {
        Some(FormKey::TargetY)
    } else if name == "movement"@ {
        Some(FormKey::Movement)
    } else if name == "units[]"@ {
        Some(FormKey::Units)
    } else if name == "scouting_target"@ {
        Some(FormKey::ScoutingTarget)
    } else if name == "catapult_target_1"@ {
        Some(FormKey::CatapultTarget1)
    } else if name == "catapult_target_2"@ {
        Some(FormKey::CatapultTarget2)
    } else if name == "csrf_token"@ {
        Some(FormKey::CsrfToken)
    } else {
        None
    }
}

/// The movement a form names: `attack`, `raid` or `reinforcement`.
pub open spec fn spec_movement_of(value: Seq<char>) -> Option<SendMovementKind> {
    if value == "attack"@ {
        Some(SendMovementKind::Attack)
    } else if value == "raid"@ {
        Some(SendMovementKind::Raid)
    } else if value == "reinforcement"@ {
        Some(SendMovementKind::Reinforcement)
    } else {
        None
    }
}

/// Reads the movement a form names.
pub fn movement_of(value: &str) -> (r: Option<SendMovementKind>)
    ensures
        r == spec_movement_of(value@),
{
    if str_eq(value, "attack") {
        Some(SendMovementKind::Attack)
    } else if str_eq(value, "raid") {
        Some(SendMovementKind::Raid)
    } else if str_eq(value, "reinforcement") {
        Some(SendMovementKind::Reinforcement)
    } else {
        None
    }
}

/// `e` is field `key` with `value` read as that field's type (numbers in
/// decimal, the movement by name, the others as text).
pub open spec fn reads_entry(key: FormKey, value: Seq<char>, e: FormEntry) -> bool {
    match key {
        FormKey::VillageId => e == FormEntry::VillageId(spec_parse_u32(value)),
        FormKey::SlotId => e == FormEntry::SlotId(spec_parse_u8(value)),
        FormKey::FieldId => e == FormEntry::FieldId(spec_parse_u32(value)),
        FormKey::TargetFieldId => e == FormEntry::TargetFieldId(spec_parse_u32(value)),
        FormKey::TargetX => e == FormEntry::TargetX(spec_parse_i32(value)),
        FormKey::TargetY => e == FormEntry::TargetY(spec_parse_i32(value)),
        FormKey::Movement => e == FormEntry::Movement(spec_movement_of(value)),
        FormKey::Units => e == FormEntry::Unit(spec_parse_i32(value)),
        FormKey::ScoutingTarget => e matches FormEntry::ScoutingTarget(Some(t)) && t@ == value,
        FormKey::CatapultTarget1 => e matches FormEntry::CatapultTarget1(Some(t)) && t@ == value,
        FormKey::CatapultTarget2 => e matches FormEntry::CatapultTarget2(Some(t)) && t@ == value,
        FormKey::CsrfToken => e matches FormEntry::CsrfToken(Some(t)) && t@ == value,
    }
}

/// Reads one submitted field: its name picks the field, its value is read as
/// that field's type; an unknown name gives none.
pub fn form_entry(key: &str, value: String) -> (r: Option<FormEntry>)
    ensures
        spec_form_key_of(key@) is None ==> r is None,
        spec_form_key_of(key@) matches Some(k) ==> (r matches Some(e) && reads_entry(k, value@, e)),
{
    if str_eq(key, "village_id") {
        Some(FormEntry::VillageId(parse_u32(value.as_str())))
    } else if str_eq(key, "slot_id") {
        Some(FormEntry::SlotId(parse_u8(value.as_str())))
    } else if str_eq(key, "field_id") {
        Some(FormEntry::FieldId(parse_u32(value.as_str())))
    } else if str_eq(key, "target_field_id") {
        Some(FormEntry::TargetFieldId(parse_u32(value.as_str())))
    } else if str_eq(key, "target_x") {
        Some(FormEntry::TargetX(parse_i32(value.as_str())))
    } else if str_eq(key, "target_y") {
        Some(FormEntry::TargetY(parse_i32(value.as_str())))
    } else if str_eq(key, "movement") {
        Some(FormEntry::Movement(movement_of(value.as_str())))
    } else if str_eq(key, "units[]") {
        Some(FormEntry::Unit(parse_i32(value.as_str())))
    } else if str_eq(key, "scouting_target") {
        Some(FormEntry::ScoutingTarget(Some(value)))
    } else if str_eq(key, "catapult_target_1") {
        Some(FormEntry::CatapultTarget1(Some(value)))
    } else if str_eq(key, "catapult_target_2") {
        Some(FormEntry::CatapultTarget2(Some(value)))
    } else if str_eq(key, "csrf_token") {
        Some(FormEntry::CsrfToken(Some(value)))
    } else {
        None
    }
}

pub open spec fn entry_key(e: FormEntry) -> FormKey {
    match e {
        FormEntry::VillageId(_) => FormKey::VillageId,
        FormEntry::SlotId(_) => FormKey::SlotId,
        FormEntry::FieldId(_) => FormKey::FieldId,
        FormEntry::TargetFieldId(_) => FormKey::TargetFieldId,
        FormEntry::TargetX(_) => FormKey::TargetX,
        FormEntry::TargetY(_) => FormKey::TargetY,
        FormEntry::Movement(_) => FormKey::Movement,
        FormEntry::Unit(_) => FormKey::Units,
        FormEntry::ScoutingTarget(_) => FormKey::ScoutingTarget,
        FormEntry::CatapultTarget1(_) => FormKey::CatapultTarget1,
        FormEntry::CatapultTarget2(_) => FormKey::CatapultTarget2,
        FormEntry::CsrfToken(_) => FormKey::CsrfToken,
    }
}

/// Why a form was refused.
#[derive(Debug, Clone, Copy, PartialEq, Eq, Structural)]
pub enum FormError {
    Duplicate(FormKey),
    Missing(FormKey),
    Unknown(FormKey),
    InvalidValue(FormKey),
}

/// The fields of the troop forms read so far.
#[derive(Debug, Clone)]
pub struct TroopFormDraft {
    pub village_id: Option<u32>,
    pub slot_id: Option<u8>,
    pub field_id: Option<u32>,
    pub target_field_id: Option<u32>,
    pub target_x: Option<i32>,
    pub target_y: Option<i32>,
    pub movement: Option<SendMovementKind>,
    pub units: Vec<i32>,
    pub scouting_target: Option<String>,
    pub catapult_target_1: Option<String>,
    pub catapult_target_2: Option<String>,
    pub csrf_token: Option<String>,
}

/// The troop forms: which fields each takes.
#[derive(Debug, Clone, Copy, PartialEq, Eq, Structural)]
pub enum TroopFormKind {
    /// Rally point send form: slot, target, movement, units.
    Send,
    /// Rally point confirmation form: village, slot, target, movement, units,
    /// scouting and catapult targets.
    Confirm,
    /// Founding confirmation form: field and target.
    FoundConfirm,
    /// Founding form: village, target field and position, units.
    FoundExecute,
}

/// Whether form `kind` takes field `key`.
pub open spec fn accepts(kind: TroopFormKind, key: FormKey) -> bool {
    match kind {
        TroopFormKind::Send => key == FormKey::SlotId || key == FormKey::TargetX || key == FormKey::TargetY || key
            == FormKey::Movement || key == FormKey::Units || key == FormKey::CsrfToken,
        TroopFormKind::Confirm => key == FormKey::VillageId || key == FormKey::SlotId || key == FormKey::TargetX
            || key == FormKey::TargetY || key == FormKey::Movement || key == FormKey::Units || key
            == FormKey::ScoutingTarget || key == FormKey::CatapultTarget1 || key == FormKey::CatapultTarget2 || key
            == FormKey::CsrfToken,
        TroopFormKind::FoundConfirm => key == FormKey::FieldId || key == FormKey::TargetX || key == FormKey::TargetY
            || key == FormKey::CsrfToken,
        TroopFormKind::FoundExecute => key == FormKey::VillageId || key == FormKey::TargetFieldId || key
            == FormKey::TargetX || key == FormKey::TargetY || key == FormKey::Units || key == FormKey::CsrfToken,
    }
}

pub open spec fn empty_draft() -> TroopFormDraft {
    TroopFormDraft {
        village_id: None,
        slot_id: None,
        field_id: None,
        target_field_id: None,
        target_x: None,
        target_y: None,
        movement: None,
        units: vstd::pervasive::arbitrary(),
        scouting_target: None,
        catapult_target_1: None,
        catapult_target_2: None,
        csrf_token: None,
    }
}

/// Sets a field that may be given once.
pub open spec fn set_once<T>(current: Option<T>, value: Option<T>, key: FormKey) -> Result<Option<T>, FormError> {
    if current is Some {
        Err(FormError::Duplicate(key))
    } else {
        match value {
            Some(v) => Ok(Some(v)),
            None => Err(FormError::InvalidValue(key)),
        }
    }
}

/// Reads one field into the draft: unknown fields are refused; the scouting
/// and catapult targets keep their last value; units add up in order; every
/// other field may be given once.
pub open spec fn draft_step(kind: TroopFormKind, d: TroopFormDraft, units: Seq<i32>, e: FormEntry) -> Result<
    (TroopFormDraft, Seq<i32>),
    FormError,
> {
    if !accepts(kind, entry_key(e)) {
        Err(FormError::Unknown(entry_key(e)))
    } else {
        match e {
            FormEntry::VillageId(v) => match set_once(d.village_id, v, FormKey::VillageId) {
                Ok(x) => Ok((TroopFormDraft { village_id: x, ..d }, units)),
                Err(err) => Err(err),
            },
            FormEntry::SlotId(v) => match set_once(d.slot_id, v, FormKey::SlotId) {
                Ok(x) => Ok((TroopFormDraft { slot_id: x, ..d }, units)),
                Err(err) => Err(err),
            },
            FormEntry::FieldId(v) => match set_once(d.field_id, v, FormKey::FieldId) {
                Ok(x) => Ok((TroopFormDraft { field_id: x, ..d }, units)),
                Err(err) => Err(err),
            },
            FormEntry::TargetFieldId(v) => match set_once(d.target_field_id, v, FormKey::TargetFieldId) {
                Ok(x) => Ok((TroopFormDraft { target_field_id: x, ..d }, units)),
                Err(err) => Err(err),
            },
            FormEntry::TargetX(v) => match set_once(d.target_x, v, FormKey::TargetX) {
                Ok(x) => Ok((TroopFormDraft { target_x: x, ..d }, units)),
                Err(err) => Err(err),
            },
            FormEntry::TargetY(v) => match set_once(d.target_y, v, FormKey::TargetY) {
                Ok(x) => Ok((TroopFormDraft { target_y: x, ..d }, units)),
                Err(err) => Err(err),
            },
            FormEntry::Movement(v) => match set_once(d.movement, v, FormKey::Movement) {
                Ok(x) => Ok((TroopFormDraft { movement: x, ..d }, units)),
                Err(err) => Err(err),
            },
            FormEntry::Unit(v) => match v {
                Some(n) => Ok((d, units.push(n))),
                None => Err(FormError::InvalidValue(FormKey::Units)),
            },
            FormEntry::ScoutingTarget(v) => match v {
                Some(s) => Ok((TroopFormDraft { scouting_target: Some(s), ..d }, units)),
                None => Err(FormError::InvalidValue(FormKey::ScoutingTarget)),
            },
            FormEntry::CatapultTarget1(v) => match v {
                Some(s) => Ok((TroopFormDraft { catapult_target_1: Some(s), ..d }, units)),
                None => Err(FormError::InvalidValue(FormKey::CatapultTarget1)),
            },
            FormEntry::CatapultTarget2(v) => match v {
                Some(s) => Ok((TroopFormDraft { catapult_target_2: Some(s), ..d }, units)),
                None => Err(FormError::InvalidValue(FormKey::CatapultTarget2)),
            },
            FormEntry::CsrfToken(v) => match set_once(d.csrf_token, v, FormKey::CsrfToken) {
                Ok(x) => Ok((TroopFormDraft { csrf_token: x, ..d }, units)),
                Err(err) => Err(err),
            },
        }
    }
}

/// The draft after the first `n` fields, with the units read, or the first refusal.
pub open spec fn draft_after(kind: TroopFormKind, entries: Seq<FormEntry>, n: nat) -> Result<
    (TroopFormDraft, Seq<i32>),
    FormError,
>
    decreases n,
{
    if n == 0 {
        Ok((empty_draft(), Seq::empty()))
    } else {
        match draft_after(kind, entries, (n - 1) as nat) {
            Ok((d, units)) => draft_step(kind, d, units, entries[n - 1]),
            Err(err) => Err(err),
        }
    }
}

fn take_once<T>(current: &mut Option<T>, value: Option<T>, key: FormKey) -> (r: Result<(), FormError>)
    ensures
        match set_once(*old(current), value, key) {
            Ok(x) => r is Ok && *final(current) == x,
            Err(err) => r == Err::<(), FormError>(err),
        },
{
    if current.is_some() {
        return Err(FormError::Duplicate(key));
    }
    match value {
        Some(v) => {
            *current = Some(v);
            Ok(())
        },
        None => Err(FormError::InvalidValue(key)),
    }
}

fn is_accepted(kind: TroopFormKind, key: FormKey) -> (r: bool)
    ensures
        r == accepts(kind, key),
{
    match kind {
        TroopFormKind::Send => key == FormKey::SlotId || key == FormKey::TargetX || key == FormKey::TargetY || key
            == FormKey::Movement || key == FormKey::Units || key == FormKey::CsrfToken,
        TroopFormKind::Confirm => key == FormKey::VillageId || key == FormKey::SlotId || key == FormKey::TargetX
            || key == FormKey::TargetY || key == FormKey::Movement || key == FormKey::Units || key
            == FormKey::ScoutingTarget || key == FormKey::CatapultTarget1 || key == FormKey::CatapultTarget2 || key
            == FormKey::CsrfToken,
        TroopFormKind::FoundConfirm => key == FormKey::FieldId || key == FormKey::TargetX || key == FormKey::TargetY
            || key == FormKey::CsrfToken,
        TroopFormKind::FoundExecute => key == FormKey::VillageId || key == FormKey::TargetFieldId || key
            == FormKey::TargetX || key == FormKey::TargetY || key == FormKey::Units || key == FormKey::CsrfToken,
    }
}

fn key_of(e: &FormEntry) -> (k: FormKey)
    ensures
        k == entry_key(*e),
{
    match e {
        FormEntry::VillageId(_) => FormKey::VillageId,
        FormEntry::SlotId(_) => FormKey::SlotId,
        FormEntry::FieldId(_) => FormKey::FieldId,
        FormEntry::TargetFieldId(_) => FormKey::TargetFieldId,
        FormEntry::TargetX(_) => FormKey::TargetX,
        FormEntry::TargetY(_) => FormKey::TargetY,
        FormEntry::Movement(_) => FormKey::Movement,
        FormEntry::Unit(_) => FormKey::Units,
        FormEntry::ScoutingTarget(_) => FormKey::ScoutingTarget,
        FormEntry::CatapultTarget1(_) => FormKey::CatapultTarget1,
        FormEntry::CatapultTarget2(_) => FormKey::CatapultTarget2,
        FormEntry::CsrfToken(_) => FormKey::CsrfToken,
    }
}

/// Reads the submitted fields of a troop form in order.
pub fn read_troop_form(kind: TroopFormKind, entries: Vec<FormEntry>) -> (r: Result<TroopFormDraft, FormError>)
    ensures
        match draft_after(kind, entries@, entries@.len()) {
            Ok((d, units)) => r matches Ok(x) && x.units@ == units && x == (TroopFormDraft { units: x.units, ..d }),
            Err(err) => r == Err::<TroopFormDraft, FormError>(err),
        },
{
    let mut d = TroopFormDraft {
        village_id: None,
        slot_id: None,
        field_id: None,
        target_field_id: None,
        target_x: None,
        target_y: None,
        movement: None,
        units: Vec::new(),
        scouting_target: None,
        catapult_target_1: None,
        catapult_target_2: None,
        csrf_token: None,
    };
    let ghost all = entries@;
    let total: usize = entries.len();
    let mut n: usize = 0;
    for e in it: entries
        invariant
            it.seq() == all,
            n == it.index(),
            n <= all.len(),
            all.len() == total,
            draft_after(kind, all, n as nat) matches Ok((dd, units)) && d.units@ == units && d == (TroopFormDraft {
                units: d.units,
                ..dd
            }),
    {
        assert(all[n as int] == e);
        let key = key_of(&e);
        if !is_accepted(kind, key) {
            proof {
                assert(draft_after(kind, all, (n + 1) as nat) == Err::<(TroopFormDraft, Seq<i32>), FormError>(
                    FormError::Unknown(key),
                ));
                lemma_draft_error_sticks(kind, all, (n + 1) as nat, all.len());
            }
            return Err(FormError::Unknown(key));
        }
        let step: Result<(), FormError> = match e {
            FormEntry::VillageId(v) => take_once(&mut d.village_id, v, FormKey::VillageId),
            FormEntry::SlotId(v) => take_once(&mut d.slot_id, v, FormKey::SlotId),
            FormEntry::FieldId(v) => take_once(&mut d.field_id, v, FormKey::FieldId),
            FormEntry::TargetFieldId(v) => take_once(&mut d.target_field_id, v, FormKey::TargetFieldId),
            FormEntry::TargetX(v) => take_once(&mut d.target_x, v, FormKey::TargetX),
            FormEntry::TargetY(v) => take_once(&mut d.target_y, v, FormKey::TargetY),
            FormEntry::Movement(v) => take_once(&mut d.movement, v, FormKey::Movement),
            FormEntry::Unit(v) => match v {
                Some(x) => {
                    d.units.push(x);
                    Ok(())
                },
                None => Err(FormError::InvalidValue(FormKey::Units)),
            },
            FormEntry::ScoutingTarget(v) => match v {
                Some(s) => {
                    d.scouting_target = Some(s);
                    Ok(())
                },
                None => Err(FormError::InvalidValue(FormKey::ScoutingTarget)),
            },
            FormEntry::CatapultTarget1(v) => match v {
                Some(s) => {
                    d.catapult_target_1 = Some(s);
                    Ok(())
                },
                None => Err(FormError::InvalidValue(FormKey::CatapultTarget1)),
            },
            FormEntry::CatapultTarget2(v) => match v {
                Some(s) => {
                    d.catapult_target_2 = Some(s);
                    Ok(())
                },
                None => Err(FormError::InvalidValue(FormKey::CatapultTarget2)),
            },
            FormEntry::CsrfToken(v) => take_once(&mut d.csrf_token, v, FormKey::CsrfToken),
        };
        match step {
            Ok(()) => {},
            Err(err) => {
                proof {
                    lemma_draft_error_sticks(kind, all, (n + 1) as nat, all.len());
                }
                return Err(err);
            },
        }
        n = n + 1;
    }
    Ok(d)
}

/// Once a field is refused, the form stays refused with that error.
pub proof fn lemma_draft_error_sticks(kind: TroopFormKind, entries: Seq<FormEntry>, i: nat, n: nat)
    requires
        i <= n,
        draft_after(kind, entries, i) is Err,
    ensures
        draft_after(kind, entries, n) == draft_after(kind, entries, i),
    decreases n,
{
    if i < n {
        lemma_draft_error_sticks(kind, entries, i, (n - 1) as nat);
    }
}

/// The rally point form sending troops.
#[derive(Debug, Clone)]
pub struct SendTroopsForm {
    pub slot_id: u8,
    pub target_x: i32,
    pub target_y: i32,
    pub movement: SendMovementKind,
    pub units: Vec<i32>,
    pub csrf_token: String,
}

/// The rally point form confirming a troop movement.
#[derive(Debug, Clone)]
pub struct ConfirmSendTroopsForm {
    pub village_id: u32,
    pub slot_id: u8,
    pub target_x: i32,
    pub target_y: i32,
    pub movement: SendMovementKind,
    pub units: Vec<i32>,
    pub scouting_target: Option<String>,
    pub catapult_target_1: Option<String>,
    pub catapult_target_2: Option<String>,
    pub csrf_token: String,
}

/// The form asking to found a village on a field.
#[derive(Debug, Clone)]
pub struct FoundVillageConfirmForm {
    pub field_id: u32,
    pub target_x: i32,
    pub target_y: i32,
    pub csrf_token: String,
}

/// The form sending settlers to found a village.
#[derive(Debug, Clone)]
pub struct FoundVillageExecuteForm {
    pub village_id: u32,
    pub target_field_id: u32,
    pub target_x: i32,
    pub target_y: i32,
    pub units: Vec<i32>,
    pub csrf_token: String,
}

impl HasCsrfToken for SendTroopsForm {
    fn csrf_token(&self) -> (t: &str)
        ensures
            t@ == self.csrf_token@,
    {
        self.csrf_token.as_str()
    }
}

impl HasCsrfToken for ConfirmSendTroopsForm {
    fn csrf_token(&self) -> (t: &str)
        ensures
            t@ == self.csrf_token@,
    {
        self.csrf_token.as_str()
    }
}

impl HasCsrfToken for FoundVillageConfirmForm {
    fn csrf_token(&self) -> (t: &str)
        ensures
            t@ == self.csrf_token@,
    {
        self.csrf_token.as_str()
    }
}

impl HasCsrfToken for FoundVillageExecuteForm {
    fn csrf_token(&self) -> (t: &str)
        ensures
            t@ == self.csrf_token@,
    {
        self.csrf_token.as_str()
    }
}

/// The first required field missing from a draft, in the order the form
/// checks them.
pub open spec fn first_missing(kind: TroopFormKind, d: TroopFormDraft) -> Option<FormKey> {
    match kind {
        TroopFormKind::Send => if d.slot_id is None {
            Some(FormKey::SlotId)
        } else if d.target_x is None {
            Some(FormKey::TargetX)
        } else if d.target_y is None {
            Some(FormKey::TargetY)
        } else if d.movement is None {
            Some(FormKey::Movement)
        } else if d.csrf_token is None {
            Some(FormKey::CsrfToken)
        } else {
            None
        },
        TroopFormKind::Confirm => if d.village_id is None {
            Some(FormKey::VillageId)
        } else if d.slot_id is None {
            Some(FormKey::SlotId)
        } else if d.target_x is None {
            Some(FormKey::TargetX)
        } else if d.target_y is None {
            Some(FormKey::TargetY)
        } else if d.movement is None {
            Some(FormKey::Movement)
        } else if d.csrf_token is None {
            Some(FormKey::CsrfToken)
        } else {
            None
        },
        TroopFormKind::FoundConfirm => if d.field_id is None {
            Some(FormKey::FieldId)
        } else if d.target_x is None {
            Some(FormKey::TargetX)
        } else if d.target_y is None {
            Some(FormKey::TargetY)
        } else if d.csrf_token is None {
            Some(FormKey::CsrfToken)
        } else {
            None
        },
        TroopFormKind::FoundExecute => if d.village_id is None {
            Some(FormKey::VillageId)
        } else if d.target_field_id is None {
            Some(FormKey::TargetFieldId)
        } else if d.target_x is None {
            Some(FormKey::TargetX)
        } else if d.target_y is None {
            Some(FormKey::TargetY)
        } else if d.csrf_token is None {
            Some(FormKey::CsrfToken)
        } else {
            None
        },
    }
}

/// The outcome of reading a troop form: its complete draft with the units
/// read, or the first refusal.
pub open spec fn form_outcome(kind: TroopFormKind, entries: Seq<FormEntry>) -> Result<(TroopFormDraft, Seq<i32>), FormError> {
    match draft_after(kind, entries, entries.len()) {
        Ok((d, units)) => match first_missing(kind, d) {
            Some(k) => Err(FormError::Missing(k)),
            None => Ok((d, units)),
        },
        Err(err) => Err(err),
    }
}

fn check_complete(kind: TroopFormKind, d: &TroopFormDraft) -> (r: Result<(), FormError>)
    ensures
        match first_missing(kind, *d) {
            Some(k) => r == Err::<(), FormError>(FormError::Missing(k)),
            None => r is Ok,
        },
{
    match kind {
        TroopFormKind::Send => {
            if d.slot_id.is_none() {
                return Err(FormError::Missing(FormKey::SlotId));
            }
            if d.target_x.is_none() {
                return Err(FormError::Missing(FormKey::TargetX));
            }
            if d.target_y.is_none() {
                return Err(FormError::Missing(FormKey::TargetY));
            }
            if d.movement.is_none() {
                return Err(FormError::Missing(FormKey::Movement));
            }
        },
        TroopFormKind::Confirm => {
            if d.village_id.is_none() {
                return Err(FormError::Missing(FormKey::VillageId));
            }
            if d.slot_id.is_none() {
                return Err(FormError::Missing(FormKey::SlotId));
            }
            if d.target_x.is_none() {
                return Err(FormError::Missing(FormKey::TargetX));
            }
            if d.target_y.is_none() {
                return Err(FormError::Missing(FormKey::TargetY));
            }
            if d.movement.is_none() {
                return Err(FormError::Missing(FormKey::Movement));
            }
        },
        TroopFormKind::FoundConfirm => {
            if d.field_id.is_none() {
                return Err(FormError::Missing(FormKey::FieldId));
            }
            if d.target_x.is_none() {
                return Err(FormError::Missing(FormKey::TargetX));
            }
            if d.target_y.is_none() {
                return Err(FormError::Missing(FormKey::TargetY));
            }
        },
        TroopFormKind::FoundExecute => {
            if d.village_id.is_none() {
                return Err(FormError::Missing(FormKey::VillageId));
            }
            if d.target_field_id.is_none() {
                return Err(FormError::Missing(FormKey::TargetFieldId));
            }
            if d.target_x.is_none() {
                return Err(FormError::Missing(FormKey::TargetX));
            }
            if d.target_y.is_none() {
                return Err(FormError::Missing(FormKey::TargetY));
            }
        },
    }
    if d.csrf_token.is_none() {
        return Err(FormError::Missing(FormKey::CsrfToken));
    }
    Ok(())
}

/// Reads a troop form and checks that its required fields are there.
pub fn read_complete_troop_form(kind: TroopFormKind, entries: Vec<FormEntry>) -> (r: Result<
    TroopFormDraft,
    FormError,
>)
    ensures
        match form_outcome(kind, entries@) {
            Ok((d, units)) => r matches Ok(x) && x.units@ == units && x == (TroopFormDraft { units: x.units, ..d }),
            Err(err) => r == Err::<TroopFormDraft, FormError>(err),
        },
{
    let d = read_troop_form(kind, entries)?;
    check_complete(kind, &d)?;
    Ok(d)
}

/// Reads the rally point send form.
pub fn parse_send_troops_form(entries: Vec<FormEntry>) -> (r: Result<SendTroopsForm, FormError>)
    ensures
        match form_outcome(TroopFormKind::Send, entries@) {
            Ok((d, units)) => r matches Ok(f) && f.units@ == units && Some(f.slot_id) == d.slot_id && Some(f.target_x)
                == d.target_x && Some(f.target_y) == d.target_y && Some(f.movement) == d.movement && Some(
                f.csrf_token,
            ) == d.csrf_token,
            Err(err) => r == Err::<SendTroopsForm, FormError>(err),
        },
{
    let d = read_complete_troop_form(TroopFormKind::Send, entries)?;
    match (d.slot_id, d.target_x, d.target_y, d.movement, d.csrf_token) {
        (Some(slot_id), Some(target_x), Some(target_y), Some(movement), Some(csrf_token)) => Ok(
            SendTroopsForm { slot_id, target_x, target_y, movement, units: d.units, csrf_token },
        ),
        _ => Err(FormError::Missing(FormKey::CsrfToken)),
    }
}

/// Reads the rally point confirmation form.
pub fn parse_confirm_send_troops_form(entries: Vec<FormEntry>) -> (r: Result<ConfirmSendTroopsForm, FormError>)
    ensures
        match form_outcome(TroopFormKind::Confirm, entries@) {
            Ok((d, units)) => r matches Ok(f) && f.units@ == units && Some(f.village_id) == d.village_id && Some(
                f.slot_id,
            ) == d.slot_id && Some(f.target_x) == d.target_x && Some(f.target_y) == d.target_y && Some(f.movement)
                == d.movement && f.scouting_target == d.scouting_target && f.catapult_target_1
                == d.catapult_target_1 && f.catapult_target_2 == d.catapult_target_2 && Some(f.csrf_token)
                == d.csrf_token,
            Err(err) => r == Err::<ConfirmSendTroopsForm, FormError>(err),
        },
{
    let d = read_complete_troop_form(TroopFormKind::Confirm, entries)?;
    match (d.village_id, d.slot_id, d.target_x, d.target_y, d.movement, d.csrf_token) {
        (Some(village_id), Some(slot_id), Some(target_x), Some(target_y), Some(movement), Some(csrf_token)) => Ok(
            ConfirmSendTroopsForm {
                village_id,
                slot_id,
                target_x,
                target_y,
                movement,
                units: d.units,
                scouting_target: d.scouting_target,
                catapult_target_1: d.catapult_target_1,
                catapult_target_2: d.catapult_target_2,
                csrf_token,
            },
        ),
        _ => Err(FormError::Missing(FormKey::CsrfToken)),
    }
}

/// Reads the founding confirmation form.
pub fn parse_found_village_confirm_form(entries: Vec<FormEntry>) -> (r: Result<FoundVillageConfirmForm, FormError>)
    ensures
        match form_outcome(TroopFormKind::FoundConfirm, entries@) {
            Ok((d, _)) => r matches Ok(f) && Some(f.field_id) == d.field_id && Some(f.target_x) == d.target_x && Some(
                f.target_y,
            ) == d.target_y && Some(f.csrf_token) == d.csrf_token,
            Err(err) => r == Err::<FoundVillageConfirmForm, FormError>(err),
        },
{
    let d = read_complete_troop_form(TroopFormKind::FoundConfirm, entries)?;
    match (d.field_id, d.target_x, d.target_y, d.csrf_token) {
        (Some(field_id), Some(target_x), Some(target_y), Some(csrf_token)) => Ok(
            FoundVillageConfirmForm { field_id, target_x, target_y, csrf_token },
        ),
        _ => Err(FormError::Missing(FormKey::CsrfToken)),
    }
}

/// Reads the founding form.
pub fn parse_found_village_execute_form(entries: Vec<FormEntry>) -> (r: Result<FoundVillageExecuteForm, FormError>)
    ensures
        match form_outcome(TroopFormKind::FoundExecute, entries@) {
            Ok((d, units)) => r matches Ok(f) && f.units@ == units && Some(f.village_id) == d.village_id && Some(
                f.target_field_id,
            ) == d.target_field_id && Some(f.target_x) == d.target_x && Some(f.target_y) == d.target_y && Some(
                f.csrf_token,
            ) == d.csrf_token,
            Err(err) => r == Err::<FoundVillageExecuteForm, FormError>(err),
        },
{
    let d = read_complete_troop_form(TroopFormKind::FoundExecute, entries)?;
    match (d.village_id, d.target_field_id, d.target_x, d.target_y, d.csrf_token) {
        (Some(village_id), Some(target_field_id), Some(target_x), Some(target_y), Some(csrf_token)) => Ok(
            FoundVillageExecuteForm { village_id, target_field_id, target_x, target_y, units: d.units, csrf_token },
        ),
        _ => Err(FormError::Missing(FormKey::CsrfToken)),
    }
}

} // verus!
