//! The lines of the report list: a battle report's title and summary, and
//! the address of a report's page.

use vstd::prelude::*;

use crate::api::actions::AttackType;
use crate::ids::{spec_uuid_hyphenated, uuid_to_string};
use crate::text::{append_decimal, spec_decimal};
use crate::views::{append_signed, spec_signed_decimal};

verus! {

/// How the list names an attack: raids are `raided`, other attacks `attacked`.
pub open spec fn spec_attack_verb(t: AttackType) -> Seq<char> {
    match t {
        AttackType::Raid => "raided"@,
        AttackType::Normal => "attacked"@,
    }
}

fn append_attack_verb(s: &mut String, t: AttackType)
    ensures
        final(s)@ == old(s)@ + spec_attack_verb(t),
{
    match t {
        AttackType::Raid => s.append("raided"),
        AttackType::Normal => s.append("attacked"),
    }
}

/// The title of a battle report: `<attacker> <verb> <defender>`.
pub fn battle_report_title(attacker_village: &str, attack_type: AttackType, defender_village: &str) -> (s: String)
    ensures
        s@ == attacker_village@ + " "@ + spec_attack_verb(attack_type) + " "@ + defender_village@,
{
    let mut s = String::from_str(attacker_village);
    s.append(" ");
    append_attack_verb(&mut s, attack_type);
    s.append(" ");
    s.append(defender_village);
    s
}

/// The sum of the first `n` counts.
pub open spec fn losses_total(losses: Seq<u32>, n: nat) -> int
    decreases n,
{
    if n == 0 {
        0
    } else {
        losses_total(losses, (n - 1) as nat) + losses[n - 1]
    }
}

proof fn lemma_losses_total_grows(losses: Seq<u32>, i: nat, n: nat)
    requires
        i <= n,
    ensures
        0 <= losses_total(losses, i) <= losses_total(losses, n),
    decreases n,
{
    if n > 0 {
        if i < n {
            lemma_losses_total_grows(losses, i, (n - 1) as nat);
        } else {
            lemma_losses_total_grows(losses, (n - 1) as nat, (n - 1) as nat);
        }
    }
}

/// What a battle cost or brought: the bounty (`bounty_text` describes it)
/// when there is any, else the units the attacker lost, else nothing.
pub open spec fn spec_battle_outcome(bounty_total: u64, bounty_text: Seq<char>, attacker_losses: Option<Seq<u32>>) -> Seq<
    char,
> {
    if bounty_total > 0 {
        "Bounty: "@ + bounty_text
    } else {
        match attacker_losses {
            Some(l) => if losses_total(l, l.len()) > 0 {
                "Lost "@ + spec_decimal(losses_total(l, l.len()) as nat) + " units"@
            } else {
                "No losses"@
            },
            None => Seq::empty(),
        }
    }
}

/// Writes what a battle cost or brought; the attacker's losses are summed.
pub fn battle_outcome(bounty_total: u64, bounty_text: &str, attacker_losses: Option<&Vec<u32>>) -> (s: String)
    requires
        attacker_losses matches Some(l) ==> losses_total(l@, l@.len()) <= u32::MAX,
    ensures
        s@ == spec_battle_outcome(
            bounty_total,
            bounty_text@,
            match attacker_losses {
                Some(l) => Some(l@),
                None => None,
            },
        ),
{
    if bounty_total > 0 {
        let mut s = String::from_str("Bounty: ");
        s.append(bounty_text);
        return s;
    }
    match attacker_losses {
        Some(losses) => {
            let mut total: u32 = 0;
            let mut i: usize = 0;
            while i < losses.len()
                invariant
                    i <= losses@.len(),
                    losses_total(losses@, losses@.len()) <= u32::MAX,
                    total == losses_total(losses@, i as nat),
                decreases losses.len() - i,
            {
                proof {
                    lemma_losses_total_grows(losses@, (i + 1) as nat, losses@.len());
                }
                total = total + losses[i];
                i = i + 1;
            }
            if total > 0 {
                let mut s = String::from_str("Lost ");
                append_decimal(&mut s, total as u64);
                s.append(" units");
                s
            } else {
                String::from_str("No losses")
            }
        },
        None => String::new(),
    }
}

/// A village and its coordinates, written `<name> (<x>|<y>)`.
pub open spec fn spec_placed_village(name: Seq<char>, x: i32, y: i32) -> Seq<char> {
    name + " ("@ + spec_signed_decimal(x as int) + "|"@ + spec_signed_decimal(y as int) + ")"@
}

fn append_placed_village(s: &mut String, name: &str, x: i32, y: i32)
    ensures
        final(s)@ == old(s)@ + spec_placed_village(name@, x, y),
{
    s.append(name);
    s.append(" (");
    append_signed(s, x);
    s.append("|");
    append_signed(s, y);
    s.append(")");
    proof {
        assert(final(s)@ =~= old(s)@ + spec_placed_village(name@, x, y));
    }
}

/// The summary line of a battle report:
/// `<attacker> (x|y) <verb> <defender> (x|y) - <result> - <outcome>`.
pub fn battle_report_summary(
    attacker_village: &str,
    attacker_position: (i32, i32),
    attack_type: AttackType,
    defender_village: &str,
    defender_position: (i32, i32),
    result: &str,
    outcome: &str,
) -> (s: String)
    ensures
        s@ == spec_placed_village(attacker_village@, attacker_position.0, attacker_position.1) + " "@
            + spec_attack_verb(attack_type) + " "@ + spec_placed_village(
            defender_village@,
            defender_position.0,
            defender_position.1,
        ) + " - "@ + result@ + " - "@ + outcome@,
{
    let mut s = String::new();
    append_placed_village(&mut s, attacker_village, attacker_position.0, attacker_position.1);
    s.append(" ");
    append_attack_verb(&mut s, attack_type);
    s.append(" ");
    append_placed_village(&mut s, defender_village, defender_position.0, defender_position.1);
    s.append(" - ");
    s.append(result);
    s.append(" - ");
    s.append(outcome);
    proof {
        assert(s@ =~= spec_placed_village(attacker_village@, attacker_position.0, attacker_position.1) + " "@
            + spec_attack_verb(attack_type) + " "@ + spec_placed_village(
            defender_village@,
            defender_position.0,
            defender_position.1,
        ) + " - "@ + result@ + " - "@ + outcome@);
    }
    s
}

/// The address of a report's page: `/reports/<id>`.
pub fn report_permalink(id: u128) -> (s: String)
    ensures
        s@ == "/reports/"@ + spec_uuid_hyphenated(id),
{
    let mut s = String::from_str("/reports/");
    let id_text = uuid_to_string(id);
    s.append(id_text.as_str());
    s
}

} // verus!
