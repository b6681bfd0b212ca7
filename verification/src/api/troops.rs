//! Troops in a village, home army and hosted reinforcements together,
//! counted by unit name and listed in name order.

use vstd::prelude::*;

use crate::api::dto::CurrentTroopDto;
use crate::text::{append_decimal, chars_of, spec_decimal};
use crate::text_order::{compare_texts, lemma_lex_irreflexive, lemma_lex_total, lemma_lex_transitive, lex_lt, TextOrder};

verus! {

/// The unit counts of an army with the names of its tribe's unit types.
#[derive(Debug, Clone)]
pub struct ArmyUnits {
    pub unit_names: Vec<String>,
    pub units: Vec<u32>,
}

/// The name of unit type `idx` of an army: its tribe's name for it, or
/// `Unit<idx + 1>` past the tribe's list.
pub open spec fn unit_label(a: ArmyUnits, idx: int) -> Seq<char> {
    if idx < a.unit_names@.len() {
        a.unit_names@[idx]@
    } else {
        "Unit"@ + spec_decimal((idx + 1) as nat)
    }
}

/// The (name, count) pairs of an army, by unit type.
pub open spec fn army_entries(a: ArmyUnits) -> Seq<(Seq<char>, u32)> {
    Seq::new(a.units@.len(), |i: int| (unit_label(a, i), a.units@[i]))
}

/// The (name, count) pairs of the first `n` armies.
pub open spec fn all_entries(armies: Seq<ArmyUnits>, n: nat) -> Seq<(Seq<char>, u32)>
    decreases n,
{
    if n == 0 {
        Seq::empty()
    } else {
        all_entries(armies, (n - 1) as nat) + army_entries(armies[n - 1])
    }
}

/// Units named `name` among the pairs.
pub open spec fn count_for(es: Seq<(Seq<char>, u32)>, name: Seq<char>) -> int
    decreases es.len(),
{
    if es.len() == 0 {
        0
    } else {
        count_for(es.drop_last(), name) + if es.last().0 == name {
            es.last().1 as int
        } else {
            0
        }
    }
}

/// Counting splits over concatenation.
pub proof fn lemma_count_for_concat(a: Seq<(Seq<char>, u32)>, b: Seq<(Seq<char>, u32)>, name: Seq<char>)
    ensures
        count_for(a + b, name) == count_for(a, name) + count_for(b, name),
        count_for(b, name) >= 0,
    decreases b.len(),
{
    if b.len() == 0 {
        assert(a + b =~= a);
    } else {
        assert((a + b).drop_last() =~= a + b.drop_last());
        lemma_count_for_concat(a, b.drop_last(), name);
    }
}

/// `out` lists the troops of the pairs `es`: in strict name order, each name
/// once with its total, every name with units present.
pub open spec fn groups_troops(es: Seq<(Seq<char>, u32)>, out: Seq<CurrentTroopDto>) -> bool {
    &&& forall|i: int, j: int|
        0 <= i < j < out.len() ==> lex_lt(#[trigger] out[i].unit_name@, #[trigger] out[j].unit_name@)
    &&& forall|k: int|
        0 <= k < out.len() ==> #[trigger] out[k].count == count_for(es, out[k].unit_name@) && count_for(
            es,
            out[k].unit_name@,
        ) > 0
    &&& forall|name: Seq<char>|
        #[trigger] count_for(es, name) > 0 ==> exists|k: int| 0 <= k < out.len() && #[trigger] out[k].unit_name@ == name
}

proof fn lemma_push_count(es: Seq<(Seq<char>, u32)>, e: (Seq<char>, u32), name: Seq<char>)
    ensures
        count_for(es.push(e), name) == count_for(es, name) + if e.0 == name {
            e.1 as int
        } else {
            0
        },
{
    assert(es.push(e).drop_last() =~= es);
}

proof fn lemma_groups_intro(es: Seq<(Seq<char>, u32)>, out: Seq<CurrentTroopDto>)
    requires
        forall|i: int, j: int|
            0 <= i < j < out.len() ==> lex_lt(#[trigger] out[i].unit_name@, #[trigger] out[j].unit_name@),
        forall|k: int|
            0 <= k < out.len() ==> #[trigger] out[k].count == count_for(es, out[k].unit_name@) && count_for(
                es,
                out[k].unit_name@,
            ) > 0,
        forall|name: Seq<char>|
            #[trigger] count_for(es, name) > 0 ==> exists|k: int| 0 <= k < out.len() && #[trigger] out[k].unit_name@ == name,
    ensures
        groups_troops(es, out),
{
}

fn add_entry(out: &mut Vec<CurrentTroopDto>, name: String, count: u32, Ghost(es): Ghost<Seq<(Seq<char>, u32)>>)
    requires
        groups_troops(es, old(out)@),
        count_for(es, name@) + count <= u32::MAX,
        count_for(es, name@) >= 0,
    ensures
        groups_troops(es.push((name@, count)), final(out)@),
{
    let ghost e = (name@, count);
    let ghost es2 = es.push(e);
    proof {
        assert forall|x: Seq<char>| #[trigger] count_for(es2, x) == count_for(es, x) + if x == name@ {
            count as int
        } else {
            0
        } by {
            lemma_push_count(es, e, x);
        }
    }
    if count == 0 {
        assert forall|x: Seq<char>| #[trigger] count_for(es2, x) > 0 implies exists|k: int|
            0 <= k < out@.len() && #[trigger] out@[k].unit_name@ == x by {
            assert(count_for(es, x) > 0);
        }
        assert forall|k: int| 0 <= k < out@.len() implies #[trigger] out@[k].count == count_for(
            es2,
            out@[k].unit_name@,
        ) && count_for(es2, out@[k].unit_name@) > 0 by {
            assert(out@[k].count == count_for(es, out@[k].unit_name@));
        }
        assert forall|i: int, k: int| 0 <= i < k < out@.len() implies lex_lt(
            #[trigger] out@[i].unit_name@,
            #[trigger] out@[k].unit_name@,
        ) by {
        }
        proof {
            lemma_groups_intro(es2, out@);
        }
        return;
    }
    let key = chars_of(name.as_str());
    let mut j: usize = 0;
    let mut state = TextOrder::Before;
    while j < out.len() && state == TextOrder::Before
        invariant
            j <= out@.len(),
            key@ == name@,
            forall|i: int| 0 <= i < j ==> lex_lt(#[trigger] out@[i].unit_name@, name@),
            state == TextOrder::Same ==> j < out@.len() && out@[j as int].unit_name@ == name@,
            state == TextOrder::After ==> j < out@.len() && lex_lt(name@, out@[j as int].unit_name@),
        decreases out@.len() - j + if state == TextOrder::Before {
            1int
        } else {
            0int
        },
    {
        let here = chars_of(out[j].unit_name.as_str());
        state = compare_texts(here.as_slice(), key.as_slice());
        if state == TextOrder::Before {
            j = j + 1;
        }
    }
    let ghost old_out = out@;
    if state == TextOrder::Same {
        let total = out[j].count + count;
        let updated = CurrentTroopDto { unit_name: out[j].unit_name.clone(), count: total };
        out.set(j, updated);
        proof {
            assert forall|x: Seq<char>| #[trigger] count_for(es2, x) > 0 implies exists|k: int|
                0 <= k < out@.len() && #[trigger] out@[k].unit_name@ == x by {
                if x == name@ {
                    assert(out@[j as int].unit_name@ == x);
                } else {
                    let k = choose|k: int| 0 <= k < old_out.len() && #[trigger] old_out[k].unit_name@ == x;
                    assert(out@[k].unit_name@ == x);
                }
            }
            assert forall|k: int| 0 <= k < out@.len() implies #[trigger] out@[k].count == count_for(
                es2,
                out@[k].unit_name@,
            ) && count_for(es2, out@[k].unit_name@) > 0 by {
                if k != j {
                    assert(old_out[k].count == count_for(es, old_out[k].unit_name@));
                    if old_out[k].unit_name@ == name@ {
                        lemma_lex_total(old_out[k].unit_name@, old_out[j as int].unit_name@);
                        lemma_lex_irreflexive(name@);
                    }
                }
            }
            assert forall|i: int, k: int| 0 <= i < k < out@.len() implies lex_lt(
                #[trigger] out@[i].unit_name@,
                #[trigger] out@[k].unit_name@,
            ) by {
                assert(lex_lt(old_out[i].unit_name@, old_out[k].unit_name@));
            }
            lemma_groups_intro(es2, out@);
        }
    } else {
        proof {
            if count_for(es, name@) > 0 {
                let k = choose|k: int| 0 <= k < old_out.len() && #[trigger] old_out[k].unit_name@ == name@;
                lemma_lex_irreflexive(name@);
                if k >= j {
                    if k > j {
                        assert(lex_lt(old_out[j as int].unit_name@, old_out[k].unit_name@));
                        lemma_lex_transitive(name@, old_out[j as int].unit_name@, old_out[k].unit_name@);
                    }
                }
            }
        }
        out.insert(j, CurrentTroopDto { unit_name: name, count });
        proof {
            assert(count_for(es, e.0) == 0);
            assert forall|x: Seq<char>| #[trigger] count_for(es2, x) > 0 implies exists|k: int|
                0 <= k < out@.len() && #[trigger] out@[k].unit_name@ == x by {
                if x == e.0 {
                    assert(out@[j as int].unit_name@ == x);
                } else {
                    let k = choose|k: int| 0 <= k < old_out.len() && #[trigger] old_out[k].unit_name@ == x;
                    if k < j {
                        assert(out@[k].unit_name@ == x);
                    } else {
                        assert(out@[k + 1].unit_name@ == x);
                    }
                }
            }
            assert forall|k: int| 0 <= k < out@.len() implies #[trigger] out@[k].count == count_for(
                es2,
                out@[k].unit_name@,
            ) && count_for(es2, out@[k].unit_name@) > 0 by {
                if k != j {
                    let old_k = if k < j {
                        k
                    } else {
                        k - 1
                    };
                    assert(out@[k] == old_out[old_k]);
                    assert(old_out[old_k].count == count_for(es, old_out[old_k].unit_name@));
                }
            }
            assert forall|i: int, k: int| 0 <= i < k < out@.len() implies lex_lt(
                #[trigger] out@[i].unit_name@,
                #[trigger] out@[k].unit_name@,
            ) by {
                if k < j {
                    assert(out@[i] == old_out[i] && out@[k] == old_out[k]);
                } else if k == j {
                    assert(out@[i] == old_out[i]);
                } else {
                    assert(out@[k] == old_out[k - 1]);
                    let above = old_out[k - 1].unit_name@;
                    assert(lex_lt(e.0, above)) by {
                        if k - 1 > j {
                            assert(lex_lt(old_out[j as int].unit_name@, above));
                            lemma_lex_transitive(e.0, old_out[j as int].unit_name@, above);
                        }
                    }
                    if i < j {
                        assert(out@[i] == old_out[i]);
                        lemma_lex_transitive(old_out[i].unit_name@, e.0, above);
                    } else if i > j {
                        assert(out@[i] == old_out[i - 1]);
                    }
                }
            }
            lemma_groups_intro(es2, out@);
        }
    }
}

fn unit_name_for(a: &ArmyUnits, idx: usize) -> (r: String)
    requires
        idx < a.units.len(),
    ensures
        r@ == unit_label(*a, idx as int),
{
    if idx < a.unit_names.len() {
        a.unit_names[idx].clone()
    } else {
        let mut name = String::from_str("Unit");
        let number: usize = idx + 1;
        append_decimal(&mut name, number as u64);
        name
    }
}

fn add_army(out: &mut Vec<CurrentTroopDto>, a: &ArmyUnits, Ghost(es): Ghost<Seq<(Seq<char>, u32)>>)
    requires
        groups_troops(es, old(out)@),
        forall|name: Seq<char>| #[trigger] count_for(es + army_entries(*a), name) <= u32::MAX,
    ensures
        groups_troops(es + army_entries(*a), final(out)@),
{
    let ghost full = army_entries(*a);
    let mut i: usize = 0;
    assert(es + full.take(0) =~= es);
    while i < a.units.len()
        invariant
            i <= a.units@.len(),
            full == army_entries(*a),
            forall|name: Seq<char>| #[trigger] count_for(es + full, name) <= u32::MAX,
            groups_troops(es + full.take(i as int), out@),
        decreases a.units.len() - i,
    {
        let ghost before = es + full.take(i as int);
        let name = unit_name_for(a, i);
        let count = a.units[i];
        proof {
            assert(before.push((name@, count)) =~= es + full.take(i + 1));
            let rest = full.skip(i + 1);
            assert(es + full =~= (es + full.take(i + 1)) + rest);
            lemma_count_for_concat(es + full.take(i + 1), rest, name@);
            lemma_push_count(before, (name@, count), name@);
            lemma_count_for_concat(es, full.take(i as int), name@);
            lemma_count_for_concat(Seq::empty(), es, name@);
            assert(Seq::<(Seq<char>, u32)>::empty() + es =~= es);
            lemma_count_for_concat(Seq::empty(), full.take(i as int), name@);
            assert(Seq::<(Seq<char>, u32)>::empty() + full.take(i as int) =~= full.take(i as int));
            assert(count_for(es + full, name@) <= u32::MAX);
        }
        add_entry(out, name, count, Ghost(before));
        i = i + 1;
    }
    assert(full.take(i as int) =~= full);
}

/// The armies whose troops are counted: the home army, then the reinforcements.
pub open spec fn army_list(home: Option<ArmyUnits>, reinforcements: Seq<ArmyUnits>) -> Seq<ArmyUnits> {
    (match home {
        Some(h) => seq![h],
        None => Seq::empty(),
    }) + reinforcements
}

/// The (name, count) pairs of the home army and the reinforcements.
pub open spec fn troop_entries(home: Option<ArmyUnits>, reinforcements: Seq<ArmyUnits>) -> Seq<(Seq<char>, u32)> {
    all_entries(army_list(home, reinforcements), army_list(home, reinforcements).len())
}

/// The troops of the village, its home army and the reinforcements it hosts
/// together: one entry per unit name, in name order, with the units of that
/// name summed.
pub fn current_troops(home: &Option<ArmyUnits>, reinforcements: &Vec<ArmyUnits>) -> (r: Vec<CurrentTroopDto>)
    requires
        forall|name: Seq<char>| #[trigger] count_for(troop_entries(*home, reinforcements@), name) <= u32::MAX,
    ensures
        groups_troops(troop_entries(*home, reinforcements@), r@),
{
    let ghost armies = army_list(*home, reinforcements@);
    let ghost start: nat = if home is Some {
        1nat
    } else {
        0nat
    };
    let ghost total = all_entries(armies, armies.len());
    let mut out: Vec<CurrentTroopDto> = Vec::new();
    assert forall|name: Seq<char>| #[trigger] count_for(all_entries(armies, armies.len()), name) <= u32::MAX by {
        assert(count_for(troop_entries(*home, reinforcements@), name) <= u32::MAX);
    }
    proof {
        lemma_all_entries_prefix(armies, 0, armies.len());
        assert forall|name: Seq<char>| #[trigger] count_for(all_entries(armies, 0), name) > 0 implies false by {}
        lemma_groups_intro(all_entries(armies, 0), out@);
    }
    if let Some(h) = home {
        proof {
            assert(armies[0] == *h);
            assert(all_entries(armies, 1) =~= all_entries(armies, 0) + army_entries(*h));
            lemma_all_entries_prefix(armies, 1, armies.len());
            assert forall|name: Seq<char>| #[trigger] count_for(all_entries(armies, 0) + army_entries(*h), name)
                <= u32::MAX by {
                lemma_count_for_concat(all_entries(armies, 1), all_entries(armies, armies.len()).skip(
                    all_entries(armies, 1).len() as int,
                ), name);
                assert(all_entries(armies, armies.len()) =~= all_entries(armies, 1) + all_entries(
                    armies,
                    armies.len(),
                ).skip(all_entries(armies, 1).len() as int));
            }
        }
        add_army(&mut out, h, Ghost(all_entries(armies, 0)));
    }
    let mut i: usize = 0;
    while i < reinforcements.len()
        invariant
            i <= reinforcements@.len(),
            armies == army_list(*home, reinforcements@),
            start == if home is Some {
                1nat
            } else {
                0nat
            },
            armies.len() == start + reinforcements@.len(),
            forall|name: Seq<char>| #[trigger] count_for(all_entries(armies, armies.len()), name) <= u32::MAX,
            groups_troops(all_entries(armies, (start + i) as nat), out@),
        decreases reinforcements.len() - i,
    {
        let ghost n: nat = (start + i) as nat;
        proof {
            assert(armies[n as int] == reinforcements@[i as int]);
            assert(all_entries(armies, (n + 1) as nat) =~= all_entries(armies, n) + army_entries(reinforcements@[i as int]));
            lemma_all_entries_prefix(armies, (n + 1) as nat, armies.len());
            assert forall|name: Seq<char>| #[trigger] count_for(
                all_entries(armies, n) + army_entries(reinforcements@[i as int]),
                name,
            ) <= u32::MAX by {
                let whole = all_entries(armies, armies.len());
                let head = all_entries(armies, (n + 1) as nat);
                assert(whole =~= head + whole.skip(head.len() as int));
                lemma_count_for_concat(head, whole.skip(head.len() as int), name);
            }
        }
        add_army(&mut out, &reinforcements[i], Ghost(all_entries(armies, n)));
        i = i + 1;
    }
    out
}

/// The pairs of the first `i` armies open those of the first `n`.
proof fn lemma_all_entries_prefix(armies: Seq<ArmyUnits>, i: nat, n: nat)
    requires
        i <= n,
    ensures
        all_entries(armies, i).len() <= all_entries(armies, n).len(),
        all_entries(armies, n).take(all_entries(armies, i).len() as int) == all_entries(armies, i),
    decreases n,
{
    if i < n {
        lemma_all_entries_prefix(armies, i, (n - 1) as nat);
        let prev = all_entries(armies, (n - 1) as nat);
        assert(all_entries(armies, n).take(prev.len() as int) =~= prev);
        assert(all_entries(armies, n).take(all_entries(armies, i).len() as int) =~= prev.take(
            all_entries(armies, i).len() as int,
        ));
    } else {
        assert(all_entries(armies, n).take(all_entries(armies, n).len() as int) =~= all_entries(armies, n));
    }
}

} // verus!
