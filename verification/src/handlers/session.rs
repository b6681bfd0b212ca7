//! The page session: anti-forgery tokens, the choice of the current village,
//! and reading numbers from the text of cookies and forms.

use vstd::prelude::*;

use crate::ids::{new_uuid_v4, spec_uuid_hyphenated, uuid_to_string};
use crate::model::Village;
use crate::text::{chars_of, digit_char, spec_decimal, str_eq, string_from_chars};

verus! {

/// A fresh anti-forgery token: a random UUID in its hyphenated form.
pub fn new_csrf_token() -> (t: String)
    ensures
        exists|id: u128| t@ == #[trigger] spec_uuid_hyphenated(id),
        t@.len() == 36,
{
    let id = new_uuid_v4();
    let t = uuid_to_string(id);
    assert(t@ == spec_uuid_hyphenated(id));
    t
}

/// A form's anti-forgery token is valid when the session cookie holds the same token.
pub fn validate_csrf(cookie_token: Option<&str>, form_token: &str) -> (r: bool)
    ensures
        r == (cookie_token matches Some(c) && c@ == form_token@),
{
    match cookie_token {
        Some(c) => str_eq(c, form_token),
        None => false,
    }
}

/// Position `i` holds the village a session starts in: the first capital,
/// or the first village when there is no capital.
pub open spec fn is_active_pick(villages: Seq<Village>, i: int) -> bool {
    &&& 0 <= i < villages.len()
    &&& villages[i].is_capital || (i == 0 && forall|j: int| 0 <= j < villages.len() ==> !#[trigger] villages[j].is_capital)
    &&& forall|j: int| 0 <= j < i ==> !#[trigger] villages[j].is_capital
}

/// Picks the village a session starts in (by position in the list).
pub fn pick_active_village(villages: &Vec<Village>) -> (r: Option<usize>)
    ensures
        r is None <==> villages@.len() == 0,
        r matches Some(i) ==> is_active_pick(villages@, i as int),
{
    let mut i: usize = 0;
    while i < villages.len()
        invariant
            i <= villages@.len(),
            forall|j: int| 0 <= j < i ==> !#[trigger] villages@[j].is_capital,
        decreases villages.len() - i,
    {
        if villages[i].is_capital {
            return Some(i);
        }
        i = i + 1;
    }
    if villages.len() > 0 {
        Some(0)
    } else {
        None
    }
}

pub open spec fn is_ascii_digit(c: char) -> bool {
    '0' <= c <= '9'
}

/// The value of a string of decimal digits.
pub open spec fn digits_value(s: Seq<char>) -> nat
    decreases s.len(),
{
    if s.len() == 0 {
        0
    } else {
        digits_value(s.drop_last()) * 10 + ((s.last() as u32) - ('0' as u32)) as nat
    }
}

/// The digits of a number as written: an optional `+` sign is dropped.
pub open spec fn unsigned_body(s: Seq<char>) -> Seq<char> {
    if s.len() > 0 && s[0] == '+' {
        s.drop_first()
    } else {
        s
    }
}

/// Reading a `u32` from text: an optional `+`, then one or more decimal
/// digits, the value within range; anything else does not read.
pub open spec fn spec_parse_u32(s: Seq<char>) -> Option<u32> {
    let body = unsigned_body(s);
    if body.len() == 0 || !(forall|i: int| 0 <= i < body.len() ==> #[trigger] is_ascii_digit(body[i])) || digits_value(
        body,
    ) > u32::MAX {
        None
    } else {
        Some(digits_value(body) as u32)
    }
}

proof fn lemma_digits_value_grows(s: Seq<char>, n: int)
    requires
        0 <= n <= s.len(),
        forall|i: int| 0 <= i < s.len() ==> #[trigger] is_ascii_digit(s[i]),
    ensures
        digits_value(s.take(n)) <= digits_value(s),
    decreases s.len() - n,
{
    if n < s.len() {
        lemma_digits_value_grows(s, n + 1);
        assert(s.take(n + 1).drop_last() =~= s.take(n));
    } else {
        assert(s.take(n) =~= s);
    }
}

/// Reads a `u32` written in decimal.
pub fn parse_u32(s: &str) -> (r: Option<u32>)
    ensures
        r == spec_parse_u32(s@),
{
    let cs = chars_of(s);
    let start: usize = if cs.len() > 0 && cs[0] == '+' {
        1
    } else {
        0
    };
    let ghost body = unsigned_body(s@);
    assert(body =~= cs@.skip(start as int));
    if start >= cs.len() {
        return None;
    }
    let mut value: u64 = 0;
    let mut i: usize = start;
    while i < cs.len()
        invariant
            start <= i <= cs@.len(),
            cs@ == s@,
            body == cs@.skip(start as int),
            body == unsigned_body(s@),
            body.len() > 0,
            forall|k: int| 0 <= k < i - start ==> #[trigger] is_ascii_digit(body[k]),
            value == digits_value(body.take(i - start)),
            value <= u32::MAX,
        decreases cs.len() - i,
    {
        let c = cs[i];
        assert(body[i - start] == c);
        if !('0' <= c && c <= '9') {
            assert(!is_ascii_digit(body[i - start]));
            return None;
        }
        let d = (c as u32) - ('0' as u32);
        let ghost next = body.take(i + 1 - start);
        assert(next.drop_last() =~= body.take(i - start));
        assert(next.last() == c);
        assert(digits_value(next) == value * 10 + d);
        value = value * 10 + d as u64;
        if value > u32::MAX as u64 {
            proof {
                if forall|m: int| 0 <= m < body.len() ==> #[trigger] is_ascii_digit(body[m]) {
                    lemma_digits_value_grows(body, i + 1 - start);
                }
            }
            return None;
        }
        i = i + 1;
    }
    assert(body.take(i - start) =~= body);
    Some(value as u32)
}

proof fn lemma_digit_char(d: int)
    requires
        0 <= d < 10,
    ensures
        is_ascii_digit(digit_char(d)),
        (digit_char(d) as u32) - ('0' as u32) == d,
{
    let b: u8 = (48 + d) as u8;
    assert(b == 48 + d);
    assert((b as char) as u32 == b);
}

proof fn lemma_decimal_reads_back(n: nat)
    ensures
        spec_decimal(n).len() > 0,
        forall|i: int| 0 <= i < spec_decimal(n).len() ==> #[trigger] is_ascii_digit(spec_decimal(n)[i]),
        digits_value(spec_decimal(n)) == n,
    decreases n,
{
    if n < 10 {
        lemma_digit_char(n as int);
        let s = spec_decimal(n);
        assert(s.drop_last() =~= Seq::<char>::empty());
        assert(s.last() == digit_char(n as int));
        assert(digits_value(s) == digits_value(s.drop_last()) * 10 + ((s.last() as u32) - ('0' as u32)) as nat);
    } else {
        lemma_digit_char((n % 10) as int);
        lemma_decimal_reads_back(n / 10);
        let s = spec_decimal(n);
        assert(s.drop_last() =~= spec_decimal(n / 10));
        assert(s.last() == digit_char((n % 10) as int));
        assert((n / 10) * 10 + n % 10 == n) by (nonlinear_arith);
        assert forall|i: int| 0 <= i < s.len() implies #[trigger] is_ascii_digit(s[i]) by {
            if i < s.len() - 1 {
                assert(s[i] == spec_decimal(n / 10)[i]);
            }
        }
    }
}

/// A village id written in decimal, as the session cookie stores it, reads
/// back as the same id.
pub proof fn lemma_village_cookie_round_trip(id: u32)
    ensures
        spec_parse_u32(spec_decimal(id as nat)) == Some(id),
{
    lemma_decimal_reads_back(id as nat);
    let s = spec_decimal(id as nat);
    assert(is_ascii_digit(s[0]));
    assert(unsigned_body(s) == s);
}

/// Reading a `u8` from text: as a `u32`, then within range.
pub open spec fn spec_parse_u8(s: Seq<char>) -> Option<u8> {
    match spec_parse_u32(s) {
        Some(v) => if v <= u8::MAX {
            Some(v as u8)
        } else {
            None
        },
        None => None,
    }
}

/// Reads a `u8` written in decimal.
pub fn parse_u8(s: &str) -> (r: Option<u8>)
    ensures
        r == spec_parse_u8(s@),
{
    match parse_u32(s) {
        Some(v) => if v <= 255 {
            Some(v as u8)
        } else {
            None
        },
        None => None,
    }
}

/// Reading an `i32` from text: a `-` followed by the digits of a magnitude
/// up to 2^31, or else what reads as a `u32` up to `i32::MAX` (an optional
/// `+`, then digits).
pub open spec fn spec_parse_i32(s: Seq<char>) -> Option<i32> {
    if s.len() > 0 && s[0] == '-' {
        let body = s.drop_first();
        if body.len() > 0 && body[0] == '+' {
            None
        } else {
            match spec_parse_u32(body) {
                Some(v) => if v <= 2147483648 {
                    Some((-(v as int)) as i32)
                } else {
                    None
                },
                None => None,
            }
        }
    } else {
        match spec_parse_u32(s) {
            Some(v) => if v <= i32::MAX {
                Some(v as i32)
            } else {
                None
            },
            None => None,
        }
    }
}

/// Reads an `i32` written in decimal.
pub fn parse_i32(s: &str) -> (r: Option<i32>)
    ensures
        r == spec_parse_i32(s@),
{
    let cs = chars_of(s);
    if cs.len() > 0 && cs[0] == '-' {
        if cs.len() > 1 && cs[1] == '+' {
            return None;
        }
        let body = string_from_chars(&cs.as_slice()[1..cs.len()]);
        assert(body@ =~= s@.drop_first());
        match parse_u32(body.as_str()) {
            Some(v) => if v <= 2147483648 {
                let neg: i64 = -(v as i64);
                Some(neg as i32)
            } else {
                None
            },
            None => None,
        }
    } else {
        match parse_u32(s) {
            Some(v) => if v <= 2147483647 {
                Some(v as i32)
            } else {
                None
            },
            None => None,
        }
    }
}

/// The village named by the session cookie, when it is one of the player's.
pub open spec fn is_cookie_village(villages: Seq<Village>, id: u32, player_id: u128, i: int) -> bool {
    &&& 0 <= i < villages.len()
    &&& villages[i].id == id && villages[i].player_id == player_id
    &&& forall|j: int| 0 <= j < i ==> !(#[trigger] villages[j].id == id && villages[j].player_id == player_id)
}

/// Finds the village named by the session cookie among the player's villages.
pub fn village_from_cookie(cookie: Option<&str>, villages: &Vec<Village>, player_id: u128) -> (r: Option<usize>)
    ensures
        match cookie {
            None => r is None,
            Some(c) => match spec_parse_u32(c@) {
                None => r is None,
                Some(id) => match r {
                    Some(i) => is_cookie_village(villages@, id, player_id, i as int),
                    None => forall|j: int|
                        0 <= j < villages@.len() ==> !(#[trigger] villages@[j].id == id && villages@[j].player_id
                            == player_id),
                },
            },
        },
{
    let id = match cookie {
        Some(c) => match parse_u32(c) {
            Some(id) => id,
            None => return None,
        },
        None => return None,
    };
    let mut i: usize = 0;
    while i < villages.len()
        invariant
            i <= villages@.len(),
            cookie matches Some(c) && spec_parse_u32(c@) == Some(id),
            forall|j: int| 0 <= j < i ==> !(#[trigger] villages@[j].id == id && villages@[j].player_id == player_id),
        decreases villages.len() - i,
    {
        if villages[i].id == id && villages[i].player_id == player_id {
            return Some(i);
        }
        i = i + 1;
    }
    None
}

/// The session cookie names one of the player's villages.
pub open spec fn cookie_names_village(cookie: Option<&str>, villages: Seq<Village>, player_id: u128) -> bool {
    cookie matches Some(c) && (spec_parse_u32(c@) matches Some(id) && exists|j: int|
        0 <= j < villages.len() && #[trigger] villages[j].id == id && villages[j].player_id == player_id)
}

/// The current village of a session: the one named by the cookie when it is
/// the player's, else the one a session starts in.
pub fn select_current_village(cookie: Option<&str>, villages: &Vec<Village>, player_id: u128) -> (r: Option<usize>)
    ensures
        cookie_names_village(cookie, villages@, player_id) ==> (r matches Some(i) && exists|id: u32|
            is_cookie_village(villages@, id, player_id, i as int) && (cookie matches Some(c) && spec_parse_u32(c@)
                == Some(id))),
        !cookie_names_village(cookie, villages@, player_id) ==> (r is None <==> villages@.len() == 0),
        !cookie_names_village(cookie, villages@, player_id) ==> (r matches Some(i) ==> is_active_pick(
            villages@,
            i as int,
        )),
{
    match village_from_cookie(cookie, villages, player_id) {
        Some(i) => Some(i),
        None => pick_active_village(villages),
    }
}

} // verus!
