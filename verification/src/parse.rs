//! Parsing of a combatant descriptor: a bare decimal number is a unit
//! stack, and two decimal numbers split by a comma (with one optional
//! space after it) are a hero's attack and health.

use vstd::prelude::*;

use crate::CombatError;
use crate::calculator::Combatant;
use crate::calculator::Hero;

verus! {

/// `c` is a decimal digit.
pub open spec fn is_digit(c: char) -> bool {
    '0' <= c && c <= '9'
}

/// All characters of `s` are decimal digits.
pub open spec fn all_digits(s: Seq<char>) -> bool {
    forall|i: int| 0 <= i < s.len() ==> is_digit(#[trigger] s[i])
}

/// The numeric value of the digit `c`.
pub open spec fn digit_val(c: char) -> int
    recommends
        is_digit(c),
{
    c as u32 - 48
}

/// The value of a digit string, most significant digit first.
pub open spec fn digits_val(s: Seq<char>) -> int
    recommends
        all_digits(s),
    decreases s.len(),
{
    if s.len() == 0 {
        0
    } else {
        digits_val(s.drop_last()) * 10 + digit_val(s.last())
    }
}

/// The index of the first comma of `s` at or after `i`, or `-1`.
pub open spec fn find_comma(s: Seq<char>, i: int) -> int
    decreases s.len() - i,
{
    if i < 0 || i >= s.len() {
        -1
    } else if s[i] == ',' {
        i
    } else {
        find_comma(s, i + 1)
    }
}

/// The text names a unit stack: no comma, one or more digits.
pub open spec fn units_form(s: Seq<char>) -> bool {
    find_comma(s, 0) < 0 && s.len() >= 1 && all_digits(s)
}

/// The attack digits of a hero descriptor: everything ahead of the comma.
pub open spec fn hero_attack_text(s: Seq<char>) -> Seq<char> {
    s.take(find_comma(s, 0))
}

/// The health digits of a hero descriptor: everything after the comma,
/// one optional space skipped.
pub open spec fn hero_health_text(s: Seq<char>) -> Seq<char> {
    let rest = s.skip(find_comma(s, 0) + 1);
    if rest.len() >= 1 && rest[0] == ' ' {
        rest.skip(1)
    } else {
        rest
    }
}

/// The text names a hero: digits, a comma, an optional single space, and
/// digits again.
pub open spec fn hero_form(s: Seq<char>) -> bool {
    &&& find_comma(s, 0) >= 1
    &&& all_digits(hero_attack_text(s))
    &&& hero_health_text(s).len() >= 1
    &&& all_digits(hero_health_text(s))
}

/// The texts the parser accepts: one of the two forms, with every number
/// small enough for an `i32`.
pub open spec fn parse_accepts(s: Seq<char>) -> bool {
    ||| units_form(s) && digits_val(s) <= i32::MAX
    ||| hero_form(s) && digits_val(hero_attack_text(s)) <= i32::MAX && digits_val(
        hero_health_text(s),
    ) <= i32::MAX
}

/// Law: a digit string's value is never negative.
pub proof fn lemma_digits_val_nonneg(s: Seq<char>)
    requires
        all_digits(s),
    ensures
        digits_val(s) >= 0,
    decreases s.len(),
{
    if s.len() > 0 {
        lemma_digits_val_nonneg(s.drop_last());
    }
}

/// Law: a digit string's value is at least the value of any of its
/// prefixes, so a prefix that is already too large decides rejection.
pub proof fn lemma_digits_val_prefix(s: Seq<char>, n: int)
    requires
        all_digits(s),
        0 <= n <= s.len(),
    ensures
        digits_val(s.take(n)) <= digits_val(s),
    decreases s.len() - n,
{
    if n < s.len() {
        lemma_digits_val_prefix(s, n + 1);
        assert(s.take(n + 1).drop_last() =~= s.take(n));
        assert(s.take(n + 1).last() == s[n]);
        assert(all_digits(s.take(n))) by {
            assert(forall|i: int| 0 <= i < n ==> s.take(n)[i] == s[i]);
        }
        lemma_digits_val_nonneg(s.take(n));
    } else {
        assert(s.take(n) =~= s);
    }
}

/// Parses the digit run `s[from..to]` as an `i32`: defined exactly when
/// the range is non-empty, all digits, and small enough.
fn parse_digits(s: &str, from: usize, to: usize) -> (r: Result<i32, CombatError>)
    requires
        from <= to <= s@.len(),
    ensures
        ({
            let sub = s@.subrange(from as int, to as int);
            &&& (r is Ok <==> sub.len() >= 1 && all_digits(sub) && digits_val(sub) <= i32::MAX)
            &&& (r matches Ok(v) ==> v as int == digits_val(sub))
            &&& (r is Err ==> r == Result::<i32, CombatError>::Err(CombatError::InvalidArgument))
        }),
{
    let ghost sub = s@.subrange(from as int, to as int);
    if from == to {
        return Err(CombatError::InvalidArgument);
    }
    let mut acc: i64 = 0;
    let mut i: usize = from;
    while i < to
        invariant
            from <= i <= to <= s@.len(),
            sub == s@.subrange(from as int, to as int),
            all_digits(sub.take(i - from)),
            acc as int == digits_val(sub.take(i - from)),
            0 <= acc <= i32::MAX,
        decreases to - i,
    {
        let c = s.get_char(i);
        proof {
            assert(sub[i - from] == s@[i as int]);
            assert(sub.take(i - from + 1).drop_last() =~= sub.take(i - from));
            assert(sub.take(i - from + 1).last() == sub[i - from]);
        }
        if !(c >= '0' && c <= '9') {
            proof {
                assert(!is_digit(sub[i - from]));
            }
            return Err(CombatError::InvalidArgument);
        }
        let d: i64 = (c as u32) as i64 - 48;
        acc = acc * 10 + d;
        i = i + 1;
        if acc > i32::MAX as i64 {
            proof {
                if all_digits(sub) {
                    lemma_digits_val_prefix(sub, i - from);
                }
            }
            return Err(CombatError::InvalidArgument);
        }
    }
    proof {
        assert(sub.take(to - from) =~= sub);
    }
    Ok(acc as i32)
}

/// Parses a combatant descriptor: `"<units>"` or `"<attack>, <health>"`
/// (the space optional). Anything else, and any number that does not fit
/// an `i32`, is an invalid argument.
pub fn parse_combatant(s: &str) -> (r: Result<Combatant, CombatError>)
    ensures
        r is Ok <==> parse_accepts(s@),
        units_form(s@) && digits_val(s@) <= i32::MAX ==> (r matches Ok(c) && c
            == Combatant::Units(digits_val(s@) as i32)),
        hero_form(s@) && digits_val(hero_attack_text(s@)) <= i32::MAX && digits_val(
            hero_health_text(s@),
        ) <= i32::MAX ==> (r matches Ok(c) && c == Combatant::Hero(
            Hero {
                attack: digits_val(hero_attack_text(s@)) as i32,
                health: digits_val(hero_health_text(s@)) as i32,
            },
        )),
        r is Err ==> r == Result::<Combatant, CombatError>::Err(CombatError::InvalidArgument),
{
    let len = s.unicode_len();
    let mut i: usize = 0;
    let mut comma: usize = len;
    let mut found = false;
    while i < len && !found
        invariant
            0 <= i <= len,
            len == s@.len(),
            !found ==> find_comma(s@, 0) == find_comma(s@, i as int),
            !found ==> comma == len,
            found ==> find_comma(s@, 0) == comma as int && comma < len,
        decreases len - i + if found {
            0int
        } else {
            1int
        },
    {
        let c = s.get_char(i);
        if c == ',' {
            comma = i;
            found = true;
        } else {
            i = i + 1;
        }
    }
    proof {
        if !found {
            assert(find_comma(s@, len as int) == -1);
        }
    }
    if !found {
        match parse_digits(s, 0, len) {
            Ok(v) => {
                proof {
                    assert(s@.subrange(0, len as int) =~= s@);
                }
                Ok(Combatant::Units(v))
            },
            Err(e) => {
                proof {
                    assert(s@.subrange(0, len as int) =~= s@);
                }
                Err(e)
            },
        }
    } else {
        let ghost k = find_comma(s@, 0);
        proof {
            assert(hero_attack_text(s@) =~= s@.subrange(0, comma as int));
        }
        let attack = match parse_digits(s, 0, comma) {
            Ok(v) => v,
            Err(e) => {
                return Err(e);
            },
        };
        let health_from: usize = if comma + 1 < len && s.get_char(comma + 1) == ' ' {
            comma + 2
        } else {
            comma + 1
        };
        proof {
            assert(s@.skip(k + 1) =~= s@.subrange(k + 1, len as int));
            if comma + 1 < len && s@[comma + 1] == ' ' {
                assert(s@.skip(k + 1).len() >= 1 && s@.skip(k + 1)[0] == ' ');
                assert(hero_health_text(s@) =~= s@.subrange(health_from as int, len as int));
            } else {
                if s@.skip(k + 1).len() >= 1 {
                    assert(s@.skip(k + 1)[0] == s@[k + 1]);
                }
                assert(hero_health_text(s@) =~= s@.subrange(health_from as int, len as int));
            }
        }
        let health = match parse_digits(s, health_from, len) {
            Ok(v) => v,
            Err(e) => {
                return Err(e);
            },
        };
        Ok(Combatant::Hero(Hero { attack, health }))
    }
}

impl core::str::FromStr for Combatant {
    type Err = CombatError;

    fn from_str(s: &str) -> Result<Combatant, CombatError> {
        parse_combatant(s)
    }
}

} // verus!
