//! Verified parsers for the numeric tokens that the query tool emits:
//! unsigned digit runs, signed integers, and decimal numerals.

use vstd::prelude::*;

use crate::chars::digit_check;
use crate::chars::digit_value;
use crate::chars::digit_value_of;
use crate::chars::is_digit;

verus! {

/// Largest magnitude a signed sixty-four bit value can carry on the
/// positive side.
pub const I64_MAX_MAG: u64 = 0x7fff_ffff_ffff_ffff;

/// Largest magnitude a signed sixty-four bit value can carry on the
/// negative side.
pub const I64_MIN_MAG: u64 = 0x8000_0000_0000_0000;

/// Every character of `s` is a decimal digit (true of the empty sequence).
pub open spec fn all_digits(s: Seq<char>) -> bool {
    forall|i: int| 0 <= i < s.len() ==> is_digit(#[trigger] s[i])
}

/// A non-empty run of decimal digits.
pub open spec fn is_digit_run(s: Seq<char>) -> bool {
    s.len() > 0 && all_digits(s)
}

/// Value of the digit run `s` appended to an accumulator `a`: the number
/// whose decimal digits are those of `a` followed by those of `s`.
pub open spec fn accum_val(a: nat, s: Seq<char>) -> nat
    decreases s.len(),
{
    if s.len() == 0 {
        a
    } else {
        accum_val(a, s.drop_last()) * 10 + digit_value(s.last())
    }
}

/// Numeric value of a run of decimal digits, most significant first.
pub open spec fn digits_val(s: Seq<char>) -> nat {
    accum_val(0, s)
}

/// Extending a digit run never lowers its accumulated value.
pub proof fn lemma_accum_monotone(a: nat, s: Seq<char>, j: int)
    requires
        0 <= j <= s.len(),
    ensures
        accum_val(a, s.take(j)) <= accum_val(a, s),
    decreases s.len(),
{
    if j < s.len() {
        assert(s.drop_last().take(j) =~= s.take(j));
        lemma_accum_monotone(a, s.drop_last(), j);
        assert(accum_val(a, s) == accum_val(a, s.drop_last()) * 10 + digit_value(s.last()));
        assert(accum_val(a, s.drop_last()) * 10 >= accum_val(a, s.drop_last())) by (nonlinear_arith);
    } else {
        assert(s.take(j) =~= s);
    }
}

/// Appending digits never lowers the value below the accumulator.
pub proof fn lemma_accum_lower(a: nat, s: Seq<char>)
    ensures
        accum_val(a, s) >= a,
    decreases s.len(),
{
    if s.len() > 0 {
        lemma_accum_lower(a, s.drop_last());
    }
}

/// Accumulating one concatenation equals accumulating its parts in turn.
pub proof fn lemma_accum_concat(a: nat, x: Seq<char>, y: Seq<char>)
    ensures
        accum_val(a, x + y) == accum_val(accum_val(a, x), y),
    decreases y.len(),
{
    if y.len() == 0 {
        assert(x + y =~= x);
    } else {
        lemma_accum_concat(a, x, y.drop_last());
        assert((x + y).drop_last() =~= x + y.drop_last());
        assert((x + y).last() == y.last());
    }
}

/// Parses the digits of `s` between `from` and `to`, continuing the
/// accumulator `acc0`; `None` on a non-digit or when the value cannot be
/// carried in sixty-four bits.
pub(crate) fn accum_digits(s: &str, from: usize, to: usize, acc0: u64) -> (r: Option<u64>)
    requires
        from <= to <= s@.len(),
    ensures
        r is Some <==> (all_digits(s@.subrange(from as int, to as int)) && accum_val(
            acc0 as nat,
            s@.subrange(from as int, to as int),
        ) <= u64::MAX),
        r is Some ==> r->0 == accum_val(acc0 as nat, s@.subrange(from as int, to as int)),
{
    let ghost whole = s@.subrange(from as int, to as int);
    let mut i: usize = from;
    let mut acc: u64 = acc0;
    while i < to
        invariant
            from <= i <= to <= s@.len(),
            all_digits(s@.subrange(from as int, i as int)),
            acc == accum_val(acc0 as nat, s@.subrange(from as int, i as int)),
            whole == s@.subrange(from as int, to as int),
        decreases to - i,
    {
        let c = s.get_char(i);
        let ghost pre = s@.subrange(from as int, i as int);
        let ghost ext = s@.subrange(from as int, i + 1 as int);
        proof {
            assert(ext.drop_last() =~= pre);
            assert(ext.last() == s@[i as int]);
            assert(ext =~= whole.take(i + 1 - from));
        }
        if !digit_check(c) {
            proof {
                assert(whole[i - from] == s@[i as int]);
            }
            return None;
        }
        let d = digit_value_of(c);
        if acc > (u64::MAX - d) / 10 {
            proof {
                assert(acc * 10 + d > u64::MAX) by (nonlinear_arith)
                    requires
                        acc > (u64::MAX - d) / 10,
                        d <= 9,
                ;
                assert(accum_val(acc0 as nat, ext) == acc * 10 + d);
                if all_digits(whole) && accum_val(acc0 as nat, whole) <= u64::MAX {
                    lemma_accum_monotone(acc0 as nat, whole, i + 1 - from);
                    assert(false);
                }
            }
            return None;
        }
        proof {
            assert(acc * 10 + d <= u64::MAX) by (nonlinear_arith)
                requires
                    acc <= (u64::MAX - d) / 10,
                    d <= 9,
            ;
        }
        acc = acc * 10 + d;
        i = i + 1;
    }
    proof {
        assert(s@.subrange(from as int, to as int) =~= whole);
    }
    Some(acc)
}

/// Parses a non-empty all-digit string as an unsigned value.
pub fn parse_u64(s: &str) -> (r: Option<u64>)
    ensures
        r is Some <==> (is_digit_run(s@) && digits_val(s@) <= u64::MAX),
        r is Some ==> r->0 == digits_val(s@),
{
    let len = s.unicode_len();
    if len == 0 {
        return None;
    }
    proof {
        assert(s@.subrange(0, len as int) =~= s@);
    }
    accum_digits(s, 0, len, 0)
}

/// The token starts with an explicit sign character.
pub open spec fn has_sign(s: Seq<char>) -> bool {
    s.len() > 0 && (s[0] == '-' || s[0] == '+')
}

/// The token denotes a negative number.
pub open spec fn is_neg(s: Seq<char>) -> bool {
    s.len() > 0 && s[0] == '-'
}

/// The token with its sign character, if any, removed.
pub open spec fn magnitude_part(s: Seq<char>) -> Seq<char> {
    if has_sign(s) {
        s.skip(1)
    } else {
        s
    }
}

/// A signed decimal integer that fits in a sixty-four bit signed word:
/// an optional sign followed by a non-empty run of digits, in range.
pub open spec fn is_i64_token(s: Seq<char>) -> bool {
    &&& is_digit_run(magnitude_part(s))
    &&& if is_neg(s) {
        digits_val(magnitude_part(s)) <= I64_MIN_MAG
    } else {
        digits_val(magnitude_part(s)) <= I64_MAX_MAG
    }
}

/// The signed value such a token denotes.
pub open spec fn i64_token_val(s: Seq<char>) -> int {
    if is_neg(s) {
        -(digits_val(magnitude_part(s)) as int)
    } else {
        digits_val(magnitude_part(s)) as int
    }
}

/// Parses a signed decimal integer token: an optional `+` or `-` sign
/// followed by digits, rejected when malformed or out of range.
pub fn parse_i64(s: &str) -> (r: Option<i64>)
    ensures
        r is Some <==> is_i64_token(s@),
        r is Some ==> r->0 == i64_token_val(s@),
{
    let len = s.unicode_len();
    if len == 0 {
        return None;
    }
    let first = s.get_char(0);
    let neg = first == '-';
    let start: usize = if neg || first == '+' {
        1
    } else {
        0
    };
    proof {
        assert(s@.subrange(start as int, len as int) =~= magnitude_part(s@));
    }
    if start == len {
        return None;
    }
    let mag = accum_digits(s, start, len, 0);
    match mag {
        Option::None => None,
        Option::Some(n) => {
            if neg {
                if n > I64_MIN_MAG {
                    None
                } else if n == I64_MIN_MAG {
                    Some(i64::MIN)
                } else {
                    Some(-(n as i64))
                }
            } else {
                if n > I64_MAX_MAG {
                    None
                } else {
                    Some(n as i64)
                }
            }
        },
    }
}

} // verus!
