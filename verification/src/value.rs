//! The value carried by a gauge: a signed decimal number kept exactly, as a
//! magnitude and a count of fractional digits, together with its verified
//! textual rendering.

use vstd::prelude::*;

use crate::chars::digit_char;
use crate::chars::digit_str;
use crate::num::I64_MIN_MAG;
use crate::num::accum_digits;
use crate::num::all_digits;
use crate::num::digits_val;
use crate::num::is_neg;
use crate::num::lemma_accum_concat;
use crate::num::lemma_accum_lower;
use crate::num::magnitude_part;
use crate::tokens::find;
use crate::tokens::lemma_find;

verus! {

/// Current value of one gauge series.  `mantissa` holds all decimal digits;
/// the last `scale` of them sit after the decimal point; `neg` carries the
/// sign.  Integer readings have `scale` zero.
#[derive(Clone, Copy, PartialEq, Eq, Structural, Debug)]
pub struct GaugeValue {
    pub neg: bool,
    pub mantissa: u64,
    pub scale: usize,
}

impl GaugeValue {
    /// Well-formed values never mark zero as negative.
    pub open spec fn wf(self) -> bool {
        self.neg ==> self.mantissa > 0
    }

    /// The value zero.
    pub open spec fn spec_zero() -> GaugeValue {
        GaugeValue { neg: false, mantissa: 0, scale: 0 }
    }

    /// Returns the value zero, the fallback reading.
    pub fn zero() -> (r: GaugeValue)
        ensures
            r == GaugeValue::spec_zero(),
            r.wf(),
    {
        GaugeValue { neg: false, mantissa: 0, scale: 0 }
    }

    /// The value of a signed integer reading.
    pub open spec fn spec_from_i64(v: i64) -> GaugeValue {
        if v < 0 {
            GaugeValue { neg: true, mantissa: (-(v as int)) as u64, scale: 0 }
        } else {
            GaugeValue { neg: false, mantissa: v as u64, scale: 0 }
        }
    }

    /// Wraps a signed integer reading.
    pub fn from_i64(v: i64) -> (r: GaugeValue)
        ensures
            r == GaugeValue::spec_from_i64(v),
            r.wf(),
    {
        if v < 0 {
            let m: u64 = if v == i64::MIN {
                I64_MIN_MAG
            } else {
                (-v) as u64
            };
            GaugeValue { neg: true, mantissa: m, scale: 0 }
        } else {
            GaugeValue { neg: false, mantissa: v as u64, scale: 0 }
        }
    }
}

/// Decimal digits of `n`, most significant first.
pub open spec fn u64_digits(n: nat) -> Seq<char>
    decreases n,
{
    if n < 10 {
        seq![digit_char(n)]
    } else {
        u64_digits(n / 10) + seq![digit_char(n % 10)]
    }
}

/// A run of `n` zero characters.
pub open spec fn zero_run(n: nat) -> Seq<char> {
    Seq::new(n, |i: int| '0')
}

/// Textual rendering of a gauge value: its digits with a decimal point
/// placed `scale` digits from the right, zero-padded when the magnitude is
/// short, and a leading minus sign on negative values.
pub open spec fn render_value(v: GaugeValue) -> Seq<char> {
    let ds = u64_digits(v.mantissa as nat);
    let body = if v.scale == 0 {
        ds
    } else if ds.len() > v.scale {
        ds.take(ds.len() - v.scale) + seq!['.'] + ds.skip(ds.len() - v.scale)
    } else {
        seq!['0', '.'] + zero_run((v.scale - ds.len()) as nat) + ds
    };
    if v.neg {
        seq!['-'] + body
    } else {
        body
    }
}

/// Appends the decimal digits of `n` to `out`.
pub fn push_u64(out: &mut String, n: u64)
    ensures
        final(out)@ == old(out)@ + u64_digits(n as nat),
    decreases n,
{
    if n < 10 {
        out.append(digit_str(n));
    } else {
        push_u64(out, n / 10);
        out.append(digit_str(n % 10));
        proof {
            assert(old(out)@ + u64_digits((n / 10) as nat) + seq![digit_char((n % 10) as nat)]
                =~= old(out)@ + (u64_digits((n / 10) as nat) + seq![digit_char((n % 10) as nat)]));
        }
    }
}

/// Appends the rendering of `v` to `out`.
pub fn push_value(out: &mut String, v: &GaugeValue)
    requires
        v.wf(),
    ensures
        final(out)@ == old(out)@ + render_value(*v),
{
    proof {
        reveal_strlit("-");
        reveal_strlit("0.");
        reveal_strlit(".");
        reveal_strlit("0");
    }
    if v.neg {
        out.append("-");
    }
    let ghost mid = out@;
    let mut ds = String::new();
    push_u64(&mut ds, v.mantissa);
    proof {
        assert(ds@ =~= u64_digits(v.mantissa as nat));
    }
    let dl = ds.as_str().unicode_len();
    if v.scale == 0 {
        out.append(ds.as_str());
    } else if dl > v.scale {
        let cut = dl - v.scale;
        out.append(ds.as_str().substring_char(0, cut));
        out.append(".");
        out.append(ds.as_str().substring_char(cut, dl));
    } else {
        out.append("0.");
        let mut k: usize = 0;
        let pad = v.scale - dl;
        while k < pad
            invariant
                k <= pad,
                out@ =~= mid + seq!['0', '.'] + zero_run(k as nat),
            decreases pad - k,
        {
            proof {
                reveal_strlit("0");
            }
            out.append("0");
            proof {
                assert(out@ =~= mid + seq!['0', '.'] + zero_run((k + 1) as nat));
            }
            k = k + 1;
        }
        out.append(ds.as_str());
    }
    proof {
        assert(out@ =~= old(out)@ + render_value(*v));
    }
}

/// The digits of a decimal numeral token, the decimal point dropped: for
/// the magnitude part `m`, either all of `m`, or the digits on both sides
/// of its first point.
pub open spec fn dec_digits(s: Seq<char>) -> Seq<char> {
    let m = magnitude_part(s);
    let d = find(m, '.');
    if d == -1 {
        m
    } else {
        m.take(d) + m.skip(d + 1)
    }
}

/// How many digits of the token stand after the decimal point.
pub open spec fn dec_scale(s: Seq<char>) -> nat {
    let m = magnitude_part(s);
    let d = find(m, '.');
    if d == -1 {
        0nat
    } else {
        (m.len() - d - 1) as nat
    }
}

/// A decimal numeral: an optional sign, then at least one digit with at
/// most one decimal point among the digits, the digit string small enough
/// to carry in sixty-four bits.  (A point with no digit on either side, or
/// any other character, is rejected.)
pub open spec fn is_dec_token(s: Seq<char>) -> bool {
    &&& dec_digits(s).len() > 0
    &&& all_digits(dec_digits(s))
    &&& digits_val(dec_digits(s)) <= u64::MAX
}

/// The gauge value a decimal numeral token denotes.
pub open spec fn dec_value(s: Seq<char>) -> GaugeValue {
    GaugeValue {
        neg: is_neg(s) && digits_val(dec_digits(s)) > 0,
        mantissa: digits_val(dec_digits(s)) as u64,
        scale: dec_scale(s) as usize,
    }
}

/// Parses a decimal numeral token, for the fields the query tool reports
/// with a fractional part.
#[verifier::rlimit(30)]
pub fn parse_dec(s: &str) -> (r: Option<GaugeValue>)
    ensures
        r is Some <==> is_dec_token(s@),
        r is Some ==> r->0 == dec_value(s@) && r->0.wf(),
{
    let len = s.unicode_len();
    if len == 0 {
        return None;
    }
    let first = s.get_char(0);
    let neg = first == '-';
    let start: usize = if neg || first == '+' {
        1
    } else {
        0
    };
    let ghost m = s@.subrange(start as int, len as int);
    proof {
        assert(magnitude_part(s@) =~= m);
    }
    if start == len {
        return None;
    }
    let mut j: usize = start;
    while j < len && s.get_char(j) != '.'
        invariant
            start <= j <= len,
            len == s@.len(),
            forall|k: int| start <= k < j ==> s@[k] != '.',
        decreases len - j,
    {
        j = j + 1;
    }
    proof {
        lemma_find(m, '.');
        assert(forall|k: int| 0 <= k < m.len() ==> m[k] == s@[start + k]);
    }
    if j == len {
        proof {
            if find(m, '.') != -1 {
                assert(s@[start + find(m, '.')] == '.');
                assert(false);
            }
        }
        match accum_digits(s, start, len, 0) {
            Option::None => None,
            Option::Some(n) => Some(GaugeValue { neg: neg && n > 0, mantissa: n, scale: 0 }),
        }
    } else {
        let ghost d = j - start;
        proof {
            assert(m[j - start] == s@[j as int]);
            assert(find(m, '.') == d);
            assert(m.take(d) =~= s@.subrange(start as int, j as int));
            assert(m.skip(d + 1) =~= s@.subrange(j + 1 as int, len as int));
        }
        if start == j && j + 1 == len {
            return None;
        }
        let ghost intp = m.take(d);
        let ghost frac = m.skip(d + 1);
        let ghost dd = dec_digits(s@);
        match accum_digits(s, start, j, 0) {
            Option::None => {
                proof {
                    if all_digits(dd) && digits_val(dd) <= u64::MAX {
                        assert(all_digits(intp)) by {
                            assert(forall|k: int| 0 <= k < intp.len() ==> dd[k] == intp[k]);
                        }
                        lemma_accum_concat(0, intp, frac);
                        lemma_accum_lower(digits_val(intp), frac);
                        assert(false);
                    }
                }
                None
            },
            Option::Some(a1) => {
                proof {
                    lemma_accum_concat(0, intp, frac);
                }
                match accum_digits(s, j + 1, len, a1) {
                    Option::None => {
                        proof {
                            if all_digits(dd) && digits_val(dd) <= u64::MAX {
                                assert(all_digits(frac)) by {
                                    assert(forall|k: int|
                                        0 <= k < frac.len() ==> dd[intp.len() + k] == frac[k]);
                                }
                                assert(false);
                            }
                        }
                        None
                    },
                    Option::Some(a2) => {
                        proof {
                            assert(all_digits(dd)) by {
                                assert(forall|k: int|
                                    0 <= k < dd.len() ==> dd[k] == (if k < intp.len() {
                                        intp[k]
                                    } else {
                                        frac[k - intp.len()]
                                    }));
                            }
                        }
                        let sc = len - (j + 1);
                        Some(GaugeValue { neg: neg && a2 > 0, mantissa: a2, scale: sc })
                    },
                }
            },
        }
    }
}

/// Renders a gauge value as a fresh string.
pub fn value_string(v: &GaugeValue) -> (r: String)
    requires
        v.wf(),
    ensures
        r@ == render_value(*v),
{
    let mut out = String::new();
    push_value(&mut out, v);
    out
}

} // verus!
