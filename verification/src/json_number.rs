//! Reading a JSON number (or a number written as text) as millionths: the
//! decimal value, rounded down to six decimals.
use vstd::prelude::*;
use crate::json::{JsonValue, JsonView};
use crate::text::{chars_of, is_ascii_digit, digits_value, pow10, lemma_pow10_monotone};

verus! {

broadcast use vstd::string::group_string_axioms;

/// The end of the run of ASCII digits that starts at `i`.
pub open spec fn digit_run_end(t: Seq<char>, i: int) -> int
    decreases t.len() - i,
{
    if 0 <= i < t.len() && is_ascii_digit(t[i]) {
        digit_run_end(t, i + 1)
    } else {
        i
    }
}

/// The pieces of a decimal number text: its sign, its digits (whole and
/// fractional, concatenated), how many are fractional, and its decimal
/// exponent. A number text is an optional sign, digits with an optional
/// point (at least one digit in all), and an optional exponent (`e` or `E`,
/// an optional sign, one or two digits); at most 36 digits before the
/// exponent.
pub open spec fn spec_decimal_parts(t: Seq<char>) -> Option<(bool, Seq<char>, nat, int)> {
    let signed = t.len() > 0 && (t[0] == '-' || t[0] == '+');
    let neg = t.len() > 0 && t[0] == '-';
    let a: int = if signed { 1 } else { 0 };
    let b = digit_run_end(t, a);
    let has_point = b < t.len() && t[b] == '.';
    let c: int = if has_point { b + 1 } else { b };
    let d = if has_point { digit_run_end(t, c) } else { b };
    let digits = t.subrange(a, b) + t.subrange(c, d);
    if digits.len() == 0 || digits.len() > 36 {
        None
    } else {
        match spec_exponent(t, d) {
            None => None,
            Some(e) => Some((neg, digits, (d - c) as nat, e)),
        }
    }
}

/// The exponent that follows the digits, which end at `d`: zero where the
/// text ends there; else `e` or `E`, an optional sign and one or two digits
/// that end the text.
pub open spec fn spec_exponent(t: Seq<char>, d: int) -> Option<int> {
    if d == t.len() {
        Some(0)
    } else if 0 <= d < t.len() && (t[d] == 'e' || t[d] == 'E') {
        let f = d + 1;
        let exp_signed = f < t.len() && (t[f] == '-' || t[f] == '+');
        let exp_neg = f < t.len() && t[f] == '-';
        let g: int = if exp_signed { f + 1 } else { f };
        let h = digit_run_end(t, g);
        if h == g || h != t.len() || h - g > 2 {
            None
        } else {
            let e = digits_value(t.subrange(g, h)) as int;
            Some(if exp_neg { -e } else { e })
        }
    } else {
        None
    }
}

/// The number `m * 10^(exp - frac + 6)` as a whole number: rounded down,
/// or up where `up`.
pub open spec fn scaled_micros(m: nat, frac: nat, exp: int, up: bool) -> nat {
    let k = exp - frac + 6;
    if k >= 0 {
        m * pow10(k as nat)
    } else {
        let p = pow10((-k) as nat);
        if up && m % p != 0 { m / p + 1 } else { m / p }
    }
}

/// A number text in millionths, rounded down (toward negative infinity);
/// `None` for a text that is no number, or whose value does not fit `i64`
/// millionths. Rounding down keeps `x < c` and `x >= c` exact against a
/// whole number `c` of millionths.
pub open spec fn spec_text_micros(t: Seq<char>) -> Option<i64> {
    match spec_decimal_parts(t) {
        None => None,
        Some((neg, digits, frac, exp)) => {
            let u = scaled_micros(digits_value(digits), frac, exp, neg);
            if u > 0x7fff_ffff_ffff_ffff {
                None
            } else if neg {
                Some(-(u as int) as i64)
            } else {
                Some(u as i64)
            }
        },
    }
}

/// A JSON number in millionths; anything but a number gives `None`.
pub open spec fn spec_number_micros(v: JsonView) -> Option<i64> {
    match v {
        JsonView::Int(i) => if -0x7fff_ffff_ffff_ffff <= i * 1_000_000 <= 0x7fff_ffff_ffff_ffff { Some((i * 1_000_000) as i64) } else { None },
        JsonView::Float(t) => spec_text_micros(t),
        _ => None,
    }
}

/// A JSON number, or a number written as text, in millionths.
pub open spec fn spec_json_micros(v: JsonView) -> Option<i64> {
    match v {
        JsonView::Str(t) => spec_text_micros(t),
        _ => spec_number_micros(v),
    }
}

fn digit_run_end_of(t: &Vec<char>, i: usize) -> (r: usize)
    requires
        i <= t.len(),
    ensures
        r as int == digit_run_end(t@, i as int),
        i <= r <= t.len(),
        forall|k: int| i <= k < r ==> is_ascii_digit(#[trigger] t@[k]),
{
    let mut j: usize = i;
    while j < t.len() && '0' <= t[j] && t[j] <= '9'
        invariant
            i <= j <= t.len(),
            digit_run_end(t@, i as int) == digit_run_end(t@, j as int),
            forall|k: int| i <= k < j ==> is_ascii_digit(#[trigger] t@[k]),
        decreases t.len() - j,
    {
        j = j + 1;
    }
    assert(!(0 <= j < t@.len() && is_ascii_digit(t@[j as int])));
    assert(digit_run_end(t@, j as int) == j as int);
    j
}

/// The value of at most 36 ASCII digits.
fn digits_i128(v: &Vec<char>) -> (r: u128)
    requires
        forall|k: int| 0 <= k < v@.len() ==> is_ascii_digit(#[trigger] v@[k]),
        v.len() <= 36,
    ensures
        r as nat == digits_value(v@),
        (r as nat) < pow10(v.len() as nat),
        (r as nat) < pow10(36),
{
    let mut value: u128 = 0;
    let mut i: usize = 0;
    proof {
        assert(pow10(36) == 1_000_000_000_000_000_000_000_000_000_000_000_000) by { reveal_with_fuel(pow10, 37); }
    }
    while i < v.len()
        invariant
            i <= v.len() <= 36,
            forall|k: int| 0 <= k < v@.len() ==> is_ascii_digit(#[trigger] v@[k]),
            value as nat == digits_value(v@.subrange(0, i as int)),
            (value as nat) < pow10(i as nat),
            pow10(36) == 1_000_000_000_000_000_000_000_000_000_000_000_000,
        decreases v.len() - i,
    {
        let c = v[i];
        assert(is_ascii_digit(v@[i as int]));
        let d: u128 = ((c as u32) - 48) as u128;
        proof {
            let p = v@.subrange(0, i + 1);
            assert(p.drop_last() =~= v@.subrange(0, i as int));
            assert(p.last() == c);
            lemma_pow10_monotone((i + 1) as nat, 36);
            let pv = pow10(i as nat);
            assert(pow10((i + 1) as nat) == 10 * pv);
            assert((value as nat) * 10 + (d as nat) < 10 * pv) by (nonlinear_arith)
                requires (value as nat) < pv, d < 10;
        }
        value = value * 10 + d;
        i = i + 1;
    }
    assert(v@.subrange(0, v.len() as int) =~= v@);
    proof { lemma_pow10_monotone(v.len() as nat, 36); }
    value
}

fn copy_range(t: &Vec<char>, from: usize, to: usize, out: &mut Vec<char>)
    requires
        from <= to <= t.len(),
    ensures
        final(out)@ == old(out)@ + t@.subrange(from as int, to as int),
{
    let ghost start = out@;
    let mut i: usize = from;
    while i < to
        invariant
            from <= i <= to <= t.len(),
            out@ == start + t@.subrange(from as int, i as int),
        decreases to - i,
    {
        out.push(t[i]);
        assert(t@.subrange(from as int, i + 1) =~= t@.subrange(from as int, i as int).push(t@[i as int]));
        i = i + 1;
    }
}

/// `m * 10^k` when it fits `i64`, else `None` (for `m > 0`).
fn scale_up(m: u128, k: u32) -> (r: Option<u64>)
    ensures
        match r {
            Some(v) => v as nat == m * pow10(k as nat) && v <= 0x7fff_ffff_ffff_ffff,
            None => m * pow10(k as nat) > 0x7fff_ffff_ffff_ffff,
        },
{
    let mut value: u128 = m;
    let mut j: u32 = 0;
    assert(pow10(0) == 1);
    while j < k
        invariant
            j <= k,
            value as nat == m * pow10(j as nat),
        decreases k - j,
    {
        if value > 0x7fff_ffff_ffff_ffff {
            proof {
                lemma_pow10_monotone(j as nat, k as nat);
                assert(m * pow10(j as nat) <= m * pow10(k as nat)) by (nonlinear_arith)
                    requires pow10(j as nat) <= pow10(k as nat);
            }
            return None;
        }
        proof {
            assert(pow10((j + 1) as nat) == 10 * pow10(j as nat));
            assert(m * pow10((j + 1) as nat) == 10 * (m * pow10(j as nat))) by (nonlinear_arith)
                requires pow10((j + 1) as nat) == 10 * pow10(j as nat);
        }
        value = value * 10;
        j = j + 1;
    }
    if value > 0x7fff_ffff_ffff_ffff {
        return None;
    }
    Some(value as u64)
}

/// `10^k` for `k` up to 38.
fn pow10_u128(k: u32) -> (r: u128)
    requires
        k <= 38,
    ensures
        r as nat == pow10(k as nat),
        r > 0,
{
    proof {
        assert(pow10(38) == 100_000_000_000_000_000_000_000_000_000_000_000_000) by { reveal_with_fuel(pow10, 39); }
    }
    let mut value: u128 = 1;
    let mut j: u32 = 0;
    assert(pow10(0) == 1);
    while j < k
        invariant
            j <= k <= 38,
            value as nat == pow10(j as nat),
            value > 0,
            pow10(38) == 100_000_000_000_000_000_000_000_000_000_000_000_000,
        decreases k - j,
    {
        proof {
            lemma_pow10_monotone((j + 1) as nat, 38);
            assert(pow10((j + 1) as nat) == 10 * pow10(j as nat));
        }
        value = value * 10;
        j = j + 1;
    }
    value
}

/// The pieces of a number text (see `spec_decimal_parts`), the exponent
/// as a signed integer.
fn decimal_parts_of(t: &Vec<char>) -> (r: Option<(bool, Vec<char>, usize, i64)>)
    ensures
        match r {
            None => spec_decimal_parts(t@) is None,
            Some((neg, digits, frac, exp)) => {
                &&& spec_decimal_parts(t@) == Some((neg, digits@, frac as nat, exp as int))
                &&& 0 < digits.len() <= 36
                &&& frac <= digits.len()
                &&& -99 <= exp <= 99
                &&& forall|k: int| 0 <= k < digits@.len() ==> is_ascii_digit(#[trigger] digits@[k])
            },
        },
{
    let n = t.len();
    let signed = n > 0 && (t[0] == '-' || t[0] == '+');
    let neg = n > 0 && t[0] == '-';
    let a: usize = if signed { 1 } else { 0 };
    let b = digit_run_end_of(t, a);
    let has_point = b < n && t[b] == '.';
    let c: usize = if has_point { b + 1 } else { b };
    let d: usize = if has_point { digit_run_end_of(t, c) } else { b };
    let mut digits: Vec<char> = Vec::new();
    copy_range(t, a, b, &mut digits);
    copy_range(t, c, d, &mut digits);
    assert(digits@ =~= t@.subrange(a as int, b as int) + t@.subrange(c as int, d as int));
    if digits.len() == 0 || digits.len() > 36 {
        return None;
    }
    proof {
        assert forall|k: int| 0 <= k < digits@.len() implies is_ascii_digit(#[trigger] digits@[k]) by {
            if k < b - a {
                assert(digits@[k] == t@[a + k]);
            } else {
                assert(digits@[k] == t@[c + (k - (b - a))]);
            }
        }
    }
    let frac: usize = d - c;
    match exponent_of(t, d) {
        None => None,
        Some(e) => Some((neg, digits, frac, e)),
    }
}

/// The exponent after the digits that end at `d` (see `spec_exponent`).
fn exponent_of(t: &Vec<char>, d: usize) -> (r: Option<i64>)
    requires
        d <= t.len(),
    ensures
        match r {
            None => spec_exponent(t@, d as int) is None,
            Some(e) => spec_exponent(t@, d as int) == Some(e as int) && -99 <= e <= 99,
        },
{
    let n = t.len();
    if d == n {
        return Some(0);
    }
    if !(t[d] == 'e' || t[d] == 'E') {
        return None;
    }
    let f = d + 1;
    let exp_signed = f < n && (t[f] == '-' || t[f] == '+');
    let exp_neg = f < n && t[f] == '-';
    let g: usize = if exp_signed { f + 1 } else { f };
    let h = digit_run_end_of(t, g);
    if h == g || h != n || h - g > 2 {
        return None;
    }
    let mut ed: Vec<char> = Vec::new();
    copy_range(t, g, h, &mut ed);
    assert(ed@ =~= t@.subrange(g as int, h as int));
    assert(forall|k: int| 0 <= k < ed@.len() ==> #[trigger] ed@[k] == t@[g + k]);
    let ev = digits_i128(&ed);
    proof {
        lemma_pow10_monotone(ed.len() as nat, 2);
        assert(pow10(2) == 100) by { reveal_with_fuel(pow10, 3); }
        assert(ev < 100);
    }
    let v: i64 = ev as i64;
    if exp_neg { Some(0 - v) } else { Some(v) }
}

/// `m * 10^k` as a whole number (for a negative `k` rounded down, or up
/// where `up`) when it fits `i64`; `None` when it does not.
fn scaled_to_i64(m: u128, k: i64, up: bool) -> (r: Option<u64>)
    requires
        -200 <= k <= 200,
        (m as nat) < pow10(36),
    ensures
        ({
            let v: nat = if k >= 0 {
                (m as nat) * pow10(k as nat)
            } else {
                let p = pow10((-k) as nat);
                if up && (m as nat) % p != 0 { (m as nat) / p + 1 } else { (m as nat) / p }
            };
            match r {
                Some(x) => x as nat == v && x <= 0x7fff_ffff_ffff_ffff,
                None => v > 0x7fff_ffff_ffff_ffff,
            }
        }),
{
    if k >= 0 {
        return scale_up(m, k as u32);
    }
    let j: u32 = (0 - k) as u32;
    if j > 38 {
        proof {
            lemma_pow10_monotone(36, j as nat);
            let p = pow10(j as nat);
            vstd::arithmetic::div_mod::lemma_basic_div_specific_divisor(p as int);
            vstd::arithmetic::div_mod::lemma_small_mod(m as nat, p);
        }
        if up && m > 0 { Some(1) } else { Some(0) }
    } else {
        let p = pow10_u128(j);
        let q = m / p;
        let rem = m % p;
        proof {
            vstd::arithmetic::div_mod::lemma_div_is_ordered_by_denominator(m as int, 1, p as int);
            assert(pow10(36) == 1_000_000_000_000_000_000_000_000_000_000_000_000) by { reveal_with_fuel(pow10, 37); }
            assert(q <= m);
        }
        let v: u128 = if up && rem != 0 { q + 1 } else { q };
        if v > 0x7fff_ffff_ffff_ffff {
            None
        } else {
            Some(v as u64)
        }
    }
}

/// A number text in millionths (see `spec_text_micros`).
pub fn text_micros(text: &str) -> (r: Option<i64>)
    ensures
        r == spec_text_micros(text@),
{
    let t = chars_of(text);
    let parts = decimal_parts_of(&t);
    match parts {
        None => None,
        Some((neg, digits, frac, exp)) => {
            let m = digits_i128(&digits);
            let k: i64 = exp - (frac as i64) + 6;
            match scaled_to_i64(m, k, neg) {
                None => None,
                Some(u) => {
                    if neg {
                        Some(0 - (u as i64))
                    } else {
                        Some(u as i64)
                    }
                },
            }
        },
    }
}

/// A JSON number in millionths (see `spec_number_micros`).
pub fn number_micros(v: &JsonValue) -> (r: Option<i64>)
    ensures
        r == spec_number_micros(v@),
{
    match v {
        JsonValue::Int(i) => {
            let x: i128 = (*i as i128) * 1_000_000;
            if -0x7fff_ffff_ffff_ffff <= x && x <= 0x7fff_ffff_ffff_ffff { Some(x as i64) } else { None }
        },
        JsonValue::UInt(u) => {
            let x: u128 = (*u as u128) * 1_000_000;
            if x <= 0x7fff_ffff_ffff_ffff { Some(x as i64) } else { None }
        },
        JsonValue::Float(t) => text_micros(t.as_str()),
        _ => None,
    }
}

/// A JSON number, or a number written as text, in millionths (see
/// `spec_json_micros`).
pub fn json_micros(v: &JsonValue) -> (r: Option<i64>)
    ensures
        r == spec_json_micros(v@),
{
    match v {
        JsonValue::Str(t) => text_micros(t.as_str()),
        _ => number_micros(v),
    }
}

} // verus!
