//! Fixed-point amounts (millionths) written as JSON numbers.
use vstd::prelude::*;
use crate::json::{JsonValue, JsonView};
use crate::text::{nat_decimal, digit_char, u64_decimal, u128_decimal, string_from_chars};

verus! {

/// Millionths in one unit.
pub const MICROS_PER_UNIT: i64 = 1_000_000;

/// The six digits of `n < 1_000_000`, zero-padded.
pub open spec fn six_digits(n: nat) -> Seq<char> {
    seq![
        digit_char((n / 100_000) % 10),
        digit_char((n / 10_000) % 10),
        digit_char((n / 1_000) % 10),
        digit_char((n / 100) % 10),
        digit_char((n / 10) % 10),
        digit_char(n % 10),
    ]
}

/// The decimal text of `v` millionths: sign, whole part, point, six digits
/// (`870_000` is `0.870000`, `-2_000_000` is `-2.000000`).
pub open spec fn spec_micros_text(v: int) -> Seq<char> {
    let u: nat = if v < 0 { (-v) as nat } else { v as nat };
    let body = nat_decimal(u / 1_000_000) + seq!['.'] + six_digits(u % 1_000_000);
    if v < 0 { seq!['-'] + body } else { body }
}

fn digit_of(d: u64) -> (c: char)
    requires
        d < 10,
    ensures
        c == digit_char(d as nat),
{
    ((d as u8) + 48u8) as char
}

/// The decimal text of an amount in millionths.
pub fn micros_text(v: i64) -> (r: String)
    ensures
        r@ == spec_micros_text(v as int),
{
    let u: u64 = if v < 0 { (0i128 - (v as i128)) as u64 } else { v as u64 };
    let mut out: Vec<char> = Vec::new();
    if v < 0 {
        out.push('-');
    }
    let whole = u64_decimal(u / 1_000_000);
    let ghost start = out@;
    let mut i: usize = 0;
    while i < whole.len()
        invariant
            i <= whole.len(),
            out@ == start + whole@.subrange(0, i as int),
        decreases whole.len() - i,
    {
        out.push(whole[i]);
        assert(whole@.subrange(0, i + 1) =~= whole@.subrange(0, i as int).push(whole@[i as int]));
        i = i + 1;
    }
    assert(whole@.subrange(0, whole.len() as int) =~= whole@);
    let frac: u64 = u % 1_000_000;
    out.push('.');
    out.push(digit_of((frac / 100_000) % 10));
    out.push(digit_of((frac / 10_000) % 10));
    out.push(digit_of((frac / 1_000) % 10));
    out.push(digit_of((frac / 100) % 10));
    out.push(digit_of((frac / 10) % 10));
    out.push(digit_of(frac % 10));
    proof {
        let body = nat_decimal((u / 1_000_000) as nat) + seq!['.'] + six_digits(frac as nat);
        if v < 0 {
            assert(start =~= seq!['-']);
            assert(out@ =~= seq!['-'] + body);
        } else {
            assert(start =~= Seq::<char>::empty());
            assert(out@ =~= body);
        }
    }
    string_from_chars(&out)
}

/// An amount in millionths as a JSON number.
pub open spec fn micros_json(v: i64) -> JsonView {
    JsonView::Float(spec_micros_text(v as int))
}

/// An optional amount as a JSON number, or `null`.
pub open spec fn opt_micros_json(v: Option<i64>) -> JsonView {
    match v {
        Some(x) => micros_json(x),
        None => JsonView::Null,
    }
}

pub fn micros_value(v: i64) -> (r: JsonValue)
    ensures
        r@ == micros_json(v),
{
    JsonValue::Float(micros_text(v))
}

pub fn opt_micros_value(v: Option<i64>) -> (r: JsonValue)
    ensures
        r@ == opt_micros_json(v),
{
    match v {
        Some(x) => micros_value(x),
        None => JsonValue::Null,
    }
}

/// The decimal text of a wide amount in millionths (see `spec_micros_text`).
pub fn wide_micros_text(v: i128) -> (r: String)
    requires
        v > i128::MIN,
    ensures
        r@ == spec_micros_text(v as int),
{
    let u: u128 = if v < 0 { (0 - v) as u128 } else { v as u128 };
    let mut out: Vec<char> = Vec::new();
    if v < 0 {
        out.push('-');
    }
    let whole = u128_decimal(u / 1_000_000);
    let ghost start = out@;
    let mut i: usize = 0;
    while i < whole.len()
        invariant
            i <= whole.len(),
            out@ == start + whole@.subrange(0, i as int),
        decreases whole.len() - i,
    {
        out.push(whole[i]);
        assert(whole@.subrange(0, i + 1) =~= whole@.subrange(0, i as int).push(whole@[i as int]));
        i = i + 1;
    }
    assert(whole@.subrange(0, whole.len() as int) =~= whole@);
    let frac: u64 = (u % 1_000_000) as u64;
    out.push('.');
    out.push(digit_of((frac / 100_000) % 10));
    out.push(digit_of((frac / 10_000) % 10));
    out.push(digit_of((frac / 1_000) % 10));
    out.push(digit_of((frac / 100) % 10));
    out.push(digit_of((frac / 10) % 10));
    out.push(digit_of(frac % 10));
    proof {
        let body = nat_decimal((u / 1_000_000) as nat) + seq!['.'] + six_digits(frac as nat);
        if v < 0 {
            assert(start =~= seq!['-']);
            assert(out@ =~= seq!['-'] + body);
        } else {
            assert(start =~= Seq::<char>::empty());
            assert(out@ =~= body);
        }
    }
    string_from_chars(&out)
}

/// A wide amount in millionths as a JSON number.
pub open spec fn wide_micros_json(v: int) -> JsonView {
    JsonView::Float(spec_micros_text(v))
}

pub fn wide_micros_value(v: i128) -> (r: JsonValue)
    requires
        v > i128::MIN,
    ensures
        r@ == wide_micros_json(v as int),
{
    JsonValue::Float(wide_micros_text(v))
}

} // verus!
