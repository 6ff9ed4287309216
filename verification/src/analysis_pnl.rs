//! The profit and loss of an analysis row, and how a sell fill is allocated
//! against the bought quantity. Amounts in millionths of a USDC, rounded to
//! cents; fill quantities in millionths of a share, allocated quantities in
//! hundredths; percentages in millionths of a percent, rounded to
//! hundredths of a percent. Rounding is half away from zero.
use vstd::prelude::*;

verus! {

/// `a / b` rounded to a whole number, half away from zero (`b > 0`).
pub open spec fn round_half_away(a: int, b: int) -> int {
    if a >= 0 { (2 * a + b) / (2 * b) } else { -((2 * (-a) + b) / (2 * b)) }
}

/// `a / b` rounded half away from zero, for any `a` but the least.
pub fn round_div(a: i128, b: i128) -> (r: i128)
    requires
        b >= 1,
        a > i128::MIN,
    ensures
        r == round_half_away(a as int, b as int),
{
    if b == 1 {
        proof {
            let x = a as int;
            if x >= 0 {
                assert((2 * x + 1) / 2 == x) by (nonlinear_arith) requires x >= 0;
            } else {
                assert((2 * (-x) + 1) / 2 == -x) by (nonlinear_arith) requires x < 0;
            }
        }
        return a;
    }
    if a >= 0 {
        let q = a / b;
        let m = a % b;
        proof {
            lemma_round_parts(a as int, b as int, q as int, m as int);
        }
        if m >= b - m { q + 1 } else { q }
    } else {
        let c = 0 - a;
        let q = c / b;
        let m = c % b;
        proof {
            lemma_round_parts(c as int, b as int, q as int, m as int);
        }
        if m >= b - m { 0 - (q + 1) } else { 0 - q }
    }
}

proof fn lemma_round_parts(a: int, b: int, q: int, m: int)
    requires
        a >= 0,
        b >= 2,
        q == a / b,
        m == a % b,
    ensures
        (2 * a + b) / (2 * b) == if 2 * m >= b { q + 1 } else { q },
        0 <= q <= a / 2,
{
    vstd::arithmetic::div_mod::lemma_fundamental_div_mod(a, b);
    assert(0 <= m < b);
    if 2 * m >= b {
        assert(2 * a + b == (q + 1) * (2 * b) + (2 * m - b)) by (nonlinear_arith)
            requires a == b * q + m;
        vstd::arithmetic::div_mod::lemma_fundamental_div_mod_converse(2 * a + b, 2 * b, q + 1, 2 * m - b);
    } else {
        assert(2 * a + b == q * (2 * b) + (2 * m + b)) by (nonlinear_arith)
            requires a == b * q + m;
        vstd::arithmetic::div_mod::lemma_fundamental_div_mod_converse(2 * a + b, 2 * b, q, 2 * m + b);
    }
    assert(0 <= q <= a / 2) by (nonlinear_arith)
        requires a == b * q + m, b >= 2, 0 <= m, a >= 0, q == a / b;
}

/// A rounded quotient is within one of the quotient.
pub proof fn lemma_round_bound(a: int, b: int)
    requires
        b >= 2,
    ensures
        (a >= 0 ==> 0 <= round_half_away(a, b) <= a / b + 1),
        (a < 0 ==> -((-a) / b + 1) <= round_half_away(a, b) <= 0),
{
    if a >= 0 {
        lemma_half_bound(a, b);
    } else {
        lemma_half_bound(-a, b);
    }
}

proof fn lemma_half_bound(a: int, b: int)
    requires
        a >= 0,
        b >= 2,
    ensures
        0 <= (2 * a + b) / (2 * b) <= a / b + 1,
{
    let q = a / b;
    let m = a % b;
    vstd::arithmetic::div_mod::lemma_fundamental_div_mod(a, b);
    lemma_round_parts(a, b, q, m);
}

/// An amount rounded to cents.
pub open spec fn spec_round_signed_qty(micros: int) -> int {
    round_half_away(micros, 10_000) * 10_000
}

/// An amount rounded to cents, half away from zero.
pub fn round_trade_builder_signed_qty(micros: i64) -> (r: i128)
    ensures
        r == spec_round_signed_qty(micros as int),
{
    round_div(micros as i128, 10_000) * 10_000
}

/// The profit and loss of a row.
pub struct AutoScopeAnalysisPnlBreakdown {
    pub buy_notional_usdc: i128,
    pub buy_fee_usdc: i128,
    pub cost_basis_usdc: i128,
    pub net_value_usdc: i128,
    pub row_pnl_usdc: i128,
    pub pnl_pct: Option<i128>,
}

/// The amounts are computed exactly in 128-bit arithmetic, which holds up
/// to a billion shares at up to a million USDC a share
/// (`within_exact_range`).
///
/// A row of `qty` shares bought at `notional_per_share` with
/// `fee_per_share` in fees and now worth `net_value`: the buy notional and
/// fee, the cost basis (their sum), the net value and the profit (net value
/// less cost basis), each rounded to cents from the exact amounts; and the
/// profit as a percentage of a positive cost basis, rounded to hundredths
/// of a percent.
pub open spec fn within_exact_range(qty: i64, notional_per_share: i64, fee_per_share: i64, net_value: i64) -> bool {
    &&& -1_000_000_000_000_000 <= qty <= 1_000_000_000_000_000
    &&& -1_000_000_000_000 <= notional_per_share <= 1_000_000_000_000
    &&& -1_000_000_000_000 <= fee_per_share <= 1_000_000_000_000
    &&& -1_000_000_000_000_000_000 <= net_value <= 1_000_000_000_000_000_000
}

pub open spec fn spec_pnl_breakdown(qty: i64, notional_per_share: i64, fee_per_share: i64, net_value: i64) -> AutoScopeAnalysisPnlBreakdown {
    let notional = qty * notional_per_share;
    let fee = qty * fee_per_share;
    let cost = notional + fee;
    let pnl = net_value * 1_000_000 - cost;
    AutoScopeAnalysisPnlBreakdown {
        buy_notional_usdc: (round_half_away(notional, 10_000_000_000) * 10_000) as i128,
        buy_fee_usdc: (round_half_away(fee, 10_000_000_000) * 10_000) as i128,
        cost_basis_usdc: (round_half_away(cost, 10_000_000_000) * 10_000) as i128,
        net_value_usdc: spec_round_signed_qty(net_value as int) as i128,
        row_pnl_usdc: (round_half_away(pnl, 10_000_000_000) * 10_000) as i128,
        pnl_pct: if cost > 0 { Some((round_half_away(pnl * 10_000, cost) * 10_000) as i128) } else { None },
    }
}

proof fn lemma_product_bound(a: int, b: int)
    requires
        -1_000_000_000_000_000 <= a <= 1_000_000_000_000_000,
        -1_000_000_000_000 <= b <= 1_000_000_000_000,
    ensures
        -1_000_000_000_000_000_000_000_000_000 <= a * b <= 1_000_000_000_000_000_000_000_000_000,
{
    assert(-1_000_000_000_000_000_000_000_000_000 <= a * b <= 1_000_000_000_000_000_000_000_000_000) by (nonlinear_arith)
        requires
            -1_000_000_000_000_000 <= a <= 1_000_000_000_000_000,
            -1_000_000_000_000 <= b <= 1_000_000_000_000;
}

pub fn trade_builder_analysis_pnl_breakdown(
    row_qty: i64,
    buy_notional_per_share: i64,
    buy_fee_per_share: i64,
    net_value_usdc: i64,
) -> (r: AutoScopeAnalysisPnlBreakdown)
    requires
        within_exact_range(row_qty, buy_notional_per_share, buy_fee_per_share, net_value_usdc),
    ensures
        r == spec_pnl_breakdown(row_qty, buy_notional_per_share, buy_fee_per_share, net_value_usdc),
{
    let q = row_qty as i128;
    proof {
        lemma_product_bound(q as int, buy_notional_per_share as int);
        lemma_product_bound(q as int, buy_fee_per_share as int);
    }
    let notional: i128 = q * (buy_notional_per_share as i128);
    let fee: i128 = q * (buy_fee_per_share as i128);
    let cost: i128 = notional + fee;
    let pnl: i128 = (net_value_usdc as i128) * 1_000_000 - cost;
    let pnl_pct = if cost > 0 {
        Some(round_div(pnl * 10_000, cost) * 10_000)
    } else {
        None
    };
    AutoScopeAnalysisPnlBreakdown {
        buy_notional_usdc: round_div(notional, 10_000_000_000) * 10_000,
        buy_fee_usdc: round_div(fee, 10_000_000_000) * 10_000,
        cost_basis_usdc: round_div(cost, 10_000_000_000) * 10_000,
        net_value_usdc: round_trade_builder_signed_qty(net_value_usdc),
        row_pnl_usdc: round_div(pnl, 10_000_000_000) * 10_000,
        pnl_pct,
    }
}

/// How a sell fill is allocated against what was bought: quantities in
/// hundredths of a share. The ratio is kept exact, as a fraction
/// `(numerator, denominator)` with a positive denominator.
pub struct AutoScopeAnalysisSellFillAllocation {
    pub allocated_qty: i64,
    pub ignored_qty: i64,
    pub allocation_ratio: (i64, i64),
    pub remaining_qty_after_exit: i64,
}

/// A quantity rounded to hundredths of a share, none when negative.
pub open spec fn share_hundredths(micro: int) -> int {
    if micro <= 0 { 0 } else { (micro + 5_000) / 10_000 }
}

/// A sell fill of `raw_sell_qty` against a buy of `buy_qty` of which
/// `allocated_sold_qty` was already sold (all in millionths of a share):
/// the sell, rounded to hundredths, counts up to what remains (rounded to
/// hundredths); the rest is ignored as a duplicate or oversold exit. The
/// ratio is the allocated share of the sell, exactly: allocated over sell
/// (`0 / 1` when nothing is sold); what remains after the exit is never
/// negative.
pub open spec fn spec_allocate_sell_fill(buy_qty: i64, allocated_sold_qty: i64, raw_sell_qty: i64) -> AutoScopeAnalysisSellFillAllocation {
    let sell = share_hundredths(raw_sell_qty as int);
    let remaining_before = share_hundredths(buy_qty - allocated_sold_qty);
    let allocated = if sell < remaining_before { sell } else { remaining_before };
    let ignored = sell - allocated;
    AutoScopeAnalysisSellFillAllocation {
        allocated_qty: allocated as i64,
        ignored_qty: ignored as i64,
        allocation_ratio: if sell > 0 { (allocated as i64, sell as i64) } else { (0i64, 1i64) },
        remaining_qty_after_exit: (remaining_before - allocated) as i64,
    }
}

fn hundredths_of(micro: i128) -> (r: i128)
    requires
        -0x1_0000_0000_0000_0000 <= micro <= 0x1_0000_0000_0000_0000,
    ensures
        r == share_hundredths(micro as int),
        0 <= r <= 0x10_0000_0000_0000,
{
    if micro <= 0 { 0 } else { (micro + 5_000) / 10_000 }
}

pub fn trade_builder_analysis_allocate_sell_fill(buy_qty: i64, allocated_sold_qty: i64, raw_sell_qty: i64) -> (r: AutoScopeAnalysisSellFillAllocation)
    ensures
        r == spec_allocate_sell_fill(buy_qty, allocated_sold_qty, raw_sell_qty),
        r.allocation_ratio.1 > 0,
        0 <= r.allocation_ratio.0 <= r.allocation_ratio.1,
        r.allocation_ratio.0 == 0 <==> r.allocated_qty == 0,
{
    let sell = hundredths_of(raw_sell_qty as i128);
    let remaining_before = hundredths_of((buy_qty as i128) - (allocated_sold_qty as i128));
    let allocated: i128 = if sell < remaining_before { sell } else { remaining_before };
    let ignored: i128 = sell - allocated;
    let ratio: (i64, i64) = if sell > 0 { (allocated as i64, sell as i64) } else { (0, 1) };
    AutoScopeAnalysisSellFillAllocation {
        allocated_qty: allocated as i64,
        ignored_qty: ignored as i64,
        allocation_ratio: ratio,
        remaining_qty_after_exit: (remaining_before - allocated) as i64,
    }
}

/// Law: a sell fill is split, without loss, into an allocated and an
/// ignored part; the allocated part and what remains after the exit make up
/// what remained before it; no part is negative.
pub proof fn law_sell_allocation_conserves_quantity(buy_qty: i64, allocated_sold_qty: i64, raw_sell_qty: i64)
    ensures
        ({
            let a = spec_allocate_sell_fill(buy_qty, allocated_sold_qty, raw_sell_qty);
            &&& a.allocated_qty + a.ignored_qty == share_hundredths(raw_sell_qty as int)
            &&& a.allocated_qty + a.remaining_qty_after_exit == share_hundredths(buy_qty - allocated_sold_qty)
            &&& a.allocated_qty >= 0 && a.ignored_qty >= 0 && a.remaining_qty_after_exit >= 0
        }),
{
    let sell = share_hundredths(raw_sell_qty as int);
    let before = share_hundredths(buy_qty - allocated_sold_qty);
    assert(0 <= sell <= 0x10_0000_0000_0000);
    assert(0 <= before <= 0x10_0000_0000_0000);
}


/// A rounded quotient keeps the order of what is divided, and its sign.
proof fn lemma_round_half_away_ordered(x: int, y: int, b: int)
    requires
        b >= 1,
        x <= y,
    ensures
        round_half_away(x, b) <= round_half_away(y, b),
        x >= 0 ==> round_half_away(x, b) >= 0,
        y <= 0 ==> round_half_away(y, b) <= 0,
        x == 0 ==> round_half_away(x, b) == 0,
{
    vstd::arithmetic::div_mod::lemma_basic_div(b, 2 * b);
    if x >= 0 {
        vstd::arithmetic::div_mod::lemma_div_is_ordered(2 * x + b, 2 * y + b, 2 * b);
        vstd::arithmetic::div_mod::lemma_div_pos_is_pos(2 * x + b, 2 * b);
    } else if y < 0 {
        vstd::arithmetic::div_mod::lemma_div_is_ordered(2 * (-y) + b, 2 * (-x) + b, 2 * b);
        vstd::arithmetic::div_mod::lemma_div_pos_is_pos(2 * (-y) + b, 2 * b);
    } else {
        vstd::arithmetic::div_mod::lemma_div_pos_is_pos(2 * (-x) + b, 2 * b);
        vstd::arithmetic::div_mod::lemma_div_pos_is_pos(2 * y + b, 2 * b);
    }
}

/// A row's profit in 10^-12 USDC is within the range that its rounded
/// amount in cents keeps exactly.
proof fn lemma_row_pnl_exact(qty: i64, notional_per_share: i64, fee_per_share: i64, net_value: i64)
    requires
        within_exact_range(qty, notional_per_share, fee_per_share, net_value),
    ensures
        ({
            let pnl = net_value * 1_000_000 - (qty * notional_per_share + qty * fee_per_share);
            &&& -3_000_000_000_000_000_000_000_000_000 <= pnl <= 3_000_000_000_000_000_000_000_000_000
            &&& -300_000_000_000_000_001 <= round_half_away(pnl, 10_000_000_000) <= 300_000_000_000_000_001
            &&& spec_pnl_breakdown(qty, notional_per_share, fee_per_share, net_value).row_pnl_usdc
                == round_half_away(pnl, 10_000_000_000) * 10_000
        }),
{
    lemma_product_bound(qty as int, notional_per_share as int);
    lemma_product_bound(qty as int, fee_per_share as int);
    let pnl = net_value * 1_000_000 - (qty * notional_per_share + qty * fee_per_share);
    lemma_round_bound(pnl, 10_000_000_000);
    if pnl >= 0 {
        vstd::arithmetic::div_mod::lemma_div_is_ordered(pnl, 3_000_000_000_000_000_000_000_000_000, 10_000_000_000);
    } else {
        vstd::arithmetic::div_mod::lemma_div_is_ordered(-pnl, 3_000_000_000_000_000_000_000_000_000, 10_000_000_000);
    }
}

/// Law: a row's profit follows its net value less its exact cost basis,
/// the buy notional plus the buy fee. At break-even the profit is zero, and
/// so is the percentage when the cost basis is positive; a profit above
/// zero means the net value exceeds the cost, one below zero that it falls
/// short; and a higher net value never gives a lower profit.
pub proof fn law_row_pnl_follows_net_value_less_cost(
    qty: i64,
    notional_per_share: i64,
    fee_per_share: i64,
    net_value: i64,
    higher_net_value: i64,
)
    requires
        within_exact_range(qty, notional_per_share, fee_per_share, net_value),
        within_exact_range(qty, notional_per_share, fee_per_share, higher_net_value),
        net_value <= higher_net_value,
    ensures
        ({
            let a = spec_pnl_breakdown(qty, notional_per_share, fee_per_share, net_value);
            let cost = qty * notional_per_share + qty * fee_per_share;
            &&& net_value * 1_000_000 == cost ==> a.row_pnl_usdc == 0
            &&& (net_value * 1_000_000 == cost && cost > 0) ==> a.pnl_pct == Some(0i128)
            &&& a.row_pnl_usdc > 0 ==> net_value * 1_000_000 > cost
            &&& a.row_pnl_usdc < 0 ==> net_value * 1_000_000 < cost
            &&& a.row_pnl_usdc <= spec_pnl_breakdown(qty, notional_per_share, fee_per_share, higher_net_value).row_pnl_usdc
        }),
{
    let cost = qty * notional_per_share + qty * fee_per_share;
    let p1 = net_value * 1_000_000 - cost;
    let p2 = higher_net_value * 1_000_000 - cost;
    lemma_row_pnl_exact(qty, notional_per_share, fee_per_share, net_value);
    lemma_row_pnl_exact(qty, notional_per_share, fee_per_share, higher_net_value);
    lemma_round_half_away_ordered(p1, p2, 10_000_000_000);
    lemma_round_half_away_ordered(p1, p1, 10_000_000_000);
    if p1 >= 0 {
        lemma_round_half_away_ordered(0, p1, 10_000_000_000);
    } else {
        lemma_round_half_away_ordered(p1, 0, 10_000_000_000);
    }
    if p1 == 0 && cost > 0 {
        lemma_round_half_away_ordered(0, 0, cost);
    }
}

} // verus!
