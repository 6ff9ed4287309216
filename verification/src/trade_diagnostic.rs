//! The diagnostic of one auto-scope trade: its profit and loss from the
//! analysis rows, its entry prices and slippage from its events, the path
//! of its price while held, its timings, quality scores, diagnosis and data
//! quality flags. Prices and amounts in millionths, quantities in
//! millionths of a share, instants in microseconds since the epoch.
use vstd::prelude::*;
use std::collections::HashMap;
use crate::analysis::{
    TradeFlowAutoScopeAnalysisRowInput, TradeBuilderOrderEventRecord, first_key_micros, first_key_instant,
    opt_json_micros, follow_path, spec_latest_row_time, last_row_index, spec_duration_ms, spec_outcome_side,
    spec_thin_liquidity_signal, trade_builder_analysis_last_exit_row, trade_builder_analysis_latest_row_time,
    trade_builder_analysis_duration_ms, trade_builder_analysis_event_at, trade_builder_analysis_event_number,
    trade_builder_analysis_event_number_nested, trade_builder_analysis_thin_liquidity_signal,
    trade_builder_analysis_outcome_side, trade_builder_analysis_payload_number,
};
use crate::analysis_pnl::{round_half_away, share_hundredths, round_div, lemma_round_bound};
use crate::buy_guards::{spec_clamp_probability, clamp_probability};
use crate::decimal::{wide_micros_json, wide_micros_value};
use crate::diagnosis::{AutoScopeDiagnosticEvidence, spec_choose_diagnosis, trade_builder_analysis_choose_diagnosis, same_evidence, lemma_same_evidence_same_diagnosis};
use crate::flow::key_views;
use crate::json::{JsonValue, JsonView, view_members, push_member, object_from};
use crate::market_snapshots::{TradeBuilderMarketSecondSnapshot, spec_price_path, trade_builder_analysis_price_path};
use crate::order::TradeBuilderOrder;
use crate::text::str_eq;
use crate::time::{in_chrono_range, rfc3339_text, format_rfc3339_micros};

verus! {

broadcast use {vstd::string::group_string_axioms, vstd::std_specs::hash::group_hash_axioms};

/// What the buy fills of a trade's root order add up to.
pub struct AutoScopeAnalysisOrderMetrics {
    pub qty: i64,
    pub notional_usdc: i64,
    pub fee_usdc: i64,
    pub first_filled_at: Option<i64>,
    pub last_filled_at: Option<i64>,
    pub avg_price: Option<i64>,
}

/// How the sells of a trade were allocated against its buy.
pub struct AutoScopeAnalysisSellAllocationSummary {
    pub observed_sell_qty: i64,
    pub allocated_sold_qty: i64,
    pub ignored_sell_qty: i64,
}

/// The sum, over the rows that `pick` admits, of what `value` reads.
pub open spec fn row_sum(
    rows: Seq<TradeFlowAutoScopeAnalysisRowInput>,
    pick: spec_fn(TradeFlowAutoScopeAnalysisRowInput) -> bool,
    value: spec_fn(TradeFlowAutoScopeAnalysisRowInput) -> int,
) -> int
    decreases rows.len(),
{
    if rows.len() == 0 {
        0
    } else {
        row_sum(rows.drop_last(), pick, value) + if pick(rows.last()) { value(rows.last()) } else { 0 }
    }
}

pub open spec fn every_row() -> spec_fn(TradeFlowAutoScopeAnalysisRowInput) -> bool {
    |r: TradeFlowAutoScopeAnalysisRowInput| true
}

pub open spec fn rows_of_type(t: Seq<char>) -> spec_fn(TradeFlowAutoScopeAnalysisRowInput) -> bool {
    |r: TradeFlowAutoScopeAnalysisRowInput| r.row_type@ == t
}

pub open spec fn opt_or_zero(v: Option<i64>) -> int {
    match v {
        Some(x) => x as int,
        None => 0,
    }
}

pub open spec fn row_pnl() -> spec_fn(TradeFlowAutoScopeAnalysisRowInput) -> int {
    |r: TradeFlowAutoScopeAnalysisRowInput| r.row_pnl_usdc as int
}

pub open spec fn row_fees() -> spec_fn(TradeFlowAutoScopeAnalysisRowInput) -> int {
    |r: TradeFlowAutoScopeAnalysisRowInput| opt_or_zero(r.buy_fee_usdc) + opt_or_zero(r.sell_fee_usdc)
}

pub open spec fn row_cost() -> spec_fn(TradeFlowAutoScopeAnalysisRowInput) -> int {
    |r: TradeFlowAutoScopeAnalysisRowInput| opt_or_zero(r.cost_basis_usdc)
}

pub open spec fn row_net() -> spec_fn(TradeFlowAutoScopeAnalysisRowInput) -> int {
    |r: TradeFlowAutoScopeAnalysisRowInput| opt_or_zero(r.net_value_usdc)
}

pub open spec fn row_qty() -> spec_fn(TradeFlowAutoScopeAnalysisRowInput) -> int {
    |r: TradeFlowAutoScopeAnalysisRowInput| r.row_qty as int
}

/// The exact totals of a trade's rows.
pub struct RowTotals {
    pub total_pnl: i128,
    pub realized_pnl: i128,
    pub open_pnl: i128,
    pub fee_drag: i128,
    pub cost_basis: i128,
    pub net_value: i128,
    pub sold_qty: i128,
    pub remaining_qty: i128,
}

pub open spec fn spec_row_totals(rows: Seq<TradeFlowAutoScopeAnalysisRowInput>) -> RowTotals {
    RowTotals {
        total_pnl: row_sum(rows, every_row(), row_pnl()) as i128,
        realized_pnl: row_sum(rows, rows_of_type("sell_exit"@), row_pnl()) as i128,
        open_pnl: row_sum(rows, rows_of_type("open_position"@), row_pnl()) as i128,
        fee_drag: row_sum(rows, every_row(), row_fees()) as i128,
        cost_basis: row_sum(rows, every_row(), row_cost()) as i128,
        net_value: row_sum(rows, every_row(), row_net()) as i128,
        sold_qty: row_sum(rows, rows_of_type("sell_exit"@), row_qty()) as i128,
        remaining_qty: row_sum(rows, rows_of_type("open_position"@), row_qty()) as i128,
    }
}

proof fn lemma_row_sum_bound(
    rows: Seq<TradeFlowAutoScopeAnalysisRowInput>,
    pick: spec_fn(TradeFlowAutoScopeAnalysisRowInput) -> bool,
    value: spec_fn(TradeFlowAutoScopeAnalysisRowInput) -> int,
)
    requires
        forall|r: TradeFlowAutoScopeAnalysisRowInput| -0x1_0000_0000_0000_0000 <= #[trigger] value(r) <= 0x1_0000_0000_0000_0000,
    ensures
        -0x1_0000_0000_0000_0000 * rows.len() <= row_sum(rows, pick, value) <= 0x1_0000_0000_0000_0000 * rows.len(),
    decreases rows.len(),
{
    if rows.len() > 0 {
        lemma_row_sum_bound(rows.drop_last(), pick, value);
        let v = value(rows.last());
    }
}

fn opt_value(v: Option<i64>) -> (r: i128)
    ensures
        r == opt_or_zero(v),
{
    match v {
        Some(x) => x as i128,
        None => 0,
    }
}

/// The totals of a trade's rows (see `spec_row_totals`), of at most 2^56
/// rows (more than memory holds).
pub fn row_totals(rows: &[TradeFlowAutoScopeAnalysisRowInput]) -> (r: RowTotals)
    requires
        rows.len() <= 0x100_0000_0000_0000,
    ensures
        r == spec_row_totals(rows@),
{
    let ghost rs = rows@;
    let mut t = RowTotals {
        total_pnl: 0,
        realized_pnl: 0,
        open_pnl: 0,
        fee_drag: 0,
        cost_basis: 0,
        net_value: 0,
        sold_qty: 0,
        remaining_qty: 0,
    };
    let mut i: usize = 0;
    while i < rows.len()
        invariant
            i <= rows.len() <= 0x100_0000_0000_0000,
            rs == rows@,
            t == spec_row_totals(rs.subrange(0, i as int)),
            spec_row_totals(rs.subrange(0, i as int)) == (RowTotals {
                total_pnl: row_sum(rs.subrange(0, i as int), every_row(), row_pnl()) as i128,
                realized_pnl: row_sum(rs.subrange(0, i as int), rows_of_type("sell_exit"@), row_pnl()) as i128,
                open_pnl: row_sum(rs.subrange(0, i as int), rows_of_type("open_position"@), row_pnl()) as i128,
                fee_drag: row_sum(rs.subrange(0, i as int), every_row(), row_fees()) as i128,
                cost_basis: row_sum(rs.subrange(0, i as int), every_row(), row_cost()) as i128,
                net_value: row_sum(rs.subrange(0, i as int), every_row(), row_net()) as i128,
                sold_qty: row_sum(rs.subrange(0, i as int), rows_of_type("sell_exit"@), row_qty()) as i128,
                remaining_qty: row_sum(rs.subrange(0, i as int), rows_of_type("open_position"@), row_qty()) as i128,
            }),
            t.total_pnl == row_sum(rs.subrange(0, i as int), every_row(), row_pnl()),
            t.realized_pnl == row_sum(rs.subrange(0, i as int), rows_of_type("sell_exit"@), row_pnl()),
            t.open_pnl == row_sum(rs.subrange(0, i as int), rows_of_type("open_position"@), row_pnl()),
            t.fee_drag == row_sum(rs.subrange(0, i as int), every_row(), row_fees()),
            t.cost_basis == row_sum(rs.subrange(0, i as int), every_row(), row_cost()),
            t.net_value == row_sum(rs.subrange(0, i as int), every_row(), row_net()),
            t.sold_qty == row_sum(rs.subrange(0, i as int), rows_of_type("sell_exit"@), row_qty()),
            t.remaining_qty == row_sum(rs.subrange(0, i as int), rows_of_type("open_position"@), row_qty()),
        decreases rows.len() - i,
    {
        let ghost prefix = rs.subrange(0, i + 1);
        let ghost before = rs.subrange(0, i as int);
        assert(prefix.drop_last() =~= before);
        assert(prefix.last() == rs[i as int]);
        proof {
            lemma_row_sum_bound(before, every_row(), row_pnl());
            lemma_row_sum_bound(before, rows_of_type("sell_exit"@), row_pnl());
            lemma_row_sum_bound(before, rows_of_type("open_position"@), row_pnl());
            lemma_row_sum_bound(before, every_row(), row_fees());
            lemma_row_sum_bound(before, every_row(), row_cost());
            lemma_row_sum_bound(before, every_row(), row_net());
            lemma_row_sum_bound(before, rows_of_type("sell_exit"@), row_qty());
            lemma_row_sum_bound(before, rows_of_type("open_position"@), row_qty());
        }
        let row = &rows[i];
        let pnl = row.row_pnl_usdc as i128;
        let qty = row.row_qty as i128;
        t.total_pnl = t.total_pnl + pnl;
        t.fee_drag = t.fee_drag + opt_value(row.buy_fee_usdc) + opt_value(row.sell_fee_usdc);
        t.cost_basis = t.cost_basis + opt_value(row.cost_basis_usdc);
        t.net_value = t.net_value + opt_value(row.net_value_usdc);
        if crate::text::str_eq(row.row_type.as_str(), "sell_exit") {
            t.realized_pnl = t.realized_pnl + pnl;
            t.sold_qty = t.sold_qty + qty;
        }
        if crate::text::str_eq(row.row_type.as_str(), "open_position") {
            t.open_pnl = t.open_pnl + pnl;
            t.remaining_qty = t.remaining_qty + qty;
        }
        i = i + 1;
    }
    assert(rs.subrange(0, rs.len() as int) =~= rs);
    t
}

/// An amount rounded to cents.
pub open spec fn cents(micros: int) -> int {
    round_half_away(micros, 10_000) * 10_000
}

/// A price difference times a quantity (both in millionths), in millionths
/// of a USDC rounded to cents.
pub open spec fn qty_amount(diff: int, qty: int) -> int {
    round_half_away(diff * qty, 10_000_000_000) * 10_000
}

fn qty_amount_of(diff: i128, qty: i64) -> (r: i128)
    requires
        -0x8000_0000_0010_0000 <= diff <= 0x8000_0000_0010_0000,
    ensures
        r == qty_amount(diff as int, qty as int),
{
    proof {
        assert(-0x4000_0000_0008_0000_0000_0000_0000_0000 <= diff * (qty as int) <= 0x4000_0000_0008_0000_0000_0000_0000_0000) by (nonlinear_arith)
            requires -0x8000_0000_0010_0000 <= diff <= 0x8000_0000_0010_0000, -0x8000_0000_0000_0000 <= qty < 0x8000_0000_0000_0000;
    }
    let p: i128 = diff * (qty as i128);
    let q = round_div(p, 10_000_000_000);
    proof {
        lemma_round_bound(p as int, 10_000_000_000);
    }
    q * 10_000
}

fn cents_of(micros: i128) -> (r: i128)
    requires
        -0x1000_0000_0000_0000_0000_0000_0000_0000 <= micros <= 0x1000_0000_0000_0000_0000_0000_0000_0000,
    ensures
        r == cents(micros as int),
{
    let q = round_div(micros, 10_000);
    proof {
        lemma_round_bound(micros as int, 10_000);
    }
    q * 10_000
}

/// A score of `num / den` points, clamped to `[0, 100]` and rounded to
/// hundredths of a point, in millionths of a point (`den > 0`).
pub open spec fn score_of(num: int, den: int) -> int {
    let clamped = if num < 0 { 0 } else if num > 100 * den { 100 * den } else { num };
    round_half_away(clamped * 100, den) * 10_000
}

/// A score given in millionths of a point, clamped to `[0, 100]` and
/// rounded to hundredths.
pub fn trade_builder_analysis_clamp_score(value: i64) -> (r: i64)
    ensures
        r == score_of(value as int, 1_000_000),
{
    let clamped: i128 = if value < 0 { 0 } else if value > 100_000_000 { 100_000_000 } else { value as i128 };
    let q = round_div(clamped * 100, 1_000_000);
    proof {
        lemma_round_bound(clamped * 100, 1_000_000);
    }
    (q * 10_000) as i64
}

fn score_from(num: i128, den: i128) -> (r: i64)
    requires
        den > 0,
        den <= 0x10_0000_0000_0000_0000_0000,
        num > i128::MIN,
    ensures
        r == score_of(num as int, den as int),
        0 <= r <= 100_000_000,
{
    let clamped: i128 = if num < 0 { 0 } else if num > 100 * den { 100 * den } else { num };
    let q = if den >= 2 { round_div(clamped * 100, den) } else { clamped * 100 };
    proof {
        if den >= 2 {
            lemma_round_bound(clamped * 100, den as int);
            assert((clamped * 100) / (den as int) <= 10_000) by (nonlinear_arith)
                requires 0 <= clamped <= 100 * den, den > 0;
            lemma_round_ceiling(clamped * 100, den as int);
        } else {
            let x = clamped * 100;
            assert((2 * x + 1) / 2 == x) by (nonlinear_arith)
                requires x >= 0;
        }
    }
    (q * 10_000) as i64
}

proof fn lemma_round_ceiling(a: int, b: int)
    requires
        0 <= a <= 10_000 * b,
        b >= 2,
    ensures
        0 <= round_half_away(a, b) <= 10_000,
{
    assert(0 <= (2 * a + b) / (2 * b) <= 10_000) by (nonlinear_arith)
        requires 0 <= a <= 10_000 * b, b >= 2;
}

/// The quality of a trade's entry and exit, in points out of 100 (in
/// millionths, rounded to hundredths). The entry loses 400 points per unit
/// of slippage over the cost basis (at least a millionth), two points per
/// second from submit to fill (up to ten seconds), a point per second of
/// snapshot age (up to ten), and 12 points for thin liquidity. The exit
/// loses 300 points per unit of gain given back over the cost basis, 120
/// per unit of adverse move, and 10 for a loss.
pub open spec fn spec_quality_scores(e: AutoScopeDiagnosticEvidence, snapshot_age_ms: Option<i64>) -> (int, int) {
    let cost = score_cost(e);
    let give_back = match e.gave_back_usdc { Some(v) => if v < 0 { 0 } else { v as int }, None => 0 };
    let adverse = match e.max_adverse_usdc { Some(v) => if v < 0 { -(v as int) } else { 0 }, None => 0 };
    let loss: int = if e.total_pnl_usdc < 0 { 10 * cost } else { 0 };
    let exit_num = 100 * cost - 300 * give_back - 120 * adverse - loss;
    (score_of(entry_score_num(e, snapshot_age_ms), cost * 1000), score_of(exit_num, cost))
}

proof fn lemma_score_saturates(a: int, b: int, den: int)
    requires
        den > 0,
        a > 100 * den,
        b > 100 * den,
    ensures
        score_of(a, den) == score_of(b, den),
{
}

/// The entry score's numerator over `cost * 1000`.
pub open spec fn entry_num_parts(cost: int, slip: int, fill: int, age: int, thin: bool) -> int {
    100 * (cost * 1000) - 400_000 * slip - fill * cost - age * cost - (if thin { 12 * (cost * 1000) } else { 0 })
}

pub open spec fn score_cost(e: AutoScopeDiagnosticEvidence) -> int {
    if e.cost_basis_usdc < 1 { 1 } else { e.cost_basis_usdc as int }
}

pub open spec fn score_slip(e: AutoScopeDiagnosticEvidence) -> int {
    match e.entry_slippage_usdc { Some(v) => if v < 0 { 0 } else { v as int }, None => 0 }
}

pub open spec fn score_fill(e: AutoScopeDiagnosticEvidence) -> int {
    match e.submit_to_fill_ms { Some(ms) => 2 * (if ms < 10_000 { ms as int } else { 10_000 }), None => 0 }
}

pub open spec fn score_age(snapshot_age_ms: Option<i64>) -> int {
    match snapshot_age_ms { Some(ms) => if ms < 10_000 { ms as int } else { 10_000 }, None => 0 }
}

/// The terms of the entry score over its denominator.
pub open spec fn entry_score_num(e: AutoScopeDiagnosticEvidence, snapshot_age_ms: Option<i64>) -> int {
    entry_num_parts(score_cost(e), score_slip(e), score_fill(e), score_age(snapshot_age_ms), e.thin_liquidity_signal)
}

#[verifier::rlimit(40)]
fn entry_num_capped(cost: i128, slip: i128, fill: i128, age: i128, thin: bool) -> (r: i128)
    requires
        1 <= cost <= 0x7fff_ffff_ffff_ffff,
        0 <= slip <= 0x7fff_ffff_ffff_ffff,
        -0x1_0000_0000_0000_0000 <= fill <= 20_000,
        -0x8000_0000_0000_0000 <= age <= 10_000,
    ensures
        score_of(r as int, cost * 1000) == score_of(entry_num_parts(cost as int, slip as int, fill as int, age as int, thin), cost * 1000),
        r > i128::MIN,
{
    let den: i128 = cost * 1000;
    proof {
        assert(-0x1_0000_0000_0000_0000 * 0x7fff_ffff_ffff_ffff <= fill * cost <= 20_000 * 0x7fff_ffff_ffff_ffff) by (nonlinear_arith)
            requires -0x1_0000_0000_0000_0000 <= fill <= 20_000, 1 <= cost <= 0x7fff_ffff_ffff_ffff;
        assert(-0x8000_0000_0000_0000 * 0x7fff_ffff_ffff_ffff <= age * cost <= 10_000 * 0x7fff_ffff_ffff_ffff) by (nonlinear_arith)
            requires -0x8000_0000_0000_0000 <= age <= 10_000, 1 <= cost <= 0x7fff_ffff_ffff_ffff;
    }
    let t3: i128 = fill * cost;
    let t4: i128 = age * cost;
    let thin_term: i128 = if thin { 12 * den } else { 0 };
    let a: i128 = 100 * den - 400_000 * slip - thin_term;
    let cap: i128 = 0x20_0000_0000_0000_0000_0000;
    let neg3: i128 = if 0 - t3 > cap { cap } else { 0 - t3 };
    let neg4: i128 = if 0 - t4 > cap { cap } else { 0 - t4 };
    let num: i128 = a + neg3 + neg4;
    let ghost exact = entry_num_parts(cost as int, slip as int, fill as int, age as int, thin);
    assert(exact == a - t3 - t4);
    proof {
        if 0 - t3 > cap || 0 - t4 > cap {
            lemma_score_saturates(exact, num as int, den as int);
        }
    }
    num
}

fn entry_score(e: &AutoScopeDiagnosticEvidence, snapshot_age_ms: Option<i64>) -> (r: i64)
    ensures
        r == spec_quality_scores(*e, snapshot_age_ms).0,
        0 <= r <= 100_000_000,
{
    let cost: i128 = if e.cost_basis_usdc < 1 { 1 } else { e.cost_basis_usdc as i128 };
    let slip: i128 = match e.entry_slippage_usdc { Some(v) => if v < 0 { 0 } else { v as i128 }, None => 0 };
    let fill: i128 = match e.submit_to_fill_ms { Some(ms) => 2 * (if ms < 10_000 { ms as i128 } else { 10_000 }), None => 0 };
    let age: i128 = match snapshot_age_ms { Some(ms) => if ms < 10_000 { ms as i128 } else { 10_000 }, None => 0 };
    let num = entry_num_capped(cost, slip, fill, age, e.thin_liquidity_signal);
    score_from(num, cost * 1000)
}

fn exit_score(e: &AutoScopeDiagnosticEvidence) -> (r: i64)
    ensures
        r == spec_quality_scores(*e, None).1,
        0 <= r <= 100_000_000,
{
    let cost: i128 = if e.cost_basis_usdc < 1 { 1 } else { e.cost_basis_usdc as i128 };
    let give_back: i128 = match e.gave_back_usdc { Some(v) => if v < 0 { 0 } else { v as i128 }, None => 0 };
    let adverse: i128 = match e.max_adverse_usdc { Some(v) => if v < 0 { 0 - (v as i128) } else { 0 }, None => 0 };
    let loss: i128 = if e.total_pnl_usdc < 0 { 10 * cost } else { 0 };
    let num: i128 = 100 * cost - 300 * give_back - 120 * adverse - loss;
    score_from(num, cost)
}

pub fn trade_builder_analysis_quality_scores(e: &AutoScopeDiagnosticEvidence, snapshot_age_ms: Option<i64>) -> (r: (Option<i64>, Option<i64>))
    ensures
        r.0 == Some(spec_quality_scores(*e, snapshot_age_ms).0 as i64),
        r.1 == Some(spec_quality_scores(*e, snapshot_age_ms).1 as i64),
        0 <= spec_quality_scores(*e, snapshot_age_ms).0 <= 100_000_000,
        0 <= spec_quality_scores(*e, snapshot_age_ms).1 <= 100_000_000,
{
    let entry = entry_score(e, snapshot_age_ms);
    let exit = exit_score(e);
    assert(spec_quality_scores(*e, snapshot_age_ms).1 == spec_quality_scores(*e, None).1);
    (Some(entry), Some(exit))
}

/// The position of the first event of a type.
pub open spec fn first_event_index(evs: Seq<TradeBuilderOrderEventRecord>, t: Seq<char>) -> Option<int>
    decreases evs.len(),
{
    if evs.len() == 0 {
        None
    } else if evs[0].event_type@ == t {
        Some(0)
    } else {
        match first_event_index(evs.drop_first(), t) {
            Some(i) => Some(i + 1),
            None => None,
        }
    }
}

/// The first event of a type.
pub open spec fn first_event(evs: Seq<TradeBuilderOrderEventRecord>, t: Seq<char>) -> Option<TradeBuilderOrderEventRecord> {
    match first_event_index(evs, t) {
        Some(i) => Some(evs[i]),
        None => None,
    }
}

pub open spec fn event_or(a: Option<TradeBuilderOrderEventRecord>, b: Option<TradeBuilderOrderEventRecord>) -> Option<TradeBuilderOrderEventRecord> {
    match a {
        Some(x) => Some(x),
        None => b,
    }
}

/// A number of an event's payload, under the first key that holds one.
pub open spec fn event_num(e: Option<TradeBuilderOrderEventRecord>, keys: Seq<Seq<char>>) -> Option<i64> {
    match e {
        Some(x) => first_key_micros(x.payload_json@, keys),
        None => None,
    }
}

/// A number at the end of a path in an event's payload.
pub open spec fn event_nested(e: Option<TradeBuilderOrderEventRecord>, path: Seq<Seq<char>>) -> Option<i64> {
    match e {
        Some(x) => opt_json_micros(follow_path(x.payload_json@, path)),
        None => None,
    }
}

/// When an event happened: the instant its payload gives, else when it was
/// recorded.
pub open spec fn event_instant(e: Option<TradeBuilderOrderEventRecord>, keys: Seq<Seq<char>>) -> Option<i64> {
    match e {
        Some(x) => match first_key_instant(x.payload_json@, keys) {
            Some(t) => Some(t),
            None => Some(x.created_at),
        },
        None => None,
    }
}

fn first_event_of_type<'a>(evs: &'a [TradeBuilderOrderEventRecord], t: &str) -> (r: Option<&'a TradeBuilderOrderEventRecord>)
    ensures
        match r {
            Some(e) => first_event_index(evs@, t@) matches Some(i) && 0 <= i < evs@.len() && *e == evs@[i],
            None => first_event_index(evs@, t@) is None,
        },
{
    let mut i: usize = 0;
    assert(evs@.subrange(0, evs@.len() as int) =~= evs@);
    while i < evs.len()
        invariant
            i <= evs.len(),
            first_event_index(evs@, t@) == match first_event_index(evs@.subrange(i as int, evs@.len() as int), t@) {
                Some(k) => Some(k + i),
                None => None,
            },
        decreases evs.len() - i,
    {
        let ghost rest = evs@.subrange(i as int, evs@.len() as int);
        assert(rest[0] == evs@[i as int]);
        if str_eq(evs[i].event_type.as_str(), t) {
            return Some(&evs[i]);
        }
        assert(rest.drop_first() =~= evs@.subrange(i + 1, evs@.len() as int));
        i = i + 1;
    }
    None
}

/// A price, clamped to a probability where known.
pub open spec fn opt_clamp(v: Option<i64>) -> Option<i64> {
    match v {
        Some(x) => Some(spec_clamp_probability(x)),
        None => None,
    }
}

pub open spec fn opt_or_i64(a: Option<i64>, b: Option<i64>) -> Option<i64> {
    match a {
        Some(x) => Some(x),
        None => b,
    }
}

fn or_i64(a: Option<i64>, b: Option<i64>) -> (r: Option<i64>)
    ensures
        r == opt_or_i64(a, b),
{
    match a {
        Some(x) => Some(x),
        None => b,
    }
}

fn clamp_opt(v: Option<i64>) -> (r: Option<i64>)
    ensures
        r == opt_clamp(v),
{
    match v {
        Some(x) => Some(clamp_probability(x)),
        None => None,
    }
}

pub open spec fn trigger_price_keys() -> Seq<Seq<char>> {
    seq!["guard_trigger_price"@, "trigger_price"@, "current_price"@]
}

pub open spec fn submit_price_keys() -> Seq<Seq<char>> {
    seq!["execution_price"@, "submitted_dynamic_price"@, "working_price"@, "max_price"@]
}

/// The prices of a trade's entry.
pub struct EntryPrices {
    pub trigger: Option<i64>,
    pub submit: Option<i64>,
    pub fill: Option<i64>,
    pub reference: Option<i64>,
}

/// The prices of an entry, each clamped to a probability: the trigger
/// price (the guard's, the trigger's or the current price the submit, else
/// the flow's creation, recorded; else the order's), the submitted price
/// (the execution, dynamic, working or maximum price of the submit; else
/// the order's working price), the average fill price, and the reference
/// price (the best ask at submit, else the runtime snapshot's, else the
/// current price recorded).
pub open spec fn spec_entry_prices(
    root_order: TradeBuilderOrder,
    submitted: Option<TradeBuilderOrderEventRecord>,
    flow_created: Option<TradeBuilderOrderEventRecord>,
    avg_price: Option<i64>,
) -> EntryPrices {
    let either = event_or(submitted, flow_created);
    EntryPrices {
        trigger: opt_clamp(opt_or_i64(event_num(either, trigger_price_keys()), root_order.trigger_price)),
        submit: opt_clamp(opt_or_i64(event_num(submitted, submit_price_keys()), root_order.working_price)),
        fill: opt_clamp(avg_price),
        reference: opt_clamp(opt_or_i64(
            event_num(submitted, seq!["best_ask"@]),
            opt_or_i64(
                event_nested(either, seq!["runtime_snapshot"@, "best_ask"@]),
                event_num(either, seq!["current_price"@]),
            ),
        )),
    }
}

pub open spec fn opt_event(e: Option<&TradeBuilderOrderEventRecord>) -> Option<TradeBuilderOrderEventRecord> {
    match e {
        Some(x) => Some(*x),
        None => None,
    }
}

fn entry_prices(
    root_order: &TradeBuilderOrder,
    submitted: Option<&TradeBuilderOrderEventRecord>,
    flow_created: Option<&TradeBuilderOrderEventRecord>,
    avg_price: Option<i64>,
) -> (r: EntryPrices)
    ensures
        r == spec_entry_prices(*root_order, opt_event(submitted), opt_event(flow_created), avg_price),
{
    let either = match submitted {
        Some(e) => Some(e),
        None => flow_created,
    };
    let trigger_keys = ["guard_trigger_price", "trigger_price", "current_price"];
    assert(key_views(trigger_keys@) =~= trigger_price_keys());
    let submit_keys = ["execution_price", "submitted_dynamic_price", "working_price", "max_price"];
    assert(key_views(submit_keys@) =~= submit_price_keys());
    let ask_keys = ["best_ask"];
    assert(key_views(ask_keys@) =~= seq!["best_ask"@]);
    let path = ["runtime_snapshot", "best_ask"];
    assert(key_views(path@) =~= seq!["runtime_snapshot"@, "best_ask"@]);
    let current_keys = ["current_price"];
    assert(key_views(current_keys@) =~= seq!["current_price"@]);
    let trigger = clamp_opt(or_i64(trade_builder_analysis_event_number(either, &trigger_keys), root_order.trigger_price));
    let submit = clamp_opt(or_i64(trade_builder_analysis_event_number(submitted, &submit_keys), root_order.working_price));
    let fill = clamp_opt(avg_price);
    let reference = clamp_opt(or_i64(
        trade_builder_analysis_event_number(submitted, &ask_keys),
        or_i64(
            trade_builder_analysis_event_number_nested(either, &path),
            trade_builder_analysis_event_number(either, &current_keys),
        ),
    ));
    EntryPrices { trigger, submit, fill, reference }
}

pub open spec fn max0(x: int) -> int {
    if x < 0 { 0 } else { x }
}

pub open spec fn min0(x: int) -> int {
    if x > 0 { 0 } else { x }
}

/// What a hold gained and gave up, in millionths of a USDC rounded to
/// cents.
pub struct HoldAmounts {
    pub entry_slippage: Option<i128>,
    pub max_favorable: Option<i128>,
    pub max_adverse: Option<i128>,
    pub gave_back: Option<i128>,
}

/// The slippage of the fill over the reference price, the best gain and
/// the worst loss seen while held, and the gain given back from the best
/// price to the exit, each for the bought quantity.
pub open spec fn spec_hold_amounts(fill: Option<i64>, reference: Option<i64>, best: Option<i64>, worst: Option<i64>, exit_price: Option<i64>, qty: i64) -> HoldAmounts {
    HoldAmounts {
        entry_slippage: match (fill, reference) {
            (Some(f), Some(r)) => Some(qty_amount(max0(f - r), qty as int) as i128),
            _ => None,
        },
        max_favorable: match (fill, best) {
            (Some(f), Some(b)) => Some(qty_amount(max0(b - f), qty as int) as i128),
            _ => None,
        },
        max_adverse: match (fill, worst) {
            (Some(f), Some(w)) => Some(qty_amount(min0(w - f), qty as int) as i128),
            _ => None,
        },
        gave_back: match (best, exit_price) {
            (Some(b), Some(x)) => Some(qty_amount(max0(b - x), qty as int) as i128),
            _ => None,
        },
    }
}

proof fn lemma_qty_amount_bound(diff: int, qty: int)
    requires
        -0x8000_0000_0010_0000 <= diff <= 0x8000_0000_0010_0000,
        -0x8000_0000_0000_0000 <= qty < 0x8000_0000_0000_0000,
    ensures
        -0x4000_0000_0000_0000_0000_0000_0000 <= qty_amount(diff, qty) <= 0x4000_0000_0000_0000_0000_0000_0000,
{
    assert(-0x4000_0000_0008_0000_0000_0000_0000_0000 <= diff * qty <= 0x4000_0000_0008_0000_0000_0000_0000_0000) by (nonlinear_arith)
        requires -0x8000_0000_0010_0000 <= diff <= 0x8000_0000_0010_0000, -0x8000_0000_0000_0000 <= qty < 0x8000_0000_0000_0000;
    let p = diff * qty;
    lemma_round_bound(p, 10_000_000_000);
    if p >= 0 {
        assert(p / 10_000_000_000 <= 0x4000_0000_0008_0000_0000_0000_0000_0000int / 10_000_000_000) by (nonlinear_arith)
            requires 0 <= p <= 0x4000_0000_0008_0000_0000_0000_0000_0000;
    } else {
        assert((-p) / 10_000_000_000 <= 0x4000_0000_0008_0000_0000_0000_0000_0000int / 10_000_000_000) by (nonlinear_arith)
            requires 0 < -p <= 0x4000_0000_0008_0000_0000_0000_0000_0000;
    }
}

fn hold_amounts(fill: Option<i64>, reference: Option<i64>, best: Option<i64>, worst: Option<i64>, exit_price: Option<i64>, qty: i64) -> (r: HoldAmounts)
    requires
        fill matches Some(f) ==> 0 <= f <= 1_000_000,
        reference matches Some(x) ==> 0 <= x <= 1_000_000,
        best matches Some(x) ==> 0 <= x <= 1_000_000,
        worst matches Some(x) ==> 0 <= x <= 1_000_000,
    ensures
        r == spec_hold_amounts(fill, reference, best, worst, exit_price, qty),
        r.entry_slippage matches Some(v) ==> -0x4000_0000_0000_0000_0000_0000_0000 <= v <= 0x4000_0000_0000_0000_0000_0000_0000,
        r.max_favorable matches Some(v) ==> -0x4000_0000_0000_0000_0000_0000_0000 <= v <= 0x4000_0000_0000_0000_0000_0000_0000,
        r.max_adverse matches Some(v) ==> -0x4000_0000_0000_0000_0000_0000_0000 <= v <= 0x4000_0000_0000_0000_0000_0000_0000,
        r.gave_back matches Some(v) ==> -0x4000_0000_0000_0000_0000_0000_0000 <= v <= 0x4000_0000_0000_0000_0000_0000_0000,
{
    let entry_slippage = match (fill, reference) {
        (Some(f), Some(x)) => {
            let d: i128 = (f as i128) - (x as i128);
            let d0: i128 = if d < 0 { 0 } else { d };
            proof { lemma_qty_amount_bound(d0 as int, qty as int); }
            Some(qty_amount_of(d0, qty))
        },
        _ => None,
    };
    let max_favorable = match (fill, best) {
        (Some(f), Some(b)) => {
            let d: i128 = (b as i128) - (f as i128);
            let d0: i128 = if d < 0 { 0 } else { d };
            proof { lemma_qty_amount_bound(d0 as int, qty as int); }
            Some(qty_amount_of(d0, qty))
        },
        _ => None,
    };
    let max_adverse = match (fill, worst) {
        (Some(f), Some(w)) => {
            let d: i128 = (w as i128) - (f as i128);
            let d0: i128 = if d > 0 { 0 } else { d };
            proof { lemma_qty_amount_bound(d0 as int, qty as int); }
            Some(qty_amount_of(d0, qty))
        },
        _ => None,
    };
    let gave_back = match (best, exit_price) {
        (Some(b), Some(x)) => {
            let d: i128 = (b as i128) - (x as i128);
            let d0: i128 = if d < 0 { 0 } else { d };
            proof { lemma_qty_amount_bound(d0 as int, qty as int); }
            Some(qty_amount_of(d0, qty))
        },
        _ => None,
    };
    HoldAmounts { entry_slippage, max_favorable, max_adverse, gave_back }
}

/// A number of milliseconds given in millionths, rounded to a whole
/// millisecond.
pub open spec fn opt_round_ms(v: Option<i64>) -> Option<i64> {
    match v {
        Some(x) => Some(round_half_away(x as int, 1_000_000) as i64),
        None => None,
    }
}

fn round_ms(v: Option<i64>) -> (r: Option<i64>)
    ensures
        r == opt_round_ms(v),
{
    match v {
        Some(x) => {
            let q = round_div(x as i128, 1_000_000);
            proof { lemma_round_bound(x as int, 1_000_000); }
            Some(q as i64)
        },
        None => None,
    }
}

/// The trigger instant of a trade's first row.
pub open spec fn first_row_trigger(rows: Seq<TradeFlowAutoScopeAnalysisRowInput>) -> Option<i64> {
    if rows.len() > 0 { rows[0].triggered_at } else { None }
}

/// The latest instant of a trade's last row.
pub open spec fn spec_hold_end(rows: Seq<TradeFlowAutoScopeAnalysisRowInput>) -> Option<i64> {
    match last_row_index(rows) {
        Some(i) => spec_latest_row_time(&rows[i]),
        None => None,
    }
}

/// The timings of a trade, in milliseconds.
pub struct DiagnosticTimings {
    pub submitted_at: Option<i64>,
    pub trigger_to_submit_ms: Option<i64>,
    pub submit_to_fill_ms: Option<i64>,
    pub hold_ms: Option<i64>,
    pub snapshot_age_ms: Option<i64>,
    pub runtime_price_fetch_ms: Option<i64>,
    pub guard_eval_ms: Option<i64>,
    pub place_http_ms: Option<i64>,
}

/// When the submit started (its payload's instant, else when it was
/// recorded), and the spans from the first row's trigger to it, from it to
/// the first buy fill, and from that fill to the end of the hold; and the
/// submit's recorded snapshot age, price fetch, guard evaluation and order
/// placement times, rounded to whole milliseconds.
pub open spec fn spec_timings(rows: Seq<TradeFlowAutoScopeAnalysisRowInput>, submitted: Option<TradeBuilderOrderEventRecord>, first_filled_at: Option<i64>) -> DiagnosticTimings {
    let submitted_at = event_instant(submitted, seq!["submit_started_at"@]);
    DiagnosticTimings {
        submitted_at,
        trigger_to_submit_ms: spec_duration_ms(first_row_trigger(rows), submitted_at),
        submit_to_fill_ms: spec_duration_ms(submitted_at, first_filled_at),
        hold_ms: spec_duration_ms(first_filled_at, spec_hold_end(rows)),
        snapshot_age_ms: opt_round_ms(event_num(submitted, seq!["snapshot_age_ms"@])),
        runtime_price_fetch_ms: opt_round_ms(event_num(submitted, seq!["runtime_price_fetch_ms"@])),
        guard_eval_ms: opt_round_ms(event_num(submitted, seq!["guard_eval_ms"@])),
        place_http_ms: opt_round_ms(event_num(submitted, seq!["place_http_ms"@])),
    }
}

fn submit_number(submitted: Option<&TradeBuilderOrderEventRecord>, key: &str) -> (r: Option<i64>)
    ensures
        r == opt_round_ms(event_num(opt_event(submitted), seq![key@])),
{
    let keys = [key];
    assert(key_views(keys@) =~= seq![key@]);
    round_ms(trade_builder_analysis_event_number(submitted, &keys))
}

fn timings(
    rows: &[TradeFlowAutoScopeAnalysisRowInput],
    submitted: Option<&TradeBuilderOrderEventRecord>,
    first_filled_at: Option<i64>,
    hold_end: Option<i64>,
) -> (r: DiagnosticTimings)
    requires
        hold_end == spec_hold_end(rows@),
    ensures
        r == spec_timings(rows@, opt_event(submitted), first_filled_at),
        r.submitted_at matches Some(t) ==> in_chrono_range(t) || (submitted matches Some(e) && t == e.created_at),
{
    let start_keys = ["submit_started_at"];
    assert(key_views(start_keys@) =~= seq!["submit_started_at"@]);
    let submitted_at = trade_builder_analysis_event_at(submitted, &start_keys);
    let first_trigger = if rows.len() > 0 { rows[0].triggered_at } else { None };
    DiagnosticTimings {
        submitted_at,
        trigger_to_submit_ms: trade_builder_analysis_duration_ms(first_trigger, submitted_at),
        submit_to_fill_ms: trade_builder_analysis_duration_ms(submitted_at, first_filled_at),
        hold_ms: trade_builder_analysis_duration_ms(first_filled_at, hold_end),
        snapshot_age_ms: submit_number(submitted, "snapshot_age_ms"),
        runtime_price_fetch_ms: submit_number(submitted, "runtime_price_fetch_ms"),
        guard_eval_ms: submit_number(submitted, "guard_eval_ms"),
        place_http_ms: submit_number(submitted, "place_http_ms"),
    }
}

pub open spec fn flag_if(cond: bool, flag: Seq<char>) -> Seq<Seq<char>> {
    if cond { seq![flag] } else { Seq::empty() }
}

/// The data quality flags of a trade, in this order: no trigger on its
/// first row, no submitted event, no filled event, no buy fill time, no
/// entry reference price, an outcome label of neither side, no snapshot
/// within the hold, an open position marked, sells beyond the bought
/// quantity, and a trade from before the submitted and flow events were
/// recorded (either missing).
pub open spec fn spec_quality_flags(
    rows: Seq<TradeFlowAutoScopeAnalysisRowInput>,
    submitted: Option<TradeBuilderOrderEventRecord>,
    filled: Option<TradeBuilderOrderEventRecord>,
    flow_created: Option<TradeBuilderOrderEventRecord>,
    first_filled_at: Option<i64>,
    entry_reference_price: Option<i64>,
    outcome_label: Seq<char>,
    path_sample_count: nat,
    is_open_position: bool,
    ignored_sell_qty: i64,
) -> Seq<Seq<char>> {
    flag_if(first_row_trigger(rows) is None, "missing_trigger_event"@)
        + flag_if(submitted is None, "missing_submitted_event"@)
        + flag_if(filled is None, "missing_filled_event"@)
        + flag_if(first_filled_at is None, "missing_buy_fill_time"@)
        + flag_if(entry_reference_price is None, "missing_entry_reference_price"@)
        + flag_if(spec_outcome_side(outcome_label) is None, "unknown_outcome_side"@)
        + flag_if(path_sample_count == 0, "missing_second_snapshots"@)
        + flag_if(is_open_position, "open_position_mark"@)
        + flag_if(ignored_sell_qty > 0, "oversold_exit_qty"@)
        + flag_if(submitted is None || flow_created is None, "old_trade_best_effort"@)
}

pub open spec fn texts(v: Seq<String>) -> Seq<Seq<char>> {
    v.map_values(|s: String| s@)
}

fn push_flag_if(flags: &mut Vec<String>, cond: bool, flag: &str)
    ensures
        texts(final(flags)@) == texts(old(flags)@) + flag_if(cond, flag@),
{
    if cond {
        flags.push(flag.to_string());
    }
    assert(texts(flags@) =~= texts(old(flags)@) + flag_if(cond, flag@));
}

fn quality_flags(
    rows: &[TradeFlowAutoScopeAnalysisRowInput],
    submitted: Option<&TradeBuilderOrderEventRecord>,
    filled: Option<&TradeBuilderOrderEventRecord>,
    flow_created: Option<&TradeBuilderOrderEventRecord>,
    first_filled_at: Option<i64>,
    entry_reference_price: Option<i64>,
    outcome_label: &str,
    path_sample_count: usize,
    is_open_position: bool,
    ignored_sell_qty: i64,
) -> (r: Vec<String>)
    ensures
        texts(r@) == spec_quality_flags(rows@, opt_event(submitted), opt_event(filled), opt_event(flow_created), first_filled_at,
            entry_reference_price, outcome_label@, path_sample_count as nat, is_open_position, ignored_sell_qty),
{
    let mut flags: Vec<String> = Vec::new();
    assert(texts(flags@) =~= Seq::<Seq<char>>::empty());
    let first_trigger = if rows.len() > 0 { rows[0].triggered_at } else { None };
    push_flag_if(&mut flags, first_trigger.is_none(), "missing_trigger_event");
    push_flag_if(&mut flags, submitted.is_none(), "missing_submitted_event");
    push_flag_if(&mut flags, filled.is_none(), "missing_filled_event");
    push_flag_if(&mut flags, first_filled_at.is_none(), "missing_buy_fill_time");
    push_flag_if(&mut flags, entry_reference_price.is_none(), "missing_entry_reference_price");
    push_flag_if(&mut flags, trade_builder_analysis_outcome_side(outcome_label).is_none(), "unknown_outcome_side");
    push_flag_if(&mut flags, path_sample_count == 0, "missing_second_snapshots");
    push_flag_if(&mut flags, is_open_position, "open_position_mark");
    push_flag_if(&mut flags, ignored_sell_qty > 0, "oversold_exit_qty");
    push_flag_if(&mut flags, submitted.is_none() || flow_created.is_none(), "old_trade_best_effort");
    flags
}

/// An instant as RFC 3339 text, or `null`.
pub open spec fn opt_time_json(t: Option<i64>) -> JsonView {
    match t {
        Some(x) => JsonView::Str(rfc3339_text(x)),
        None => JsonView::Null,
    }
}

fn opt_time_value(t: Option<i64>) -> (r: JsonValue)
    requires
        t matches Some(x) ==> in_chrono_range(x),
    ensures
        r@ == opt_time_json(t),
{
    match t {
        Some(x) => JsonValue::Str(format_rfc3339_micros(x)),
        None => JsonValue::Null,
    }
}

/// A share quantity rounded to hundredths, as a JSON number.
pub open spec fn share_json(micro: int) -> JsonView {
    wide_micros_json(share_hundredths(micro) * 10_000)
}

fn share_value(micro: i128) -> (r: JsonValue)
    requires
        -0x1000_0000_0000_0000_0000_0000_0000_0000 <= micro <= 0x1000_0000_0000_0000_0000_0000_0000_0000,
    ensures
        r@ == share_json(micro as int),
{
    let c: i128 = if micro <= 0 { 0 } else { (micro + 5_000) / 10_000 };
    wide_micros_value(c * 10_000)
}

/// An amount rounded to cents, as a JSON number.
pub open spec fn cents_json(micros: int) -> JsonView {
    wide_micros_json(cents(micros))
}

fn cents_value(micros: i128) -> (r: JsonValue)
    requires
        -0x1000_0000_0000_0000_0000_0000_0000_0000 <= micros <= 0x1000_0000_0000_0000_0000_0000_0000_0000,
    ensures
        r@ == cents_json(micros as int),
{
    let c = cents_of(micros);
    proof {
        lemma_round_bound(micros as int, 10_000);
    }
    wide_micros_value(c)
}

/// The quantity members of a trade's compact metrics: the version of the
/// profit model, the bought quantity, notional and fee, the sold,
/// allocated, observed, ignored and remaining quantities (hundredths of a
/// share), the number of snapshots in the hold and the thin-liquidity
/// signal.
pub open spec fn compact_quantities(
    metrics: AutoScopeAnalysisOrderMetrics,
    summary: AutoScopeAnalysisSellAllocationSummary,
    totals: RowTotals,
    path_sample_count: nat,
    thin_liquidity_signal: bool,
) -> Seq<(Seq<char>, JsonView)> {
    seq![
        ("pnl_model_version"@, JsonView::Int(8)),
        ("buy_qty"@, share_json(metrics.qty as int)),
        ("buy_notional_usdc"@, cents_json(metrics.notional_usdc as int)),
        ("buy_fee_usdc"@, cents_json(metrics.fee_usdc as int)),
        ("sold_qty"@, share_json(totals.sold_qty as int)),
        ("allocated_sold_qty"@, share_json(summary.allocated_sold_qty as int)),
        ("observed_sell_qty"@, share_json(summary.observed_sell_qty as int)),
        ("ignored_sell_qty"@, share_json(summary.ignored_sell_qty as int)),
        ("remaining_qty"@, share_json(totals.remaining_qty as int)),
        ("path_sample_count"@, JsonView::Int(path_sample_count as int)),
        ("thin_liquidity_signal"@, JsonView::Bool(thin_liquidity_signal)),
    ]
}

/// The time members of a trade's compact metrics: when the submit
/// started, the first and last buy fills, and the hold's end.
pub open spec fn compact_times(
    metrics: AutoScopeAnalysisOrderMetrics,
    submitted_at: Option<i64>,
    hold_end: Option<i64>,
) -> Seq<(Seq<char>, JsonView)> {
    seq![
        ("submitted_at"@, opt_time_json(submitted_at)),
        ("buy_first_filled_at"@, opt_time_json(metrics.first_filled_at)),
        ("buy_last_filled_at"@, opt_time_json(metrics.last_filled_at)),
        ("hold_end_at"@, opt_time_json(hold_end)),
    ]
}

/// The compact metrics of a trade: its quantity members, then its time
/// members.
pub open spec fn spec_compact_metrics(
    metrics: AutoScopeAnalysisOrderMetrics,
    summary: AutoScopeAnalysisSellAllocationSummary,
    totals: RowTotals,
    path_sample_count: nat,
    thin_liquidity_signal: bool,
    submitted_at: Option<i64>,
    hold_end: Option<i64>,
) -> JsonView {
    JsonView::Object(
        compact_quantities(metrics, summary, totals, path_sample_count, thin_liquidity_signal)
            + compact_times(metrics, submitted_at, hold_end),
    )
}

#[verifier::spinoff_prover]
#[verifier::rlimit(40)]
fn compact_quantity_members(
    metrics: &AutoScopeAnalysisOrderMetrics,
    summary: &AutoScopeAnalysisSellAllocationSummary,
    totals: &RowTotals,
    path_sample_count: usize,
    thin_liquidity_signal: bool,
) -> (m: Vec<(String, JsonValue)>)
    requires
        -0x1000_0000_0000_0000_0000_0000_0000_0000 <= totals.sold_qty <= 0x1000_0000_0000_0000_0000_0000_0000_0000,
        -0x1000_0000_0000_0000_0000_0000_0000_0000 <= totals.remaining_qty <= 0x1000_0000_0000_0000_0000_0000_0000_0000,
    ensures
        view_members(m@) == compact_quantities(*metrics, *summary, *totals, path_sample_count as nat, thin_liquidity_signal),
{
    let v1 = share_value(metrics.qty as i128);
    let v2 = cents_value(metrics.notional_usdc as i128);
    let v3 = cents_value(metrics.fee_usdc as i128);
    let v4 = share_value(totals.sold_qty);
    let v5 = share_value(summary.allocated_sold_qty as i128);
    let v6 = share_value(summary.observed_sell_qty as i128);
    let v7 = share_value(summary.ignored_sell_qty as i128);
    let v8 = share_value(totals.remaining_qty);
    let mut m: Vec<(String, JsonValue)> = Vec::new();
    push_member(&mut m, "pnl_model_version", JsonValue::Int(8));
    push_member(&mut m, "buy_qty", v1);
    push_member(&mut m, "buy_notional_usdc", v2);
    push_member(&mut m, "buy_fee_usdc", v3);
    push_member(&mut m, "sold_qty", v4);
    push_member(&mut m, "allocated_sold_qty", v5);
    push_member(&mut m, "observed_sell_qty", v6);
    push_member(&mut m, "ignored_sell_qty", v7);
    push_member(&mut m, "remaining_qty", v8);
    push_member(&mut m, "path_sample_count", JsonValue::UInt(path_sample_count as u64));
    push_member(&mut m, "thin_liquidity_signal", JsonValue::Bool(thin_liquidity_signal));
    assert(view_members(m@) =~= compact_quantities(*metrics, *summary, *totals, path_sample_count as nat, thin_liquidity_signal));
    m
}

fn push_compact_times(
    m: &mut Vec<(String, JsonValue)>,
    metrics: &AutoScopeAnalysisOrderMetrics,
    submitted_at: Option<i64>,
    hold_end: Option<i64>,
)
    requires
        submitted_at matches Some(x) ==> in_chrono_range(x),
        hold_end matches Some(x) ==> in_chrono_range(x),
        metrics.first_filled_at matches Some(x) ==> in_chrono_range(x),
        metrics.last_filled_at matches Some(x) ==> in_chrono_range(x),
    ensures
        view_members(final(m)@) == view_members(old(m)@) + compact_times(*metrics, submitted_at, hold_end),
{
    let ghost before = view_members(m@);
    let v1 = opt_time_value(submitted_at);
    let v2 = opt_time_value(metrics.first_filled_at);
    let v3 = opt_time_value(metrics.last_filled_at);
    let v4 = opt_time_value(hold_end);
    push_member(m, "submitted_at", v1);
    push_member(m, "buy_first_filled_at", v2);
    push_member(m, "buy_last_filled_at", v3);
    push_member(m, "hold_end_at", v4);
    assert(view_members(m@) =~= before + compact_times(*metrics, submitted_at, hold_end));
}

fn compact_metrics(
    metrics: &AutoScopeAnalysisOrderMetrics,
    summary: &AutoScopeAnalysisSellAllocationSummary,
    totals: &RowTotals,
    path_sample_count: usize,
    thin_liquidity_signal: bool,
    submitted_at: Option<i64>,
    hold_end: Option<i64>,
) -> (r: JsonValue)
    requires
        -0x1000_0000_0000_0000_0000_0000_0000_0000 <= totals.sold_qty <= 0x1000_0000_0000_0000_0000_0000_0000_0000,
        -0x1000_0000_0000_0000_0000_0000_0000_0000 <= totals.remaining_qty <= 0x1000_0000_0000_0000_0000_0000_0000_0000,
        submitted_at matches Some(x) ==> in_chrono_range(x),
        hold_end matches Some(x) ==> in_chrono_range(x),
        metrics.first_filled_at matches Some(x) ==> in_chrono_range(x),
        metrics.last_filled_at matches Some(x) ==> in_chrono_range(x),
    ensures
        r@ == spec_compact_metrics(*metrics, *summary, *totals, path_sample_count as nat, thin_liquidity_signal, submitted_at, hold_end),
{
    let mut m = compact_quantity_members(metrics, summary, totals, path_sample_count, thin_liquidity_signal);
    push_compact_times(&mut m, metrics, submitted_at, hold_end);
    object_from(m)
}

/// The events recorded against an order, none where the map holds none.
pub open spec fn spec_order_events(events: Map<i64, Vec<TradeBuilderOrderEventRecord>>, id: i64) -> Seq<TradeBuilderOrderEventRecord> {
    if events.contains_key(id) { events[id]@ } else { Seq::empty() }
}

fn order_events<'a>(events: &'a HashMap<i64, Vec<TradeBuilderOrderEventRecord>>, id: i64) -> (r: &'a [TradeBuilderOrderEventRecord])
    ensures
        r@ == spec_order_events(events@, id),
{
    match events.get(&id) {
        Some(v) => v.as_slice(),
        None => &[],
    }
}

/// Whether any row marks a position still open.
pub open spec fn spec_is_open_position(rows: Seq<TradeFlowAutoScopeAnalysisRowInput>) -> bool {
    exists|i: int| 0 <= i < rows.len() && (#[trigger] rows[i]).row_type@ == "open_position"@
}

fn any_open_position(rows: &[TradeFlowAutoScopeAnalysisRowInput]) -> (r: bool)
    ensures
        r == spec_is_open_position(rows@),
{
    let mut i: usize = 0;
    while i < rows.len()
        invariant
            i <= rows.len(),
            forall|j: int| 0 <= j < i ==> (#[trigger] rows@[j]).row_type@ != "open_position"@,
        decreases rows.len() - i,
    {
        if str_eq(rows[i].row_type.as_str(), "open_position") {
            return true;
        }
        i = i + 1;
    }
    false
}

/// The profit and loss of a trade, in millionths of a USDC rounded to
/// cents, and its return on the cost basis in millionths of a percent,
/// rounded to hundredths of a percent.
pub struct DiagnosticPnl {
    pub total: i128,
    pub realized: i128,
    pub open: i128,
    pub fee_drag: i128,
    pub cost_basis: i128,
    pub net_value: i128,
    pub pnl_pct: Option<i128>,
}

/// The return of a profit on a cost basis, both rounded to cents first: in
/// millionths of a percent, rounded to hundredths of a percent; none
/// without a positive cost basis.
pub open spec fn spec_pnl_pct(total: int, cost: int) -> Option<int> {
    if cents(cost) > 0 {
        Some(round_half_away(cents(total), cents(cost) / 10_000) * 10_000)
    } else {
        None
    }
}

pub open spec fn spec_diagnostic_pnl(t: RowTotals) -> DiagnosticPnl {
    DiagnosticPnl {
        total: cents(t.total_pnl as int) as i128,
        realized: cents(t.realized_pnl as int) as i128,
        open: cents(t.open_pnl as int) as i128,
        fee_drag: cents(t.fee_drag as int) as i128,
        cost_basis: cents(t.cost_basis as int) as i128,
        net_value: cents(t.net_value as int) as i128,
        pnl_pct: match spec_pnl_pct(t.total_pnl as int, t.cost_basis as int) {
            Some(p) => Some(p as i128),
            None => None,
        },
    }
}

pub open spec fn within_2_105(x: int) -> bool {
    -0x200_0000_0000_0000_0000_0000_0000 <= x <= 0x200_0000_0000_0000_0000_0000_0000
}

proof fn lemma_cents_bound(x: int)
    requires
        within_2_105(x),
    ensures
        -0x200_0000_0000_0000_0000_0000_0000 - 10_000 <= cents(x) <= 0x200_0000_0000_0000_0000_0000_0000 + 10_000,
        cents(x) % 10_000 == 0,
{
    lemma_round_bound(x, 10_000);
    let q = round_half_away(x, 10_000);
    if x >= 0 {
        assert(q * 10_000 <= x + 10_000) by (nonlinear_arith)
            requires 0 <= q <= x / 10_000 + 1, x >= 0;
        assert(q * 10_000 >= 0) by (nonlinear_arith)
            requires 0 <= q;
    } else {
        assert(q * 10_000 >= x - 10_000) by (nonlinear_arith)
            requires -((-x) / 10_000 + 1) <= q <= 0, x < 0;
        assert(q * 10_000 <= 0) by (nonlinear_arith)
            requires q <= 0;
    }
    assert((q * 10_000) % 10_000 == 0) by (nonlinear_arith);
}

fn diagnostic_pnl(t: &RowTotals) -> (r: DiagnosticPnl)
    requires
        within_2_105(t.total_pnl as int),
        within_2_105(t.realized_pnl as int),
        within_2_105(t.open_pnl as int),
        within_2_105(t.fee_drag as int),
        within_2_105(t.cost_basis as int),
        within_2_105(t.net_value as int),
    ensures
        r == spec_diagnostic_pnl(*t),
{
    proof {
        lemma_cents_bound(t.total_pnl as int);
        lemma_cents_bound(t.cost_basis as int);
    }
    let total = cents_of(t.total_pnl);
    let cost_basis = cents_of(t.cost_basis);
    let pnl_pct = if cost_basis > 0 {
        let cost_cents = cost_basis / 10_000;
        let q = if cost_cents >= 2 { round_div(total, cost_cents) } else { total };
        proof {
            if cost_cents >= 2 {
                lemma_round_bound(total as int, cost_cents as int);
                if total >= 0 {
                    assert(total as int / cost_cents as int <= total) by (nonlinear_arith)
                        requires total >= 0, cost_cents >= 2;
                } else {
                    assert((-total) as int / cost_cents as int <= -total) by (nonlinear_arith)
                        requires total < 0, cost_cents >= 2;
                }
            } else {
                assert(cost_cents == 1);
                let x = total as int;
                if x >= 0 {
                    assert((2 * x + 1) / 2 == x) by (nonlinear_arith) requires x >= 0;
                } else {
                    assert((2 * (-x) + 1) / 2 == -x) by (nonlinear_arith) requires x < 0;
                }
            }
        }
        Some(q * 10_000)
    } else {
        None
    };
    DiagnosticPnl {
        total,
        realized: cents_of(t.realized_pnl),
        open: cents_of(t.open_pnl),
        fee_drag: cents_of(t.fee_drag),
        cost_basis,
        net_value: cents_of(t.net_value),
        pnl_pct,
    }
}

/// An exact amount held in an `i64`, saturated at its ends.
pub open spec fn sat_i64(x: int) -> i64 {
    if x < i64::MIN { i64::MIN } else if x > i64::MAX { i64::MAX } else { x as i64 }
}

pub open spec fn opt_sat(x: Option<i128>) -> Option<i64> {
    match x {
        Some(v) => Some(sat_i64(v as int)),
        None => None,
    }
}

fn sat(x: i128) -> (r: i64)
    ensures
        r == sat_i64(x as int),
{
    if x < i64::MIN as i128 { i64::MIN } else if x > i64::MAX as i128 { i64::MAX } else { x as i64 }
}

fn sat_opt(x: Option<i128>) -> (r: Option<i64>)
    ensures
        r == opt_sat(x),
{
    match x {
        Some(v) => Some(sat(v)),
        None => None,
    }
}

/// The evidence a trade's diagnosis and scores go by: its profit, fee drag
/// and cost basis, its entry slippage, the gain it gave back and its worst
/// adverse move (each saturated to an `i64`), its exit reason, its timings
/// and whether liquidity was thin or the position is still open.
pub open spec fn spec_evidence(
    pnl: DiagnosticPnl,
    hold: HoldAmounts,
    exit_reason: Option<String>,
    open_to_trigger_ms: Option<i64>,
    trigger_to_buy_fill_ms: Option<i64>,
    submit_to_fill_ms: Option<i64>,
    thin_liquidity_signal: bool,
    is_open_position: bool,
) -> AutoScopeDiagnosticEvidence {
    AutoScopeDiagnosticEvidence {
        total_pnl_usdc: sat_i64(pnl.total as int),
        fee_drag_usdc: sat_i64(pnl.fee_drag as int),
        cost_basis_usdc: sat_i64(pnl.cost_basis as int),
        entry_slippage_usdc: opt_sat(hold.entry_slippage),
        exit_reason,
        gave_back_usdc: opt_sat(hold.gave_back),
        max_adverse_usdc: opt_sat(hold.max_adverse),
        open_to_trigger_ms,
        trigger_to_buy_fill_ms,
        submit_to_fill_ms,
        thin_liquidity_signal,
        is_open_position,
    }
}

/// The exit reason of a trade's last row.
pub open spec fn last_exit_reason(rows: Seq<TradeFlowAutoScopeAnalysisRowInput>) -> Option<String> {
    match last_row_index(rows) {
        Some(i) => Some(rows[i].exit_reason),
        None => None,
    }
}

/// The mark or sell price of a trade's last row.
pub open spec fn last_exit_price(rows: Seq<TradeFlowAutoScopeAnalysisRowInput>) -> Option<i64> {
    match last_row_index(rows) {
        Some(i) => rows[i].mark_or_sell_price,
        None => None,
    }
}

pub open spec fn opt_text(s: Option<String>) -> Option<Seq<char>> {
    match s {
        Some(x) => Some(x@),
        None => None,
    }
}

/// The diagnostic of one trade. Amounts are in millionths of a USDC
/// rounded to cents, prices in millionths, scores in millionths of a point,
/// the return in millionths of a percent, durations in milliseconds.
pub struct TradeFlowAutoScopeTradeDiagnosticInput {
    pub root_builder_order_id: i64,
    pub user_id: i64,
    pub definition_id: i64,
    pub run_id: i64,
    pub market_slug: String,
    pub token_id: String,
    pub outcome_label: String,
    pub total_pnl_usdc: i128,
    pub realized_pnl_usdc: i128,
    pub open_pnl_usdc: i128,
    pub pnl_pct: Option<i128>,
    pub fee_drag_usdc: i128,
    pub cost_basis_usdc: i128,
    pub net_value_usdc: i128,
    pub entry_trigger_price: Option<i64>,
    pub entry_submit_price: Option<i64>,
    pub entry_fill_price: Option<i64>,
    pub entry_reference_price: Option<i64>,
    pub entry_slippage_usdc: Option<i128>,
    pub entry_quality_score: Option<i64>,
    pub exit_reason: Option<String>,
    pub exit_price: Option<i64>,
    pub best_price_during_hold: Option<i64>,
    pub worst_price_during_hold: Option<i64>,
    pub max_favorable_usdc: Option<i128>,
    pub max_adverse_usdc: Option<i128>,
    pub gave_back_usdc: Option<i128>,
    pub exit_quality_score: Option<i64>,
    pub open_to_trigger_ms: Option<i64>,
    pub trigger_to_buy_fill_ms: Option<i64>,
    pub trigger_to_submit_ms: Option<i64>,
    pub submit_to_fill_ms: Option<i64>,
    pub hold_ms: Option<i64>,
    pub snapshot_age_ms: Option<i64>,
    pub runtime_price_fetch_ms: Option<i64>,
    pub guard_eval_ms: Option<i64>,
    pub place_http_ms: Option<i64>,
    pub primary_diagnosis_code: String,
    pub secondary_diagnosis_code: Option<String>,
    pub diagnosis_label: String,
    pub diagnosis_detail: String,
    pub data_quality_flags: Vec<String>,
    pub compact_metrics_json: JsonValue,
}

/// The events of the root order, the flow's creation, the submit and the
/// fill among them; whether a position is still open; the end of the hold.
pub open spec fn root_events_of(order: TradeBuilderOrder, events: Map<i64, Vec<TradeBuilderOrderEventRecord>>) -> Seq<TradeBuilderOrderEventRecord> {
    spec_order_events(events, order.id)
}

/// Builds the diagnostic of one auto-scope trade from its root order, its
/// analysis rows, the events of its orders, the market's second snapshots,
/// what its buy fills and sell allocation add up to, and its two opening
/// timings. Of at most 2^40 rows (more than memory holds); the instants
/// that the compact metrics write as text lie within chrono's range.
pub fn trade_builder_analysis_build_trade_diagnostic(
    root_order: &TradeBuilderOrder,
    rows: &[TradeFlowAutoScopeAnalysisRowInput],
    events_by_order_id: &HashMap<i64, Vec<TradeBuilderOrderEventRecord>>,
    second_snapshots: &[TradeBuilderMarketSecondSnapshot],
    buy_metrics: &AutoScopeAnalysisOrderMetrics,
    sell_allocation_summary: &AutoScopeAnalysisSellAllocationSummary,
    open_to_trigger_ms: Option<i64>,
    trigger_to_buy_fill_ms: Option<i64>,
) -> (r: TradeFlowAutoScopeTradeDiagnosticInput)
    requires
        rows.len() <= 0x100_0000_0000,
        forall|i: int| 0 <= i < root_events_of(*root_order, events_by_order_id@).len()
            ==> in_chrono_range(#[trigger] root_events_of(*root_order, events_by_order_id@)[i].created_at),
        spec_hold_end(rows@) matches Some(t) ==> in_chrono_range(t),
        buy_metrics.first_filled_at matches Some(t) ==> in_chrono_range(t),
        buy_metrics.last_filled_at matches Some(t) ==> in_chrono_range(t),
    ensures
        ({
            let evs = root_events_of(*root_order, events_by_order_id@);
            let submitted = first_event(evs, "submitted"@);
            let filled = first_event(evs, "filled"@);
            let flow_created = first_event(evs, "flow_created"@);
            let hold_end = spec_hold_end(rows@);
            let open = spec_is_open_position(rows@);
            let tm = spec_timings(rows@, submitted, buy_metrics.first_filled_at);
            let totals = spec_row_totals(rows@);
            let pnl = spec_diagnostic_pnl(totals);
            let entry = spec_entry_prices(*root_order, submitted, flow_created, buy_metrics.avg_price);
            let path = spec_price_path(second_snapshots@, root_order.outcome_label@, buy_metrics.first_filled_at, hold_end);
            let hold = spec_hold_amounts(entry.fill, entry.reference, path.0, path.1, last_exit_price(rows@), buy_metrics.qty);
            let thin = spec_thin_liquidity_signal(evs, match submitted { Some(e) => Some(&e), None => None });
            let ev = spec_evidence(pnl, hold, last_exit_reason(rows@), open_to_trigger_ms, trigger_to_buy_fill_ms,
                tm.submit_to_fill_ms, thin, open);
            let scores = spec_quality_scores(ev, tm.snapshot_age_ms);
            let (code, secondary, label, detail) = spec_choose_diagnosis(ev);
            &&& r.root_builder_order_id == root_order.id
            &&& r.user_id == root_order.user_id
            &&& r.definition_id == (if rows.len() > 0 { rows@[0].definition_id } else { 0 })
            &&& r.run_id == (if rows.len() > 0 { rows@[0].run_id } else { 0 })
            &&& r.market_slug@ == root_order.market_slug@
            &&& r.token_id@ == root_order.token_id@
            &&& r.outcome_label@ == root_order.outcome_label@
            &&& r.total_pnl_usdc == pnl.total
            &&& r.realized_pnl_usdc == pnl.realized
            &&& r.open_pnl_usdc == pnl.open
            &&& r.pnl_pct == pnl.pnl_pct
            &&& r.fee_drag_usdc == pnl.fee_drag
            &&& r.cost_basis_usdc == pnl.cost_basis
            &&& r.net_value_usdc == pnl.net_value
            &&& r.entry_trigger_price == entry.trigger
            &&& r.entry_submit_price == entry.submit
            &&& r.entry_fill_price == entry.fill
            &&& r.entry_reference_price == entry.reference
            &&& r.entry_slippage_usdc == hold.entry_slippage
            &&& r.entry_quality_score == Some(scores.0 as i64)
            &&& opt_text(r.exit_reason) == opt_text(last_exit_reason(rows@))
            &&& r.exit_price == last_exit_price(rows@)
            &&& r.best_price_during_hold == path.0
            &&& r.worst_price_during_hold == path.1
            &&& r.max_favorable_usdc == hold.max_favorable
            &&& r.max_adverse_usdc == hold.max_adverse
            &&& r.gave_back_usdc == hold.gave_back
            &&& r.exit_quality_score == Some(scores.1 as i64)
            &&& r.open_to_trigger_ms == open_to_trigger_ms
            &&& r.trigger_to_buy_fill_ms == trigger_to_buy_fill_ms
            &&& r.trigger_to_submit_ms == tm.trigger_to_submit_ms
            &&& r.submit_to_fill_ms == tm.submit_to_fill_ms
            &&& r.hold_ms == tm.hold_ms
            &&& r.snapshot_age_ms == tm.snapshot_age_ms
            &&& r.runtime_price_fetch_ms == tm.runtime_price_fetch_ms
            &&& r.guard_eval_ms == tm.guard_eval_ms
            &&& r.place_http_ms == tm.place_http_ms
            &&& r.primary_diagnosis_code@ == code
            &&& opt_text(r.secondary_diagnosis_code) == secondary
            &&& r.diagnosis_label@ == label
            &&& r.diagnosis_detail@ == detail
            &&& texts(r.data_quality_flags@) == spec_quality_flags(rows@, submitted, filled, flow_created,
                buy_metrics.first_filled_at, entry.reference, root_order.outcome_label@, path.2, open,
                sell_allocation_summary.ignored_sell_qty)
            &&& r.compact_metrics_json@ == spec_compact_metrics(*buy_metrics, *sell_allocation_summary, totals, path.2,
                thin, tm.submitted_at, hold_end)
        }),
{
    let root_events = order_events(events_by_order_id, root_order.id);
    let submitted = first_event_of_type(root_events, "submitted");
    let filled = first_event_of_type(root_events, "filled");
    let flow_created = first_event_of_type(root_events, "flow_created");
    let last_row = trade_builder_analysis_last_exit_row(rows);
    let hold_end = match last_row {
        Some(row) => trade_builder_analysis_latest_row_time(row),
        None => None,
    };
    let is_open_position = any_open_position(rows);
    let exit_reason: Option<String> = match last_row {
        Some(row) => Some(row.exit_reason.clone()),
        None => None,
    };
    let exit_price = match last_row {
        Some(row) => row.mark_or_sell_price,
        None => None,
    };
    let tm = timings(rows, submitted, buy_metrics.first_filled_at, hold_end);

    let totals = row_totals(rows);
    proof {
        let rs = rows@;
        lemma_row_sum_bound(rs, every_row(), row_pnl());
        lemma_row_sum_bound(rs, rows_of_type("sell_exit"@), row_pnl());
        lemma_row_sum_bound(rs, rows_of_type("open_position"@), row_pnl());
        lemma_row_sum_bound(rs, every_row(), row_fees());
        lemma_row_sum_bound(rs, every_row(), row_cost());
        lemma_row_sum_bound(rs, every_row(), row_net());
        lemma_row_sum_bound(rs, rows_of_type("sell_exit"@), row_qty());
        lemma_row_sum_bound(rs, rows_of_type("open_position"@), row_qty());
    }
    let pnl = diagnostic_pnl(&totals);

    let entry = entry_prices(root_order, submitted, flow_created, buy_metrics.avg_price);
    let path = trade_builder_analysis_price_path(second_snapshots, root_order.outcome_label.as_str(), buy_metrics.first_filled_at, hold_end);
    let hold = hold_amounts(entry.fill, entry.reference, path.best_price, path.worst_price, exit_price, buy_metrics.qty);

    let thin_liquidity_signal = trade_builder_analysis_thin_liquidity_signal(root_events, submitted);
    let evidence = AutoScopeDiagnosticEvidence {
        total_pnl_usdc: sat(pnl.total),
        fee_drag_usdc: sat(pnl.fee_drag),
        cost_basis_usdc: sat(pnl.cost_basis),
        entry_slippage_usdc: sat_opt(hold.entry_slippage),
        exit_reason,
        gave_back_usdc: sat_opt(hold.gave_back),
        max_adverse_usdc: sat_opt(hold.max_adverse),
        open_to_trigger_ms,
        trigger_to_buy_fill_ms,
        submit_to_fill_ms: tm.submit_to_fill_ms,
        thin_liquidity_signal,
        is_open_position,
    };
    let (entry_quality_score, exit_quality_score) = trade_builder_analysis_quality_scores(&evidence, tm.snapshot_age_ms);
    let (primary_diagnosis_code, secondary_diagnosis_code, diagnosis_label, diagnosis_detail) =
        trade_builder_analysis_choose_diagnosis(&evidence);
    proof {
        let ghost spec_ev = spec_evidence(pnl, hold, last_exit_reason(rows@), open_to_trigger_ms, trigger_to_buy_fill_ms,
            tm.submit_to_fill_ms, thin_liquidity_signal, is_open_position);
        assert(same_evidence(evidence, spec_ev));
        lemma_same_evidence_same_diagnosis(evidence, spec_ev);
    }

    let data_quality_flags = quality_flags(
        rows,
        submitted,
        filled,
        flow_created,
        buy_metrics.first_filled_at,
        entry.reference,
        root_order.outcome_label.as_str(),
        path.sample_count,
        is_open_position,
        sell_allocation_summary.ignored_sell_qty,
    );
    let compact_metrics_json = compact_metrics(
        buy_metrics,
        sell_allocation_summary,
        &totals,
        path.sample_count,
        thin_liquidity_signal,
        tm.submitted_at,
        hold_end,
    );
    let exit_reason_out: Option<String> = match last_row {
        Some(row) => Some(row.exit_reason.clone()),
        None => None,
    };
    let (definition_id, run_id) = if rows.len() > 0 { (rows[0].definition_id, rows[0].run_id) } else { (0, 0) };

    TradeFlowAutoScopeTradeDiagnosticInput {
        root_builder_order_id: root_order.id,
        user_id: root_order.user_id,
        definition_id,
        run_id,
        market_slug: root_order.market_slug.clone(),
        token_id: root_order.token_id.clone(),
        outcome_label: root_order.outcome_label.clone(),
        total_pnl_usdc: pnl.total,
        realized_pnl_usdc: pnl.realized,
        open_pnl_usdc: pnl.open,
        pnl_pct: pnl.pnl_pct,
        fee_drag_usdc: pnl.fee_drag,
        cost_basis_usdc: pnl.cost_basis,
        net_value_usdc: pnl.net_value,
        entry_trigger_price: entry.trigger,
        entry_submit_price: entry.submit,
        entry_fill_price: entry.fill,
        entry_reference_price: entry.reference,
        entry_slippage_usdc: hold.entry_slippage,
        entry_quality_score,
        exit_reason: exit_reason_out,
        exit_price,
        best_price_during_hold: path.best_price,
        worst_price_during_hold: path.worst_price,
        max_favorable_usdc: hold.max_favorable,
        max_adverse_usdc: hold.max_adverse,
        gave_back_usdc: hold.gave_back,
        exit_quality_score,
        open_to_trigger_ms,
        trigger_to_buy_fill_ms,
        trigger_to_submit_ms: tm.trigger_to_submit_ms,
        submit_to_fill_ms: tm.submit_to_fill_ms,
        hold_ms: tm.hold_ms,
        snapshot_age_ms: tm.snapshot_age_ms,
        runtime_price_fetch_ms: tm.runtime_price_fetch_ms,
        guard_eval_ms: tm.guard_eval_ms,
        place_http_ms: tm.place_http_ms,
        primary_diagnosis_code,
        secondary_diagnosis_code,
        diagnosis_label,
        diagnosis_detail,
        data_quality_flags,
        compact_metrics_json,
    }
}

/// The quantity and price of a `filled` event: its actual fill quantity
/// (else its canonical entry quantity) and its execution price, both
/// positive; none for any other event.
pub open spec fn event_fill(e: TradeBuilderOrderEventRecord) -> Option<(i64, i64)> {
    if e.event_type@ != "filled"@ {
        None
    } else {
        match (first_key_micros(e.payload_json@, seq!["actual_fill_qty"@, "canonical_entry_qty"@]),
            first_key_micros(e.payload_json@, seq!["execution_price"@])) {
            (Some(q), Some(p)) => if q > 0 && p > 0 { Some((q, p)) } else { None },
            _ => None,
        }
    }
}

/// The quantity the fills of some events add up to.
pub open spec fn fill_qty_sum(evs: Seq<TradeBuilderOrderEventRecord>) -> int
    decreases evs.len(),
{
    if evs.len() == 0 {
        0
    } else {
        fill_qty_sum(evs.drop_last()) + match event_fill(evs.last()) { Some((q, p)) => q as int, None => 0 }
    }
}

/// What the fills of some events cost, in millionths of millionths of a
/// USDC.
pub open spec fn fill_value_sum(evs: Seq<TradeBuilderOrderEventRecord>) -> int
    decreases evs.len(),
{
    if evs.len() == 0 {
        0
    } else {
        fill_value_sum(evs.drop_last()) + match event_fill(evs.last()) { Some((q, p)) => q * p, None => 0 }
    }
}

/// When the first (or last) fill among some events was recorded.
pub open spec fn fill_time(evs: Seq<TradeBuilderOrderEventRecord>, last: bool) -> Option<i64>
    decreases evs.len(),
{
    if evs.len() == 0 {
        None
    } else {
        let before = fill_time(evs.drop_last(), last);
        match event_fill(evs.last()) {
            Some(_) => match before {
                Some(t) => Some(if (last && evs.last().created_at > t) || (!last && evs.last().created_at < t) { evs.last().created_at } else { t }),
                None => Some(evs.last().created_at),
            },
            None => before,
        }
    }
}

proof fn lemma_fill_sums_grow(evs: Seq<TradeBuilderOrderEventRecord>, n: int)
    requires
        0 <= n <= evs.len(),
    ensures
        0 <= fill_qty_sum(evs.subrange(0, n)) <= fill_qty_sum(evs),
        0 <= fill_value_sum(evs.subrange(0, n)) <= fill_value_sum(evs),
    decreases evs.len() - n,
{
    if n < evs.len() {
        lemma_fill_sums_grow(evs.drop_last(), n);
        assert(evs.drop_last().subrange(0, n) =~= evs.subrange(0, n));
        match event_fill(evs.last()) {
            Some((q, p)) => {
                assert(q * p >= 0) by (nonlinear_arith) requires q > 0, p > 0;
            },
            None => {},
        }
    } else {
        assert(evs.subrange(0, n) =~= evs);
        lemma_fill_sums_nonneg(evs);
    }
}

proof fn lemma_fill_sums_nonneg(evs: Seq<TradeBuilderOrderEventRecord>)
    ensures
        0 <= fill_qty_sum(evs),
        0 <= fill_value_sum(evs),
    decreases evs.len(),
{
    if evs.len() > 0 {
        lemma_fill_sums_nonneg(evs.drop_last());
        match event_fill(evs.last()) {
            Some((q, p)) => {
                assert(q * p >= 0) by (nonlinear_arith) requires q > 0, p > 0;
            },
            None => {},
        }
    }
}

/// The buy metrics of an order from its `filled` events alone: the fills'
/// quantity, their cost (rounded half away from zero to a millionth), no
/// fee, when the first and last of them were recorded, and their average
/// price (rounded likewise; none without a fill). The fills add up to at
/// most the largest `i64` (quantity and cost).
pub fn trade_builder_analysis_fallback_order_metrics(events: &[TradeBuilderOrderEventRecord]) -> (r: AutoScopeAnalysisOrderMetrics)
    requires
        fill_qty_sum(events@) <= i64::MAX,
        fill_value_sum(events@) <= i64::MAX * 1_000_000,
    ensures
        r.qty == fill_qty_sum(events@),
        r.notional_usdc == round_half_away(fill_value_sum(events@), 1_000_000),
        r.fee_usdc == 0,
        r.first_filled_at == fill_time(events@, false),
        r.last_filled_at == fill_time(events@, true),
        r.avg_price == (if fill_qty_sum(events@) > 0 {
            Some(round_half_away(fill_value_sum(events@), fill_qty_sum(events@)) as i64)
        } else {
            None
        }),
{
    let qty_keys = ["actual_fill_qty", "canonical_entry_qty"];
    assert(key_views(qty_keys@) =~= seq!["actual_fill_qty"@, "canonical_entry_qty"@]);
    let price_keys = ["execution_price"];
    assert(key_views(price_keys@) =~= seq!["execution_price"@]);
    let mut qty: i128 = 0;
    let mut value: i128 = 0;
    let mut first_filled_at: Option<i64> = None;
    let mut last_filled_at: Option<i64> = None;
    let mut i: usize = 0;
    while i < events.len()
        invariant
            i <= events.len(),
            key_views(qty_keys@) == seq!["actual_fill_qty"@, "canonical_entry_qty"@],
            key_views(price_keys@) == seq!["execution_price"@],
            fill_qty_sum(events@) <= i64::MAX,
            fill_value_sum(events@) <= i64::MAX * 1_000_000,
            qty == fill_qty_sum(events@.subrange(0, i as int)),
            value == fill_value_sum(events@.subrange(0, i as int)),
            first_filled_at == fill_time(events@.subrange(0, i as int), false),
            last_filled_at == fill_time(events@.subrange(0, i as int), true),
        decreases events.len() - i,
    {
        let ghost pre = events@.subrange(0, i + 1);
        assert(pre.drop_last() =~= events@.subrange(0, i as int));
        assert(pre.last() == events@[i as int]);
        proof {
            lemma_fill_sums_grow(events@, i + 1);
            lemma_fill_sums_grow(events@, i as int);
        }
        let e = &events[i];
        if str_eq(e.event_type.as_str(), "filled") {
            let q = trade_builder_analysis_payload_number(&e.payload_json, &qty_keys);
            let p = trade_builder_analysis_payload_number(&e.payload_json, &price_keys);
            match (q, p) {
                (Some(q), Some(p)) => {
                    if q > 0 && p > 0 {
                        proof {
                            assert(0 < (q as int) * (p as int) <= 0x7fff_ffff_ffff_ffff * 0x7fff_ffff_ffff_ffff) by (nonlinear_arith)
                                requires 0 < q, 0 < p;
                        }
                        qty = qty + q as i128;
                        value = value + (q as i128) * (p as i128);
                        first_filled_at = match first_filled_at {
                            Some(t) => Some(if e.created_at < t { e.created_at } else { t }),
                            None => Some(e.created_at),
                        };
                        last_filled_at = match last_filled_at {
                            Some(t) => Some(if e.created_at > t { e.created_at } else { t }),
                            None => Some(e.created_at),
                        };
                    }
                },
                _ => {},
            }
        }
        i = i + 1;
    }
    assert(events@.subrange(0, events@.len() as int) =~= events@);
    proof { lemma_fill_sums_nonneg(events@); }
    let notional = round_div(value, 1_000_000);
    proof {
        lemma_round_bound(value as int, 1_000_000);
        assert((2 * value + 1_000_000) / 2_000_000 <= 0x7fff_ffff_ffff_ffff) by (nonlinear_arith)
            requires 0 <= value <= 0x7fff_ffff_ffff_ffff * 1_000_000;
    }
    let avg_price: Option<i64> = if qty > 0 {
        let a = round_div(value, qty);
        proof {
            if qty >= 2 {
                lemma_round_bound(value as int, qty as int);
                assert((value as int) / (qty as int) <= value) by (nonlinear_arith) requires value >= 0, qty >= 2;
            } else {
                let x = value as int;
                assert((2 * x + 1) / 2 == x) by (nonlinear_arith) requires x >= 0;
            }
        }
        Some(a as i64)
    } else {
        None
    };
    AutoScopeAnalysisOrderMetrics {
        qty: qty as i64,
        notional_usdc: notional as i64,
        fee_usdc: 0,
        first_filled_at,
        last_filled_at,
        avg_price,
    }
}

/// The sell summary of a trade from its rows: everything its sell exits
/// sold, rounded to hundredths of a share, observed and allocated, none
/// ignored. (At most 2^56 rows, more than memory holds, that sell less
/// than the largest `i64` less half a hundredth.)
pub open spec fn spec_sell_summary_from_rows(rows: Seq<TradeFlowAutoScopeAnalysisRowInput>) -> AutoScopeAnalysisSellAllocationSummary {
    let sold = share_hundredths(row_sum(rows, rows_of_type("sell_exit"@), row_qty())) * 10_000;
    AutoScopeAnalysisSellAllocationSummary {
        observed_sell_qty: sold as i64,
        allocated_sold_qty: sold as i64,
        ignored_sell_qty: 0,
    }
}

pub fn trade_builder_analysis_sell_summary_from_rows(rows: &[TradeFlowAutoScopeAnalysisRowInput]) -> (r: AutoScopeAnalysisSellAllocationSummary)
    requires
        rows.len() <= 0x100_0000_0000_0000,
        row_sum(rows@, rows_of_type("sell_exit"@), row_qty()) <= i64::MAX - 5_000,
    ensures
        r == spec_sell_summary_from_rows(rows@),
{
    proof { lemma_row_sum_bound(rows@, rows_of_type("sell_exit"@), row_qty()); }
    let totals = row_totals(rows);
    let sold = totals.sold_qty;
    let c: i128 = if sold <= 0 { 0 } else { (sold + 5_000) / 10_000 };
    proof {
        if sold > 0 {
            assert(c * 10_000 <= sold + 5_000) by (nonlinear_arith) requires c == (sold + 5_000) / 10_000, sold > 0;
        }
    }
    let q = (c * 10_000) as i64;
    AutoScopeAnalysisSellAllocationSummary { observed_sell_qty: q, allocated_sold_qty: q, ignored_sell_qty: 0 }
}

} // verus!
