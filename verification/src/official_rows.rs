//! The analysis rows of a trade rebuilt from its official ledger: a sell
//! row for what it sold, and for what was left either a settled row (from a
//! redemption, or nothing once the market ended) or an open row marked at
//! the local open row's price; with the reconciliation against the
//! library's own profit. Amounts in millionths of a USDC at the feed's
//! precision of five decimals, quantities in millionths of a share.
use vstd::prelude::*;
use crate::analysis::{
    TradeFlowAutoScopeAnalysisRowInput, spec_official_exit_reason, trade_builder_analysis_official_exit_reason,
    spec_market_end_at_from_slug, trade_builder_analysis_market_end_at_from_slug, trade_builder_analysis_market_has_ended,
};
use crate::analysis_pnl::{round_half_away, round_div, lemma_round_bound, spec_pnl_breakdown, trade_builder_analysis_pnl_breakdown};
use crate::official_pnl::{
    AutoScopeOfficialLedger, AutoScopeAnalysisPnlReconciliation, spec_official_cash, spec_official_share_qty, spec_pct,
    spec_redeem_fits_residual, trade_builder_analysis_redeem_fits_residual,
};
use crate::trade_diagnostic::AutoScopeAnalysisSellAllocationSummary;
use crate::order::TradeBuilderOrder;
use crate::text::{int_decimal, i64_decimal, concat3, str_eq};
use crate::trade_diagnostic::sat_i64;

verus! {

broadcast use vstd::string::group_string_axioms;

/// What a row records of the flow run a trade belongs to.
pub struct TradeFlowRun {
    pub id: i64,
    pub user_id: i64,
    pub definition_id: i64,
}

/// The timings of a trade's entry.
pub struct AutoScopeOfficialPnlTiming {
    pub market_open_at: Option<i64>,
    pub triggered_at: Option<i64>,
    pub buy_filled_at: Option<i64>,
    pub open_to_trigger_ms: Option<i64>,
    pub trigger_to_buy_fill_ms: Option<i64>,
}

/// Amounts of a ledger that rows can hold exactly: quantities of none or
/// more at the feed's precision, and every figure within 2^50 millionths
/// (about a billion shares or USDC).
pub open spec fn ledger_in_range(l: AutoScopeOfficialLedger) -> bool {
    &&& l.buy_qty % 10 == 0 && l.sell_qty % 10 == 0
    &&& 0 <= l.buy_qty <= 0x4_0000_0000_0000
    &&& 0 <= l.sell_qty <= 0x4_0000_0000_0000
    &&& -0x4_0000_0000_0000 <= l.buy_usdc <= 0x4_0000_0000_0000
    &&& -0x4_0000_0000_0000 <= l.sell_usdc <= 0x4_0000_0000_0000
    &&& 0 <= l.redeem_usdc <= 0x4_0000_0000_0000
}

/// `num / den` at the feed's precision (`den > 0`).
pub open spec fn feed_ratio(num: int, den: int) -> int {
    round_half_away(num, den * 10) * 10
}

fn feed_ratio_of(num: i128, den: i128) -> (r: i128)
    requires
        1 <= den <= 0x0100_0000_0000_0000_0000_0000_0000_0000,
        -0x2000_0000_0000_0000_0000_0000_0000_0000 <= num <= 0x2000_0000_0000_0000_0000_0000_0000_0000,
    ensures
        r == feed_ratio(num as int, den as int),
        (num >= 0 ==> 0 <= r <= (num as int) / (den as int) + 10),
        (num < 0 ==> -((-num as int) / (den as int) + 10) <= r <= 0),
{
    let q = round_div(num, den * 10);
    proof {
        lemma_round_bound(num as int, den * 10);
        if num >= 0 {
            assert((num as int) / (den * 10) * 10 <= (num as int) / (den as int)) by (nonlinear_arith)
                requires num >= 0, den >= 1;
            assert((num as int) / (den * 10) <= num) by (nonlinear_arith)
                requires num >= 0, den >= 1;
        } else {
            assert((-num as int) / (den * 10) * 10 <= (-num as int) / (den as int)) by (nonlinear_arith)
                requires num < 0, den >= 1;
            assert((-num as int) / (den * 10) <= -num) by (nonlinear_arith)
                requires num < 0, den >= 1;
        }
    }
    q * 10
}

/// A quotient of something within `m` times its divisor is within `m`.
proof fn lemma_quotient_bound(n: int, b: int, m: int)
    requires
        b >= 1,
        m >= 0,
        -(m * b) <= n <= m * b,
    ensures
        n >= 0 ==> n / b <= m,
        n < 0 ==> (-n) / b <= m,
{
    if n >= 0 {
        assert(n / b <= m) by (nonlinear_arith) requires 0 <= n <= m * b, b >= 1;
    } else {
        assert((-n) / b <= m) by (nonlinear_arith) requires 0 < -n <= m * b, b >= 1;
    }
}

/// Shares of at most the bought quantity at the cost per share cost within
/// the bought cost's bound; what they redeem for less that cost, within
/// twice it.
proof fn lemma_row_products(q: int, u: int, x: int, b: int)
    requires
        1 <= b <= 0x4_0000_0000_0000,
        0 <= q <= b,
        -0x4_0000_0000_0000 <= u <= 0x4_0000_0000_0000,
        -0x4_0000_0000_0000 <= x <= 0x4_0000_0000_0000,
    ensures
        -(0x4_0000_0000_0000 * b) <= q * u <= 0x4_0000_0000_0000 * b,
        -(0x8_0000_0000_0000 * b) <= x * b - q * u <= 0x8_0000_0000_0000 * b,
        -0x10_0000_0000_0000_0000_0000_0000 <= q * u <= 0x10_0000_0000_0000_0000_0000_0000,
        -0x20_0000_0000_0000_0000_0000_0000 <= x * b - q * u <= 0x20_0000_0000_0000_0000_0000_0000,
{
    assert(-(0x4_0000_0000_0000 * b) <= q * u <= 0x4_0000_0000_0000 * b) by (nonlinear_arith)
        requires 0 <= q <= b, -0x4_0000_0000_0000 <= u <= 0x4_0000_0000_0000;
    assert(-(0x4_0000_0000_0000 * b) <= x * b <= 0x4_0000_0000_0000 * b) by (nonlinear_arith)
        requires b >= 1, -0x4_0000_0000_0000 <= x <= 0x4_0000_0000_0000;
    assert(0x8_0000_0000_0000 * b <= 0x8_0000_0000_0000 * 0x4_0000_0000_0000) by (nonlinear_arith)
        requires b <= 0x4_0000_0000_0000;
}

/// The identity a rebuilt row carries: its key (a prefix and the root
/// order's id), the run, the root order and its market, token and outcome,
/// its type, exit reason and valuation, and the entry's timings.
pub open spec fn row_identity(
    r: TradeFlowAutoScopeAnalysisRowInput,
    order: TradeBuilderOrder,
    run: TradeFlowRun,
    timing: AutoScopeOfficialPnlTiming,
    key_prefix: Seq<char>,
    row_type: Seq<char>,
    exit_reason: Seq<char>,
    valuation_kind: Seq<char>,
) -> bool {
    &&& r.row_key@ == key_prefix + int_decimal(order.id as int)
    &&& r.user_id == run.user_id
    &&& r.definition_id == run.definition_id
    &&& r.run_id == run.id
    &&& r.root_builder_order_id == order.id
    &&& r.row_type@ == row_type
    &&& r.market_slug@ == order.market_slug@
    &&& r.token_id@ == order.token_id@
    &&& r.outcome_label@ == order.outcome_label@
    &&& r.exit_reason@ == exit_reason
    &&& r.valuation_kind@ == valuation_kind
    &&& r.market_open_at == timing.market_open_at
    &&& r.triggered_at == timing.triggered_at
    &&& r.open_to_trigger_ms == timing.open_to_trigger_ms
    &&& r.trigger_to_buy_fill_ms == timing.trigger_to_buy_fill_ms
}

/// When the buy filled: the ledger's first buy, else the entry's fill.
pub open spec fn buy_filled_at(ledger: AutoScopeOfficialLedger, timing: AutoScopeOfficialPnlTiming) -> Option<i64> {
    match ledger.first_buy_at {
        Some(t) => Some(t),
        None => timing.buy_filled_at,
    }
}

/// The settled row of `row_qty` shares bought at the ledger's cost per
/// share and redeemed for `redeem_usdc`: its cost basis (the shares at the
/// cost per share), its profit (the redemption less the cost), its mark and
/// net value (the redemption), no fees and nothing left.
pub open spec fn settled_row_numbers(r: TradeFlowAutoScopeAnalysisRowInput, ledger: AutoScopeOfficialLedger, row_qty: int, redeem_usdc: int) -> bool {
    let b = ledger.buy_qty as int;
    let u = ledger.buy_usdc as int;
    let cost_num = row_qty * u;
    let pnl_num = redeem_usdc * b - row_qty * u;
    &&& r.buy_avg_price == Some(feed_ratio(u * 1_000_000, b) as i64)
    &&& r.row_qty == row_qty
    &&& r.remaining_qty_after_exit == 0
    &&& r.row_pnl_usdc == feed_ratio(pnl_num, b)
    &&& r.buy_notional_usdc == Some(feed_ratio(cost_num, b) as i64)
    &&& r.buy_fee_usdc == Some(0i64)
    &&& r.cost_basis_usdc == Some(feed_ratio(cost_num, b) as i64)
    &&& r.sell_notional_usdc is None
    &&& r.sell_fee_usdc is None
    &&& r.mark_value_usdc == Some(spec_official_cash(redeem_usdc) as i64)
    &&& r.net_value_usdc == Some(spec_official_cash(redeem_usdc) as i64)
    &&& r.pnl_pct == sat_pct(pnl_num, cost_num)
    &&& r.mark_or_sell_price is None
    &&& r.exit_builder_order_id is None
}

/// The row of shares that settled: redeemed (or worth nothing), recorded at
/// the last redemption.
pub fn trade_builder_analysis_settled_row(
    root_order: &TradeBuilderOrder,
    run: &TradeFlowRun,
    timing: &AutoScopeOfficialPnlTiming,
    ledger: &AutoScopeOfficialLedger,
    row_qty: i64,
    redeem_usdc: i64,
) -> (r: TradeFlowAutoScopeAnalysisRowInput)
    requires
        ledger_in_range(*ledger),
        ledger.buy_qty > 0,
        0 <= row_qty <= ledger.buy_qty,
        0 <= redeem_usdc <= 0x4_0000_0000_0000,
    ensures
        row_identity(r, *root_order, *run, *timing, "settled:"@, "settled_payout"@, "other"@, "settled"@),
        settled_row_numbers(r, *ledger, row_qty as int, redeem_usdc as int),
        r.buy_filled_at == buy_filled_at(*ledger, *timing),
        r.sell_filled_at == ledger.last_redeem_at,
        r.mark_price_captured_at == ledger.last_redeem_at,
{
    let b = ledger.buy_qty;
    let u = ledger.buy_usdc;
    proof {
        lemma_row_products(row_qty as int, u as int, redeem_usdc as int, b as int);
    }
    let cost_num: i128 = (row_qty as i128) * u;
    let pnl_num: i128 = (redeem_usdc as i128) * b - cost_num;
    proof {
        lemma_row_products(b as int, u as int, 0, b as int);
        assert(-(0x4_0000_0000_0000 * 1_000_000 * b) <= u * 1_000_000 <= 0x4_0000_0000_0000 * 1_000_000 * b) by (nonlinear_arith)
            requires b >= 1, -0x4_0000_0000_0000 <= u <= 0x4_0000_0000_0000;
        lemma_quotient_bound(u * 1_000_000, b as int, 0x4_0000_0000_0000int * 1_000_000int);
        lemma_quotient_bound(cost_num as int, b as int, 0x4_0000_0000_0000);
        lemma_quotient_bound(pnl_num as int, b as int, 0x8_0000_0000_0000);
    }
    let avg = feed_ratio_of(u * 1_000_000, b);
    let cost = feed_ratio_of(cost_num, b);
    let pnl = feed_ratio_of(pnl_num, b);
    let pct = pct_of(pnl_num, cost_num);
    let redeem = feed_cash(redeem_usdc);
    let key = concat3("settled:", i64_decimal(root_order.id).as_str(), "");
    proof {
        reveal_strlit("");
        assert(key@ =~= "settled:"@ + int_decimal(root_order.id as int));
    }
    TradeFlowAutoScopeAnalysisRowInput {
        row_key: key,
        user_id: run.user_id,
        definition_id: run.definition_id,
        run_id: run.id,
        root_builder_order_id: root_order.id,
        exit_builder_order_id: None,
        row_type: "settled_payout".to_string(),
        market_slug: root_order.market_slug.clone(),
        token_id: root_order.token_id.clone(),
        outcome_label: root_order.outcome_label.clone(),
        exit_reason: "other".to_string(),
        market_open_at: timing.market_open_at,
        triggered_at: timing.triggered_at,
        buy_filled_at: match ledger.first_buy_at { Some(t) => Some(t), None => timing.buy_filled_at },
        sell_filled_at: ledger.last_redeem_at,
        open_to_trigger_ms: timing.open_to_trigger_ms,
        trigger_to_buy_fill_ms: timing.trigger_to_buy_fill_ms,
        buy_avg_price: Some(avg as i64),
        mark_or_sell_price: None,
        mark_price_captured_at: ledger.last_redeem_at,
        row_qty,
        remaining_qty_after_exit: 0,
        row_pnl_usdc: pnl as i64,
        buy_notional_usdc: Some(cost as i64),
        buy_fee_usdc: Some(0),
        cost_basis_usdc: Some(cost as i64),
        sell_notional_usdc: None,
        sell_fee_usdc: None,
        mark_value_usdc: Some(redeem),
        net_value_usdc: Some(redeem),
        pnl_pct: pct,
        valuation_kind: "settled".to_string(),
    }
}

/// A profit as a percentage of a positive cost basis (see `spec_pct`),
/// saturated to an `i64`.
pub open spec fn sat_pct(pnl: int, cost: int) -> Option<i64> {
    match spec_pct(pnl, cost) {
        Some(p) => Some(sat_i64(p)),
        None => None,
    }
}

fn pct_of(pnl: i128, cost: i128) -> (r: Option<i64>)
    requires
        -0x20_0000_0000_0000_0000_0000_0000 <= pnl <= 0x20_0000_0000_0000_0000_0000_0000,
        -0x10_0000_0000_0000_0000_0000_0000 <= cost <= 0x10_0000_0000_0000_0000_0000_0000,
    ensures
        r == sat_pct(pnl as int, cost as int),
{
    if cost <= 0 {
        return None;
    }
    let q = round_div(pnl * 10_000, cost);
    proof {
        if cost >= 2 {
            lemma_round_bound(pnl * 10_000, cost as int);
            if pnl >= 0 {
                assert((pnl * 10_000) / (cost as int) <= pnl * 10_000) by (nonlinear_arith) requires pnl >= 0, cost >= 2;
            } else {
                assert((-(pnl * 10_000)) / (cost as int) <= -(pnl * 10_000)) by (nonlinear_arith) requires pnl < 0, cost >= 2;
            }
        }
    }
    Some(if q > 922_337_203_685_477 { i64::MAX } else if q < -922_337_203_685_477 { i64::MIN } else { (q * 10_000) as i64 })
}

/// An amount at the feed's precision.
fn feed_cash(micros: i64) -> (r: i64)
    requires
        -0x4_0000_0000_0000 <= micros <= 0x4_0000_0000_0000,
    ensures
        r == spec_official_cash(micros as int),
{
    let r = feed_ratio_of(micros as i128, 1);
    r as i64
}

/// A rounded amount of the breakdown, held in an `i64`.
fn to_i64(x: i128) -> (r: i64)
    requires
        i64::MIN <= x <= i64::MAX,
    ensures
        r == x,
{
    x as i64
}

fn sat_opt(x: Option<i128>) -> (r: Option<i64>)
    ensures
        r == match x { Some(v) => Some(sat_i64(v as int)), None => None },
{
    match x {
        Some(v) => Some(if v > i64::MAX as i128 { i64::MAX } else if v < i64::MIN as i128 { i64::MIN } else { v as i64 }),
        None => None,
    }
}

/// The settled row of shares taken as lost once the market ended with no
/// redemption: the breakdown of `row_qty` shares at the buy's notional and
/// fee per share, worth nothing; recorded at the market's end.
pub fn trade_builder_analysis_assumed_lost_settled_row(
    root_order: &TradeBuilderOrder,
    run: &TradeFlowRun,
    timing: &AutoScopeOfficialPnlTiming,
    row_qty: i64,
    buy_avg_price: i64,
    buy_notional_per_share: i64,
    buy_fee_per_share: i64,
) -> (r: TradeFlowAutoScopeAnalysisRowInput)
    requires
        -1_000_000_000_000_000 <= row_qty <= 1_000_000_000_000_000,
        -1_000_000_000 <= buy_notional_per_share <= 1_000_000_000,
        -1_000_000_000 <= buy_fee_per_share <= 1_000_000_000,
    ensures
        row_identity(r, *root_order, *run, *timing, "settled:"@, "settled_payout"@, "other"@, "settled"@),
        ({
            let b = spec_pnl_breakdown(row_qty, buy_notional_per_share, buy_fee_per_share, 0);
            &&& r.row_pnl_usdc == b.row_pnl_usdc
            &&& r.buy_notional_usdc == Some(b.buy_notional_usdc as i64)
            &&& r.buy_fee_usdc == Some(b.buy_fee_usdc as i64)
            &&& r.cost_basis_usdc == Some(b.cost_basis_usdc as i64)
            &&& r.pnl_pct == match b.pnl_pct { Some(p) => Some(sat_i64(p as int)), None => None }
        }),
        r.buy_avg_price == Some(buy_avg_price),
        r.row_qty == row_qty,
        r.remaining_qty_after_exit == 0,
        r.mark_value_usdc == Some(0i64),
        r.net_value_usdc == Some(0i64),
        r.sell_notional_usdc is None && r.sell_fee_usdc is None && r.mark_or_sell_price is None,
        r.exit_builder_order_id is None,
        r.buy_filled_at == timing.buy_filled_at,
        r.sell_filled_at is None,
        r.mark_price_captured_at == spec_market_end_at_from_slug(root_order.market_slug@),
{
    let b = trade_builder_analysis_pnl_breakdown(row_qty, buy_notional_per_share, buy_fee_per_share, 0);
    proof {
        let q = row_qty as int;
        assert(-1_000_000_000_000_000_000_000_000 <= q * buy_notional_per_share <= 1_000_000_000_000_000_000_000_000) by (nonlinear_arith)
            requires -1_000_000_000_000_000 <= q <= 1_000_000_000_000_000, -1_000_000_000 <= buy_notional_per_share <= 1_000_000_000;
        assert(-1_000_000_000_000_000_000_000_000 <= q * buy_fee_per_share <= 1_000_000_000_000_000_000_000_000) by (nonlinear_arith)
            requires -1_000_000_000_000_000 <= q <= 1_000_000_000_000_000, -1_000_000_000 <= buy_fee_per_share <= 1_000_000_000;
        let n = q * buy_notional_per_share;
        let f = q * buy_fee_per_share;
        lemma_round_bound(n, 10_000_000_000);
        lemma_round_bound(f, 10_000_000_000);
        lemma_round_bound(n + f, 10_000_000_000);
        lemma_round_bound(0 - (n + f), 10_000_000_000);
    }
    let key = concat3("settled:", i64_decimal(root_order.id).as_str(), "");
    proof {
        reveal_strlit("");
        assert(key@ =~= "settled:"@ + int_decimal(root_order.id as int));
    }
    TradeFlowAutoScopeAnalysisRowInput {
        row_key: key,
        user_id: run.user_id,
        definition_id: run.definition_id,
        run_id: run.id,
        root_builder_order_id: root_order.id,
        exit_builder_order_id: None,
        row_type: "settled_payout".to_string(),
        market_slug: root_order.market_slug.clone(),
        token_id: root_order.token_id.clone(),
        outcome_label: root_order.outcome_label.clone(),
        exit_reason: "other".to_string(),
        market_open_at: timing.market_open_at,
        triggered_at: timing.triggered_at,
        buy_filled_at: timing.buy_filled_at,
        sell_filled_at: None,
        open_to_trigger_ms: timing.open_to_trigger_ms,
        trigger_to_buy_fill_ms: timing.trigger_to_buy_fill_ms,
        buy_avg_price: Some(buy_avg_price),
        mark_or_sell_price: None,
        mark_price_captured_at: trade_builder_analysis_market_end_at_from_slug(root_order.market_slug.as_str()),
        row_qty,
        remaining_qty_after_exit: 0,
        row_pnl_usdc: to_i64(b.row_pnl_usdc),
        buy_notional_usdc: Some(to_i64(b.buy_notional_usdc)),
        buy_fee_usdc: Some(to_i64(b.buy_fee_usdc)),
        cost_basis_usdc: Some(to_i64(b.cost_basis_usdc)),
        sell_notional_usdc: None,
        sell_fee_usdc: None,
        mark_value_usdc: Some(0),
        net_value_usdc: Some(0),
        pnl_pct: sat_opt(b.pnl_pct),
        valuation_kind: "settled".to_string(),
    }
}

/// The position of the first row of a type.
pub open spec fn first_row_index(rows: Seq<TradeFlowAutoScopeAnalysisRowInput>, row_type: Seq<char>) -> Option<int>
    decreases rows.len(),
{
    if rows.len() == 0 {
        None
    } else if rows[0].row_type@ == row_type {
        Some(0)
    } else {
        match first_row_index(rows.drop_first(), row_type) {
            Some(i) => Some(i + 1),
            None => None,
        }
    }
}

proof fn lemma_first_row_index(rows: Seq<TradeFlowAutoScopeAnalysisRowInput>, row_type: Seq<char>)
    ensures
        first_row_index(rows, row_type) matches Some(i) ==> 0 <= i < rows.len() && rows[i].row_type@ == row_type,
    decreases rows.len(),
{
    if rows.len() > 0 && rows[0].row_type@ != row_type {
        lemma_first_row_index(rows.drop_first(), row_type);
    }
}

fn first_row_of_type<'a>(rows: &'a [TradeFlowAutoScopeAnalysisRowInput], row_type: &str) -> (r: Option<&'a TradeFlowAutoScopeAnalysisRowInput>)
    ensures
        match r {
            Some(row) => first_row_index(rows@, row_type@) matches Some(i) && 0 <= i < rows@.len() && *row == rows@[i],
            None => first_row_index(rows@, row_type@) is None,
        },
{
    let mut i: usize = 0;
    assert(rows@.subrange(0, rows@.len() as int) =~= rows@);
    while i < rows.len()
        invariant
            i <= rows.len(),
            first_row_index(rows@, row_type@) == match first_row_index(rows@.subrange(i as int, rows@.len() as int), row_type@) {
                Some(k) => Some(k + i),
                None => None,
            },
        decreases rows.len() - i,
    {
        let ghost rest = rows@.subrange(i as int, rows@.len() as int);
        assert(rest[0] == rows@[i as int]);
        if str_eq(rows[i].row_type.as_str(), row_type) {
            return Some(&rows[i]);
        }
        assert(rest.drop_first() =~= rows@.subrange(i + 1, rows@.len() as int));
        i = i + 1;
    }
    None
}

/// Local open rows are marked at probabilities.
pub open spec fn open_marks_are_probabilities(rows: Seq<TradeFlowAutoScopeAnalysisRowInput>) -> bool {
    forall|i: int| 0 <= i < rows.len() && (#[trigger] rows[i]).row_type@ == "open_position"@
        ==> (rows[i].mark_or_sell_price matches Some(p) ==> 0 <= p <= 1_000_000)
}

/// The open row of `row_qty` shares left: none without a local open row
/// marked at a price; else marked at that price (and when it was), its
/// mark and net value the shares at that price, its cost basis the shares
/// at the ledger's cost per share, its profit the difference, its return
/// the mark price's gain over the cost per share.
pub open spec fn open_row_numbers(r: TradeFlowAutoScopeAnalysisRowInput, ledger: AutoScopeOfficialLedger, row_qty: int, mark: int) -> bool {
    let b = ledger.buy_qty as int;
    let u = ledger.buy_usdc as int;
    &&& r.buy_avg_price == Some(feed_ratio(u * 1_000_000, b) as i64)
    &&& r.row_qty == row_qty
    &&& r.remaining_qty_after_exit == row_qty
    &&& r.mark_or_sell_price == Some(mark as i64)
    &&& r.row_pnl_usdc == feed_ratio(row_qty * (mark * b - u * 1_000_000), b * 1_000_000)
    &&& r.buy_notional_usdc == Some(feed_ratio(row_qty * u, b) as i64)
    &&& r.buy_fee_usdc == Some(0i64)
    &&& r.cost_basis_usdc == Some(feed_ratio(row_qty * u, b) as i64)
    &&& r.sell_notional_usdc is None
    &&& r.sell_fee_usdc is None
    &&& r.mark_value_usdc == Some(feed_ratio(row_qty * mark, 1_000_000) as i64)
    &&& r.net_value_usdc == Some(feed_ratio(row_qty * mark, 1_000_000) as i64)
    &&& r.pnl_pct == (if row_qty > 0 { sat_pct(mark * b - u * 1_000_000, u * 1_000_000) } else { None })
    &&& r.exit_builder_order_id is None
}

pub fn trade_builder_analysis_official_open_row(
    root_order: &TradeBuilderOrder,
    run: &TradeFlowRun,
    local_rows: &[TradeFlowAutoScopeAnalysisRowInput],
    timing: &AutoScopeOfficialPnlTiming,
    ledger: &AutoScopeOfficialLedger,
    row_qty: i64,
) -> (r: Option<TradeFlowAutoScopeAnalysisRowInput>)
    requires
        ledger_in_range(*ledger),
        ledger.buy_qty > 0,
        0 <= row_qty <= ledger.buy_qty,
        open_marks_are_probabilities(local_rows@),
    ensures
        match first_row_index(local_rows@, "open_position"@) {
            None => r is None,
            Some(i) => match local_rows@[i].mark_or_sell_price {
                None => r is None,
                Some(mark) => r matches Some(row)
                    && row_identity(row, *root_order, *run, *timing, "open:"@, "open_position"@, "open_position"@, "mark_to_market"@)
                    && open_row_numbers(row, *ledger, row_qty as int, mark as int)
                    && row.buy_filled_at == buy_filled_at(*ledger, *timing)
                    && row.sell_filled_at is None
                    && row.mark_price_captured_at == local_rows@[i].mark_price_captured_at,
            },
        },
{
    let local_open = match first_row_of_type(local_rows, "open_position") {
        Some(row) => row,
        None => return None,
    };
    let mark = match local_open.mark_or_sell_price {
        Some(p) => p,
        None => return None,
    };
    proof { lemma_first_row_index(local_rows@, "open_position"@); }
    let b = ledger.buy_qty;
    let u = ledger.buy_usdc;
    let q = row_qty as i128;
    let m = mark as i128;
    proof {
        lemma_row_products(row_qty as int, u as int, 0, b as int);
        assert(0 <= m * b <= 0x4_0000_0000_0000 * 1_000_000) by (nonlinear_arith)
            requires 0 <= m <= 1_000_000, 0 < b <= 0x4_0000_0000_0000;
        assert(-0x4_0000_0000_0000 * 1_000_000 <= u * 1_000_000 <= 0x4_0000_0000_0000 * 1_000_000);
    }
    let per_share_gain: i128 = m * b - u * 1_000_000;
    proof {
        assert(-0x2000_0000_0000_0000_0000_0000_0000_0000 <= q * per_share_gain <= 0x2000_0000_0000_0000_0000_0000_0000_0000) by (nonlinear_arith)
            requires 0 <= q <= 0x4_0000_0000_0000, -0x8_0000_0000_0000 * 1_000_000 <= per_share_gain <= 0x8_0000_0000_0000 * 1_000_000;
        assert(0 <= q * m <= 0x4_0000_0000_0000 * 1_000_000) by (nonlinear_arith)
            requires 0 <= q <= 0x4_0000_0000_0000, 0 <= m <= 1_000_000;
        lemma_quotient_bound(u * 1_000_000, b as int, 0x4_0000_0000_0000int * 1_000_000int);
        assert(-(0x4_0000_0000_0000 * 1_000_000 * b) <= u * 1_000_000 <= 0x4_0000_0000_0000 * 1_000_000 * b) by (nonlinear_arith)
            requires b >= 1, -0x4_0000_0000_0000 <= u <= 0x4_0000_0000_0000;
        lemma_quotient_bound(u * 1_000_000, b as int, 0x4_0000_0000_0000int * 1_000_000int);
        lemma_quotient_bound(q * u, b as int, 0x4_0000_0000_0000);
        lemma_quotient_bound(q * m, 1_000_000, 0x4_0000_0000_0000);
        assert(-(0x8_0000_0000_0000 * (b * 1_000_000)) <= q * per_share_gain <= 0x8_0000_0000_0000 * (b * 1_000_000)) by (nonlinear_arith)
            requires 0 <= q <= b, -0x8_0000_0000_0000 * 1_000_000 <= per_share_gain <= 0x8_0000_0000_0000 * 1_000_000, b >= 1;
        lemma_quotient_bound(q * per_share_gain, b * 1_000_000, 0x8_0000_0000_0000);
    }
    let avg = feed_ratio_of(u * 1_000_000, b);
    let cost = feed_ratio_of(q * u, b);
    let mark_value = feed_ratio_of(q * m, 1_000_000);
    let pnl = feed_ratio_of(q * per_share_gain, b * 1_000_000);
    let pct = if row_qty > 0 { pct_of(per_share_gain, u * 1_000_000) } else { None };
    let key = concat3("open:", i64_decimal(root_order.id).as_str(), "");
    proof {
        reveal_strlit("");
        assert(key@ =~= "open:"@ + int_decimal(root_order.id as int));
    }
    Some(TradeFlowAutoScopeAnalysisRowInput {
        row_key: key,
        user_id: run.user_id,
        definition_id: run.definition_id,
        run_id: run.id,
        root_builder_order_id: root_order.id,
        exit_builder_order_id: None,
        row_type: "open_position".to_string(),
        market_slug: root_order.market_slug.clone(),
        token_id: root_order.token_id.clone(),
        outcome_label: root_order.outcome_label.clone(),
        exit_reason: "open_position".to_string(),
        market_open_at: timing.market_open_at,
        triggered_at: timing.triggered_at,
        buy_filled_at: match ledger.first_buy_at { Some(t) => Some(t), None => timing.buy_filled_at },
        sell_filled_at: None,
        open_to_trigger_ms: timing.open_to_trigger_ms,
        trigger_to_buy_fill_ms: timing.trigger_to_buy_fill_ms,
        buy_avg_price: Some(avg as i64),
        mark_or_sell_price: Some(mark),
        mark_price_captured_at: local_open.mark_price_captured_at,
        row_qty,
        remaining_qty_after_exit: row_qty,
        row_pnl_usdc: pnl as i64,
        buy_notional_usdc: Some(cost as i64),
        buy_fee_usdc: Some(0),
        cost_basis_usdc: Some(cost as i64),
        sell_notional_usdc: None,
        sell_fee_usdc: None,
        mark_value_usdc: Some(mark_value as i64),
        net_value_usdc: Some(mark_value as i64),
        pnl_pct: pct,
        valuation_kind: "mark_to_market".to_string(),
    })
}

/// The exit order of the first local sell row.
pub open spec fn local_exit_order(rows: Seq<TradeFlowAutoScopeAnalysisRowInput>) -> Option<i64> {
    match first_row_index(rows, "sell_exit"@) {
        Some(i) => rows[i].exit_builder_order_id,
        None => None,
    }
}

/// What a ledger sold of what it bought, and what was left (at the feed's
/// precision).
pub open spec fn sold_qty(l: AutoScopeOfficialLedger) -> int {
    if l.sell_qty < l.buy_qty { l.sell_qty as int } else { l.buy_qty as int }
}

pub open spec fn residual_qty(l: AutoScopeOfficialLedger) -> int {
    spec_official_share_qty(if l.buy_qty - sold_qty(l) < 0 { 0 } else { l.buy_qty - sold_qty(l) })
}

/// The sell row of what a ledger sold: at the ledger's cost per share, for
/// what the sells brought, with what was left after it.
pub open spec fn sell_row_numbers(r: TradeFlowAutoScopeAnalysisRowInput, ledger: AutoScopeOfficialLedger, local_rows: Seq<TradeFlowAutoScopeAnalysisRowInput>) -> bool {
    let b = ledger.buy_qty as int;
    let u = ledger.buy_usdc as int;
    let s = sold_qty(ledger);
    let x = ledger.sell_usdc as int;
    &&& r.buy_avg_price == Some(feed_ratio(u * 1_000_000, b) as i64)
    &&& r.row_qty == spec_official_share_qty(s)
    &&& r.remaining_qty_after_exit == residual_qty(ledger)
    &&& r.row_pnl_usdc == feed_ratio(x * b - s * u, b)
    &&& r.buy_notional_usdc == Some(feed_ratio(s * u, b) as i64)
    &&& r.buy_fee_usdc == Some(0i64)
    &&& r.cost_basis_usdc == Some(feed_ratio(s * u, b) as i64)
    &&& r.sell_notional_usdc == Some(spec_official_cash(x) as i64)
    &&& r.sell_fee_usdc == Some(0i64)
    &&& r.mark_value_usdc is None
    &&& r.net_value_usdc == Some(spec_official_cash(x) as i64)
    &&& r.pnl_pct == sat_pct(x * b - s * u, s * u)
    &&& r.mark_or_sell_price == ledger.sell_price
    &&& r.exit_builder_order_id == local_exit_order(local_rows)
    &&& r.sell_filled_at == ledger.last_sell_at
    &&& r.mark_price_captured_at == ledger.last_sell_at
}

fn local_exit_order_of(rows: &[TradeFlowAutoScopeAnalysisRowInput]) -> (r: Option<i64>)
    ensures
        r == local_exit_order(rows@),
{
    match first_row_of_type(rows, "sell_exit") {
        Some(row) => row.exit_builder_order_id,
        None => None,
    }
}

fn official_sell_row(
    root_order: &TradeBuilderOrder,
    run: &TradeFlowRun,
    local_rows: &[TradeFlowAutoScopeAnalysisRowInput],
    timing: &AutoScopeOfficialPnlTiming,
    ledger: &AutoScopeOfficialLedger,
) -> (r: TradeFlowAutoScopeAnalysisRowInput)
    requires
        ledger_in_range(*ledger),
        sold_qty(*ledger) > 0,
    ensures
        row_identity(r, *root_order, *run, *timing, "official_sell:"@, "sell_exit"@, spec_official_exit_reason(local_rows@), "realized"@),
        sell_row_numbers(r, *ledger, local_rows@),
        r.buy_filled_at == buy_filled_at(*ledger, *timing),
{
    let b = ledger.buy_qty;
    let u = ledger.buy_usdc;
    let x = ledger.sell_usdc;
    let s: i128 = if ledger.sell_qty < b { ledger.sell_qty } else { b };
    proof {
        lemma_row_products(s as int, u as int, x as int, b as int);
        lemma_quotient_bound(s * u, b as int, 0x4_0000_0000_0000);
        lemma_quotient_bound(x * b - s * u, b as int, 0x8_0000_0000_0000);
        assert(-(0x4_0000_0000_0000 * 1_000_000 * b) <= u * 1_000_000 <= 0x4_0000_0000_0000 * 1_000_000 * b) by (nonlinear_arith)
            requires b >= 1, -0x4_0000_0000_0000 <= u <= 0x4_0000_0000_0000;
        lemma_quotient_bound(u * 1_000_000, b as int, 0x4_0000_0000_0000int * 1_000_000int);
    }
    let cost_num: i128 = s * u;
    let pnl_num: i128 = x * b - cost_num;
    let avg = feed_ratio_of(u * 1_000_000, b);
    let cost = feed_ratio_of(cost_num, b);
    let pnl = feed_ratio_of(pnl_num, b);
    let pct = pct_of(pnl_num, cost_num);
    let sold = feed_ratio_of(s, 1);
    let rest_raw: i128 = if b - s < 0 { 0 } else { b - s };
    let rest = feed_ratio_of(rest_raw, 1);
    let cash = feed_ratio_of(x, 1);
    let key = concat3("official_sell:", i64_decimal(root_order.id).as_str(), "");
    proof {
        reveal_strlit("");
        assert(key@ =~= "official_sell:"@ + int_decimal(root_order.id as int));
    }
    TradeFlowAutoScopeAnalysisRowInput {
        row_key: key,
        user_id: run.user_id,
        definition_id: run.definition_id,
        run_id: run.id,
        root_builder_order_id: root_order.id,
        exit_builder_order_id: local_exit_order_of(local_rows),
        row_type: "sell_exit".to_string(),
        market_slug: root_order.market_slug.clone(),
        token_id: root_order.token_id.clone(),
        outcome_label: root_order.outcome_label.clone(),
        exit_reason: trade_builder_analysis_official_exit_reason(local_rows),
        market_open_at: timing.market_open_at,
        triggered_at: timing.triggered_at,
        buy_filled_at: match ledger.first_buy_at { Some(t) => Some(t), None => timing.buy_filled_at },
        sell_filled_at: ledger.last_sell_at,
        open_to_trigger_ms: timing.open_to_trigger_ms,
        trigger_to_buy_fill_ms: timing.trigger_to_buy_fill_ms,
        buy_avg_price: Some(avg as i64),
        mark_or_sell_price: ledger.sell_price,
        mark_price_captured_at: ledger.last_sell_at,
        row_qty: sold as i64,
        remaining_qty_after_exit: rest as i64,
        row_pnl_usdc: pnl as i64,
        buy_notional_usdc: Some(cost as i64),
        buy_fee_usdc: Some(0),
        cost_basis_usdc: Some(cost as i64),
        sell_notional_usdc: Some(cash as i64),
        sell_fee_usdc: Some(0),
        mark_value_usdc: None,
        net_value_usdc: Some(cash as i64),
        pnl_pct: pct,
        valuation_kind: "realized".to_string(),
    }
}

/// A trade's rows rebuilt from its official ledger, with its sell
/// summary and reconciliation.
pub struct AutoScopeOfficialPnlRows {
    pub rows: Vec<TradeFlowAutoScopeAnalysisRowInput>,
    pub sell_allocation_summary: AutoScopeAnalysisSellAllocationSummary,
    pub reconciliation: AutoScopeAnalysisPnlReconciliation,
}

/// What becomes of the shares a ledger has left: none are left (0); they
/// were redeemed (1); the market ended without a redemption (2); they are
/// marked open at the local open row's price (3); the redemption exceeds
/// what is left, which refuses the ledger (4); or nothing is known of them
/// (5).
pub open spec fn residual_fate(l: AutoScopeOfficialLedger, local_rows: Seq<TradeFlowAutoScopeAnalysisRowInput>, market_ended: bool) -> int {
    if residual_qty(l) <= 0 {
        0
    } else if l.redeem_usdc > 0 {
        if spec_redeem_fits_residual(residual_qty(l), l.redeem_usdc as int) { 1 } else { 4 }
    } else if market_ended {
        2
    } else if first_row_index(local_rows, "open_position"@) matches Some(i) && local_rows[i].mark_or_sell_price is Some {
        3
    } else {
        5
    }
}

/// The local open row's mark price.
pub open spec fn local_mark(local_rows: Seq<TradeFlowAutoScopeAnalysisRowInput>) -> int {
    match first_row_index(local_rows, "open_position"@) {
        Some(i) => match local_rows[i].mark_or_sell_price { Some(m) => m as int, None => 0 },
        None => 0,
    }
}

/// The official profit of a ledger: what it sold for less what it bought
/// for, plus the redemption, or the mark value of what is open.
pub open spec fn official_profit(l: AutoScopeOfficialLedger, local_rows: Seq<TradeFlowAutoScopeAnalysisRowInput>, market_ended: bool) -> int {
    let fate = residual_fate(l, local_rows, market_ended);
    l.sell_usdc - l.buy_usdc
        + if fate == 1 { l.redeem_usdc as int } else if fate == 3 { feed_ratio(residual_qty(l) * local_mark(local_rows), 1_000_000) } else { 0 }
}

/// Whether a ledger gives rows: it is not refused, and it sold something or
/// something left has a row.
pub open spec fn gives_rows(l: AutoScopeOfficialLedger, local_rows: Seq<TradeFlowAutoScopeAnalysisRowInput>, market_ended: bool) -> bool {
    let fate = residual_fate(l, local_rows, market_ended);
    fate != 4 && (sold_qty(l) > 0 || fate == 1 || fate == 2 || fate == 3)
}

/// The rows a ledger gives (see `gives_rows`): a sell row for what it sold
/// (see `sell_row_numbers`), then a row for what was left: settled for its
/// redemption, settled for nothing once the market ended, or open (see
/// `settled_row_numbers` and `open_row_numbers`). With them the sell
/// summary (sold, allocated up to what was bought, and the excess
/// ignored), and the reconciliation: the official buy, sell, redemption
/// and profit, the library's own profit, and the difference of the rows'
/// profit from it.
pub open spec fn official_rows_from(
    out: AutoScopeOfficialPnlRows,
    order: TradeBuilderOrder,
    run: TradeFlowRun,
    local_rows: Seq<TradeFlowAutoScopeAnalysisRowInput>,
    timing: AutoScopeOfficialPnlTiming,
    l: AutoScopeOfficialLedger,
    internal_fallback_pnl_usdc: i128,
    market_ended: bool,
) -> bool {
    let fate = residual_fate(l, local_rows, market_ended);
    let has_sell = sold_qty(l) > 0;
    let rest_at: int = if has_sell { 1 } else { 0 };
    let rows = out.rows@;
    let total = if has_sell { rows[0].row_pnl_usdc as int } else { 0 } + if fate == 1 || fate == 2 || fate == 3 { rows[rest_at].row_pnl_usdc as int } else { 0 };
    let rec = out.reconciliation;
    &&& rows.len() == rest_at + if fate == 1 || fate == 2 || fate == 3 { 1int } else { 0 }
    &&& has_sell ==> row_identity(rows[0], order, run, timing, "official_sell:"@, "sell_exit"@, spec_official_exit_reason(local_rows), "realized"@)
        && sell_row_numbers(rows[0], l, local_rows) && rows[0].buy_filled_at == buy_filled_at(l, timing)
    &&& (fate == 1 || fate == 2) ==> row_identity(rows[rest_at], order, run, timing, "settled:"@, "settled_payout"@, "other"@, "settled"@)
        && settled_row_numbers(rows[rest_at], l, residual_qty(l), if fate == 1 { l.redeem_usdc as int } else { 0 })
        && rows[rest_at].buy_filled_at == buy_filled_at(l, timing) && rows[rest_at].sell_filled_at == l.last_redeem_at
        && rows[rest_at].mark_price_captured_at == l.last_redeem_at
    &&& fate == 3 ==> row_identity(rows[rest_at], order, run, timing, "open:"@, "open_position"@, "open_position"@, "mark_to_market"@)
        && open_row_numbers(rows[rest_at], l, residual_qty(l), local_mark(local_rows))
        && rows[rest_at].buy_filled_at == buy_filled_at(l, timing) && rows[rest_at].sell_filled_at is None
        && rows[rest_at].mark_price_captured_at == local_rows[first_row_index(local_rows, "open_position"@)->0].mark_price_captured_at
    &&& out.sell_allocation_summary.observed_sell_qty == spec_official_share_qty(l.sell_qty as int)
    &&& out.sell_allocation_summary.allocated_sold_qty == spec_official_share_qty(sold_qty(l))
    &&& out.sell_allocation_summary.ignored_sell_qty == spec_official_share_qty(if l.sell_qty - sold_qty(l) < 0 { 0 } else { l.sell_qty - sold_qty(l) })
    &&& rec.data_quality_flags@.len() == 0
    &&& rec.official_pnl_source@ == "data_api_activity"@
    &&& rec.official_buy_notional_usdc == Some(spec_official_cash(l.buy_usdc as int) as i128)
    &&& rec.official_sell_notional_usdc == Some(spec_official_cash(l.sell_usdc as int) as i128)
    &&& rec.official_redeem_usdc == Some(spec_official_cash(l.redeem_usdc as int) as i128)
    &&& rec.official_pnl_usdc == Some(spec_official_cash(official_profit(l, local_rows, market_ended)) as i128)
    &&& rec.official_market_buy_usdc is None && rec.official_market_sell_usdc is None
    &&& rec.official_market_redeem_usdc is None && rec.official_market_pnl_usdc is None
    &&& rec.internal_fallback_pnl_usdc == internal_fallback_pnl_usdc
    &&& rec.official_delta_usdc == Some(spec_official_cash(spec_official_cash(total) - internal_fallback_pnl_usdc) as i128)
}

/// The rows of a trade from its official ledger (see `gives_rows` and
/// `official_rows_from`), given whether its market has ended.
#[verifier::rlimit(60)]
pub fn trade_builder_analysis_build_official_rows_from_ledger_at(
    root_order: &TradeBuilderOrder,
    run: &TradeFlowRun,
    local_rows: &[TradeFlowAutoScopeAnalysisRowInput],
    timing: &AutoScopeOfficialPnlTiming,
    ledger: &AutoScopeOfficialLedger,
    internal_fallback_pnl_usdc: i128,
    market_ended: bool,
) -> (r: Option<AutoScopeOfficialPnlRows>)
    requires
        ledger_in_range(*ledger),
        open_marks_are_probabilities(local_rows@),
        -0x1000_0000_0000_0000_0000_0000_0000 <= internal_fallback_pnl_usdc <= 0x1000_0000_0000_0000_0000_0000_0000,
    ensures
        match r {
            Some(out) => gives_rows(*ledger, local_rows@, market_ended)
                && official_rows_from(out, *root_order, *run, local_rows@, *timing, *ledger, internal_fallback_pnl_usdc, market_ended),
            None => !gives_rows(*ledger, local_rows@, market_ended),
        },
{
    let b = ledger.buy_qty;
    let sell_qty: i128 = if ledger.sell_qty < b { ledger.sell_qty } else { b };
    let rest_raw: i128 = if b - sell_qty < 0 { 0 } else { b - sell_qty };
    let residual = feed_ratio_of(rest_raw, 1);
    proof {
        assert(residual == residual_qty(*ledger));
        assert(rest_raw % 10 == 0) by (nonlinear_arith)
            requires rest_raw == 0 || rest_raw == b - sell_qty, b % 10 == 0, sell_qty % 10 == 0;
        assert(residual == rest_raw) by (nonlinear_arith)
            requires rest_raw >= 0, rest_raw % 10 == 0, residual == ((2 * rest_raw + 10) / 20) * 10;
    }
    let mut rows: Vec<TradeFlowAutoScopeAnalysisRowInput> = Vec::new();
    let mut official_pnl: i128 = ledger.sell_usdc - ledger.buy_usdc;
    if sell_qty > 0 {
        rows.push(official_sell_row(root_order, run, local_rows, timing, ledger));
    }
    let ghost fate = residual_fate(*ledger, local_rows@, market_ended);
    if residual > 0 {
        proof {
            assert(residual <= rest_raw + 10);
            assert(residual % 10 == 0) by (nonlinear_arith) requires residual == round_half_away(rest_raw as int, 10) * 10;
            assert(rest_raw % 10 == 0 || true);
        }
        if ledger.redeem_usdc > 0 {
            if !trade_builder_analysis_redeem_fits_residual(residual as i64, ledger.redeem_usdc as i64) {
                return None;
            }
            official_pnl = official_pnl + ledger.redeem_usdc;
            rows.push(trade_builder_analysis_settled_row(root_order, run, timing, ledger, residual as i64, ledger.redeem_usdc as i64));
        } else if market_ended {
            rows.push(trade_builder_analysis_settled_row(root_order, run, timing, ledger, residual as i64, 0));
        } else {
            match trade_builder_analysis_official_open_row(root_order, run, local_rows, timing, ledger, residual as i64) {
                Some(open_row) => {
                    proof {
                        lemma_first_row_index(local_rows@, "open_position"@);
                        let m = local_mark(local_rows@);
                        let idx = first_row_index(local_rows@, "open_position"@)->0;
                        assert(local_rows@[idx].row_type@ == "open_position"@);
                        assert(0 <= m <= 1_000_000);
                        let n = (residual as int) * m;
                        assert(0 <= n <= 0x4_0000_0000_0000 * 1_000_000) by (nonlinear_arith)
                            requires 0 <= residual <= 0x4_0000_0000_0000, 0 <= m <= 1_000_000, n == (residual as int) * m;
                        lemma_round_bound(n, 10_000_000);
                        let q = round_half_away(n, 10_000_000);
                        assert(n / 10_000_000 <= 0x4_0000_0000_0000) by (nonlinear_arith)
                            requires 0 <= n <= 0x4_0000_0000_0000 * 1_000_000;
                        assert(q <= n / 10_000_000 + 1);
                        assert(n / 10_000_000 <= n / 1_000_000) by (nonlinear_arith) requires n >= 0;
                        assert(0 <= q * 10 <= 0x7fff_ffff_ffff_ffff) by (nonlinear_arith)
                            requires 0 <= q <= 0x4_0000_0000_0000 + 1;
                        assert(feed_ratio(n, 1_000_000) == q * 10);
                    }
                    official_pnl = official_pnl + match open_row.net_value_usdc { Some(v) => v as i128, None => 0 };
                    rows.push(open_row);
                },
                None => {},
            }
        }
    }
    if rows.len() == 0 {
        return None;
    }
    let mut total: i128 = 0;
    let mut i: usize = 0;
    while i < rows.len()
        invariant
            i <= rows.len() <= 2,
            -0x10_0000_0000_0000_0000 * i <= total <= 0x10_0000_0000_0000_0000 * i,
            total == (if i >= 1 { rows@[0].row_pnl_usdc as int } else { 0 }) + (if i >= 2 { rows@[1].row_pnl_usdc as int } else { 0 }),
        decreases rows.len() - i,
    {
        total = total + rows[i].row_pnl_usdc as i128;
        i = i + 1;
    }
    let total_pnl = feed_ratio_of(total, 1);
    let reconciliation = AutoScopeAnalysisPnlReconciliation {
        data_quality_flags: Vec::new(),
        official_pnl_source: "data_api_activity".to_string(),
        official_buy_notional_usdc: Some(feed_ratio_of(ledger.buy_usdc, 1)),
        official_sell_notional_usdc: Some(feed_ratio_of(ledger.sell_usdc, 1)),
        official_redeem_usdc: Some(feed_ratio_of(ledger.redeem_usdc, 1)),
        official_pnl_usdc: Some(feed_ratio_of(official_pnl, 1)),
        official_market_buy_usdc: None,
        official_market_sell_usdc: None,
        official_market_redeem_usdc: None,
        official_market_pnl_usdc: None,
        internal_fallback_pnl_usdc,
        official_delta_usdc: Some(feed_ratio_of(total_pnl - internal_fallback_pnl_usdc, 1)),
    };
    let ignored_raw: i128 = if ledger.sell_qty - sell_qty < 0 { 0 } else { ledger.sell_qty - sell_qty };
    let sell_allocation_summary = AutoScopeAnalysisSellAllocationSummary {
        observed_sell_qty: feed_ratio_of(ledger.sell_qty, 1) as i64,
        allocated_sold_qty: feed_ratio_of(sell_qty, 1) as i64,
        ignored_sell_qty: feed_ratio_of(ignored_raw, 1) as i64,
    };
    Some(AutoScopeOfficialPnlRows { rows, sell_allocation_summary, reconciliation })
}

/// The rows of a trade from its official ledger, its market's end judged
/// by the clock now (see `trade_builder_analysis_build_official_rows_from_ledger_at`).
pub fn trade_builder_analysis_build_official_rows_from_ledger(
    root_order: &TradeBuilderOrder,
    run: &TradeFlowRun,
    local_rows: &[TradeFlowAutoScopeAnalysisRowInput],
    timing: &AutoScopeOfficialPnlTiming,
    ledger: &AutoScopeOfficialLedger,
    internal_fallback_pnl_usdc: i128,
) -> (r: Option<AutoScopeOfficialPnlRows>)
    requires
        ledger_in_range(*ledger),
        open_marks_are_probabilities(local_rows@),
        -0x1000_0000_0000_0000_0000_0000_0000 <= internal_fallback_pnl_usdc <= 0x1000_0000_0000_0000_0000_0000_0000,
    ensures
        exists|ended: bool| match r {
            Some(out) => gives_rows(*ledger, local_rows@, ended)
                && official_rows_from(out, *root_order, *run, local_rows@, *timing, *ledger, internal_fallback_pnl_usdc, ended),
            None => !gives_rows(*ledger, local_rows@, ended),
        },
{
    let ended = trade_builder_analysis_market_has_ended(root_order.market_slug.as_str());
    trade_builder_analysis_build_official_rows_from_ledger_at(root_order, run, local_rows, timing, ledger, internal_fallback_pnl_usdc, ended)
}

/// Whether rows can be built from a ledger (see `ledger_in_range`).
pub fn official_ledger_in_range(l: &AutoScopeOfficialLedger) -> (r: bool)
    ensures
        r == ledger_in_range(*l),
{
    l.buy_qty % 10 == 0 && l.sell_qty % 10 == 0
        && 0 <= l.buy_qty && l.buy_qty <= 0x4_0000_0000_0000
        && 0 <= l.sell_qty && l.sell_qty <= 0x4_0000_0000_0000
        && -0x4_0000_0000_0000 <= l.buy_usdc && l.buy_usdc <= 0x4_0000_0000_0000
        && -0x4_0000_0000_0000 <= l.sell_usdc && l.sell_usdc <= 0x4_0000_0000_0000
        && 0 <= l.redeem_usdc && l.redeem_usdc <= 0x4_0000_0000_0000
}

/// Whether every local open row is marked at a probability (see
/// `open_marks_are_probabilities`).
pub fn official_open_marks_are_probabilities(rows: &[TradeFlowAutoScopeAnalysisRowInput]) -> (r: bool)
    ensures
        r == open_marks_are_probabilities(rows@),
{
    let mut i: usize = 0;
    while i < rows.len()
        invariant
            i <= rows.len(),
            forall|j: int| 0 <= j < i && (#[trigger] rows@[j]).row_type@ == "open_position"@
                ==> (rows@[j].mark_or_sell_price matches Some(p) ==> 0 <= p <= 1_000_000),
        decreases rows.len() - i,
    {
        if str_eq(rows[i].row_type.as_str(), "open_position") {
            match rows[i].mark_or_sell_price {
                Some(p) => {
                    if p < 0 || p > 1_000_000 {
                        assert(!open_marks_are_probabilities(rows@)) by {
                            assert(rows@[i as int].row_type@ == "open_position"@);
                        }
                        return false;
                    }
                },
                None => {},
            }
        }
        i = i + 1;
    }
    true
}

} // verus!
