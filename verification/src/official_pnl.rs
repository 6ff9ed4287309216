//! The official ledger of a trade, from the exchange's activity feed: what
//! was bought, sold and redeemed, at the feed's precision of five decimals.
//! Amounts and sizes in millionths (of a USDC, of a share), instants in
//! microseconds since the epoch; the feed's timestamps are in seconds.
use vstd::prelude::*;
use crate::analysis::{spec_min_datetime, spec_max_datetime, min_datetime, max_datetime, trade_builder_analysis_data_flag};
use crate::analysis_pnl::round_half_away;
use crate::text::str_eq;

verus! {

broadcast use vstd::string::group_string_axioms;

/// One row of the exchange's activity feed.
pub struct DataApiActivity {
    pub activity_type: String,
    pub side: Option<String>,
    pub slug: String,
    pub asset: Option<String>,
    pub outcome: Option<String>,
    pub size: i64,
    pub usdc_size: i64,
    pub price: Option<i64>,
    pub timestamp: Option<i64>,
}

/// An amount at the feed's precision: rounded to five decimals, half away
/// from zero.
pub open spec fn spec_official_cash(micros: int) -> int {
    round_half_away(micros, 10) * 10
}

/// A share quantity at the feed's precision; a negative one counts as none.
pub open spec fn spec_official_share_qty(micros: int) -> int {
    if micros < 0 { 0 } else { spec_official_cash(micros) }
}

fn round_tens(a: i128) -> (r: i128)
    requires
        -0x4000_0000_0000_0000_0000_0000_0000_0000 <= a <= 0x4000_0000_0000_0000_0000_0000_0000_0000,
    ensures
        r == spec_official_cash(a as int),
{
    let q: i128 = if a >= 0 {
        assert(a / 10 + (if a % 10 >= 5 { 1int } else { 0int }) == (2 * a + 10) / 20) by (nonlinear_arith)
            requires a >= 0;
        a / 10 + if a % 10 >= 5 { 1 } else { 0 }
    } else {
        let b = 0 - a;
        assert(b / 10 + (if b % 10 >= 5 { 1int } else { 0int }) == (2 * b + 10) / 20) by (nonlinear_arith)
            requires b > 0;
        0 - (b / 10 + if b % 10 >= 5 { 1 } else { 0 })
    };
    q * 10
}

pub fn round_trade_builder_official_cash_value(micros: i128) -> (r: i128)
    requires
        -0x4000_0000_0000_0000_0000_0000_0000_0000 <= micros <= 0x4000_0000_0000_0000_0000_0000_0000_0000,
    ensures
        r == spec_official_cash(micros as int),
{
    round_tens(micros)
}

pub fn round_trade_builder_official_share_qty(micros: i128) -> (r: i128)
    requires
        -0x4000_0000_0000_0000_0000_0000_0000_0000 <= micros <= 0x4000_0000_0000_0000_0000_0000_0000_0000,
    ensures
        r == spec_official_share_qty(micros as int),
{
    if micros < 0 { 0 } else { round_tens(micros) }
}

/// A profit as a percentage of a positive cost basis, in millionths of a
/// percent rounded to hundredths of a percent.
pub open spec fn spec_pct(row_pnl: int, cost_basis: int) -> Option<int> {
    if cost_basis > 0 { Some(round_half_away(row_pnl * 10_000, cost_basis) * 10_000) } else { None }
}

pub fn trade_builder_analysis_pct(row_pnl: i64, cost_basis: i64) -> (r: Option<i128>)
    ensures
        match r {
            Some(v) => spec_pct(row_pnl as int, cost_basis as int) == Some(v as int),
            None => spec_pct(row_pnl as int, cost_basis as int) is None,
        },
{
    if cost_basis > 0 {
        let a = (row_pnl as i128) * 10_000;
        let b = cost_basis as i128;
        let q: i128 = if a >= 0 { (2 * a + b) / (2 * b) } else { 0 - ((2 * (0 - a) + b) / (2 * b)) };
        proof {
            assert(-0x8000_0000_0000_0000 * 10_000 <= a <= 0x8000_0000_0000_0000 * 10_000);
            if a >= 0 {
                assert((2 * a + b) / (2 * b) <= 2 * a + b) by (nonlinear_arith)
                    requires a >= 0, b > 0;
            } else {
                assert((2 * (0 - a) + b) / (2 * b) <= 2 * (0 - a) + b) by (nonlinear_arith)
                    requires a < 0, b > 0;
            }
        }
        Some(q * 10_000)
    } else {
        None
    }
}

/// Whether a redemption fits the quantity left over: at most that quantity
/// (a share redeems for at most one USDC) plus a tolerance of 0.05 USDC or
/// 2% of the redemption, whichever is more.
pub open spec fn spec_redeem_fits_residual(residual_qty: int, redeem_usdc: int) -> bool {
    let abs_redeem = if redeem_usdc < 0 { -redeem_usdc } else { redeem_usdc };
    let tolerance_x100 = if 5_000_000 >= 2 * abs_redeem { 5_000_000 } else { 2 * abs_redeem };
    100 * redeem_usdc <= 100 * residual_qty + tolerance_x100
}

pub fn trade_builder_analysis_redeem_fits_residual(residual_qty: i64, redeem_usdc: i64) -> (r: bool)
    ensures
        r == spec_redeem_fits_residual(residual_qty as int, redeem_usdc as int),
{
    let redeem = redeem_usdc as i128;
    let abs_redeem: i128 = if redeem < 0 { 0 - redeem } else { redeem };
    let tolerance_x100: i128 = if 5_000_000 >= 2 * abs_redeem { 5_000_000 } else { 2 * abs_redeem };
    100 * redeem <= 100 * (residual_qty as i128) + tolerance_x100
}

pub open spec fn is_kind(a: DataApiActivity, kind: Seq<char>) -> bool {
    a.activity_type@ == kind
}

pub open spec fn side_is(a: DataApiActivity, side: Seq<char>) -> bool {
    a.side matches Some(s) && s@ == side
}

/// A trade of the token on the given side.
pub open spec fn is_token_trade(a: DataApiActivity, token_id: Seq<char>, side: Seq<char>) -> bool {
    is_kind(a, "TRADE"@) && (a.asset matches Some(t) && t@ == token_id) && side_is(a, side)
}

/// What a redemption paid: its USDC size or its size, whichever is more,
/// and never less than zero.
pub open spec fn redeem_amount(a: DataApiActivity) -> int {
    let m = if a.usdc_size >= a.size { a.usdc_size as int } else { a.size as int };
    if m < 0 { 0 } else { m }
}

/// The sum over the rows that `pick` admits of what `value` reads.
pub open spec fn sum_where(acts: Seq<DataApiActivity>, pick: spec_fn(DataApiActivity) -> bool, value: spec_fn(DataApiActivity) -> int) -> int
    decreases acts.len(),
{
    if acts.len() == 0 {
        0
    } else {
        sum_where(acts.drop_last(), pick, value) + if pick(acts.last()) { value(acts.last()) } else { 0 }
    }
}

/// The first buy of the token: the earliest buy timestamp; a buy without a
/// usable timestamp clears what was found before it.
pub open spec fn first_buy_at(acts: Seq<DataApiActivity>, token_id: Seq<char>) -> Option<i64>
    decreases acts.len(),
{
    if acts.len() == 0 {
        None
    } else {
        let prev = first_buy_at(acts.drop_last(), token_id);
        let a = acts.last();
        if !is_kind(a, "REDEEM"@) && is_token_trade(a, token_id, "BUY"@) { spec_min_datetime(prev, a.timestamp) } else { prev }
    }
}

/// The last sell of the token, as `first_buy_at` with the latest timestamp.
pub open spec fn last_sell_at(acts: Seq<DataApiActivity>, token_id: Seq<char>) -> Option<i64>
    decreases acts.len(),
{
    if acts.len() == 0 {
        None
    } else {
        let prev = last_sell_at(acts.drop_last(), token_id);
        let a = acts.last();
        if !is_kind(a, "REDEEM"@) && is_token_trade(a, token_id, "SELL"@) { spec_max_datetime(prev, a.timestamp) } else { prev }
    }
}

/// The last redemption, as `last_sell_at`.
pub open spec fn last_redeem_at(acts: Seq<DataApiActivity>) -> Option<i64>
    decreases acts.len(),
{
    if acts.len() == 0 {
        None
    } else {
        let prev = last_redeem_at(acts.drop_last());
        let a = acts.last();
        if is_kind(a, "REDEEM"@) { spec_max_datetime(prev, a.timestamp) } else { prev }
    }
}

/// The price of the last sell of the token that names one.
pub open spec fn last_sell_price(acts: Seq<DataApiActivity>, token_id: Seq<char>) -> Option<i64>
    decreases acts.len(),
{
    if acts.len() == 0 {
        None
    } else {
        let prev = last_sell_price(acts.drop_last(), token_id);
        let a = acts.last();
        if !is_kind(a, "REDEEM"@) && is_token_trade(a, token_id, "SELL"@) && a.price is Some { a.price } else { prev }
    }
}

pub open spec fn buys_of(token_id: Seq<char>) -> spec_fn(DataApiActivity) -> bool {
    |a: DataApiActivity| !is_kind(a, "REDEEM"@) && is_token_trade(a, token_id, "BUY"@)
}

pub open spec fn sells_of(token_id: Seq<char>) -> spec_fn(DataApiActivity) -> bool {
    |a: DataApiActivity| !is_kind(a, "REDEEM"@) && is_token_trade(a, token_id, "SELL"@)
}

pub open spec fn redeems() -> spec_fn(DataApiActivity) -> bool {
    |a: DataApiActivity| is_kind(a, "REDEEM"@)
}

pub open spec fn size_of() -> spec_fn(DataApiActivity) -> int {
    |a: DataApiActivity| a.size as int
}

pub open spec fn usdc_of() -> spec_fn(DataApiActivity) -> int {
    |a: DataApiActivity| a.usdc_size as int
}

pub open spec fn redeemed() -> spec_fn(DataApiActivity) -> int {
    |a: DataApiActivity| redeem_amount(a)
}

/// The official ledger of one token.
#[derive(Clone, Copy)]
pub struct AutoScopeOfficialLedger {
    pub buy_qty: i128,
    pub buy_usdc: i128,
    pub sell_qty: i128,
    pub sell_usdc: i128,
    pub redeem_usdc: i128,
    pub first_buy_at: Option<i64>,
    pub last_sell_at: Option<i64>,
    pub last_redeem_at: Option<i64>,
    pub sell_price: Option<i64>,
}

/// The ledger of a token from the activity feed: the sizes and USDC sizes
/// of its buys and sells, summed, and what all redemptions paid (a
/// redemption names no token), each at the feed's precision; the first buy,
/// the last sell and the last redemption; the price of the last sell that
/// names one.
pub open spec fn spec_official_ledger(acts: Seq<DataApiActivity>, token_id: Seq<char>) -> AutoScopeOfficialLedger {
    AutoScopeOfficialLedger {
        buy_qty: spec_official_share_qty(sum_where(acts, buys_of(token_id), size_of())) as i128,
        buy_usdc: spec_official_cash(sum_where(acts, buys_of(token_id), usdc_of())) as i128,
        sell_qty: spec_official_share_qty(sum_where(acts, sells_of(token_id), size_of())) as i128,
        sell_usdc: spec_official_cash(sum_where(acts, sells_of(token_id), usdc_of())) as i128,
        redeem_usdc: spec_official_cash(sum_where(acts, redeems(), redeemed())) as i128,
        first_buy_at: first_buy_at(acts, token_id),
        last_sell_at: last_sell_at(acts, token_id),
        last_redeem_at: last_redeem_at(acts),
        sell_price: last_sell_price(acts, token_id),
    }
}

proof fn lemma_sum_bound(acts: Seq<DataApiActivity>, pick: spec_fn(DataApiActivity) -> bool, value: spec_fn(DataApiActivity) -> int)
    requires
        forall|a: DataApiActivity| -0x8000_0000_0000_0000 <= #[trigger] value(a) <= 0x8000_0000_0000_0000,
    ensures
        -0x8000_0000_0000_0000 * acts.len() <= sum_where(acts, pick, value) <= 0x8000_0000_0000_0000 * acts.len(),
    decreases acts.len(),
{
    if acts.len() > 0 {
        lemma_sum_bound(acts.drop_last(), pick, value);
        let v = value(acts.last());
    }
}

fn opt_text_is(v: &Option<String>, expected: &str) -> (r: bool)
    ensures
        r == (v matches Some(s) && s@ == expected@),
{
    match v {
        Some(s) => str_eq(s.as_str(), expected),
        None => false,
    }
}

/// The ledger of a token (see `spec_official_ledger`), of a feed of at most
/// 2^56 rows (more than memory holds).
pub fn trade_builder_analysis_official_ledger(activity: &[DataApiActivity], token_id: &str) -> (r: AutoScopeOfficialLedger)
    requires
        activity.len() <= 0x100_0000_0000_0000,
    ensures
        r == spec_official_ledger(activity@, token_id@),
{
    let ghost acts = activity@;
    let ghost t = token_id@;
    let mut buy_qty: i128 = 0;
    let mut buy_usdc: i128 = 0;
    let mut sell_qty: i128 = 0;
    let mut sell_usdc: i128 = 0;
    let mut redeem_usdc: i128 = 0;
    let mut first_buy: Option<i64> = None;
    let mut last_sell: Option<i64> = None;
    let mut last_redeem: Option<i64> = None;
    let mut sell_price: Option<i64> = None;
    let mut i: usize = 0;
    while i < activity.len()
        invariant
            i <= activity.len() <= 0x100_0000_0000_0000,
            acts == activity@,
            t == token_id@,
            buy_qty == sum_where(acts.subrange(0, i as int), buys_of(t), size_of()),
            buy_usdc == sum_where(acts.subrange(0, i as int), buys_of(t), usdc_of()),
            sell_qty == sum_where(acts.subrange(0, i as int), sells_of(t), size_of()),
            sell_usdc == sum_where(acts.subrange(0, i as int), sells_of(t), usdc_of()),
            redeem_usdc == sum_where(acts.subrange(0, i as int), redeems(), redeemed()),
            first_buy == first_buy_at(acts.subrange(0, i as int), t),
            last_sell == last_sell_at(acts.subrange(0, i as int), t),
            last_redeem == last_redeem_at(acts.subrange(0, i as int)),
            sell_price == last_sell_price(acts.subrange(0, i as int), t),
        decreases activity.len() - i,
    {
        let ghost prefix = acts.subrange(0, i + 1);
        assert(prefix.drop_last() =~= acts.subrange(0, i as int));
        assert(prefix.last() == acts[i as int]);
        proof {
            reveal_strlit("BUY");
            reveal_strlit("SELL");
            assert("BUY"@.len() == 3 && "SELL"@.len() == 4);
            assert("BUY"@ != "SELL"@);
            lemma_sum_bound(acts.subrange(0, i as int), buys_of(t), size_of());
            lemma_sum_bound(acts.subrange(0, i as int), buys_of(t), usdc_of());
            lemma_sum_bound(acts.subrange(0, i as int), sells_of(t), size_of());
            lemma_sum_bound(acts.subrange(0, i as int), sells_of(t), usdc_of());
            lemma_sum_bound(acts.subrange(0, i as int), redeems(), redeemed());
        }
        let row = &activity[i];
        if str_eq(row.activity_type.as_str(), "REDEEM") {
            let m: i64 = if row.usdc_size >= row.size { row.usdc_size } else { row.size };
            let paid: i64 = if m < 0 { 0 } else { m };
            redeem_usdc = redeem_usdc + (paid as i128);
            last_redeem = max_datetime(last_redeem, row.timestamp);
        } else if str_eq(row.activity_type.as_str(), "TRADE") && opt_text_is(&row.asset, token_id) {
            if opt_text_is(&row.side, "BUY") {
                buy_qty = buy_qty + (row.size as i128);
                buy_usdc = buy_usdc + (row.usdc_size as i128);
                first_buy = min_datetime(first_buy, row.timestamp);
            } else if opt_text_is(&row.side, "SELL") {
                sell_qty = sell_qty + (row.size as i128);
                sell_usdc = sell_usdc + (row.usdc_size as i128);
                last_sell = max_datetime(last_sell, row.timestamp);
                if row.price.is_some() {
                    sell_price = row.price;
                }
            }
        }
        i = i + 1;
    }
    proof {
        assert(acts.subrange(0, acts.len() as int) =~= acts);
        lemma_sum_bound(acts, buys_of(t), size_of());
        lemma_sum_bound(acts, buys_of(t), usdc_of());
        lemma_sum_bound(acts, sells_of(t), size_of());
        lemma_sum_bound(acts, sells_of(t), usdc_of());
        lemma_sum_bound(acts, redeems(), redeemed());
    }
    AutoScopeOfficialLedger {
        buy_qty: round_trade_builder_official_share_qty(buy_qty),
        buy_usdc: round_trade_builder_official_cash_value(buy_usdc),
        sell_qty: round_trade_builder_official_share_qty(sell_qty),
        sell_usdc: round_trade_builder_official_cash_value(sell_usdc),
        redeem_usdc: round_trade_builder_official_cash_value(redeem_usdc),
        first_buy_at: first_buy,
        last_sell_at: last_sell,
        last_redeem_at: last_redeem,
        sell_price,
    }
}

/// The official ledger of a whole market.
#[derive(Clone, Copy)]
pub struct AutoScopeOfficialMarketLedger {
    pub buy_usdc: i128,
    pub sell_usdc: i128,
    pub redeem_usdc: i128,
    pub pnl_usdc: i128,
}

pub open spec fn market_buys() -> spec_fn(DataApiActivity) -> bool {
    |a: DataApiActivity| !is_kind(a, "REDEEM"@) && is_kind(a, "TRADE"@) && side_is(a, "BUY"@)
}

pub open spec fn market_sells() -> spec_fn(DataApiActivity) -> bool {
    |a: DataApiActivity| !is_kind(a, "REDEEM"@) && is_kind(a, "TRADE"@) && side_is(a, "SELL"@)
}

pub open spec fn positive_usdc_of() -> spec_fn(DataApiActivity) -> int {
    |a: DataApiActivity| if a.usdc_size < 0 { 0int } else { a.usdc_size as int }
}

/// The ledger of a market from its activity feed: the USDC spent on buys
/// and received for sells of any of its tokens (none counted below zero)
/// and what its redemptions paid, each at the feed's precision, and the
/// profit: sells and redemptions less buys.
pub open spec fn spec_official_market_ledger(acts: Seq<DataApiActivity>) -> AutoScopeOfficialMarketLedger {
    let buy = spec_official_cash(sum_where(acts, market_buys(), positive_usdc_of()));
    let sell = spec_official_cash(sum_where(acts, market_sells(), positive_usdc_of()));
    let redeem = spec_official_cash(sum_where(acts, redeems(), redeemed()));
    AutoScopeOfficialMarketLedger {
        buy_usdc: buy as i128,
        sell_usdc: sell as i128,
        redeem_usdc: redeem as i128,
        pnl_usdc: spec_official_cash(sell + redeem - buy) as i128,
    }
}

proof fn lemma_cash_bound(x: int)
    requires
        -0x1000_0000_0000_0000_0000_0000_0000_0000 <= x <= 0x1000_0000_0000_0000_0000_0000_0000_0000,
    ensures
        -0x1000_0000_0000_0000_0000_0000_0000_0010 <= spec_official_cash(x) <= 0x1000_0000_0000_0000_0000_0000_0000_0010,
{
    if x >= 0 {
        assert(0 <= (2 * x + 10) / 20 * 10 <= x + 10) by (nonlinear_arith)
            requires x >= 0;
    } else {
        assert(0 <= (2 * (-x) + 10) / 20 * 10 <= -x + 10) by (nonlinear_arith)
            requires x < 0;
    }
}

/// The ledger of a market (see `spec_official_market_ledger`), of a feed
/// of at most 2^56 rows (more than memory holds).
pub fn trade_builder_analysis_official_market_ledger(activity: &[DataApiActivity]) -> (r: AutoScopeOfficialMarketLedger)
    requires
        activity.len() <= 0x100_0000_0000_0000,
    ensures
        r == spec_official_market_ledger(activity@),
{
    let ghost acts = activity@;
    let mut buy: i128 = 0;
    let mut sell: i128 = 0;
    let mut redeem: i128 = 0;
    let mut i: usize = 0;
    while i < activity.len()
        invariant
            i <= activity.len() <= 0x100_0000_0000_0000,
            acts == activity@,
            buy == sum_where(acts.subrange(0, i as int), market_buys(), positive_usdc_of()),
            sell == sum_where(acts.subrange(0, i as int), market_sells(), positive_usdc_of()),
            redeem == sum_where(acts.subrange(0, i as int), redeems(), redeemed()),
        decreases activity.len() - i,
    {
        let ghost prefix = acts.subrange(0, i + 1);
        assert(prefix.drop_last() =~= acts.subrange(0, i as int));
        assert(prefix.last() == acts[i as int]);
        proof {
            reveal_strlit("BUY");
            reveal_strlit("SELL");
            assert("BUY"@.len() == 3 && "SELL"@.len() == 4);
            lemma_sum_bound(acts.subrange(0, i as int), market_buys(), positive_usdc_of());
            lemma_sum_bound(acts.subrange(0, i as int), market_sells(), positive_usdc_of());
            lemma_sum_bound(acts.subrange(0, i as int), redeems(), redeemed());
        }
        let row = &activity[i];
        if str_eq(row.activity_type.as_str(), "REDEEM") {
            let m: i64 = if row.usdc_size >= row.size { row.usdc_size } else { row.size };
            let paid: i64 = if m < 0 { 0 } else { m };
            redeem = redeem + (paid as i128);
        } else if str_eq(row.activity_type.as_str(), "TRADE") {
            let amount: i64 = if row.usdc_size < 0 { 0 } else { row.usdc_size };
            if opt_text_is(&row.side, "BUY") {
                buy = buy + (amount as i128);
            } else if opt_text_is(&row.side, "SELL") {
                sell = sell + (amount as i128);
            }
        }
        i = i + 1;
    }
    proof {
        assert(acts.subrange(0, acts.len() as int) =~= acts);
        lemma_sum_bound(acts, market_buys(), positive_usdc_of());
        lemma_sum_bound(acts, market_sells(), positive_usdc_of());
        lemma_sum_bound(acts, redeems(), redeemed());
    }
    let b = round_trade_builder_official_cash_value(buy);
    let s = round_trade_builder_official_cash_value(sell);
    let rd = round_trade_builder_official_cash_value(redeem);
    proof {
        lemma_cash_bound(buy as int);
        lemma_cash_bound(sell as int);
        lemma_cash_bound(redeem as int);
    }
    AutoScopeOfficialMarketLedger {
        buy_usdc: b,
        sell_usdc: s,
        redeem_usdc: rd,
        pnl_usdc: round_trade_builder_official_cash_value(s + rd - b),
    }
}

/// How the official profit of a trade was reconciled with the library's own.
pub struct AutoScopeAnalysisPnlReconciliation {
    pub data_quality_flags: Vec<String>,
    pub official_pnl_source: String,
    pub official_buy_notional_usdc: Option<i128>,
    pub official_sell_notional_usdc: Option<i128>,
    pub official_redeem_usdc: Option<i128>,
    pub official_pnl_usdc: Option<i128>,
    pub official_market_buy_usdc: Option<i128>,
    pub official_market_sell_usdc: Option<i128>,
    pub official_market_redeem_usdc: Option<i128>,
    pub official_market_pnl_usdc: Option<i128>,
    pub internal_fallback_pnl_usdc: i128,
    pub official_delta_usdc: Option<i128>,
}

impl AutoScopeAnalysisPnlReconciliation {
    /// A reconciliation that fell back to the library's own profit: no
    /// official figures, no flags.
    pub fn local(internal_fallback_pnl_usdc: i128) -> (r: Self)
        ensures
            r.data_quality_flags@.len() == 0,
            r.official_pnl_source@ == "local_fallback"@,
            r.official_buy_notional_usdc is None,
            r.official_sell_notional_usdc is None,
            r.official_redeem_usdc is None,
            r.official_pnl_usdc is None,
            r.official_market_buy_usdc is None,
            r.official_market_sell_usdc is None,
            r.official_market_redeem_usdc is None,
            r.official_market_pnl_usdc is None,
            r.internal_fallback_pnl_usdc == internal_fallback_pnl_usdc,
            r.official_delta_usdc is None,
    {
        AutoScopeAnalysisPnlReconciliation {
            data_quality_flags: Vec::new(),
            official_pnl_source: "local_fallback".to_string(),
            official_buy_notional_usdc: None,
            official_sell_notional_usdc: None,
            official_redeem_usdc: None,
            official_pnl_usdc: None,
            official_market_buy_usdc: None,
            official_market_sell_usdc: None,
            official_market_redeem_usdc: None,
            official_market_pnl_usdc: None,
            internal_fallback_pnl_usdc,
            official_delta_usdc: None,
        }
    }

    /// The reconciliation with a data-quality flag added (once).
    pub fn with_flag(self, flag: &str) -> (r: Self)
        ensures
            (exists|i: int| 0 <= i < self.data_quality_flags@.len() && #[trigger] self.data_quality_flags@[i]@ == flag@)
                ==> r.data_quality_flags@ == self.data_quality_flags@,
            !(exists|i: int| 0 <= i < self.data_quality_flags@.len() && #[trigger] self.data_quality_flags@[i]@ == flag@) ==> (
                r.data_quality_flags@.len() == self.data_quality_flags@.len() + 1
                && r.data_quality_flags@.subrange(0, self.data_quality_flags@.len() as int) == self.data_quality_flags@
                && r.data_quality_flags@.last()@ == flag@),
            r.official_pnl_source == self.official_pnl_source,
            r.official_pnl_usdc == self.official_pnl_usdc,
            r.official_market_pnl_usdc == self.official_market_pnl_usdc,
            r.internal_fallback_pnl_usdc == self.internal_fallback_pnl_usdc,
            r.official_delta_usdc == self.official_delta_usdc,
    {
        let mut out = self;
        trade_builder_analysis_data_flag(&mut out.data_quality_flags, flag);
        out
    }

    /// The reconciliation with the market's ledger: its figures, and the
    /// difference between the market's profit and the rows' own, each at
    /// the feed's precision.
    pub fn with_market_ledger(self, ledger: AutoScopeOfficialMarketLedger, root_rows_pnl_usdc: i64) -> (r: Self)
        requires
            -0x1000_0000_0000_0000_0000_0000_0000_0000 <= ledger.buy_usdc <= 0x1000_0000_0000_0000_0000_0000_0000_0000,
            -0x1000_0000_0000_0000_0000_0000_0000_0000 <= ledger.sell_usdc <= 0x1000_0000_0000_0000_0000_0000_0000_0000,
            -0x1000_0000_0000_0000_0000_0000_0000_0000 <= ledger.redeem_usdc <= 0x1000_0000_0000_0000_0000_0000_0000_0000,
            -0x1000_0000_0000_0000_0000_0000_0000_0000 <= ledger.pnl_usdc <= 0x1000_0000_0000_0000_0000_0000_0000_0000,
        ensures
            r.official_market_buy_usdc == Some(spec_official_cash(ledger.buy_usdc as int) as i128),
            r.official_market_sell_usdc == Some(spec_official_cash(ledger.sell_usdc as int) as i128),
            r.official_market_redeem_usdc == Some(spec_official_cash(ledger.redeem_usdc as int) as i128),
            r.official_market_pnl_usdc == Some(spec_official_cash(ledger.pnl_usdc as int) as i128),
            r.official_delta_usdc == Some(spec_official_cash(ledger.pnl_usdc - root_rows_pnl_usdc) as i128),
            r.data_quality_flags == self.data_quality_flags,
            r.official_pnl_source == self.official_pnl_source,
            r.official_buy_notional_usdc == self.official_buy_notional_usdc,
            r.official_sell_notional_usdc == self.official_sell_notional_usdc,
            r.official_redeem_usdc == self.official_redeem_usdc,
            r.official_pnl_usdc == self.official_pnl_usdc,
            r.internal_fallback_pnl_usdc == self.internal_fallback_pnl_usdc,
    {
        let mut out = self;
        out.official_market_buy_usdc = Some(round_trade_builder_official_cash_value(ledger.buy_usdc));
        out.official_market_sell_usdc = Some(round_trade_builder_official_cash_value(ledger.sell_usdc));
        out.official_market_redeem_usdc = Some(round_trade_builder_official_cash_value(ledger.redeem_usdc));
        out.official_market_pnl_usdc = Some(round_trade_builder_official_cash_value(ledger.pnl_usdc));
        out.official_delta_usdc = Some(round_trade_builder_official_cash_value(ledger.pnl_usdc - (root_rows_pnl_usdc as i128)));
        out
    }
}

} // verus!
