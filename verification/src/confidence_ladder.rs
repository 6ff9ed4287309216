//! The confidence ladder: a strategy that probes the dominant side of an
//! up/down market, adds to it in price bands while its model keeps an edge,
//! and buys the opposite side to lock a profit or cap a loss. Prices,
//! probabilities, edges, rates and ratios are in millionths; share
//! quantities in millionths of a share; amounts in millionths of a USDC.
use vstd::prelude::*;
use crate::analysis_pnl::{round_half_away, round_div, lemma_round_bound};
use crate::buy_guards::{spec_clamp_probability, clamp_probability};
use crate::json::{JsonValue, JsonView, view_members, push_member, object_from};
use crate::decimal::{wide_micros_json, wide_micros_value};
use crate::text::str_eq;
use crate::strategy_nodes::{
    confidence_ladder_opposite_side, confidence_ladder_raw_config, confidence_ladder_config_value,
    confidence_ladder_config_i64, confidence_ladder_config_bool, spec_section_value, spec_confidence_ladder_flag,
};
use crate::flow::{TradeFlowNode, TradeFlowRunStep, opt_member, step_input, flow_context_view, key_views};
use crate::analysis::{first_key_micros, trade_builder_analysis_payload_number};
use crate::json::{opt_get, opt_as_i64, opt_view};
use crate::json_number::{spec_json_micros, json_micros};

verus! {

/// A price band of the ladder: from `price_min` (inclusive) to `price_max`
/// (exclusive), how many shares to add and the model edge it needs.
pub struct ConfidenceLadderBand {
    pub price_min: i64,
    pub price_max: i64,
    pub add_shares: i64,
    pub min_model_edge: i64,
}

/// The settings of a confidence ladder.
pub struct ConfidenceLadderConfig {
    pub base_probe_shares: i64,
    pub max_loss_per_market_usdc: i64,
    pub max_total_cost_per_market_usdc: i64,
    pub entry_window_start_sec: i64,
    pub entry_window_end_sec: i64,
    pub no_new_dominant_buy_last_sec: i64,
    pub probe_price_min: i64,
    pub probe_price_max: i64,
    pub max_spread: i64,
    pub dominance_gap: i64,
    pub chop_probability_max: i64,
    pub hard_no_chase_above: i64,
    pub taker_fee_rate: i64,
    pub slippage_buffer: i64,
    pub prefer_post_only: bool,
    pub taker_allowed_only_if_edge_above: i64,
    pub opposite_price_max: i64,
    pub hedge_min_reversal_edge: i64,
    pub profit_lock_pair_cost_max: i64,
    pub strong_profit_lock_pair_cost: i64,
    pub damage_control_price_min: i64,
    pub damage_control_price_max: i64,
    pub target_hedge_ratio_min: i64,
    pub target_hedge_ratio_max: i64,
    pub max_direction_flips: i64,
    pub ladder: Vec<ConfidenceLadderBand>,
}

/// The default bands: 45-55c add 2 (edge 2%), 55-65c add 3 (2%), 65-75c add
/// 5 (2.5%), 75-85c add 5 (3%), 85-92c add 2 (4%).
pub open spec fn default_bands() -> Seq<ConfidenceLadderBand> {
    seq![
        ConfidenceLadderBand { price_min: 450_000, price_max: 550_000, add_shares: 2_000_000, min_model_edge: 20_000 },
        ConfidenceLadderBand { price_min: 550_000, price_max: 650_000, add_shares: 3_000_000, min_model_edge: 20_000 },
        ConfidenceLadderBand { price_min: 650_000, price_max: 750_000, add_shares: 5_000_000, min_model_edge: 25_000 },
        ConfidenceLadderBand { price_min: 750_000, price_max: 850_000, add_shares: 5_000_000, min_model_edge: 30_000 },
        ConfidenceLadderBand { price_min: 850_000, price_max: 920_000, add_shares: 2_000_000, min_model_edge: 40_000 },
    ]
}

/// The default settings, but the bands.
pub open spec fn is_default_config(c: ConfidenceLadderConfig) -> bool {
    &&& c.base_probe_shares == 2_000_000
    &&& c.max_loss_per_market_usdc == 3_000_000
    &&& c.max_total_cost_per_market_usdc == 25_000_000
    &&& c.entry_window_start_sec == 3
    &&& c.entry_window_end_sec == 285
    &&& c.no_new_dominant_buy_last_sec == 15
    &&& c.probe_price_min == 450_000
    &&& c.probe_price_max == 550_000
    &&& c.max_spread == 30_000
    &&& c.dominance_gap == 120_000
    &&& c.chop_probability_max == 450_000
    &&& c.hard_no_chase_above == 930_000
    &&& c.taker_fee_rate == 70_000
    &&& c.slippage_buffer == 5_000
    &&& c.prefer_post_only
    &&& c.taker_allowed_only_if_edge_above == 50_000
    &&& c.opposite_price_max == 200_000
    &&& c.hedge_min_reversal_edge == 30_000
    &&& c.profit_lock_pair_cost_max == 970_000
    &&& c.strong_profit_lock_pair_cost == 940_000
    &&& c.damage_control_price_min == 350_000
    &&& c.damage_control_price_max == 600_000
    &&& c.target_hedge_ratio_min == 350_000
    &&& c.target_hedge_ratio_max == 1_000_000
    &&& c.max_direction_flips == 2
}

impl Default for ConfidenceLadderConfig {
    fn default() -> (r: Self)
        ensures
            is_default_config(r),
            r.ladder@ == default_bands(),
    {
        let ladder = vec![
            ConfidenceLadderBand { price_min: 450_000, price_max: 550_000, add_shares: 2_000_000, min_model_edge: 20_000 },
            ConfidenceLadderBand { price_min: 550_000, price_max: 650_000, add_shares: 3_000_000, min_model_edge: 20_000 },
            ConfidenceLadderBand { price_min: 650_000, price_max: 750_000, add_shares: 5_000_000, min_model_edge: 25_000 },
            ConfidenceLadderBand { price_min: 750_000, price_max: 850_000, add_shares: 5_000_000, min_model_edge: 30_000 },
            ConfidenceLadderBand { price_min: 850_000, price_max: 920_000, add_shares: 2_000_000, min_model_edge: 40_000 },
        ];
        assert(ladder@ =~= default_bands());
        ConfidenceLadderConfig {
            base_probe_shares: 2_000_000,
            max_loss_per_market_usdc: 3_000_000,
            max_total_cost_per_market_usdc: 25_000_000,
            entry_window_start_sec: 3,
            entry_window_end_sec: 285,
            no_new_dominant_buy_last_sec: 15,
            probe_price_min: 450_000,
            probe_price_max: 550_000,
            max_spread: 30_000,
            dominance_gap: 120_000,
            chop_probability_max: 450_000,
            hard_no_chase_above: 930_000,
            taker_fee_rate: 70_000,
            slippage_buffer: 5_000,
            prefer_post_only: true,
            taker_allowed_only_if_edge_above: 50_000,
            opposite_price_max: 200_000,
            hedge_min_reversal_edge: 30_000,
            profit_lock_pair_cost_max: 970_000,
            strong_profit_lock_pair_cost: 940_000,
            damage_control_price_min: 350_000,
            damage_control_price_max: 600_000,
            target_hedge_ratio_min: 350_000,
            target_hedge_ratio_max: 1_000_000,
            max_direction_flips: 2,
            ladder,
        }
    }
}

/// What a confidence ladder holds in one market: the shares and cost of
/// each side, their average costs, the worst outcome's profit, how often it
/// switched sides and how many buys it made.
pub struct TradeBuilderConfidenceLadderState {
    pub up_qty: i64,
    pub down_qty: i64,
    pub total_cost_usdc: i64,
    pub up_cost_usdc: i64,
    pub down_cost_usdc: i64,
    pub up_avg_cost: Option<i64>,
    pub down_avg_cost: Option<i64>,
    pub worst_case_pnl: i64,
    pub side_switch_count: i64,
    pub buy_count: i64,
}

impl Default for TradeBuilderConfidenceLadderState {
    fn default() -> (r: Self)
        ensures
            r.up_qty == 0 && r.down_qty == 0 && r.total_cost_usdc == 0,
            r.up_cost_usdc == 0 && r.down_cost_usdc == 0,
            r.up_avg_cost is None && r.down_avg_cost is None,
            r.worst_case_pnl == 0 && r.side_switch_count == 0 && r.buy_count == 0,
    {
        TradeBuilderConfidenceLadderState {
            up_qty: 0,
            down_qty: 0,
            total_cost_usdc: 0,
            up_cost_usdc: 0,
            down_cost_usdc: 0,
            up_avg_cost: None,
            down_avg_cost: None,
            worst_case_pnl: 0,
            side_switch_count: 0,
            buy_count: 0,
        }
    }
}

/// The book of one side of the market.
pub struct ConfidenceLadderQuote {
    pub ladder_side: &'static str,
    pub token_id: String,
    pub outcome_label: String,
    pub best_bid: Option<i64>,
    pub best_ask: Option<i64>,
    pub best_bid_size: Option<i64>,
    pub best_ask_size: Option<i64>,
    pub last_trade_price: Option<i64>,
    pub current_price: i64,
    pub snapshot: JsonValue,
}

/// What the model makes of the market: the probability of each side, how
/// choppy it is, each side's score and the side that dominates, if any.
pub struct ConfidenceLadderModel {
    pub p_up: i64,
    pub p_down: i64,
    pub chop: i64,
    pub score_up: i64,
    pub score_down: i64,
    pub dominant_side: Option<&'static str>,
    pub diagnostics: JsonValue,
}

/// Whether a side is `down` (any other side counts as `up`).
pub open spec fn is_down(side: Seq<char>) -> bool {
    side == "down"@
}

/// The seconds a market has run, from the seconds it has left (of five
/// minutes), within `[0, 300]`.
pub open spec fn spec_elapsed_sec(remaining_sec: Option<i64>) -> Option<int> {
    match remaining_sec {
        Some(r) => Some(if 300 - r < 0 { 0 } else if 300 - r > 300 { 300 } else { 300 - r }),
        None => None,
    }
}

pub fn confidence_ladder_elapsed_sec(remaining_sec: Option<i64>) -> (r: Option<i64>)
    ensures
        r matches Some(x) ==> spec_elapsed_sec(remaining_sec) == Some(x as int),
        r is None <==> remaining_sec is None,
{
    match remaining_sec {
        Some(rem) => {
            let e: i128 = 300 - (rem as i128);
            Some(if e < 0 { 0 } else if e > 300 { 300 } else { e as i64 })
        },
        None => None,
    }
}

/// Whether the market is within the entry window; a market whose time left
/// is unknown counts as within.
pub open spec fn spec_in_entry_window(config: ConfidenceLadderConfig, remaining_sec: Option<i64>) -> bool {
    match spec_elapsed_sec(remaining_sec) {
        Some(e) => config.entry_window_start_sec <= e <= config.entry_window_end_sec,
        None => true,
    }
}

pub fn confidence_ladder_in_entry_window(config: &ConfidenceLadderConfig, remaining_sec: Option<i64>) -> (r: bool)
    ensures
        r == spec_in_entry_window(*config, remaining_sec),
{
    match confidence_ladder_elapsed_sec(remaining_sec) {
        Some(e) => config.entry_window_start_sec <= e && e <= config.entry_window_end_sec,
        None => true,
    }
}

/// Whether too little time is left for a new dominant buy.
pub open spec fn spec_late_for_dominant_buy(config: ConfidenceLadderConfig, remaining_sec: Option<i64>) -> bool {
    match remaining_sec {
        Some(r) => r <= config.no_new_dominant_buy_last_sec,
        None => false,
    }
}

pub fn confidence_ladder_is_late_for_dominant_buy(config: &ConfidenceLadderConfig, remaining_sec: Option<i64>) -> (r: bool)
    ensures
        r == spec_late_for_dominant_buy(*config, remaining_sec),
{
    match remaining_sec {
        Some(rem) => rem <= config.no_new_dominant_buy_last_sec,
        None => false,
    }
}

/// The model's probability of a side.
pub open spec fn spec_side_probability(model: ConfidenceLadderModel, side: Seq<char>) -> i64 {
    if is_down(side) { model.p_down } else { model.p_up }
}

pub fn confidence_ladder_side_probability(model: &ConfidenceLadderModel, side: &str) -> (r: i64)
    ensures
        r == spec_side_probability(*model, side@),
{
    if str_eq(side, "down") { model.p_down } else { model.p_up }
}

/// The price to buy a side at: its best ask, else its current price,
/// clamped to a probability; none unless strictly between 0 and 1.
pub open spec fn spec_quote_price(q: ConfidenceLadderQuote) -> Option<i64> {
    let p = spec_clamp_probability(match q.best_ask { Some(a) => a, None => q.current_price });
    if 0 < p < 1_000_000 { Some(p) } else { None }
}

pub fn confidence_ladder_quote_price(quote: &ConfidenceLadderQuote) -> (r: Option<i64>)
    ensures
        r == spec_quote_price(*quote),
{
    let raw = match quote.best_ask {
        Some(a) => a,
        None => quote.current_price,
    };
    let p = clamp_probability(raw);
    if 0 < p && p < 1_000_000 { Some(p) } else { None }
}

/// The middle of a side's book (rounded down to a millionth), else its one
/// quoted price, else its current price, clamped to a probability.
pub open spec fn spec_quote_mid(q: ConfidenceLadderQuote) -> i64 {
    match (q.best_bid, q.best_ask) {
        (Some(b), Some(a)) => spec_clamp_probability(((b + a) / 2) as i64),
        (Some(b), None) => spec_clamp_probability(b),
        (None, Some(a)) => spec_clamp_probability(a),
        (None, None) => spec_clamp_probability(q.current_price),
    }
}

pub fn confidence_ladder_quote_mid(quote: &ConfidenceLadderQuote) -> (r: i64)
    ensures
        r == spec_quote_mid(*quote),
{
    match (quote.best_bid, quote.best_ask) {
        (Some(b), Some(a)) => {
            let s: i128 = (b as i128) + (a as i128);
            let m: i128 = if s >= 0 { s / 2 } else { 0 - ((0 - s + 1) / 2) };
            clamp_probability(m as i64)
        },
        (Some(b), None) => clamp_probability(b),
        (None, Some(a)) => clamp_probability(a),
        (None, None) => clamp_probability(quote.current_price),
    }
}

/// The spread of a side's book: ask less bid, when both are quoted and the
/// book is not crossed (at most the largest `i64`).
pub open spec fn spec_spread(q: ConfidenceLadderQuote) -> Option<i64> {
    match (q.best_bid, q.best_ask) {
        (Some(b), Some(a)) => if a >= b { Some(if a - b > i64::MAX { i64::MAX } else { (a - b) as i64 }) } else { None },
        _ => None,
    }
}

pub fn confidence_ladder_spread(quote: &ConfidenceLadderQuote) -> (r: Option<i64>)
    ensures
        r == spec_spread(*quote),
{
    match (quote.best_bid, quote.best_ask) {
        (Some(b), Some(a)) => {
            if a >= b {
                let d: i128 = (a as i128) - (b as i128);
                if d <= i64::MAX as i128 { Some(d as i64) } else { Some(i64::MAX) }
            } else {
                None
            }
        },
        _ => None,
    }
}

/// A fee for a price: the rate times the price times its complement (none
/// for a price of 1 or more, nor a negative rate or price), in millionths
/// rounded half away from zero.
pub open spec fn spec_fee(price: i64, fee_rate: i64) -> int {
    let rate: int = if fee_rate < 0 { 0 } else { fee_rate as int };
    let p: int = if price < 0 { 0 } else { price as int };
    let c: int = if price < 0 { 1_000_000 } else if price > 1_000_000 { 0 } else { 1_000_000 - price };
    round_half_away(rate * p * c, 1_000_000_000_000)
}

pub fn confidence_ladder_fee(price: i64, fee_rate: i64) -> (r: i64)
    ensures
        r == spec_fee(price, fee_rate),
        0 <= r,
{
    if fee_rate <= 0 || price <= 0 || price >= 1_000_000 {
        proof {
            assert(round_half_away(0int, 1_000_000_000_000int) == 0) by (nonlinear_arith);
            let rate: int = if fee_rate < 0 { 0 } else { fee_rate as int };
            let p: int = if price < 0 { 0 } else { price as int };
            let c: int = if price < 0 { 1_000_000 } else if price > 1_000_000 { 0 } else { 1_000_000 - price };
            assert(rate * p * c == 0) by (nonlinear_arith)
                requires rate == 0 || p == 0 || c == 0;
        }
        return 0;
    }
    proof {
        assert((price as int) * (1_000_000 - price) <= 1_000_000_000_000) by (nonlinear_arith)
            requires 0 < price < 1_000_000;
    }
    let pc: i128 = (price as i128) * ((1_000_000 - price) as i128);
    proof {
        assert(0 < pc <= 1_000_000_000_000) by (nonlinear_arith)
            requires pc == (price as int) * (1_000_000 - price), 0 < price < 1_000_000;
        assert((fee_rate as int) * pc <= 0x7fff_ffff_ffff_ffff * 1_000_000_000_000) by (nonlinear_arith)
            requires 0 < pc <= 1_000_000_000_000, 0 < fee_rate <= 0x7fff_ffff_ffff_ffff;
    }
    let x: i128 = (fee_rate as i128) * pc;
    proof {
        assert(x == (fee_rate as int) * (price as int) * (1_000_000 - price)) by (nonlinear_arith)
            requires x == (fee_rate as int) * pc, pc == (price as int) * (1_000_000 - price);
        assert(x <= 0x7fff_ffff_ffff_ffff * 1_000_000 * 1_000_000) by (nonlinear_arith)
            requires x == (fee_rate as int) * pc, 0 < fee_rate <= 0x7fff_ffff_ffff_ffff, 0 < pc <= 1_000_000_000_000;
        assert(0 < x) by (nonlinear_arith)
            requires x == (fee_rate as int) * (price as int) * (1_000_000 - price), 0 < fee_rate, 0 < price < 1_000_000;
        assert((2 * x + 1_000_000_000_000) / 2_000_000_000_000 <= 0x7fff_ffff_ffff_ffff) by (nonlinear_arith)
            requires 0 < x <= 0x7fff_ffff_ffff_ffff * 1_000_000 * 1_000_000;
    }
    ((2 * x + 1_000_000_000_000) / 2_000_000_000_000) as i64
}

/// An exact amount held in an `i64`: the largest one where it is larger.
pub open spec fn cap_i64(x: int) -> i64 {
    if x > i64::MAX { i64::MAX } else if x < i64::MIN { i64::MIN } else { x as i64 }
}

/// The cost of a share all in: its price, the taker fee, and the slippage
/// buffer when asked (at most the largest `i64`).
pub open spec fn spec_all_in_cost(price: i64, config: ConfidenceLadderConfig, include_slippage: bool) -> i64 {
    cap_i64(price + spec_fee(price, config.taker_fee_rate)
        + if include_slippage { if config.slippage_buffer < 0 { 0 } else { config.slippage_buffer as int } } else { 0 })
}

pub fn confidence_ladder_all_in_cost(price: i64, config: &ConfidenceLadderConfig, include_slippage: bool) -> (r: i64)
    ensures
        r == spec_all_in_cost(price, *config, include_slippage),
{
    let fee = confidence_ladder_fee(price, config.taker_fee_rate);
    let slip: i128 = if include_slippage { if config.slippage_buffer < 0 { 0 } else { config.slippage_buffer as i128 } } else { 0 };
    let total: i128 = (price as i128) + (fee as i128) + slip;
    if total > i64::MAX as i128 { i64::MAX } else { total as i64 }
}

/// Whether a price lies in a band.
pub open spec fn in_band(b: ConfidenceLadderBand, price: i64) -> bool {
    b.price_min <= price < b.price_max
}

/// The position of the first band that holds a price.
pub open spec fn first_band_index(bands: Seq<ConfidenceLadderBand>, price: i64) -> Option<int>
    decreases bands.len(),
{
    if bands.len() == 0 {
        None
    } else if in_band(bands[0], price) {
        Some(0)
    } else {
        match first_band_index(bands.drop_first(), price) {
            Some(i) => Some(i + 1),
            None => None,
        }
    }
}

/// The band a price falls in: none at or above the no-chase price, else the
/// first band that holds it.
pub open spec fn spec_band_for_price(config: ConfidenceLadderConfig, price: i64) -> Option<ConfidenceLadderBand> {
    if price >= config.hard_no_chase_above {
        None
    } else {
        match first_band_index(config.ladder@, price) {
            Some(i) => Some(config.ladder@[i]),
            None => None,
        }
    }
}

proof fn lemma_first_band_index_range(bands: Seq<ConfidenceLadderBand>, price: i64)
    ensures
        first_band_index(bands, price) matches Some(i) ==> 0 <= i < bands.len() && in_band(bands[i], price),
    decreases bands.len(),
{
    if bands.len() > 0 && !in_band(bands[0], price) {
        lemma_first_band_index_range(bands.drop_first(), price);
    }
}

pub fn confidence_ladder_band_for_price<'a>(config: &'a ConfidenceLadderConfig, price: i64) -> (r: Option<&'a ConfidenceLadderBand>)
    ensures
        match r {
            Some(b) => spec_band_for_price(*config, price) == Some(*b),
            None => spec_band_for_price(*config, price) is None,
        },
{
    if price >= config.hard_no_chase_above {
        return None;
    }
    let bands = &config.ladder;
    let mut i: usize = 0;
    assert(bands@.subrange(0, bands@.len() as int) =~= bands@);
    while i < bands.len()
        invariant
            i <= bands.len(),
            bands@ == config.ladder@,
            price < config.hard_no_chase_above,
            first_band_index(bands@, price) == match first_band_index(bands@.subrange(i as int, bands@.len() as int), price) {
                Some(k) => Some(k + i),
                None => None,
            },
        decreases bands.len() - i,
    {
        let ghost rest = bands@.subrange(i as int, bands@.len() as int);
        assert(rest[0] == bands@[i as int]);
        let b = &bands[i];
        if b.price_min <= price && price < b.price_max {
            assert(in_band(rest[0], price));
            assert(first_band_index(rest, price) == Some(0int));
            assert(first_band_index(bands@, price) == Some(i as int));
            return Some(b);
        }
        assert(rest.drop_first() =~= bands@.subrange(i + 1, bands@.len() as int));
        i = i + 1;
    }
    None
}

/// The shares each side would hold after buying `quantity` of `side`, and
/// the cost all told, in millionths of millionths of a USDC: the worst
/// outcome's profit.
pub open spec fn spec_worst_case_scaled(state: TradeBuilderConfidenceLadderState, side: Seq<char>, quantity: i64, all_in_cost: i64) -> int {
    let up: int = state.up_qty + if side == "up"@ { quantity as int } else { 0 };
    let down: int = state.down_qty + if side == "down"@ { quantity as int } else { 0 };
    let cost: int = state.total_cost_usdc * 1_000_000 + quantity * all_in_cost;
    let low: int = if up < down { up } else { down };
    low * 1_000_000 - cost
}

/// The cost all told after buying `quantity` at `all_in_cost`, in
/// millionths of millionths of a USDC.
pub open spec fn spec_total_cost_scaled(state: TradeBuilderConfidenceLadderState, quantity: i64, all_in_cost: i64) -> int {
    state.total_cost_usdc * 1_000_000 + quantity * all_in_cost
}

proof fn lemma_scaled_bounds(state: TradeBuilderConfidenceLadderState, side: Seq<char>, quantity: i64, all_in_cost: i64)
    ensures
        -0x4100_0000_0000_0000_0000_0000_0000_0000 < spec_worst_case_scaled(state, side, quantity, all_in_cost) < 0x4100_0000_0000_0000_0000_0000_0000_0000,
        -0x4100_0000_0000_0000_0000_0000_0000_0000 < spec_total_cost_scaled(state, quantity, all_in_cost) < 0x4100_0000_0000_0000_0000_0000_0000_0000,
{
    assert(-0x4000_0000_0000_0000_0000_0000_0000_0000 <= (quantity as int) * (all_in_cost as int) <= 0x4000_0000_0000_0000_0000_0000_0000_0000) by (nonlinear_arith);
}

/// The worst outcome's profit after buying `quantity` of `side` at
/// `all_in_cost`, in millionths of a USDC rounded down.
pub fn confidence_ladder_projected_worst_case_pnl(state: &TradeBuilderConfidenceLadderState, side: &str, quantity: i64, all_in_cost: i64) -> (r: i128)
    ensures
        r == spec_worst_case_scaled(*state, side@, quantity, all_in_cost) / 1_000_000,
{
    proof { lemma_scaled_bounds(*state, side@, quantity, all_in_cost); }
    let up: i128 = (state.up_qty as i128) + if str_eq(side, "up") { quantity as i128 } else { 0 };
    let down: i128 = (state.down_qty as i128) + if str_eq(side, "down") { quantity as i128 } else { 0 };
    let cost: i128 = (state.total_cost_usdc as i128) * 1_000_000 + (quantity as i128) * (all_in_cost as i128);
    let low: i128 = if up < down { up } else { down };
    let x: i128 = low * 1_000_000 - cost;
    if x >= 0 { x / 1_000_000 } else { 0 - ((0 - x + 999_999) / 1_000_000) }
}

/// The cost all told after buying `quantity` at `all_in_cost`, in
/// millionths of a USDC rounded half away from zero.
pub fn confidence_ladder_projected_total_cost(state: &TradeBuilderConfidenceLadderState, quantity: i64, all_in_cost: i64) -> (r: i128)
    ensures
        r == round_half_away(spec_total_cost_scaled(*state, quantity, all_in_cost), 1_000_000),
{
    proof { lemma_scaled_bounds(*state, "up"@, quantity, all_in_cost); }
    let x: i128 = (state.total_cost_usdc as i128) * 1_000_000 + (quantity as i128) * (all_in_cost as i128);
    round_div(x, 1_000_000)
}

/// Whether a buy keeps within the market's cost budget and its loss cap,
/// exactly.
pub open spec fn spec_risk_allows_buy(config: ConfidenceLadderConfig, state: TradeBuilderConfidenceLadderState, side: Seq<char>, quantity: i64, all_in_cost: i64) -> bool {
    spec_total_cost_scaled(state, quantity, all_in_cost) <= config.max_total_cost_per_market_usdc * 1_000_000
        && spec_worst_case_scaled(state, side, quantity, all_in_cost) >= -(config.max_loss_per_market_usdc * 1_000_000)
}

pub fn confidence_ladder_risk_allows_buy(config: &ConfidenceLadderConfig, state: &TradeBuilderConfidenceLadderState, side: &str, quantity: i64, all_in_cost: i64) -> (r: bool)
    ensures
        r == spec_risk_allows_buy(*config, *state, side@, quantity, all_in_cost),
{
    proof { lemma_scaled_bounds(*state, side@, quantity, all_in_cost); }
    let up: i128 = (state.up_qty as i128) + if str_eq(side, "up") { quantity as i128 } else { 0 };
    let down: i128 = (state.down_qty as i128) + if str_eq(side, "down") { quantity as i128 } else { 0 };
    let cost: i128 = (state.total_cost_usdc as i128) * 1_000_000 + (quantity as i128) * (all_in_cost as i128);
    let low: i128 = if up < down { up } else { down };
    let worst: i128 = low * 1_000_000 - cost;
    cost <= (config.max_total_cost_per_market_usdc as i128) * 1_000_000
        && worst >= 0 - (config.max_loss_per_market_usdc as i128) * 1_000_000
}

/// The side a ladder holds more of (`up` on a tie); none when it holds
/// nothing.
pub open spec fn spec_held_side(state: TradeBuilderConfidenceLadderState) -> Option<Seq<char>> {
    if state.up_qty <= 0 && state.down_qty <= 0 {
        None
    } else if state.up_qty >= state.down_qty {
        Some("up"@)
    } else {
        Some("down"@)
    }
}

pub fn confidence_ladder_held_side(state: &TradeBuilderConfidenceLadderState) -> (r: Option<&'static str>)
    ensures
        match r {
            Some(s) => spec_held_side(*state) == Some(s@),
            None => spec_held_side(*state) is None,
        },
{
    if state.up_qty <= 0 && state.down_qty <= 0 {
        None
    } else if state.up_qty >= state.down_qty {
        Some("up")
    } else {
        Some("down")
    }
}

/// The shares a ladder holds of a side.
pub open spec fn spec_state_qty(state: TradeBuilderConfidenceLadderState, side: Seq<char>) -> i64 {
    if is_down(side) { state.down_qty } else { state.up_qty }
}

pub fn confidence_ladder_state_qty(state: &TradeBuilderConfidenceLadderState, side: &str) -> (r: i64)
    ensures
        r == spec_state_qty(*state, side@),
{
    if str_eq(side, "down") { state.down_qty } else { state.up_qty }
}

/// The average cost of a side's shares.
pub open spec fn spec_state_avg_cost(state: TradeBuilderConfidenceLadderState, side: Seq<char>) -> Option<i64> {
    if is_down(side) { state.down_avg_cost } else { state.up_avg_cost }
}

pub fn confidence_ladder_state_avg_cost(state: &TradeBuilderConfidenceLadderState, side: &str) -> (r: Option<i64>)
    ensures
        r == spec_state_avg_cost(*state, side@),
{
    if str_eq(side, "down") { state.down_avg_cost } else { state.up_avg_cost }
}

/// The book of a side.
pub open spec fn spec_side_quote(side: Seq<char>, up: ConfidenceLadderQuote, down: ConfidenceLadderQuote) -> ConfidenceLadderQuote {
    if is_down(side) { down } else { up }
}

pub fn confidence_ladder_side_quote<'a>(side: &str, up: &'a ConfidenceLadderQuote, down: &'a ConfidenceLadderQuote) -> (r: &'a ConfidenceLadderQuote)
    ensures
        *r == spec_side_quote(side@, *up, *down),
{
    if str_eq(side, "down") { down } else { up }
}

/// Whether the ladder has switched sides as often as it may.
pub open spec fn spec_side_flip_disabled(config: ConfidenceLadderConfig, state: TradeBuilderConfidenceLadderState) -> bool {
    state.side_switch_count >= config.max_direction_flips
}

pub fn confidence_ladder_side_flip_disabled(config: &ConfidenceLadderConfig, state: &TradeBuilderConfidenceLadderState) -> (r: bool)
    ensures
        r == spec_side_flip_disabled(*config, *state),
{
    state.side_switch_count >= config.max_direction_flips
}

/// How an order is placed: a taking market order (`FAK`) only when post-only
/// is not preferred and the edge reaches the taker threshold, else a
/// resting post-only limit order (`GTC`).
pub open spec fn spec_takes(config: ConfidenceLadderConfig, edge: i64) -> bool {
    !config.prefer_post_only && edge >= config.taker_allowed_only_if_edge_above
}

pub fn confidence_ladder_execution_shape(config: &ConfidenceLadderConfig, edge: i64) -> (r: (&'static str, &'static str, bool))
    ensures
        spec_takes(*config, edge) ==> r.0@ == "market"@ && r.1@ == "FAK"@ && !r.2,
        !spec_takes(*config, edge) ==> r.0@ == "limit"@ && r.1@ == "GTC"@ && r.2,
{
    if !config.prefer_post_only && edge >= config.taker_allowed_only_if_edge_above {
        ("market", "FAK", false)
    } else {
        ("limit", "GTC", true)
    }
}

/// Most shares a ladder can hold of a side: a trillion.
pub const CONFIDENCE_LADDER_MAX_SHARES: i64 = 1_000_000_000_000_000_000;

impl TradeBuilderConfidenceLadderState {
    /// What a ladder holds of each side is a quantity: none or more, and
    /// at most a trillion shares.
    pub open spec fn wf(self) -> bool {
        &&& 0 <= self.up_qty <= CONFIDENCE_LADDER_MAX_SHARES
        &&& 0 <= self.down_qty <= CONFIDENCE_LADDER_MAX_SHARES
    }
}

/// A quantity to buy and why.
pub struct ConfidenceLadderLossCapPlan {
    pub quantity: i64,
    pub reason: &'static str,
}

/// `num / den` shares (in millionths), rounded up to hundredths of a share;
/// none for none or less.
pub open spec fn ceil_hundredths(num: int, den: int) -> int {
    if num <= 0 { 0 } else { ((num + den * 10_000 - 1) / (den * 10_000)) * 10_000 }
}

/// `num / den` shares (in millionths), rounded to hundredths of a share
/// half away from zero.
pub open spec fn round_hundredths(num: int, den: int) -> int {
    round_half_away(num, den * 10_000) * 10_000
}

/// A quantity of shares (in millionths) rounded up to hundredths; none for
/// none or less.
pub fn confidence_ladder_ceil_share_qty(value: i64) -> (r: i128)
    ensures
        r == ceil_hundredths(value as int, 1),
{
    if value <= 0 {
        0
    } else {
        (((value as i128) + 9_999) / 10_000) * 10_000
    }
}

pub open spec fn max0(x: int) -> int {
    if x < 0 { 0 } else { x }
}

pub open spec fn min_int(a: int, b: int) -> int {
    if a < b { a } else { b }
}

/// How far the held side's shares exceed the opposite side's.
pub open spec fn spec_unmatched_qty(state: TradeBuilderConfidenceLadderState, held_side: Seq<char>, opposite_side: Seq<char>) -> int {
    max0(spec_state_qty(state, held_side) - spec_state_qty(state, opposite_side))
}

pub fn confidence_ladder_unmatched_qty(state: &TradeBuilderConfidenceLadderState, held_side: &str, opposite_side: &str) -> (r: i64)
    requires
        state.wf(),
    ensures
        r == spec_unmatched_qty(*state, held_side@, opposite_side@),
{
    let d: i64 = confidence_ladder_state_qty(state, held_side) - confidence_ladder_state_qty(state, opposite_side);
    if d < 0 { 0 } else { d }
}

/// The most of the opposite side a ladder may buy at `all_in_cost`: the
/// unmatched shares, the shares the remaining budget buys, and the shares
/// that keep the held side's win above the loss cap, whichever is least
/// (none or more), rounded to hundredths of a share. At a cost of none or
/// less, the unmatched shares.
pub open spec fn spec_max_opposite_qty(config: ConfidenceLadderConfig, state: TradeBuilderConfidenceLadderState, held_side: Seq<char>, opposite_side: Seq<char>, all_in_cost: i64) -> int {
    let unmatched = spec_unmatched_qty(state, held_side, opposite_side);
    if all_in_cost > 0 {
        let budget = (config.max_total_cost_per_market_usdc - state.total_cost_usdc) * 1_000_000;
        let held_win = (spec_state_qty(state, held_side) - state.total_cost_usdc + config.max_loss_per_market_usdc) * 1_000_000;
        round_hundredths(max0(min_int(min_int(unmatched * all_in_cost, budget), held_win)), all_in_cost as int)
    } else {
        round_hundredths(unmatched, 1)
    }
}

proof fn lemma_round_hundredths_bound(num: int, den: int)
    requires
        0 <= num,
        den >= 1,
    ensures
        0 <= round_hundredths(num, den) <= num / den + 10_000,
{
    lemma_round_bound(num, den * 10_000);
    let q = round_half_away(num, den * 10_000);
    assert(num / (den * 10_000) * 10_000 <= num / den) by (nonlinear_arith)
        requires num >= 0, den >= 1;
    assert(q * 10_000 <= num / den + 10_000) by (nonlinear_arith)
        requires 0 <= q <= num / (den * 10_000) + 1, num / (den * 10_000) * 10_000 <= num / den;
    assert(q * 10_000 >= 0) by (nonlinear_arith) requires q >= 0;
}

pub fn confidence_ladder_max_opposite_qty(
    config: &ConfidenceLadderConfig,
    state: &TradeBuilderConfidenceLadderState,
    held_side: &str,
    opposite_side: &str,
    all_in_cost: i64,
) -> (r: i64)
    requires
        state.wf(),
    ensures
        r == spec_max_opposite_qty(*config, *state, held_side@, opposite_side@, all_in_cost),
        0 <= r <= spec_unmatched_qty(*state, held_side@, opposite_side@) + 10_000,
{
    let unmatched = confidence_ladder_unmatched_qty(state, held_side, opposite_side);
    if all_in_cost > 0 {
        let held = confidence_ladder_state_qty(state, held_side);
        let budget: i128 = ((config.max_total_cost_per_market_usdc as i128) - (state.total_cost_usdc as i128)) * 1_000_000;
        let held_win: i128 = ((held as i128) - (state.total_cost_usdc as i128) + (config.max_loss_per_market_usdc as i128)) * 1_000_000;
        proof {
            assert((unmatched as int) * (all_in_cost as int) <= 1_000_000_000_000_000_000 * 0x7fff_ffff_ffff_ffff) by (nonlinear_arith)
                requires 0 <= unmatched <= 1_000_000_000_000_000_000, 0 < all_in_cost;
        }
        let u: i128 = (unmatched as i128) * (all_in_cost as i128);
        let m1: i128 = if u < budget { u } else { budget };
        let m2: i128 = if m1 < held_win { m1 } else { held_win };
        let x: i128 = if m2 < 0 { 0 } else { m2 };
        let q = round_div(x, (all_in_cost as i128) * 10_000);
        proof {
            lemma_round_hundredths_bound(x as int, all_in_cost as int);
            assert(x <= u);
            assert((x as int) / (all_in_cost as int) <= unmatched) by (nonlinear_arith)
                requires 0 <= x <= (unmatched as int) * (all_in_cost as int), all_in_cost > 0, unmatched >= 0;
        }
        (q * 10_000) as i64
    } else {
        let q = round_div(unmatched as i128, 10_000);
        proof {
            lemma_round_hundredths_bound(unmatched as int, 1);
        }
        (q * 10_000) as i64
    }
}

/// The fewest opposite shares (rounded up to hundredths) that lift the
/// worst outcome's profit to `target_pnl`, when that is at most what may be
/// bought and reaches the target within a millionth of a USDC; none for a
/// cost outside `(0, 1)`.
pub open spec fn spec_quantity_for_target(
    config: ConfidenceLadderConfig,
    state: TradeBuilderConfidenceLadderState,
    held_side: Seq<char>,
    opposite_side: Seq<char>,
    all_in_cost: i64,
    target_pnl: i64,
) -> Option<int> {
    if all_in_cost <= 0 || all_in_cost >= 1_000_000 {
        None
    } else {
        let needed = (target_pnl + state.total_cost_usdc - spec_state_qty(state, opposite_side)) * 1_000_000;
        let quantity = ceil_hundredths(needed, 1_000_000 - all_in_cost);
        let max_qty = spec_max_opposite_qty(config, state, held_side, opposite_side, all_in_cost);
        if quantity <= 0 || quantity > max_qty {
            None
        } else if spec_worst_case_scaled(state, opposite_side, quantity as i64, all_in_cost) + 1_000_000 >= target_pnl * 1_000_000 {
            Some(quantity)
        } else {
            None
        }
    }
}

pub fn confidence_ladder_quantity_for_worst_case_target(
    config: &ConfidenceLadderConfig,
    state: &TradeBuilderConfidenceLadderState,
    held_side: &str,
    opposite_side: &str,
    all_in_cost: i64,
    target_pnl: i64,
) -> (r: Option<i64>)
    requires
        state.wf(),
    ensures
        match r {
            Some(q) => spec_quantity_for_target(*config, *state, held_side@, opposite_side@, all_in_cost, target_pnl) == Some(q as int),
            None => spec_quantity_for_target(*config, *state, held_side@, opposite_side@, all_in_cost, target_pnl) is None,
        },
{
    if all_in_cost <= 0 || all_in_cost >= 1_000_000 {
        return None;
    }
    let opposite_qty = confidence_ladder_state_qty(state, opposite_side);
    let needed: i128 = ((target_pnl as i128) + (state.total_cost_usdc as i128) - (opposite_qty as i128)) * 1_000_000;
    let den: i128 = ((1_000_000 - all_in_cost) as i128) * 10_000;
    let quantity: i128 = if needed <= 0 { 0 } else { ((needed + den - 1) / den) * 10_000 };
    proof {
        if needed > 0 {
            assert((needed + den - 1) / (den as int) <= needed) by (nonlinear_arith)
                requires needed > 0, den >= 10_000;
        }
    }
    let max_qty = confidence_ladder_max_opposite_qty(config, state, held_side, opposite_side, all_in_cost);
    if quantity <= 0 || quantity > max_qty as i128 {
        return None;
    }
    let q = quantity as i64;
    proof { lemma_scaled_bounds(*state, opposite_side@, q, all_in_cost); }
    let up: i128 = (state.up_qty as i128) + if str_eq(opposite_side, "up") { q as i128 } else { 0 };
    let down: i128 = (state.down_qty as i128) + if str_eq(opposite_side, "down") { q as i128 } else { 0 };
    let cost: i128 = (state.total_cost_usdc as i128) * 1_000_000 + (q as i128) * (all_in_cost as i128);
    let low: i128 = if up < down { up } else { down };
    let worst: i128 = low * 1_000_000 - cost;
    if worst + 1_000_000 >= (target_pnl as i128) * 1_000_000 {
        Some(q)
    } else {
        None
    }
}

/// The opposite shares that bring the hedge up to the largest target ratio
/// of the held side, at most what may be bought, rounded to hundredths of a
/// share; none when that is nothing.
pub open spec fn spec_strong_profit_lock_quantity(
    config: ConfidenceLadderConfig,
    state: TradeBuilderConfidenceLadderState,
    held_side: Seq<char>,
    opposite_side: Seq<char>,
    all_in_cost: i64,
) -> Option<int> {
    let ratio: int = if config.target_hedge_ratio_max < 0 { 0 } else if config.target_hedge_ratio_max > 1_000_000 { 1_000_000 } else { config.target_hedge_ratio_max as int };
    let missing = max0(spec_state_qty(state, held_side) * ratio - spec_state_qty(state, opposite_side) * 1_000_000);
    let max_qty = spec_max_opposite_qty(config, state, held_side, opposite_side, all_in_cost);
    let quantity = round_hundredths(min_int(missing, max_qty * 1_000_000), 1_000_000);
    if quantity > 0 { Some(quantity) } else { None }
}

pub fn confidence_ladder_strong_profit_lock_quantity(
    config: &ConfidenceLadderConfig,
    state: &TradeBuilderConfidenceLadderState,
    held_side: &str,
    opposite_side: &str,
    all_in_cost: i64,
) -> (r: Option<i64>)
    requires
        state.wf(),
    ensures
        match r {
            Some(q) => spec_strong_profit_lock_quantity(*config, *state, held_side@, opposite_side@, all_in_cost) == Some(q as int),
            None => spec_strong_profit_lock_quantity(*config, *state, held_side@, opposite_side@, all_in_cost) is None,
        },
{
    let ratio: i128 = if config.target_hedge_ratio_max < 0 { 0 } else if config.target_hedge_ratio_max > 1_000_000 { 1_000_000 } else { config.target_hedge_ratio_max as i128 };
    let held = confidence_ladder_state_qty(state, held_side);
    let opposite = confidence_ladder_state_qty(state, opposite_side);
    proof {
        assert((held as int) * ratio <= 1_000_000_000_000_000_000 * 1_000_000) by (nonlinear_arith)
            requires 0 <= held <= 1_000_000_000_000_000_000, 0 <= ratio <= 1_000_000;
        assert((held as int) * ratio >= 0) by (nonlinear_arith)
            requires 0 <= held, 0 <= ratio;
    }
    let m: i128 = (held as i128) * ratio - (opposite as i128) * 1_000_000;
    let missing: i128 = if m < 0 { 0 } else { m };
    let max_qty = confidence_ladder_max_opposite_qty(config, state, held_side, opposite_side, all_in_cost);
    let cap: i128 = (max_qty as i128) * 1_000_000;
    let x: i128 = if missing < cap { missing } else { cap };
    let q = round_div(x, 10_000_000_000);
    proof {
        lemma_round_hundredths_bound(x as int, 1_000_000);
        assert((x as int) / 1_000_000 <= max_qty) by (nonlinear_arith)
            requires 0 <= x <= (max_qty as int) * 1_000_000;
    }
    let quantity: i128 = q * 10_000;
    if quantity > 0 {
        proof {
            assert(quantity <= spec_unmatched_qty(*state, held_side@, opposite_side@) + 20_000);
        }
        Some(quantity as i64)
    } else {
        None
    }
}

/// The opposite shares that lock the loss at the loss cap (or at
/// `target_pnl`).
pub open spec fn spec_loss_cap_quantity(
    config: ConfidenceLadderConfig,
    state: TradeBuilderConfidenceLadderState,
    held_side: Seq<char>,
    opposite_side: Seq<char>,
    all_in_cost: i64,
    target_pnl: i64,
) -> Option<int> {
    spec_quantity_for_target(config, state, held_side, opposite_side, all_in_cost, target_pnl)
}

pub fn confidence_ladder_loss_cap_quantity(
    config: &ConfidenceLadderConfig,
    state: &TradeBuilderConfidenceLadderState,
    held_side: &str,
    opposite_side: &str,
    all_in_cost: i64,
    target_pnl: i64,
) -> (r: Option<ConfidenceLadderLossCapPlan>)
    requires
        state.wf(),
    ensures
        match r {
            Some(plan) => spec_loss_cap_quantity(*config, *state, held_side@, opposite_side@, all_in_cost, target_pnl) == Some(plan.quantity as int)
                && plan.reason@ == "max_loss_cap"@,
            None => spec_loss_cap_quantity(*config, *state, held_side@, opposite_side@, all_in_cost, target_pnl) is None,
        },
{
    match confidence_ladder_quantity_for_worst_case_target(config, state, held_side, opposite_side, all_in_cost, target_pnl) {
        Some(quantity) => Some(ConfidenceLadderLossCapPlan { quantity, reason: "max_loss_cap" }),
        None => None,
    }
}

/// The opposite shares to buy for a profit lock: enough to break even in
/// the worst outcome where that can be bought; else enough to cap the loss,
/// and at least enough to reach the smallest target hedge ratio (rounded
/// up to hundredths of a share).
pub open spec fn spec_profit_lock_quantity(
    config: ConfidenceLadderConfig,
    state: TradeBuilderConfidenceLadderState,
    held_side: Seq<char>,
    opposite_side: Seq<char>,
    all_in_cost: i64,
) -> Option<(int, Seq<char>)> {
    match spec_quantity_for_target(config, state, held_side, opposite_side, all_in_cost, 0) {
        Some(q) => Some((q, "breakeven_lock"@)),
        None => {
            let ratio: int = if config.target_hedge_ratio_min < 0 { 0 } else if config.target_hedge_ratio_min > 1_000_000 { 1_000_000 } else { config.target_hedge_ratio_min as int };
            let floor_qty = ceil_hundredths(max0(spec_state_qty(state, held_side) * ratio - spec_state_qty(state, opposite_side) * 1_000_000), 1_000_000);
            match spec_quantity_for_target(config, state, held_side, opposite_side, all_in_cost, cap_i64(-(config.max_loss_per_market_usdc as int))) {
                Some(q) => Some((if q < floor_qty { floor_qty } else { q }, "max_loss_cap"@)),
                None => None,
            }
        },
    }
}

pub fn confidence_ladder_profit_lock_quantity(
    config: &ConfidenceLadderConfig,
    state: &TradeBuilderConfidenceLadderState,
    held_side: &str,
    opposite_side: &str,
    all_in_cost: i64,
) -> (r: Option<ConfidenceLadderLossCapPlan>)
    requires
        state.wf(),
    ensures
        match r {
            Some(plan) => spec_profit_lock_quantity(*config, *state, held_side@, opposite_side@, all_in_cost) == Some((plan.quantity as int, plan.reason@)),
            None => spec_profit_lock_quantity(*config, *state, held_side@, opposite_side@, all_in_cost) is None,
        },
{
    if let Some(quantity) = confidence_ladder_quantity_for_worst_case_target(config, state, held_side, opposite_side, all_in_cost, 0) {
        return Some(ConfidenceLadderLossCapPlan { quantity, reason: "breakeven_lock" });
    }
    let ratio: i128 = if config.target_hedge_ratio_min < 0 { 0 } else if config.target_hedge_ratio_min > 1_000_000 { 1_000_000 } else { config.target_hedge_ratio_min as i128 };
    let held = confidence_ladder_state_qty(state, held_side);
    let opposite = confidence_ladder_state_qty(state, opposite_side);
    proof {
        assert((held as int) * ratio <= 1_000_000_000_000_000_000 * 1_000_000) by (nonlinear_arith)
            requires 0 <= held <= 1_000_000_000_000_000_000, 0 <= ratio <= 1_000_000;
        assert((held as int) * ratio >= 0) by (nonlinear_arith)
            requires 0 <= held, 0 <= ratio;
    }
    let m: i128 = (held as i128) * ratio - (opposite as i128) * 1_000_000;
    let floor_qty: i128 = if m <= 0 { 0 } else { ((m + 10_000_000_000 - 1) / 10_000_000_000) * 10_000 };
    let cap_target: i64 = if config.max_loss_per_market_usdc == i64::MIN { i64::MAX } else { 0 - config.max_loss_per_market_usdc };
    let loss_cap = match confidence_ladder_loss_cap_quantity(config, state, held_side, opposite_side, all_in_cost, cap_target) {
        Some(plan) => plan,
        None => return None,
    };
    let quantity: i128 = if (loss_cap.quantity as i128) < floor_qty { floor_qty } else { loss_cap.quantity as i128 };
    proof {
        assert(floor_qty <= 1_000_000_000_000_000_000 + 10_000) by (nonlinear_arith)
            requires m <= 1_000_000_000_000_000_000 * 1_000_000,
                floor_qty == (if m <= 0 { 0 } else { ((m + 10_000_000_000 - 1) / 10_000_000_000) * 10_000 });
    }
    Some(ConfidenceLadderLossCapPlan { quantity: quantity as i64, reason: loss_cap.reason })
}

/// What a ladder decides to buy: a side, why, how many shares at what
/// price and cost all in, the model's probability, the edge and the edge
/// it needed, and how the order is placed.
pub struct ConfidenceLadderDecision {
    pub ladder_side: &'static str,
    pub intent: &'static str,
    pub quantity: i64,
    pub price: i64,
    pub all_in_cost: i64,
    pub model_probability: i64,
    pub edge: i64,
    pub min_edge: i64,
    pub post_only: bool,
    pub order_type: &'static str,
    pub execution_mode: &'static str,
    pub diagnostics: JsonValue,
}

/// The substance of a decision.
pub struct DecisionPlan {
    pub side: Seq<char>,
    pub intent: Seq<char>,
    pub quantity: int,
    pub price: int,
    pub all_in_cost: int,
    pub probability: int,
    pub edge: int,
    pub min_edge: int,
    pub takes: bool,
}

/// A decision carries out a plan: its side, intent and numbers, and a
/// taking market order or a resting post-only limit order as the plan
/// says.
pub open spec fn carries_out(d: ConfidenceLadderDecision, p: DecisionPlan) -> bool {
    &&& d.ladder_side@ == p.side
    &&& d.intent@ == p.intent
    &&& d.quantity == p.quantity
    &&& d.price == p.price
    &&& d.all_in_cost == p.all_in_cost
    &&& d.model_probability == p.probability
    &&& d.edge == p.edge
    &&& d.min_edge == p.min_edge
    &&& d.post_only == !p.takes
    &&& (p.takes ==> d.execution_mode@ == "market"@ && d.order_type@ == "FAK"@)
    &&& (!p.takes ==> d.execution_mode@ == "limit"@ && d.order_type@ == "GTC"@)
}

pub open spec fn opposite(side: Seq<char>) -> Seq<char> {
    if is_down(side) { "up"@ } else { "down"@ }
}

/// The hedge a ladder would buy on the side opposite the one it holds more
/// of, at that side's ask (at most the damage-control ceiling, with a
/// spread of at most the maximum): a strong profit lock up to the largest
/// hedge ratio when the held shares' average cost plus the opposite's cost
/// all in is at most the strong lock's pair cost; else a profit lock (break
/// even, or cap the loss) up to the profit lock's pair cost; else, from the
/// damage-control floor and with the worst outcome beyond the loss cap, a
/// buy that caps the loss. Only a positive quantity that keeps within the
/// budget and the loss cap. Its edge is the model's probability of a
/// reversal less the cost all in; the edge it needs is the reversal edge.
/// With the plan come its diagnostics.
pub open spec fn spec_hedge_plan(
    config: ConfidenceLadderConfig,
    state: TradeBuilderConfidenceLadderState,
    model: ConfidenceLadderModel,
    up: ConfidenceLadderQuote,
    down: ConfidenceLadderQuote,
) -> Option<(DecisionPlan, JsonView)> {
    match spec_held_side(state) {
        None => None,
        Some(held) => {
            let opp = opposite(held);
            match spec_state_avg_cost(state, held) {
                None => None,
                Some(held_avg) => {
                    let q = spec_side_quote(opp, up, down);
                    match (spec_quote_price(q), spec_spread(q)) {
                        (Some(price), Some(spread)) => if price > config.damage_control_price_max || spread > config.max_spread {
                            None
                        } else {
                            let all_in = spec_all_in_cost(price, config, true);
                            let pair_cost = held_avg + all_in;
                            let probability = spec_side_probability(model, opp);
                            let edge = cap_i64(probability - all_in);
                            let target: Option<(Seq<char>, int, Seq<char>)> = if pair_cost <= config.strong_profit_lock_pair_cost {
                                match spec_strong_profit_lock_quantity(config, state, held, opp, all_in) {
                                    Some(qty) => Some(("profit_lock_strong"@, qty, "full_lock"@)),
                                    None => None,
                                }
                            } else if pair_cost <= config.profit_lock_pair_cost_max {
                                match spec_profit_lock_quantity(config, state, held, opp, all_in) {
                                    Some((qty, reason)) => Some(("hedge_lock"@, qty, reason)),
                                    None => None,
                                }
                            } else if price >= config.damage_control_price_min && state.worst_case_pnl < -(config.max_loss_per_market_usdc as int) {
                                match spec_loss_cap_quantity(config, state, held, opp, all_in, cap_i64(-(config.max_loss_per_market_usdc as int))) {
                                    Some(qty) => Some(("damage_control_hedge"@, qty, "max_loss_cap"@)),
                                    None => None,
                                }
                            } else {
                                None
                            };
                            match target {
                                None => None,
                                Some((intent, qty, reason)) => if qty <= 0 || !spec_risk_allows_buy(config, state, opp, qty as i64, all_in) {
                                    None
                                } else {
                                    let plan = DecisionPlan {
                                        side: opp,
                                        intent,
                                        quantity: qty,
                                        price: price as int,
                                        all_in_cost: all_in as int,
                                        probability: probability as int,
                                        edge: edge as int,
                                        min_edge: config.hedge_min_reversal_edge as int,
                                        takes: spec_takes(config, edge),
                                    };
                                    Some((plan, JsonView::Object(
                                        hedge_diagnostics_head(state, plan, reason, held, spread as int)
                                            + hedge_diagnostics_tail(config, state, plan, held_avg as int),
                                    )))
                                },
                            }
                        },
                        _ => None,
                    }
                },
            }
        },
    }
}

/// A number of millionths as a JSON number.
pub open spec fn num(v: int) -> JsonView {
    wide_micros_json(v)
}

fn num_value(v: i128) -> (r: JsonValue)
    requires
        v > i128::MIN,
    ensures
        r@ == num(v as int),
{
    wide_micros_value(v)
}

/// The first half of a hedge's diagnostics: the decision, the sides and
/// their shares, why, the price and spread.
pub open spec fn hedge_diagnostics_head(state: TradeBuilderConfidenceLadderState, p: DecisionPlan, reason: Seq<char>, held: Seq<char>, spread: int) -> Seq<(Seq<char>, JsonView)> {
    seq![
        ("decision"@, JsonView::Str(p.intent)),
        ("held_side"@, JsonView::Str(held)),
        ("opposite_side"@, JsonView::Str(p.side)),
        ("held_qty"@, num(spec_state_qty(state, held) as int)),
        ("opposite_qty"@, num(spec_state_qty(state, p.side) as int)),
        ("hedge_reason"@, JsonView::Str(reason)),
        ("price"@, num(p.price)),
        ("spread"@, num(spread)),
    ]
}

/// The second half of a hedge's diagnostics: the costs, whether it is a
/// strong lock or damage control, the reversal probability and edge, and
/// the worst outcome's profit and the cost all told after the buy.
pub open spec fn hedge_diagnostics_tail(config: ConfidenceLadderConfig, state: TradeBuilderConfidenceLadderState, p: DecisionPlan, held_avg: int) -> Seq<(Seq<char>, JsonView)> {
    let pair_cost = held_avg + p.all_in_cost;
    seq![
        ("held_avg_cost"@, num(held_avg)),
        ("opposite_all_in"@, num(p.all_in_cost)),
        ("pair_cost"@, num(pair_cost)),
        ("strong_profit_lock"@, JsonView::Bool(pair_cost <= config.strong_profit_lock_pair_cost)),
        ("damage_control"@, JsonView::Bool(p.intent == "damage_control_hedge"@)),
        ("reversal_probability"@, num(p.probability)),
        ("edge"@, num(p.edge)),
        ("projected_worst_case_pnl"@, num(spec_worst_case_scaled(state, p.side, p.quantity as i64, p.all_in_cost as i64) / 1_000_000)),
        ("projected_total_cost"@, num(round_half_away(spec_total_cost_scaled(state, p.quantity as i64, p.all_in_cost as i64), 1_000_000))),
    ]
}

fn hedge_diagnostics_head_members(
    state: &TradeBuilderConfidenceLadderState,
    intent: &str,
    held: &str,
    opposite: &str,
    reason: &str,
    price: i64,
    spread: i64,
    Ghost(p): Ghost<DecisionPlan>,
) -> (m: Vec<(String, JsonValue)>)
    requires
        p.intent == intent@,
        p.side == opposite@,
        p.price == price,
    ensures
        view_members(m@) == hedge_diagnostics_head(*state, p, reason@, held@, spread as int),
{
    let v1 = num_value(confidence_ladder_state_qty(state, held) as i128);
    let v2 = num_value(confidence_ladder_state_qty(state, opposite) as i128);
    let v3 = num_value(price as i128);
    let v4 = num_value(spread as i128);
    let mut m: Vec<(String, JsonValue)> = Vec::new();
    push_member(&mut m, "decision", JsonValue::from_str(intent));
    push_member(&mut m, "held_side", JsonValue::from_str(held));
    push_member(&mut m, "opposite_side", JsonValue::from_str(opposite));
    push_member(&mut m, "held_qty", v1);
    push_member(&mut m, "opposite_qty", v2);
    push_member(&mut m, "hedge_reason", JsonValue::from_str(reason));
    push_member(&mut m, "price", v3);
    push_member(&mut m, "spread", v4);
    assert(view_members(m@) =~= hedge_diagnostics_head(*state, p, reason@, held@, spread as int));
    m
}

#[verifier::spinoff_prover]
#[verifier::rlimit(60)]
fn push_hedge_diagnostics_tail(
    m: &mut Vec<(String, JsonValue)>,
    config: &ConfidenceLadderConfig,
    state: &TradeBuilderConfidenceLadderState,
    intent: &str,
    opposite: &str,
    quantity: i64,
    all_in_cost: i64,
    probability: i64,
    edge: i64,
    held_avg: i64,
    Ghost(p): Ghost<DecisionPlan>,
)
    requires
        p.intent == intent@,
        p.side == opposite@,
        p.quantity == quantity,
        p.all_in_cost == all_in_cost,
        p.probability == probability,
        p.edge == edge,
    ensures
        view_members(final(m)@) == view_members(old(m)@) + hedge_diagnostics_tail(*config, *state, p, held_avg as int),
{
    let ghost before = view_members(m@);
    let pair_cost: i128 = (held_avg as i128) + (all_in_cost as i128);
    let v1 = num_value(held_avg as i128);
    let v2 = num_value(all_in_cost as i128);
    let v3 = num_value(pair_cost);
    let v4 = JsonValue::Bool(pair_cost <= config.strong_profit_lock_pair_cost as i128);
    let v5 = JsonValue::Bool(str_eq(intent, "damage_control_hedge"));
    let v6 = num_value(probability as i128);
    let v7 = num_value(edge as i128);
    let worst = confidence_ladder_projected_worst_case_pnl(state, opposite, quantity, all_in_cost);
    proof { lemma_scaled_bounds(*state, opposite@, quantity, all_in_cost); }
    let v8 = num_value(worst);
    let total = confidence_ladder_projected_total_cost(state, quantity, all_in_cost);
    proof { lemma_round_bound(spec_total_cost_scaled(*state, quantity, all_in_cost), 1_000_000); }
    let v9 = num_value(total);
    push_member(m, "held_avg_cost", v1);
    push_member(m, "opposite_all_in", v2);
    push_member(m, "pair_cost", v3);
    push_member(m, "strong_profit_lock", v4);
    push_member(m, "damage_control", v5);
    push_member(m, "reversal_probability", v6);
    push_member(m, "edge", v7);
    push_member(m, "projected_worst_case_pnl", v8);
    push_member(m, "projected_total_cost", v9);
    assert(view_members(m@) =~= before + hedge_diagnostics_tail(*config, *state, p, held_avg as int));
}

pub fn confidence_ladder_hedge_decision(
    config: &ConfidenceLadderConfig,
    state: &TradeBuilderConfidenceLadderState,
    model: &ConfidenceLadderModel,
    up: &ConfidenceLadderQuote,
    down: &ConfidenceLadderQuote,
) -> (r: Option<ConfidenceLadderDecision>)
    requires
        state.wf(),
    ensures
        match r {
            Some(d) => spec_hedge_plan(*config, *state, *model, *up, *down) matches Some((p, diag))
                && carries_out(d, p) && d.diagnostics@ == diag,
            None => spec_hedge_plan(*config, *state, *model, *up, *down) is None,
        },
{
    let held_side = match confidence_ladder_held_side(state) {
        Some(s) => s,
        None => return None,
    };
    let opposite_side = confidence_ladder_opposite_side(held_side);
    let held_avg_cost = match confidence_ladder_state_avg_cost(state, held_side) {
        Some(c) => c,
        None => return None,
    };
    let opposite_quote = confidence_ladder_side_quote(opposite_side, up, down);
    let price = match confidence_ladder_quote_price(opposite_quote) {
        Some(p) => p,
        None => return None,
    };
    let spread = match confidence_ladder_spread(opposite_quote) {
        Some(s) => s,
        None => return None,
    };
    if price > config.damage_control_price_max || spread > config.max_spread {
        return None;
    }
    let opposite_all_in = confidence_ladder_all_in_cost(price, config, true);
    let pair_cost: i128 = (held_avg_cost as i128) + (opposite_all_in as i128);
    let reversal_probability = confidence_ladder_side_probability(model, opposite_side);
    let e: i128 = (reversal_probability as i128) - (opposite_all_in as i128);
    let edge: i64 = if e > i64::MAX as i128 { i64::MAX } else if e < i64::MIN as i128 { i64::MIN } else { e as i64 };
    let loss_target: i64 = if config.max_loss_per_market_usdc == i64::MIN { i64::MAX } else { 0 - config.max_loss_per_market_usdc };
    let target: Option<(&'static str, i64, &'static str)> = if pair_cost <= config.strong_profit_lock_pair_cost as i128 {
        match confidence_ladder_strong_profit_lock_quantity(config, state, held_side, opposite_side, opposite_all_in) {
            Some(q) => Some(("profit_lock_strong", q, "full_lock")),
            None => None,
        }
    } else if pair_cost <= config.profit_lock_pair_cost_max as i128 {
        match confidence_ladder_profit_lock_quantity(config, state, held_side, opposite_side, opposite_all_in) {
            Some(plan) => Some(("hedge_lock", plan.quantity, plan.reason)),
            None => None,
        }
    } else if price >= config.damage_control_price_min && (state.worst_case_pnl as i128) < 0 - (config.max_loss_per_market_usdc as i128) {
        match confidence_ladder_loss_cap_quantity(config, state, held_side, opposite_side, opposite_all_in, loss_target) {
            Some(plan) => Some(("damage_control_hedge", plan.quantity, plan.reason)),
            None => None,
        }
    } else {
        None
    };
    let (intent, quantity, hedge_reason) = match target {
        Some(t) => t,
        None => return None,
    };
    if quantity <= 0 {
        return None;
    }
    if !confidence_ladder_risk_allows_buy(config, state, opposite_side, quantity, opposite_all_in) {
        return None;
    }
    let (execution_mode, order_type, post_only) = confidence_ladder_execution_shape(config, edge);
    let ghost plan = DecisionPlan {
        side: opposite_side@,
        intent: intent@,
        quantity: quantity as int,
        price: price as int,
        all_in_cost: opposite_all_in as int,
        probability: reversal_probability as int,
        edge: edge as int,
        min_edge: config.hedge_min_reversal_edge as int,
        takes: spec_takes(*config, edge),
    };
    let mut m = hedge_diagnostics_head_members(state, intent, held_side, opposite_side, hedge_reason, price, spread, Ghost(plan));
    push_hedge_diagnostics_tail(&mut m, config, state, intent, opposite_side, quantity, opposite_all_in,
        reversal_probability, edge, held_avg_cost, Ghost(plan));
    let diagnostics = object_from(m);
    Some(ConfidenceLadderDecision {
        ladder_side: opposite_side,
        intent,
        quantity,
        price,
        all_in_cost: opposite_all_in,
        model_probability: reversal_probability,
        edge,
        min_edge: config.hedge_min_reversal_edge,
        post_only,
        order_type,
        execution_mode,
        diagnostics,
    })
}

/// The diagnostics of a dominant buy.
pub open spec fn dominant_diagnostics(state: TradeBuilderConfidenceLadderState, p: DecisionPlan, spread: int) -> Seq<(Seq<char>, JsonView)> {
    seq![
        ("decision"@, JsonView::Str(p.intent)),
        ("side"@, JsonView::Str(p.side)),
        ("price"@, num(p.price)),
        ("spread"@, num(spread)),
        ("probability"@, num(p.probability)),
        ("all_in_cost"@, num(p.all_in_cost)),
        ("edge"@, num(p.edge)),
        ("min_edge"@, num(p.min_edge)),
        ("projected_worst_case_pnl"@, num(spec_worst_case_scaled(state, p.side, p.quantity as i64, p.all_in_cost as i64) / 1_000_000)),
        ("projected_total_cost"@, num(round_half_away(spec_total_cost_scaled(state, p.quantity as i64, p.all_in_cost as i64), 1_000_000))),
    ]
}

pub open spec fn opt_text(s: Option<&'static str>) -> Option<Seq<char>> {
    match s {
        Some(x) => Some(x@),
        None => None,
    }
}

/// The buy a ladder would make on the dominant side: only within the entry
/// window, with time left for it, in a market that is not too choppy and
/// while it may still switch sides; at that side's ask with a spread of at
/// most the maximum. A first buy probes with the base shares within the
/// probe's price range (needing an edge of 2%); later buys add the shares
/// of the price's band (needing the band's edge). The edge (probability
/// less cost all in) may fall short by a millionth; the buy must keep
/// within the budget and the loss cap. With the plan come its diagnostics.
pub open spec fn spec_dominant_plan(
    config: ConfidenceLadderConfig,
    state: TradeBuilderConfidenceLadderState,
    model: ConfidenceLadderModel,
    up: ConfidenceLadderQuote,
    down: ConfidenceLadderQuote,
    remaining_sec: Option<i64>,
) -> Option<(DecisionPlan, JsonView)> {
    if !spec_in_entry_window(config, remaining_sec) || spec_late_for_dominant_buy(config, remaining_sec)
        || model.chop > config.chop_probability_max || spec_side_flip_disabled(config, state) {
        None
    } else {
        match opt_text(model.dominant_side) {
            None => None,
            Some(side) => {
                let q = spec_side_quote(side, up, down);
                match (spec_quote_price(q), spec_spread(q)) {
                    (Some(price), Some(spread)) => if spread > config.max_spread {
                        None
                    } else {
                        let probability = spec_side_probability(model, side);
                        let all_in = spec_all_in_cost(price, config, true);
                        let edge = cap_i64(probability - all_in);
                        let sized: Option<(Seq<char>, int, int)> = if state.buy_count <= 0 {
                            if price < config.probe_price_min || price > config.probe_price_max {
                                None
                            } else {
                                Some(("probe"@, config.base_probe_shares as int, 20_000int))
                            }
                        } else {
                            match spec_band_for_price(config, price) {
                                Some(band) => Some(("ladder_add"@, band.add_shares as int, band.min_model_edge as int)),
                                None => None,
                            }
                        };
                        match sized {
                            None => None,
                            Some((intent, quantity, min_edge)) => if edge + 1 < min_edge
                                || !spec_risk_allows_buy(config, state, side, quantity as i64, all_in) {
                                None
                            } else {
                                let plan = DecisionPlan {
                                    side,
                                    intent,
                                    quantity,
                                    price: price as int,
                                    all_in_cost: all_in as int,
                                    probability: probability as int,
                                    edge: edge as int,
                                    min_edge,
                                    takes: spec_takes(config, edge),
                                };
                                Some((plan, JsonView::Object(dominant_diagnostics(state, plan, spread as int))))
                            },
                        }
                    },
                    _ => None,
                }
            },
        }
    }
}

#[verifier::spinoff_prover]
#[verifier::rlimit(60)]
fn dominant_diagnostics_value(
    state: &TradeBuilderConfidenceLadderState,
    intent: &str,
    side: &str,
    quantity: i64,
    price: i64,
    spread: i64,
    probability: i64,
    all_in_cost: i64,
    edge: i64,
    min_edge: i64,
    Ghost(p): Ghost<DecisionPlan>,
) -> (r: JsonValue)
    requires
        p.intent == intent@,
        p.side == side@,
        p.quantity == quantity,
        p.price == price,
        p.probability == probability,
        p.all_in_cost == all_in_cost,
        p.edge == edge,
        p.min_edge == min_edge,
    ensures
        r@ == JsonView::Object(dominant_diagnostics(*state, p, spread as int)),
{
    let worst = confidence_ladder_projected_worst_case_pnl(state, side, quantity, all_in_cost);
    proof { lemma_scaled_bounds(*state, side@, quantity, all_in_cost); }
    let total = confidence_ladder_projected_total_cost(state, quantity, all_in_cost);
    proof { lemma_round_bound(spec_total_cost_scaled(*state, quantity, all_in_cost), 1_000_000); }
    let v1 = num_value(price as i128);
    let v2 = num_value(spread as i128);
    let v3 = num_value(probability as i128);
    let v4 = num_value(all_in_cost as i128);
    let v5 = num_value(edge as i128);
    let v6 = num_value(min_edge as i128);
    let v7 = num_value(worst);
    let v8 = num_value(total);
    let mut m: Vec<(String, JsonValue)> = Vec::new();
    push_member(&mut m, "decision", JsonValue::from_str(intent));
    push_member(&mut m, "side", JsonValue::from_str(side));
    push_member(&mut m, "price", v1);
    push_member(&mut m, "spread", v2);
    push_member(&mut m, "probability", v3);
    push_member(&mut m, "all_in_cost", v4);
    push_member(&mut m, "edge", v5);
    push_member(&mut m, "min_edge", v6);
    push_member(&mut m, "projected_worst_case_pnl", v7);
    push_member(&mut m, "projected_total_cost", v8);
    assert(view_members(m@) =~= dominant_diagnostics(*state, p, spread as int));
    object_from(m)
}

pub fn confidence_ladder_dominant_buy_decision(
    config: &ConfidenceLadderConfig,
    state: &TradeBuilderConfidenceLadderState,
    model: &ConfidenceLadderModel,
    up: &ConfidenceLadderQuote,
    down: &ConfidenceLadderQuote,
    remaining_sec: Option<i64>,
) -> (r: Option<ConfidenceLadderDecision>)
    ensures
        match r {
            Some(d) => spec_dominant_plan(*config, *state, *model, *up, *down, remaining_sec) matches Some((p, diag))
                && carries_out(d, p) && d.diagnostics@ == diag,
            None => spec_dominant_plan(*config, *state, *model, *up, *down, remaining_sec) is None,
        },
{
    if !confidence_ladder_in_entry_window(config, remaining_sec)
        || confidence_ladder_is_late_for_dominant_buy(config, remaining_sec)
        || model.chop > config.chop_probability_max
        || confidence_ladder_side_flip_disabled(config, state)
    {
        return None;
    }
    let dominant_side = match model.dominant_side {
        Some(s) => s,
        None => return None,
    };
    let quote = confidence_ladder_side_quote(dominant_side, up, down);
    let price = match confidence_ladder_quote_price(quote) {
        Some(p) => p,
        None => return None,
    };
    let spread = match confidence_ladder_spread(quote) {
        Some(s) => s,
        None => return None,
    };
    if spread > config.max_spread {
        return None;
    }
    let probability = confidence_ladder_side_probability(model, dominant_side);
    let all_in = confidence_ladder_all_in_cost(price, config, true);
    let e: i128 = (probability as i128) - (all_in as i128);
    let edge: i64 = if e > i64::MAX as i128 { i64::MAX } else if e < i64::MIN as i128 { i64::MIN } else { e as i64 };
    let (intent, quantity, min_edge): (&'static str, i64, i64) = if state.buy_count <= 0 {
        if price < config.probe_price_min || price > config.probe_price_max {
            return None;
        }
        ("probe", config.base_probe_shares, 20_000)
    } else {
        match confidence_ladder_band_for_price(config, price) {
            Some(band) => ("ladder_add", band.add_shares, band.min_model_edge),
            None => return None,
        }
    };
    if (edge as i128) + 1 < min_edge as i128 {
        return None;
    }
    if !confidence_ladder_risk_allows_buy(config, state, dominant_side, quantity, all_in) {
        return None;
    }
    let (execution_mode, order_type, post_only) = confidence_ladder_execution_shape(config, edge);
    let ghost plan = DecisionPlan {
        side: dominant_side@,
        intent: intent@,
        quantity: quantity as int,
        price: price as int,
        all_in_cost: all_in as int,
        probability: probability as int,
        edge: edge as int,
        min_edge: min_edge as int,
        takes: spec_takes(*config, edge),
    };
    let diagnostics = dominant_diagnostics_value(state, intent, dominant_side, quantity, price, spread, probability,
        all_in, edge, min_edge, Ghost(plan));
    Some(ConfidenceLadderDecision {
        ladder_side: dominant_side,
        intent,
        quantity,
        price,
        all_in_cost: all_in,
        model_probability: probability,
        edge,
        min_edge,
        post_only,
        order_type,
        execution_mode,
        diagnostics,
    })
}

/// Whether the ladder stops adding to the dominant side: no side
/// dominates, the market is too choppy, it may not switch sides again, or
/// too little time is left.
pub open spec fn spec_stop_adding(config: ConfidenceLadderConfig, state: TradeBuilderConfidenceLadderState, model: ConfidenceLadderModel, remaining_sec: Option<i64>) -> bool {
    model.dominant_side is None || model.chop > config.chop_probability_max
        || spec_side_flip_disabled(config, state) || spec_late_for_dominant_buy(config, remaining_sec)
}

/// The step of a confidence ladder: whether it stops adding, and what it
/// buys: the hedge when it stops adding; else the dominant buy, or the
/// hedge where there is none.
pub fn confidence_ladder_select_decision(
    config: &ConfidenceLadderConfig,
    state: &TradeBuilderConfidenceLadderState,
    model: &ConfidenceLadderModel,
    up: &ConfidenceLadderQuote,
    down: &ConfidenceLadderQuote,
    remaining_sec: Option<i64>,
) -> (r: (Option<ConfidenceLadderDecision>, bool))
    requires
        state.wf(),
    ensures
        r.1 == spec_stop_adding(*config, *state, *model, remaining_sec),
        ({
            let hedge = spec_hedge_plan(*config, *state, *model, *up, *down);
            let dominant = spec_dominant_plan(*config, *state, *model, *up, *down, remaining_sec);
            let chosen = if r.1 { hedge } else if dominant is Some { dominant } else { hedge };
            match r.0 {
                Some(d) => chosen matches Some((p, diag)) && carries_out(d, p) && d.diagnostics@ == diag,
                None => chosen is None,
            }
        }),
{
    let hedge = confidence_ladder_hedge_decision(config, state, model, up, down);
    let stop_adding = model.dominant_side.is_none()
        || model.chop > config.chop_probability_max
        || confidence_ladder_side_flip_disabled(config, state)
        || confidence_ladder_is_late_for_dominant_buy(config, remaining_sec);
    let decision = if stop_adding {
        hedge
    } else {
        match confidence_ladder_dominant_buy_decision(config, state, model, up, down, remaining_sec) {
            Some(d) => Some(d),
            None => hedge,
        }
    };
    (decision, stop_adding)
}

/// Why a confidence ladder's settings are refused.
#[derive(Debug, Clone, Copy, PartialEq, Eq, Structural)]
pub enum ConfidenceLadderConfigError {
    BaseProbeShares,
    MaxLossPerMarket,
    MaxTotalCostPerMarket,
    EntryWindow,
    ProbeRange,
    MaxSpread,
    DamageControlPrices,
}

/// The text of each refusal, as the operator reads it.
pub open spec fn spec_config_error_message(e: ConfidenceLadderConfigError) -> Seq<char> {
    match e {
        ConfidenceLadderConfigError::BaseProbeShares => "confidenceLadder.baseProbeShares must be > 0"@,
        ConfidenceLadderConfigError::MaxLossPerMarket => "confidenceLadder.maxLossPerMarketUsdc must be > 0"@,
        ConfidenceLadderConfigError::MaxTotalCostPerMarket => "confidenceLadder.maxTotalCostPerMarketUsdc must be > 0"@,
        ConfidenceLadderConfigError::EntryWindow => "confidenceLadder entry window must have start >= 0 and start < end"@,
        ConfidenceLadderConfigError::ProbeRange => "confidenceLadder probe range must have min > 0 and min < max"@,
        ConfidenceLadderConfigError::MaxSpread => "confidenceLadder.maxSpread must be in (0, 1)"@,
        ConfidenceLadderConfigError::DamageControlPrices => "confidenceLadder.hedge damage control prices must satisfy 0 < min < max < 1"@,
    }
}

impl ConfidenceLadderConfigError {
    /// The error as the operator reads it (see `spec_config_error_message`).
    pub fn message(&self) -> (r: &'static str)
        ensures
            r@ == spec_config_error_message(*self),
    {
        match self {
            ConfidenceLadderConfigError::BaseProbeShares => "confidenceLadder.baseProbeShares must be > 0",
            ConfidenceLadderConfigError::MaxLossPerMarket => "confidenceLadder.maxLossPerMarketUsdc must be > 0",
            ConfidenceLadderConfigError::MaxTotalCostPerMarket => "confidenceLadder.maxTotalCostPerMarketUsdc must be > 0",
            ConfidenceLadderConfigError::EntryWindow => "confidenceLadder entry window must have start >= 0 and start < end",
            ConfidenceLadderConfigError::ProbeRange => "confidenceLadder probe range must have min > 0 and min < max",
            ConfidenceLadderConfigError::MaxSpread => "confidenceLadder.maxSpread must be in (0, 1)",
            ConfidenceLadderConfigError::DamageControlPrices => "confidenceLadder.hedge damage control prices must satisfy 0 < min < max < 1",
        }
    }
}

/// A setting of the node's `confidenceLadder` section (else of the node
/// itself), as a number in millionths.
pub open spec fn cl_micros(config: JsonView, key: Seq<char>) -> Option<i64> {
    match spec_section_value(config, "confidenceLadder"@, key) {
        Some(v) => spec_json_micros(v),
        None => None,
    }
}

/// A whole-number setting of the node's `confidenceLadder` section (else
/// of the node itself).
pub open spec fn cl_int(config: JsonView, key: Seq<char>) -> Option<i64> {
    opt_as_i64(spec_section_value(config, "confidenceLadder"@, key))
}

/// A setting within a group of the `confidenceLadder` section.
pub open spec fn cl_group(config: JsonView, group: Seq<char>, key: Seq<char>) -> Option<JsonView> {
    opt_get(opt_get(config.get("confidenceLadder"@), group), key)
}

pub open spec fn cl_group_micros(config: JsonView, group: Seq<char>, key: Seq<char>) -> Option<i64> {
    match cl_group(config, group, key) {
        Some(v) => spec_json_micros(v),
        None => None,
    }
}

pub open spec fn or_i64(a: Option<i64>, b: Option<i64>) -> Option<i64> {
    match a {
        Some(x) => Some(x),
        None => b,
    }
}

pub open spec fn or_default(a: Option<i64>, d: i64) -> i64 {
    match a {
        Some(x) => x,
        None => d,
    }
}

/// A probe price given in cents, in millionths (rounded down).
pub open spec fn cents_to_micros(v: Option<i64>) -> Option<i64> {
    match v {
        Some(c) => Some((c / 100) as i64),
        None => None,
    }
}

/// The settings a node's configuration gives a ladder, each from its key
/// in the `confidenceLadder` section or the node, some also from a group of
/// the section (the entry window, the probe range in cents, the hedge, the
/// stop), else the default; the bands are the default ones.
pub open spec fn parsed_from(c: ConfidenceLadderConfig, doc: JsonView) -> bool {
    &&& c.base_probe_shares == or_default(cl_micros(doc, "baseProbeShares"@), 2_000_000)
    &&& c.max_loss_per_market_usdc == or_default(cl_micros(doc, "maxLossPerMarketUsdc"@), 3_000_000)
    &&& c.max_total_cost_per_market_usdc == or_default(cl_micros(doc, "maxTotalCostPerMarketUsdc"@), 25_000_000)
    &&& c.entry_window_start_sec == or_default(or_i64(cl_int(doc, "entryWindowStartSec"@), opt_as_i64(cl_group(doc, "entryWindow"@, "startSec"@))), 3)
    &&& c.entry_window_end_sec == or_default(or_i64(cl_int(doc, "entryWindowEndSec"@), opt_as_i64(cl_group(doc, "entryWindow"@, "endSec"@))), 285)
    &&& c.no_new_dominant_buy_last_sec == or_default(cl_int(doc, "noNewDominantBuyLastSec"@), 15)
    &&& c.probe_price_min == or_default(or_i64(cl_micros(doc, "probePriceMin"@), cents_to_micros(cl_group_micros(doc, "probe"@, "min"@))), 450_000)
    &&& c.probe_price_max == or_default(or_i64(cl_micros(doc, "probePriceMax"@), cents_to_micros(cl_group_micros(doc, "probe"@, "max"@))), 550_000)
    &&& c.max_spread == or_default(cl_micros(doc, "maxSpread"@), 30_000)
    &&& c.dominance_gap == or_default(cl_micros(doc, "dominanceGap"@), 120_000)
    &&& c.chop_probability_max == or_default(cl_micros(doc, "chopProbabilityMax"@), 450_000)
    &&& c.hard_no_chase_above == or_default(cl_micros(doc, "hardNoChaseAbove"@), 930_000)
    &&& c.taker_fee_rate == or_default(cl_micros(doc, "takerFeeRate"@), 70_000)
    &&& c.slippage_buffer == or_default(cl_micros(doc, "slippageBuffer"@), 5_000)
    &&& c.prefer_post_only == match spec_confidence_ladder_flag(spec_section_value(doc, "confidenceLadder"@, "preferPostOnly"@)) { Some(b) => b, None => true }
    &&& c.taker_allowed_only_if_edge_above == or_default(cl_micros(doc, "takerAllowedOnlyIfEdgeAbove"@), 50_000)
    &&& c.opposite_price_max == or_default(or_i64(cl_micros(doc, "oppositePriceMax"@), cl_group_micros(doc, "hedge"@, "oppositePriceMax"@)), 200_000)
    &&& c.hedge_min_reversal_edge == or_default(or_i64(cl_micros(doc, "minReversalEdge"@), cl_group_micros(doc, "hedge"@, "minReversalEdge"@)), 30_000)
    &&& c.profit_lock_pair_cost_max == or_default(or_i64(cl_micros(doc, "profitLockPairCostMax"@), cl_group_micros(doc, "hedge"@, "profitLockPairCostMax"@)), 970_000)
    &&& c.strong_profit_lock_pair_cost == or_default(or_i64(cl_micros(doc, "strongProfitLockPairCost"@), cl_group_micros(doc, "hedge"@, "strongProfitLockPairCost"@)), 940_000)
    &&& c.damage_control_price_min == or_default(or_i64(cl_micros(doc, "damageControlPriceMin"@), cl_group_micros(doc, "hedge"@, "damageControlPriceMin"@)), 350_000)
    &&& c.damage_control_price_max == or_default(or_i64(cl_micros(doc, "damageControlPriceMax"@), cl_group_micros(doc, "hedge"@, "damageControlPriceMax"@)), 600_000)
    &&& c.target_hedge_ratio_min == or_default(or_i64(cl_micros(doc, "targetHedgeRatioMin"@), cl_group_micros(doc, "hedge"@, "targetHedgeRatioMin"@)), 350_000)
    &&& c.target_hedge_ratio_max == or_default(or_i64(cl_micros(doc, "targetHedgeRatioMax"@), cl_group_micros(doc, "hedge"@, "targetHedgeRatioMax"@)), 1_000_000)
    &&& c.max_direction_flips == or_default(or_i64(cl_int(doc, "maxDirectionFlips"@), opt_as_i64(cl_group(doc, "stop"@, "maxDirectionFlips"@))), 2)
    &&& c.ladder@ == default_bands()
}

/// The first check that settings fail, in this order: positive base probe
/// shares, loss cap and cost budget; an entry window that starts at zero or
/// later and before it ends; a probe range above zero and not empty; a
/// spread cap strictly between 0 and 1; damage-control prices with
/// `0 < min < max < 1`.
pub open spec fn spec_config_check(c: ConfidenceLadderConfig) -> Option<ConfidenceLadderConfigError> {
    if c.base_probe_shares <= 0 {
        Some(ConfidenceLadderConfigError::BaseProbeShares)
    } else if c.max_loss_per_market_usdc <= 0 {
        Some(ConfidenceLadderConfigError::MaxLossPerMarket)
    } else if c.max_total_cost_per_market_usdc <= 0 {
        Some(ConfidenceLadderConfigError::MaxTotalCostPerMarket)
    } else if !(c.entry_window_start_sec >= 0 && c.entry_window_start_sec < c.entry_window_end_sec) {
        Some(ConfidenceLadderConfigError::EntryWindow)
    } else if !(c.probe_price_min > 0 && c.probe_price_min < c.probe_price_max) {
        Some(ConfidenceLadderConfigError::ProbeRange)
    } else if !(c.max_spread > 0 && c.max_spread < 1_000_000) {
        Some(ConfidenceLadderConfigError::MaxSpread)
    } else if !(c.damage_control_price_min > 0 && c.damage_control_price_min < c.damage_control_price_max
        && c.damage_control_price_max < 1_000_000) {
        Some(ConfidenceLadderConfigError::DamageControlPrices)
    } else {
        None
    }
}

/// A setting of the node in millionths (see `cl_micros`).
pub fn confidence_ladder_config_f64(node: &TradeFlowNode, key: &str) -> (r: Option<i64>)
    ensures
        r == cl_micros(node.config@, key@),
{
    match confidence_ladder_config_value(node, key) {
        Some(v) => json_micros(v),
        None => None,
    }
}

fn cl_group_value<'a>(node: &'a TradeFlowNode, group: &str, key: &str) -> (r: Option<&'a JsonValue>)
    ensures
        opt_view(r) == cl_group(node.config@, group@, key@),
{
    opt_member(opt_member(confidence_ladder_raw_config(node), group), key)
}

fn cl_group_micros_of(node: &TradeFlowNode, group: &str, key: &str) -> (r: Option<i64>)
    ensures
        r == cl_group_micros(node.config@, group@, key@),
{
    match cl_group_value(node, group, key) {
        Some(v) => json_micros(v),
        None => None,
    }
}

fn cl_group_int_of(node: &TradeFlowNode, group: &str, key: &str) -> (r: Option<i64>)
    ensures
        r == opt_as_i64(cl_group(node.config@, group@, key@)),
{
    match cl_group_value(node, group, key) {
        Some(v) => v.as_i64(),
        None => None,
    }
}

fn first_or(a: Option<i64>, b: Option<i64>, d: i64) -> (r: i64)
    ensures
        r == or_default(or_i64(a, b), d),
{
    match a {
        Some(x) => x,
        None => match b {
            Some(y) => y,
            None => d,
        },
    }
}

fn cents_micros(v: Option<i64>) -> (r: Option<i64>)
    ensures
        r == cents_to_micros(v),
{
    match v {
        Some(c) => Some(if c >= 0 { c / 100 } else { 0 - ((0 - (c as i128) + 99) / 100) as i64 }),
        None => None,
    }
}

fn config_check(c: &ConfidenceLadderConfig) -> (r: Option<ConfidenceLadderConfigError>)
    ensures
        r == spec_config_check(*c),
{
    if c.base_probe_shares <= 0 {
        Some(ConfidenceLadderConfigError::BaseProbeShares)
    } else if c.max_loss_per_market_usdc <= 0 {
        Some(ConfidenceLadderConfigError::MaxLossPerMarket)
    } else if c.max_total_cost_per_market_usdc <= 0 {
        Some(ConfidenceLadderConfigError::MaxTotalCostPerMarket)
    } else if !(c.entry_window_start_sec >= 0 && c.entry_window_start_sec < c.entry_window_end_sec) {
        Some(ConfidenceLadderConfigError::EntryWindow)
    } else if !(c.probe_price_min > 0 && c.probe_price_min < c.probe_price_max) {
        Some(ConfidenceLadderConfigError::ProbeRange)
    } else if !(c.max_spread > 0 && c.max_spread < 1_000_000) {
        Some(ConfidenceLadderConfigError::MaxSpread)
    } else if !(c.damage_control_price_min > 0 && c.damage_control_price_min < c.damage_control_price_max
        && c.damage_control_price_max < 1_000_000) {
        Some(ConfidenceLadderConfigError::DamageControlPrices)
    } else {
        None
    }
}

/// The settings of a confidence-ladder node (see `parsed_from`), refused
/// with the first check they fail (see `spec_config_check`). Settings are
/// read to millionths, rounded down: a positive setting below one millionth
/// reads as zero, and where a setting must be positive it is refused.
#[verifier::rlimit(60)]
pub fn parse_confidence_ladder_config(node: &TradeFlowNode) -> (r: Result<ConfidenceLadderConfig, ConfidenceLadderConfigError>)
    ensures
        match r {
            Ok(c) => parsed_from(c, node.config@) && spec_config_check(c) is None,
            Err(e) => exists|c: ConfidenceLadderConfig| parsed_from(c, node.config@) && spec_config_check(c) == Some(e),
        },
{
    let mut config = ConfidenceLadderConfig::default();
    config.base_probe_shares = first_or(confidence_ladder_config_f64(node, "baseProbeShares"), None, config.base_probe_shares);
    config.max_loss_per_market_usdc = first_or(confidence_ladder_config_f64(node, "maxLossPerMarketUsdc"), None, config.max_loss_per_market_usdc);
    config.max_total_cost_per_market_usdc = first_or(confidence_ladder_config_f64(node, "maxTotalCostPerMarketUsdc"), None, config.max_total_cost_per_market_usdc);
    config.entry_window_start_sec = first_or(confidence_ladder_config_i64(node, "entryWindowStartSec"),
        cl_group_int_of(node, "entryWindow", "startSec"), config.entry_window_start_sec);
    config.entry_window_end_sec = first_or(confidence_ladder_config_i64(node, "entryWindowEndSec"),
        cl_group_int_of(node, "entryWindow", "endSec"), config.entry_window_end_sec);
    config.no_new_dominant_buy_last_sec = first_or(confidence_ladder_config_i64(node, "noNewDominantBuyLastSec"), None,
        config.no_new_dominant_buy_last_sec);
    config.probe_price_min = first_or(confidence_ladder_config_f64(node, "probePriceMin"),
        cents_micros(cl_group_micros_of(node, "probe", "min")), config.probe_price_min);
    config.probe_price_max = first_or(confidence_ladder_config_f64(node, "probePriceMax"),
        cents_micros(cl_group_micros_of(node, "probe", "max")), config.probe_price_max);
    config.max_spread = first_or(confidence_ladder_config_f64(node, "maxSpread"), None, config.max_spread);
    config.dominance_gap = first_or(confidence_ladder_config_f64(node, "dominanceGap"), None, config.dominance_gap);
    config.chop_probability_max = first_or(confidence_ladder_config_f64(node, "chopProbabilityMax"), None, config.chop_probability_max);
    config.hard_no_chase_above = first_or(confidence_ladder_config_f64(node, "hardNoChaseAbove"), None, config.hard_no_chase_above);
    config.taker_fee_rate = first_or(confidence_ladder_config_f64(node, "takerFeeRate"), None, config.taker_fee_rate);
    config.slippage_buffer = first_or(confidence_ladder_config_f64(node, "slippageBuffer"), None, config.slippage_buffer);
    config.prefer_post_only = match confidence_ladder_config_bool(node, "preferPostOnly") {
        Some(b) => b,
        None => config.prefer_post_only,
    };
    config.taker_allowed_only_if_edge_above = first_or(confidence_ladder_config_f64(node, "takerAllowedOnlyIfEdgeAbove"), None,
        config.taker_allowed_only_if_edge_above);
    config.opposite_price_max = first_or(confidence_ladder_config_f64(node, "oppositePriceMax"),
        cl_group_micros_of(node, "hedge", "oppositePriceMax"), config.opposite_price_max);
    config.hedge_min_reversal_edge = first_or(confidence_ladder_config_f64(node, "minReversalEdge"),
        cl_group_micros_of(node, "hedge", "minReversalEdge"), config.hedge_min_reversal_edge);
    config.profit_lock_pair_cost_max = first_or(confidence_ladder_config_f64(node, "profitLockPairCostMax"),
        cl_group_micros_of(node, "hedge", "profitLockPairCostMax"), config.profit_lock_pair_cost_max);
    config.strong_profit_lock_pair_cost = first_or(confidence_ladder_config_f64(node, "strongProfitLockPairCost"),
        cl_group_micros_of(node, "hedge", "strongProfitLockPairCost"), config.strong_profit_lock_pair_cost);
    config.damage_control_price_min = first_or(confidence_ladder_config_f64(node, "damageControlPriceMin"),
        cl_group_micros_of(node, "hedge", "damageControlPriceMin"), config.damage_control_price_min);
    config.damage_control_price_max = first_or(confidence_ladder_config_f64(node, "damageControlPriceMax"),
        cl_group_micros_of(node, "hedge", "damageControlPriceMax"), config.damage_control_price_max);
    config.target_hedge_ratio_min = first_or(confidence_ladder_config_f64(node, "targetHedgeRatioMin"),
        cl_group_micros_of(node, "hedge", "targetHedgeRatioMin"), config.target_hedge_ratio_min);
    config.target_hedge_ratio_max = first_or(confidence_ladder_config_f64(node, "targetHedgeRatioMax"),
        cl_group_micros_of(node, "hedge", "targetHedgeRatioMax"), config.target_hedge_ratio_max);
    config.max_direction_flips = first_or(confidence_ladder_config_i64(node, "maxDirectionFlips"),
        cl_group_int_of(node, "stop", "maxDirectionFlips"), config.max_direction_flips);
    match config_check(&config) {
        Some(e) => Err(e),
        None => Ok(config),
    }
}

pub open spec fn clamp_int(x: int, lo: int, hi: int) -> int {
    if x < lo { lo } else if x > hi { hi } else { x }
}

/// How much a side's book leans to its bids: bid size less ask size over
/// their sum (sizes below none count as none), in millionths rounded half
/// away from zero; none for an empty book.
pub open spec fn spec_book_pressure(q: ConfidenceLadderQuote) -> int {
    let bid: int = match q.best_bid_size { Some(v) => max0(v as int), None => 0 };
    let ask: int = match q.best_ask_size { Some(v) => max0(v as int), None => 0 };
    if bid + ask <= 0 { 0 } else { round_half_away((bid - ask) * 1_000_000, bid + ask) }
}

pub fn confidence_ladder_book_pressure(quote: &ConfidenceLadderQuote) -> (r: i64)
    ensures
        r == spec_book_pressure(*quote),
        -1_000_000 <= r <= 1_000_000,
{
    let bid: i128 = match quote.best_bid_size { Some(v) => if v < 0 { 0 } else { v as i128 }, None => 0 };
    let ask: i128 = match quote.best_ask_size { Some(v) => if v < 0 { 0 } else { v as i128 }, None => 0 };
    let total = bid + ask;
    if total <= 0 {
        return 0;
    }
    let n: i128 = (bid - ask) * 1_000_000;
    let r = round_div(n, total);
    proof {
        let ni = n as int;
        let ti = total as int;
        if ti == 1 {
            if ni >= 0 {
                assert((2 * ni + 1) / 2 == ni) by (nonlinear_arith) requires ni >= 0;
            } else {
                assert((2 * (-ni) + 1) / 2 == -ni) by (nonlinear_arith) requires ni < 0;
            }
        } else {
        lemma_round_bound(ni, ti);
        if ni >= 0 {
            assert(ni / ti <= 1_000_000) by (nonlinear_arith) requires 0 <= ni <= ti * 1_000_000, ti > 0;
            if ni / ti == 1_000_000 {
                assert(ni == ti * 1_000_000) by (nonlinear_arith) requires ni / ti == 1_000_000, ni <= ti * 1_000_000, ti > 0;
                assert((2 * ni + ti) / (2 * ti) == 1_000_000) by (nonlinear_arith) requires ni == ti * 1_000_000, ti > 0;
            }
        } else {
            let m = -ni;
            assert(m / ti <= 1_000_000) by (nonlinear_arith) requires 0 < m <= ti * 1_000_000, ti > 0;
            if m / ti == 1_000_000 {
                assert(m == ti * 1_000_000) by (nonlinear_arith) requires m / ti == 1_000_000, m <= ti * 1_000_000, ti > 0;
                assert((2 * m + ti) / (2 * ti) == 1_000_000) by (nonlinear_arith) requires m == ti * 1_000_000, ti > 0;
            }
        }
        }
    }
    r as i64
}

pub open spec fn signal_keys() -> Seq<Seq<char>> {
    seq!["btcCycleOpenGap"@, "btc_cycle_open_gap"@, "btcImpulse"@, "btc_impulse"@, "cexImpulse"@, "cex_impulse"@]
}

/// An outside signal for the model: the first of `keys` that the step
/// input holds as a number, else the first the run's `flowContext` holds,
/// else none; within `[-1, 1]`.
pub open spec fn spec_signal(input: Option<JsonView>, context: JsonView, keys: Seq<Seq<char>>) -> int {
    let direct = match input {
        Some(doc) => first_key_micros(doc, keys),
        None => None,
    };
    let from_context = match flow_context_view(context) {
        Some(fc) => first_key_micros(fc, keys),
        None => None,
    };
    clamp_int(or_default(or_i64(direct, from_context), 0) as int, -1_000_000, 1_000_000)
}

pub fn confidence_ladder_signal_from_step_or_context(step: &TradeFlowRunStep, context: &JsonValue, keys: &[&str]) -> (r: i64)
    ensures
        r == spec_signal(step_input(step), context@, key_views(keys@)),
{
    let direct = match &step.input_json {
        Some(doc) => trade_builder_analysis_payload_number(doc, keys),
        None => None,
    };
    let from_context = match context.get("flowContext") {
        Some(fc) => trade_builder_analysis_payload_number(fc, keys),
        None => None,
    };
    let v = match direct {
        Some(x) => x,
        None => match from_context {
            Some(y) => y,
            None => 0,
        },
    };
    if v < -1_000_000 { -1_000_000 } else if v > 1_000_000 { 1_000_000 } else { v }
}

/// The numbers of the model.
pub struct ModelNumbers {
    pub p_up: int,
    pub p_down: int,
    pub chop: int,
    pub score_up: int,
    pub score_down: int,
    pub dominant: Option<Seq<char>>,
    pub btc_gap: int,
    pub momentum: int,
    pub book_pressure: int,
    pub trade_flow: int,
    pub up_mid: int,
    pub down_mid: int,
    pub max_spread: int,
}

pub open spec fn clamp_p(x: int) -> int {
    clamp_int(x, 0, 1_000_000)
}

/// The model: the mids' momentum (their difference over a half, within
/// ±1), the books' pressure (half the difference of the two sides'), the
/// trade flow (how far each side last traded from its mid, the difference
/// over a tenth, within ±1) and the outside signal make a directional score
/// (35% signal, 25% momentum, 20% pressure, 10% flow, within ±1). Chop is
/// 0.08, plus 0.12 for mids within 0.08 of each other, 0.18 per side switch
/// (up to 0.45), and a tenth of the widest spread over the spread cap (up to
/// twice; a cap of none or less counts as twice), within `[0, 0.95]`. The
/// confidence scale is one less half the chop, within `[0.25, 1]`. The up
/// score is a half plus half the directional score times the scale; the up
/// probability a half plus 0.32 of it, less 3% of the chop; the down ones
/// their complements; all clamped to probabilities. A side dominates whose
/// score exceeds the other's by the dominance gap. Products are rounded
/// half away from zero to millionths.
pub open spec fn spec_model_numbers(config: ConfidenceLadderConfig, state: TradeBuilderConfidenceLadderState, up: ConfidenceLadderQuote, down: ConfidenceLadderQuote, btc_gap: int) -> ModelNumbers {
    let up_mid = spec_quote_mid(up) as int;
    let down_mid = spec_quote_mid(down) as int;
    let momentum = clamp_int(2 * (up_mid - down_mid), -1_000_000, 1_000_000);
    let pressure = round_half_away(spec_book_pressure(up) - spec_book_pressure(down), 2);
    let flow = spec_trade_flow(up, down);
    let max_spread = spec_max_spread(config, up, down);
    let chop = spec_chop(config, state, up_mid, down_mid, max_spread);
    let directional = clamp_int(round_half_away(35 * btc_gap + 25 * momentum + 20 * pressure + 10 * flow, 100), -1_000_000, 1_000_000);
    let scores = spec_scores(directional, chop);
    ModelNumbers {
        p_up: scores.2,
        p_down: scores.3,
        chop,
        score_up: scores.0,
        score_down: scores.1,
        dominant: if scores.0 > scores.1 + config.dominance_gap { Some("up"@) } else if scores.1 > scores.0 + config.dominance_gap { Some("down"@) } else { None },
        btc_gap,
        momentum,
        book_pressure: pressure,
        trade_flow: flow,
        up_mid,
        down_mid,
        max_spread,
    }
}

/// How far each side last traded from its mid: the difference over a
/// tenth, within ±1.
pub open spec fn spec_trade_flow(up: ConfidenceLadderQuote, down: ConfidenceLadderQuote) -> int {
    let up_mid = spec_quote_mid(up) as int;
    let down_mid = spec_quote_mid(down) as int;
    let up_trade: int = match up.last_trade_price { Some(p) => p as int, None => up_mid };
    let down_trade: int = match down.last_trade_price { Some(p) => p as int, None => down_mid };
    clamp_int(10 * ((up_trade - up_mid) - (down_trade - down_mid)), -1_000_000, 1_000_000)
}

/// The wider spread of the two sides (the cap where a side has none).
pub open spec fn spec_max_spread(config: ConfidenceLadderConfig, up: ConfidenceLadderQuote, down: ConfidenceLadderQuote) -> int {
    let up_spread: int = match spec_spread(up) { Some(s) => s as int, None => config.max_spread as int };
    let down_spread: int = match spec_spread(down) { Some(s) => s as int, None => config.max_spread as int };
    if up_spread < down_spread { down_spread } else { up_spread }
}

/// The chop of the market.
pub open spec fn spec_chop(config: ConfidenceLadderConfig, state: TradeBuilderConfidenceLadderState, up_mid: int, down_mid: int, max_spread: int) -> int {
    let diff = up_mid - down_mid;
    let balance: int = if -80_000 < diff < 80_000 { 120_000 } else { 0 };
    let flips = min_int(state.side_switch_count * 180_000, 450_000);
    let ratio: int = if config.max_spread > 0 { min_int(round_half_away(max_spread * 1_000_000, config.max_spread as int), 2_000_000) } else { 2_000_000 };
    clamp_int(80_000 + balance + flips + round_half_away(ratio, 10), 0, 950_000)
}

/// The scores and probabilities of the two sides (up score, down score, up
/// probability, down probability) from the directional score and the chop.
pub open spec fn spec_scores(directional: int, chop: int) -> (int, int, int, int) {
    let scale2 = clamp_int(2_000_000 - chop, 500_000, 2_000_000);
    let score_up = clamp_p(500_000 + round_half_away(directional * scale2, 4_000_000));
    let p_up = clamp_p(500_000 + round_half_away(4 * directional * scale2 - 750_000 * chop, 25_000_000));
    (score_up, clamp_p(1_000_000 - score_up), p_up, clamp_p(1_000_000 - p_up))
}

/// The model's diagnostics: its probabilities, chop, scores and dominant
/// side, then its inputs.
pub open spec fn model_diagnostics_head(n: ModelNumbers) -> Seq<(Seq<char>, JsonView)> {
    seq![
        ("p_up"@, num(n.p_up)),
        ("p_down"@, num(n.p_down)),
        ("chop"@, num(n.chop)),
        ("score_up"@, num(n.score_up)),
        ("score_down"@, num(n.score_down)),
        ("dominant_side"@, match n.dominant { Some(s) => JsonView::Str(s), None => JsonView::Null }),
    ]
}

pub open spec fn model_diagnostics_tail(n: ModelNumbers, state: TradeBuilderConfidenceLadderState) -> Seq<(Seq<char>, JsonView)> {
    seq![
        ("btc_gap"@, num(n.btc_gap)),
        ("polymarket_mid_momentum"@, num(n.momentum)),
        ("book_pressure"@, num(n.book_pressure)),
        ("trade_flow"@, num(n.trade_flow)),
        ("up_mid"@, num(n.up_mid)),
        ("down_mid"@, num(n.down_mid)),
        ("max_spread"@, num(n.max_spread)),
        ("side_switch_count"@, JsonView::Int(state.side_switch_count as int)),
    ]
}

/// A model carries its numbers and their diagnostics.
pub open spec fn model_of(m: ConfidenceLadderModel, n: ModelNumbers, state: TradeBuilderConfidenceLadderState) -> bool {
    &&& m.p_up == n.p_up
    &&& m.p_down == n.p_down
    &&& m.chop == n.chop
    &&& m.score_up == n.score_up
    &&& m.score_down == n.score_down
    &&& opt_text(m.dominant_side) == n.dominant
    &&& m.diagnostics@ == JsonView::Object(model_diagnostics_head(n) + model_diagnostics_tail(n, state))
}

fn clamp_i128(x: i128, lo: i128, hi: i128) -> (r: i128)
    requires
        lo <= hi,
    ensures
        r == clamp_int(x as int, lo as int, hi as int),
{
    if x < lo { lo } else if x > hi { hi } else { x }
}

#[verifier::spinoff_prover]
#[verifier::rlimit(60)]
fn model_diagnostics_value(
    p_up: i64, p_down: i64, chop: i64, score_up: i64, score_down: i64, dominant: Option<&'static str>,
    btc_gap: i64, momentum: i64, pressure: i64, flow: i64, up_mid: i64, down_mid: i64, max_spread: i64,
    state: &TradeBuilderConfidenceLadderState,
    Ghost(n): Ghost<ModelNumbers>,
) -> (r: JsonValue)
    requires
        n.p_up == p_up && n.p_down == p_down && n.chop == chop && n.score_up == score_up && n.score_down == score_down,
        n.dominant == opt_text(dominant),
        n.btc_gap == btc_gap && n.momentum == momentum && n.book_pressure == pressure && n.trade_flow == flow,
        n.up_mid == up_mid && n.down_mid == down_mid && n.max_spread == max_spread,
    ensures
        r@ == JsonView::Object(model_diagnostics_head(n) + model_diagnostics_tail(n, *state)),
{
    let mut m: Vec<(String, JsonValue)> = Vec::new();
    push_member(&mut m, "p_up", num_value(p_up as i128));
    push_member(&mut m, "p_down", num_value(p_down as i128));
    push_member(&mut m, "chop", num_value(chop as i128));
    push_member(&mut m, "score_up", num_value(score_up as i128));
    push_member(&mut m, "score_down", num_value(score_down as i128));
    push_member(&mut m, "dominant_side", JsonValue::from_opt_str(dominant));
    assert(view_members(m@) =~= model_diagnostics_head(n));
    let ghost head = view_members(m@);
    push_member(&mut m, "btc_gap", num_value(btc_gap as i128));
    push_member(&mut m, "polymarket_mid_momentum", num_value(momentum as i128));
    push_member(&mut m, "book_pressure", num_value(pressure as i128));
    push_member(&mut m, "trade_flow", num_value(flow as i128));
    push_member(&mut m, "up_mid", num_value(up_mid as i128));
    push_member(&mut m, "down_mid", num_value(down_mid as i128));
    push_member(&mut m, "max_spread", num_value(max_spread as i128));
    push_member(&mut m, "side_switch_count", JsonValue::Int(state.side_switch_count));
    assert(view_members(m@) =~= head + model_diagnostics_tail(n, *state));
    object_from(m)
}

fn trade_flow(up: &ConfidenceLadderQuote, down: &ConfidenceLadderQuote, up_mid: i64, down_mid: i64) -> (r: i64)
    requires
        up_mid == spec_quote_mid(*up),
        down_mid == spec_quote_mid(*down),
    ensures
        r == spec_trade_flow(*up, *down),
{
    let up_trade: i128 = match up.last_trade_price { Some(p) => p as i128, None => up_mid as i128 };
    let down_trade: i128 = match down.last_trade_price { Some(p) => p as i128, None => down_mid as i128 };
    clamp_i128(10 * ((up_trade - up_mid as i128) - (down_trade - down_mid as i128)), -1_000_000, 1_000_000) as i64
}

fn max_spread_of(config: &ConfidenceLadderConfig, up: &ConfidenceLadderQuote, down: &ConfidenceLadderQuote) -> (r: i64)
    ensures
        r == spec_max_spread(*config, *up, *down),
{
    let up_spread: i64 = match confidence_ladder_spread(up) { Some(s) => s, None => config.max_spread };
    let down_spread: i64 = match confidence_ladder_spread(down) { Some(s) => s, None => config.max_spread };
    if up_spread < down_spread { down_spread } else { up_spread }
}

fn chop_of(config: &ConfidenceLadderConfig, state: &TradeBuilderConfidenceLadderState, up_mid: i64, down_mid: i64, max_spread: i64) -> (r: i64)
    ensures
        r == spec_chop(*config, *state, up_mid as int, down_mid as int, max_spread as int),
        0 <= r <= 950_000,
{
    let diff: i128 = (up_mid as i128) - (down_mid as i128);
    let balance: i128 = if -80_000 < diff && diff < 80_000 { 120_000 } else { 0 };
    let f: i128 = (state.side_switch_count as i128) * 180_000;
    let flips: i128 = if f < 450_000 { f } else { 450_000 };
    let ratio: i128 = if config.max_spread > 0 {
        let q = round_div((max_spread as i128) * 1_000_000, config.max_spread as i128);
        if q < 2_000_000 { q } else { 2_000_000 }
    } else {
        2_000_000
    };
    proof {
        if config.max_spread > 0 {
            let a = (max_spread as int) * 1_000_000;
            let b = config.max_spread as int;
            if b >= 2 {
                lemma_round_bound(a, b);
                if a < 0 {
                    assert((-a) / b <= -a) by (nonlinear_arith) requires a < 0, b >= 2;
                }
            } else {
                if a >= 0 {
                    assert((2 * a + 1) / 2 == a) by (nonlinear_arith) requires a >= 0;
                } else {
                    assert((2 * (-a) + 1) / 2 == -a) by (nonlinear_arith) requires a < 0;
                }
            }
        }
        lemma_round_bound(ratio as int, 10);
    }
    let spread_penalty = round_div(ratio, 10);
    clamp_i128(80_000 + balance + flips + spread_penalty, 0, 950_000) as i64
}

fn scores_of(directional: i64, chop: i64) -> (r: (i64, i64, i64, i64))
    requires
        -1_000_000 <= directional <= 1_000_000,
        0 <= chop <= 950_000,
    ensures
        (r.0 as int, r.1 as int, r.2 as int, r.3 as int) == spec_scores(directional as int, chop as int),
{
    let scale2 = clamp_i128(2_000_000 - chop as i128, 500_000, 2_000_000);
    let d = directional as i128;
    proof {
        assert(-2_000_000_000_000 <= d * scale2 <= 2_000_000_000_000) by (nonlinear_arith)
            requires -1_000_000 <= d <= 1_000_000, 500_000 <= scale2 <= 2_000_000;
    }
    let ds: i128 = d * scale2;
    let su = round_div(ds, 4_000_000);
    let pu = round_div(4 * ds - 750_000 * (chop as i128), 25_000_000);
    proof {
        lemma_round_bound(ds as int, 4_000_000);
        lemma_round_bound(4 * ds - 750_000 * chop, 25_000_000);
        assert(4 * (directional as int) * (scale2 as int) == 4 * (ds as int)) by (nonlinear_arith)
            requires ds == d * scale2, d == directional;
    }
    let score_up = clamp_i128(500_000 + su, 0, 1_000_000);
    let p_up = clamp_i128(500_000 + pu, 0, 1_000_000);
    (score_up as i64, clamp_i128(1_000_000 - score_up, 0, 1_000_000) as i64, p_up as i64, clamp_i128(1_000_000 - p_up, 0, 1_000_000) as i64)
}

/// The model of a step (see `spec_model_numbers`), its outside signal from
/// the step input or the run's flow context (see `spec_signal`).
#[verifier::spinoff_prover]
#[verifier::rlimit(40)]
pub fn confidence_ladder_heuristic_model(
    config: &ConfidenceLadderConfig,
    state: &TradeBuilderConfidenceLadderState,
    up: &ConfidenceLadderQuote,
    down: &ConfidenceLadderQuote,
    step: &TradeFlowRunStep,
    context: &JsonValue,
) -> (r: ConfidenceLadderModel)
    ensures
        model_of(r, spec_model_numbers(*config, *state, *up, *down, spec_signal(step_input(step), context@, signal_keys())), *state),
{
    let up_mid = confidence_ladder_quote_mid(up);
    let down_mid = confidence_ladder_quote_mid(down);
    let momentum = clamp_i128(2 * ((up_mid as i128) - (down_mid as i128)), -1_000_000, 1_000_000) as i64;
    let bp_up = confidence_ladder_book_pressure(up);
    let bp_down = confidence_ladder_book_pressure(down);
    let pressure = round_div((bp_up as i128) - (bp_down as i128), 2) as i64;
    proof { lemma_round_bound((bp_up - bp_down) as int, 2); }
    let flow = trade_flow(up, down, up_mid, down_mid);
    let keys = ["btcCycleOpenGap", "btc_cycle_open_gap", "btcImpulse", "btc_impulse", "cexImpulse", "cex_impulse"];
    assert(key_views(keys@) =~= signal_keys());
    let btc_gap = confidence_ladder_signal_from_step_or_context(step, context, &keys);
    let max_spread = max_spread_of(config, up, down);
    let chop = chop_of(config, state, up_mid, down_mid, max_spread);
    let d_raw = round_div(35 * (btc_gap as i128) + 25 * (momentum as i128) + 20 * (pressure as i128) + 10 * (flow as i128), 100);
    proof { lemma_round_bound(35 * btc_gap + 25 * momentum + 20 * pressure + 10 * flow, 100); }
    let directional = clamp_i128(d_raw, -1_000_000, 1_000_000) as i64;
    let (score_up, score_down, p_up, p_down) = scores_of(directional, chop);
    let dominant_side: Option<&'static str> = if (score_up as i128) > (score_down as i128) + (config.dominance_gap as i128) {
        Some("up")
    } else if (score_down as i128) > (score_up as i128) + (config.dominance_gap as i128) {
        Some("down")
    } else {
        None
    };
    let ghost n = spec_model_numbers(*config, *state, *up, *down, btc_gap as int);
    let diagnostics = model_diagnostics_value(p_up, p_down, chop, score_up, score_down,
        dominant_side, btc_gap, momentum, pressure, flow, up_mid, down_mid, max_spread, state, Ghost(n));
    ConfidenceLadderModel { p_up, p_down, chop, score_up, score_down, dominant_side, diagnostics }
}

/// A number of an order's confidence-ladder marker, in millionths.
pub fn confidence_ladder_marker_f64(config: &JsonValue, key: &str) -> (r: Option<i64>)
    ensures
        r == match config@.get(key@) {
            Some(v) => spec_json_micros(v),
            None => None,
        },
{
    match config.get(key) {
        Some(v) => json_micros(v),
        None => None,
    }
}

/// Every buy the ladder decides on, hedge or dominant, has a positive
/// quantity and keeps the market within its cost budget and its loss cap.
pub proof fn law_ladder_buys_keep_within_risk(
    config: ConfidenceLadderConfig,
    state: TradeBuilderConfidenceLadderState,
    model: ConfidenceLadderModel,
    up: ConfidenceLadderQuote,
    down: ConfidenceLadderQuote,
    remaining_sec: Option<i64>,
)
    ensures
        spec_hedge_plan(config, state, model, up, down) matches Some((p, d))
            ==> p.quantity > 0 && spec_risk_allows_buy(config, state, p.side, p.quantity as i64, p.all_in_cost as i64),
        spec_dominant_plan(config, state, model, up, down, remaining_sec) matches Some((p, d))
            ==> spec_risk_allows_buy(config, state, p.side, p.quantity as i64, p.all_in_cost as i64),
{
}

/// A quantity that targets a worst-case profit is positive, at most what
/// the opposite side may buy, and lifts the worst outcome to the target
/// (within a millionth of a USDC).
pub proof fn law_target_quantity_reaches_target(
    config: ConfidenceLadderConfig,
    state: TradeBuilderConfidenceLadderState,
    held_side: Seq<char>,
    opposite_side: Seq<char>,
    all_in_cost: i64,
    target_pnl: i64,
)
    ensures
        spec_quantity_for_target(config, state, held_side, opposite_side, all_in_cost, target_pnl) matches Some(q)
            ==> 0 < q <= spec_max_opposite_qty(config, state, held_side, opposite_side, all_in_cost)
                && spec_worst_case_scaled(state, opposite_side, q as i64, all_in_cost) + 1_000_000 >= target_pnl * 1_000_000,
{
}

/// Law: the ladder only buys into a tight book. A dominant-side buy is made
/// on the model's dominant side, at that side's quoted price, and only when
/// its book has both a bid and an ask no further apart than the maximum
/// spread; a hedge is bought on the side opposite the one held, at a price
/// no higher than the damage-control ceiling, under the same spread bound.
pub proof fn law_buys_need_a_tight_book(
    config: ConfidenceLadderConfig,
    state: TradeBuilderConfidenceLadderState,
    model: ConfidenceLadderModel,
    up: ConfidenceLadderQuote,
    down: ConfidenceLadderQuote,
    remaining_sec: Option<i64>,
)
    ensures
        spec_dominant_plan(config, state, model, up, down, remaining_sec) matches Some((p, d)) ==> ({
            let q = spec_side_quote(p.side, up, down);
            &&& opt_text(model.dominant_side) == Some(p.side)
            &&& q.best_bid is Some && q.best_ask is Some
            &&& q.best_bid->0 <= q.best_ask->0
            &&& (q.best_ask->0 - q.best_bid->0 <= config.max_spread || config.max_spread == i64::MAX)
            &&& spec_quote_price(q) == Some(p.price as i64)
        }),
        spec_hedge_plan(config, state, model, up, down) matches Some((p, d)) ==> ({
            let q = spec_side_quote(p.side, up, down);
            &&& q.best_bid is Some && q.best_ask is Some
            &&& q.best_bid->0 <= q.best_ask->0
            &&& (q.best_ask->0 - q.best_bid->0 <= config.max_spread || config.max_spread == i64::MAX)
            &&& spec_quote_price(q) == Some(p.price as i64)
            &&& p.price <= config.damage_control_price_max
        }),
{
}


/// Law: the taker fee is symmetric about a price of one half (a price and
/// its complement pay the same fee), vanishes at prices 0 and 1, and is
/// never negative; so a share never costs less than its price all in, and
/// counting the slippage buffer never lowers that cost.
pub proof fn law_fee_is_symmetric_and_all_in_covers_price(
    config: ConfidenceLadderConfig,
    price: i64,
    complement: i64,
)
    requires
        0 <= price <= 1_000_000,
        complement == 1_000_000 - price,
    ensures
        spec_fee(price, config.taker_fee_rate) == spec_fee(complement, config.taker_fee_rate),
        spec_fee(0, config.taker_fee_rate) == 0,
        spec_fee(1_000_000, config.taker_fee_rate) == 0,
        spec_fee(price, config.taker_fee_rate) >= 0,
        spec_all_in_cost(price, config, false) >= price,
        spec_all_in_cost(price, config, true) >= spec_all_in_cost(price, config, false),
{
    let rate: int = if config.taker_fee_rate < 0 { 0 } else { config.taker_fee_rate as int };
    let p: int = price as int;
    let c: int = 1_000_000 - price;
    assert(rate * p * c == rate * c * p) by (nonlinear_arith);
    assert(rate * p * c >= 0) by (nonlinear_arith)
        requires rate >= 0, p >= 0, c >= 0;
    assert(rate * 0 * 1_000_000 == 0) by (nonlinear_arith);
    assert(rate * 1_000_000 * 0 == 0) by (nonlinear_arith);
    vstd::arithmetic::div_mod::lemma_div_pos_is_pos(2 * (rate * p * c) + 1_000_000_000_000, 2_000_000_000_000);
    vstd::arithmetic::div_mod::lemma_basic_div(1_000_000_000_000, 2_000_000_000_000);
}

} // verus!
