//! A trade-builder order, as the exit and cache logic read it, and the
//! predicates that classify it.
use vstd::prelude::*;
use crate::json::{JsonValue, JsonView, view_items, lemma_view_items};
use crate::text::{str_eq, eq_ignore_ascii_case, eq_ignore_case, trim, trimmed, trim_start, trim_end, lower};

verus! {

broadcast use vstd::string::group_string_axioms;

pub const TRADE_BUILDER_SIZE_BASIS_SHARES: &'static str = "shares";
pub const TRADE_BUILDER_SIZE_BASIS_NOTIONAL_USDC: &'static str = "notional_usdc";

/// One stage of a price exit ladder: sell `size_pct` of the position at
/// `price`. Prices are in millionths of a dollar per share, percentages in
/// millionths of a percent.
#[derive(Debug, Clone, Copy, PartialEq, Eq, Structural)]
pub struct TradeBuilderPriceExitRule {
    pub price: i64,
    pub size_pct: i64,
}

/// One stage of a time exit ladder: after `elapsed_minutes`, keep
/// `remaining_pct` (millionths of a percent) of the position.
#[derive(Debug, Clone, Copy, PartialEq, Eq, Structural)]
pub struct TradeBuilderTimeExitRule {
    pub elapsed_minutes: i64,
    pub remaining_pct: i64,
}

/// The fields of an order that its classification and caching read. Prices
/// are in millionths of a dollar per share; instants are microseconds since
/// the Unix epoch.
pub struct TradeBuilderOrder {
    pub id: i64,
    pub user_id: i64,
    pub kind: String,
    pub status: String,
    pub market_slug: String,
    pub token_id: String,
    pub outcome_label: String,
    pub side: String,
    pub execution_mode: String,
    pub trigger_condition: Option<String>,
    pub trigger_price: Option<i64>,
    pub size_basis: String,
    pub last_error: Option<String>,
    pub last_seen_price: Option<i64>,
    pub working_price: Option<i64>,
    pub sl_trigger_price_mode: Option<String>,
    pub created_at: i64,
    pub parent_order_id: Option<i64>,
    pub origin_flow_run_id: Option<i64>,
    pub tp_enabled: bool,
    pub tp_price: Option<i64>,
    pub tp_rules_json: Vec<TradeBuilderPriceExitRule>,
    pub sl_enabled: bool,
    pub sl_price: Option<i64>,
    pub sl_rules_json: Vec<TradeBuilderPriceExitRule>,
    pub time_exit_rules_json: Vec<TradeBuilderTimeExitRule>,
    pub retry_on_execution_floor_guard_block: bool,
    pub ptb_stop_loss_gap_usd: Option<i64>,
    pub ptb_stop_loss_rules_json: Vec<JsonValue>,
    pub exit_ladder_kind: Option<String>,
    pub exit_ladder_index: Option<i32>,
    pub exit_ladder_size_pct: Option<i64>,
}

/// A child order that sells the position of its parent when its trigger fires.
pub open spec fn spec_is_child_exit_sell(order: &TradeBuilderOrder) -> bool {
    order.parent_order_id is Some && order.side@ == "sell"@ && order.kind@ == "conditional"@
}

pub fn trade_builder_is_child_exit_sell(order: &TradeBuilderOrder) -> (r: bool)
    ensures
        r == spec_is_child_exit_sell(order),
{
    order.parent_order_id.is_some() && str_eq(order.side.as_str(), "sell") && str_eq(order.kind.as_str(), "conditional")
}

/// A root conditional buy, priced on the fast path.
pub open spec fn spec_is_fast_entry_buy(order: &TradeBuilderOrder) -> bool {
    order.parent_order_id is None && order.kind@ == "conditional"@ && order.side@ == "buy"@
}

pub fn trade_builder_is_fast_entry_buy(order: &TradeBuilderOrder) -> (r: bool)
    ensures
        r == spec_is_fast_entry_buy(order),
{
    order.parent_order_id.is_none() && str_eq(order.kind.as_str(), "conditional") && str_eq(order.side.as_str(), "buy")
}

pub fn trade_builder_uses_fast_runtime_pricing(order: &TradeBuilderOrder) -> (r: bool)
    ensures
        r == (spec_is_child_exit_sell(order) || spec_is_fast_entry_buy(order)),
{
    trade_builder_is_child_exit_sell(order) || trade_builder_is_fast_entry_buy(order)
}

pub open spec fn opt_text(v: Option<String>) -> Option<Seq<char>> {
    match v {
        Some(s) => Some(s@),
        None => None,
    }
}

fn opt_text_is(v: &Option<String>, expected: &str) -> (r: bool)
    ensures
        r == (opt_text(*v) == Some(expected@)),
{
    match v {
        Some(s) => str_eq(s.as_str(), expected),
        None => false,
    }
}

/// A child exit sell that fires when the price crosses above its trigger.
pub open spec fn spec_is_take_profit_child(order: &TradeBuilderOrder) -> bool {
    spec_is_child_exit_sell(order) && opt_text(order.trigger_condition) == Some("cross_above"@)
}

pub fn trade_builder_is_take_profit_child(order: &TradeBuilderOrder) -> (r: bool)
    ensures
        r == spec_is_take_profit_child(order),
{
    trade_builder_is_child_exit_sell(order) && opt_text_is(&order.trigger_condition, "cross_above")
}

/// A child exit sell that fires when the price crosses below its trigger.
pub open spec fn spec_is_stop_loss_child(order: &TradeBuilderOrder) -> bool {
    spec_is_child_exit_sell(order) && opt_text(order.trigger_condition) == Some("cross_below"@)
}

pub fn trade_builder_is_stop_loss_child(order: &TradeBuilderOrder) -> (r: bool)
    ensures
        r == spec_is_stop_loss_child(order),
{
    trade_builder_is_child_exit_sell(order) && opt_text_is(&order.trigger_condition, "cross_below")
}

/// The statuses after which an order does nothing more.
pub open spec fn spec_is_terminal_status(status: Seq<char>) -> bool {
    ||| status == "completed"@
    ||| status == "canceled"@
    ||| status == "expired"@
    ||| status == "filled"@
    ||| status == "canceled_requested"@
}

pub fn trade_builder_is_terminal_status(status: &str) -> (r: bool)
    ensures
        r == spec_is_terminal_status(status@),
{
    str_eq(status, "completed") || str_eq(status, "canceled") || str_eq(status, "expired")
        || str_eq(status, "filled") || str_eq(status, "canceled_requested")
}

/// The size basis of an order: shares when the text says so up to case and
/// surrounding whitespace, notional USDC otherwise.
pub open spec fn spec_normalize_size_basis(raw: Seq<char>) -> Seq<char> {
    if eq_ignore_case(trim(raw), TRADE_BUILDER_SIZE_BASIS_SHARES@) {
        TRADE_BUILDER_SIZE_BASIS_SHARES@
    } else {
        TRADE_BUILDER_SIZE_BASIS_NOTIONAL_USDC@
    }
}

pub fn normalize_trade_builder_size_basis(raw: &str) -> (r: &'static str)
    ensures
        r@ == spec_normalize_size_basis(raw@),
{
    let t = trimmed(raw);
    if eq_ignore_ascii_case(t.as_str(), TRADE_BUILDER_SIZE_BASIS_SHARES) {
        TRADE_BUILDER_SIZE_BASIS_SHARES
    } else {
        TRADE_BUILDER_SIZE_BASIS_NOTIONAL_USDC
    }
}

fn is_shares_basis(order: &TradeBuilderOrder) -> (r: bool)
    ensures
        r == (spec_normalize_size_basis(order.size_basis@) == TRADE_BUILDER_SIZE_BASIS_SHARES@),
{
    let basis = normalize_trade_builder_size_basis(order.size_basis.as_str());
    str_eq(basis, TRADE_BUILDER_SIZE_BASIS_SHARES)
}

/// Whether an exit is submitted optimistically: share-sized child exit sells,
/// and share-sized immediate sells that a flow run created.
pub open spec fn spec_should_use_optimistic_exit_submit(order: &TradeBuilderOrder) -> bool {
    spec_normalize_size_basis(order.size_basis@) == TRADE_BUILDER_SIZE_BASIS_SHARES@ && (
        spec_is_child_exit_sell(order)
        || (order.side@ == "sell"@ && order.kind@ == "immediate"@ && order.origin_flow_run_id is Some))
}

pub fn trade_builder_should_use_optimistic_exit_submit(order: &TradeBuilderOrder) -> (r: bool)
    ensures
        r == spec_should_use_optimistic_exit_submit(order),
{
    if !is_shares_basis(order) {
        return false;
    }
    if trade_builder_is_child_exit_sell(order) {
        return true;
    }
    str_eq(order.side.as_str(), "sell") && str_eq(order.kind.as_str(), "immediate") && order.origin_flow_run_id.is_some()
}

/// A wait at the execution floor: for a missing best ask, or when the order
/// asks to retry on that guard.
pub fn trade_builder_execution_floor_should_wait(order: &TradeBuilderOrder, reason_code: &str) -> (r: bool)
    ensures
        r == (reason_code@ == "best_ask_unavailable"@ || order.retry_on_execution_floor_guard_block),
{
    str_eq(reason_code, "best_ask_unavailable") || order.retry_on_execution_floor_guard_block
}

/// The mathematical view of an order: its texts as character sequences and
/// its documents by their views.
pub struct TradeBuilderOrderView {
    pub id: i64,
    pub user_id: i64,
    pub kind: Seq<char>,
    pub status: Seq<char>,
    pub market_slug: Seq<char>,
    pub token_id: Seq<char>,
    pub outcome_label: Seq<char>,
    pub side: Seq<char>,
    pub execution_mode: Seq<char>,
    pub trigger_condition: Option<Seq<char>>,
    pub trigger_price: Option<i64>,
    pub size_basis: Seq<char>,
    pub last_error: Option<Seq<char>>,
    pub last_seen_price: Option<i64>,
    pub working_price: Option<i64>,
    pub sl_trigger_price_mode: Option<Seq<char>>,
    pub created_at: i64,
    pub parent_order_id: Option<i64>,
    pub origin_flow_run_id: Option<i64>,
    pub tp_enabled: bool,
    pub tp_price: Option<i64>,
    pub tp_rules_json: Seq<TradeBuilderPriceExitRule>,
    pub sl_enabled: bool,
    pub sl_price: Option<i64>,
    pub sl_rules_json: Seq<TradeBuilderPriceExitRule>,
    pub time_exit_rules_json: Seq<TradeBuilderTimeExitRule>,
    pub retry_on_execution_floor_guard_block: bool,
    pub ptb_stop_loss_gap_usd: Option<i64>,
    pub ptb_stop_loss_rules_json: Seq<JsonView>,
    pub exit_ladder_kind: Option<Seq<char>>,
    pub exit_ladder_index: Option<i32>,
    pub exit_ladder_size_pct: Option<i64>,
}

impl View for TradeBuilderOrder {
    type V = TradeBuilderOrderView;

    open spec fn view(&self) -> TradeBuilderOrderView {
        TradeBuilderOrderView {
            id: self.id,
            user_id: self.user_id,
            kind: self.kind@,
            status: self.status@,
            market_slug: self.market_slug@,
            token_id: self.token_id@,
            outcome_label: self.outcome_label@,
            side: self.side@,
            execution_mode: self.execution_mode@,
            trigger_condition: opt_text(self.trigger_condition),
            trigger_price: self.trigger_price,
            size_basis: self.size_basis@,
            last_error: opt_text(self.last_error),
            last_seen_price: self.last_seen_price,
            working_price: self.working_price,
            sl_trigger_price_mode: opt_text(self.sl_trigger_price_mode),
            created_at: self.created_at,
            parent_order_id: self.parent_order_id,
            origin_flow_run_id: self.origin_flow_run_id,
            tp_enabled: self.tp_enabled,
            tp_price: self.tp_price,
            tp_rules_json: self.tp_rules_json@,
            sl_enabled: self.sl_enabled,
            sl_price: self.sl_price,
            sl_rules_json: self.sl_rules_json@,
            time_exit_rules_json: self.time_exit_rules_json@,
            retry_on_execution_floor_guard_block: self.retry_on_execution_floor_guard_block,
            ptb_stop_loss_gap_usd: self.ptb_stop_loss_gap_usd,
            ptb_stop_loss_rules_json: view_items(self.ptb_stop_loss_rules_json@),
            exit_ladder_kind: opt_text(self.exit_ladder_kind),
            exit_ladder_index: self.exit_ladder_index,
            exit_ladder_size_pct: self.exit_ladder_size_pct,
        }
    }
}

fn copy_text(v: &Option<String>) -> (r: Option<String>)
    ensures
        opt_text(r) == opt_text(*v),
{
    match v {
        Some(s) => Some(s.clone()),
        None => None,
    }
}

fn copy_price_rules(v: &Vec<TradeBuilderPriceExitRule>) -> (r: Vec<TradeBuilderPriceExitRule>)
    ensures
        r@ == v@,
{
    let mut out: Vec<TradeBuilderPriceExitRule> = Vec::new();
    let mut i: usize = 0;
    while i < v.len()
        invariant
            i <= v.len(),
            out@ == v@.take(i as int),
        decreases v.len() - i,
    {
        out.push(v[i]);
        assert(v@.take(i as int + 1) =~= v@.take(i as int).push(v@[i as int]));
        i = i + 1;
    }
    assert(v@.take(v.len() as int) =~= v@);
    out
}

fn copy_time_rules(v: &Vec<TradeBuilderTimeExitRule>) -> (r: Vec<TradeBuilderTimeExitRule>)
    ensures
        r@ == v@,
{
    let mut out: Vec<TradeBuilderTimeExitRule> = Vec::new();
    let mut i: usize = 0;
    while i < v.len()
        invariant
            i <= v.len(),
            out@ == v@.take(i as int),
        decreases v.len() - i,
    {
        out.push(v[i]);
        assert(v@.take(i as int + 1) =~= v@.take(i as int).push(v@[i as int]));
        i = i + 1;
    }
    assert(v@.take(v.len() as int) =~= v@);
    out
}

fn copy_documents(v: &Vec<JsonValue>) -> (r: Vec<JsonValue>)
    ensures
        view_items(r@) == view_items(v@),
{
    let mut out: Vec<JsonValue> = Vec::new();
    let mut i: usize = 0;
    while i < v.len()
        invariant
            i <= v.len(),
            out.len() == i,
            forall|j: int| 0 <= j < i ==> #[trigger] out@[j]@ == v@[j]@,
        decreases v.len() - i,
    {
        let c = v[i].deep_clone();
        out.push(c);
        i = i + 1;
    }
    proof {
        lemma_view_items(out@);
        lemma_view_items(v@);
        assert(view_items(out@) =~= view_items(v@));
    }
    out
}

impl TradeBuilderOrder {
    /// A copy of the order (`Clone::clone`).
    pub fn duplicate(&self) -> (r: TradeBuilderOrder)
        ensures
            r@ == self@,
    {
        TradeBuilderOrder {
            id: self.id,
            user_id: self.user_id,
            kind: self.kind.clone(),
            status: self.status.clone(),
            market_slug: self.market_slug.clone(),
            token_id: self.token_id.clone(),
            outcome_label: self.outcome_label.clone(),
            side: self.side.clone(),
            execution_mode: self.execution_mode.clone(),
            trigger_condition: copy_text(&self.trigger_condition),
            trigger_price: self.trigger_price,
            size_basis: self.size_basis.clone(),
            last_error: copy_text(&self.last_error),
            last_seen_price: self.last_seen_price,
            working_price: self.working_price,
            sl_trigger_price_mode: copy_text(&self.sl_trigger_price_mode),
            created_at: self.created_at,
            parent_order_id: self.parent_order_id,
            origin_flow_run_id: self.origin_flow_run_id,
            tp_enabled: self.tp_enabled,
            tp_price: self.tp_price,
            tp_rules_json: copy_price_rules(&self.tp_rules_json),
            sl_enabled: self.sl_enabled,
            sl_price: self.sl_price,
            sl_rules_json: copy_price_rules(&self.sl_rules_json),
            time_exit_rules_json: copy_time_rules(&self.time_exit_rules_json),
            retry_on_execution_floor_guard_block: self.retry_on_execution_floor_guard_block,
            ptb_stop_loss_gap_usd: self.ptb_stop_loss_gap_usd,
            ptb_stop_loss_rules_json: copy_documents(&self.ptb_stop_loss_rules_json),
            exit_ladder_kind: copy_text(&self.exit_ladder_kind),
            exit_ladder_index: self.exit_ladder_index,
            exit_ladder_size_pct: self.exit_ladder_size_pct,
        }
    }
}

/// Law: normalizing a size basis twice gives what normalizing once gives.
pub proof fn law_normalize_size_basis_idempotent(raw: Seq<char>)
    ensures
        spec_normalize_size_basis(spec_normalize_size_basis(raw)) == spec_normalize_size_basis(raw),
{
    reveal_strlit("shares");
    reveal_strlit("notional_usdc");
    let sh = TRADE_BUILDER_SIZE_BASIS_SHARES@;
    let nu = TRADE_BUILDER_SIZE_BASIS_NOTIONAL_USDC@;
    assert(trim_start(sh) == sh);
    assert(trim_end(sh) == sh);
    assert(trim_start(nu) == nu);
    assert(trim_end(nu) == nu);
    assert(lower(sh).len() != lower(nu).len());
}

} // verus!
