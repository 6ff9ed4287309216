//! Decisions of the `action.place_order` node that precede any order work:
//! its initial status, revenge-flip markers, the source trade it attaches to,
//! and the executions it returns when it skips or blocks.
use vstd::prelude::*;
use crate::flow::{
    TradeFlowNode, TradeFlowRunStep, TradeFlowNodeExecution, node_config_bool, node_config_i64,
    node_config_string, first_key_i64, key_views, flow_context_view, step_input, step_input_i64,
};
use crate::json::{
    JsonValue, JsonView, opt_as_bool, opt_as_i64, opt_as_str, opt_get, opt_text_view,
    view_members, push_member, object_from,
};
use crate::text::{str_eq, eq_ignore_ascii_case, eq_ignore_case, trim, trimmed};
use crate::flow::{first_key_str, step_input_string, flow_context_string};
use crate::market_scope::{spec_updown_asset, find_updown_asset};

verus! {

broadcast use vstd::string::group_string_axioms;

pub const ACTION_PLACE_ORDER_INTERNAL_PAIR_LOCK_CHILD_ROLE_KEY: &'static str = "internalPairLockChildRole";
pub const ACTION_PLACE_ORDER_INTERNAL_INITIAL_STATUS_KEY: &'static str = "internalInitialStatus";
pub const ACTION_PLACE_ORDER_INTERNAL_BLOCKED_STATUS: &'static str = "blocked";
pub const ACTION_PLACE_ORDER_INTERNAL_REVENGE_FLIP_STOP_LOSS_SELL: &'static str = "revenge_flip_stop_loss_sell";
pub const ACTION_PLACE_ORDER_REVENGE_FLIP_STOP_LOSS_SELL_KEY: &'static str = "revengeFlipStopLossSell";
/// The pair-lock role of a counter order that waits for its session.
pub const TRADE_BUILDER_PAIR_ROLE_COUNTER_CANDIDATE: &'static str = "counter_candidate";
/// The node-config marker of a revenge-flip order.
pub const REVENGE_FLIP_ORDER_MARKER_KEY: &'static str = "revengeFlipOrder";

/// Whether the node is an internal pair-lock counter that starts blocked.
pub open spec fn spec_uses_blocked_internal_initial_status(config: JsonView) -> bool {
    &&& opt_as_str(config.get(ACTION_PLACE_ORDER_INTERNAL_PAIR_LOCK_CHILD_ROLE_KEY@))
        == Some(TRADE_BUILDER_PAIR_ROLE_COUNTER_CANDIDATE@)
    &&& opt_as_str(config.get(ACTION_PLACE_ORDER_INTERNAL_INITIAL_STATUS_KEY@))
        == Some(ACTION_PLACE_ORDER_INTERNAL_BLOCKED_STATUS@)
}

/// The status a new order starts in.
pub open spec fn spec_initial_status(config: JsonView, side: Seq<char>, kind: Seq<char>) -> Seq<char> {
    if side == "sell"@ && kind == "immediate"@ {
        "triggered"@
    } else if spec_uses_blocked_internal_initial_status(config) {
        ACTION_PLACE_ORDER_INTERNAL_BLOCKED_STATUS@
    } else {
        "pending"@
    }
}

fn opt_string_is(v: &Option<String>, expected: &str) -> (r: bool)
    ensures
        r == match v {
            Some(s) => s@ == expected@,
            None => false,
        },
{
    match v {
        Some(s) => str_eq(s.as_str(), expected),
        None => false,
    }
}

pub fn action_place_order_uses_blocked_internal_initial_status(node: &TradeFlowNode) -> (r: bool)
    ensures
        r == spec_uses_blocked_internal_initial_status(node.config@),
{
    let role = node_config_string(node, ACTION_PLACE_ORDER_INTERNAL_PAIR_LOCK_CHILD_ROLE_KEY);
    let status = node_config_string(node, ACTION_PLACE_ORDER_INTERNAL_INITIAL_STATUS_KEY);
    opt_string_is(&role, TRADE_BUILDER_PAIR_ROLE_COUNTER_CANDIDATE)
        && opt_string_is(&status, ACTION_PLACE_ORDER_INTERNAL_BLOCKED_STATUS)
}

pub fn resolve_action_place_order_initial_status(node: &TradeFlowNode, side: &str, kind: &str) -> (r: &'static str)
    ensures
        r@ == spec_initial_status(node.config@, side@, kind@),
{
    if str_eq(side, "sell") && str_eq(kind, "immediate") {
        "triggered"
    } else if action_place_order_uses_blocked_internal_initial_status(node) {
        ACTION_PLACE_ORDER_INTERNAL_BLOCKED_STATUS
    } else {
        "pending"
    }
}

/// An immediate order is submitted inline unless it starts blocked.
pub fn action_place_order_should_inline_submit(kind: &str, initial_status: &str) -> (r: bool)
    ensures
        r == (kind@ == "immediate"@ && initial_status@ != ACTION_PLACE_ORDER_INTERNAL_BLOCKED_STATUS@),
{
    str_eq(kind, "immediate") && !str_eq(initial_status, ACTION_PLACE_ORDER_INTERNAL_BLOCKED_STATUS)
}

pub fn action_place_order_is_revenge_flip_stop_loss_sell(node: &TradeFlowNode, internal_mode: Option<&str>) -> (r: bool)
    ensures
        r == ((internal_mode matches Some(m) && m@ == ACTION_PLACE_ORDER_INTERNAL_REVENGE_FLIP_STOP_LOSS_SELL@)
            || opt_as_bool(node.config@.get(ACTION_PLACE_ORDER_REVENGE_FLIP_STOP_LOSS_SELL_KEY@)) == Some(true)),
{
    let by_mode = match internal_mode {
        Some(m) => str_eq(m, ACTION_PLACE_ORDER_INTERNAL_REVENGE_FLIP_STOP_LOSS_SELL),
        None => false,
    };
    by_mode || match node_config_bool(node, ACTION_PLACE_ORDER_REVENGE_FLIP_STOP_LOSS_SELL_KEY) {
        Some(b) => b,
        None => false,
    }
}

/// The parent order of a revenge-flip order: from the node configuration
/// (camel case, then snake case), then from the step input; only a positive
/// id counts.
pub open spec fn spec_revenge_flip_parent_id(config: JsonView, input: Option<JsonView>) -> Option<i64> {
    let raw = match opt_as_i64(config.get("parentBuilderOrderId"@)) {
        Some(v) => Some(v),
        None => match opt_as_i64(config.get("parent_builder_order_id"@)) {
            Some(v) => Some(v),
            None => match input {
                Some(doc) => first_key_i64(doc, seq!["parentBuilderOrderId"@, "parent_builder_order_id"@]),
                None => None,
            },
        },
    };
    match raw {
        Some(v) => if v > 0 { Some(v) } else { None },
        None => None,
    }
}

pub fn resolve_action_place_order_revenge_flip_parent_builder_order_id(
    node: &TradeFlowNode,
    step: &TradeFlowRunStep,
) -> (r: Option<i64>)
    ensures
        r == spec_revenge_flip_parent_id(node.config@, step_input(step)),
{
    let raw = match node_config_i64(node, "parentBuilderOrderId") {
        Some(v) => Some(v),
        None => match node_config_i64(node, "parent_builder_order_id") {
            Some(v) => Some(v),
            None => {
                let keys = ["parentBuilderOrderId", "parent_builder_order_id"];
                let r = step_input_i64(step, &keys);
                assert(key_views(keys@) =~= seq!["parentBuilderOrderId"@, "parent_builder_order_id"@]);
                r
            },
        },
    };
    match raw {
        Some(v) => if v > 0 { Some(v) } else { None },
        None => None,
    }
}

/// A revenge-flip buy sized in USDC takes its source trade automatically.
pub open spec fn spec_revenge_flip_buy_uses_auto_source_trade(config: JsonView, side: Seq<char>) -> bool {
    &&& side == "buy"@
    &&& opt_as_bool(config.get(REVENGE_FLIP_ORDER_MARKER_KEY@)) == Some(true)
    &&& opt_as_str(config.get("sizeMode"@)) matches Some(mode) && eq_ignore_case(trim(mode), "usdc"@)
}

pub fn action_place_order_revenge_flip_buy_uses_auto_source_trade(node: &TradeFlowNode, side: &str) -> (r: bool)
    ensures
        r == spec_revenge_flip_buy_uses_auto_source_trade(node.config@, side@),
{
    if !str_eq(side, "buy") {
        return false;
    }
    let marked = match node_config_bool(node, REVENGE_FLIP_ORDER_MARKER_KEY) {
        Some(b) => b,
        None => false,
    };
    if !marked {
        return false;
    }
    match node_config_string(node, "sizeMode") {
        Some(mode) => {
            let t = trimmed(mode.as_str());
            eq_ignore_ascii_case(t.as_str(), "usdc")
        },
        None => false,
    }
}

/// The flow's `sourceTradeId`: from the node configuration, else from the
/// flow context.
pub open spec fn spec_config_or_context_source_trade_id(config: JsonView, context: JsonView) -> Option<i64> {
    match opt_as_i64(config.get("sourceTradeId"@)) {
        Some(v) => Some(v),
        None => opt_as_i64(opt_get(flow_context_view(context), "sourceTradeId"@)),
    }
}

pub open spec fn positive(v: Option<i64>) -> Option<i64> {
    match v {
        Some(x) => if x > 0 { Some(x) } else { None },
        None => None,
    }
}

fn positive_id(v: Option<i64>) -> (r: Option<i64>)
    ensures
        r == positive(v),
{
    match v {
        Some(x) => if x > 0 { Some(x) } else { None },
        None => None,
    }
}

fn config_or_context_source_trade_id(node: &TradeFlowNode, context: &JsonValue) -> (r: Option<i64>)
    ensures
        r == spec_config_or_context_source_trade_id(node.config@, context@),
{
    match node_config_i64(node, "sourceTradeId") {
        Some(v) => Some(v),
        None => match context.get("flowContext") {
            Some(fc) => match fc.get("sourceTradeId") {
                Some(v) => v.as_i64(),
                None => None,
            },
            None => None,
        },
    }
}

pub fn resolve_flow_source_trade_id(node: &TradeFlowNode, context: &JsonValue) -> (r: Option<i64>)
    ensures
        r == positive(spec_config_or_context_source_trade_id(node.config@, context@)),
{
    positive_id(config_or_context_source_trade_id(node, context))
}

/// The source trade of an order: none for an automatic revenge-flip buy;
/// else the flow's `sourceTradeId`, else a positive one from the step input.
pub open spec fn spec_action_place_order_source_trade_id(
    config: JsonView,
    context: JsonView,
    input: Option<JsonView>,
    side: Seq<char>,
) -> Option<i64> {
    if spec_revenge_flip_buy_uses_auto_source_trade(config, side) {
        None
    } else {
        positive(match spec_config_or_context_source_trade_id(config, context) {
            Some(v) => Some(v),
            None => positive(match input {
                Some(doc) => first_key_i64(doc, seq!["sourceTradeId"@, "source_trade_id"@]),
                None => None,
            }),
        })
    }
}

pub fn resolve_action_place_order_source_trade_id(
    node: &TradeFlowNode,
    context: &JsonValue,
    step: &TradeFlowRunStep,
    side: &str,
) -> (r: Option<i64>)
    ensures
        r == spec_action_place_order_source_trade_id(node.config@, context@, step_input(step), side@),
{
    if action_place_order_revenge_flip_buy_uses_auto_source_trade(node, side) {
        return None;
    }
    let found = match config_or_context_source_trade_id(node, context) {
        Some(v) => Some(v),
        None => {
            let keys = ["sourceTradeId", "source_trade_id"];
            let from_step = step_input_i64(step, &keys);
            assert(key_views(keys@) =~= seq!["sourceTradeId"@, "source_trade_id"@]);
            positive_id(from_step)
        },
    };
    positive_id(found)
}

/// The output of a step skipped because its market window was replaced.
pub open spec fn spec_stale_market_output(
    node_key: Seq<char>,
    stale_market_slug: Seq<char>,
    current_market_slug: Seq<char>,
    token_id: Option<Seq<char>>,
    outcome_label: Option<Seq<char>>,
    side: Seq<char>,
    execution_mode: Seq<char>,
) -> JsonView {
    JsonView::Object(seq![
        ("node_key"@, JsonView::Str(node_key)),
        ("skipped"@, JsonView::Bool(true)),
        ("reason"@, JsonView::Str("stale_market_retry_skipped"@)),
        ("market_slug"@, JsonView::Str(current_market_slug)),
        ("stale_market_slug"@, JsonView::Str(stale_market_slug)),
        ("token_id"@, opt_text_view(token_id)),
        ("outcome_label"@, opt_text_view(outcome_label)),
        ("side"@, JsonView::Str(side)),
        ("execution_mode"@, JsonView::Str(execution_mode)),
    ])
}

pub open spec fn opt_str_view(s: Option<&str>) -> Option<Seq<char>> {
    match s {
        Some(s) => Some(s@),
        None => None,
    }
}

pub fn build_action_place_order_stale_market_skipped_execution(
    node: &TradeFlowNode,
    stale_market_slug: &str,
    current_market_slug: &str,
    token_id: Option<&str>,
    outcome_label: Option<&str>,
    side: &str,
    execution_mode: &str,
) -> (r: TradeFlowNodeExecution)
    ensures
        r.output@ == spec_stale_market_output(
            node.key@,
            stale_market_slug@,
            current_market_slug@,
            opt_str_view(token_id),
            opt_str_view(outcome_label),
            side@,
            execution_mode@,
        ),
        r.routes@.len() == 0,
        r.repeat_at is None,
        r.repeat_idempotency_key is None,
{
    let mut m: Vec<(String, JsonValue)> = Vec::new();
    push_member(&mut m, "node_key", JsonValue::Str(node.key.clone()));
    push_member(&mut m, "skipped", JsonValue::Bool(true));
    push_member(&mut m, "reason", JsonValue::from_str("stale_market_retry_skipped"));
    push_member(&mut m, "market_slug", JsonValue::from_str(current_market_slug));
    push_member(&mut m, "stale_market_slug", JsonValue::from_str(stale_market_slug));
    push_member(&mut m, "token_id", JsonValue::from_opt_str(token_id));
    push_member(&mut m, "outcome_label", JsonValue::from_opt_str(outcome_label));
    push_member(&mut m, "side", JsonValue::from_str(side));
    push_member(&mut m, "execution_mode", JsonValue::from_str(execution_mode));
    let ghost expected = spec_stale_market_output(
        node.key@,
        stale_market_slug@,
        current_market_slug@,
        opt_str_view(token_id),
        opt_str_view(outcome_label),
        side@,
        execution_mode@,
    );
    assert(view_members(m@) =~= expected->Object_0);
    let output = object_from(m);
    TradeFlowNodeExecution { output, routes: Vec::new(), repeat_at: None, repeat_idempotency_key: None }
}

/// The output that blocks an action whose upstream trigger reported an
/// error: `None` unless the step input holds a non-blank `error` string.
pub open spec fn spec_upstream_error_output(node_key: Seq<char>, config: JsonView, input: Option<JsonView>) -> Option<JsonView> {
    match input {
        None => None,
        Some(doc) => match opt_as_str(doc.get("error"@)) {
            None => None,
            Some(e) => if trim(e).len() == 0 {
                None
            } else {
                Some(JsonView::Object(seq![
                    ("node_key"@, JsonView::Str(node_key)),
                    ("blocked"@, JsonView::Bool(true)),
                    ("skipped"@, JsonView::Bool(true)),
                    ("reason"@, JsonView::Str("upstream_trigger_error"@)),
                    ("upstream_error"@, JsonView::Str(trim(e))),
                    ("upstream_node_key"@, opt_text_view(opt_as_str(doc.get("node_key"@)))),
                    ("upstream_node_type"@, opt_text_view(opt_as_str(doc.get("node_type"@)))),
                    ("side"@, opt_text_view(opt_as_str(config.get("side"@)))),
                    ("execution_mode"@, opt_text_view(opt_as_str(config.get("executionMode"@)))),
                ]))
            },
        },
    }
}

/// A string member of a document, copied.
fn member_string(doc: &JsonValue, key: &str) -> (r: Option<String>)
    ensures
        match r {
            Some(s) => opt_as_str(doc@.get(key@)) == Some(s@),
            None => opt_as_str(doc@.get(key@)) is None,
        },
{
    match doc.get(key) {
        Some(v) => match v.as_str() {
            Some(s) => Some(s.to_string()),
            None => None,
        },
        None => None,
    }
}

pub fn maybe_block_action_place_order_upstream_error(
    node: &TradeFlowNode,
    step: &TradeFlowRunStep,
) -> (r: Option<TradeFlowNodeExecution>)
    ensures
        match r {
            Some(e) => spec_upstream_error_output(node.key@, node.config@, step_input(step)) == Some(e.output@)
                && e.routes@.len() == 0 && e.repeat_at is None && e.repeat_idempotency_key is None,
            None => spec_upstream_error_output(node.key@, node.config@, step_input(step)) is None,
        },
{
    let input = match &step.input_json {
        Some(v) => v,
        None => return None,
    };
    let raw = match member_string(input, "error") {
        Some(e) => e,
        None => return None,
    };
    let upstream_error = trimmed(raw.as_str());
    if upstream_error.as_str().unicode_len() == 0 {
        return None;
    }
    let ghost e = raw@;
    let mut m: Vec<(String, JsonValue)> = Vec::new();
    push_member(&mut m, "node_key", JsonValue::Str(node.key.clone()));
    push_member(&mut m, "blocked", JsonValue::Bool(true));
    push_member(&mut m, "skipped", JsonValue::Bool(true));
    push_member(&mut m, "reason", JsonValue::from_str("upstream_trigger_error"));
    push_member(&mut m, "upstream_error", JsonValue::Str(upstream_error));
    push_member(&mut m, "upstream_node_key", JsonValue::from_opt_string(member_string(input, "node_key")));
    push_member(&mut m, "upstream_node_type", JsonValue::from_opt_string(member_string(input, "node_type")));
    push_member(&mut m, "side", JsonValue::from_opt_string(node_config_string(node, "side")));
    push_member(&mut m, "execution_mode", JsonValue::from_opt_string(node_config_string(node, "executionMode")));
    let ghost expected = spec_upstream_error_output(node.key@, node.config@, step_input(step));
    assert(view_members(m@) =~= expected->Some_0->Object_0);
    let output = object_from(m);
    Some(TradeFlowNodeExecution { output, routes: Vec::new(), repeat_at: None, repeat_idempotency_key: None })
}

/// The market, token and outcome an `action.place_order` node trades.
pub struct ActionPlaceOrderIdentity {
    pub market_slug: String,
    pub token_id: String,
    pub outcome_label: String,
}

/// Why the node's market or token is unknown.
#[derive(Debug, PartialEq, Eq)]
pub enum ActionPlaceOrderIdentityError {
    MissingMarketSlug,
    MissingTokenId,
}

impl ActionPlaceOrderIdentityError {
    /// The error's message.
    pub fn message(&self) -> (r: &'static str)
        ensures
            r@ == match self {
                ActionPlaceOrderIdentityError::MissingMarketSlug => "action.place_order requires marketSlug"@,
                ActionPlaceOrderIdentityError::MissingTokenId => "action.place_order requires tokenId"@,
            },
    {
        match self {
            ActionPlaceOrderIdentityError::MissingMarketSlug => "action.place_order requires marketSlug",
            ActionPlaceOrderIdentityError::MissingTokenId => "action.place_order requires tokenId",
        }
    }
}

/// A text setting of the node: from its configuration, else the flow
/// context, else the first of `step_keys` in the step input.
pub open spec fn spec_place_order_string(config: JsonView, context: JsonView, input: Option<JsonView>, config_key: Seq<char>, context_key: Seq<char>, step_keys: Seq<Seq<char>>) -> Option<Seq<char>> {
    match opt_as_str(config.get(config_key)) {
        Some(s) => Some(s),
        None => match opt_as_str(opt_get(flow_context_view(context), context_key)) {
            Some(s) => Some(s),
            None => match input {
                Some(doc) => first_key_str(doc, step_keys),
                None => None,
            },
        },
    }
}

fn resolve_action_place_order_string(node: &TradeFlowNode, context: &JsonValue, step: &TradeFlowRunStep, config_key: &str, context_key: &str, step_keys: &[&str]) -> (r: Option<String>)
    ensures
        match r {
            Some(s) => spec_place_order_string(node.config@, context@, step_input(step), config_key@, context_key@, key_views(step_keys@)) == Some(s@),
            None => spec_place_order_string(node.config@, context@, step_input(step), config_key@, context_key@, key_views(step_keys@)) is None,
        },
{
    match node_config_string(node, config_key) {
        Some(s) => Some(s),
        None => match flow_context_string(context, context_key) {
            Some(s) => Some(s),
            None => step_input_string(step, step_keys),
        },
    }
}

/// A text the node's trigger cached in the run's node state
/// (`nodeState.<node key>.<field>`).
pub open spec fn spec_node_state_string(context: JsonView, node_key: Seq<char>, field: Seq<char>) -> Option<Seq<char>> {
    opt_as_str(opt_get(opt_get(context.get("nodeState"@), node_key), field))
}

fn node_state_string(context: &JsonValue, node_key: &str, field: &str) -> (r: Option<String>)
    ensures
        match r {
            Some(s) => spec_node_state_string(context@, node_key@, field@) == Some(s@),
            None => spec_node_state_string(context@, node_key@, field@) is None,
        },
{
    let state = match context.get("nodeState") {
        Some(v) => v,
        None => return None,
    };
    let node_state = match state.get(node_key) {
        Some(v) => v,
        None => return None,
    };
    match node_state.get(field) {
        Some(v) => match v.as_str() {
            Some(s) => Some(s.to_string()),
            None => None,
        },
        None => None,
    }
}

/// A token id of the pair: the node's cached auto-scope token, else the
/// flow context's.
pub open spec fn spec_pair_token_id(context: JsonView, node_key: Seq<char>, state_field: Seq<char>, context_key: Seq<char>) -> Option<Seq<char>> {
    match spec_node_state_string(context, node_key, state_field) {
        Some(t) => Some(t),
        None => opt_as_str(opt_get(flow_context_view(context), context_key)),
    }
}

fn pair_token_id(context: &JsonValue, node_key: &str, state_field: &str, context_key: &str) -> (r: Option<String>)
    ensures
        match r {
            Some(s) => spec_pair_token_id(context@, node_key@, state_field@, context_key@) == Some(s@),
            None => spec_pair_token_id(context@, node_key@, state_field@, context_key@) is None,
        },
{
    match node_state_string(context, node_key, state_field) {
        Some(t) => Some(t),
        None => flow_context_string(context, context_key),
    }
}

/// Whether a buy of this node picks its side by the exchanges' consensus
/// (`priceToBeatEarlyStaleSideEnabled`).
pub open spec fn spec_early_stale_side_enabled(config: JsonView, side: Seq<char>) -> bool {
    side == "buy"@ && opt_as_bool(config.get("priceToBeatEarlyStaleSideEnabled"@)) == Some(true)
}

pub fn action_place_order_early_stale_side_enabled(node: &TradeFlowNode, side: &str) -> (r: bool)
    ensures
        r == spec_early_stale_side_enabled(node.config@, side@),
{
    str_eq(side, "buy") && node_config_bool(node, "priceToBeatEarlyStaleSideEnabled") == Some(true)
}

/// The identity of an early stale-side buy: on an up/down market whose pair
/// of tokens is known, the down token when the exchanges' consensus is
/// `down`, the up token otherwise.
pub open spec fn spec_early_stale_identity(config: JsonView, node_key: Seq<char>, context: JsonView, market_slug: Seq<char>, side: Seq<char>, consensus_side: Option<Seq<char>>) -> Option<(Seq<char>, Seq<char>, Seq<char>)> {
    if !spec_early_stale_side_enabled(config, side) || spec_updown_asset(market_slug) is None {
        None
    } else {
        match (spec_pair_token_id(context, node_key, "auto_scope_yes_token_id"@, "yesTokenId"@),
               spec_pair_token_id(context, node_key, "auto_scope_no_token_id"@, "noTokenId"@)) {
            (Some(yes), Some(no)) => if consensus_side == Some("down"@) {
                Some((market_slug, no, "Down"@))
            } else {
                Some((market_slug, yes, "Up"@))
            },
            _ => None,
        }
    }
}

pub open spec fn identity_view(i: &ActionPlaceOrderIdentity) -> (Seq<char>, Seq<char>, Seq<char>) {
    (i.market_slug@, i.token_id@, i.outcome_label@)
}

/// The identity of an early stale-side buy. `consensus_side` is the side
/// that the exchanges' microstructure consensus points to, when it has one.
pub fn resolve_early_stale_side_action_identity(node: &TradeFlowNode, context: &JsonValue, market_slug: &str, side: &str, consensus_side: Option<&str>) -> (r: Option<ActionPlaceOrderIdentity>)
    ensures
        match r {
            Some(i) => spec_early_stale_identity(node.config@, node.key@, context@, market_slug@, side@, opt_str_view(consensus_side)) == Some(identity_view(&i)),
            None => spec_early_stale_identity(node.config@, node.key@, context@, market_slug@, side@, opt_str_view(consensus_side)) is None,
        },
{
    if !action_place_order_early_stale_side_enabled(node, side) {
        return None;
    }
    if find_updown_asset(market_slug).is_none() {
        return None;
    }
    let yes = match pair_token_id(context, node.key.as_str(), "auto_scope_yes_token_id", "yesTokenId") {
        Some(t) => t,
        None => return None,
    };
    let no = match pair_token_id(context, node.key.as_str(), "auto_scope_no_token_id", "noTokenId") {
        Some(t) => t,
        None => return None,
    };
    let down = match consensus_side {
        Some(c) => str_eq(c, "down"),
        None => false,
    };
    if down {
        Some(ActionPlaceOrderIdentity { market_slug: market_slug.to_string(), token_id: no, outcome_label: "Down".to_string() })
    } else {
        Some(ActionPlaceOrderIdentity { market_slug: market_slug.to_string(), token_id: yes, outcome_label: "Up".to_string() })
    }
}

pub open spec fn market_slug_keys() -> Seq<Seq<char>> {
    seq!["market_slug"@, "marketSlug"@, "wsMarketSlug"@]
}

pub open spec fn token_id_keys() -> Seq<Seq<char>> {
    seq!["triggered_token_id"@, "tokenId"@]
}

pub open spec fn outcome_label_keys() -> Seq<Seq<char>> {
    seq!["triggered_outcome_label"@, "outcomeLabel"@]
}

/// The identity of the node's order: the market from the node, the flow
/// context or the step; an early stale-side buy then picks its token by the
/// consensus; otherwise the token and outcome come the same way, the
/// outcome defaulting to the token id.
pub open spec fn spec_action_place_order_identity(node: &TradeFlowNode, context: JsonView, input: Option<JsonView>, side: Seq<char>, consensus_side: Option<Seq<char>>) -> Result<(Seq<char>, Seq<char>, Seq<char>), ActionPlaceOrderIdentityError> {
    match spec_place_order_string(node.config@, context, input, "marketSlug"@, "marketSlug"@, market_slug_keys()) {
        None => Err(ActionPlaceOrderIdentityError::MissingMarketSlug),
        Some(market) => match spec_early_stale_identity(node.config@, node.key@, context, market, side, consensus_side) {
            Some(id) => Ok(id),
            None => match spec_place_order_string(node.config@, context, input, "tokenId"@, "tokenId"@, token_id_keys()) {
                None => Err(ActionPlaceOrderIdentityError::MissingTokenId),
                Some(token) => Ok((market, token,
                    match spec_place_order_string(node.config@, context, input, "outcomeLabel"@, "outcomeLabel"@, outcome_label_keys()) {
                        Some(label) => label,
                        None => token,
                    })),
            },
        },
    }
}

/// Resolves the market, token and outcome of the node's order.
/// `consensus_side` is the exchanges' consensus side, consulted only for an
/// early stale-side buy.
pub fn resolve_action_place_order_identity(node: &TradeFlowNode, context: &JsonValue, step: &TradeFlowRunStep, side: &str, consensus_side: Option<&str>) -> (r: Result<ActionPlaceOrderIdentity, ActionPlaceOrderIdentityError>)
    ensures
        match r {
            Ok(i) => spec_action_place_order_identity(node, context@, step_input(step), side@, opt_str_view(consensus_side)) == Ok::<(Seq<char>, Seq<char>, Seq<char>), ActionPlaceOrderIdentityError>(identity_view(&i)),
            Err(e) => spec_action_place_order_identity(node, context@, step_input(step), side@, opt_str_view(consensus_side)) == Err::<(Seq<char>, Seq<char>, Seq<char>), ActionPlaceOrderIdentityError>(e),
        },
{
    let market_keys = ["market_slug", "marketSlug", "wsMarketSlug"];
    assert(key_views(market_keys@) =~= market_slug_keys());
    let market_slug = match resolve_action_place_order_string(node, context, step, "marketSlug", "marketSlug", &market_keys) {
        Some(m) => m,
        None => return Err(ActionPlaceOrderIdentityError::MissingMarketSlug),
    };
    match resolve_early_stale_side_action_identity(node, context, market_slug.as_str(), side, consensus_side) {
        Some(identity) => return Ok(identity),
        None => {},
    }
    let token_keys = ["triggered_token_id", "tokenId"];
    assert(key_views(token_keys@) =~= token_id_keys());
    let token_id = match resolve_action_place_order_string(node, context, step, "tokenId", "tokenId", &token_keys) {
        Some(t) => t,
        None => return Err(ActionPlaceOrderIdentityError::MissingTokenId),
    };
    let label_keys = ["triggered_outcome_label", "outcomeLabel"];
    assert(key_views(label_keys@) =~= outcome_label_keys());
    let outcome_label = match resolve_action_place_order_string(node, context, step, "outcomeLabel", "outcomeLabel", &label_keys) {
        Some(l) => l,
        None => token_id.clone(),
    };
    Ok(ActionPlaceOrderIdentity { market_slug, token_id, outcome_label })
}

} // verus!
