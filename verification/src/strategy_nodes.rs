//! Reading the configuration and order markers of the strategy nodes
//! (confidence ladder, average-rebound pair-lock rescue), and the
//! executions they return when they skip.
use vstd::prelude::*;
use crate::flow::{
    TradeFlowNode, TradeFlowRunStep, TradeFlowNodeExecution, node_config_string, flow_context_view,
    first_key_str, key_views, step_input, step_input_string, flow_context_string,
};
use crate::json::{
    JsonValue, JsonView, opt_as_bool, opt_as_i64, opt_as_str, opt_get, opt_view, view_members,
    push_member, object_from,
};
use crate::text::{str_eq, lower, trim, trimmed, trimmed_lower, trimmed_non_empty};
use crate::flow::{TradeFlowGraphRuntime, node_index, flow_node};
use crate::market_scope::{spec_updown_asset, find_updown_asset};

verus! {

broadcast use vstd::string::group_string_axioms;

pub const ACTION_PLACE_ORDER_MODE_SINGLE: &'static str = "single";
pub const ACTION_PLACE_ORDER_MODE_CONFIDENCE_LADDER_HEDGE_LOCK_V1: &'static str = "confidence_ladder_hedge_lock_v1";
pub const ACTION_PLACE_ORDER_MODE_AVG_REBOUND_PAIRLOCK_RESCUE_V1: &'static str = "avg_rebound_pairlock_rescue_v1";
pub const CONFIDENCE_LADDER_CONFIG_KEY: &'static str = "confidenceLadder";
pub const CONFIDENCE_LADDER_ORDER_MARKER_KEY: &'static str = "confidenceLadderOrder";
pub const CONFIDENCE_LADDER_SIDE_KEY: &'static str = "confidenceLadderSide";
pub const AVG_REBOUND_PAIRLOCK_RESCUE_CONFIG_KEY: &'static str = "avgReboundPairlockRescue";
pub const AVG_REBOUND_PAIRLOCK_RESCUE_ORDER_MARKER_KEY: &'static str = "avgReboundPairlockRescueOrder";

/// The mode of an `action.place_order` node: its `mode`, trimmed and
/// lower-cased, `single` when it has none.
pub open spec fn spec_action_place_order_mode(config: JsonView) -> Seq<char> {
    match opt_as_str(config.get("mode"@)) {
        Some(m) => lower(trim(m)),
        None => ACTION_PLACE_ORDER_MODE_SINGLE@,
    }
}

pub fn action_place_order_mode(node: &TradeFlowNode) -> (r: String)
    ensures
        r@ == spec_action_place_order_mode(node.config@),
{
    match node_config_string(node, "mode") {
        Some(m) => trimmed_lower(m.as_str()),
        None => ACTION_PLACE_ORDER_MODE_SINGLE.to_string(),
    }
}

pub fn action_place_order_uses_confidence_ladder(node: &TradeFlowNode) -> (r: bool)
    ensures
        r == (spec_action_place_order_mode(node.config@) == ACTION_PLACE_ORDER_MODE_CONFIDENCE_LADDER_HEDGE_LOCK_V1@),
{
    let mode = action_place_order_mode(node);
    str_eq(mode.as_str(), ACTION_PLACE_ORDER_MODE_CONFIDENCE_LADDER_HEDGE_LOCK_V1)
}

pub fn action_place_order_uses_avg_rebound_pairlock_rescue(node: &TradeFlowNode) -> (r: bool)
    ensures
        r == (spec_action_place_order_mode(node.config@) == ACTION_PLACE_ORDER_MODE_AVG_REBOUND_PAIRLOCK_RESCUE_V1@),
{
    let mode = action_place_order_mode(node);
    str_eq(mode.as_str(), ACTION_PLACE_ORDER_MODE_AVG_REBOUND_PAIRLOCK_RESCUE_V1)
}

/// A strategy setting: from the strategy's own section of the node
/// configuration, else from the configuration itself.
pub open spec fn spec_section_value(config: JsonView, section: Seq<char>, key: Seq<char>) -> Option<JsonView> {
    match opt_get(config.get(section), key) {
        Some(v) => Some(v),
        None => config.get(key),
    }
}

pub fn confidence_ladder_raw_config(node: &TradeFlowNode) -> (r: Option<&JsonValue>)
    ensures
        opt_view(r) == node.config@.get(CONFIDENCE_LADDER_CONFIG_KEY@),
{
    node.config.get(CONFIDENCE_LADDER_CONFIG_KEY)
}

pub fn confidence_ladder_config_value<'a>(node: &'a TradeFlowNode, key: &str) -> (r: Option<&'a JsonValue>)
    ensures
        opt_view(r) == spec_section_value(node.config@, CONFIDENCE_LADDER_CONFIG_KEY@, key@),
{
    let inner = match confidence_ladder_raw_config(node) {
        Some(section) => section.get(key),
        None => None,
    };
    match inner {
        Some(v) => Some(v),
        None => node.config.get(key),
    }
}

pub fn confidence_ladder_config_i64(node: &TradeFlowNode, key: &str) -> (r: Option<i64>)
    ensures
        r == opt_as_i64(spec_section_value(node.config@, CONFIDENCE_LADDER_CONFIG_KEY@, key@)),
{
    match confidence_ladder_config_value(node, key) {
        Some(v) => v.as_i64(),
        None => None,
    }
}

/// A flag written as a text: true/1/yes/on and false/0/no/off, up to case
/// and surrounding whitespace.
pub open spec fn spec_flag_text(s: Seq<char>) -> Option<bool> {
    let n = lower(trim(s));
    if n == "true"@ || n == "1"@ || n == "yes"@ || n == "on"@ {
        Some(true)
    } else if n == "false"@ || n == "0"@ || n == "no"@ || n == "off"@ {
        Some(false)
    } else {
        None
    }
}

fn flag_text(s: &str) -> (r: Option<bool>)
    ensures
        r == spec_flag_text(s@),
{
    let n = trimmed_lower(s);
    let t = n.as_str();
    if str_eq(t, "true") || str_eq(t, "1") || str_eq(t, "yes") || str_eq(t, "on") {
        Some(true)
    } else if str_eq(t, "false") || str_eq(t, "0") || str_eq(t, "no") || str_eq(t, "off") {
        Some(false)
    } else {
        None
    }
}

/// A flag of the confidence-ladder node: a boolean, a non-zero integer, or a
/// flag text.
pub open spec fn spec_confidence_ladder_flag(v: Option<JsonView>) -> Option<bool> {
    match v {
        Some(JsonView::Bool(b)) => Some(b),
        Some(JsonView::Int(i)) => if i64::MIN <= i <= i64::MAX { Some(i != 0) } else { None },
        Some(JsonView::Str(s)) => spec_flag_text(s),
        _ => None,
    }
}

pub fn confidence_ladder_config_bool(node: &TradeFlowNode, key: &str) -> (r: Option<bool>)
    ensures
        r == spec_confidence_ladder_flag(spec_section_value(node.config@, CONFIDENCE_LADDER_CONFIG_KEY@, key@)),
{
    match confidence_ladder_config_value(node, key) {
        Some(v) => match v {
            JsonValue::Bool(b) => Some(*b),
            JsonValue::Int(i) => Some(*i != 0),
            JsonValue::UInt(u) => if *u <= i64::MAX as u64 { Some(*u != 0) } else { None },
            JsonValue::Str(s) => flag_text(s.as_str()),
            _ => None,
        },
        None => None,
    }
}

pub fn avg_rebound_config_root(node: &TradeFlowNode) -> (r: Option<&JsonValue>)
    ensures
        opt_view(r) == node.config@.get(AVG_REBOUND_PAIRLOCK_RESCUE_CONFIG_KEY@),
{
    node.config.get(AVG_REBOUND_PAIRLOCK_RESCUE_CONFIG_KEY)
}

pub fn avg_rebound_config_value<'a>(node: &'a TradeFlowNode, key: &str) -> (r: Option<&'a JsonValue>)
    ensures
        opt_view(r) == spec_section_value(node.config@, AVG_REBOUND_PAIRLOCK_RESCUE_CONFIG_KEY@, key@),
{
    let inner = match avg_rebound_config_root(node) {
        Some(section) => section.get(key),
        None => None,
    };
    match inner {
        Some(v) => Some(v),
        None => node.config.get(key),
    }
}

/// A text setting: the trimmed string when not blank, else the default.
pub open spec fn spec_value_string(v: Option<JsonView>, default: Seq<char>) -> Seq<char> {
    match opt_as_str(v) {
        Some(s) => if trim(s).len() > 0 { trim(s) } else { default },
        None => default,
    }
}

pub fn avg_rebound_value_string(value: Option<&JsonValue>, default: &str) -> (r: String)
    ensures
        r@ == spec_value_string(opt_view(value), default@),
{
    let s = match value {
        Some(v) => v.as_str(),
        None => None,
    };
    match s {
        Some(s) => match trimmed_non_empty(s) {
            Some(t) => t,
            None => default.to_string(),
        },
        None => default.to_string(),
    }
}

/// A flag setting: a boolean or a flag text, else the default.
pub open spec fn spec_value_bool(v: Option<JsonView>, default: bool) -> bool {
    match v {
        Some(JsonView::Bool(b)) => b,
        Some(JsonView::Str(s)) => match spec_flag_text(s) {
            Some(b) => b,
            None => default,
        },
        _ => default,
    }
}

pub fn avg_rebound_value_bool(value: Option<&JsonValue>, default: bool) -> (r: bool)
    ensures
        r == spec_value_bool(opt_view(value), default),
{
    match value {
        Some(JsonValue::Bool(b)) => *b,
        Some(JsonValue::Str(s)) => match flag_text(s.as_str()) {
            Some(b) => b,
            None => default,
        },
        _ => default,
    }
}

/// Why a strategy node cannot run.
#[derive(Debug, PartialEq, Eq)]
pub enum StrategyNodeError {
    /// No market slug in the step input, the flow context or the node.
    MissingMarketSlug,
}

/// The market of a strategy step: from the step input, else the flow
/// context, else the node configuration; trimmed, and not blank.
pub open spec fn spec_strategy_market_slug(config: JsonView, input: Option<JsonView>, context: JsonView) -> Option<Seq<char>> {
    let raw = match match input {
        Some(doc) => first_key_str(doc, seq!["marketSlug"@, "market_slug"@, "wsMarketSlug"@]),
        None => None,
    } {
        Some(s) => Some(s),
        None => match opt_as_str(opt_get(flow_context_view(context), "marketSlug"@)) {
            Some(s) => Some(s),
            None => opt_as_str(config.get("marketSlug"@)),
        },
    };
    match raw {
        Some(s) => if trim(s).len() > 0 { Some(trim(s)) } else { None },
        None => None,
    }
}

fn strategy_market_slug(node: &TradeFlowNode, step: &TradeFlowRunStep, context: &JsonValue) -> (r: Result<String, StrategyNodeError>)
    ensures
        match r {
            Ok(s) => spec_strategy_market_slug(node.config@, step_input(step), context@) == Some(s@),
            Err(e) => spec_strategy_market_slug(node.config@, step_input(step), context@) is None
                && e == StrategyNodeError::MissingMarketSlug,
        },
{
    let keys = ["marketSlug", "market_slug", "wsMarketSlug"];
    assert(key_views(keys@) =~= seq!["marketSlug"@, "market_slug"@, "wsMarketSlug"@]);
    let raw = match step_input_string(step, &keys) {
        Some(s) => Some(s),
        None => match flow_context_string(context, "marketSlug") {
            Some(s) => Some(s),
            None => node_config_string(node, "marketSlug"),
        },
    };
    match raw {
        Some(s) => match trimmed_non_empty(s.as_str()) {
            Some(t) => Ok(t),
            None => Err(StrategyNodeError::MissingMarketSlug),
        },
        None => Err(StrategyNodeError::MissingMarketSlug),
    }
}

pub fn confidence_ladder_market_slug(node: &TradeFlowNode, step: &TradeFlowRunStep, context: &JsonValue) -> (r: Result<String, StrategyNodeError>)
    ensures
        match r {
            Ok(s) => spec_strategy_market_slug(node.config@, step_input(step), context@) == Some(s@),
            Err(e) => spec_strategy_market_slug(node.config@, step_input(step), context@) is None
                && e == StrategyNodeError::MissingMarketSlug,
        },
{
    strategy_market_slug(node, step, context)
}

pub fn avg_rebound_market_slug(node: &TradeFlowNode, step: &TradeFlowRunStep, context: &JsonValue) -> (r: Result<String, StrategyNodeError>)
    ensures
        match r {
            Ok(s) => spec_strategy_market_slug(node.config@, step_input(step), context@) == Some(s@),
            Err(e) => spec_strategy_market_slug(node.config@, step_input(step), context@) is None
                && e == StrategyNodeError::MissingMarketSlug,
        },
{
    strategy_market_slug(node, step, context)
}

/// The other side of a binary market: `up` for `down`, `down` otherwise.
pub fn confidence_ladder_opposite_side(side: &str) -> (r: &'static str)
    ensures
        r@ == if side@ == "down"@ { "up"@ } else { "down"@ },
{
    if str_eq(side, "down") {
        "up"
    } else {
        "down"
    }
}

/// The output of a strategy node that skipped.
pub open spec fn spec_strategy_skipped_output(node_key: Seq<char>, mode: Seq<char>, market_slug: Seq<char>, reason: Seq<char>, details: JsonView) -> JsonView {
    JsonView::Object(seq![
        ("node_key"@, JsonView::Str(node_key)),
        ("mode"@, JsonView::Str(mode)),
        ("market_slug"@, JsonView::Str(market_slug)),
        ("skipped"@, JsonView::Bool(true)),
        ("reason"@, JsonView::Str(reason)),
        ("details"@, details),
    ])
}

fn strategy_output_skipped(node: &TradeFlowNode, mode: &str, market_slug: &str, reason: &str, details: JsonValue) -> (r: TradeFlowNodeExecution)
    ensures
        r.output@ == spec_strategy_skipped_output(node.key@, mode@, market_slug@, reason@, details@),
        r.routes@.len() == 0,
        r.repeat_at is None,
        r.repeat_idempotency_key is None,
{
    let ghost d = details@;
    let mut m: Vec<(String, JsonValue)> = Vec::new();
    push_member(&mut m, "node_key", JsonValue::Str(node.key.clone()));
    push_member(&mut m, "mode", JsonValue::from_str(mode));
    push_member(&mut m, "market_slug", JsonValue::from_str(market_slug));
    push_member(&mut m, "skipped", JsonValue::Bool(true));
    push_member(&mut m, "reason", JsonValue::from_str(reason));
    push_member(&mut m, "details", details);
    assert(view_members(m@) =~= spec_strategy_skipped_output(node.key@, mode@, market_slug@, reason@, d)->Object_0);
    let output = object_from(m);
    TradeFlowNodeExecution { output, routes: Vec::new(), repeat_at: None, repeat_idempotency_key: None }
}

pub fn confidence_ladder_output_skipped(node: &TradeFlowNode, market_slug: &str, reason: &str, details: JsonValue) -> (r: TradeFlowNodeExecution)
    ensures
        r.output@ == spec_strategy_skipped_output(node.key@, ACTION_PLACE_ORDER_MODE_CONFIDENCE_LADDER_HEDGE_LOCK_V1@, market_slug@, reason@, details@),
        r.routes@.len() == 0,
        r.repeat_at is None,
        r.repeat_idempotency_key is None,
{
    strategy_output_skipped(node, ACTION_PLACE_ORDER_MODE_CONFIDENCE_LADDER_HEDGE_LOCK_V1, market_slug, reason, details)
}

pub fn avg_rebound_output_skipped(node: &TradeFlowNode, market_slug: &str, reason: &str, details: JsonValue) -> (r: TradeFlowNodeExecution)
    ensures
        r.output@ == spec_strategy_skipped_output(node.key@, ACTION_PLACE_ORDER_MODE_AVG_REBOUND_PAIRLOCK_RESCUE_V1@, market_slug@, reason@, details@),
        r.routes@.len() == 0,
        r.repeat_at is None,
        r.repeat_idempotency_key is None,
{
    strategy_output_skipped(node, ACTION_PLACE_ORDER_MODE_AVG_REBOUND_PAIRLOCK_RESCUE_V1, market_slug, reason, details)
}

/// The action-node configuration recorded in an order payload
/// (`/node_snapshot/action_node/config`), when it carries the marker.
pub open spec fn spec_marker_config(payload: JsonView, marker: Seq<char>) -> Option<JsonView> {
    match opt_get(opt_get(payload.get("node_snapshot"@), "action_node"@), "config"@) {
        Some(c) => if opt_as_bool(c.get(marker)) == Some(true) { Some(c) } else { None },
        None => None,
    }
}

fn marker_config<'a>(payload: &'a JsonValue, marker: &str) -> (r: Option<&'a JsonValue>)
    ensures
        opt_view(r) == spec_marker_config(payload@, marker@),
{
    let snapshot = match payload.get("node_snapshot") {
        Some(v) => v,
        None => return None,
    };
    let action = match snapshot.get("action_node") {
        Some(v) => v,
        None => return None,
    };
    let config = match action.get("config") {
        Some(v) => v,
        None => return None,
    };
    let marked = match config.get(marker) {
        Some(v) => match v.as_bool() {
            Some(b) => b,
            None => false,
        },
        None => false,
    };
    if marked { Some(config) } else { None }
}

pub fn confidence_ladder_marker_config(payload: &JsonValue) -> (r: Option<&JsonValue>)
    ensures
        opt_view(r) == spec_marker_config(payload@, CONFIDENCE_LADDER_ORDER_MARKER_KEY@),
{
    marker_config(payload, CONFIDENCE_LADDER_ORDER_MARKER_KEY)
}

pub fn avg_rebound_marker_config(payload: &JsonValue) -> (r: Option<&JsonValue>)
    ensures
        opt_view(r) == spec_marker_config(payload@, AVG_REBOUND_PAIRLOCK_RESCUE_ORDER_MARKER_KEY@),
{
    marker_config(payload, AVG_REBOUND_PAIRLOCK_RESCUE_ORDER_MARKER_KEY)
}

/// The non-blank trimmed text of a marker.
pub open spec fn spec_marker_string(config: JsonView, key: Seq<char>) -> Option<Seq<char>> {
    match opt_as_str(config.get(key)) {
        Some(s) => if trim(s).len() > 0 { Some(trim(s)) } else { None },
        None => None,
    }
}

fn marker_string(config: &JsonValue, key: &str) -> (r: Option<String>)
    ensures
        crate::order::opt_text(r) == spec_marker_string(config@, key@),
{
    match config.get(key) {
        Some(v) => match v.as_str() {
            Some(s) => trimmed_non_empty(s),
            None => None,
        },
        None => None,
    }
}

pub fn confidence_ladder_marker_string(config: &JsonValue, key: &str) -> (r: Option<String>)
    ensures
        crate::order::opt_text(r) == spec_marker_string(config@, key@),
{
    marker_string(config, key)
}

pub fn avg_rebound_marker_string(config: &JsonValue, key: &str) -> (r: Option<String>)
    ensures
        crate::order::opt_text(r) == spec_marker_string(config@, key@),
{
    marker_string(config, key)
}

pub fn avg_rebound_marker_i64(config: &JsonValue, key: &str) -> (r: Option<i64>)
    ensures
        r == opt_as_i64(config@.get(key@)),
{
    match config.get(key) {
        Some(v) => v.as_i64(),
        None => None,
    }
}

/// The side of a binary market that an outcome label names: `yes` for
/// yes/up, `no` for no/down, up to case and surrounding whitespace.
pub open spec fn spec_binary_outcome(label: Seq<char>) -> Option<Seq<char>> {
    let n = lower(trim(label));
    if n == "yes"@ || n == "up"@ {
        Some("yes"@)
    } else if n == "no"@ || n == "down"@ {
        Some("no"@)
    } else {
        None
    }
}

pub fn normalize_pair_lock_binary_outcome(label: &str) -> (r: Option<&'static str>)
    ensures
        crate::exit_errors::opt_str_text(r) == spec_binary_outcome(label@),
{
    let n = trimmed_lower(label);
    let s = n.as_str();
    if str_eq(s, "yes") || str_eq(s, "up") {
        Some("yes")
    } else if str_eq(s, "no") || str_eq(s, "down") {
        Some("no")
    } else {
        None
    }
}

/// The side a confidence-ladder order is on: its recorded side marker, else
/// `down` for a no/down outcome and `up` for any other.
pub fn confidence_ladder_marker_side(config: &JsonValue, outcome_label: &str) -> (r: Option<String>)
    ensures
        crate::order::opt_text(r) == match spec_marker_string(config@, CONFIDENCE_LADDER_SIDE_KEY@) {
            Some(s) => Some(s),
            None => if spec_binary_outcome(outcome_label@) == Some("no"@) { Some("down"@) } else { Some("up"@) },
        },
{
    match marker_string(config, CONFIDENCE_LADDER_SIDE_KEY) {
        Some(s) => Some(s),
        None => {
            let side = normalize_pair_lock_binary_outcome(outcome_label);
            let is_no = match side {
                Some(s) => str_eq(s, "no"),
                None => false,
            };
            if is_no { Some("down".to_string()) } else { Some("up".to_string()) }
        },
    }
}

/// Why the average-rebound strategy refuses an outcome label.
#[derive(Debug, PartialEq, Eq)]
pub enum AvgReboundSideError {
    /// Only binary YES/NO or Up/Down labels are supported.
    UnsupportedOutcomeLabel,
}

pub fn avg_rebound_normalized_side(label: &str) -> (r: Result<&'static str, AvgReboundSideError>)
    ensures
        match r {
            Ok(s) => spec_binary_outcome(label@) == Some(s@),
            Err(e) => spec_binary_outcome(label@) is None && e == AvgReboundSideError::UnsupportedOutcomeLabel,
        },
{
    match normalize_pair_lock_binary_outcome(label) {
        Some(s) => Ok(s),
        None => Err(AvgReboundSideError::UnsupportedOutcomeLabel),
    }
}

pub const CONFIDENCE_LADDER_BINDING_MODE: &'static str = "confidence_ladder_only";
pub const AVG_REBOUND_PAIRLOCK_RESCUE_BINDING_MODE: &'static str = "avg_rebound_pairlock_rescue_only";

/// Why a strategy node has no trigger bound to it.
#[derive(Debug, PartialEq, Eq)]
pub enum BindingTriggerError {
    /// No market-price trigger upstream of the node.
    MissingUpstreamTrigger,
    /// The upstream trigger's key names no node of the graph.
    TriggerNodeNotFound,
    /// The upstream trigger is not bound to this strategy.
    WrongBindingMode,
}

/// The binding mode of a trigger: its `bindingMode`, trimmed and
/// lower-cased (empty when it has none).
pub open spec fn spec_binding_mode(config: JsonView) -> Seq<char> {
    match opt_as_str(config.get("bindingMode"@)) {
        Some(m) => lower(trim(m)),
        None => Seq::empty(),
    }
}

/// The key of the trigger bound to a strategy node: the market-price trigger
/// upstream of it, which must exist and carry the strategy's binding mode.
pub open spec fn spec_binding_trigger_key(nodes: Seq<TradeFlowNode>, upstream_trigger_key: Option<Seq<char>>, required_mode: Seq<char>) -> Result<Seq<char>, BindingTriggerError> {
    match upstream_trigger_key {
        None => Err(BindingTriggerError::MissingUpstreamTrigger),
        Some(key) => match node_index(nodes, key) {
            None => Err(BindingTriggerError::TriggerNodeNotFound),
            Some(i) => if spec_binding_mode(nodes[i].config@) == required_mode {
                Ok(key)
            } else {
                Err(BindingTriggerError::WrongBindingMode)
            },
        },
    }
}

fn binding_trigger_key(graph: &TradeFlowGraphRuntime, upstream_trigger_key: Option<String>, required_mode: &str) -> (r: Result<String, BindingTriggerError>)
    ensures
        match r {
            Ok(k) => spec_binding_trigger_key(graph.nodes@, opt_text_view(upstream_trigger_key), required_mode@) == Ok::<Seq<char>, BindingTriggerError>(k@),
            Err(e) => spec_binding_trigger_key(graph.nodes@, opt_text_view(upstream_trigger_key), required_mode@) == Err::<Seq<char>, BindingTriggerError>(e),
        },
{
    let key = match upstream_trigger_key {
        Some(k) => k,
        None => return Err(BindingTriggerError::MissingUpstreamTrigger),
    };
    let trigger = match flow_node(graph, key.as_str()) {
        Some(n) => n,
        None => return Err(BindingTriggerError::TriggerNodeNotFound),
    };
    let mode = match node_config_string(trigger, "bindingMode") {
        Some(m) => trimmed_lower(m.as_str()),
        None => String::new(),
    };
    if str_eq(mode.as_str(), required_mode) {
        Ok(key)
    } else {
        Err(BindingTriggerError::WrongBindingMode)
    }
}

pub open spec fn opt_text_view(v: Option<String>) -> Option<Seq<char>> {
    match v {
        Some(s) => Some(s@),
        None => None,
    }
}

/// The trigger bound to a confidence-ladder node. `upstream_trigger_key` is
/// the market-price trigger upstream of the node, as the flow graph's search
/// finds it.
pub fn confidence_ladder_binding_trigger_key(graph: &TradeFlowGraphRuntime, upstream_trigger_key: Option<String>) -> (r: Result<String, BindingTriggerError>)
    ensures
        match r {
            Ok(k) => spec_binding_trigger_key(graph.nodes@, opt_text_view(upstream_trigger_key), CONFIDENCE_LADDER_BINDING_MODE@) == Ok::<Seq<char>, BindingTriggerError>(k@),
            Err(e) => spec_binding_trigger_key(graph.nodes@, opt_text_view(upstream_trigger_key), CONFIDENCE_LADDER_BINDING_MODE@) == Err::<Seq<char>, BindingTriggerError>(e),
        },
{
    binding_trigger_key(graph, upstream_trigger_key, CONFIDENCE_LADDER_BINDING_MODE)
}

/// The trigger bound to an average-rebound pair-lock rescue node.
pub fn avg_rebound_binding_trigger_key(graph: &TradeFlowGraphRuntime, upstream_trigger_key: Option<String>) -> (r: Result<String, BindingTriggerError>)
    ensures
        match r {
            Ok(k) => spec_binding_trigger_key(graph.nodes@, opt_text_view(upstream_trigger_key), AVG_REBOUND_PAIRLOCK_RESCUE_BINDING_MODE@) == Ok::<Seq<char>, BindingTriggerError>(k@),
            Err(e) => spec_binding_trigger_key(graph.nodes@, opt_text_view(upstream_trigger_key), AVG_REBOUND_PAIRLOCK_RESCUE_BINDING_MODE@) == Err::<Seq<char>, BindingTriggerError>(e),
        },
{
    binding_trigger_key(graph, upstream_trigger_key, AVG_REBOUND_PAIRLOCK_RESCUE_BINDING_MODE)
}

/// The token pair of a binary market.
pub struct PairLockResolvedTokenPair {
    pub yes_token_id: String,
    pub no_token_id: String,
}

/// The tokens and outcome labels of a rescue's primary and opposite sides.
pub struct AvgReboundTokenResolution {
    pub primary_token_id: String,
    pub primary_outcome_label: String,
    pub opposite_token_id: String,
    pub opposite_outcome_label: String,
}

/// The outcome labels of a binary market: `Up`/`Down` on an up/down market,
/// `Yes`/`No` otherwise.
pub open spec fn spec_pair_outcome_labels(market_slug: Seq<char>) -> (Seq<char>, Seq<char>) {
    if spec_updown_asset(market_slug) is Some {
        ("Up"@, "Down"@)
    } else {
        ("Yes"@, "No"@)
    }
}

pub fn pair_lock_monitor_outcome_labels(market_slug: &str) -> (r: (&'static str, &'static str))
    ensures
        (r.0@, r.1@) == spec_pair_outcome_labels(market_slug@),
{
    if find_updown_asset(market_slug).is_some() {
        ("Up", "Down")
    } else {
        ("Yes", "No")
    }
}

pub open spec fn resolution_view(r: &AvgReboundTokenResolution) -> (Seq<char>, Seq<char>, Seq<char>, Seq<char>) {
    (r.primary_token_id@, r.primary_outcome_label@, r.opposite_token_id@, r.opposite_outcome_label@)
}

/// The primary side's token and label, with the other side as the
/// opposite: the no side when the primary side is `no`, the yes side
/// otherwise.
pub open spec fn spec_token_resolution_for_side(yes: Seq<char>, no: Seq<char>, market_slug: Seq<char>, primary_side: Seq<char>) -> (Seq<char>, Seq<char>, Seq<char>, Seq<char>) {
    let (yes_label, no_label) = spec_pair_outcome_labels(market_slug);
    if primary_side == "no"@ {
        (no, no_label, yes, yes_label)
    } else {
        (yes, yes_label, no, no_label)
    }
}

pub fn avg_rebound_token_resolution_for_side(resolved: &PairLockResolvedTokenPair, market_slug: &str, primary_side: &str) -> (r: AvgReboundTokenResolution)
    ensures
        resolution_view(&r) == spec_token_resolution_for_side(resolved.yes_token_id@, resolved.no_token_id@, market_slug@, primary_side@),
{
    let (yes_label, no_label) = pair_lock_monitor_outcome_labels(market_slug);
    if str_eq(primary_side, "no") {
        AvgReboundTokenResolution {
            primary_token_id: resolved.no_token_id.clone(),
            primary_outcome_label: no_label.to_string(),
            opposite_token_id: resolved.yes_token_id.clone(),
            opposite_outcome_label: yes_label.to_string(),
        }
    } else {
        AvgReboundTokenResolution {
            primary_token_id: resolved.yes_token_id.clone(),
            primary_outcome_label: yes_label.to_string(),
            opposite_token_id: resolved.no_token_id.clone(),
            opposite_outcome_label: no_label.to_string(),
        }
    }
}

/// Seconds since a five-minute window opened, from the seconds it has left:
/// `300 - remaining`, clamped to `[0, 300]`.
pub open spec fn spec_elapsed_from_remaining(remaining: Option<i64>) -> Option<i64> {
    match remaining {
        Some(r) => Some(if 300 - r < 0 { 0 } else if 300 - r > 300 { 300 } else { (300 - r) as i64 }),
        None => None,
    }
}

pub fn confidence_ladder_elapsed_sec_from_remaining(remaining: Option<i64>) -> (r: Option<i64>)
    ensures
        r == spec_elapsed_from_remaining(remaining),
{
    match remaining {
        Some(rem) => {
            let e: i128 = 300 - rem as i128;
            Some(if e < 0 { 0 } else if e > 300 { 300 } else { e as i64 })
        },
        None => None,
    }
}

} // verus!
