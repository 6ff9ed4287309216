//! The buy-fill lock: once a buy of a lock group fills in a market, further
//! buys of that group wait until the lock is released. Locks live in the
//! run's flow context under `__buyFillLocks`, keyed by group.
use vstd::prelude::*;
use crate::flow::{
    TradeFlowNode, TradeFlowRunStep, node_config_bool, node_config_string, flow_context_view,
    step_input, first_key_value, key_views, step_input_value, flow_context_value,
};
use crate::json::{
    JsonValue, JsonView, opt_as_bool, opt_as_i64, opt_as_str, opt_get, members_get, remove_key,
    set_first, view_members, members_without, members_with_first_set, lemma_view_members,
    lemma_members_get_set_first, lemma_members_get_remove_key, lemma_remove_key_keeps_others,
};
use crate::text::{str_eq, trim, trimmed, trimmed_non_empty};

verus! {

broadcast use vstd::string::group_string_axioms;

pub const FLOW_CONTEXT_BUY_FILL_LOCKS_KEY: &'static str = "__buyFillLocks";

/// The lock settings of a buy order.
pub struct ActionPlaceOrderBuyFillLockConfig {
    pub group: String,
    pub release_on_stop_loss: bool,
}

/// A lock held in the flow context.
pub struct TradeFlowBuyFillLockRecord {
    pub group: String,
    pub market_slug: String,
    pub builder_order_id: i64,
    pub source_node_key: String,
    pub filled_at: String,
    pub release_on_stop_loss: bool,
}

/// Why a buy order's lock settings are refused.
#[derive(Debug, PartialEq, Eq)]
pub enum BuyFillLockConfigError {
    /// The lock is enabled but `buyFillLockGroup` is missing or blank.
    MissingGroup,
}

/// The non-blank trimmed text of a string member.
pub open spec fn trimmed_text(v: Option<JsonView>) -> Option<Seq<char>> {
    match opt_as_str(v) {
        Some(s) => if trim(s).len() > 0 { Some(trim(s)) } else { None },
        None => None,
    }
}

fn member_trimmed_text(doc: &JsonValue, key: &str) -> (r: Option<String>)
    ensures
        match r {
            Some(s) => trimmed_text(doc@.get(key@)) == Some(s@),
            None => trimmed_text(doc@.get(key@)) is None,
        },
{
    match doc.get(key) {
        Some(v) => match v.as_str() {
            Some(s) => trimmed_non_empty(s),
            None => None,
        },
        None => None,
    }
}

/// The lock settings of a node: none unless it is a buy with
/// `buyFillLockEnabled`; then `buyFillLockGroup` must be a non-blank string.
pub open spec fn spec_buy_fill_lock_config(config: JsonView, side: Seq<char>) -> Result<Option<(Seq<char>, bool)>, BuyFillLockConfigError> {
    if side != "buy"@ || opt_as_bool(config.get("buyFillLockEnabled"@)) != Some(true) {
        Ok(None)
    } else {
        match trimmed_text(config.get("buyFillLockGroup"@)) {
            Some(group) => Ok(Some((group, opt_as_bool(config.get("releaseBuyFillLockOnStopLoss"@)) == Some(true)))),
            None => Err(BuyFillLockConfigError::MissingGroup),
        }
    }
}

pub open spec fn config_view(c: ActionPlaceOrderBuyFillLockConfig) -> (Seq<char>, bool) {
    (c.group@, c.release_on_stop_loss)
}

pub fn resolve_action_place_order_buy_fill_lock_config(
    node: &TradeFlowNode,
    side: &str,
) -> (r: Result<Option<ActionPlaceOrderBuyFillLockConfig>, BuyFillLockConfigError>)
    ensures
        match r {
            Ok(Some(c)) => spec_buy_fill_lock_config(node.config@, side@) == Ok::<Option<(Seq<char>, bool)>, BuyFillLockConfigError>(Some(config_view(c))),
            Ok(None) => spec_buy_fill_lock_config(node.config@, side@) == Ok::<Option<(Seq<char>, bool)>, BuyFillLockConfigError>(None),
            Err(e) => spec_buy_fill_lock_config(node.config@, side@) == Err::<Option<(Seq<char>, bool)>, BuyFillLockConfigError>(e),
        },
{
    if !str_eq(side, "buy") {
        return Ok(None);
    }
    let enabled = match node_config_bool(node, "buyFillLockEnabled") {
        Some(b) => b,
        None => false,
    };
    if !enabled {
        return Ok(None);
    }
    let group = match member_trimmed_text(&node.config, "buyFillLockGroup") {
        Some(g) => g,
        None => return Err(BuyFillLockConfigError::MissingGroup),
    };
    let release_on_stop_loss = match node_config_bool(node, "releaseBuyFillLockOnStopLoss") {
        Some(b) => b,
        None => false,
    };
    Ok(Some(ActionPlaceOrderBuyFillLockConfig { group, release_on_stop_loss }))
}

/// The lock settings recorded in an order payload's `buy_fill_lock` member.
pub open spec fn spec_config_from_payload(payload: Option<JsonView>) -> Option<(Seq<char>, bool)> {
    match opt_get(payload, "buy_fill_lock"@) {
        Some(lock) => match trimmed_text(lock.get("group"@)) {
            Some(group) => Some((group, opt_as_bool(lock.get("releaseOnStopLoss"@)) == Some(true))),
            None => None,
        },
        None => None,
    }
}

pub fn action_place_order_buy_fill_lock_config_from_payload(
    payload: Option<&JsonValue>,
) -> (r: Option<ActionPlaceOrderBuyFillLockConfig>)
    ensures
        match r {
            Some(c) => spec_config_from_payload(crate::json::opt_view(payload)) == Some(config_view(c)),
            None => spec_config_from_payload(crate::json::opt_view(payload)) is None,
        },
{
    let payload = match payload {
        Some(p) => p,
        None => return None,
    };
    let lock = match payload.get("buy_fill_lock") {
        Some(l) => l,
        None => return None,
    };
    let group = match member_trimmed_text(lock, "group") {
        Some(g) => g,
        None => return None,
    };
    let release_on_stop_loss = match lock.get("releaseOnStopLoss") {
        Some(v) => match v.as_bool() {
            Some(b) => b,
            None => false,
        },
        None => false,
    };
    Some(ActionPlaceOrderBuyFillLockConfig { group, release_on_stop_loss })
}

/// The selected entry-timing profile: the step input's, else the flow context's.
pub open spec fn spec_selected_entry_timing_profile(input: Option<JsonView>, context: JsonView) -> Option<JsonView> {
    match match input {
        Some(doc) => first_key_value(doc, seq!["selectedEntryTimingProfile"@]),
        None => None,
    } {
        Some(v) => Some(v),
        None => opt_get(flow_context_view(context), "selectedEntryTimingProfile"@),
    }
}

pub fn resolve_action_place_order_selected_entry_timing_profile_value(
    step: &TradeFlowRunStep,
    context: &JsonValue,
) -> (r: Option<JsonValue>)
    ensures
        match r {
            Some(v) => spec_selected_entry_timing_profile(step_input(step), context@) == Some(v@),
            None => spec_selected_entry_timing_profile(step_input(step), context@) is None,
        },
{
    let keys = ["selectedEntryTimingProfile"];
    let found = step_input_value(step, &keys);
    assert(key_views(keys@) =~= seq!["selectedEntryTimingProfile"@]);
    match found {
        Some(v) => Some(v.deep_clone()),
        None => flow_context_value(context, "selectedEntryTimingProfile"),
    }
}

/// The view of a lock record.
pub open spec fn record_view(r: TradeFlowBuyFillLockRecord) -> (Seq<char>, Seq<char>, i64, Seq<char>, Seq<char>, bool) {
    (r.group@, r.market_slug@, r.builder_order_id, r.source_node_key@, r.filled_at@, r.release_on_stop_loss)
}

/// A lock record read from its document: it needs a non-blank `marketSlug`,
/// a positive integer `builderOrderId`, a non-blank `sourceNodeKey` and a
/// non-blank `filledAt`.
pub open spec fn spec_parse_lock_record(group: Seq<char>, value: JsonView) -> Option<(Seq<char>, Seq<char>, i64, Seq<char>, Seq<char>, bool)> {
    match (
        trimmed_text(value.get("marketSlug"@)),
        opt_as_i64(value.get("builderOrderId"@)),
        trimmed_text(value.get("sourceNodeKey"@)),
        trimmed_text(value.get("filledAt"@)),
    ) {
        (Some(market_slug), Some(id), Some(source_node_key), Some(filled_at)) => if id > 0 {
            Some((group, market_slug, id, source_node_key, filled_at,
                opt_as_bool(value.get("releaseOnStopLoss"@)) == Some(true)))
        } else {
            None
        },
        _ => None,
    }
}

pub fn parse_trade_flow_buy_fill_lock_record(group: &str, value: &JsonValue) -> (r: Option<TradeFlowBuyFillLockRecord>)
    ensures
        match r {
            Some(rec) => spec_parse_lock_record(group@, value@) == Some(record_view(rec)),
            None => spec_parse_lock_record(group@, value@) is None,
        },
{
    let market_slug = match member_trimmed_text(value, "marketSlug") {
        Some(s) => s,
        None => return None,
    };
    let builder_order_id = match value.get("builderOrderId") {
        Some(v) => match v.as_i64() {
            Some(id) => if id > 0 { id } else { return None },
            None => return None,
        },
        None => return None,
    };
    let source_node_key = match member_trimmed_text(value, "sourceNodeKey") {
        Some(s) => s,
        None => return None,
    };
    let filled_at = match member_trimmed_text(value, "filledAt") {
        Some(s) => s,
        None => return None,
    };
    let release_on_stop_loss = match value.get("releaseOnStopLoss") {
        Some(v) => match v.as_bool() {
            Some(b) => b,
            None => false,
        },
        None => false,
    };
    Some(TradeFlowBuyFillLockRecord {
        group: group.to_string(),
        market_slug,
        builder_order_id,
        source_node_key,
        filled_at,
        release_on_stop_loss,
    })
}

/// The locks object of a run context.
pub open spec fn spec_locks(context: JsonView) -> Option<JsonView> {
    match opt_get(flow_context_view(context), FLOW_CONTEXT_BUY_FILL_LOCKS_KEY@) {
        Some(v) => if v is Object { Some(v) } else { None },
        None => None,
    }
}

/// The lock of a group, when its record is well formed.
pub open spec fn spec_find_lock(context: JsonView, group: Seq<char>) -> Option<(Seq<char>, Seq<char>, i64, Seq<char>, Seq<char>, bool)> {
    match opt_get(spec_locks(context), group) {
        Some(v) => spec_parse_lock_record(group, v),
        None => None,
    }
}

pub fn find_trade_flow_buy_fill_lock(context: &JsonValue, group: &str) -> (r: Option<TradeFlowBuyFillLockRecord>)
    ensures
        match r {
            Some(rec) => spec_find_lock(context@, group@) == Some(record_view(rec)),
            None => spec_find_lock(context@, group@) is None,
        },
{
    let fc = match context.get("flowContext") {
        Some(v) => v,
        None => return None,
    };
    let locks = match fc.get(FLOW_CONTEXT_BUY_FILL_LOCKS_KEY) {
        Some(v) => v,
        None => return None,
    };
    match locks {
        JsonValue::Object(_) => {},
        _ => return None,
    }
    match locks.get(group) {
        Some(v) => parse_trade_flow_buy_fill_lock_record(group, v),
        None => None,
    }
}

/// The lock of a group, when it was taken in the given market.
pub fn find_trade_flow_buy_fill_lock_for_market(
    context: &JsonValue,
    group: &str,
    market_slug: &str,
) -> (r: Option<TradeFlowBuyFillLockRecord>)
    ensures
        match r {
            Some(rec) => spec_find_lock(context@, group@) == Some(record_view(rec)) && rec.market_slug@ == market_slug@,
            None => match spec_find_lock(context@, group@) {
                Some(rec) => rec.1 != market_slug@,
                None => true,
            },
        },
{
    let record = match find_trade_flow_buy_fill_lock(context, group) {
        Some(r) => r,
        None => return None,
    };
    if str_eq(record.market_slug.as_str(), market_slug) {
        Some(record)
    } else {
        None
    }
}

/// A run context after releasing a group's lock, and whether a lock was
/// released. An emptied locks object leaves the flow context.
pub open spec fn spec_clear_lock(context: JsonView, group: Seq<char>) -> (JsonView, bool) {
    match context {
        JsonView::Object(top) => match members_get(top, "flowContext"@) {
            Some(JsonView::Object(fc)) => match members_get(fc, FLOW_CONTEXT_BUY_FILL_LOCKS_KEY@) {
                Some(JsonView::Object(locks)) => {
                    let new_locks = remove_key(locks, group);
                    let new_fc = if new_locks.len() == 0 {
                        remove_key(fc, FLOW_CONTEXT_BUY_FILL_LOCKS_KEY@)
                    } else {
                        set_first(fc, FLOW_CONTEXT_BUY_FILL_LOCKS_KEY@, JsonView::Object(new_locks))
                    };
                    (
                        JsonView::Object(set_first(top, "flowContext"@, JsonView::Object(new_fc))),
                        members_get(locks, group) is Some,
                    )
                },
                _ => (context, false),
            },
            _ => (context, false),
        },
        _ => (context, false),
    }
}

/// Releases a group's lock.
pub fn clear_trade_flow_buy_fill_lock(context: &mut JsonValue, group: &str) -> (removed: bool)
    ensures
        (final(context)@, removed) == spec_clear_lock(old(context)@, group@),
{
    let new_value = match &*context {
        JsonValue::Object(top) => {
            proof { lemma_view_members(top@); }
            let fc_value = match context.get("flowContext") {
                Some(v) => v,
                None => return false,
            };
            match fc_value {
                JsonValue::Object(fc) => {
                    let locks_value = match fc_value.get(FLOW_CONTEXT_BUY_FILL_LOCKS_KEY) {
                        Some(v) => v,
                        None => return false,
                    };
                    match locks_value {
                        JsonValue::Object(locks) => {
                            let (new_locks, removed) = members_without(locks, group);
                            let new_fc = if new_locks.len() == 0 {
                                proof { lemma_view_members(new_locks@); }
                                let (f, _) = members_without(fc, FLOW_CONTEXT_BUY_FILL_LOCKS_KEY);
                                f
                            } else {
                                proof { lemma_view_members(new_locks@); }
                                members_with_first_set(fc, FLOW_CONTEXT_BUY_FILL_LOCKS_KEY, JsonValue::Object(new_locks))
                            };
                            let new_top = members_with_first_set(top, "flowContext", JsonValue::Object(new_fc));
                            (JsonValue::Object(new_top), removed)
                        },
                        _ => return false,
                    }
                },
                _ => return false,
            }
        },
        _ => return false,
    };
    let (v, removed) = new_value;
    *context = v;
    removed
}

/// Law: once a group's lock is cleared, no lock of that group is found.
pub proof fn law_cleared_lock_not_found(context: JsonView, group: Seq<char>)
    ensures
        spec_find_lock(spec_clear_lock(context, group).0, group) is None,
{
    law_clear_lock_lookups(context, group, group);
}

/// Law: clearing a group's lock leaves the locks of every other group as
/// they were.
pub proof fn law_clear_lock_keeps_other_groups(context: JsonView, group: Seq<char>, other: Seq<char>)
    requires
        other != group,
    ensures
        spec_find_lock(spec_clear_lock(context, group).0, other) == spec_find_lock(context, other),
{
    law_clear_lock_lookups(context, group, other);
}

proof fn law_clear_lock_lookups(context: JsonView, group: Seq<char>, other: Seq<char>)
    ensures
        opt_get(spec_locks(spec_clear_lock(context, group).0), other)
            == if other == group { None } else { opt_get(spec_locks(context), other) },
{
    match context {
        JsonView::Object(top) => match members_get(top, "flowContext"@) {
            Some(JsonView::Object(fc)) => match members_get(fc, FLOW_CONTEXT_BUY_FILL_LOCKS_KEY@) {
                Some(JsonView::Object(locks)) => {
                    let new_locks = remove_key(locks, group);
                    let new_fc = if new_locks.len() == 0 {
                        remove_key(fc, FLOW_CONTEXT_BUY_FILL_LOCKS_KEY@)
                    } else {
                        set_first(fc, FLOW_CONTEXT_BUY_FILL_LOCKS_KEY@, JsonView::Object(new_locks))
                    };
                    lemma_members_get_set_first(top, "flowContext"@, JsonView::Object(new_fc), "flowContext"@);
                    lemma_members_get_remove_key(locks, group, other);
                    if new_locks.len() == 0 {
                        lemma_members_get_remove_key(fc, FLOW_CONTEXT_BUY_FILL_LOCKS_KEY@, FLOW_CONTEXT_BUY_FILL_LOCKS_KEY@);
                        if other != group && members_get(locks, other) is Some {
                            lemma_remove_key_keeps_others(locks, group, other);
                        }
                    } else {
                        lemma_members_get_set_first(fc, FLOW_CONTEXT_BUY_FILL_LOCKS_KEY@, JsonView::Object(new_locks), FLOW_CONTEXT_BUY_FILL_LOCKS_KEY@);
                    }
                },
                _ => {},
            },
            _ => {},
        },
        _ => {},
    }
}

} // verus!
