//! Identifiers of decision-log records, normalized outcome names, and the
//! versions of configuration changes.
use vstd::prelude::*;
use crate::order::TradeBuilderOrder;
use crate::text::{concat2, concat3, str_eq, int_decimal, i64_decimal, lower, trim, trimmed_lower};

verus! {

broadcast use vstd::string::group_string_axioms;

/// The decision of an order tree is keyed by its root order.
pub open spec fn root_order_id(order: &TradeBuilderOrder) -> i64 {
    match order.parent_order_id {
        Some(p) => p,
        None => order.id,
    }
}

/// `dec:tb:<root order id>`.
pub fn trade_builder_decision_id_for_order(order: &TradeBuilderOrder) -> (r: String)
    ensures
        r@ == "dec:tb:"@ + int_decimal(root_order_id(order) as int),
{
    let root = match order.parent_order_id {
        Some(p) => p,
        None => order.id,
    };
    let d = i64_decimal(root);
    concat2("dec:tb:", d.as_str())
}

/// `sl:tb:<root order id>:<child order id>`, the child being the root itself
/// for a root order.
pub fn trade_builder_sl_event_id_for_order(order: &TradeBuilderOrder) -> (r: String)
    ensures
        r@ == "sl:tb:"@ + int_decimal(root_order_id(order) as int) + ":"@ + int_decimal(order.id as int),
{
    let root = match order.parent_order_id {
        Some(p) => p,
        None => order.id,
    };
    let child = if order.parent_order_id.is_some() { order.id } else { root };
    let r = i64_decimal(root);
    let c = i64_decimal(child);
    let head = concat3("sl:tb:", r.as_str(), ":");
    concat2(head.as_str(), c.as_str())
}

/// `fill:tb:<order id>:<exchange order id>`.
pub fn trade_builder_fill_event_id_for_order(order: &TradeBuilderOrder, exchange_order_id: &str) -> (r: String)
    ensures
        r@ == "fill:tb:"@ + int_decimal(order.id as int) + ":"@ + exchange_order_id@,
{
    let id = i64_decimal(order.id);
    let head = concat3("fill:tb:", id.as_str(), ":");
    concat2(head.as_str(), exchange_order_id)
}

/// The normalized direction of an outcome label.
pub open spec fn spec_outcome_norm(label: Seq<char>) -> Option<Seq<char>> {
    let n = lower(trim(label));
    if n == "yes"@ || n == "up"@ || n == "long"@ || n == "bull"@ {
        Some("UP"@)
    } else if n == "no"@ || n == "down"@ || n == "short"@ || n == "bear"@ {
        Some("DOWN"@)
    } else {
        None
    }
}

pub fn trade_builder_outcome_norm(outcome_label: &str) -> (r: Option<&'static str>)
    ensures
        crate::exit_errors::opt_str_text(r) == spec_outcome_norm(outcome_label@),
{
    let n = trimmed_lower(outcome_label);
    let s = n.as_str();
    if str_eq(s, "yes") || str_eq(s, "up") || str_eq(s, "long") || str_eq(s, "bull") {
        Some("UP")
    } else if str_eq(s, "no") || str_eq(s, "down") || str_eq(s, "short") || str_eq(s, "bear") {
        Some("DOWN")
    } else {
        None
    }
}

/// `chrono::Utc::now().timestamp()`: the clock's second. Nothing is claimed
/// of the value.
#[verifier::external_body]
fn utc_now_timestamp_secs() -> (r: i64) {
    chrono::Utc::now().timestamp()
}

/// The version of a configuration change made at the given second: `v`
/// followed by the second in decimal.
pub fn config_version_for_timestamp(timestamp_secs: i64) -> (r: String)
    ensures
        r@ == "v"@ + int_decimal(timestamp_secs as int),
{
    let d = i64_decimal(timestamp_secs);
    concat2("v", d.as_str())
}

/// A new configuration version, from the clock: `v` followed by the current
/// second in decimal.
pub fn generate_config_version() -> (r: String)
    ensures
        exists|ts: i64| r@ == "v"@ + int_decimal(ts as int),
{
    let ts = utc_now_timestamp_secs();
    config_version_for_timestamp(ts)
}

} // verus!
