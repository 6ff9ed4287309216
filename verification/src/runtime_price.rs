//! The prices an order is judged by on the fast path: the price that
//! decides its trigger, the price it would execute at, and the price
//! recorded as last seen. Prices are in millionths of a dollar per share.
use vstd::prelude::*;
use crate::buy_guards::{clamp_probability, spec_clamp_probability};
use crate::order::{
    TradeBuilderOrder, opt_text, spec_is_child_exit_sell, spec_is_fast_entry_buy, spec_is_stop_loss_child,
    trade_builder_is_child_exit_sell, trade_builder_is_fast_entry_buy, trade_builder_is_stop_loss_child,
    trade_builder_uses_fast_runtime_pricing,
};
use crate::text::str_eq;

verus! {

broadcast use vstd::string::group_string_axioms;

/// A runtime price with the book it came from.
pub struct TradeBuilderRuntimePrice {
    pub price: i64,
    pub source: String,
    pub runtime_warning: Option<String>,
    pub best_bid: Option<i64>,
    pub best_ask: Option<i64>,
    pub last_trade_price: Option<i64>,
}

/// The trigger price of the fast path: for a take profit the higher of bid
/// and last trade; for a stop loss the lower, unless the last trade sits
/// below 70% of a positive bid (a diverging print), when the bid stands;
/// with one of them missing the other; with both missing, or both present
/// under another condition, the runtime price. Clamped to `[0, 1]` where
/// taken from the book.
pub open spec fn spec_fast_trigger_eval_price(rp: &TradeBuilderRuntimePrice, trigger_condition: Option<Seq<char>>) -> i64 {
    match (rp.best_bid, rp.last_trade_price) {
        (Some(b), Some(l)) => if trigger_condition == Some("cross_above"@) {
            spec_clamp_probability(if b >= l { b } else { l })
        } else if trigger_condition == Some("cross_below"@) {
            spec_clamp_probability(if b > 0 && 10 * l < 7 * b { b } else if b <= l { b } else { l })
        } else {
            rp.price
        },
        (Some(b), None) => spec_clamp_probability(b),
        (None, Some(l)) => spec_clamp_probability(l),
        (None, None) => rp.price,
    }
}

pub open spec fn opt_str(v: Option<&str>) -> Option<Seq<char>> {
    match v {
        Some(s) => Some(s@),
        None => None,
    }
}

pub fn fast_trigger_eval_price(rp: &TradeBuilderRuntimePrice, trigger_condition: Option<&str>) -> (r: i64)
    ensures
        r == spec_fast_trigger_eval_price(rp, opt_str(trigger_condition)),
{
    match (rp.best_bid, rp.last_trade_price) {
        (Some(b), Some(l)) => {
            let (above, below) = match trigger_condition {
                Some(c) => (str_eq(c, "cross_above"), str_eq(c, "cross_below")),
                None => (false, false),
            };
            if above {
                clamp_probability(if b >= l { b } else { l })
            } else if below {
                let diverging = b > 0 && 10 * (l as i128) < 7 * (b as i128);
                clamp_probability(if diverging { b } else if b <= l { b } else { l })
            } else {
                rp.price
            }
        },
        (Some(b), None) => clamp_probability(b),
        (None, Some(l)) => clamp_probability(l),
        (None, None) => rp.price,
    }
}

/// The stop-loss trigger price under an explicit price mode: the bid, the
/// last trade, the lower of the two (`composite_fast`), or for any other
/// mode the fast stop-loss price. `None` when the chosen source is missing.
pub open spec fn spec_sl_trigger_eval_price_for_mode(mode: Seq<char>, rp: &TradeBuilderRuntimePrice) -> Option<i64> {
    if mode == "best_bid"@ {
        match rp.best_bid { Some(b) => Some(spec_clamp_probability(b)), None => None }
    } else if mode == "last_trade"@ {
        match rp.last_trade_price { Some(l) => Some(spec_clamp_probability(l)), None => None }
    } else if mode == "composite_fast"@ {
        Some(match (rp.best_bid, rp.last_trade_price) {
            (Some(b), Some(l)) => spec_clamp_probability(if b <= l { b } else { l }),
            (Some(b), None) => spec_clamp_probability(b),
            (None, Some(l)) => spec_clamp_probability(l),
            (None, None) => rp.price,
        })
    } else {
        Some(spec_fast_trigger_eval_price(rp, Some("cross_below"@)))
    }
}

pub fn sl_trigger_eval_price_for_mode(mode: &str, rp: &TradeBuilderRuntimePrice) -> (r: Option<i64>)
    ensures
        r == spec_sl_trigger_eval_price_for_mode(mode@, rp),
{
    if str_eq(mode, "best_bid") {
        match rp.best_bid { Some(b) => Some(clamp_probability(b)), None => None }
    } else if str_eq(mode, "last_trade") {
        match rp.last_trade_price { Some(l) => Some(clamp_probability(l)), None => None }
    } else if str_eq(mode, "composite_fast") {
        Some(match (rp.best_bid, rp.last_trade_price) {
            (Some(b), Some(l)) => clamp_probability(if b <= l { b } else { l }),
            (Some(b), None) => clamp_probability(b),
            (None, Some(l)) => clamp_probability(l),
            (None, None) => rp.price,
        })
    } else {
        Some(fast_trigger_eval_price(rp, Some("cross_below")))
    }
}

/// What a sell executes at: the bid, else the last trade, else the runtime
/// price; clamped to `[0, 1]`.
pub open spec fn spec_fast_execution_price_for_sell(rp: &TradeBuilderRuntimePrice) -> i64 {
    spec_clamp_probability(match rp.best_bid {
        Some(b) => b,
        None => match rp.last_trade_price { Some(l) => l, None => rp.price },
    })
}

pub fn fast_execution_price_for_sell(rp: &TradeBuilderRuntimePrice) -> (r: i64)
    ensures
        r == spec_fast_execution_price_for_sell(rp),
{
    clamp_probability(match rp.best_bid {
        Some(b) => b,
        None => match rp.last_trade_price { Some(l) => l, None => rp.price },
    })
}

/// What a buy executes at: the ask, else the last trade, else the bid, else
/// the runtime price; clamped to `[0, 1]`.
pub open spec fn spec_fast_execution_price_for_buy(rp: &TradeBuilderRuntimePrice) -> i64 {
    spec_clamp_probability(match rp.best_ask {
        Some(a) => a,
        None => match rp.last_trade_price {
            Some(l) => l,
            None => match rp.best_bid { Some(b) => b, None => rp.price },
        },
    })
}

pub fn fast_execution_price_for_buy(rp: &TradeBuilderRuntimePrice) -> (r: i64)
    ensures
        r == spec_fast_execution_price_for_buy(rp),
{
    clamp_probability(match rp.best_ask {
        Some(a) => a,
        None => match rp.last_trade_price {
            Some(l) => l,
            None => match rp.best_bid { Some(b) => b, None => rp.price },
        },
    })
}

/// The price that decides an order's trigger: the runtime price for orders
/// off the fast path; for a stop-loss child with a price mode, that mode's
/// price (the runtime price when its source is missing); otherwise the fast
/// trigger price for the order's condition.
pub open spec fn spec_trigger_eval_price_for_order(order: &TradeBuilderOrder, rp: &TradeBuilderRuntimePrice) -> i64 {
    if !(spec_is_child_exit_sell(order) || spec_is_fast_entry_buy(order)) {
        rp.price
    } else if spec_is_stop_loss_child(order) && order.sl_trigger_price_mode is Some {
        match spec_sl_trigger_eval_price_for_mode(order.sl_trigger_price_mode->0@, rp) {
            Some(p) => p,
            None => rp.price,
        }
    } else {
        spec_fast_trigger_eval_price(rp, opt_text(order.trigger_condition))
    }
}

pub fn trade_builder_trigger_eval_price_for_order(order: &TradeBuilderOrder, rp: &TradeBuilderRuntimePrice) -> (r: i64)
    ensures
        r == spec_trigger_eval_price_for_order(order, rp),
{
    if !trade_builder_uses_fast_runtime_pricing(order) {
        return rp.price;
    }
    if trade_builder_is_stop_loss_child(order) {
        match &order.sl_trigger_price_mode {
            Some(mode) => {
                return match sl_trigger_eval_price_for_mode(mode.as_str(), rp) {
                    Some(p) => p,
                    None => rp.price,
                };
            },
            None => {},
        }
    }
    let cond: Option<&str> = match &order.trigger_condition {
        Some(c) => Some(c.as_str()),
        None => None,
    };
    fast_trigger_eval_price(rp, cond)
}

/// The price an order would execute at: the runtime price off the fast
/// path, else the sell or buy execution price by its side.
pub open spec fn spec_execution_price_for_order(order: &TradeBuilderOrder, rp: &TradeBuilderRuntimePrice) -> i64 {
    if !(spec_is_child_exit_sell(order) || spec_is_fast_entry_buy(order)) {
        rp.price
    } else if order.side@ == "sell"@ {
        spec_fast_execution_price_for_sell(rp)
    } else {
        spec_fast_execution_price_for_buy(rp)
    }
}

pub fn trade_builder_execution_price_for_order(order: &TradeBuilderOrder, rp: &TradeBuilderRuntimePrice) -> (r: i64)
    ensures
        r == spec_execution_price_for_order(order, rp),
{
    if !trade_builder_uses_fast_runtime_pricing(order) {
        return rp.price;
    }
    if str_eq(order.side.as_str(), "sell") {
        return fast_execution_price_for_sell(rp);
    }
    fast_execution_price_for_buy(rp)
}

/// The price recorded as last seen: the execution price for a child exit
/// sell, the trigger price for a fast entry buy, the execution price
/// otherwise.
pub open spec fn spec_last_seen_price_for_order(order: &TradeBuilderOrder, trigger_eval_price: i64, execution_price: i64) -> i64 {
    if spec_is_child_exit_sell(order) {
        execution_price
    } else if spec_is_fast_entry_buy(order) {
        trigger_eval_price
    } else {
        execution_price
    }
}

pub fn trade_builder_last_seen_price_for_order(order: &TradeBuilderOrder, trigger_eval_price: i64, execution_price: i64) -> (r: i64)
    ensures
        r == spec_last_seen_price_for_order(order, trigger_eval_price, execution_price),
{
    if trade_builder_is_child_exit_sell(order) {
        return execution_price;
    }
    if trade_builder_is_fast_entry_buy(order) {
        return trigger_eval_price;
    }
    execution_price
}

/// Law: on the fast path, a take profit (`cross_above`) with both a bid and
/// a last trade fires on the higher of the two: its trigger price is at
/// least each of them (clamped to `[0, 1]`) and is one of them. A stop loss
/// (`cross_below`) fires on the lower of the two, unless the last trade
/// sits below 70% of a positive bid, when the bid stands. With only one of
/// them, that one decides; with neither, the runtime price. A price taken
/// from the book lies in `[0, 1]`.
pub proof fn law_fast_trigger_price_follows_the_book(rp: TradeBuilderRuntimePrice, trigger_condition: Option<Seq<char>>)
    ensures
        ({
            let r = spec_fast_trigger_eval_price(&rp, trigger_condition);
            &&& (rp.best_bid matches Some(b) && rp.last_trade_price matches Some(l) && trigger_condition == Some("cross_above"@)) ==> {
                &&& r >= spec_clamp_probability(rp.best_bid->0)
                &&& r >= spec_clamp_probability(rp.last_trade_price->0)
                &&& (r == spec_clamp_probability(rp.best_bid->0) || r == spec_clamp_probability(rp.last_trade_price->0))
            }
            &&& (rp.best_bid matches Some(b) && rp.last_trade_price matches Some(l) && trigger_condition == Some("cross_below"@)
                && !(b > 0 && 10 * l < 7 * b)) ==> {
                &&& r <= spec_clamp_probability(rp.best_bid->0)
                &&& r <= spec_clamp_probability(rp.last_trade_price->0)
                &&& (r == spec_clamp_probability(rp.best_bid->0) || r == spec_clamp_probability(rp.last_trade_price->0))
            }
            &&& (rp.best_bid matches Some(b) && rp.last_trade_price matches Some(l) && trigger_condition == Some("cross_below"@)
                && b > 0 && 10 * l < 7 * b) ==> r == spec_clamp_probability(rp.best_bid->0)
            &&& (rp.best_bid is Some && rp.last_trade_price is None) ==> r == spec_clamp_probability(rp.best_bid->0)
            &&& (rp.best_bid is None && rp.last_trade_price is Some) ==> r == spec_clamp_probability(rp.last_trade_price->0)
            &&& (rp.best_bid is None && rp.last_trade_price is None) ==> r == rp.price
            &&& (rp.best_bid is Some || rp.last_trade_price is Some)
                && (trigger_condition == Some("cross_above"@) || trigger_condition == Some("cross_below"@)
                    || rp.best_bid is None || rp.last_trade_price is None) ==> 0 <= r <= 1_000_000
        }),
{
    reveal_strlit("cross_above");
    reveal_strlit("cross_below");
    assert("cross_above"@ != "cross_below"@) by {
        assert("cross_above"@[6] == 'a');
        assert("cross_below"@[6] == 'b');
    }
    if rp.best_bid is Some && rp.last_trade_price is Some {
        let b = rp.best_bid->0;
        let l = rp.last_trade_price->0;
        assert(b <= l ==> spec_clamp_probability(b) <= spec_clamp_probability(l));
        assert(l <= b ==> spec_clamp_probability(l) <= spec_clamp_probability(b));
    }
}

/// Law: a sell executes at the bid when there is one, a buy at the ask
/// when there is one; so with a bid at or below the ask a sell never
/// executes above a buy. Both lie in `[0, 1]`.
pub proof fn law_execution_prices_cross_the_book(rp: TradeBuilderRuntimePrice)
    ensures
        rp.best_bid matches Some(b) ==> spec_fast_execution_price_for_sell(&rp) == spec_clamp_probability(b),
        rp.best_ask matches Some(a) ==> spec_fast_execution_price_for_buy(&rp) == spec_clamp_probability(a),
        (rp.best_bid matches Some(b) && rp.best_ask matches Some(a) && b <= a)
            ==> spec_fast_execution_price_for_sell(&rp) <= spec_fast_execution_price_for_buy(&rp),
        0 <= spec_fast_execution_price_for_sell(&rp) <= 1_000_000,
        0 <= spec_fast_execution_price_for_buy(&rp) <= 1_000_000,
{
    if rp.best_bid is Some && rp.best_ask is Some {
        let b = rp.best_bid->0;
        let a = rp.best_ask->0;
        assert(b <= a ==> spec_clamp_probability(b) <= spec_clamp_probability(a));
    }
}

/// Law: a stop loss priced by mode reads the source it names: the bid for
/// `best_bid`, the last trade for `last_trade` (none when that source is
/// missing), and for `composite_fast` the lower of the two when both are
/// present (at most each, and one of them).
pub proof fn law_stop_loss_mode_reads_its_source(mode: Seq<char>, rp: TradeBuilderRuntimePrice)
    ensures
        mode == "best_bid"@ ==> spec_sl_trigger_eval_price_for_mode(mode, &rp) == match rp.best_bid {
            Some(b) => Some(spec_clamp_probability(b)),
            None => None,
        },
        mode == "last_trade"@ ==> spec_sl_trigger_eval_price_for_mode(mode, &rp) == match rp.last_trade_price {
            Some(l) => Some(spec_clamp_probability(l)),
            None => None,
        },
        (mode == "composite_fast"@ && rp.best_bid is Some && rp.last_trade_price is Some) ==> ({
            let r = spec_sl_trigger_eval_price_for_mode(mode, &rp)->0;
            &&& spec_sl_trigger_eval_price_for_mode(mode, &rp) is Some
            &&& r <= spec_clamp_probability(rp.best_bid->0)
            &&& r <= spec_clamp_probability(rp.last_trade_price->0)
            &&& (r == spec_clamp_probability(rp.best_bid->0) || r == spec_clamp_probability(rp.last_trade_price->0))
        }),
{
    reveal_strlit("best_bid");
    reveal_strlit("last_trade");
    reveal_strlit("composite_fast");
    assert("best_bid"@ != "last_trade"@) by { assert("best_bid"@[0] != "last_trade"@[0]); }
    assert("best_bid"@ != "composite_fast"@) by { assert("best_bid"@[0] != "composite_fast"@[0]); }
    assert("last_trade"@ != "composite_fast"@) by { assert("last_trade"@[0] != "composite_fast"@[0]); }
    if rp.best_bid is Some && rp.last_trade_price is Some {
        let b = rp.best_bid->0;
        let l = rp.last_trade_price->0;
        assert(b <= l ==> spec_clamp_probability(b) <= spec_clamp_probability(l));
        assert(l <= b ==> spec_clamp_probability(l) <= spec_clamp_probability(b));
    }
}

} // verus!
