//! One websocket evaluation cycle over the armed price children of the
//! tokens whose market data changed: which orders are selected and at what
//! prices each is evaluated, what each evaluation decides, and what the
//! cycle did. Whether an order's trigger fires, and whether a stop loss
//! must wait for the bid to confirm, are decided by the caller from the
//! prices this module gives. Prices in millionths.
use vstd::prelude::*;
use crate::order::TradeBuilderOrder;
use crate::armed_cache::{ArmedBuilderOrderCache, ArmedBuilderOrderBucket, ArmedBuilderWsEvalActivity};
use crate::runtime_price::{
    TradeBuilderRuntimePrice, spec_sl_trigger_eval_price_for_mode, spec_trigger_eval_price_for_order,
    spec_execution_price_for_order, spec_last_seen_price_for_order, sl_trigger_eval_price_for_mode,
    trade_builder_trigger_eval_price_for_order, trade_builder_execution_price_for_order,
    trade_builder_last_seen_price_for_order,
};
use crate::text::str_eq;

verus! {

broadcast use vstd::string::group_string_axioms;

/// How one selected order is evaluated: not at all where its stop-loss
/// price mode has no source in the token's prices; else at its trigger
/// price and execution price, with the price recorded as last seen.
#[derive(PartialEq, Eq, Structural, Clone, Copy)]
pub struct ArmedOrderPricing {
    pub order_id: i64,
    pub evaluated: bool,
    pub trigger_eval_price: i64,
    pub execution_price: i64,
    pub last_seen_price: i64,
}

/// The first bucket at or after `i` whose key is `key`.
pub open spec fn find_bucket_from(b: Seq<ArmedBuilderOrderBucket>, key: Seq<char>, i: int) -> Option<int>
    decreases b.len() - i,
{
    if i < 0 || i >= b.len() {
        None
    } else if b[i].key@ == key {
        Some(i)
    } else {
        find_bucket_from(b, key, i + 1)
    }
}

/// The first price at or after `i` given for `key`.
pub open spec fn find_price_from(p: Seq<(String, TradeBuilderRuntimePrice)>, key: Seq<char>, i: int) -> Option<int>
    decreases p.len() - i,
{
    if i < 0 || i >= p.len() {
        None
    } else if p[i].0@ == key {
        Some(i)
    } else {
        find_price_from(p, key, i + 1)
    }
}

/// The evaluation of one order at a token's prices.
pub open spec fn spec_order_pricing(o: TradeBuilderOrder, rp: TradeBuilderRuntimePrice) -> ArmedOrderPricing {
    let missing = o.sl_trigger_price_mode matches Some(mode) && spec_sl_trigger_eval_price_for_mode(mode@, &rp) is None;
    if missing {
        ArmedOrderPricing { order_id: o.id, evaluated: false, trigger_eval_price: 0, execution_price: 0, last_seen_price: 0 }
    } else {
        let t = spec_trigger_eval_price_for_order(&o, &rp);
        let x = spec_execution_price_for_order(&o, &rp);
        ArmedOrderPricing {
            order_id: o.id,
            evaluated: true,
            trigger_eval_price: t,
            execution_price: x,
            last_seen_price: spec_last_seen_price_for_order(&o, t, x),
        }
    }
}

/// The evaluations of the orders filed under one dirty token: none without
/// a bucket for it or without prices for it; else one per order, in the
/// bucket's order.
pub open spec fn spec_token_pricings(b: Seq<ArmedBuilderOrderBucket>, token: Seq<char>, prices: Seq<(String, TradeBuilderRuntimePrice)>) -> Seq<ArmedOrderPricing> {
    match find_bucket_from(b, token, 0) {
        None => Seq::empty(),
        Some(i) => match find_price_from(prices, token, 0) {
            None => Seq::empty(),
            Some(k) => b[i].orders@.map_values(|o: TradeBuilderOrder| spec_order_pricing(o, prices[k].1)),
        },
    }
}

/// The evaluations of a cycle: dirty token by dirty token.
pub open spec fn spec_armed_evaluations(b: Seq<ArmedBuilderOrderBucket>, dirty: Seq<String>, prices: Seq<(String, TradeBuilderRuntimePrice)>) -> Seq<ArmedOrderPricing>
    decreases dirty.len(),
{
    if dirty.len() == 0 {
        Seq::empty()
    } else {
        spec_armed_evaluations(b, dirty.drop_last(), prices) + spec_token_pricings(b, dirty.last()@, prices)
    }
}

proof fn lemma_find_bucket(b: Seq<ArmedBuilderOrderBucket>, key: Seq<char>, i: int)
    ensures
        find_bucket_from(b, key, i) matches Some(j) ==> 0 <= j < b.len() && b[j].key@ == key,
    decreases b.len() - i,
{
    if 0 <= i < b.len() && b[i].key@ != key {
        lemma_find_bucket(b, key, i + 1);
    }
}

proof fn lemma_find_price(p: Seq<(String, TradeBuilderRuntimePrice)>, key: Seq<char>, i: int)
    ensures
        find_price_from(p, key, i) matches Some(j) ==> 0 <= j < p.len() && p[j].0@ == key,
    decreases p.len() - i,
{
    if 0 <= i < p.len() && p[i].0@ != key {
        lemma_find_price(p, key, i + 1);
    }
}

fn find_bucket(b: &Vec<ArmedBuilderOrderBucket>, key: &str) -> (r: Option<usize>)
    ensures
        match r {
            Some(i) => find_bucket_from(b@, key@, 0) == Some(i as int) && i < b.len(),
            None => find_bucket_from(b@, key@, 0) is None,
        },
{
    let mut i: usize = 0;
    while i < b.len()
        invariant
            i <= b.len(),
            find_bucket_from(b@, key@, 0) == find_bucket_from(b@, key@, i as int),
        decreases b.len() - i,
    {
        if str_eq(b[i].key.as_str(), key) {
            return Some(i);
        }
        i = i + 1;
    }
    None
}

fn find_price(p: &[(String, TradeBuilderRuntimePrice)], key: &str) -> (r: Option<usize>)
    ensures
        match r {
            Some(i) => find_price_from(p@, key@, 0) == Some(i as int) && i < p.len(),
            None => find_price_from(p@, key@, 0) is None,
        },
{
    let mut i: usize = 0;
    while i < p.len()
        invariant
            i <= p.len(),
            find_price_from(p@, key@, 0) == find_price_from(p@, key@, i as int),
        decreases p.len() - i,
    {
        if str_eq(p[i].0.as_str(), key) {
            return Some(i);
        }
        i = i + 1;
    }
    None
}

fn order_pricing(o: &TradeBuilderOrder, rp: &TradeBuilderRuntimePrice) -> (r: ArmedOrderPricing)
    ensures
        r == spec_order_pricing(*o, *rp),
{
    let missing = match &o.sl_trigger_price_mode {
        Some(mode) => sl_trigger_eval_price_for_mode(mode.as_str(), rp).is_none(),
        None => false,
    };
    if missing {
        return ArmedOrderPricing { order_id: o.id, evaluated: false, trigger_eval_price: 0, execution_price: 0, last_seen_price: 0 };
    }
    let t = trade_builder_trigger_eval_price_for_order(o, rp);
    let x = trade_builder_execution_price_for_order(o, rp);
    ArmedOrderPricing {
        order_id: o.id,
        evaluated: true,
        trigger_eval_price: t,
        execution_price: x,
        last_seen_price: trade_builder_last_seen_price_for_order(o, t, x),
    }
}

/// The evaluations of a cycle over the dirty tokens: for each dirty token
/// (in order) that has armed price children and prices, each of its
/// orders (in the bucket's order), evaluated at the token's prices.
pub fn evaluate_armed_orders_for_tokens(
    cache: &ArmedBuilderOrderCache,
    dirty: &[String],
    prices: &[(String, TradeBuilderRuntimePrice)],
) -> (r: Vec<ArmedOrderPricing>)
    ensures
        r@ == spec_armed_evaluations(cache.price_by_token.buckets@, dirty@, prices@),
{
    let b = &cache.price_by_token.buckets;
    let mut out: Vec<ArmedOrderPricing> = Vec::new();
    let mut t: usize = 0;
    while t < dirty.len()
        invariant
            t <= dirty.len(),
            out@ == spec_armed_evaluations(b@, dirty@.take(t as int), prices@),
        decreases dirty.len() - t,
    {
        proof {
            assert(dirty@.take(t + 1).drop_last() =~= dirty@.take(t as int));
        }
        let ghost before = out@;
        match find_bucket(b, dirty[t].as_str()) {
            None => {},
            Some(i) => match find_price(prices, dirty[t].as_str()) {
                None => {},
                Some(k) => {
                    let orders = &b[i].orders;
                    let rp = &prices[k].1;
                    let mut j: usize = 0;
                    while j < orders.len()
                        invariant
                            j <= orders.len(),
                            out@ == before + orders@.take(j as int).map_values(|o: TradeBuilderOrder| spec_order_pricing(o, *rp)),
                        decreases orders.len() - j,
                    {
                        let p = order_pricing(&orders[j], rp);
                        out.push(p);
                        proof {
                            assert(orders@.take(j + 1).map_values(|o: TradeBuilderOrder| spec_order_pricing(o, *rp))
                                =~= orders@.take(j as int).map_values(|o: TradeBuilderOrder| spec_order_pricing(o, *rp)).push(p));
                        }
                        j = j + 1;
                    }
                    assert(orders@.take(j as int) =~= orders@);
                },
            },
        }
        t = t + 1;
    }
    assert(dirty@.take(t as int) =~= dirty@);
    out
}

/// What an evaluated order comes to: it triggers; or its trigger fires but
/// the stop loss waits for the bid to confirm (its last-seen price is
/// recorded, and it starts waiting unless it already was); or it does not
/// fire (its last-seen price is recorded, and a wait is released).
#[derive(PartialEq, Eq, Structural, Clone, Copy)]
pub enum ArmedOrderDecision {
    Trigger,
    AwaitBidConfirmation { last_seen_price: i64, starts_waiting: bool },
    Hold { last_seen_price: i64, releases_wait: bool },
}

/// The decision for an evaluated order, from whether its trigger fires,
/// whether a firing stop loss must wait for the bid, and whether the order
/// already waits for one.
pub open spec fn spec_armed_order_decision(p: ArmedOrderPricing, should_trigger: bool, await_bid: bool, already_waiting: bool) -> ArmedOrderDecision {
    if should_trigger {
        if await_bid {
            ArmedOrderDecision::AwaitBidConfirmation { last_seen_price: p.last_seen_price, starts_waiting: !already_waiting }
        } else {
            ArmedOrderDecision::Trigger
        }
    } else {
        ArmedOrderDecision::Hold { last_seen_price: p.last_seen_price, releases_wait: already_waiting }
    }
}

pub fn decide_armed_order(p: &ArmedOrderPricing, should_trigger: bool, await_bid: bool, already_waiting: bool) -> (r: ArmedOrderDecision)
    ensures
        r == spec_armed_order_decision(*p, should_trigger, await_bid, already_waiting),
{
    if should_trigger {
        if await_bid {
            ArmedOrderDecision::AwaitBidConfirmation { last_seen_price: p.last_seen_price, starts_waiting: !already_waiting }
        } else {
            ArmedOrderDecision::Trigger
        }
    } else {
        ArmedOrderDecision::Hold { last_seen_price: p.last_seen_price, releases_wait: already_waiting }
    }
}

/// The error text an order carries while it waits for the bid to confirm.
pub open spec fn is_waiting_error(e: Option<String>) -> bool {
    e matches Some(s) && s@ == "composite_bid_confirmation_waiting"@
}

/// Whether an order waits for the bid to confirm its stop loss.
pub fn trade_builder_order_awaits_bid_confirmation(order: &TradeBuilderOrder) -> (r: bool)
    ensures
        r == is_waiting_error(order.last_error),
{
    match &order.last_error {
        Some(e) => str_eq(e.as_str(), "composite_bid_confirmation_waiting"),
        None => false,
    }
}

pub open spec fn count_where(s: Seq<ArmedOrderDecision>, f: spec_fn(ArmedOrderDecision) -> bool) -> nat
    decreases s.len(),
{
    if s.len() == 0 { 0 } else { count_where(s.drop_last(), f) + if f(s.last()) { 1nat } else { 0nat } }
}

pub open spec fn is_trigger() -> spec_fn(ArmedOrderDecision) -> bool {
    |d: ArmedOrderDecision| d is Trigger
}

pub open spec fn records_last_seen() -> spec_fn(ArmedOrderDecision) -> bool {
    |d: ArmedOrderDecision| !(d is Trigger)
}

pub open spec fn starts_waiting() -> spec_fn(ArmedOrderDecision) -> bool {
    |d: ArmedOrderDecision| d matches ArmedOrderDecision::AwaitBidConfirmation { starts_waiting, .. } && starts_waiting
}

pub open spec fn releases_wait() -> spec_fn(ArmedOrderDecision) -> bool {
    |d: ArmedOrderDecision| d matches ArmedOrderDecision::Hold { releases_wait, .. } && releases_wait
}

/// What a cycle did: the tokens and orders it selected, the orders it
/// evaluated and those whose price source was missing, and, of the
/// decisions, the last-seen prices recorded, the triggers, the waits
/// started and the waits released. Order ids are taken to be distinct
/// within a cycle.
pub open spec fn spec_cycle_activity(
    selected_token_count: nat,
    selected_order_count: nat,
    pricings: Seq<ArmedOrderPricing>,
    decisions: Seq<ArmedOrderDecision>,
) -> ArmedBuilderWsEvalActivity {
    ArmedBuilderWsEvalActivity {
        selected_token_count: selected_token_count as usize,
        selected_order_count: selected_order_count as usize,
        evaluated_order_count: decisions.len() as usize,
        last_seen_update_count: count_where(decisions, records_last_seen()) as usize,
        triggered_order_count: count_where(decisions, is_trigger()) as usize,
        composite_waiting_count: count_where(decisions, starts_waiting()) as usize,
        composite_released_count: count_where(decisions, releases_wait()) as usize,
        selected_source_missing_count: (pricings.len() - decisions.len()) as usize,
    }
}

proof fn lemma_count_le(s: Seq<ArmedOrderDecision>, f: spec_fn(ArmedOrderDecision) -> bool)
    ensures
        count_where(s, f) <= s.len(),
    decreases s.len(),
{
    if s.len() > 0 {
        lemma_count_le(s.drop_last(), f);
    }
}

/// The activity of a cycle that selected `selected_token_count` tokens
/// holding `selected_order_count` orders, evaluated `pricings` and decided
/// `decisions` for the evaluated ones.
pub fn armed_cycle_activity(
    selected_token_count: usize,
    selected_order_count: usize,
    pricings: &[ArmedOrderPricing],
    decisions: &[ArmedOrderDecision],
) -> (r: ArmedBuilderWsEvalActivity)
    requires
        decisions.len() <= pricings.len(),
    ensures
        r == spec_cycle_activity(selected_token_count as nat, selected_order_count as nat, pricings@, decisions@),
{
    let mut last_seen: usize = 0;
    let mut triggered: usize = 0;
    let mut waiting: usize = 0;
    let mut released: usize = 0;
    let mut i: usize = 0;
    while i < decisions.len()
        invariant
            i <= decisions.len(),
            last_seen == count_where(decisions@.take(i as int), records_last_seen()),
            triggered == count_where(decisions@.take(i as int), is_trigger()),
            waiting == count_where(decisions@.take(i as int), starts_waiting()),
            released == count_where(decisions@.take(i as int), releases_wait()),
        decreases decisions.len() - i,
    {
        proof {
            let s = decisions@.take(i + 1);
            assert(s.drop_last() =~= decisions@.take(i as int));
            lemma_count_le(decisions@.take(i as int), records_last_seen());
            lemma_count_le(decisions@.take(i as int), is_trigger());
            lemma_count_le(decisions@.take(i as int), starts_waiting());
            lemma_count_le(decisions@.take(i as int), releases_wait());
        }
        match decisions[i] {
            ArmedOrderDecision::Trigger => {
                triggered = triggered + 1;
            },
            ArmedOrderDecision::AwaitBidConfirmation { starts_waiting, .. } => {
                last_seen = last_seen + 1;
                if starts_waiting {
                    waiting = waiting + 1;
                }
            },
            ArmedOrderDecision::Hold { releases_wait, .. } => {
                last_seen = last_seen + 1;
                if releases_wait {
                    released = released + 1;
                }
            },
        }
        i = i + 1;
    }
    assert(decisions@.take(i as int) =~= decisions@);
    ArmedBuilderWsEvalActivity {
        selected_token_count,
        selected_order_count,
        evaluated_order_count: decisions.len(),
        last_seen_update_count: last_seen,
        triggered_order_count: triggered,
        composite_waiting_count: waiting,
        composite_released_count: released,
        selected_source_missing_count: pricings.len() - decisions.len(),
    }
}

/// Whether the `k`-th order filed under the `t`-th dirty token is one a
/// cycle selects: the token has a bucket and prices, and the bucket that
/// many orders.
pub open spec fn selects(b: Seq<ArmedBuilderOrderBucket>, dirty: Seq<String>, prices: Seq<(String, TradeBuilderRuntimePrice)>, t: int, k: int) -> bool {
    &&& 0 <= t < dirty.len()
    &&& find_bucket_from(b, dirty[t]@, 0) is Some
    &&& find_price_from(prices, dirty[t]@, 0) is Some
    &&& 0 <= k < b[find_bucket_from(b, dirty[t]@, 0)->0].orders@.len()
}

/// The evaluation of that order at that token's prices.
pub open spec fn selected_pricing(b: Seq<ArmedBuilderOrderBucket>, dirty: Seq<String>, prices: Seq<(String, TradeBuilderRuntimePrice)>, t: int, k: int) -> ArmedOrderPricing {
    spec_order_pricing(b[find_bucket_from(b, dirty[t]@, 0)->0].orders@[k], prices[find_price_from(prices, dirty[t]@, 0)->0].1)
}

/// Law: a cycle evaluates every armed price child filed under a dirty
/// token that has prices, at that token's prices.
pub proof fn law_cycle_evaluates_each_selected_order(cache: ArmedBuilderOrderCache, dirty: Seq<String>, prices: Seq<(String, TradeBuilderRuntimePrice)>, t: int, k: int)
    requires
        selects(cache.price_by_token.buckets@, dirty, prices, t, k),
    ensures
        spec_armed_evaluations(cache.price_by_token.buckets@, dirty, prices).contains(selected_pricing(cache.price_by_token.buckets@, dirty, prices, t, k)),
    decreases dirty.len(),
{
    let b = cache.price_by_token.buckets@;
    let d = dirty.drop_last();
    let prev = spec_armed_evaluations(b, d, prices);
    let tail = spec_token_pricings(b, dirty.last()@, prices);
    let all = spec_armed_evaluations(b, dirty, prices);
    assert(all == prev + tail);
    let x = selected_pricing(b, dirty, prices, t, k);
    if t < dirty.len() - 1 {
        assert(d[t] == dirty[t]);
        assert(selects(b, d, prices, t, k));
        law_cycle_evaluates_each_selected_order(cache, d, prices, t, k);
        assert(selected_pricing(b, d, prices, t, k) == x);
        let m = choose|m: int| 0 <= m < prev.len() && prev[m] == x;
        assert(all[m] == prev[m]);
    } else {
        assert(dirty[t] == dirty.last());
        assert(tail[k] == x);
        assert(all[prev.len() + k] == tail[k]);
    }
}

/// Law: every evaluation of a cycle is of an armed price child filed under
/// a dirty token that has prices, at that token's prices; the result names
/// which (token position, position in the bucket).
pub proof fn law_cycle_evaluates_only_selected_orders(cache: ArmedBuilderOrderCache, dirty: Seq<String>, prices: Seq<(String, TradeBuilderRuntimePrice)>, j: int) -> (w: (int, int))
    requires
        0 <= j < spec_armed_evaluations(cache.price_by_token.buckets@, dirty, prices).len(),
    ensures
        selects(cache.price_by_token.buckets@, dirty, prices, w.0, w.1),
        spec_armed_evaluations(cache.price_by_token.buckets@, dirty, prices)[j] == selected_pricing(cache.price_by_token.buckets@, dirty, prices, w.0, w.1),
    decreases dirty.len(),
{
    let b = cache.price_by_token.buckets@;
    let d = dirty.drop_last();
    let prev = spec_armed_evaluations(b, d, prices);
    let tail = spec_token_pricings(b, dirty.last()@, prices);
    let all = spec_armed_evaluations(b, dirty, prices);
    assert(all == prev + tail);
    if j < prev.len() {
        assert(all[j] == prev[j]);
        let w = law_cycle_evaluates_only_selected_orders(cache, d, prices, j);
        assert(d[w.0] == dirty[w.0]);
        w
    } else {
        let k = j - prev.len();
        assert(all[j] == tail[k]);
        let t = dirty.len() - 1;
        assert(dirty[t] == dirty.last());
        (t, k)
    }
}

/// Law: what one order's evaluation holds. It is not evaluated exactly
/// when its stop-loss mode names a source the prices lack; when evaluated
/// it carries the order's id, the order's trigger price and execution price
/// at those prices, and as last seen the execution price for an exit sell.
pub proof fn law_order_pricing_reads_the_order(o: TradeBuilderOrder, rp: TradeBuilderRuntimePrice)
    ensures
        spec_order_pricing(o, rp).order_id == o.id,
        !spec_order_pricing(o, rp).evaluated <==> (o.sl_trigger_price_mode is Some
            && spec_sl_trigger_eval_price_for_mode(o.sl_trigger_price_mode->0@, &rp) is None),
        spec_order_pricing(o, rp).evaluated ==> spec_order_pricing(o, rp).trigger_eval_price == spec_trigger_eval_price_for_order(&o, &rp)
            && spec_order_pricing(o, rp).execution_price == spec_execution_price_for_order(&o, &rp),
        (spec_order_pricing(o, rp).evaluated && crate::order::spec_is_child_exit_sell(&o))
            ==> spec_order_pricing(o, rp).last_seen_price == spec_order_pricing(o, rp).execution_price,
{
}

/// Law: an evaluated order triggers exactly when its trigger fires and it
/// need not wait for the bid; a firing order that must wait records its
/// last seen price and starts waiting unless it already was; an order that
/// does not fire records its last seen price and releases a wait it had.
pub proof fn law_armed_decision(p: ArmedOrderPricing, should_trigger: bool, await_bid: bool, already_waiting: bool)
    ensures
        (spec_armed_order_decision(p, should_trigger, await_bid, already_waiting) is Trigger) <==> (should_trigger && !await_bid),
        spec_armed_order_decision(p, should_trigger, await_bid, already_waiting) matches ArmedOrderDecision::AwaitBidConfirmation { last_seen_price, starts_waiting }
            ==> should_trigger && await_bid && last_seen_price == p.last_seen_price && starts_waiting == !already_waiting,
        spec_armed_order_decision(p, should_trigger, await_bid, already_waiting) matches ArmedOrderDecision::Hold { last_seen_price, releases_wait }
            ==> !should_trigger && last_seen_price == p.last_seen_price && releases_wait == already_waiting,
{
}

} // verus!
