//! Exit ladders: the take-profit, stop-loss and time rules of an order,
//! their validation, and the classification of the child orders that carry
//! them out.
use vstd::prelude::*;
use crate::order::{
    TradeBuilderOrder, TradeBuilderPriceExitRule, TradeBuilderTimeExitRule, spec_is_child_exit_sell,
    spec_is_take_profit_child, spec_is_stop_loss_child, spec_is_terminal_status, opt_text,
    trade_builder_is_child_exit_sell, trade_builder_is_take_profit_child,
    trade_builder_is_stop_loss_child, trade_builder_is_terminal_status,
};
use crate::text::{str_eq, trim, trimmed_non_empty};

verus! {

broadcast use vstd::string::group_string_axioms;

pub const TRADE_BUILDER_EXIT_LADDER_KIND_TP: &'static str = "tp";
pub const TRADE_BUILDER_EXIT_LADDER_KIND_SL: &'static str = "sl";
pub const TRADE_BUILDER_EXIT_LADDER_KIND_PTB_SL: &'static str = "ptb_sl";
pub const TRADE_BUILDER_EXIT_LADDER_MAX_RULES: usize = 5;
pub const TRADE_BUILDER_EXIT_MODE_HARD: &'static str = "hard";
pub const TRADE_BUILDER_EXIT_MODE_STAGED: &'static str = "staged";
pub const TRADE_BUILDER_EXIT_SIBLING_POLICY_CANCEL_ALL: &'static str = "cancel_all";
pub const TRADE_BUILDER_EXIT_SIBLING_POLICY_RESIZE_REMAINING: &'static str = "resize_remaining";

/// One dollar per share, in millionths.
pub const PRICE_ONE: i64 = 1_000_000;
/// One hundred percent, in millionths of a percent.
pub const PCT_HUNDRED: i64 = 100_000_000;

/// Why a ladder of exit rules is refused.
#[derive(Debug, PartialEq, Eq)]
pub enum ExitRuleError {
    /// More rules than a ladder may hold.
    TooManyRules,
    /// A price outside (0, 1].
    PriceOutOfRange { index: usize },
    /// A size outside (0, 100] percent.
    SizePctOutOfRange { index: usize },
    /// Take-profit prices must rise from stage to stage.
    PricesNotIncreasing,
    /// Stop-loss prices must fall from stage to stage.
    PricesNotDecreasing,
    /// The sizes of a non-empty ladder must add up to 100 percent.
    SizeTotalNot100,
    /// An elapsed time that is not positive.
    ElapsedMinutesNotPositive { index: usize },
    /// A remaining share outside (0, 100] percent.
    RemainingPctOutOfRange { index: usize },
    /// Elapsed times must rise from stage to stage.
    ElapsedMinutesNotIncreasing,
}

/// The fault of a price rule, judged against the rule before it.
pub open spec fn price_rule_fault(rules: Seq<TradeBuilderPriceExitRule>, family: Seq<char>, i: int) -> Option<ExitRuleError> {
    let r = rules[i];
    if !(0 < r.price && r.price <= PRICE_ONE) {
        Some(ExitRuleError::PriceOutOfRange { index: i as usize })
    } else if !(0 < r.size_pct && r.size_pct <= PCT_HUNDRED) {
        Some(ExitRuleError::SizePctOutOfRange { index: i as usize })
    } else if i > 0 && family == TRADE_BUILDER_EXIT_LADDER_KIND_TP@ && !(r.price > rules[i - 1].price) {
        Some(ExitRuleError::PricesNotIncreasing)
    } else if i > 0 && family != TRADE_BUILDER_EXIT_LADDER_KIND_TP@ && !(r.price < rules[i - 1].price) {
        Some(ExitRuleError::PricesNotDecreasing)
    } else {
        None
    }
}

/// The first fault among the price rules from index `i` on.
pub open spec fn first_price_rule_fault(rules: Seq<TradeBuilderPriceExitRule>, family: Seq<char>, i: int) -> Option<ExitRuleError>
    decreases rules.len() - i,
{
    if i < 0 || i >= rules.len() {
        None
    } else {
        match price_rule_fault(rules, family, i) {
            Some(e) => Some(e),
            None => first_price_rule_fault(rules, family, i + 1),
        }
    }
}

/// The total size of a ladder.
pub open spec fn total_size_pct(rules: Seq<TradeBuilderPriceExitRule>) -> int
    decreases rules.len(),
{
    if rules.len() == 0 {
        0
    } else {
        total_size_pct(rules.drop_last()) + rules.last().size_pct
    }
}

/// A price ladder is valid when it has at most five rules, each with a price
/// in (0, 1] and a size in (0, 100] percent, with prices rising (take profit)
/// or falling (any other family), and sizes adding up to 100 percent within
/// one millionth of a percent.
pub open spec fn spec_validate_price_exit_rules(rules: Seq<TradeBuilderPriceExitRule>, family: Seq<char>) -> Result<(), ExitRuleError> {
    if rules.len() > TRADE_BUILDER_EXIT_LADDER_MAX_RULES {
        Err(ExitRuleError::TooManyRules)
    } else {
        match first_price_rule_fault(rules, family, 0) {
            Some(e) => Err(e),
            None => {
                let total = total_size_pct(rules);
                if rules.len() == 0 || (-1 <= total - PCT_HUNDRED && total - PCT_HUNDRED <= 1) {
                    Ok(())
                } else {
                    Err(ExitRuleError::SizeTotalNot100)
                }
            },
        }
    }
}

pub fn validate_trade_builder_price_exit_rules(rules: &[TradeBuilderPriceExitRule], family: &str) -> (r: Result<(), ExitRuleError>)
    ensures
        r == spec_validate_price_exit_rules(rules@, family@),
{
    if rules.len() > TRADE_BUILDER_EXIT_LADDER_MAX_RULES {
        return Err(ExitRuleError::TooManyRules);
    }
    let is_tp = str_eq(family, TRADE_BUILDER_EXIT_LADDER_KIND_TP);
    let mut total: i64 = 0;
    let mut i: usize = 0;
    while i < rules.len()
        invariant
            i <= rules.len() <= TRADE_BUILDER_EXIT_LADDER_MAX_RULES,
            is_tp == (family@ == TRADE_BUILDER_EXIT_LADDER_KIND_TP@),
            first_price_rule_fault(rules@, family@, 0) == first_price_rule_fault(rules@, family@, i as int),
            total == total_size_pct(rules@.subrange(0, i as int)),
            0 <= total <= i * PCT_HUNDRED,
        decreases rules.len() - i,
    {
        let rule = rules[i];
        if !(0 < rule.price && rule.price <= PRICE_ONE) {
            return Err(ExitRuleError::PriceOutOfRange { index: i });
        }
        if !(0 < rule.size_pct && rule.size_pct <= PCT_HUNDRED) {
            return Err(ExitRuleError::SizePctOutOfRange { index: i });
        }
        if i > 0 {
            let previous_price = rules[i - 1].price;
            if is_tp {
                if !(rule.price > previous_price) {
                    return Err(ExitRuleError::PricesNotIncreasing);
                }
            } else {
                if !(rule.price < previous_price) {
                    return Err(ExitRuleError::PricesNotDecreasing);
                }
            }
        }
        proof {
            let p = rules@.subrange(0, i + 1);
            assert(p.drop_last() =~= rules@.subrange(0, i as int));
            assert(p.last() == rule);
        }
        total = total + rule.size_pct;
        i = i + 1;
    }
    assert(rules@.subrange(0, rules.len() as int) =~= rules@);
    if rules.len() == 0 || (-1 <= total - PCT_HUNDRED && total - PCT_HUNDRED <= 1) {
        Ok(())
    } else {
        Err(ExitRuleError::SizeTotalNot100)
    }
}

/// The fault of a time rule, judged against the rule before it.
pub open spec fn time_rule_fault(rules: Seq<TradeBuilderTimeExitRule>, i: int) -> Option<ExitRuleError> {
    let r = rules[i];
    if !(r.elapsed_minutes > 0) {
        Some(ExitRuleError::ElapsedMinutesNotPositive { index: i as usize })
    } else if !(0 < r.remaining_pct && r.remaining_pct <= PCT_HUNDRED) {
        Some(ExitRuleError::RemainingPctOutOfRange { index: i as usize })
    } else if i > 0 && !(r.elapsed_minutes > rules[i - 1].elapsed_minutes) {
        Some(ExitRuleError::ElapsedMinutesNotIncreasing)
    } else {
        None
    }
}

/// The first fault among the time rules from index `i` on.
pub open spec fn first_time_rule_fault(rules: Seq<TradeBuilderTimeExitRule>, i: int) -> Option<ExitRuleError>
    decreases rules.len() - i,
{
    if i < 0 || i >= rules.len() {
        None
    } else {
        match time_rule_fault(rules, i) {
            Some(e) => Some(e),
            None => first_time_rule_fault(rules, i + 1),
        }
    }
}

/// A time ladder is valid when it has at most five rules, each with a
/// positive elapsed time and a remaining share in (0, 100] percent, with
/// elapsed times strictly rising.
pub open spec fn spec_validate_time_exit_rules(rules: Seq<TradeBuilderTimeExitRule>) -> Result<(), ExitRuleError> {
    if rules.len() > TRADE_BUILDER_EXIT_LADDER_MAX_RULES {
        Err(ExitRuleError::TooManyRules)
    } else {
        match first_time_rule_fault(rules, 0) {
            Some(e) => Err(e),
            None => Ok(()),
        }
    }
}

pub fn validate_trade_builder_time_exit_rules(rules: &[TradeBuilderTimeExitRule]) -> (r: Result<(), ExitRuleError>)
    ensures
        r == spec_validate_time_exit_rules(rules@),
{
    if rules.len() > TRADE_BUILDER_EXIT_LADDER_MAX_RULES {
        return Err(ExitRuleError::TooManyRules);
    }
    let mut i: usize = 0;
    while i < rules.len()
        invariant
            i <= rules.len() <= TRADE_BUILDER_EXIT_LADDER_MAX_RULES,
            first_time_rule_fault(rules@, 0) == first_time_rule_fault(rules@, i as int),
        decreases rules.len() - i,
    {
        let rule = rules[i];
        if !(rule.elapsed_minutes > 0) {
            return Err(ExitRuleError::ElapsedMinutesNotPositive { index: i });
        }
        if !(0 < rule.remaining_pct && rule.remaining_pct <= PCT_HUNDRED) {
            return Err(ExitRuleError::RemainingPctOutOfRange { index: i });
        }
        if i > 0 && !(rule.elapsed_minutes > rules[i - 1].elapsed_minutes) {
            return Err(ExitRuleError::ElapsedMinutesNotIncreasing);
        }
        i = i + 1;
    }
    Ok(())
}

/// The exit-ladder kind of an order, trimmed, when not blank.
pub open spec fn spec_exit_ladder_kind(order: &TradeBuilderOrder) -> Option<Seq<char>> {
    match opt_text(order.exit_ladder_kind) {
        Some(k) => if trim(k).len() > 0 { Some(trim(k)) } else { None },
        None => None,
    }
}

pub fn trade_builder_exit_ladder_kind(order: &TradeBuilderOrder) -> (r: Option<String>)
    ensures
        opt_text(r) == spec_exit_ladder_kind(order),
{
    match &order.exit_ladder_kind {
        Some(k) => trimmed_non_empty(k.as_str()),
        None => None,
    }
}

pub open spec fn is_ladder_family(kind: Seq<char>) -> bool {
    kind == TRADE_BUILDER_EXIT_LADDER_KIND_TP@ || kind == TRADE_BUILDER_EXIT_LADDER_KIND_SL@
        || kind == TRADE_BUILDER_EXIT_LADDER_KIND_PTB_SL@
}

/// A stage of a take-profit, stop-loss or price-to-beat stop-loss ladder.
pub open spec fn spec_is_price_exit_ladder_child(order: &TradeBuilderOrder) -> bool {
    spec_exit_ladder_kind(order) matches Some(k) && is_ladder_family(k)
}

fn opt_string_eq(v: &Option<String>, expected: &str) -> (r: bool)
    ensures
        r == (opt_text(*v) == Some(expected@)),
{
    match v {
        Some(s) => str_eq(s.as_str(), expected),
        None => false,
    }
}

pub fn trade_builder_is_price_exit_ladder_child(order: &TradeBuilderOrder) -> (r: bool)
    ensures
        r == spec_is_price_exit_ladder_child(order),
{
    let kind = trade_builder_exit_ladder_kind(order);
    opt_string_eq(&kind, TRADE_BUILDER_EXIT_LADDER_KIND_TP) || opt_string_eq(&kind, TRADE_BUILDER_EXIT_LADDER_KIND_SL)
        || opt_string_eq(&kind, TRADE_BUILDER_EXIT_LADDER_KIND_PTB_SL)
}

/// A child exit sell that belongs to no ladder.
pub open spec fn spec_is_hard_exit_child(order: &TradeBuilderOrder) -> bool {
    spec_is_child_exit_sell(order) && spec_exit_ladder_kind(order) is None
}

pub fn trade_builder_is_hard_exit_child(order: &TradeBuilderOrder) -> (r: bool)
    ensures
        r == spec_is_hard_exit_child(order),
{
    trade_builder_is_child_exit_sell(order) && trade_builder_exit_ladder_kind(order).is_none()
}

pub fn trade_builder_exit_mode(order: &TradeBuilderOrder) -> (r: &'static str)
    ensures
        r@ == if spec_is_price_exit_ladder_child(order) { TRADE_BUILDER_EXIT_MODE_STAGED@ } else { TRADE_BUILDER_EXIT_MODE_HARD@ },
{
    if trade_builder_is_price_exit_ladder_child(order) {
        TRADE_BUILDER_EXIT_MODE_STAGED
    } else {
        TRADE_BUILDER_EXIT_MODE_HARD
    }
}

/// The exit family of an order: price-to-beat stop loss by its ladder kind,
/// then take profit or stop loss by its trigger.
pub open spec fn spec_exit_family(order: &TradeBuilderOrder) -> Option<Seq<char>> {
    if spec_exit_ladder_kind(order) == Some(TRADE_BUILDER_EXIT_LADDER_KIND_PTB_SL@) {
        Some(TRADE_BUILDER_EXIT_LADDER_KIND_PTB_SL@)
    } else if spec_is_take_profit_child(order) {
        Some(TRADE_BUILDER_EXIT_LADDER_KIND_TP@)
    } else if spec_is_stop_loss_child(order) {
        Some(TRADE_BUILDER_EXIT_LADDER_KIND_SL@)
    } else {
        None
    }
}

pub fn trade_builder_exit_family(order: &TradeBuilderOrder) -> (r: Option<&'static str>)
    ensures
        crate::exit_errors::opt_str_text(r) == spec_exit_family(order),
{
    let kind = trade_builder_exit_ladder_kind(order);
    if opt_string_eq(&kind, TRADE_BUILDER_EXIT_LADDER_KIND_PTB_SL) {
        return Some(TRADE_BUILDER_EXIT_LADDER_KIND_PTB_SL);
    }
    if trade_builder_is_take_profit_child(order) {
        return Some(TRADE_BUILDER_EXIT_LADDER_KIND_TP);
    }
    if trade_builder_is_stop_loss_child(order) {
        return Some(TRADE_BUILDER_EXIT_LADDER_KIND_SL);
    }
    None
}

/// When one exit fills, its hard siblings are all canceled and ladder
/// siblings are resized to what remains.
pub fn trade_builder_exit_sibling_policy(order: &TradeBuilderOrder) -> (r: &'static str)
    ensures
        r@ == if spec_is_hard_exit_child(order) {
            TRADE_BUILDER_EXIT_SIBLING_POLICY_CANCEL_ALL@
        } else {
            TRADE_BUILDER_EXIT_SIBLING_POLICY_RESIZE_REMAINING@
        },
{
    if trade_builder_is_hard_exit_child(order) {
        TRADE_BUILDER_EXIT_SIBLING_POLICY_CANCEL_ALL
    } else {
        TRADE_BUILDER_EXIT_SIBLING_POLICY_RESIZE_REMAINING
    }
}

pub fn trade_builder_normalized_tp_rules(order: &TradeBuilderOrder) -> (r: Vec<TradeBuilderPriceExitRule>)
    ensures
        r@ == order.tp_rules_json@,
{
    copy_price_rules(&order.tp_rules_json)
}

pub fn trade_builder_normalized_sl_rules(order: &TradeBuilderOrder) -> (r: Vec<TradeBuilderPriceExitRule>)
    ensures
        r@ == order.sl_rules_json@,
{
    copy_price_rules(&order.sl_rules_json)
}

fn copy_price_rules(rules: &Vec<TradeBuilderPriceExitRule>) -> (r: Vec<TradeBuilderPriceExitRule>)
    ensures
        r@ == rules@,
{
    let mut out: Vec<TradeBuilderPriceExitRule> = Vec::new();
    let mut i: usize = 0;
    while i < rules.len()
        invariant
            i <= rules.len(),
            out@ == rules@.subrange(0, i as int),
        decreases rules.len() - i,
    {
        out.push(rules[i]);
        proof { assert(rules@.subrange(0, i + 1) =~= rules@.subrange(0, i as int).push(rules@[i as int])); }
        i = i + 1;
    }
    assert(rules@.subrange(0, rules.len() as int) =~= rules@);
    out
}

pub fn trade_builder_normalized_time_exit_rules(order: &TradeBuilderOrder) -> (r: Vec<TradeBuilderTimeExitRule>)
    ensures
        r@ == order.time_exit_rules_json@,
{
    let rules = &order.time_exit_rules_json;
    let mut out: Vec<TradeBuilderTimeExitRule> = Vec::new();
    let mut i: usize = 0;
    while i < rules.len()
        invariant
            i <= rules.len(),
            out@ == rules@.subrange(0, i as int),
        decreases rules.len() - i,
    {
        out.push(rules[i]);
        proof { assert(rules@.subrange(0, i + 1) =~= rules@.subrange(0, i as int).push(rules@[i as int])); }
        i = i + 1;
    }
    assert(rules@.subrange(0, rules.len() as int) =~= rules@);
    out
}

/// A single-stage exit of the whole position at a fixed price, when enabled.
pub open spec fn spec_hard_price_exit_rule(enabled: bool, price: Option<i64>) -> Option<TradeBuilderPriceExitRule> {
    if enabled {
        match price {
            Some(p) => Some(TradeBuilderPriceExitRule { price: p, size_pct: PCT_HUNDRED }),
            None => None,
        }
    } else {
        None
    }
}

pub fn trade_builder_hard_price_exit_rule(enabled: bool, price: Option<i64>) -> (r: Option<TradeBuilderPriceExitRule>)
    ensures
        r == spec_hard_price_exit_rule(enabled, price),
{
    if enabled {
        match price {
            Some(p) => Some(TradeBuilderPriceExitRule { price: p, size_pct: PCT_HUNDRED }),
            None => None,
        }
    } else {
        None
    }
}

pub fn trade_builder_hard_tp_rule(order: &TradeBuilderOrder) -> (r: Option<TradeBuilderPriceExitRule>)
    ensures
        r == spec_hard_price_exit_rule(order.tp_enabled, order.tp_price),
{
    trade_builder_hard_price_exit_rule(order.tp_enabled, order.tp_price)
}

pub fn trade_builder_hard_sl_rule(order: &TradeBuilderOrder) -> (r: Option<TradeBuilderPriceExitRule>)
    ensures
        r == spec_hard_price_exit_rule(order.sl_enabled, order.sl_price),
{
    trade_builder_hard_price_exit_rule(order.sl_enabled, order.sl_price)
}

/// Whether an order carries any exit rule.
pub open spec fn spec_order_has_exit_ladders(order: &TradeBuilderOrder) -> bool {
    ||| spec_hard_price_exit_rule(order.tp_enabled, order.tp_price) is Some
    ||| spec_hard_price_exit_rule(order.sl_enabled, order.sl_price) is Some
    ||| order.tp_rules_json@.len() > 0
    ||| order.sl_rules_json@.len() > 0
    ||| order.ptb_stop_loss_rules_json@.len() > 0
    ||| order.time_exit_rules_json@.len() > 0
}

pub fn trade_builder_order_has_exit_ladders(order: &TradeBuilderOrder) -> (r: bool)
    ensures
        r == spec_order_has_exit_ladders(order),
{
    trade_builder_hard_tp_rule(order).is_some() || trade_builder_hard_sl_rule(order).is_some()
        || trade_builder_normalized_tp_rules(order).len() > 0
        || trade_builder_normalized_sl_rules(order).len() > 0
        || order.ptb_stop_loss_rules_json.len() > 0
        || trade_builder_normalized_time_exit_rules(order).len() > 0
}

/// Whether a child is a live stage of the given ladder family.
pub open spec fn is_live_ladder_child(order: TradeBuilderOrder, family: Seq<char>) -> bool {
    spec_exit_ladder_kind(&order) == Some(family) && !spec_is_terminal_status(order.status@)
}

/// Whether a child is a live hard exit.
pub open spec fn is_live_hard_exit_child(order: TradeBuilderOrder) -> bool {
    spec_is_hard_exit_child(&order) && !spec_is_terminal_status(order.status@)
}

/// The positions of the live stages of a family, in order.
pub open spec fn live_ladder_positions(children: Seq<TradeBuilderOrder>, family: Seq<char>) -> Seq<int>
    decreases children.len(),
{
    if children.len() == 0 {
        Seq::empty()
    } else if is_live_ladder_child(children.last(), family) {
        live_ladder_positions(children.drop_last(), family).push(children.len() - 1)
    } else {
        live_ladder_positions(children.drop_last(), family)
    }
}

/// The positions of the live hard exits, in order.
pub open spec fn live_hard_exit_positions(children: Seq<TradeBuilderOrder>) -> Seq<int>
    decreases children.len(),
{
    if children.len() == 0 {
        Seq::empty()
    } else if is_live_hard_exit_child(children.last()) {
        live_hard_exit_positions(children.drop_last()).push(children.len() - 1)
    } else {
        live_hard_exit_positions(children.drop_last())
    }
}

/// The views of borrowed orders.
pub open spec fn deref_orders(v: Seq<&TradeBuilderOrder>) -> Seq<TradeBuilderOrder> {
    v.map_values(|o: &TradeBuilderOrder| *o)
}

/// The live children of a ladder family, in order.
pub fn trade_builder_live_ladder_children<'a>(children: &'a [TradeBuilderOrder], family: &str) -> (r: Vec<&'a TradeBuilderOrder>)
    ensures
        deref_orders(r@) == live_ladder_positions(children@, family@).map_values(|i: int| children@[i]),
{
    let mut out: Vec<&'a TradeBuilderOrder> = Vec::new();
    let mut i: usize = 0;
    while i < children.len()
        invariant
            i <= children.len(),
            deref_orders(out@) == live_ladder_positions(children@.subrange(0, i as int), family@).map_values(|j: int| children@[j]),
        decreases children.len() - i,
    {
        let o = &children[i];
        let kind = trade_builder_exit_ladder_kind(o);
        let live = opt_string_eq(&kind, family) && !trade_builder_is_terminal_status(o.status.as_str());
        let ghost before = out@;
        proof {
            let p = children@.subrange(0, i + 1);
            assert(p.drop_last() =~= children@.subrange(0, i as int));
            assert(p.last() == children@[i as int]);
        }
        if live {
            out.push(o);
            proof {
                let pos = live_ladder_positions(children@.subrange(0, i as int), family@);
                assert(deref_orders(out@) =~= deref_orders(before).push(*o));
                assert(pos.push(i as int).map_values(|j: int| children@[j]) =~= pos.map_values(|j: int| children@[j]).push(children@[i as int]));
            }
        }
        i = i + 1;
    }
    assert(children@.subrange(0, children.len() as int) =~= children@);
    out
}

/// The live hard exits among the children, in order.
pub fn trade_builder_live_hard_exit_children<'a>(children: &'a [TradeBuilderOrder]) -> (r: Vec<&'a TradeBuilderOrder>)
    ensures
        deref_orders(r@) == live_hard_exit_positions(children@).map_values(|i: int| children@[i]),
{
    let mut out: Vec<&'a TradeBuilderOrder> = Vec::new();
    let mut i: usize = 0;
    while i < children.len()
        invariant
            i <= children.len(),
            deref_orders(out@) == live_hard_exit_positions(children@.subrange(0, i as int)).map_values(|j: int| children@[j]),
        decreases children.len() - i,
    {
        let o = &children[i];
        let live = trade_builder_is_hard_exit_child(o) && !trade_builder_is_terminal_status(o.status.as_str());
        let ghost before = out@;
        proof {
            let p = children@.subrange(0, i + 1);
            assert(p.drop_last() =~= children@.subrange(0, i as int));
            assert(p.last() == children@[i as int]);
        }
        if live {
            out.push(o);
            proof {
                let pos = live_hard_exit_positions(children@.subrange(0, i as int));
                assert(deref_orders(out@) =~= deref_orders(before).push(*o));
                assert(pos.push(i as int).map_values(|j: int| children@[j]) =~= pos.map_values(|j: int| children@[j]).push(children@[i as int]));
            }
        }
        i = i + 1;
    }
    assert(children@.subrange(0, children.len() as int) =~= children@);
    out
}

/// Every price rule is sound: a price in (0, 1], a size in (0, 100]
/// percent, and prices rising for a take-profit ladder, falling for any
/// other.
pub open spec fn price_rules_sound(rules: Seq<TradeBuilderPriceExitRule>, family: Seq<char>) -> bool {
    &&& forall|i: int| 0 <= i < rules.len() ==> 0 < #[trigger] rules[i].price <= PRICE_ONE
    &&& forall|i: int| 0 <= i < rules.len() ==> 0 < #[trigger] rules[i].size_pct <= PCT_HUNDRED
    &&& forall|i: int| 0 < i < rules.len() ==> (if family == TRADE_BUILDER_EXIT_LADDER_KIND_TP@ {
        #[trigger] rules[i].price > rules[i - 1].price
    } else {
        rules[i].price < rules[i - 1].price
    })
}

proof fn lemma_first_price_rule_fault(rules: Seq<TradeBuilderPriceExitRule>, family: Seq<char>, i: int)
    requires
        0 <= i <= rules.len(),
    ensures
        first_price_rule_fault(rules, family, i) is None
            <==> forall|j: int| i <= j < rules.len() ==> #[trigger] price_rule_fault(rules, family, j) is None,
    decreases rules.len() - i,
{
    if i < rules.len() {
        lemma_first_price_rule_fault(rules, family, i + 1);
    }
}

/// Law: a price ladder is accepted exactly when it has at most five rules,
/// every rule is sound (see `price_rules_sound`), and, unless it is empty,
/// its sizes add up to 100 percent within one millionth of a percent.
pub proof fn law_price_exit_rules_closed_form(rules: Seq<TradeBuilderPriceExitRule>, family: Seq<char>)
    ensures
        spec_validate_price_exit_rules(rules, family) is Ok <==> (
            rules.len() <= TRADE_BUILDER_EXIT_LADDER_MAX_RULES
            && price_rules_sound(rules, family)
            && (rules.len() == 0 || (-1 <= total_size_pct(rules) - PCT_HUNDRED <= 1))),
{
    lemma_first_price_rule_fault(rules, family, 0);
    if price_rules_sound(rules, family) {
        assert forall|j: int| 0 <= j < rules.len() implies #[trigger] price_rule_fault(rules, family, j) is None by {
            assert(0 < rules[j].price <= PRICE_ONE);
            assert(0 < rules[j].size_pct <= PCT_HUNDRED);
            if j > 0 {
                assert(if family == TRADE_BUILDER_EXIT_LADDER_KIND_TP@ { rules[j].price > rules[j - 1].price } else { rules[j].price < rules[j - 1].price });
            }
        }
    }
    if first_price_rule_fault(rules, family, 0) is None {
        assert forall|i: int| 0 <= i < rules.len() implies 0 < #[trigger] rules[i].price <= PRICE_ONE by {
            assert(price_rule_fault(rules, family, i) is None);
        }
        assert forall|i: int| 0 <= i < rules.len() implies 0 < #[trigger] rules[i].size_pct <= PCT_HUNDRED by {
            assert(price_rule_fault(rules, family, i) is None);
        }
        assert forall|i: int| 0 < i < rules.len() implies (if family == TRADE_BUILDER_EXIT_LADDER_KIND_TP@ {
            #[trigger] rules[i].price > rules[i - 1].price
        } else {
            rules[i].price < rules[i - 1].price
        }) by {
            assert(price_rule_fault(rules, family, i) is None);
        }
    }
}

} // verus!
