//! The guards a buy passes before it is submitted: the trigger-price guard,
//! the best-ask execution floor, the maximum price, and the pair-lock wait
//! for a best ask. Prices are in millionths of a dollar per share.
use vstd::prelude::*;
use crate::json::{JsonValue, JsonView, view_members, push_member, object_from};
use crate::decimal::{micros_json, opt_micros_json, micros_value, opt_micros_value};
use crate::text::str_eq;

verus! {

broadcast use vstd::string::group_string_axioms;

/// One dollar per share, the highest probability price.
pub const PROBABILITY_ONE: i64 = 1_000_000;

/// The diagnostic record of one buy guard.
pub open spec fn spec_guard_diagnostic_payload(configured: bool, decision: Seq<char>, reason_code: Seq<char>, details: JsonView) -> JsonView {
    JsonView::Object(seq![
        ("configured"@, JsonView::Bool(configured)),
        ("decision"@, JsonView::Str(decision)),
        ("reason_code"@, JsonView::Str(reason_code)),
        ("details"@, details),
    ])
}

pub fn trade_builder_guard_diagnostic_payload(configured: bool, decision: &str, reason_code: &str, details: JsonValue) -> (r: JsonValue)
    ensures
        r@ == spec_guard_diagnostic_payload(configured, decision@, reason_code@, details@),
{
    let mut members: Vec<(String, JsonValue)> = Vec::new();
    assert(view_members(members@) =~= Seq::<(Seq<char>, JsonView)>::empty());
    push_member(&mut members, "configured", JsonValue::Bool(configured));
    push_member(&mut members, "decision", JsonValue::from_str(decision));
    push_member(&mut members, "reason_code", JsonValue::from_str(reason_code));
    push_member(&mut members, "details", details);
    let r = object_from(members);
    assert(r@->Object_0 =~= spec_guard_diagnostic_payload(configured, decision@, reason_code@, details@)->Object_0);
    r
}

/// A price clamped to the probability range `[0, 1]`.
pub open spec fn spec_clamp_probability(p: i64) -> i64 {
    if p < 0 { 0 } else if p > PROBABILITY_ONE { PROBABILITY_ONE } else { p }
}

pub fn clamp_probability(p: i64) -> (r: i64)
    ensures
        r == spec_clamp_probability(p),
{
    if p < 0 { 0 } else if p > PROBABILITY_ONE { PROBABILITY_ONE } else { p }
}

/// A best ask that is a price: in `(0, 1]`.
pub open spec fn spec_valid_ask(best_ask: Option<i64>) -> Option<i64> {
    match best_ask {
        Some(a) => if 0 < a && a <= PROBABILITY_ONE { Some(a) } else { None },
        None => None,
    }
}

fn valid_ask(best_ask: Option<i64>) -> (r: Option<i64>)
    ensures
        r == spec_valid_ask(best_ask),
{
    match best_ask {
        Some(a) => if 0 < a && a <= PROBABILITY_ONE { Some(a) } else { None },
        None => None,
    }
}

/// The trigger guard's reference: the best ask when it is positive, else
/// the current price; clamped to `[0, 1]`.
pub open spec fn spec_trigger_reference(best_ask: Option<i64>, current_price: i64) -> (i64, Seq<char>) {
    match best_ask {
        Some(a) => if a > 0 { (spec_clamp_probability(a), "best_ask"@) } else { (spec_clamp_probability(current_price), "current_price_fallback"@) },
        None => (spec_clamp_probability(current_price), "current_price_fallback"@),
    }
}

/// Why the execution floor holds the buy: no usable best ask while a floor
/// is set, or a best ask below the floor.
pub open spec fn spec_execution_floor_reason(best_ask_floor_price: Option<i64>, best_ask: Option<i64>) -> Option<Seq<char>> {
    if best_ask_floor_price is Some && spec_valid_ask(best_ask) is None {
        Some("best_ask_unavailable"@)
    } else {
        match (best_ask_floor_price, spec_valid_ask(best_ask)) {
            (Some(floor), Some(a)) => if a < floor { Some("below_best_ask_floor"@) } else { None },
            _ => None,
        }
    }
}

/// Why a pair-lock leg waits: a market buy without a usable best ask.
pub open spec fn spec_pair_lock_waiting_reason(execution_mode: Seq<char>, pair_leg_role: Option<Seq<char>>, best_ask: Option<i64>) -> Option<Seq<char>> {
    if execution_mode == "market"@ && spec_valid_ask(best_ask) is None {
        if pair_leg_role == Some("counter_candidate"@) {
            Some("pair_counter_best_ask_unavailable"@)
        } else if pair_leg_role == Some("lead_candidate"@) {
            Some("pair_primary_best_ask_unavailable"@)
        } else {
            None
        }
    } else {
        None
    }
}

/// The maximum-price guard's reference: the usable best ask, else the
/// desired price.
pub open spec fn spec_max_price_reference(best_ask: Option<i64>, desired_price: i64) -> (i64, Seq<char>) {
    match spec_valid_ask(best_ask) {
        Some(a) => (a, "best_ask"@),
        None => (desired_price, "desired_price_fallback"@),
    }
}

pub open spec fn waiting_or_blocked(waiting: bool) -> Seq<char> {
    if waiting { "waiting"@ } else { "blocked"@ }
}

pub open spec fn not_configured_payload() -> JsonView {
    spec_guard_diagnostic_payload(false, "not_configured"@, "not_configured"@, JsonView::Null)
}

pub open spec fn trigger_details(guard_trigger_price: Option<i64>, current_price: i64, reference: (i64, Seq<char>)) -> JsonView {
    JsonView::Object(seq![
        ("guard_trigger_price"@, opt_micros_json(guard_trigger_price)),
        ("current_price"@, micros_json(current_price)),
        ("trigger_guard_reference_price"@, micros_json(reference.0)),
        ("trigger_guard_reference_source"@, JsonView::Str(reference.1)),
    ])
}

pub open spec fn floor_details(best_ask_floor_price: Option<i64>, best_ask: Option<i64>) -> JsonView {
    JsonView::Object(seq![
        ("best_ask_floor_price"@, opt_micros_json(best_ask_floor_price)),
        ("best_ask"@, opt_micros_json(best_ask)),
    ])
}

pub open spec fn max_price_details(max_price: Option<i64>, current_price: i64, desired_price: i64, reference: (i64, Seq<char>)) -> JsonView {
    JsonView::Object(seq![
        ("max_price"@, opt_micros_json(max_price)),
        ("current_price"@, micros_json(current_price)),
        ("desired_price"@, micros_json(desired_price)),
        ("reference_price"@, micros_json(reference.0)),
        ("reference_price_source"@, JsonView::Str(reference.1)),
    ])
}

/// The inputs of a buy's guards.
pub struct BuyGuardInputs<'a> {
    pub execution_mode: &'a str,
    pub pair_leg_role: Option<&'a str>,
    pub current_price: i64,
    pub best_ask: Option<i64>,
    pub desired_price: i64,
    pub guard_trigger_price: Option<i64>,
    pub max_price: Option<i64>,
    pub best_ask_floor_price: Option<i64>,
    pub retry_on_trigger_guard_block: bool,
    pub retry_on_execution_floor_guard_block: bool,
    pub retry_on_max_price_block: bool,
}

/// What the guards decided, with the diagnostic record of each guard.
pub struct TradeBuilderBuyGuardEvaluation {
    pub trigger_price_guard_payload: JsonValue,
    pub execution_floor_payload: JsonValue,
    pub max_price_payload: JsonValue,
    pub trigger_guard_reference_price: i64,
    pub trigger_guard_reference_source: &'static str,
    pub trigger_price_guard_blocked: bool,
    pub execution_floor_reason: Option<&'static str>,
    pub max_price_reference: i64,
    pub max_price_reference_source: &'static str,
    pub max_price_blocked: bool,
    pub pair_lock_market_waiting_reason: Option<&'static str>,
    pub effective_decision: &'static str,
    pub effective_reason_code: &'static str,
}

pub open spec fn opt_static_text(v: Option<&'static str>) -> Option<Seq<char>> {
    match v {
        Some(s) => Some(s@),
        None => None,
    }
}

/// The guards' evaluation, field by field.
pub struct BuyGuardEvaluationView {
    pub trigger_price_guard_payload: JsonView,
    pub execution_floor_payload: JsonView,
    pub max_price_payload: JsonView,
    pub trigger_guard_reference_price: i64,
    pub trigger_guard_reference_source: Seq<char>,
    pub trigger_price_guard_blocked: bool,
    pub execution_floor_reason: Option<Seq<char>>,
    pub max_price_reference: i64,
    pub max_price_reference_source: Seq<char>,
    pub max_price_blocked: bool,
    pub pair_lock_market_waiting_reason: Option<Seq<char>>,
    pub effective_decision: Seq<char>,
    pub effective_reason_code: Seq<char>,
}

impl View for TradeBuilderBuyGuardEvaluation {
    type V = BuyGuardEvaluationView;

    open spec fn view(&self) -> BuyGuardEvaluationView {
        BuyGuardEvaluationView {
            trigger_price_guard_payload: self.trigger_price_guard_payload@,
            execution_floor_payload: self.execution_floor_payload@,
            max_price_payload: self.max_price_payload@,
            trigger_guard_reference_price: self.trigger_guard_reference_price,
            trigger_guard_reference_source: self.trigger_guard_reference_source@,
            trigger_price_guard_blocked: self.trigger_price_guard_blocked,
            execution_floor_reason: opt_static_text(self.execution_floor_reason),
            max_price_reference: self.max_price_reference,
            max_price_reference_source: self.max_price_reference_source@,
            max_price_blocked: self.max_price_blocked,
            pair_lock_market_waiting_reason: opt_static_text(self.pair_lock_market_waiting_reason),
            effective_decision: self.effective_decision@,
            effective_reason_code: self.effective_reason_code@,
        }
    }
}

/// The guards' decision: a pair-lock leg waiting for a best ask first, then
/// a trigger-price block, then an execution-floor hold, then a maximum-price
/// block; a guard configured to retry waits instead of blocking, and a
/// missing best ask under a floor always waits.
pub open spec fn spec_evaluate_buy_guards(
    execution_mode: Seq<char>,
    pair_leg_role: Option<Seq<char>>,
    current_price: i64,
    best_ask: Option<i64>,
    desired_price: i64,
    guard_trigger_price: Option<i64>,
    max_price: Option<i64>,
    best_ask_floor_price: Option<i64>,
    retry_on_trigger_guard_block: bool,
    retry_on_execution_floor_guard_block: bool,
    retry_on_max_price_block: bool,
) -> BuyGuardEvaluationView {
    let trigger_ref = spec_trigger_reference(best_ask, current_price);
    let trigger_blocked = match guard_trigger_price { Some(g) => trigger_ref.0 < g, None => false };
    let trigger_payload = if trigger_blocked {
        spec_guard_diagnostic_payload(true, waiting_or_blocked(retry_on_trigger_guard_block), "below_trigger_price_guard"@,
            trigger_details(guard_trigger_price, current_price, trigger_ref))
    } else if guard_trigger_price is Some {
        spec_guard_diagnostic_payload(true, "passed"@, "passed"@, trigger_details(guard_trigger_price, current_price, trigger_ref))
    } else {
        not_configured_payload()
    };
    let floor_reason = spec_execution_floor_reason(best_ask_floor_price, best_ask);
    let floor_payload = match floor_reason {
        Some(rc) => spec_guard_diagnostic_payload(true,
            waiting_or_blocked(rc == "best_ask_unavailable"@ || retry_on_execution_floor_guard_block), rc,
            floor_details(best_ask_floor_price, best_ask)),
        None => if best_ask_floor_price is Some {
            spec_guard_diagnostic_payload(true, "passed"@, "passed"@, floor_details(best_ask_floor_price, best_ask))
        } else {
            not_configured_payload()
        },
    };
    let max_ref = spec_max_price_reference(best_ask, desired_price);
    let max_blocked = match max_price { Some(t) => max_ref.0 > t, None => false };
    let max_payload = if max_blocked {
        spec_guard_diagnostic_payload(true, waiting_or_blocked(retry_on_max_price_block), "above_max_price"@,
            max_price_details(max_price, current_price, desired_price, max_ref))
    } else if max_price is Some {
        spec_guard_diagnostic_payload(true, "passed"@, "passed"@, max_price_details(max_price, current_price, desired_price, max_ref))
    } else {
        not_configured_payload()
    };
    let pair_waiting = spec_pair_lock_waiting_reason(execution_mode, pair_leg_role, best_ask);
    let (decision, reason) = match pair_waiting {
        Some(rc) => ("waiting"@, rc),
        None => if trigger_blocked {
            (waiting_or_blocked(retry_on_trigger_guard_block), "below_trigger_price_guard"@)
        } else {
            match floor_reason {
                Some(rc) => (waiting_or_blocked(rc == "best_ask_unavailable"@ || retry_on_execution_floor_guard_block), rc),
                None => if max_blocked {
                    (waiting_or_blocked(retry_on_max_price_block), "above_max_price"@)
                } else {
                    ("passed"@, "guards_passed"@)
                },
            }
        },
    };
    BuyGuardEvaluationView {
        trigger_price_guard_payload: trigger_payload,
        execution_floor_payload: floor_payload,
        max_price_payload: max_payload,
        trigger_guard_reference_price: trigger_ref.0,
        trigger_guard_reference_source: trigger_ref.1,
        trigger_price_guard_blocked: trigger_blocked,
        execution_floor_reason: floor_reason,
        max_price_reference: max_ref.0,
        max_price_reference_source: max_ref.1,
        max_price_blocked: max_blocked,
        pair_lock_market_waiting_reason: pair_waiting,
        effective_decision: decision,
        effective_reason_code: reason,
    }
}

fn trigger_reference(best_ask: Option<i64>, current_price: i64) -> (r: (i64, &'static str))
    ensures
        (r.0, r.1@) == spec_trigger_reference(best_ask, current_price),
{
    match best_ask {
        Some(a) => if a > 0 { (clamp_probability(a), "best_ask") } else { (clamp_probability(current_price), "current_price_fallback") },
        None => (clamp_probability(current_price), "current_price_fallback"),
    }
}

fn execution_floor_reason(best_ask_floor_price: Option<i64>, best_ask: Option<i64>) -> (r: Option<&'static str>)
    ensures
        opt_static_text(r) == spec_execution_floor_reason(best_ask_floor_price, best_ask),
{
    let ask = valid_ask(best_ask);
    if best_ask_floor_price.is_some() && ask.is_none() {
        return Some("best_ask_unavailable");
    }
    match (best_ask_floor_price, ask) {
        (Some(floor), Some(a)) => if a < floor { Some("below_best_ask_floor") } else { None },
        _ => None,
    }
}

fn pair_lock_waiting_reason(execution_mode: &str, pair_leg_role: Option<&str>, best_ask: Option<i64>) -> (r: Option<&'static str>)
    ensures
        opt_static_text(r) == spec_pair_lock_waiting_reason(execution_mode@, opt_static_role(pair_leg_role), best_ask),
{
    if str_eq(execution_mode, "market") && valid_ask(best_ask).is_none() {
        match pair_leg_role {
            Some(role) => if str_eq(role, "counter_candidate") {
                Some("pair_counter_best_ask_unavailable")
            } else if str_eq(role, "lead_candidate") {
                Some("pair_primary_best_ask_unavailable")
            } else {
                None
            },
            None => None,
        }
    } else {
        None
    }
}

pub open spec fn opt_static_role(v: Option<&str>) -> Option<Seq<char>> {
    match v {
        Some(s) => Some(s@),
        None => None,
    }
}

fn max_price_reference(best_ask: Option<i64>, desired_price: i64) -> (r: (i64, &'static str))
    ensures
        (r.0, r.1@) == spec_max_price_reference(best_ask, desired_price),
{
    match valid_ask(best_ask) {
        Some(a) => (a, "best_ask"),
        None => (desired_price, "desired_price_fallback"),
    }
}

fn waiting_or_blocked_text(waiting: bool) -> (r: &'static str)
    ensures
        r@ == waiting_or_blocked(waiting),
{
    if waiting { "waiting" } else { "blocked" }
}

fn not_configured() -> (r: JsonValue)
    ensures
        r@ == not_configured_payload(),
{
    trade_builder_guard_diagnostic_payload(false, "not_configured", "not_configured", JsonValue::Null)
}

fn trigger_details_value(guard_trigger_price: Option<i64>, current_price: i64, reference: (i64, &'static str)) -> (r: JsonValue)
    ensures
        r@ == trigger_details(guard_trigger_price, current_price, (reference.0, reference.1@)),
{
    let mut m: Vec<(String, JsonValue)> = Vec::new();
    assert(view_members(m@) =~= Seq::<(Seq<char>, JsonView)>::empty());
    push_member(&mut m, "guard_trigger_price", opt_micros_value(guard_trigger_price));
    push_member(&mut m, "current_price", micros_value(current_price));
    push_member(&mut m, "trigger_guard_reference_price", micros_value(reference.0));
    push_member(&mut m, "trigger_guard_reference_source", JsonValue::from_str(reference.1));
    let r = object_from(m);
    assert(r@->Object_0 =~= trigger_details(guard_trigger_price, current_price, (reference.0, reference.1@))->Object_0);
    r
}

fn floor_details_value(best_ask_floor_price: Option<i64>, best_ask: Option<i64>) -> (r: JsonValue)
    ensures
        r@ == floor_details(best_ask_floor_price, best_ask),
{
    let mut m: Vec<(String, JsonValue)> = Vec::new();
    assert(view_members(m@) =~= Seq::<(Seq<char>, JsonView)>::empty());
    push_member(&mut m, "best_ask_floor_price", opt_micros_value(best_ask_floor_price));
    push_member(&mut m, "best_ask", opt_micros_value(best_ask));
    let r = object_from(m);
    assert(r@->Object_0 =~= floor_details(best_ask_floor_price, best_ask)->Object_0);
    r
}

fn max_price_details_value(max_price: Option<i64>, current_price: i64, desired_price: i64, reference: (i64, &'static str)) -> (r: JsonValue)
    ensures
        r@ == max_price_details(max_price, current_price, desired_price, (reference.0, reference.1@)),
{
    let mut m: Vec<(String, JsonValue)> = Vec::new();
    assert(view_members(m@) =~= Seq::<(Seq<char>, JsonView)>::empty());
    push_member(&mut m, "max_price", opt_micros_value(max_price));
    push_member(&mut m, "current_price", micros_value(current_price));
    push_member(&mut m, "desired_price", micros_value(desired_price));
    push_member(&mut m, "reference_price", micros_value(reference.0));
    push_member(&mut m, "reference_price_source", JsonValue::from_str(reference.1));
    let r = object_from(m);
    assert(r@->Object_0 =~= max_price_details(max_price, current_price, desired_price, (reference.0, reference.1@))->Object_0);
    r
}

/// Evaluates a buy's guards.
pub fn evaluate_trade_builder_buy_guards(inputs: &BuyGuardInputs) -> (r: TradeBuilderBuyGuardEvaluation)
    ensures
        r@ == spec_evaluate_buy_guards(
            inputs.execution_mode@,
            opt_static_role(inputs.pair_leg_role),
            inputs.current_price,
            inputs.best_ask,
            inputs.desired_price,
            inputs.guard_trigger_price,
            inputs.max_price,
            inputs.best_ask_floor_price,
            inputs.retry_on_trigger_guard_block,
            inputs.retry_on_execution_floor_guard_block,
            inputs.retry_on_max_price_block,
        ),
{
    let trigger_ref = trigger_reference(inputs.best_ask, inputs.current_price);
    let trigger_blocked = match inputs.guard_trigger_price {
        Some(g) => trigger_ref.0 < g,
        None => false,
    };
    let trigger_payload = if trigger_blocked {
        trade_builder_guard_diagnostic_payload(
            true,
            waiting_or_blocked_text(inputs.retry_on_trigger_guard_block),
            "below_trigger_price_guard",
            trigger_details_value(inputs.guard_trigger_price, inputs.current_price, trigger_ref),
        )
    } else if inputs.guard_trigger_price.is_some() {
        trade_builder_guard_diagnostic_payload(true, "passed", "passed",
            trigger_details_value(inputs.guard_trigger_price, inputs.current_price, trigger_ref))
    } else {
        not_configured()
    };
    let floor_reason = execution_floor_reason(inputs.best_ask_floor_price, inputs.best_ask);
    let floor_payload = match floor_reason {
        Some(rc) => trade_builder_guard_diagnostic_payload(
            true,
            waiting_or_blocked_text(str_eq(rc, "best_ask_unavailable") || inputs.retry_on_execution_floor_guard_block),
            rc,
            floor_details_value(inputs.best_ask_floor_price, inputs.best_ask),
        ),
        None => if inputs.best_ask_floor_price.is_some() {
            trade_builder_guard_diagnostic_payload(true, "passed", "passed",
                floor_details_value(inputs.best_ask_floor_price, inputs.best_ask))
        } else {
            not_configured()
        },
    };
    let max_ref = max_price_reference(inputs.best_ask, inputs.desired_price);
    let max_blocked = match inputs.max_price {
        Some(t) => max_ref.0 > t,
        None => false,
    };
    let max_payload = if max_blocked {
        trade_builder_guard_diagnostic_payload(
            true,
            waiting_or_blocked_text(inputs.retry_on_max_price_block),
            "above_max_price",
            max_price_details_value(inputs.max_price, inputs.current_price, inputs.desired_price, max_ref),
        )
    } else if inputs.max_price.is_some() {
        trade_builder_guard_diagnostic_payload(true, "passed", "passed",
            max_price_details_value(inputs.max_price, inputs.current_price, inputs.desired_price, max_ref))
    } else {
        not_configured()
    };
    let pair_waiting = pair_lock_waiting_reason(inputs.execution_mode, inputs.pair_leg_role, inputs.best_ask);
    let (decision, reason): (&'static str, &'static str) = match pair_waiting {
        Some(rc) => ("waiting", rc),
        None => if trigger_blocked {
            (waiting_or_blocked_text(inputs.retry_on_trigger_guard_block), "below_trigger_price_guard")
        } else {
            match floor_reason {
                Some(rc) => (waiting_or_blocked_text(str_eq(rc, "best_ask_unavailable") || inputs.retry_on_execution_floor_guard_block), rc),
                None => if max_blocked {
                    (waiting_or_blocked_text(inputs.retry_on_max_price_block), "above_max_price")
                } else {
                    ("passed", "guards_passed")
                },
            }
        },
    };
    TradeBuilderBuyGuardEvaluation {
        trigger_price_guard_payload: trigger_payload,
        execution_floor_payload: floor_payload,
        max_price_payload: max_payload,
        trigger_guard_reference_price: trigger_ref.0,
        trigger_guard_reference_source: trigger_ref.1,
        trigger_price_guard_blocked: trigger_blocked,
        execution_floor_reason: floor_reason,
        max_price_reference: max_ref.0,
        max_price_reference_source: max_ref.1,
        max_price_blocked: max_blocked,
        pair_lock_market_waiting_reason: pair_waiting,
        effective_decision: decision,
        effective_reason_code: reason,
    }
}

/// Law: when every guard is set to retry, the guards never block a buy:
/// they wait or pass.
pub proof fn law_retrying_guards_never_block(
    execution_mode: Seq<char>,
    pair_leg_role: Option<Seq<char>>,
    current_price: i64,
    best_ask: Option<i64>,
    desired_price: i64,
    guard_trigger_price: Option<i64>,
    max_price: Option<i64>,
    best_ask_floor_price: Option<i64>,
)
    ensures
        ({
            let e = spec_evaluate_buy_guards(execution_mode, pair_leg_role, current_price, best_ask, desired_price,
                guard_trigger_price, max_price, best_ask_floor_price, true, true, true);
            e.effective_decision == "waiting"@ || (e.effective_decision == "passed"@ && e.effective_reason_code == "guards_passed"@)
        }),
{
}

/// Law: with no guard configured and no pair-lock leg waiting, a buy passes.
pub proof fn law_unguarded_buy_passes(
    execution_mode: Seq<char>,
    pair_leg_role: Option<Seq<char>>,
    current_price: i64,
    best_ask: Option<i64>,
    desired_price: i64,
    retry_on_trigger_guard_block: bool,
    retry_on_execution_floor_guard_block: bool,
    retry_on_max_price_block: bool,
)
    requires
        spec_pair_lock_waiting_reason(execution_mode, pair_leg_role, best_ask) is None,
    ensures
        ({
            let e = spec_evaluate_buy_guards(execution_mode, pair_leg_role, current_price, best_ask, desired_price,
                None, None, None, retry_on_trigger_guard_block, retry_on_execution_floor_guard_block, retry_on_max_price_block);
            e.effective_decision == "passed"@ && e.effective_reason_code == "guards_passed"@
                && e.trigger_price_guard_payload == not_configured_payload()
                && e.execution_floor_payload == not_configured_payload()
                && e.max_price_payload == not_configured_payload()
        }),
{
}

/// Law: a buy under an execution floor with no usable best ask waits for
/// one (it is never blocked for it), unless a pair-lock wait or the trigger
/// guard decides first.
pub proof fn law_missing_best_ask_under_floor_waits(
    execution_mode: Seq<char>,
    pair_leg_role: Option<Seq<char>>,
    current_price: i64,
    best_ask: Option<i64>,
    desired_price: i64,
    guard_trigger_price: Option<i64>,
    max_price: Option<i64>,
    floor: i64,
    retry_on_trigger_guard_block: bool,
    retry_on_execution_floor_guard_block: bool,
    retry_on_max_price_block: bool,
)
    requires
        spec_valid_ask(best_ask) is None,
        spec_pair_lock_waiting_reason(execution_mode, pair_leg_role, best_ask) is None,
        !(match guard_trigger_price { Some(g) => spec_trigger_reference(best_ask, current_price).0 < g, None => false }),
    ensures
        ({
            let e = spec_evaluate_buy_guards(execution_mode, pair_leg_role, current_price, best_ask, desired_price,
                guard_trigger_price, max_price, Some(floor), retry_on_trigger_guard_block, retry_on_execution_floor_guard_block, retry_on_max_price_block);
            e.effective_decision == "waiting"@ && e.effective_reason_code == "best_ask_unavailable"@
        }),
{
}

/// Law: each guard's retry flag governs that guard alone. A buy is blocked
/// only by a guard that is not set to retry: for the trigger guard, the
/// execution floor or the maximum price, whichever decides. A guard that
/// decides and is set to retry makes the buy wait, whatever the other
/// guards' retry flags are; in particular an execution floor that decides
/// (no pair-lock wait, no trigger block) waits when it is set to retry.
pub proof fn law_guard_retry_flags_act_on_their_own_guard(
    execution_mode: Seq<char>,
    pair_leg_role: Option<Seq<char>>,
    current_price: i64,
    best_ask: Option<i64>,
    desired_price: i64,
    guard_trigger_price: Option<i64>,
    max_price: Option<i64>,
    best_ask_floor_price: Option<i64>,
    retry_on_trigger_guard_block: bool,
    retry_on_execution_floor_guard_block: bool,
    retry_on_max_price_block: bool,
)
    ensures
        ({
            let e = spec_evaluate_buy_guards(execution_mode, pair_leg_role, current_price, best_ask, desired_price,
                guard_trigger_price, max_price, best_ask_floor_price, retry_on_trigger_guard_block,
                retry_on_execution_floor_guard_block, retry_on_max_price_block);
            &&& e.effective_decision == "blocked"@ ==> (
                (e.effective_reason_code == "below_trigger_price_guard"@ && !retry_on_trigger_guard_block)
                || (e.effective_reason_code == "below_best_ask_floor"@ && !retry_on_execution_floor_guard_block)
                || (e.effective_reason_code == "above_max_price"@ && !retry_on_max_price_block))
            &&& (e.effective_reason_code == "below_trigger_price_guard"@ && retry_on_trigger_guard_block) ==> e.effective_decision == "waiting"@
            &&& (e.effective_reason_code == "below_best_ask_floor"@ && retry_on_execution_floor_guard_block) ==> e.effective_decision == "waiting"@
            &&& (e.effective_reason_code == "above_max_price"@ && retry_on_max_price_block) ==> e.effective_decision == "waiting"@
            &&& (spec_pair_lock_waiting_reason(execution_mode, pair_leg_role, best_ask) is None
                && !e.trigger_price_guard_blocked
                && spec_execution_floor_reason(best_ask_floor_price, best_ask) is Some
                && retry_on_execution_floor_guard_block) ==> (e.effective_decision == "waiting"@
                    && Some(e.effective_reason_code) == spec_execution_floor_reason(best_ask_floor_price, best_ask))
        }),
{
    lemma_guard_texts_distinct();
}

proof fn lemma_guard_texts_distinct()
    ensures
        "blocked"@ != "waiting"@,
        "blocked"@ != "passed"@,
        "waiting"@ != "passed"@,
        "below_trigger_price_guard"@ != "below_best_ask_floor"@,
        "below_trigger_price_guard"@ != "above_max_price"@,
        "below_trigger_price_guard"@ != "best_ask_unavailable"@,
        "below_trigger_price_guard"@ != "guards_passed"@,
        "below_best_ask_floor"@ != "above_max_price"@,
        "below_best_ask_floor"@ != "best_ask_unavailable"@,
        "below_best_ask_floor"@ != "guards_passed"@,
        "above_max_price"@ != "best_ask_unavailable"@,
        "above_max_price"@ != "guards_passed"@,
        "pair_counter_best_ask_unavailable"@ != "below_trigger_price_guard"@,
        "pair_counter_best_ask_unavailable"@ != "below_best_ask_floor"@,
        "pair_counter_best_ask_unavailable"@ != "above_max_price"@,
        "pair_primary_best_ask_unavailable"@ != "below_trigger_price_guard"@,
        "pair_primary_best_ask_unavailable"@ != "below_best_ask_floor"@,
        "pair_primary_best_ask_unavailable"@ != "above_max_price"@,
{
    reveal_strlit("blocked");
    reveal_strlit("waiting");
    reveal_strlit("passed");
    reveal_strlit("below_trigger_price_guard");
    reveal_strlit("below_best_ask_floor");
    reveal_strlit("above_max_price");
    reveal_strlit("best_ask_unavailable");
    reveal_strlit("guards_passed");
    reveal_strlit("pair_counter_best_ask_unavailable");
    reveal_strlit("pair_primary_best_ask_unavailable");
    assert("blocked"@[0] != "waiting"@[0]);
    assert("below_best_ask_floor"@[2] != "best_ask_unavailable"@[2]);
    assert("below_trigger_price_guard"@[6] != "below_best_ask_floor"@[6]);
    assert("below_trigger_price_guard"@[0] != "above_max_price"@[0]);
    assert("below_trigger_price_guard"@[0] != "guards_passed"@[0]);
    assert("above_max_price"@[0] != "guards_passed"@[0]);
}

} // verus!
