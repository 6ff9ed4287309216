//! What a canceled buy turns out to have filled: the quantity detected and
//! where it was read, its notional, whether the fill was full, and the
//! budget left after a partial fill. Share quantities read from the
//! exchange or the store in millionths, detected quantities in hundredths;
//! amounts and prices in millionths.
use vstd::prelude::*;
use crate::share_qty::{spec_round_share_qty, spec_terminal_fill_candidate, normalize_trade_builder_terminal_fill_qty_candidate, round_trade_builder_share_qty};
use crate::analysis_pnl::round_half_away;
use crate::text::str_eq;

verus! {

broadcast use vstd::string::group_string_axioms;

/// The filled quantity the exchange reports, else the one the store has
/// aggregated, each kept when it rounds to a positive quantity.
pub open spec fn spec_detected_cancel_fill_qty(api_filled_size: Option<i64>, db_fill_qty: i64) -> Option<i64> {
    match spec_terminal_fill_candidate(api_filled_size) {
        Some(q) => Some(q),
        None => spec_terminal_fill_candidate(Some(db_fill_qty)),
    }
}

pub fn trade_builder_detected_cancel_fill_qty(api_filled_size: Option<i64>, db_fill_qty: i64) -> (r: Option<i64>)
    ensures
        r == spec_detected_cancel_fill_qty(api_filled_size, db_fill_qty),
{
    match normalize_trade_builder_terminal_fill_qty_candidate(api_filled_size) {
        Some(q) => Some(q),
        None => normalize_trade_builder_terminal_fill_qty_candidate(Some(db_fill_qty)),
    }
}

/// A fill detected on a canceled order: its quantity (hundredths of a
/// share) and where it was read.
#[derive(Clone, Copy)]
pub struct TradeBuilderCancelFillDetection {
    pub qty: i64,
    pub source: &'static str,
}

/// The fill detected on a canceled order: the exchange's filled size, else
/// the store's aggregate, else the growth of the visible inventory.
pub open spec fn spec_detected_cancel_fill(api_filled_size: Option<i64>, db_fill_qty: i64, visible_inventory_fill_qty: Option<i64>) -> Option<(i64, Seq<char>)> {
    match spec_terminal_fill_candidate(api_filled_size) {
        Some(q) => Some((q, "order_info_filled_size"@)),
        None => match spec_terminal_fill_candidate(Some(db_fill_qty)) {
            Some(q) => Some((q, "db_aggregate"@)),
            None => match visible_inventory_fill_qty {
                Some(q) => Some((q, "visible_inventory_delta"@)),
                None => None,
            },
        },
    }
}

pub open spec fn detection_view(d: Option<TradeBuilderCancelFillDetection>) -> Option<(i64, Seq<char>)> {
    match d {
        Some(x) => Some((x.qty, x.source@)),
        None => None,
    }
}

pub fn trade_builder_detected_cancel_fill(
    api_filled_size: Option<i64>,
    db_fill_qty: i64,
    visible_inventory_fill_qty: Option<i64>,
) -> (r: Option<TradeBuilderCancelFillDetection>)
    ensures
        detection_view(r) == spec_detected_cancel_fill(api_filled_size, db_fill_qty, visible_inventory_fill_qty),
{
    if let Some(qty) = normalize_trade_builder_terminal_fill_qty_candidate(api_filled_size) {
        return Some(TradeBuilderCancelFillDetection { qty, source: "order_info_filled_size" });
    }
    if let Some(qty) = normalize_trade_builder_terminal_fill_qty_candidate(Some(db_fill_qty)) {
        return Some(TradeBuilderCancelFillDetection { qty, source: "db_aggregate" });
    }
    match visible_inventory_fill_qty {
        Some(qty) => Some(TradeBuilderCancelFillDetection { qty, source: "visible_inventory_delta" }),
        None => None,
    }
}

/// The notional of a fill detected on a canceled order: the store's, where
/// positive; else the detected quantity (none counting as zero) at the
/// price seen after the cancel, else the working price, else the current
/// price, rounded to a millionth.
pub open spec fn spec_detected_cancel_fill_notional(
    db_fill_notional: i64,
    detection: Option<TradeBuilderCancelFillDetection>,
    post_cancel_price: Option<i64>,
    working_price: Option<i64>,
    current_price: i64,
) -> int {
    if db_fill_notional > 0 {
        db_fill_notional as int
    } else {
        let price: int = match post_cancel_price {
            Some(p) => p as int,
            None => match working_price {
                Some(p) => p as int,
                None => current_price as int,
            },
        };
        let qty: int = match detection {
            Some(d) => d.qty as int,
            None => 0,
        };
        round_half_away(qty * price, 100)
    }
}

pub fn trade_builder_detected_cancel_fill_notional(
    db_fill_notional: i64,
    detection: Option<TradeBuilderCancelFillDetection>,
    post_cancel_price: Option<i64>,
    working_price: Option<i64>,
    current_price: i64,
) -> (r: i128)
    ensures
        r == spec_detected_cancel_fill_notional(db_fill_notional, detection, post_cancel_price, working_price, current_price),
        -0x4000_0000_0000_0000_0000_0000_0000_0001 <= r <= 0x4000_0000_0000_0000_0000_0000_0000_0001,
{
    if db_fill_notional > 0 {
        return db_fill_notional as i128;
    }
    let price: i64 = match post_cancel_price {
        Some(p) => p,
        None => match working_price {
            Some(p) => p,
            None => current_price,
        },
    };
    let qty: i64 = match detection {
        Some(d) => d.qty,
        None => 0,
    };
    proof {
        assert(-0x4000_0000_0000_0000_0000_0000_0000_0000 <= (qty as int) * (price as int) <= 0x4000_0000_0000_0000_0000_0000_0000_0000) by (nonlinear_arith)
            requires -0x8000_0000_0000_0000 <= qty < 0x8000_0000_0000_0000, -0x8000_0000_0000_0000 <= price < 0x8000_0000_0000_0000;
    }
    let a: i128 = (qty as i128) * (price as i128);
    if a >= 0 {
        assert(a / 100 + (if a % 100 >= 50 { 1int } else { 0int }) == (2 * a + 100) / 200) by (nonlinear_arith)
            requires a >= 0;
        a / 100 + if a % 100 >= 50 { 1 } else { 0 }
    } else {
        let b: i128 = 0 - a;
        assert(b / 100 + (if b % 100 >= 50 { 1int } else { 0int }) == (2 * b + 100) / 200) by (nonlinear_arith)
            requires b > 0;
        0 - (b / 100 + if b % 100 >= 50 { 1 } else { 0 })
    }
}

/// A fill is full when the order's status says filled, or when it is
/// within two hundredths of a share of the order's size.
pub open spec fn spec_cancel_fill_is_full(effective_status: Seq<char>, order_size: Option<i64>, fill_qty: i64) -> bool {
    effective_status == "filled"@ || (order_size matches Some(size) && -2 < fill_qty - spec_round_share_qty(size) < 2)
}

pub fn trade_builder_cancel_fill_is_full(effective_status: &str, order_size: Option<i64>, fill_qty: i64) -> (r: bool)
    ensures
        r == spec_cancel_fill_is_full(effective_status@, order_size, fill_qty),
{
    if str_eq(effective_status, "filled") {
        return true;
    }
    match order_size {
        Some(size) => {
            let d: i128 = (fill_qty as i128) - (round_trade_builder_share_qty(size) as i128);
            -2 < d && d < 2
        },
        None => false,
    }
}

/// The budget left after a partial fill: what remained (the remaining
/// budget, else the order's remaining size, else its size) less the fill's
/// notional, never below zero.
pub open spec fn spec_remaining_usdc_after_partial_fill(remaining_usdc: Option<i64>, order_remaining_size: Option<i64>, size_usdc: i64, detected_fill_notional: i64) -> int {
    let old_remaining: int = match remaining_usdc {
        Some(v) => v as int,
        None => match order_remaining_size {
            Some(v) => v as int,
            None => size_usdc as int,
        },
    };
    if old_remaining - detected_fill_notional < 0 { 0 } else { old_remaining - detected_fill_notional }
}

pub fn trade_builder_remaining_usdc_after_partial_fill(
    remaining_usdc: Option<i64>,
    order_remaining_size: Option<i64>,
    size_usdc: i64,
    detected_fill_notional: i64,
) -> (r: i128)
    ensures
        r == spec_remaining_usdc_after_partial_fill(remaining_usdc, order_remaining_size, size_usdc, detected_fill_notional),
{
    let old_remaining: i64 = match remaining_usdc {
        Some(v) => v,
        None => match order_remaining_size {
            Some(v) => v,
            None => size_usdc,
        },
    };
    let left: i128 = (old_remaining as i128) - (detected_fill_notional as i128);
    if left < 0 { 0 } else { left }
}

} // verus!

verus! {

/// What is known of a canceled buy when its fills are reconciled: the
/// exchange's read after the cancel (where it answered: its normalized
/// status, price and filled size), the store's aggregate of the order's
/// fills, the growth of the visible inventory (where it could be read), the
/// size and price of the order as last read before the cancel, and the
/// order's own budget and prices. Quantities read from the exchange or the
/// store in millionths of a share, the inventory growth in hundredths;
/// amounts and prices in millionths.
pub struct PostCancelBuyObservation {
    pub post_cancel_status: Option<String>,
    pub post_cancel_price: Option<i64>,
    pub post_cancel_filled_size: Option<i64>,
    pub db_fill_qty: i64,
    pub db_fill_notional: i64,
    pub visible_inventory_fill_qty: Option<i64>,
    pub order_info_size: Option<i64>,
    pub order_info_price: Option<i64>,
    pub working_price: Option<i64>,
    pub current_price: i64,
    pub remaining_usdc: Option<i64>,
    pub order_remaining_size: Option<i64>,
    pub size_usdc: i64,
}

/// What reconciling a canceled buy does: nothing, where no fill is
/// detected; else the detected fill, its notional, and whether it filled
/// the order in full (the order is then marked filled) or in part (the
/// order is marked canceled, at the execution price, with the budget before
/// and after the fill). Either way the fill is then finalized.
pub enum PostCancelFillPlan {
    NoFill,
    Full { detection: TradeBuilderCancelFillDetection, fill_notional: i128 },
    Partial {
        detection: TradeBuilderCancelFillDetection,
        fill_notional: i128,
        execution_price: i64,
        old_remaining_usdc: i64,
        new_remaining_usdc: i128,
    },
}

/// The mathematical form of a plan: the detection's source as characters.
pub enum PostCancelFillPlanView {
    NoFill,
    Full { qty: i64, source: Seq<char>, fill_notional: int },
    Partial { qty: i64, source: Seq<char>, fill_notional: int, execution_price: i64, old_remaining_usdc: i64, new_remaining_usdc: int },
}

impl View for PostCancelFillPlan {
    type V = PostCancelFillPlanView;

    open spec fn view(&self) -> PostCancelFillPlanView {
        match *self {
            PostCancelFillPlan::NoFill => PostCancelFillPlanView::NoFill,
            PostCancelFillPlan::Full { detection, fill_notional } =>
                PostCancelFillPlanView::Full { qty: detection.qty, source: detection.source@, fill_notional: fill_notional as int },
            PostCancelFillPlan::Partial { detection, fill_notional, execution_price, old_remaining_usdc, new_remaining_usdc } =>
                PostCancelFillPlanView::Partial {
                    qty: detection.qty,
                    source: detection.source@,
                    fill_notional: fill_notional as int,
                    execution_price,
                    old_remaining_usdc,
                    new_remaining_usdc: new_remaining_usdc as int,
                },
        }
    }
}

pub open spec fn opt_text_of(s: Option<String>) -> Option<Seq<char>> {
    match s {
        Some(t) => Some(t@),
        None => None,
    }
}

/// The status a reconciliation goes by: the exchange's after the cancel,
/// else `canceled`.
pub open spec fn spec_effective_status(o: PostCancelBuyObservation) -> Seq<char> {
    match opt_text_of(o.post_cancel_status) {
        Some(s) => s,
        None => "canceled"@,
    }
}

/// The notional of a detected fill of `qty` hundredths of a share: the
/// store's, where positive, else the quantity at the price seen after the
/// cancel, else the working price, else the current price.
pub open spec fn spec_plan_fill_notional(o: PostCancelBuyObservation, qty: i64) -> int {
    if o.db_fill_notional > 0 {
        o.db_fill_notional as int
    } else {
        let price: int = match o.post_cancel_price {
            Some(p) => p as int,
            None => match o.working_price {
                Some(p) => p as int,
                None => o.current_price as int,
            },
        };
        round_half_away(qty * price, 100)
    }
}

/// The price a partial fill executed at: the price of the latest read of
/// the order (after the cancel where the exchange answered, else before
/// it), else the working price, else the current price.
pub open spec fn spec_partial_execution_price(o: PostCancelBuyObservation) -> i64 {
    let read_price = if o.post_cancel_status is Some { o.post_cancel_price } else { o.order_info_price };
    match read_price {
        Some(p) => p,
        None => match o.working_price {
            Some(p) => p,
            None => o.current_price,
        },
    }
}

/// The budget an order had before a partial fill: the remaining budget,
/// else the order's remaining size, else its size.
pub open spec fn spec_old_remaining_usdc(o: PostCancelBuyObservation) -> i64 {
    match o.remaining_usdc {
        Some(v) => v,
        None => match o.order_remaining_size {
            Some(v) => v,
            None => o.size_usdc,
        },
    }
}

/// The plan for a canceled buy: no fill where none is detected (see
/// `spec_detected_cancel_fill`); a full fill where the status says filled
/// or the fill is within two hundredths of a share of the order's size;
/// else a partial fill, which leaves the old budget less the fill's
/// notional, never below zero.
pub open spec fn spec_post_cancel_fill_plan(o: PostCancelBuyObservation) -> PostCancelFillPlanView {
    match spec_detected_cancel_fill(o.post_cancel_filled_size, o.db_fill_qty, o.visible_inventory_fill_qty) {
        None => PostCancelFillPlanView::NoFill,
        Some((qty, source)) => {
            let notional = spec_plan_fill_notional(o, qty);
            if spec_cancel_fill_is_full(spec_effective_status(o), o.order_info_size, qty) {
                PostCancelFillPlanView::Full { qty, source, fill_notional: notional }
            } else {
                let old = spec_old_remaining_usdc(o);
                PostCancelFillPlanView::Partial {
                    qty,
                    source,
                    fill_notional: notional,
                    execution_price: spec_partial_execution_price(o),
                    old_remaining_usdc: old,
                    new_remaining_usdc: if old - notional < 0 { 0 } else { old - notional },
                }
            }
        },
    }
}

/// Decides what reconciling a canceled buy does, from what was read of it.
pub fn plan_post_cancel_buy_fill(o: &PostCancelBuyObservation) -> (r: PostCancelFillPlan)
    ensures
        r@ == spec_post_cancel_fill_plan(*o),
{
    let post_cancel_price: Option<i64> = if o.post_cancel_status.is_some() { o.post_cancel_price } else { None };
    let detection = trade_builder_detected_cancel_fill(o.post_cancel_filled_size, o.db_fill_qty, o.visible_inventory_fill_qty);
    let notional = trade_builder_detected_cancel_fill_notional(o.db_fill_notional, detection, o.post_cancel_price, o.working_price, o.current_price);
    let d = match detection {
        None => return PostCancelFillPlan::NoFill,
        Some(d) => d,
    };
    let status: &str = match &o.post_cancel_status {
        Some(s) => s.as_str(),
        None => "canceled",
    };
    if trade_builder_cancel_fill_is_full(status, o.order_info_size, d.qty) {
        return PostCancelFillPlan::Full { detection: d, fill_notional: notional };
    }
    let read_price: Option<i64> = if o.post_cancel_status.is_some() { post_cancel_price } else { o.order_info_price };
    let execution_price: i64 = match read_price {
        Some(p) => p,
        None => match o.working_price {
            Some(p) => p,
            None => o.current_price,
        },
    };
    let old_remaining: i64 = match o.remaining_usdc {
        Some(v) => v,
        None => match o.order_remaining_size {
            Some(v) => v,
            None => o.size_usdc,
        },
    };
    let left: i128 = (old_remaining as i128) - notional;
    let new_remaining: i128 = if left < 0 { 0 } else { left };
    PostCancelFillPlan::Partial {
        detection: d,
        fill_notional: notional,
        execution_price,
        old_remaining_usdc: old_remaining,
        new_remaining_usdc: new_remaining,
    }
}

/// Law: reconciling a canceled buy finalizes a fill exactly when one is
/// detected; the fill is full exactly when the order's status says filled
/// or the fill is within two hundredths of a share of the order's size; a
/// store notional that is positive is the fill's notional; and a partial
/// fill leaves the budget it had less the fill's notional, never below
/// zero and, for a fill of no negative notional, never above what it had.
pub proof fn law_post_cancel_plan(o: PostCancelBuyObservation)
    ensures
        ({
            let p = spec_post_cancel_fill_plan(o);
            let d = spec_detected_cancel_fill(o.post_cancel_filled_size, o.db_fill_qty, o.visible_inventory_fill_qty);
            &&& (p is NoFill) <==> d is None
            &&& (d matches Some((q, src)) ==> ((p is Full) <==> spec_cancel_fill_is_full(spec_effective_status(o), o.order_info_size, q)))
            &&& (p matches PostCancelFillPlanView::Full { qty, source, fill_notional } ==> {
                &&& d == Some((qty, source))
                &&& (o.db_fill_notional > 0 ==> fill_notional == o.db_fill_notional)
            })
            &&& (p matches PostCancelFillPlanView::Partial { qty, source, fill_notional, execution_price, old_remaining_usdc, new_remaining_usdc } ==> {
                &&& d == Some((qty, source))
                &&& (o.db_fill_notional > 0 ==> fill_notional == o.db_fill_notional)
                &&& new_remaining_usdc >= 0
                &&& new_remaining_usdc >= old_remaining_usdc - fill_notional
                &&& (new_remaining_usdc == 0 || new_remaining_usdc == old_remaining_usdc - fill_notional)
                &&& (fill_notional >= 0 ==> new_remaining_usdc <= if old_remaining_usdc > 0 { old_remaining_usdc as int } else { 0 })
            })
        }),
{
}

} // verus!
