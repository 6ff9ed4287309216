//! Share quantities: exchange sizes in millionths of a share, order
//! quantities in hundredths (two decimals, as orders are sized).
use vstd::prelude::*;
use crate::exit_errors::TradeBuilderTerminalFillQtySource;

verus! {

/// Millionths of a share in one hundredth.
pub const MICRO_SHARES_PER_CENTI: i64 = 10_000;

/// A size rounded to hundredths of a share, half away from zero; a negative
/// size counts as none.
pub open spec fn spec_round_share_qty(micro: i64) -> int {
    if micro <= 0 { 0 } else { (micro + 5_000) / 10_000 }
}

/// A size rounded down to hundredths of a share; a negative size counts as
/// none.
pub open spec fn spec_floor_share_qty(micro: i64) -> int {
    if micro <= 0 { 0 } else { micro / 10_000 }
}

pub fn round_trade_builder_share_qty(micro: i64) -> (r: i64)
    ensures
        r == spec_round_share_qty(micro),
        r >= 0,
{
    if micro <= 0 {
        0
    } else {
        let v: i128 = (micro as i128 + 5_000) / 10_000;
        v as i64
    }
}

pub fn floor_trade_builder_share_qty(micro: i64) -> (r: i64)
    ensures
        r == spec_floor_share_qty(micro),
        r >= 0,
{
    if micro <= 0 { 0 } else { micro / 10_000 }
}

/// The quantity to submit against what is visible: the request, or what is
/// available when less, rounded down to hundredths; nothing when that is
/// not positive. Both are in millionths of a share.
pub open spec fn spec_clamp_visible_share_qty(requested: i64, available: Option<i64>) -> Option<i64> {
    let effective = match available {
        Some(q) => if q < requested { q } else { requested },
        None => requested,
    };
    let c = spec_floor_share_qty(effective);
    if c > 0 { Some(c as i64) } else { None }
}

pub fn clamp_trade_builder_visible_share_qty(requested_qty: i64, available_qty: Option<i64>) -> (r: Option<i64>)
    ensures
        r == spec_clamp_visible_share_qty(requested_qty, available_qty),
{
    let effective = match available_qty {
        Some(q) => if q < requested_qty { q } else { requested_qty },
        None => requested_qty,
    };
    let c = floor_trade_builder_share_qty(effective);
    if c > 0 { Some(c) } else { None }
}

/// A terminal fill size, kept when it rounds to a positive quantity.
pub open spec fn spec_terminal_fill_candidate(value: Option<i64>) -> Option<i64> {
    match value {
        Some(v) => if spec_round_share_qty(v) > 0 { Some(spec_round_share_qty(v) as i64) } else { None },
        None => None,
    }
}

pub fn normalize_trade_builder_terminal_fill_qty_candidate(value: Option<i64>) -> (r: Option<i64>)
    ensures
        r == spec_terminal_fill_candidate(value),
{
    match value {
        Some(v) => {
            let q = round_trade_builder_share_qty(v);
            if q > 0 { Some(q) } else { None }
        },
        None => None,
    }
}

/// What the exchange and the store say of an order's fill, in millionths of
/// a share.
#[derive(Debug, Clone, Copy, PartialEq, Eq, Structural)]
pub struct TradeBuilderTerminalFillQtyCandidates {
    pub order_info_filled_size: Option<i64>,
    pub synced_db_fill_qty: Option<i64>,
    pub order_info_size: Option<i64>,
    pub stored_order_size: Option<i64>,
}

/// The terminal fill quantity (hundredths of a share), where it came from,
/// and the candidates it was chosen from.
#[derive(Debug, Clone, Copy, PartialEq, Eq, Structural)]
pub struct TradeBuilderResolvedTerminalFillQty {
    pub qty: i64,
    pub source: TradeBuilderTerminalFillQtySource,
    pub candidates: TradeBuilderTerminalFillQtyCandidates,
}

/// The first usable of: the exchange's filled size, the exchange's order
/// size, the stored order size.
pub open spec fn spec_select_terminal_fill_qty(c: TradeBuilderTerminalFillQtyCandidates) -> Option<(i64, TradeBuilderTerminalFillQtySource)> {
    match spec_terminal_fill_candidate(c.order_info_filled_size) {
        Some(q) => Some((q, TradeBuilderTerminalFillQtySource::OrderInfoFilledSize)),
        None => match spec_terminal_fill_candidate(c.order_info_size) {
            Some(q) => Some((q, TradeBuilderTerminalFillQtySource::OrderInfoSize)),
            None => match spec_terminal_fill_candidate(c.stored_order_size) {
                Some(q) => Some((q, TradeBuilderTerminalFillQtySource::StoredOrderSize)),
                None => None,
            },
        },
    }
}

pub fn select_trade_builder_terminal_fill_qty(candidates: TradeBuilderTerminalFillQtyCandidates) -> (r: Option<TradeBuilderResolvedTerminalFillQty>)
    ensures
        match r {
            Some(x) => spec_select_terminal_fill_qty(candidates) == Some((x.qty, x.source)) && x.candidates == candidates,
            None => spec_select_terminal_fill_qty(candidates) is None,
        },
{
    let (qty, source) = match normalize_trade_builder_terminal_fill_qty_candidate(candidates.order_info_filled_size) {
        Some(q) => (q, TradeBuilderTerminalFillQtySource::OrderInfoFilledSize),
        None => match normalize_trade_builder_terminal_fill_qty_candidate(candidates.order_info_size) {
            Some(q) => (q, TradeBuilderTerminalFillQtySource::OrderInfoSize),
            None => match normalize_trade_builder_terminal_fill_qty_candidate(candidates.stored_order_size) {
                Some(q) => (q, TradeBuilderTerminalFillQtySource::StoredOrderSize),
                None => return None,
            },
        },
    };
    Some(TradeBuilderResolvedTerminalFillQty { qty, source, candidates })
}

} // verus!
